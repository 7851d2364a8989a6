use vstd::prelude::*;

verus! {

/// An ordered snapshot of the logical execution contexts that were active
/// when a failure was recorded.  `captured` says whether the platform
/// captured one ("not captured" is not an error condition); `text` is its
/// rendered form.
pub struct SpanTrace {
    pub captured: bool,
    pub text: String,
}

impl SpanTrace {
    /// Capture the span trace active at the call site.
    pub fn capture() -> SpanTrace {
        let (captured, text) = capture_raw_span_trace();
        SpanTrace { captured, text }
    }

    /// Whether a span trace was captured here.
    pub fn status_captured(&self) -> (r: bool)
        ensures
            r == self.captured,
    {
        self.captured
    }

    /// The rendered form of the snapshot.
    pub fn text(&self) -> (r: &String)
        ensures
            r@ == self.text@,
    {
        &self.text
    }
}

impl Clone for SpanTrace {
    fn clone(&self) -> (r: Self)
        ensures
            r == *self,
    {
        SpanTrace { captured: self.captured, text: self.text.clone() }
    }
}

/// Relies on tracing_error's `SpanTrace::capture` (a snapshot of the spans
/// active at the call site), on `SpanTrace::status` (compared against
/// `CAPTURED`), and on its `Display` implementation (the rendered text).
/// The outcome depends on the ambient instrumentation, so nothing is
/// promised of it.
#[verifier::external_body]
fn capture_raw_span_trace() -> (bool, String) {
    let st = tracing_error::SpanTrace::capture();
    let captured = st.status() == tracing_error::SpanTraceStatus::CAPTURED;
    (captured, st.to_string())
}

} // verus!
