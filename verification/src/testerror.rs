use vstd::prelude::*;
use vstd::string::StrSliceExecFns;
use vstd::string::StringExecFns;
use crate::error::{AggregateError, ForeignError, ForeignErrorV, Link, LinkV};
use crate::frames::{Backtrace, Frame, Verbosity, opt_bt_view, clone_opt_backtrace, frames_from_raw};
use crate::render::{RenderNode, RenderNodeV, debug_render_spec, nodes_view, render_nodes};
use crate::spantrace::SpanTrace;
use anyhow::Error as AnyhowError;

verus! {

// The near-duplicate shape of the Unified Error Value that interactive tests
// return: here an attached message is never optional, and the chain nodes
// carry their own tags.

/// The test-facing Unified Error Value.
pub enum TestError {
    /// A foreign error that exposes the formatted-backtrace capability.
    Source { source: ForeignError, span_trace: SpanTrace, backtrace: Option<Backtrace> },
    /// An opaque foreign cause with an attached message.
    Message {
        message: String,
        span_trace: SpanTrace,
        source: ForeignError,
        backtrace: Option<Backtrace>,
    },
    /// An externally-aggregated error value.
    Anyhow { source: AggregateError, span_trace: SpanTrace, backtrace: Option<Backtrace> },
    /// An ad hoc message with an optional nested value.
    Whatever {
        message: String,
        span_trace: SpanTrace,
        source: Option<Box<TestError>>,
        backtrace: Option<Backtrace>,
    },
}

/// What one chain node renders from, tagged by the shape it came from.
pub enum Source {
    Root,
    Formatted(String),
    Error(String),
    TestError(String),
    Anyhow(String),
}

/// The ghost shape of a `Source`.
pub enum SourceV {
    Root,
    Formatted(Seq<char>),
    Error(Seq<char>),
    TestError(Seq<char>),
    Anyhow(Seq<char>),
}

impl View for Source {
    type V = SourceV;

    open spec fn view(&self) -> SourceV {
        match self {
            Source::Root => SourceV::Root,
            Source::Formatted(t) => SourceV::Formatted(t@),
            Source::Error(t) => SourceV::Error(t@),
            Source::TestError(t) => SourceV::TestError(t@),
            Source::Anyhow(t) => SourceV::Anyhow(t@),
        }
    }
}

impl SourceV {
    /// The display text of a chain node; the root marker reads `Root`.
    pub open spec fn text_spec(self) -> Seq<char> {
        match self {
            SourceV::Root => "Root"@,
            SourceV::Formatted(t) => t,
            SourceV::Error(t) => t,
            SourceV::TestError(t) => t,
            SourceV::Anyhow(t) => t,
        }
    }
}

impl Source {
    pub fn text(&self) -> (r: String)
        ensures
            r@ == self@.text_spec(),
    {
        match self {
            Source::Root => "Root".to_owned(),
            Source::Formatted(t) => t.clone(),
            Source::Error(t) => t.clone(),
            Source::TestError(t) => t.clone(),
            Source::Anyhow(t) => t.clone(),
        }
    }

    pub fn is_root(&self) -> (r: bool)
        ensures
            r == (self@ is Root),
    {
        match self {
            Source::Root => true,
            _ => false,
        }
    }
}

// ---- the walker's per-link rule ----

/// The chain node a probed link yields: a link with the capability carries
/// its own backtrace, one without carries none.
pub open spec fn link_entry(l: LinkV) -> (Option<Seq<Frame>>, SourceV) {
    if l.formatted {
        (l.backtrace, SourceV::Formatted(l.text))
    } else {
        (None, SourceV::Error(l.text))
    }
}

pub open spec fn link_entries(links: Seq<LinkV>) -> Seq<(Option<Seq<Frame>>, SourceV)> {
    links.map_values(|l: LinkV| link_entry(l))
}

/// The view of one walker output entry.
pub open spec fn entry_view(e: (Option<Backtrace>, Source)) -> (Option<Seq<Frame>>, SourceV) {
    (opt_bt_view(e.0), e.1@)
}

pub open spec fn entries_view(s: Seq<(Option<Backtrace>, Source)>) -> Seq<
    (Option<Seq<Frame>>, SourceV),
> {
    s.map_values(|e: (Option<Backtrace>, Source)| entry_view(e))
}

impl TestError {
    pub open spec fn span_trace_field(self) -> SpanTrace {
        match self {
            TestError::Source { span_trace, .. } => span_trace,
            TestError::Message { span_trace, .. } => span_trace,
            TestError::Anyhow { span_trace, .. } => span_trace,
            TestError::Whatever { span_trace, .. } => span_trace,
        }
    }

    pub open spec fn backtrace_field(self) -> Option<Backtrace> {
        match self {
            TestError::Source { backtrace, .. } => backtrace,
            TestError::Message { backtrace, .. } => backtrace,
            TestError::Anyhow { backtrace, .. } => backtrace,
            TestError::Whatever { backtrace, .. } => backtrace,
        }
    }

    /// The display text: an attached message prefixes the cause's text with a
    /// separating colon.
    pub open spec fn text_spec(self) -> Seq<char>
        decreases self,
    {
        match self {
            TestError::Source { source, .. } => source.head.text@,
            TestError::Message { message, source, .. } => message@ + ": "@ + source.head.text@,
            TestError::Anyhow { source, .. } => source.head_text@,
            TestError::Whatever { message, source, .. } => match source {
                Some(s) => message@ + ": "@ + s.text_spec(),
                None => message@,
            },
        }
    }

    /// The causal chain this value linearizes to.
    pub open spec fn stack_spec(self) -> Seq<(Option<Seq<Frame>>, SourceV)>
        decreases self,
    {
        match self {
            TestError::Source { source, backtrace, .. } => seq![
                (opt_bt_view(backtrace), SourceV::Root),
                link_entry(source.head@),
            ] + link_entries(source@.rest),
            TestError::Message { source, backtrace, .. } => seq![
                (opt_bt_view(backtrace), SourceV::Root),
                link_entry(source.head@),
            ] + link_entries(source@.rest),
            TestError::Anyhow { source, backtrace, .. } => seq![
                (opt_bt_view(backtrace), SourceV::Root),
                (Some(source.backtrace@), SourceV::Anyhow(source.head_text@)),
            ] + link_entries(source@.rest),
            TestError::Whatever { source, backtrace, .. } => match source {
                None => seq![(opt_bt_view(backtrace), SourceV::Root)],
                Some(s) => seq![
                    (opt_bt_view(backtrace), SourceV::Root),
                    (opt_bt_view(s.backtrace_field()), SourceV::TestError(s.text_spec())),
                ] + s.stack_spec(),
            },
        }
    }

    /// The span trace captured when this value was made.
    pub fn span_trace(&self) -> (r: &SpanTrace)
        ensures
            *r == self.span_trace_field(),
    {
        match self {
            TestError::Source { span_trace, .. } => span_trace,
            TestError::Message { span_trace, .. } => span_trace,
            TestError::Anyhow { span_trace, .. } => span_trace,
            TestError::Whatever { span_trace, .. } => span_trace,
        }
    }

    /// The backtrace captured when this value was made, if one was.
    pub fn backtrace(&self) -> (r: Option<Backtrace>)
        ensures
            opt_bt_view(r) == opt_bt_view(self.backtrace_field()),
    {
        match self {
            TestError::Source { backtrace, .. } => clone_opt_backtrace(backtrace),
            TestError::Message { backtrace, .. } => clone_opt_backtrace(backtrace),
            TestError::Anyhow { backtrace, .. } => clone_opt_backtrace(backtrace),
            TestError::Whatever { backtrace, .. } => clone_opt_backtrace(backtrace),
        }
    }

    /// The display text of this value.
    pub fn text(&self) -> (r: String)
        ensures
            r@ == self.text_spec(),
        decreases *self,
    {
        match self {
            TestError::Source { source, .. } => source.head.text.clone(),
            TestError::Message { message, source, .. } => {
                let mut out = message.clone();
                out.append(": ");
                out.append(source.head.text.as_str());
                out
            },
            TestError::Anyhow { source, .. } => source.head_text.clone(),
            TestError::Whatever { message, source, .. } => match source {
                Some(s) => {
                    let mut out = message.clone();
                    out.append(": ");
                    let inner = s.text();
                    out.append(inner.as_str());
                    out
                },
                None => message.clone(),
            },
        }
    }

    /// Linearize this value into its causal chain: the walker.
    pub fn stack(&self) -> (r: Vec<(Option<Backtrace>, Source)>)
        ensures
            entries_view(r@) == self.stack_spec(),
        decreases *self,
    {
        let mut out: Vec<(Option<Backtrace>, Source)> = Vec::new();
        match self {
            TestError::Source { source, backtrace, .. } => {
                out.push((clone_opt_backtrace(backtrace), Source::Root));
                out.push(link_entry_exec(&source.head));
                push_link_entries(&mut out, &source.rest);
                proof {
                    assert(entries_view(out@) =~= self.stack_spec());
                }
            },
            TestError::Message { source, backtrace, .. } => {
                out.push((clone_opt_backtrace(backtrace), Source::Root));
                out.push(link_entry_exec(&source.head));
                push_link_entries(&mut out, &source.rest);
                proof {
                    assert(entries_view(out@) =~= self.stack_spec());
                }
            },
            TestError::Anyhow { source, backtrace, .. } => {
                out.push((clone_opt_backtrace(backtrace), Source::Root));
                out.push((Some(source.backtrace.clone()), Source::Anyhow(source.head_text.clone())));
                push_link_entries(&mut out, &source.rest);
                proof {
                    assert(entries_view(out@) =~= self.stack_spec());
                }
            },
            TestError::Whatever { source, backtrace, .. } => {
                out.push((clone_opt_backtrace(backtrace), Source::Root));
                match source {
                    None => {
                        proof {
                            assert(entries_view(out@) =~= self.stack_spec());
                        }
                    },
                    Some(s) => {
                        out.push((s.backtrace(), Source::TestError(s.text())));
                        let mut sub = s.stack();
                        out.append(&mut sub);
                        proof {
                            assert(entries_view(out@) =~= self.stack_spec());
                        }
                    },
                }
            },
        }
        out
    }
}

fn link_entry_exec(l: &Link) -> (r: (Option<Backtrace>, Source))
    ensures
        entry_view(r) == link_entry(l@),
{
    if l.formatted {
        (clone_opt_backtrace(&l.backtrace), Source::Formatted(l.text.clone()))
    } else {
        (None, Source::Error(l.text.clone()))
    }
}

fn push_link_entries(out: &mut Vec<(Option<Backtrace>, Source)>, links: &Vec<Link>)
    ensures
        entries_view(final(out)@) == entries_view(old(out)@) + link_entries(
            links@.map_values(|l: Link| l@),
        ),
{
    let ghost linkviews = links@.map_values(|l: Link| l@);
    let mut i: usize = 0;
    while i < links.len()
        invariant
            i <= links@.len(),
            linkviews == links@.map_values(|l: Link| l@),
            entries_view(out@) =~= entries_view(old(out)@) + link_entries(linkviews.take(i as int)),
        decreases links@.len() - i,
    {
        let ghost prev = out@;
        let e = link_entry_exec(&links[i]);
        let ghost ev = entry_view(e);
        out.push(e);
        proof {
            assert(linkviews[i as int] == links@[i as int]@);
            assert(ev == link_entry(linkviews[i as int]));
            assert(entries_view(out@) =~= entries_view(prev).push(ev));
            assert(link_entries(linkviews.take(i + 1)) =~= link_entries(
                linkviews.take(i as int),
            ).push(link_entry(linkviews[i as int])));
            assert(entries_view(out@) =~= entries_view(old(out)@) + link_entries(
                linkviews.take(i + 1),
            ));
        }
        i += 1;
    }
    proof {
        assert(linkviews.take(linkviews.len() as int) =~= linkviews);
    }
}

// ---- the context attachment layer ----

/// `e` wraps the foreign failure `f` with the given message.
pub open spec fn wraps_foreign(f: ForeignErrorV, message: Seq<char>, e: TestError) -> bool {
    &&& e matches TestError::Message { message: m, source, .. }
    &&& m@ == message
    &&& source@ == f
}

/// `e` re-wraps the existing value `inner` with the given message.
pub open spec fn wraps_error(inner: TestError, message: Seq<char>, e: TestError) -> bool {
    &&& e matches TestError::Whatever { message: m, source: Some(s), .. }
    &&& m@ == message
    &&& *s == inner
}

/// `e` wraps an absent-value outcome with the given message.
pub open spec fn wraps_none(message: Seq<char>, e: TestError) -> bool {
    &&& e matches TestError::Message { message: m, source, .. }
    &&& m@ == message
    &&& source@.head.text == crate::error::none_error_text()
    &&& source@.head.formatted == false
    &&& source@.head.backtrace is None
    &&& source@.rest.len() == 0
}

/// Convert a failing outcome into a `TestError`, capturing a span trace and a
/// backtrace at the exact call site.
pub trait TestResultExt<T>: Sized {
    /// Whether the outcome succeeded.
    spec fn is_success(self) -> bool;

    /// The value a succeeding outcome carries.
    spec fn success_value(self) -> T;

    /// Whether `e` is a correct wrap of this failing outcome with `message`.
    spec fn wraps_with(self, message: Seq<char>, e: TestError) -> bool;

    /// Attach a fixed message.
    fn context(self, context: &str) -> (r: Result<T, TestError>)
        ensures
            self.is_success() ==> (r matches Ok(v) && v == self.success_value()),
            !self.is_success() ==> (r matches Err(e) && self.wraps_with(context@, e)),
    ;

    /// Attach a message computed only on the failure path.
    fn with_context<F: FnOnce() -> String>(self, context: F) -> (r: Result<T, TestError>)
        requires
            !self.is_success() ==> call_requires(context, ()),
        ensures
            self.is_success() ==> (r matches Ok(v) && v == self.success_value()),
            !self.is_success() ==> (r matches Err(e) && exists|m: String|
                #[trigger] call_ensures(context, (), m) && self.wraps_with(m@, e)),
    ;
}

impl<T> TestResultExt<T> for Result<T, ForeignError> {
    open spec fn is_success(self) -> bool {
        self is Ok
    }

    open spec fn success_value(self) -> T {
        self->Ok_0
    }

    open spec fn wraps_with(self, message: Seq<char>, e: TestError) -> bool {
        wraps_foreign(self->Err_0@, message, e)
    }

    fn context(self, context: &str) -> (r: Result<T, TestError>) {
        match self {
            Ok(v) => Ok(v),
            Err(f) => Err(
                TestError::Message {
                    message: context.to_owned(),
                    span_trace: SpanTrace::capture(),
                    source: f,
                    backtrace: crate::frames::capture_backtrace(),
                },
            ),
        }
    }

    fn with_context<F: FnOnce() -> String>(self, context: F) -> (r: Result<T, TestError>) {
        match self {
            Ok(v) => Ok(v),
            Err(f) => {
                let m = context();
                Err(
                    TestError::Message {
                        message: m,
                        span_trace: SpanTrace::capture(),
                        source: f,
                        backtrace: crate::frames::capture_backtrace(),
                    },
                )
            },
        }
    }
}

impl<T> TestResultExt<T> for Result<T, TestError> {
    open spec fn is_success(self) -> bool {
        self is Ok
    }

    open spec fn success_value(self) -> T {
        self->Ok_0
    }

    open spec fn wraps_with(self, message: Seq<char>, e: TestError) -> bool {
        wraps_error(self->Err_0, message, e)
    }

    fn context(self, context: &str) -> (r: Result<T, TestError>) {
        match self {
            Ok(v) => Ok(v),
            Err(inner) => Err(
                TestError::Whatever {
                    message: context.to_owned(),
                    span_trace: SpanTrace::capture(),
                    source: Some(Box::new(inner)),
                    backtrace: crate::frames::capture_backtrace(),
                },
            ),
        }
    }

    fn with_context<F: FnOnce() -> String>(self, context: F) -> (r: Result<T, TestError>) {
        match self {
            Ok(v) => Ok(v),
            Err(inner) => {
                let m = context();
                Err(
                    TestError::Whatever {
                        message: m,
                        span_trace: SpanTrace::capture(),
                        source: Some(Box::new(inner)),
                        backtrace: crate::frames::capture_backtrace(),
                    },
                )
            },
        }
    }
}

impl<T> TestResultExt<T> for Option<T> {
    open spec fn is_success(self) -> bool {
        self is Some
    }

    open spec fn success_value(self) -> T {
        self->Some_0
    }

    open spec fn wraps_with(self, message: Seq<char>, e: TestError) -> bool {
        wraps_none(message, e)
    }

    fn context(self, context: &str) -> (r: Result<T, TestError>) {
        match self {
            Some(v) => Ok(v),
            None => Err(
                TestError::Message {
                    message: context.to_owned(),
                    span_trace: SpanTrace::capture(),
                    source: crate::error::none_error_link(),
                    backtrace: crate::frames::capture_backtrace(),
                },
            ),
        }
    }

    fn with_context<F: FnOnce() -> String>(self, context: F) -> (r: Result<T, TestError>) {
        match self {
            Some(v) => Ok(v),
            None => {
                let m = context();
                Err(
                    TestError::Message {
                        message: m,
                        span_trace: SpanTrace::capture(),
                        source: crate::error::none_error_link(),
                        backtrace: crate::frames::capture_backtrace(),
                    },
                )
            },
        }
    }
}

// ---- constructors ----

impl TestError {
    /// Wrap a foreign error that exposes the formatted-backtrace capability.
    pub fn from_foreign(source: ForeignError) -> (r: TestError)
        ensures
            r matches TestError::Source { source: s, .. } && s@ == source@,
    {
        TestError::Source {
            source,
            span_trace: SpanTrace::capture(),
            backtrace: crate::frames::capture_backtrace(),
        }
    }

    /// Build from a bare message, with no cause.
    pub fn without_source(message: String) -> (r: TestError)
        ensures
            r matches TestError::Whatever { message: m, source, .. } && m == message && source
                is None,
    {
        TestError::Whatever {
            message,
            span_trace: SpanTrace::capture(),
            source: None,
            backtrace: crate::frames::capture_backtrace(),
        }
    }

    /// Wrap an existing value with a message.
    pub fn with_source(source: TestError, message: String) -> (r: TestError)
        ensures
            r matches TestError::Whatever { message: m, source: Some(s), .. } && m == message && *s
                == source,
    {
        TestError::Whatever {
            message,
            span_trace: SpanTrace::capture(),
            source: Some(Box::new(source)),
            backtrace: crate::frames::capture_backtrace(),
        }
    }

    /// Wrap an externally-aggregated chain that has already been recorded.
    pub fn from_aggregate(source: AggregateError) -> (r: TestError)
        ensures
            r matches TestError::Anyhow { source: s, .. } && s@ == source@,
    {
        TestError::Anyhow {
            source,
            span_trace: SpanTrace::capture(),
            backtrace: crate::frames::capture_backtrace(),
        }
    }

    /// Convert an externally-aggregated error value, recording at this
    /// boundary the texts its chain hands back — the value's own first, then
    /// one opaque, backtrace-free link per declared cause — and its root
    /// backtrace.  The texts come from foreign `Display` impls and cannot be
    /// pinned here; `from_aggregate` states the exact relation between a
    /// recorded chain and the value built from it.
    pub fn anyhow(err: AnyhowError) -> (r: TestError)
        ensures
            r matches TestError::Anyhow { source, .. } && forall|j: int|
                0 <= j < source@.rest.len() ==> (#[trigger] source@.rest[j]).formatted == false
                    && source@.rest[j].backtrace is None,
    {
        let texts = crate::error::anyhow_chain_texts(&err);
        let frames = match crate::error::anyhow_backtrace_frames(&err) {
            Some(raw) => frames_from_raw(raw),
            None => Vec::new(),
        };
        let head_text = texts[0].clone();
        let mut rest: Vec<Link> = Vec::new();
        let mut i: usize = 1;
        while i < texts.len()
            invariant
                1 <= i,
                rest@.len() == i - 1,
                forall|j: int|
                    0 <= j < rest@.len() ==> (#[trigger] rest@[j]).formatted == false
                        && rest@[j].backtrace is None,
            decreases texts@.len() - i,
        {
            rest.push(Link { text: texts[i].clone(), formatted: false, backtrace: None });
            i += 1;
        }
        TestError::from_aggregate(
            AggregateError { head_text, backtrace: Backtrace { frames }, rest },
        )
    }
}

// ---- the full-trace renderer ----

/// The fixed noise prefixes of this shape's own plumbing.
pub open spec fn testerror_noise_prefixes() -> Seq<Seq<char>> {
    seq![
        "<n0_snafu::testerror::TestError"@,
        "n0_snafu::testerror::TestError::anyhow"@,
        "<core::pin::Pin<P> as core::future::future::Future>::poll"@,
        "<core::result::Result<T,F> as core::ops::try_trait::FromResidual<core::result::Result<core::convert::Infallible,E>>>::from_residual"@,
    ]
}

pub fn testerror_noise_prefixes_exec() -> (r: Vec<String>)
    ensures
        r@.map_values(|p: String| p@) == testerror_noise_prefixes(),
{
    let mut v: Vec<String> = Vec::new();
    v.push("<n0_snafu::testerror::TestError".to_owned());
    v.push("n0_snafu::testerror::TestError::anyhow".to_owned());
    v.push("<core::pin::Pin<P> as core::future::future::Future>::poll".to_owned());
    v.push(
        "<core::result::Result<T,F> as core::ops::try_trait::FromResidual<core::result::Result<core::convert::Infallible,E>>>::from_residual".to_owned(),
    );
    proof {
        assert(v@.map_values(|p: String| p@) =~= testerror_noise_prefixes());
    }
    v
}

/// The renderable node a walker entry yields.
pub open spec fn node_of(entry: (Option<Seq<Frame>>, SourceV)) -> RenderNodeV {
    RenderNodeV {
        backtrace: entry.0,
        text: if entry.1 is Root {
            None
        } else {
            Some(entry.1.text_spec())
        },
    }
}

pub open spec fn nodes_of(entries: Seq<(Option<Seq<Frame>>, SourceV)>) -> Seq<RenderNodeV> {
    entries.map_values(|e: (Option<Seq<Frame>>, SourceV)| node_of(e))
}

/// Turn walker output into renderable nodes.
pub fn stack_nodes(entries: &Vec<(Option<Backtrace>, Source)>) -> (r: Vec<RenderNode>)
    ensures
        nodes_view(r@) == nodes_of(entries_view(entries@)),
{
    let mut out: Vec<RenderNode> = Vec::new();
    let mut i: usize = 0;
    while i < entries.len()
        invariant
            i <= entries@.len(),
            nodes_view(out@) =~= nodes_of(entries_view(entries@)).take(i as int),
        decreases entries@.len() - i,
    {
        let text = if entries[i].1.is_root() {
            None
        } else {
            Some(entries[i].1.text())
        };
        let ghost prev = out@;
        let n = RenderNode { backtrace: clone_opt_backtrace(&entries[i].0), text };
        let ghost nv = n@;
        out.push(n);
        proof {
            let full = nodes_of(entries_view(entries@));
            assert(entries_view(entries@)[i as int] == entry_view(entries@[i as int]));
            assert(full[i as int] == node_of(entry_view(entries@[i as int])));
            assert(nv == node_of(entry_view(entries@[i as int])));
            assert(out@ == prev.push(n));
            assert(nodes_view(prev).len() == prev.len());
            assert(prev.len() == i as int);
            assert forall|j: int| 0 <= j < i + 1 implies nodes_view(out@)[j] == full.take(i + 1)[j]
                by {
                assert(nodes_view(out@)[j] == out@[j]@);
                if j < i {
                    assert(out@[j] == prev[j]);
                    assert(nodes_view(prev)[j] == prev[j]@);
                    assert(nodes_view(prev)[j] == full.take(i as int)[j]);
                } else {
                    assert(out@[j] == n);
                }
            }
            assert(nodes_view(out@) =~= full.take(i + 1));
        }
        i += 1;
    }
    proof {
        assert(nodes_of(entries_view(entries@)).take(entries@.len() as int) =~= nodes_of(
            entries_view(entries@),
        ));
    }
    out
}

impl TestError {
    /// The full diagnostic text of this value at the given verbosity.
    pub open spec fn debug_text_spec(self, v: Verbosity) -> Seq<char> {
        debug_render_spec(
            nodes_of(self.stack_spec()),
            self.span_trace_field().captured,
            self.span_trace_field().text@,
            testerror_noise_prefixes(),
            v,
        )
    }

    /// Render the full diagnostic text.
    pub fn debug_text(&self, v: Verbosity) -> (r: String)
        ensures
            r@ == self.debug_text_spec(v),
    {
        let stack = self.stack();
        let nodes = stack_nodes(&stack);
        let prefixes = testerror_noise_prefixes_exec();
        render_nodes(&nodes, self.span_trace(), &prefixes, v)
    }

    /// Render with the verbosity read from the environment.
    pub fn debug_report(&self) -> (r: String)
        ensures
            exists|v: Verbosity| r@ == self.debug_text_spec(v),
    {
        let v = crate::frames::verbosity_from_env();
        let out = self.debug_text(v);
        proof {
            assert(out@ == self.debug_text_spec(v));
        }
        out
    }
}

// ---- the laws of this walker, restated for the test-facing shape ----

/// Law: wrapping a foreign failure with `context` yields a chain one node
/// longer than the failure's own causal chain.
pub proof fn lemma_context_chain_length(f: ForeignError, message: Seq<char>, e: TestError)
    requires
        wraps_foreign(f@, message, e),
    ensures
        e.stack_spec().len() == f.chain_len() + 1,
{
}

/// Law: wrapping an absent-value outcome yields a chain of length two.
pub proof fn lemma_option_context_chain_length(message: Seq<char>, e: TestError)
    requires
        wraps_none(message, e),
    ensures
        e.stack_spec().len() == 2,
{
}

/// Law: re-wrapping appends the nested value's whole chain directly.
pub proof fn lemma_rewrap_flattens(inner: TestError, message: Seq<char>, e: TestError)
    requires
        wraps_error(inner, message, e),
    ensures
        e.stack_spec() == seq![
            (opt_bt_view(e.backtrace_field()), SourceV::Root),
            (opt_bt_view(inner.backtrace_field()), SourceV::TestError(inner.text_spec())),
        ] + inner.stack_spec(),
{
}

/// Law: no chain ever holds two adjacent root markers.
pub proof fn lemma_no_adjacent_root_markers(e: TestError)
    ensures
        forall|i: int|
            0 <= i < e.stack_spec().len() - 1 ==> !((#[trigger] e.stack_spec()[i]).1 is Root
                && e.stack_spec()[i + 1].1 is Root),
    decreases e,
{
    let st = e.stack_spec();
    match e {
        TestError::Source { source, .. } => {
            assert forall|i: int| 0 <= i < st.len() - 1 implies !((#[trigger] st[i]).1 is Root
                && st[i + 1].1 is Root) by {
                if i + 1 >= 2 {
                    assert(st[i + 1].1 == link_entry(source@.rest[i + 1 - 2]).1);
                }
            }
        },
        TestError::Message { source, .. } => {
            assert forall|i: int| 0 <= i < st.len() - 1 implies !((#[trigger] st[i]).1 is Root
                && st[i + 1].1 is Root) by {
                if i + 1 >= 2 {
                    assert(st[i + 1].1 == link_entry(source@.rest[i + 1 - 2]).1);
                }
            }
        },
        TestError::Anyhow { source, .. } => {
            assert forall|i: int| 0 <= i < st.len() - 1 implies !((#[trigger] st[i]).1 is Root
                && st[i + 1].1 is Root) by {
                if i + 1 >= 2 {
                    assert(st[i + 1].1 == link_entry(source@.rest[i + 1 - 2]).1);
                }
            }
        },
        TestError::Whatever { source, .. } => {
            match source {
                None => {},
                Some(s) => {
                    lemma_no_adjacent_root_markers(*s);
                    let sub = s.stack_spec();
                    assert forall|i: int| 0 <= i < st.len() - 1 implies !((#[trigger] st[i]).1
                        is Root && st[i + 1].1 is Root) by {
                        if i >= 2 {
                            assert(st[i] == sub[i - 2]);
                            assert(st[i + 1] == sub[i - 1]);
                        }
                    }
                },
            }
        },
    }
}

} // verus!
