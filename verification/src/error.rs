use vstd::prelude::*;
use vstd::string::StrSliceExecFns;
use vstd::string::StringExecFns;
use crate::frames::{Backtrace, Frame, opt_bt_view, clone_opt_backtrace, frames_from_raw};
use crate::frames::Verbosity;
use crate::render::{RenderNode, RenderNodeV, debug_render_spec, nodes_view, render_nodes};
use crate::spantrace::SpanTrace;
use anyhow::Error as AnyhowError;

verus! {

// The Unified Error Value and its causal-chain walker.  Foreign errors enter
// through one conversion point each and are recorded as plain data: a display
// text per link, an explicit tag saying whether the link carries the
// formatted-backtrace capability, and the backtrace itself when it does.

/// One link of a foreign causal chain.
pub struct Link {
    pub text: String,
    pub formatted: bool,
    pub backtrace: Option<Backtrace>,
}

/// The ghost shape of a `Link`.
pub struct LinkV {
    pub text: Seq<char>,
    pub formatted: bool,
    pub backtrace: Option<Seq<Frame>>,
}

impl View for Link {
    type V = LinkV;

    open spec fn view(&self) -> LinkV {
        LinkV { text: self.text@, formatted: self.formatted, backtrace: opt_bt_view(self.backtrace) }
    }
}

/// The record a foreign error leaves at the boundary: its own display text
/// and capability, then one link per declared cause.
pub struct ForeignError {
    pub head: Link,
    pub rest: Vec<Link>,
}

/// The ghost shape of a `ForeignError`.
pub struct ForeignErrorV {
    pub head: LinkV,
    pub rest: Seq<LinkV>,
}

impl View for ForeignError {
    type V = ForeignErrorV;

    open spec fn view(&self) -> ForeignErrorV {
        ForeignErrorV { head: self.head@, rest: self.rest@.map_values(|l: Link| l@) }
    }
}

impl ForeignError {
    /// How many links the foreign causal chain has, the error itself included.
    pub open spec fn chain_len(self) -> nat {
        1 + self.rest@.len()
    }
}

/// The record of an externally-aggregated error value: a ready-made chain
/// whose root carries a backtrace in the normalized shape.
pub struct AggregateError {
    pub head_text: String,
    pub backtrace: Backtrace,
    pub rest: Vec<Link>,
}

/// The ghost shape of an `AggregateError`.
pub struct AggregateErrorV {
    pub head_text: Seq<char>,
    pub backtrace: Seq<Frame>,
    pub rest: Seq<LinkV>,
}

impl View for AggregateError {
    type V = AggregateErrorV;

    open spec fn view(&self) -> AggregateErrorV {
        AggregateErrorV {
            head_text: self.head_text@,
            backtrace: self.backtrace@,
            rest: self.rest@.map_values(|l: Link| l@),
        }
    }
}

/// The Unified Error Value: one of four closed shapes, each holding a span
/// trace and at most one backtrace, both captured when the value was made.
pub enum Error {
    /// A foreign error that exposes the formatted-backtrace capability.
    Source { source: ForeignError, span_trace: SpanTrace, backtrace: Option<Backtrace> },
    /// An opaque foreign cause with an optional attached message.
    Message {
        message: Option<String>,
        span_trace: SpanTrace,
        source: ForeignError,
        backtrace: Option<Backtrace>,
    },
    /// An externally-aggregated error value.
    Anyhow { source: AggregateError, span_trace: SpanTrace, backtrace: Option<Backtrace> },
    /// An ad hoc message and/or a nested Unified Error Value.
    Whatever {
        message: Option<String>,
        span_trace: SpanTrace,
        source: Option<Box<Error>>,
        backtrace: Option<Backtrace>,
    },
}

/// What one chain node renders from: the root marker, or the display text of
/// the error it stands for, tagged by the shape it came from.
pub enum Source {
    Root,
    Formatted(String),
    SnafuError(String),
    Error(String),
    Anyhow(String),
}

/// The ghost shape of a `Source`.
pub enum SourceV {
    Root,
    Formatted(Seq<char>),
    SnafuError(Seq<char>),
    Error(Seq<char>),
    Anyhow(Seq<char>),
}

impl View for Source {
    type V = SourceV;

    open spec fn view(&self) -> SourceV {
        match self {
            Source::Root => SourceV::Root,
            Source::Formatted(t) => SourceV::Formatted(t@),
            Source::SnafuError(t) => SourceV::SnafuError(t@),
            Source::Error(t) => SourceV::Error(t@),
            Source::Anyhow(t) => SourceV::Anyhow(t@),
        }
    }
}

impl SourceV {
    /// The display text of a chain node; the root marker reads `Root`.
    pub open spec fn text_spec(self) -> Seq<char> {
        match self {
            SourceV::Root => "Root"@,
            SourceV::Formatted(t) => t,
            SourceV::SnafuError(t) => t,
            SourceV::Error(t) => t,
            SourceV::Anyhow(t) => t,
        }
    }
}

impl Source {
    pub fn text(&self) -> (r: String)
        ensures
            r@ == self@.text_spec(),
    {
        match self {
            Source::Root => "Root".to_owned(),
            Source::Formatted(t) => t.clone(),
            Source::SnafuError(t) => t.clone(),
            Source::Error(t) => t.clone(),
            Source::Anyhow(t) => t.clone(),
        }
    }

    pub fn is_root(&self) -> (r: bool)
        ensures
            r == (self@ is Root),
    {
        match self {
            Source::Root => true,
            _ => false,
        }
    }
}

impl Clone for Source {
    fn clone(&self) -> (r: Self)
        ensures
            r@ == self@,
    {
        match self {
            Source::Root => Source::Root,
            Source::Formatted(t) => Source::Formatted(t.clone()),
            Source::SnafuError(t) => Source::SnafuError(t.clone()),
            Source::Error(t) => Source::Error(t.clone()),
            Source::Anyhow(t) => Source::Anyhow(t.clone()),
        }
    }
}

// ---- the walker's per-link rule ----

/// The chain node a probed link yields: a link with the capability carries
/// its own backtrace, one without carries none (never a fabricated one).
pub open spec fn link_entry(l: LinkV) -> (Option<Seq<Frame>>, SourceV) {
    if l.formatted {
        (l.backtrace, SourceV::Formatted(l.text))
    } else {
        (None, SourceV::SnafuError(l.text))
    }
}

pub open spec fn link_entries(links: Seq<LinkV>) -> Seq<(Option<Seq<Frame>>, SourceV)> {
    links.map_values(|l: LinkV| link_entry(l))
}

/// The view of one walker output entry.
pub open spec fn entry_view(e: (Option<Backtrace>, Source)) -> (Option<Seq<Frame>>, SourceV) {
    (opt_bt_view(e.0), e.1@)
}

pub open spec fn entries_view(s: Seq<(Option<Backtrace>, Source)>) -> Seq<
    (Option<Seq<Frame>>, SourceV),
> {
    s.map_values(|e: (Option<Backtrace>, Source)| entry_view(e))
}

impl Error {
    pub open spec fn span_trace_field(self) -> SpanTrace {
        match self {
            Error::Source { span_trace, .. } => span_trace,
            Error::Message { span_trace, .. } => span_trace,
            Error::Anyhow { span_trace, .. } => span_trace,
            Error::Whatever { span_trace, .. } => span_trace,
        }
    }

    pub open spec fn backtrace_field(self) -> Option<Backtrace> {
        match self {
            Error::Source { backtrace, .. } => backtrace,
            Error::Message { backtrace, .. } => backtrace,
            Error::Anyhow { backtrace, .. } => backtrace,
            Error::Whatever { backtrace, .. } => backtrace,
        }
    }

    /// The display text of a Unified Error Value: an attached message
    /// prefixes the cause's text with a separating colon; without a message
    /// the cause's own text stands alone.
    pub open spec fn text_spec(self) -> Seq<char>
        decreases self,
    {
        match self {
            Error::Source { source, .. } => source.head.text@,
            Error::Message { message, source, .. } => match message {
                Some(m) => m@ + ": "@ + source.head.text@,
                None => source.head.text@,
            },
            Error::Anyhow { source, .. } => source.head_text@,
            Error::Whatever { message, source, .. } => match (message, source) {
                (Some(m), Some(s)) => m@ + ": "@ + s.text_spec(),
                (Some(m), None) => m@,
                (None, Some(s)) => s.text_spec(),
                (None, None) => "Error"@,
            },
        }
    }

    /// The causal chain a value linearizes to: the root marker first, then
    /// one node per cause, creation-outward.
    pub open spec fn stack_spec(self) -> Seq<(Option<Seq<Frame>>, SourceV)>
        decreases self,
    {
        match self {
            Error::Source { source, backtrace, .. } => seq![
                (opt_bt_view(backtrace), SourceV::Root),
                link_entry(source.head@),
            ] + link_entries(source@.rest),
            Error::Message { source, backtrace, .. } => seq![
                (opt_bt_view(backtrace), SourceV::Root),
                link_entry(source.head@),
            ] + link_entries(source@.rest),
            Error::Anyhow { source, backtrace, .. } => seq![
                (opt_bt_view(backtrace), SourceV::Root),
                (Some(source.backtrace@), SourceV::Anyhow(source.head_text@)),
            ] + link_entries(source@.rest),
            Error::Whatever { source, backtrace, .. } => match source {
                None => seq![(opt_bt_view(backtrace), SourceV::Root)],
                Some(s) => seq![
                    (opt_bt_view(backtrace), SourceV::Root),
                    (opt_bt_view(s.backtrace_field()), SourceV::Error(s.text_spec())),
                ] + s.stack_spec(),
            },
        }
    }

    /// The span trace captured when this value was made.
    pub fn span_trace(&self) -> (r: &SpanTrace)
        ensures
            *r == self.span_trace_field(),
    {
        match self {
            Error::Source { span_trace, .. } => span_trace,
            Error::Message { span_trace, .. } => span_trace,
            Error::Anyhow { span_trace, .. } => span_trace,
            Error::Whatever { span_trace, .. } => span_trace,
        }
    }

    /// The backtrace captured when this value was made, if one was.
    pub fn backtrace(&self) -> (r: Option<Backtrace>)
        ensures
            opt_bt_view(r) == opt_bt_view(self.backtrace_field()),
    {
        match self {
            Error::Source { backtrace, .. } => clone_opt_backtrace(backtrace),
            Error::Message { backtrace, .. } => clone_opt_backtrace(backtrace),
            Error::Anyhow { backtrace, .. } => clone_opt_backtrace(backtrace),
            Error::Whatever { backtrace, .. } => clone_opt_backtrace(backtrace),
        }
    }

    /// The display text of this value.
    pub fn text(&self) -> (r: String)
        ensures
            r@ == self.text_spec(),
        decreases *self,
    {
        match self {
            Error::Source { source, .. } => source.head.text.clone(),
            Error::Message { message, source, .. } => match message {
                Some(m) => {
                    let mut out = m.clone();
                    out.append(": ");
                    out.append(source.head.text.as_str());
                    out
                },
                None => source.head.text.clone(),
            },
            Error::Anyhow { source, .. } => source.head_text.clone(),
            Error::Whatever { message, source, .. } => match (message, source) {
                (Some(m), Some(s)) => {
                    let mut out = m.clone();
                    out.append(": ");
                    let inner = s.text();
                    out.append(inner.as_str());
                    out
                },
                (Some(m), None) => m.clone(),
                (None, Some(s)) => s.text(),
                (None, None) => "Error".to_owned(),
            },
        }
    }

    /// Linearize this value into its causal chain: the walker.
    pub fn stack(&self) -> (r: Vec<(Option<Backtrace>, Source)>)
        ensures
            entries_view(r@) == self.stack_spec(),
        decreases *self,
    {
        let mut out: Vec<(Option<Backtrace>, Source)> = Vec::new();
        match self {
            Error::Source { source, backtrace, .. } => {
                out.push((clone_opt_backtrace(backtrace), Source::Root));
                out.push(link_entry_exec(&source.head));
                push_link_entries(&mut out, &source.rest);
                proof {
                    assert(entries_view(out@) =~= self.stack_spec());
                }
            },
            Error::Message { source, backtrace, .. } => {
                out.push((clone_opt_backtrace(backtrace), Source::Root));
                out.push(link_entry_exec(&source.head));
                push_link_entries(&mut out, &source.rest);
                proof {
                    assert(entries_view(out@) =~= self.stack_spec());
                }
            },
            Error::Anyhow { source, backtrace, .. } => {
                out.push((clone_opt_backtrace(backtrace), Source::Root));
                out.push((Some(source.backtrace.clone()), Source::Anyhow(source.head_text.clone())));
                push_link_entries(&mut out, &source.rest);
                proof {
                    assert(entries_view(out@) =~= self.stack_spec());
                }
            },
            Error::Whatever { source, backtrace, .. } => {
                out.push((clone_opt_backtrace(backtrace), Source::Root));
                match source {
                    None => {
                        proof {
                            assert(entries_view(out@) =~= self.stack_spec());
                        }
                    },
                    Some(s) => {
                        out.push((s.backtrace(), Source::Error(s.text())));
                        let mut sub = s.stack();
                        out.append(&mut sub);
                        proof {
                            assert(entries_view(out@) =~= self.stack_spec());
                        }
                    },
                }
            },
        }
        out
    }
}

// ---- presenting a failure: the trait the report renderers consume ----

/// A failure that can present itself: its display text, the display texts of
/// its whole declared-cause chain (its own first), and its backtrace when the
/// capability is proven.
pub trait Formatted {
    /// The display text.
    spec fn text_spec(&self) -> Seq<char>;

    /// The display texts along the declared-cause chain, this value's first.
    spec fn chain_texts_spec(&self) -> Seq<Seq<char>>;

    /// The backtrace, when the capability is there.
    spec fn backtrace_spec(&self) -> Option<Seq<Frame>>;

    fn error_text(&self) -> (r: String)
        ensures
            r@ == self.text_spec(),
    ;

    fn chain_texts(&self) -> (r: Vec<String>)
        ensures
            r@.map_values(|s: String| s@) == self.chain_texts_spec(),
            r@.len() >= 1,
    ;

    fn backtrace(&self) -> (r: Option<Backtrace>)
        ensures
            opt_bt_view(r) == self.backtrace_spec(),
    ;
}

impl Formatted for ForeignError {
    open spec fn text_spec(&self) -> Seq<char> {
        self.head.text@
    }

    open spec fn chain_texts_spec(&self) -> Seq<Seq<char>> {
        seq![self.head.text@] + self.rest@.map_values(|l: Link| l.text@)
    }

    open spec fn backtrace_spec(&self) -> Option<Seq<Frame>> {
        opt_bt_view(self.head.backtrace)
    }

    fn error_text(&self) -> (r: String) {
        self.head.text.clone()
    }

    fn chain_texts(&self) -> (r: Vec<String>) {
        let ghost target = self.chain_texts_spec();
        let mut out: Vec<String> = Vec::new();
        out.push(self.head.text.clone());
        let mut i: usize = 0;
        while i < self.rest.len()
            invariant
                i <= self.rest@.len(),
                target == self.chain_texts_spec(),
                out@.len() == i + 1,
                out@.map_values(|s: String| s@) =~= target.take(i + 1),
            decreases self.rest@.len() - i,
        {
            out.push(self.rest[i].text.clone());
            proof {
                assert(target[i + 1] == self.rest@.map_values(|l: Link| l.text@)[i as int]);
                assert(out@.map_values(|s: String| s@) =~= target.take(i + 2));
            }
            i += 1;
        }
        proof {
            assert(target.take(target.len() as int) =~= target);
        }
        out
    }

    fn backtrace(&self) -> (r: Option<Backtrace>) {
        clone_opt_backtrace(&self.head.backtrace)
    }
}

// ---- the context attachment layer ----

pub open spec fn opt_message_view(m: Option<String>) -> Option<Seq<char>> {
    match m {
        Some(s) => Some(s@),
        None => None,
    }
}

/// The cause text synthesized for an absent-value outcome.
pub open spec fn none_error_text() -> Seq<char> {
    "Expected some, found none"@
}

/// `e` wraps the foreign failure `f` with the given message: the opaque-cause
/// shape, a fresh span trace and backtrace notwithstanding.
pub open spec fn wraps_foreign(f: ForeignErrorV, message: Option<Seq<char>>, e: Error) -> bool {
    &&& e matches Error::Message { message: m, source, .. }
    &&& opt_message_view(m) == message
    &&& source@ == f
}

/// `e` re-wraps the existing Unified Error Value `inner` with the given
/// message: the flexible shape with `inner` nested whole.
pub open spec fn wraps_error(inner: Error, message: Option<Seq<char>>, e: Error) -> bool {
    &&& e matches Error::Whatever { message: m, source: Some(s), .. }
    &&& opt_message_view(m) == message
    &&& *s == inner
}

/// `e` wraps an absent-value outcome with the given message: the opaque-cause
/// shape around the one synthesized absence cause.
pub open spec fn wraps_none(message: Option<Seq<char>>, e: Error) -> bool {
    &&& e matches Error::Message { message: m, source, .. }
    &&& opt_message_view(m) == message
    &&& source@.head.text == none_error_text()
    &&& source@.head.formatted == false
    &&& source@.head.backtrace is None
    &&& source@.rest.len() == 0
}

/// Convert a failing outcome into a Unified Error Value, capturing a span
/// trace and a backtrace at the exact call site; a succeeding outcome is
/// returned unchanged.
pub trait ResultExt<T>: Sized {
    /// Whether the outcome succeeded.
    spec fn is_success(self) -> bool;

    /// The value a succeeding outcome carries.
    spec fn success_value(self) -> T;

    /// Whether `e` is a correct wrap of this failing outcome with `message`.
    spec fn wraps_with(self, message: Option<Seq<char>>, e: Error) -> bool;

    /// Attach a fixed message.
    fn context(self, context: &str) -> (r: Result<T, Error>)
        ensures
            self.is_success() ==> (r matches Ok(v) && v == self.success_value()),
            !self.is_success() ==> (r matches Err(e) && self.wraps_with(Some(context@), e)),
    ;

    /// Attach a message computed only on the failure path.
    fn with_context<F: FnOnce() -> String>(self, context: F) -> (r: Result<T, Error>)
        requires
            !self.is_success() ==> call_requires(context, ()),
        ensures
            self.is_success() ==> (r matches Ok(v) && v == self.success_value()),
            !self.is_success() ==> (r matches Err(e) && exists|m: String|
                #[trigger] call_ensures(context, (), m) && self.wraps_with(Some(m@), e)),
    ;

    /// The context-free wrap: same captures, message omitted.
    fn e(self) -> (r: Result<T, Error>)
        ensures
            self.is_success() ==> (r matches Ok(v) && v == self.success_value()),
            !self.is_success() ==> (r matches Err(e) && self.wraps_with(None, e)),
    ;
}

impl<T> ResultExt<T> for Result<T, ForeignError> {
    open spec fn is_success(self) -> bool {
        self is Ok
    }

    open spec fn success_value(self) -> T {
        self->Ok_0
    }

    open spec fn wraps_with(self, message: Option<Seq<char>>, e: Error) -> bool {
        wraps_foreign(self->Err_0@, message, e)
    }

    fn context(self, context: &str) -> (r: Result<T, Error>) {
        match self {
            Ok(v) => Ok(v),
            Err(f) => Err(
                Error::Message {
                    message: Some(context.to_owned()),
                    span_trace: SpanTrace::capture(),
                    source: f,
                    backtrace: crate::frames::capture_backtrace(),
                },
            ),
        }
    }

    fn with_context<F: FnOnce() -> String>(self, context: F) -> (r: Result<T, Error>) {
        match self {
            Ok(v) => Ok(v),
            Err(f) => {
                let m = context();
                Err(
                    Error::Message {
                        message: Some(m),
                        span_trace: SpanTrace::capture(),
                        source: f,
                        backtrace: crate::frames::capture_backtrace(),
                    },
                )
            },
        }
    }

    fn e(self) -> (r: Result<T, Error>) {
        match self {
            Ok(v) => Ok(v),
            Err(f) => Err(
                Error::Message {
                    message: None,
                    span_trace: SpanTrace::capture(),
                    source: f,
                    backtrace: crate::frames::capture_backtrace(),
                },
            ),
        }
    }
}

impl<T> ResultExt<T> for Result<T, Error> {
    open spec fn is_success(self) -> bool {
        self is Ok
    }

    open spec fn success_value(self) -> T {
        self->Ok_0
    }

    open spec fn wraps_with(self, message: Option<Seq<char>>, e: Error) -> bool {
        wraps_error(self->Err_0, message, e)
    }

    fn context(self, context: &str) -> (r: Result<T, Error>) {
        match self {
            Ok(v) => Ok(v),
            Err(inner) => Err(
                Error::Whatever {
                    message: Some(context.to_owned()),
                    span_trace: SpanTrace::capture(),
                    source: Some(Box::new(inner)),
                    backtrace: crate::frames::capture_backtrace(),
                },
            ),
        }
    }

    fn with_context<F: FnOnce() -> String>(self, context: F) -> (r: Result<T, Error>) {
        match self {
            Ok(v) => Ok(v),
            Err(inner) => {
                let m = context();
                Err(
                    Error::Whatever {
                        message: Some(m),
                        span_trace: SpanTrace::capture(),
                        source: Some(Box::new(inner)),
                        backtrace: crate::frames::capture_backtrace(),
                    },
                )
            },
        }
    }

    fn e(self) -> (r: Result<T, Error>) {
        match self {
            Ok(v) => Ok(v),
            Err(inner) => Err(
                Error::Whatever {
                    message: None,
                    span_trace: SpanTrace::capture(),
                    source: Some(Box::new(inner)),
                    backtrace: crate::frames::capture_backtrace(),
                },
            ),
        }
    }
}

/// The one synthesized cause for an absent value.
pub(crate) fn none_error_link() -> (r: ForeignError)
    ensures
        r@.head.text == none_error_text(),
        r@.head.formatted == false,
        r@.head.backtrace is None,
        r@.rest.len() == 0,
{
    ForeignError {
        head: Link {
            text: "Expected some, found none".to_owned(),
            formatted: false,
            backtrace: None,
        },
        rest: Vec::new(),
    }
}

impl<T> ResultExt<T> for Option<T> {
    open spec fn is_success(self) -> bool {
        self is Some
    }

    open spec fn success_value(self) -> T {
        self->Some_0
    }

    open spec fn wraps_with(self, message: Option<Seq<char>>, e: Error) -> bool {
        wraps_none(message, e)
    }

    fn context(self, context: &str) -> (r: Result<T, Error>) {
        match self {
            Some(v) => Ok(v),
            None => Err(
                Error::Message {
                    message: Some(context.to_owned()),
                    span_trace: SpanTrace::capture(),
                    source: none_error_link(),
                    backtrace: crate::frames::capture_backtrace(),
                },
            ),
        }
    }

    fn with_context<F: FnOnce() -> String>(self, context: F) -> (r: Result<T, Error>) {
        match self {
            Some(v) => Ok(v),
            None => {
                let m = context();
                Err(
                    Error::Message {
                        message: Some(m),
                        span_trace: SpanTrace::capture(),
                        source: none_error_link(),
                        backtrace: crate::frames::capture_backtrace(),
                    },
                )
            },
        }
    }

    fn e(self) -> (r: Result<T, Error>) {
        match self {
            Some(v) => Ok(v),
            None => Err(
                Error::Message {
                    message: None,
                    span_trace: SpanTrace::capture(),
                    source: none_error_link(),
                    backtrace: crate::frames::capture_backtrace(),
                },
            ),
        }
    }
}

// ---- constructors ----

impl Error {
    /// Wrap a foreign error that exposes the formatted-backtrace capability.
    pub fn from_foreign(source: ForeignError) -> (r: Error)
        ensures
            r matches Error::Source { source: s, .. } && s@ == source@,
    {
        Error::Source {
            source,
            span_trace: SpanTrace::capture(),
            backtrace: crate::frames::capture_backtrace(),
        }
    }

    /// Build from a bare message, with no cause.
    pub fn without_source(message: String) -> (r: Error)
        ensures
            r matches Error::Whatever { message: m, source, .. } && m == Some(message) && source
                is None,
    {
        Error::Whatever {
            message: Some(message),
            span_trace: SpanTrace::capture(),
            source: None,
            backtrace: crate::frames::capture_backtrace(),
        }
    }

    /// Wrap an existing Unified Error Value with a message.
    pub fn with_source(source: Error, message: String) -> (r: Error)
        ensures
            r matches Error::Whatever { message: m, source: Some(s), .. } && m == Some(message)
                && *s == source,
    {
        Error::Whatever {
            message: Some(message),
            span_trace: SpanTrace::capture(),
            source: Some(Box::new(source)),
            backtrace: crate::frames::capture_backtrace(),
        }
    }

    /// Wrap an externally-aggregated chain that has already been recorded.
    pub fn from_aggregate(source: AggregateError) -> (r: Error)
        ensures
            r matches Error::Anyhow { source: s, .. } && s@ == source@,
    {
        Error::Anyhow {
            source,
            span_trace: SpanTrace::capture(),
            backtrace: crate::frames::capture_backtrace(),
        }
    }

    /// Convert an externally-aggregated error value, recording at this
    /// boundary the texts its chain hands back — the value's own first, then
    /// one opaque, backtrace-free link per declared cause — and its root
    /// backtrace.  The texts come from foreign `Display` impls and cannot be
    /// pinned here; `from_aggregate` states the exact relation between a
    /// recorded chain and the value built from it.
    pub fn anyhow(err: AnyhowError) -> (r: Error)
        ensures
            r matches Error::Anyhow { source, .. } && forall|j: int|
                0 <= j < source@.rest.len() ==> (#[trigger] source@.rest[j]).formatted == false
                    && source@.rest[j].backtrace is None,
    {
        let texts = anyhow_chain_texts(&err);
        let frames = match anyhow_backtrace_frames(&err) {
            Some(raw) => frames_from_raw(raw),
            None => Vec::new(),
        };
        let head_text = texts[0].clone();
        let mut rest: Vec<Link> = Vec::new();
        let mut i: usize = 1;
        while i < texts.len()
            invariant
                1 <= i,
                rest@.len() == i - 1,
                forall|j: int|
                    0 <= j < rest@.len() ==> (#[trigger] rest@[j]).formatted == false
                        && rest@[j].backtrace is None,
            decreases texts@.len() - i,
        {
            rest.push(Link { text: texts[i].clone(), formatted: false, backtrace: None });
            i += 1;
        }
        Error::from_aggregate(
            AggregateError { head_text, backtrace: Backtrace { frames }, rest },
        )
    }
}

// ---- trusted items at the externally-aggregated boundary ----

#[verifier::external_type_specification]
#[verifier::external_body]
pub struct ExAnyhowError(AnyhowError);

/// Relies on anyhow's `Error::chain`, which visits the error itself first and
/// then each declared cause, and on each visited error's `Display` text; the
/// chain always has at least the error itself.  The texts come from arbitrary
/// foreign `Display` impls, which may read ambient state (a locale, the OS),
/// so nothing beyond the length is promised of them.
#[verifier::external_body]
pub(crate) fn anyhow_chain_texts(err: &AnyhowError) -> (r: Vec<String>)
    ensures
        r@.len() >= 1,
{
    err.chain().map(|s| s.to_string()).collect()
}

/// Relies on anyhow's `Error::backtrace` (the std backtrace captured when the
/// value was made), on btparse's `deserialize` (parses its textual form;
/// `None` when that fails), on color_backtrace's `Backtrace::frames` for the
/// btparse shape, on the public `name` field of color_backtrace's `Frame`,
/// and on its `Frame::is_dependency_code` heuristic.  Each frame is handed
/// over one-for-one as its symbol name and its dependency attribution.  The
/// outcome depends on the environment, so nothing is promised of it.
#[verifier::external_body]
pub(crate) fn anyhow_backtrace_frames(err: &AnyhowError) -> Option<Vec<(Option<String>, bool)>> {
    btparse::deserialize(err.backtrace()).ok().map(|p| {
        color_backtrace::Backtrace::frames(&p)
            .iter()
            .map(|f| (f.name.clone(), f.is_dependency_code()))
            .collect()
    })
}

// ---- the laws of the walker ----

/// Law: wrapping a foreign failure with `context` yields a chain whose length
/// is the length of the failure's own causal chain plus one.
pub proof fn lemma_context_chain_length(f: ForeignError, message: Option<Seq<char>>, e: Error)
    requires
        wraps_foreign(f@, message, e),
    ensures
        e.stack_spec().len() == f.chain_len() + 1,
{
}

/// Law: wrapping an absent-value outcome yields a chain of length two: the
/// root marker and the synthesized absence cause.
pub proof fn lemma_option_context_chain_length(message: Option<Seq<char>>, e: Error)
    requires
        wraps_none(message, e),
    ensures
        e.stack_spec().len() == 2,
{
}

/// Law: the context-free wrap adds no synthetic prefix: the wrap's display
/// text is exactly the wrapped cause's own text.
pub proof fn lemma_no_message_no_prefix(f: ForeignError, e: Error)
    requires
        wraps_foreign(f@, None, e),
    ensures
        e.text_spec() == f@.head.text,
{
}

/// Law: re-wrapping an existing Unified Error Value appends the nested
/// value's whole chain directly after the node that stands for it; no extra
/// root marker is wrapped around it.
pub proof fn lemma_rewrap_flattens(inner: Error, message: Option<Seq<char>>, e: Error)
    requires
        wraps_error(inner, message, e),
    ensures
        e.stack_spec() == seq![
            (opt_bt_view(e.backtrace_field()), SourceV::Root),
            (opt_bt_view(inner.backtrace_field()), SourceV::Error(inner.text_spec())),
        ] + inner.stack_spec(),
{
}

/// Law: no chain ever holds two adjacent root markers, however often a value
/// has been re-wrapped.
pub proof fn lemma_no_adjacent_root_markers(e: Error)
    ensures
        forall|i: int|
            0 <= i < e.stack_spec().len() - 1 ==> !((#[trigger] e.stack_spec()[i]).1 is Root
                && e.stack_spec()[i + 1].1 is Root),
    decreases e,
{
    let st = e.stack_spec();
    match e {
        Error::Source { source, .. } => {
            assert forall|i: int| 0 <= i < st.len() - 1 implies !((#[trigger] st[i]).1 is Root
                && st[i + 1].1 is Root) by {
                if i + 1 >= 2 {
                    assert(st[i + 1].1 == link_entry(source@.rest[i + 1 - 2]).1);
                }
            }
        },
        Error::Message { source, .. } => {
            assert forall|i: int| 0 <= i < st.len() - 1 implies !((#[trigger] st[i]).1 is Root
                && st[i + 1].1 is Root) by {
                if i + 1 >= 2 {
                    assert(st[i + 1].1 == link_entry(source@.rest[i + 1 - 2]).1);
                }
            }
        },
        Error::Anyhow { source, .. } => {
            assert forall|i: int| 0 <= i < st.len() - 1 implies !((#[trigger] st[i]).1 is Root
                && st[i + 1].1 is Root) by {
                if i + 1 >= 2 {
                    assert(st[i + 1].1 == link_entry(source@.rest[i + 1 - 2]).1);
                }
            }
        },
        Error::Whatever { source, .. } => {
            match source {
                None => {},
                Some(s) => {
                    lemma_no_adjacent_root_markers(*s);
                    let sub = s.stack_spec();
                    assert forall|i: int| 0 <= i < st.len() - 1 implies !((#[trigger] st[i]).1
                        is Root && st[i + 1].1 is Root) by {
                        if i >= 2 {
                            assert(st[i] == sub[i - 2]);
                            assert(st[i + 1] == sub[i - 1]);
                        }
                    }
                },
            }
        },
    }
}

// ---- the full-trace renderer, over this walker's output ----

/// The fixed noise prefixes of this library's own plumbing: frames bearing
/// them never reach user diagnostics, whatever the verbosity.
pub open spec fn error_noise_prefixes() -> Seq<Seq<char>> {
    seq![
        "<n0_snafu::error::Error"@,
        "n0_snafu::error::Error::anyhow"@,
        "<core::pin::Pin<P> as core::future::future::Future>::poll"@,
        "<core::result::Result<T,F> as core::ops::try_trait::FromResidual<core::result::Result<core::convert::Infallible,E>>>::from_residual"@,
    ]
}

pub fn error_noise_prefixes_exec() -> (r: Vec<String>)
    ensures
        r@.map_values(|p: String| p@) == error_noise_prefixes(),
{
    let mut v: Vec<String> = Vec::new();
    v.push("<n0_snafu::error::Error".to_owned());
    v.push("n0_snafu::error::Error::anyhow".to_owned());
    v.push("<core::pin::Pin<P> as core::future::future::Future>::poll".to_owned());
    v.push(
        "<core::result::Result<T,F> as core::ops::try_trait::FromResidual<core::result::Result<core::convert::Infallible,E>>>::from_residual".to_owned(),
    );
    proof {
        assert(v@.map_values(|p: String| p@) =~= error_noise_prefixes());
    }
    v
}

/// The renderable node a walker entry yields: the root marker carries no
/// text, every other node shows its source's display text.
pub open spec fn node_of(entry: (Option<Seq<Frame>>, SourceV)) -> RenderNodeV {
    RenderNodeV {
        backtrace: entry.0,
        text: if entry.1 is Root {
            None
        } else {
            Some(entry.1.text_spec())
        },
    }
}

pub open spec fn nodes_of(entries: Seq<(Option<Seq<Frame>>, SourceV)>) -> Seq<RenderNodeV> {
    entries.map_values(|e: (Option<Seq<Frame>>, SourceV)| node_of(e))
}

/// Turn walker output into renderable nodes.
pub fn stack_nodes(entries: &Vec<(Option<Backtrace>, Source)>) -> (r: Vec<RenderNode>)
    ensures
        nodes_view(r@) == nodes_of(entries_view(entries@)),
{
    let mut out: Vec<RenderNode> = Vec::new();
    let mut i: usize = 0;
    while i < entries.len()
        invariant
            i <= entries@.len(),
            nodes_view(out@) =~= nodes_of(entries_view(entries@)).take(i as int),
        decreases entries@.len() - i,
    {
        let text = if entries[i].1.is_root() {
            None
        } else {
            Some(entries[i].1.text())
        };
        let ghost prev = out@;
        let n = RenderNode { backtrace: clone_opt_backtrace(&entries[i].0), text };
        let ghost nv = n@;
        out.push(n);
        proof {
            let full = nodes_of(entries_view(entries@));
            assert(entries_view(entries@)[i as int] == entry_view(entries@[i as int]));
            assert(full[i as int] == node_of(entry_view(entries@[i as int])));
            assert(nv == node_of(entry_view(entries@[i as int])));
            assert(out@ == prev.push(n));
            assert(nodes_view(prev).len() == prev.len());
            assert(prev.len() == i as int);
            assert forall|j: int| 0 <= j < i + 1 implies nodes_view(out@)[j] == full.take(i + 1)[j]
                by {
                assert(nodes_view(out@)[j] == out@[j]@);
                if j < i {
                    assert(out@[j] == prev[j]);
                    assert(nodes_view(prev)[j] == prev[j]@);
                    assert(nodes_view(prev)[j] == full.take(i as int)[j]);
                } else {
                    assert(out@[j] == n);
                }
            }
            assert(nodes_view(out@) =~= full.take(i + 1));
        }
        i += 1;
    }
    proof {
        assert(nodes_of(entries_view(entries@)).take(entries@.len() as int) =~= nodes_of(
            entries_view(entries@),
        ));
    }
    out
}

impl Error {
    /// The full diagnostic text of this value at the given verbosity.
    pub open spec fn debug_text_spec(self, v: Verbosity) -> Seq<char> {
        debug_render_spec(
            nodes_of(self.stack_spec()),
            self.span_trace_field().captured,
            self.span_trace_field().text@,
            error_noise_prefixes(),
            v,
        )
    }

    /// Render the full diagnostic text: the numbered causes, the span trace
    /// when one was captured, and one filtered backtrace block per node.
    pub fn debug_text(&self, v: Verbosity) -> (r: String)
        ensures
            r@ == self.debug_text_spec(v),
    {
        let stack = self.stack();
        let nodes = stack_nodes(&stack);
        let prefixes = error_noise_prefixes_exec();
        render_nodes(&nodes, self.span_trace(), &prefixes, v)
    }

    /// Render with the verbosity read from the environment, as interactive
    /// diagnostics do.
    pub fn debug_report(&self) -> (r: String)
        ensures
            exists|v: Verbosity| r@ == self.debug_text_spec(v),
    {
        let v = crate::frames::verbosity_from_env();
        let out = self.debug_text(v);
        proof {
            assert(out@ == self.debug_text_spec(v));
        }
        out
    }
}

/// Law: the renderer is a pure function of the value and the verbosity, so
/// rendering the same value twice yields byte-identical output; no hidden
/// state takes part.
pub proof fn lemma_render_deterministic(
    e: Error,
    v: Verbosity,
    first: Seq<char>,
    second: Seq<char>,
)
    requires
        first == e.debug_text_spec(v),
        second == e.debug_text_spec(v),
    ensures
        first == second,
{
}

/// The walker's capability rule, executably: a link with the capability
/// yields a node with its own backtrace, one without yields a node with none.
fn link_entry_exec(l: &Link) -> (r: (Option<Backtrace>, Source))
    ensures
        entry_view(r) == link_entry(l@),
{
    if l.formatted {
        (clone_opt_backtrace(&l.backtrace), Source::Formatted(l.text.clone()))
    } else {
        (None, Source::SnafuError(l.text.clone()))
    }
}

fn push_link_entries(out: &mut Vec<(Option<Backtrace>, Source)>, links: &Vec<Link>)
    ensures
        entries_view(final(out)@) == entries_view(old(out)@) + link_entries(
            links@.map_values(|l: Link| l@),
        ),
{
    let ghost linkviews = links@.map_values(|l: Link| l@);
    let mut i: usize = 0;
    while i < links.len()
        invariant
            i <= links@.len(),
            linkviews == links@.map_values(|l: Link| l@),
            entries_view(out@) =~= entries_view(old(out)@) + link_entries(linkviews.take(i as int)),
        decreases links@.len() - i,
    {
        let ghost prev = out@;
        let e = link_entry_exec(&links[i]);
        let ghost ev = entry_view(e);
        out.push(e);
        proof {
            assert(linkviews[i as int] == links@[i as int]@);
            assert(ev == link_entry(linkviews[i as int]));
            assert(entries_view(out@) =~= entries_view(prev).push(ev));
            assert(link_entries(linkviews.take(i + 1)) =~= link_entries(
                linkviews.take(i as int),
            ).push(link_entry(linkviews[i as int])));
            assert(entries_view(out@) =~= entries_view(old(out)@) + link_entries(
                linkviews.take(i + 1),
            ));
        }
        i += 1;
    }
    proof {
        assert(linkviews.take(linkviews.len() as int) =~= linkviews);
    }
}

} // verus!
