use vstd::prelude::*;
use vstd::string::StrSliceExecFns;
use vstd::string::StringExecFns;
use crate::frames::{Backtrace, Frame, Verbosity, filter_frames, opt_bt_view, visible_frames};
use crate::spantrace::SpanTrace;
use crate::text::{dec_rep, u64_to_dec};

verus! {

// The full-trace diagnostic renderer: it composes the walker's output, the
// span trace, and the filtered backtraces into one text.  The renderer is a
// pure function of its inputs; verbosity is passed in by the caller.

/// One renderable chain node: its backtrace, if one was proven, and its
/// display text — the root marker carries none.
pub struct RenderNode {
    pub backtrace: Option<Backtrace>,
    pub text: Option<String>,
}

/// The ghost shape of a `RenderNode`.
pub struct RenderNodeV {
    pub backtrace: Option<Seq<Frame>>,
    pub text: Option<Seq<char>>,
}

impl View for RenderNode {
    type V = RenderNodeV;

    open spec fn view(&self) -> RenderNodeV {
        RenderNodeV {
            backtrace: opt_bt_view(self.backtrace),
            text: match self.text {
                Some(t) => Some(t@),
                None => None,
            },
        }
    }
}

pub open spec fn nodes_view(nodes: Seq<RenderNode>) -> Seq<RenderNodeV> {
    nodes.map_values(|n: RenderNode| n@)
}

// ---- one backtrace, formatted ----

pub open spec fn frame_name_text(f: Frame) -> Seq<char> {
    match f.name {
        Some(n) => n@,
        None => "<unknown>"@,
    }
}

/// One line per frame: its index and its symbol name.
pub open spec fn frame_line(f: Frame, i: int) -> Seq<char> {
    "  "@ + dec_rep(i as nat) + ": "@ + frame_name_text(f) + "\n"@
}

pub open spec fn format_frames_upto(frames: Seq<Frame>, upto: int) -> Seq<char>
    decreases upto,
{
    if upto <= 0 {
        Seq::empty()
    } else {
        format_frames_upto(frames, upto - 1) + frame_line(frames[upto - 1], upto - 1)
    }
}

/// The text of one frame sequence: one line per frame, in order.
pub open spec fn format_frames_spec(frames: Seq<Frame>) -> Seq<char> {
    format_frames_upto(frames, frames.len() as int)
}

pub fn format_frames_text(frames: &Vec<Frame>) -> (r: String)
    ensures
        r@ == format_frames_spec(frames@),
{
    let mut out = String::new();
    let mut i: usize = 0;
    while i < frames.len()
        invariant
            i <= frames@.len(),
            out@ == format_frames_upto(frames@, i as int),
        decreases frames@.len() - i,
    {
        out.append("  ");
        let num = u64_to_dec(i as u64);
        out.append(num.as_str());
        out.append(": ");
        match &frames[i].name {
            Some(n) => out.append(n.as_str()),
            None => out.append("<unknown>"),
        }
        out.append("\n");
        proof {
            assert(out@ =~= format_frames_upto(frames@, i + 1));
        }
        i += 1;
    }
    out
}

// ---- the numbered cause list ----

/// The numbered line of a non-root node; a root marker prints nothing but
/// still consumes its index.
pub open spec fn cause_line(n: RenderNodeV, i: int) -> Seq<char> {
    match n.text {
        Some(t) => "    "@ + dec_rep(i as nat) + ": "@ + t + "\n"@,
        None => Seq::empty(),
    }
}

/// The cause lines of the nodes after the first, enumerated from zero.
pub open spec fn cause_lines_upto(nodes: Seq<RenderNodeV>, upto: int) -> Seq<char>
    decreases upto,
{
    if upto <= 1 {
        Seq::empty()
    } else {
        cause_lines_upto(nodes, upto - 1) + cause_line(nodes[upto - 1], upto - 2)
    }
}

fn cause_lines_text(nodes: &Vec<RenderNode>) -> (r: String)
    ensures
        r@ == cause_lines_upto(nodes_view(nodes@), nodes@.len() as int),
{
    let mut out = String::new();
    let mut k: usize = 1;
    while k < nodes.len()
        invariant
            1 <= k,
            k <= nodes@.len() || (k == 1 && nodes@.len() == 0),
            out@ == cause_lines_upto(nodes_view(nodes@), k as int),
        decreases nodes@.len() - k,
    {
        match &nodes[k].text {
            Some(t) => {
                out.append("    ");
                let num = u64_to_dec((k - 1) as u64);
                out.append(num.as_str());
                out.append(": ");
                out.append(t.as_str());
                out.append("\n");
            },
            None => {},
        }
        proof {
            assert(out@ =~= cause_lines_upto(nodes_view(nodes@), k + 1));
        }
        k += 1;
    }
    out
}

// ---- the span trace block ----

pub open spec fn span_block(captured: bool, span_text: Seq<char>) -> Seq<char> {
    if captured {
        "Span trace:\n"@ + span_text + "\n\n"@
    } else {
        Seq::empty()
    }
}

// ---- one filtered backtrace block per node ----

/// The block a node contributes: its backtrace — or the empty placeholder if
/// it has none — run through the filter pipeline and formatted.
pub open spec fn trace_block(n: RenderNodeV, prefixes: Seq<Seq<char>>, v: Verbosity) -> Seq<char> {
    let frames = match n.backtrace {
        Some(f) => f,
        None => Seq::empty(),
    };
    "\n"@ + format_frames_spec(visible_frames(frames, prefixes, v)) + "\n"@
}

pub open spec fn trace_blocks_upto(
    nodes: Seq<RenderNodeV>,
    prefixes: Seq<Seq<char>>,
    v: Verbosity,
    upto: int,
) -> Seq<char>
    decreases upto,
{
    if upto <= 0 {
        Seq::empty()
    } else {
        trace_blocks_upto(nodes, prefixes, v, upto - 1) + trace_block(nodes[upto - 1], prefixes, v)
    }
}

fn trace_blocks_text(nodes: &Vec<RenderNode>, prefixes: &Vec<String>, v: Verbosity) -> (r: String)
    ensures
        r@ == trace_blocks_upto(
            nodes_view(nodes@),
            prefixes@.map_values(|p: String| p@),
            v,
            nodes@.len() as int,
        ),
{
    let ghost specs = prefixes@.map_values(|p: String| p@);
    let empty: Vec<Frame> = Vec::new();
    let mut out = String::new();
    let mut i: usize = 0;
    while i < nodes.len()
        invariant
            i <= nodes@.len(),
            empty@.len() == 0,
            specs == prefixes@.map_values(|p: String| p@),
            out@ == trace_blocks_upto(nodes_view(nodes@), specs, v, i as int),
        decreases nodes@.len() - i,
    {
        let frames: &Vec<Frame> = match &nodes[i].backtrace {
            Some(b) => b.frames(),
            None => &empty,
        };
        let filtered = filter_frames(frames, prefixes, v);
        let body = format_frames_text(&filtered);
        out.append("\n");
        out.append(body.as_str());
        out.append("\n");
        proof {
            assert(empty@ =~= Seq::<Frame>::empty());
            assert(out@ =~= trace_blocks_upto(nodes_view(nodes@), specs, v, i + 1));
        }
        i += 1;
    }
    out
}

// ---- the full renderer ----

/// The full diagnostic text: a blank line; the numbered non-root causes; a
/// blank line; the span trace block when one was captured; then one filtered
/// backtrace block per chain node, each preceded by a blank line.
pub open spec fn debug_render_spec(
    nodes: Seq<RenderNodeV>,
    span_captured: bool,
    span_text: Seq<char>,
    prefixes: Seq<Seq<char>>,
    v: Verbosity,
) -> Seq<char> {
    "\n"@ + cause_lines_upto(nodes, nodes.len() as int) + "\n"@ + span_block(
        span_captured,
        span_text,
    ) + trace_blocks_upto(nodes, prefixes, v, nodes.len() as int)
}

pub fn render_nodes(
    nodes: &Vec<RenderNode>,
    span: &SpanTrace,
    prefixes: &Vec<String>,
    v: Verbosity,
) -> (r: String)
    ensures
        r@ == debug_render_spec(
            nodes_view(nodes@),
            span.captured,
            span.text@,
            prefixes@.map_values(|p: String| p@),
            v,
        ),
{
    let mut out = String::from_str("\n");
    let causes = cause_lines_text(nodes);
    out.append(causes.as_str());
    out.append("\n");
    if span.status_captured() {
        out.append("Span trace:\n");
        out.append(span.text().as_str());
        out.append("\n\n");
    }
    let blocks = trace_blocks_text(nodes, prefixes, v);
    out.append(blocks.as_str());
    proof {
        assert(out@ =~= debug_render_spec(
            nodes_view(nodes@),
            span.captured,
            span.text@,
            prefixes@.map_values(|p: String| p@),
            v,
        ));
    }
    out
}

} // verus!
