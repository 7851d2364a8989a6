use vstd::prelude::*;
use crate::text::{starts_with, str_starts_with};

verus! {

// The normalized backtrace model: an ordered sequence of frames, each
// carrying the symbol name (when one was resolved) and an explicit tag that
// records whether the frame was attributed to dependency code when it was
// captured.

/// How much of a backtrace the renderers show.
#[derive(Clone, Copy, PartialEq, Eq, Structural)]
pub enum Verbosity {
    Minimal,
    Medium,
    Full,
}

/// One normalized stack frame.
pub struct Frame {
    pub name: Option<String>,
    pub dependency: bool,
}

impl Clone for Frame {
    fn clone(&self) -> (r: Self)
        ensures
            r == *self,
    {
        Frame {
            name: match &self.name {
                Some(n) => Some(n.clone()),
                None => None,
            },
            dependency: self.dependency,
        }
    }
}

/// A captured backtrace, already normalized at capture time to one frame
/// sequence, whichever external capture shape it came from.
pub struct Backtrace {
    pub frames: Vec<Frame>,
}

impl View for Backtrace {
    type V = Seq<Frame>;

    open spec fn view(&self) -> Seq<Frame> {
        self.frames@
    }
}

impl Backtrace {
    /// The one frame sequence that every downstream operation works on.
    pub fn frames(&self) -> (r: &Vec<Frame>)
        ensures
            r@ == self@,
    {
        &self.frames
    }
}

impl Clone for Backtrace {
    fn clone(&self) -> (r: Self)
        ensures
            r@ == self@,
    {
        Backtrace { frames: clone_frames(&self.frames) }
    }
}

pub fn clone_frames(frames: &Vec<Frame>) -> (r: Vec<Frame>)
    ensures
        r@ == frames@,
{
    let mut out: Vec<Frame> = Vec::new();
    let mut i: usize = 0;
    while i < frames.len()
        invariant
            i <= frames@.len(),
            out@ == frames@.take(i as int),
        decreases frames@.len() - i,
    {
        out.push(frames[i].clone());
        proof {
            assert(out@ =~= frames@.take(i + 1));
        }
        i += 1;
    }
    proof {
        assert(frames@.take(frames@.len() as int) =~= frames@);
    }
    out
}

/// The view of an optional backtrace: the frame sequence, if one is there.
pub open spec fn opt_bt_view(bt: Option<Backtrace>) -> Option<Seq<Frame>> {
    match bt {
        Some(b) => Some(b@),
        None => None,
    }
}

pub fn clone_opt_backtrace(bt: &Option<Backtrace>) -> (r: Option<Backtrace>)
    ensures
        opt_bt_view(r) == opt_bt_view(*bt),
{
    match bt {
        Some(b) => Some(b.clone()),
        None => None,
    }
}

// ---- the frame filter pipeline ----

/// Whether `name` begins with one of the noise prefixes.
pub open spec fn has_noise_prefix(name: Seq<char>, prefixes: Seq<Seq<char>>) -> bool {
    exists|i: int| 0 <= i < prefixes.len() && starts_with(name, prefixes[i])
}

/// Whether the filter pipeline keeps a frame: the always-on noise filter
/// drops frames whose name begins with one of the fixed prefixes, and the
/// dependency filter drops dependency frames unless verbosity is `Full`.
pub open spec fn frame_visible(f: Frame, prefixes: Seq<Seq<char>>, v: Verbosity) -> bool {
    (match f.name {
        Some(n) => !has_noise_prefix(n@, prefixes),
        None => true,
    }) && (v == Verbosity::Full || !f.dependency)
}

/// The visible frames among the first `upto`, order preserved.
pub open spec fn visible_frames_upto(
    frames: Seq<Frame>,
    prefixes: Seq<Seq<char>>,
    v: Verbosity,
    upto: int,
) -> Seq<Frame>
    decreases upto,
{
    if upto <= 0 {
        Seq::empty()
    } else if frame_visible(frames[upto - 1], prefixes, v) {
        visible_frames_upto(frames, prefixes, v, upto - 1).push(frames[upto - 1])
    } else {
        visible_frames_upto(frames, prefixes, v, upto - 1)
    }
}

/// What the filter pipeline leaves of a frame sequence.
pub open spec fn visible_frames(frames: Seq<Frame>, prefixes: Seq<Seq<char>>, v: Verbosity) -> Seq<
    Frame,
> {
    visible_frames_upto(frames, prefixes, v, frames.len() as int)
}

fn name_has_noise_prefix(name: &String, prefixes: &Vec<String>) -> (r: bool)
    ensures
        r == has_noise_prefix(name@, prefixes@.map_values(|p: String| p@)),
{
    let ghost specs = prefixes@.map_values(|p: String| p@);
    let mut i: usize = 0;
    while i < prefixes.len()
        invariant
            i <= prefixes@.len(),
            specs == prefixes@.map_values(|p: String| p@),
            forall|j: int| 0 <= j < i ==> !starts_with(name@, specs[j]),
        decreases prefixes@.len() - i,
    {
        if str_starts_with(name.as_str(), prefixes[i].as_str()) {
            proof {
                assert(starts_with(name@, specs[i as int]));
            }
            return true;
        }
        i += 1;
    }
    false
}

fn frame_visible_exec(f: &Frame, prefixes: &Vec<String>, v: Verbosity) -> (r: bool)
    ensures
        r == frame_visible(*f, prefixes@.map_values(|p: String| p@), v),
{
    let name_ok = match &f.name {
        Some(n) => !name_has_noise_prefix(n, prefixes),
        None => true,
    };
    name_ok && (v == Verbosity::Full || !f.dependency)
}

/// Run the two filter stages over a frame sequence.  Filtering only removes
/// frames; the relative order of the kept frames is unchanged.
pub fn filter_frames(frames: &Vec<Frame>, prefixes: &Vec<String>, v: Verbosity) -> (r: Vec<Frame>)
    ensures
        r@ == visible_frames(frames@, prefixes@.map_values(|p: String| p@), v),
{
    let ghost specs = prefixes@.map_values(|p: String| p@);
    let mut out: Vec<Frame> = Vec::new();
    let mut i: usize = 0;
    while i < frames.len()
        invariant
            i <= frames@.len(),
            specs == prefixes@.map_values(|p: String| p@),
            out@ == visible_frames_upto(frames@, specs, v, i as int),
        decreases frames@.len() - i,
    {
        if frame_visible_exec(&frames[i], prefixes, v) {
            out.push(frames[i].clone());
        }
        i += 1;
    }
    out
}

// ---- what the filter pipeline guarantees, stated once and proved ----

/// No kept frame is a noise frame or (below `Full`) a dependency frame, and
/// every frame that passes both stages is kept.
pub proof fn lemma_filter_pipeline(frames: Seq<Frame>, prefixes: Seq<Seq<char>>, v: Verbosity)
    ensures
        forall|i: int|
            0 <= i < visible_frames(frames, prefixes, v).len() ==> frame_visible(
                #[trigger] visible_frames(frames, prefixes, v)[i],
                prefixes,
                v,
            ),
        forall|i: int|
            0 <= i < frames.len() && frame_visible(#[trigger] frames[i], prefixes, v)
                ==> visible_frames(frames, prefixes, v).contains(frames[i]),
{
    lemma_visible_frames_upto(frames, prefixes, v, frames.len() as int);
}

proof fn lemma_visible_frames_upto(
    frames: Seq<Frame>,
    prefixes: Seq<Seq<char>>,
    v: Verbosity,
    upto: int,
)
    requires
        upto <= frames.len(),
    ensures
        forall|i: int|
            0 <= i < visible_frames_upto(frames, prefixes, v, upto).len() ==> frame_visible(
                #[trigger] visible_frames_upto(frames, prefixes, v, upto)[i],
                prefixes,
                v,
            ),
        forall|i: int|
            0 <= i < upto && frame_visible(#[trigger] frames[i], prefixes, v)
                ==> visible_frames_upto(frames, prefixes, v, upto).contains(frames[i]),
    decreases upto,
{
    if upto > 0 {
        lemma_visible_frames_upto(frames, prefixes, v, upto - 1);
        let prev = visible_frames_upto(frames, prefixes, v, upto - 1);
        let curr = visible_frames_upto(frames, prefixes, v, upto);
        assert forall|i: int|
            0 <= i < upto && frame_visible(#[trigger] frames[i], prefixes, v) implies curr.contains(
            frames[i],
        ) by {
            if i == upto - 1 {
                assert(curr[curr.len() - 1] == frames[i]);
            } else {
                assert(prev.contains(frames[i]));
                let j = choose|j: int| 0 <= j < prev.len() && prev[j] == frames[i];
                assert(curr[j] == frames[i]);
            }
        }
    }
}


/// Law: below `Full`, no frame attributed to dependency code survives the
/// filter pipeline.
pub proof fn lemma_dependency_frames_hidden(
    frames: Seq<Frame>,
    prefixes: Seq<Seq<char>>,
    v: Verbosity,
)
    requires
        v != Verbosity::Full,
    ensures
        forall|i: int|
            0 <= i < visible_frames(frames, prefixes, v).len() ==> !(
            #[trigger] visible_frames(frames, prefixes, v)[i]).dependency,
{
    lemma_filter_pipeline(frames, prefixes, v);
}

/// Law: at `Full`, every frame that the always-on noise filter keeps is
/// present, dependency frames included; and at every verbosity no kept
/// frame's name begins with a noise prefix.
pub proof fn lemma_verbosity_full_keeps_dependency_frames(
    frames: Seq<Frame>,
    prefixes: Seq<Seq<char>>,
)
    ensures
        forall|i: int|
            0 <= i < frames.len() && frame_visible(#[trigger] frames[i], prefixes, Verbosity::Full)
                ==> visible_frames(frames, prefixes, Verbosity::Full).contains(frames[i]),
{
    lemma_filter_pipeline(frames, prefixes, Verbosity::Full);
}

/// Law: whatever the verbosity, no kept frame bears one of the fixed noise
/// prefixes.
pub proof fn lemma_noise_frames_always_hidden(
    frames: Seq<Frame>,
    prefixes: Seq<Seq<char>>,
    v: Verbosity,
)
    ensures
        forall|i: int|
            0 <= i < visible_frames(frames, prefixes, v).len() ==> match (
            #[trigger] visible_frames(frames, prefixes, v)[i]).name {
                Some(n) => !has_noise_prefix(n@, prefixes),
                None => true,
            },
{
    lemma_filter_pipeline(frames, prefixes, v);
}

// ---- trusted capture wrappers over the external backtrace machinery ----

/// Relies on snafu's `GenerateImplicitData for Option<Backtrace>` (a capture
/// at the call site, or `None` when the environment disables collection), on
/// color_backtrace's `Backtrace::frames` for the backtrace-crate shape, on
/// the public `name` field of color_backtrace's `Frame`, and on its
/// `Frame::is_dependency_code` heuristic.  Each captured frame is handed over
/// one-for-one as its symbol name and its dependency attribution.  The
/// outcome depends on the call site and the environment, so nothing is
/// promised of it.
#[verifier::external_body]
fn capture_raw_frames() -> Option<Vec<(Option<String>, bool)>> {
    let bt: Option<snafu::Backtrace> = snafu::GenerateImplicitData::generate();
    bt.map(|b| {
        color_backtrace::Backtrace::frames(&b)
            .iter()
            .map(|f| (f.name.clone(), f.is_dependency_code()))
            .collect()
    })
}

/// Relies on color_backtrace's `Verbosity::from_env`, which reads the
/// `RUST_BACKTRACE` variable; the result depends on the environment alone,
/// and each of that crate's three levels maps to the like-named level here.
#[verifier::external_body]
pub(crate) fn verbosity_from_env() -> Verbosity {
    match color_backtrace::Verbosity::from_env() {
        color_backtrace::Verbosity::Minimal => Verbosity::Minimal,
        color_backtrace::Verbosity::Medium => Verbosity::Medium,
        color_backtrace::Verbosity::Full => Verbosity::Full,
    }
}

/// Normalize externally-produced frames, recording each frame's name and its
/// dependency attribution as explicit fields.
pub fn frames_from_raw(raw: Vec<(Option<String>, bool)>) -> (r: Vec<Frame>)
    ensures
        r@.len() == raw@.len(),
        forall|i: int|
            0 <= i < raw@.len() ==> #[trigger] r@[i] == (Frame {
                name: raw@[i].0,
                dependency: raw@[i].1,
            }),
{
    let mut out: Vec<Frame> = Vec::new();
    let mut i: usize = 0;
    while i < raw.len()
        invariant
            i <= raw@.len(),
            out@.len() == i,
            forall|j: int|
                0 <= j < i ==> #[trigger] out@[j] == (Frame {
                    name: raw@[j].0,
                    dependency: raw@[j].1,
                }),
        decreases raw@.len() - i,
    {
        let name = match &raw[i].0 {
            Some(s) => Some(s.clone()),
            None => None,
        };
        let dependency = raw[i].1;
        out.push(Frame { name, dependency });
        i += 1;
    }
    out
}

/// Capture a backtrace at the call site, normalized to the one frame-sequence
/// shape.  `None` when the environment disables collection.
pub fn capture_backtrace() -> Option<Backtrace> {
    match capture_raw_frames() {
        None => None,
        Some(raw) => Some(Backtrace { frames: frames_from_raw(raw) }),
    }
}

} // verus!
