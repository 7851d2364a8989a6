use vstd::prelude::*;
use vstd::string::StrSliceExecFns;
use vstd::string::StringExecFns;
use crate::error::Formatted;
use crate::frames::Frame;
use crate::render::{format_frames_spec, format_frames_text};
use crate::text::{clean_text, cleaned_text, dec_pad3, u64_to_dec_pad3};

verus! {

// The report adapter: maps a top-level outcome to an exit status, rendering
// the failure — either as the raw chain, or with repeated text stripped
// across adjacent chain levels.

/// Opinionated wrapper around a top-level outcome, suitable as the return
/// contract of a program: success renders nothing and exits clean, failure
/// renders its chain and exits with status one.
pub struct Report<E>(pub Result<(), E>);

impl<E> Report<E> {
    /// Convert an error into a failing report.
    pub fn from_error(error: E) -> (r: Self)
        ensures
            r.0 == Err::<(), E>(error),
    {
        Report(Err(error))
    }

    /// Execute a closure, converting the error variant of its outcome into a
    /// report.
    pub fn capture_into_result<T, F: FnOnce() -> Result<T, E>>(body: F) -> (r: Result<T, Self>)
        requires
            call_requires(body, ()),
        ensures
            r matches Ok(t) ==> call_ensures(body, (), Ok(t)),
            r matches Err(rep) ==> (rep.0 matches Err(e) && call_ensures(body, (), Err(e))),
    {
        match body() {
            Ok(t) => Ok(t),
            Err(e) => Err(Self::from_error(e)),
        }
    }

    /// Execute a closure, wrapping whatever outcome it produces.
    pub fn capture<F: FnOnce() -> Result<(), E>>(body: F) -> (r: Self)
        requires
            call_requires(body, ()),
        ensures
            call_ensures(body, (), r.0),
    {
        Report(body())
    }

    /// A report that indicates no error occurred.
    pub fn ok() -> (r: Self)
        ensures
            r.0 == Ok::<(), E>(()),
    {
        Report(Ok(()))
    }
}

impl<E> From<Result<(), E>> for Report<E> {
    fn from(other: Result<(), E>) -> (r: Self) {
        Report(other)
    }
}

impl<E> vstd::std_specs::convert::FromSpecImpl<Result<(), E>> for Report<E> {
    open spec fn obeys_from_spec() -> bool {
        true
    }

    open spec fn from_spec(other: Result<(), E>) -> Self {
        Report(other)
    }
}

impl<E> From<E> for Report<E> {
    fn from(e: E) -> (r: Self) {
        Report(Err(e))
    }
}

impl<E> vstd::std_specs::convert::FromSpecImpl<E> for Report<E> {
    open spec fn obeys_from_spec() -> bool {
        true
    }

    open spec fn from_spec(e: E) -> Self {
        Report(Err(e))
    }
}

// ---- the raw chain renderer ----

/// The header announcing the causes: none, one, or several.
pub open spec fn plurality_header(causes: int) -> Seq<char> {
    if causes <= 0 {
        Seq::empty()
    } else if causes == 1 {
        "\nCaused by this error:\n"@
    } else {
        "\nCaused by these errors (recent errors listed first):\n"@
    }
}

/// One numbered cause line, the label right-aligned in three columns.
pub open spec fn numbered_line(t: Seq<char>, i: int) -> Seq<char> {
    dec_pad3(i as nat) + ": "@ + t + "\n"@
}

/// The numbered lines for `texts[1..upto]`, labelled by position.
pub open spec fn numbered_lines_upto(texts: Seq<Seq<char>>, upto: int) -> Seq<char>
    decreases upto,
{
    if upto <= 1 {
        Seq::empty()
    } else {
        numbered_lines_upto(texts, upto - 1) + numbered_line(texts[upto - 1], upto - 1)
    }
}

/// The raw chain, rendered: the failure's own text, the plurality header,
/// then each cause on its own one-indexed line.
pub open spec fn error_trace_spec(chain: Seq<Seq<char>>) -> Seq<char> {
    if chain.len() == 0 {
        Seq::empty()
    } else {
        chain[0] + "\n"@ + plurality_header(chain.len() - 1) + numbered_lines_upto(
            chain,
            chain.len() as int,
        )
    }
}

fn numbered_lines_text(texts: &Vec<String>) -> (r: String)
    ensures
        r@ == numbered_lines_upto(texts@.map_values(|s: String| s@), texts@.len() as int),
{
    let ghost chain = texts@.map_values(|s: String| s@);
    let mut out = String::new();
    let mut k: usize = 1;
    while k < texts.len()
        invariant
            1 <= k,
            k <= texts@.len() || (k == 1 && texts@.len() == 0),
            chain == texts@.map_values(|s: String| s@),
            out@ == numbered_lines_upto(chain, k as int),
        decreases texts@.len() - k,
    {
        let num = u64_to_dec_pad3(k as u64);
        out.append(num.as_str());
        out.append(": ");
        out.append(texts[k].as_str());
        out.append("\n");
        proof {
            assert(out@ =~= numbered_lines_upto(chain, k + 1));
        }
        k += 1;
    }
    out
}

/// Render the raw chain of display texts, outermost first.
pub fn error_trace_text(texts: &Vec<String>) -> (r: String)
    ensures
        r@ == error_trace_spec(texts@.map_values(|s: String| s@)),
{
    let ghost chain = texts@.map_values(|s: String| s@);
    if texts.len() == 0 {
        return String::new();
    }
    let mut out = texts[0].clone();
    out.append("\n");
    let causes: usize = texts.len() - 1;
    if causes == 1 {
        out.append("\nCaused by this error:\n");
    } else if causes > 1 {
        out.append("\nCaused by these errors (recent errors listed first):\n");
    }
    let lines = numbered_lines_text(texts);
    out.append(lines.as_str());
    proof {
        assert(out@ =~= error_trace_spec(chain));
    }
    out
}

// ---- the text-deduplication renderer ----

/// One deduplication step over the chain: level `i` against its cause.  The
/// last level keeps its raw text; every other level has a trailing repetition
/// of its cause's text stripped.  The flag says whether stripping changed it.
pub open spec fn cleaned_level(chain: Seq<Seq<char>>, i: int) -> (Seq<char>, bool) {
    if i + 1 < chain.len() {
        let c = cleaned_text(chain[i], chain[i + 1]);
        (c, c.len() != chain[i].len())
    } else {
        (chain[i], false)
    }
}

/// The levels that stay visible among the first `upto`, cleaned, a marker
/// appended where cleaning changed the text; fully subsumed levels are
/// omitted.
pub open spec fn visible_msgs_upto(chain: Seq<Seq<char>>, upto: int) -> Seq<Seq<char>>
    decreases upto,
{
    if upto <= 0 {
        Seq::empty()
    } else {
        let prev = visible_msgs_upto(chain, upto - 1);
        let lvl = cleaned_level(chain, upto - 1);
        if lvl.0.len() == 0 {
            prev
        } else if lvl.1 {
            prev.push(lvl.0 + " *"@)
        } else {
            prev.push(lvl.0)
        }
    }
}

/// Whether any level among the first `upto` was fully subsumed and removed.
pub open spec fn any_removed_upto(chain: Seq<Seq<char>>, upto: int) -> bool
    decreases upto,
{
    if upto <= 0 {
        false
    } else {
        any_removed_upto(chain, upto - 1) || cleaned_level(chain, upto - 1).0.len() == 0
    }
}

/// Whether any visible level was cleaned.
pub open spec fn any_cleaned_upto(chain: Seq<Seq<char>>, upto: int) -> bool
    decreases upto,
{
    if upto <= 0 {
        false
    } else {
        any_cleaned_upto(chain, upto - 1) || (cleaned_level(chain, upto - 1).0.len() != 0
            && cleaned_level(chain, upto - 1).1)
    }
}

/// The explanatory trailer, naming the toggle that disables deduplication.
pub open spec fn note_block(any_cleaned: bool, any_removed: bool) -> Seq<char> {
    if any_cleaned {
        "\nNOTE: "@ + "Some redundant information has been removed from the lines marked with *. "@
            + "Set SNAFU_RAW_ERROR_MESSAGES=1 to disable this behavior.\n"@
    } else if any_removed {
        "\nNOTE: "@ + "Some redundant information has been removed. "@
            + "Set SNAFU_RAW_ERROR_MESSAGES=1 to disable this behavior.\n"@
    } else {
        Seq::empty()
    }
}

/// The deduplicated chain, rendered: the outermost visible level, the header
/// for the remaining ones, each on its own one-indexed line, and the trailer
/// when anything was cleaned or removed.
pub open spec fn cleaned_error_trace_spec(chain: Seq<Seq<char>>) -> Seq<char> {
    let msgs = visible_msgs_upto(chain, chain.len() as int);
    if msgs.len() == 0 {
        Seq::empty()
    } else {
        msgs[0] + "\n"@ + (if msgs.len() == 2 {
            "\nCaused by this error:\n"@
        } else if msgs.len() > 2 {
            "\nCaused by these errors (recent errors listed first):\n"@
        } else {
            Seq::empty()
        }) + numbered_lines_upto(msgs, msgs.len() as int) + note_block(
            any_cleaned_upto(chain, chain.len() as int),
            any_removed_upto(chain, chain.len() as int),
        )
    }
}

/// The visible cleaned levels and the two aggregate flags.
fn visible_messages(texts: &Vec<String>) -> (r: (Vec<String>, bool, bool))
    ensures
        r.0@.map_values(|s: String| s@) == visible_msgs_upto(
            texts@.map_values(|s: String| s@),
            texts@.len() as int,
        ),
        r.1 == any_cleaned_upto(texts@.map_values(|s: String| s@), texts@.len() as int),
        r.2 == any_removed_upto(texts@.map_values(|s: String| s@), texts@.len() as int),
{
    let ghost chain = texts@.map_values(|s: String| s@);
    let mut msgs: Vec<String> = Vec::new();
    let mut any_cleaned = false;
    let mut any_removed = false;
    let mut i: usize = 0;
    while i < texts.len()
        invariant
            i <= texts@.len(),
            chain == texts@.map_values(|s: String| s@),
            msgs@.map_values(|s: String| s@) =~= visible_msgs_upto(chain, i as int),
            any_cleaned == any_cleaned_upto(chain, i as int),
            any_removed == any_removed_upto(chain, i as int),
        decreases texts@.len() - i,
    {
        let mut msg: String;
        let mut cleaned = false;
        if i + 1 < texts.len() {
            msg = clean_text(texts[i].as_str(), texts[i + 1].as_str());
            cleaned = msg.as_str().unicode_len() != texts[i].as_str().unicode_len();
        } else {
            msg = texts[i].clone();
        }
        proof {
            assert((msg@, cleaned) == cleaned_level(chain, i as int));
        }
        if msg.as_str().unicode_len() == 0 {
            any_removed = true;
        } else {
            if cleaned {
                any_cleaned = true;
                msg.append(" *");
            }
            msgs.push(msg);
        }
        proof {
            assert(msgs@.map_values(|s: String| s@) =~= visible_msgs_upto(chain, i + 1));
        }
        i += 1;
    }
    (msgs, any_cleaned, any_removed)
}

/// Render the deduplicated chain of display texts, outermost first.
pub fn cleaned_error_trace_text(texts: &Vec<String>) -> (r: String)
    ensures
        r@ == cleaned_error_trace_spec(texts@.map_values(|s: String| s@)),
{
    let ghost chain = texts@.map_values(|s: String| s@);
    let (msgs, any_cleaned, any_removed) = visible_messages(texts);
    if msgs.len() == 0 {
        return String::new();
    }
    let mut out = msgs[0].clone();
    out.append("\n");
    if msgs.len() == 2 {
        out.append("\nCaused by this error:\n");
    } else if msgs.len() > 2 {
        out.append("\nCaused by these errors (recent errors listed first):\n");
    }
    let lines = numbered_lines_text(&msgs);
    out.append(lines.as_str());
    if any_cleaned {
        out.append("\nNOTE: ");
        out.append("Some redundant information has been removed from the lines marked with *. ");
        out.append("Set SNAFU_RAW_ERROR_MESSAGES=1 to disable this behavior.\n");
    } else if any_removed {
        out.append("\nNOTE: ");
        out.append("Some redundant information has been removed. ");
        out.append("Set SNAFU_RAW_ERROR_MESSAGES=1 to disable this behavior.\n");
    }
    proof {
        assert(out@ =~= cleaned_error_trace_spec(chain));
    }
    out
}

// ---- composing a failure's full report ----

/// A failure's report: its chain — deduplicated when cleaning is enabled,
/// raw otherwise — and its backtrace block, when it proves one.
pub open spec fn report_text_spec(
    chain: Seq<Seq<char>>,
    backtrace: Option<Seq<Frame>>,
    cleaning_enabled: bool,
) -> Seq<char> {
    (if cleaning_enabled {
        cleaned_error_trace_spec(chain)
    } else {
        error_trace_spec(chain)
    }) + (match backtrace {
        Some(f) => "\nBacktrace:\n"@ + format_frames_spec(f) + "\n"@,
        None => Seq::empty(),
    })
}

/// Render one failure's report.  The cleaning toggle is read once by the
/// caller and passed in.
pub fn report_text<E: Formatted>(e: &E, cleaning_enabled: bool) -> (r: String)
    ensures
        r@ == report_text_spec(e.chain_texts_spec(), e.backtrace_spec(), cleaning_enabled),
{
    let chain = e.chain_texts();
    let mut out = if cleaning_enabled {
        cleaned_error_trace_text(&chain)
    } else {
        error_trace_text(&chain)
    };
    match e.backtrace() {
        Some(bt) => {
            out.append("\nBacktrace:\n");
            let body = format_frames_text(bt.frames());
            out.append(body.as_str());
            out.append("\n");
        },
        None => {},
    }
    proof {
        assert(out@ =~= report_text_spec(
            e.chain_texts_spec(),
            e.backtrace_spec(),
            cleaning_enabled,
        ));
    }
    out
}

impl<E: Formatted> Report<E> {
    /// The rendered form of this report: a failing outcome renders its
    /// report, a succeeding one renders nothing.
    pub fn render(&self, cleaning_enabled: bool) -> (r: String)
        ensures
            self.0 is Ok ==> r@ == Seq::<char>::empty(),
            self.0 matches Err(e) ==> r@ == report_text_spec(
                e.chain_texts_spec(),
                e.backtrace_spec(),
                cleaning_enabled,
            ),
    {
        match &self.0 {
            Ok(_) => String::new(),
            Err(e) => report_text(e, cleaning_enabled),
        }
    }

    /// The termination decision: success exits with status zero and writes
    /// nothing; failure exits with status one after writing its report to
    /// the error stream.
    pub fn report(self, cleaning_enabled: bool) -> (r: (u8, Option<String>))
        ensures
            self.0 is Ok ==> r == (0u8, None::<String>),
            self.0 matches Err(e) ==> (r.0 == 1u8 && (r.1 matches Some(t) && t@ == "Error: "@
                + report_text_spec(e.chain_texts_spec(), e.backtrace_spec(), cleaning_enabled))),
    {
        match &self.0 {
            Ok(_) => (0, None),
            Err(e) => {
                let mut out = String::from_str("Error: ");
                let body = report_text(e, cleaning_enabled);
                out.append(body.as_str());
                (1, Some(out))
            },
        }
    }
}


/// Law: a level whose text does not end with its cause's text — and does not
/// itself end in trimmed whitespace or a separator colon — is retained with
/// its text unchanged and its cleaned flag false.
pub proof fn lemma_cleaned_level_non_match(chain: Seq<Seq<char>>, i: int)
    requires
        0 <= i,
        i + 1 < chain.len(),
        !crate::text::ends_with(chain[i], chain[i + 1]),
        chain[i].len() > 0,
        !crate::text::is_trim_space(chain[i][chain[i].len() - 1]),
        chain[i][chain[i].len() - 1] != ':',
    ensures
        cleaned_level(chain, i) == (chain[i], false),
{
    crate::text::lemma_clean_non_match(chain[i], chain[i + 1]);
}

// ---- the deduplicating iterator over a chain of display texts ----

/// Steps over a chain of display texts, outermost first, yielding each
/// level's cleaned text and whether cleaning changed it.
pub struct CleanedErrorText {
    texts: Vec<String>,
    index: usize,
}

impl CleanedErrorText {
    pub closed spec fn texts_view(self) -> Seq<Seq<char>> {
        self.texts@.map_values(|s: String| s@)
    }

    pub closed spec fn position(self) -> int {
        self.index as int
    }

    /// Construct the iterator over a chain of display texts.
    pub fn new(texts: Vec<String>) -> (r: Self)
        ensures
            r.texts_view() == texts@.map_values(|s: String| s@),
            r.position() == 0,
    {
        CleanedErrorText { texts, index: 0 }
    }

    /// One step: the level's cleaned text and its cleaned flag; the last
    /// level contributes its raw text unconditionally.
    pub fn next(&mut self) -> (r: Option<(String, bool)>)
        ensures
            final(self).texts_view() == old(self).texts_view(),
            old(self).position() >= old(self).texts_view().len() ==> r is None && final(
                self).position() == old(self).position(),
            old(self).position() < old(self).texts_view().len() ==> final(self).position() == old(
                self).position() + 1 && (r matches Some((t, flag)) && t@ == cleaned_level(
                old(self).texts_view(), old(self).position()).0 && flag == cleaned_level(
                old(self).texts_view(), old(self).position()).1),
    {
        let ghost chain = self.texts_view();
        if self.index >= self.texts.len() {
            return None;
        }
        let i: usize = self.index;
        let mut msg: String;
        let mut cleaned = false;
        if i + 1 < self.texts.len() {
            msg = clean_text(self.texts[i].as_str(), self.texts[i + 1].as_str());
            cleaned = msg.as_str().unicode_len() != self.texts[i].as_str().unicode_len();
        } else {
            msg = self.texts[i].clone();
        }
        self.index = i + 1;
        Some((msg, cleaned))
    }
}

} // verus!
