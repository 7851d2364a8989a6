use vstd::prelude::*;
use vstd::string::StrSliceExecFns;
use vstd::string::StringExecFns;

verus! {

// Character-sequence helpers shared by the chain walker, the frame filter and
// the renderers.  Everything here is pure text manipulation.

pub open spec fn starts_with(s: Seq<char>, p: Seq<char>) -> bool {
    p.len() <= s.len() && s.take(p.len() as int) == p
}

pub open spec fn ends_with(s: Seq<char>, t: Seq<char>) -> bool {
    t.len() <= s.len() && s.skip(s.len() - t.len()) == t
}

/// Remove trailing occurrences of `t` from `s`, as many times as `t` matches.
pub open spec fn strip_suffix_rep(s: Seq<char>, t: Seq<char>) -> Seq<char>
    decreases s.len(),
{
    if t.len() == 0 || !ends_with(s, t) {
        s
    } else {
        strip_suffix_rep(s.take(s.len() - t.len()), t)
    }
}

/// The whitespace characters that trailing-trim removes: the Unicode
/// white-space set, as `str::trim_end` uses it.
pub open spec fn is_trim_space(c: char) -> bool {
    c == '\t' || c == '\n' || c == '\u{b}' || c == '\u{c}' || c == '\r' || c == ' ' || c
        == '\u{85}' || c == '\u{a0}' || c == '\u{1680}' || c == '\u{2000}' || c == '\u{2001}' || c
        == '\u{2002}' || c == '\u{2003}' || c == '\u{2004}' || c == '\u{2005}' || c == '\u{2006}'
        || c == '\u{2007}' || c == '\u{2008}' || c == '\u{2009}' || c == '\u{200a}' || c
        == '\u{2028}' || c == '\u{2029}' || c == '\u{202f}' || c == '\u{205f}' || c == '\u{3000}'
}

pub open spec fn trim_end_spaces(s: Seq<char>) -> Seq<char>
    decreases s.len(),
{
    if s.len() > 0 && is_trim_space(s[s.len() - 1]) {
        trim_end_spaces(s.drop_last())
    } else {
        s
    }
}

pub open spec fn trim_end_colons(s: Seq<char>) -> Seq<char>
    decreases s.len(),
{
    if s.len() > 0 && s[s.len() - 1] == ':' {
        trim_end_colons(s.drop_last())
    } else {
        s
    }
}

/// One text-deduplication step: drop a trailing repetition of the cause's
/// text, then trailing whitespace, then trailing separator colons.
pub open spec fn cleaned_text(outer: Seq<char>, inner: Seq<char>) -> Seq<char> {
    trim_end_colons(trim_end_spaces(strip_suffix_rep(outer, inner)))
}

pub fn str_starts_with(s: &str, p: &str) -> (r: bool)
    ensures
        r == starts_with(s@, p@),
{
    let sl = s.unicode_len();
    let pl = p.unicode_len();
    if pl > sl {
        return false;
    }
    let mut i: usize = 0;
    while i < pl
        invariant
            pl <= sl,
            sl == s@.len(),
            pl == p@.len(),
            i <= pl,
            forall|j: int| 0 <= j < i ==> s@[j] == p@[j],
        decreases pl - i,
    {
        if s.get_char(i) != p.get_char(i) {
            proof {
                assert(s@.take(pl as int)[i as int] == s@[i as int]);
            }
            return false;
        }
        i += 1;
    }
    proof {
        assert(s@.take(pl as int) =~= p@);
    }
    true
}

pub fn str_ends_with(s: &str, t: &str) -> (r: bool)
    ensures
        r == ends_with(s@, t@),
{
    let sl = s.unicode_len();
    let tl = t.unicode_len();
    if tl > sl {
        return false;
    }
    let off = sl - tl;
    let mut i: usize = 0;
    while i < tl
        invariant
            tl <= sl,
            off == sl - tl,
            sl == s@.len(),
            tl == t@.len(),
            i <= tl,
            forall|j: int| 0 <= j < i ==> s@[off + j] == t@[j],
        decreases tl - i,
    {
        if s.get_char(off + i) != t.get_char(i) {
            proof {
                assert(s@.skip(off as int)[i as int] == s@[off + i]);
            }
            return false;
        }
        i += 1;
    }
    proof {
        assert(s@.skip(off as int) =~= t@);
    }
    true
}

pub fn is_trim_space_exec(c: char) -> (r: bool)
    ensures
        r == is_trim_space(c),
{
    c == '\t' || c == '\n' || c == '\u{b}' || c == '\u{c}' || c == '\r' || c == ' ' || c
        == '\u{85}' || c == '\u{a0}' || c == '\u{1680}' || c == '\u{2000}' || c == '\u{2001}' || c
        == '\u{2002}' || c == '\u{2003}' || c == '\u{2004}' || c == '\u{2005}' || c == '\u{2006}'
        || c == '\u{2007}' || c == '\u{2008}' || c == '\u{2009}' || c == '\u{200a}' || c
        == '\u{2028}' || c == '\u{2029}' || c == '\u{202f}' || c == '\u{205f}' || c == '\u{3000}'
}

/// Executable counterpart of `cleaned_text`.
pub fn clean_text(outer: &str, inner: &str) -> (r: String)
    ensures
        r@ == cleaned_text(outer@, inner@),
{
    let ol = outer.unicode_len();
    let tl = inner.unicode_len();
    let mut e: usize = ol;
    proof {
        assert(outer@.take(ol as int) =~= outer@);
    }
    // Phase 1: strip trailing occurrences of the cause text.
    if tl > 0 {
        loop
            invariant
                e <= ol,
                ol == outer@.len(),
                tl == inner@.len(),
                tl > 0,
                strip_suffix_rep(outer@, inner@) == strip_suffix_rep(outer@.take(e as int), inner@),
            ensures
                e <= ol,
                strip_suffix_rep(outer@, inner@) == outer@.take(e as int),
            decreases e,
        {
            let cur = outer.substring_char(0, e);
            proof {
                assert(cur@ =~= outer@.take(e as int));
            }
            if e >= tl && str_ends_with(cur, inner) {
                proof {
                    let curview = outer@.take(e as int);
                    assert(ends_with(curview, inner@));
                    assert(strip_suffix_rep(curview, inner@) == strip_suffix_rep(
                        curview.take(e - tl),
                        inner@,
                    ));
                    assert(curview.take(e - tl) =~= outer@.take(e - tl));
                }
                e = e - tl;
            } else {
                proof {
                    let curview = outer@.take(e as int);
                    assert(!ends_with(curview, inner@));
                    assert(strip_suffix_rep(curview, inner@) == curview);
                }
                break;
            }
        }
    } else {
        proof {
            assert(strip_suffix_rep(outer@, inner@) == outer@);
        }
    }
    proof {
        assert(strip_suffix_rep(outer@, inner@) == outer@.take(e as int));
    }
    // Phase 2: trim trailing whitespace.
    while e > 0 && is_trim_space_exec(outer.get_char(e - 1))
        invariant
            e <= ol,
            ol == outer@.len(),
            trim_end_spaces(strip_suffix_rep(outer@, inner@)) == trim_end_spaces(
                outer@.take(e as int),
            ),
        decreases e,
    {
        proof {
            assert(outer@.take(e as int).drop_last() =~= outer@.take(e - 1));
        }
        e = e - 1;
    }
    proof {
        assert(trim_end_spaces(strip_suffix_rep(outer@, inner@)) == outer@.take(e as int));
    }
    // Phase 3: trim trailing separator colons.
    while e > 0 && outer.get_char(e - 1) == ':'
        invariant
            e <= ol,
            ol == outer@.len(),
            cleaned_text(outer@, inner@) == trim_end_colons(outer@.take(e as int)),
        decreases e,
    {
        proof {
            assert(outer@.take(e as int).drop_last() =~= outer@.take(e - 1));
        }
        e = e - 1;
    }
    proof {
        assert(cleaned_text(outer@, inner@) == outer@.take(e as int));
    }
    let res = outer.substring_char(0, e);
    res.to_owned()
}

/// Law: when the outer text does not end with its cause's text, and does not
/// itself end in trimmed whitespace or a separator colon, one cleaning step
/// leaves it unchanged.
pub proof fn lemma_clean_non_match(outer: Seq<char>, inner: Seq<char>)
    requires
        !ends_with(outer, inner),
        outer.len() > 0 ==> !is_trim_space(outer[outer.len() - 1]) && outer[outer.len() - 1]
            != ':',
    ensures
        cleaned_text(outer, inner) == outer,
{
    assert(strip_suffix_rep(outer, inner) == outer);
    assert(trim_end_spaces(outer) == outer);
    assert(trim_end_colons(outer) == outer);
}

// ---- decimal rendering of indices ----

pub open spec fn dec_digit(d: nat) -> char {
    if d == 0 {
        '0'
    } else if d == 1 {
        '1'
    } else if d == 2 {
        '2'
    } else if d == 3 {
        '3'
    } else if d == 4 {
        '4'
    } else if d == 5 {
        '5'
    } else if d == 6 {
        '6'
    } else if d == 7 {
        '7'
    } else if d == 8 {
        '8'
    } else {
        '9'
    }
}

/// The decimal digit string of `n`, most significant digit first.
pub open spec fn dec_rep(n: nat) -> Seq<char>
    decreases n,
{
    if n < 10 {
        seq![dec_digit(n)]
    } else {
        dec_rep(n / 10) + seq![dec_digit(n % 10)]
    }
}

fn digit_str(d: u64) -> (r: &'static str)
    requires
        d < 10,
    ensures
        r@ == seq![dec_digit(d as nat)],
{
    let s: &'static str = match d {
        0 => "0",
        1 => "1",
        2 => "2",
        3 => "3",
        4 => "4",
        5 => "5",
        6 => "6",
        7 => "7",
        8 => "8",
        _ => "9",
    };
    proof {
        reveal_strlit("0");
        reveal_strlit("1");
        reveal_strlit("2");
        reveal_strlit("3");
        reveal_strlit("4");
        reveal_strlit("5");
        reveal_strlit("6");
        reveal_strlit("7");
        reveal_strlit("8");
        reveal_strlit("9");
        assert(s@ =~= seq![dec_digit(d as nat)]);
    }
    s
}

pub fn u64_to_dec(n: u64) -> (r: String)
    ensures
        r@ == dec_rep(n as nat),
    decreases n,
{
    if n < 10 {
        digit_str(n).to_owned()
    } else {
        let high = u64_to_dec(n / 10);
        let low = digit_str(n % 10);
        high.concat(low)
    }
}

/// The decimal digit string of `n`, right-aligned in a field of width three,
/// as the numbered cause lines print it.
pub open spec fn dec_pad3(n: nat) -> Seq<char> {
    if n < 10 {
        seq![' ', ' '] + dec_rep(n)
    } else if n < 100 {
        seq![' '] + dec_rep(n)
    } else {
        dec_rep(n)
    }
}

pub fn u64_to_dec_pad3(n: u64) -> (r: String)
    ensures
        r@ == dec_pad3(n as nat),
{
    let digits = u64_to_dec(n);
    proof {
        reveal_strlit("  ");
        reveal_strlit(" ");
    }
    if n < 10 {
        let mut out = String::from_str("  ");
        out.append(digits.as_str());
        proof {
            assert(out@ =~= dec_pad3(n as nat));
        }
        out
    } else if n < 100 {
        let mut out = String::from_str(" ");
        out.append(digits.as_str());
        proof {
            assert(out@ =~= dec_pad3(n as nat));
        }
        out
    } else {
        digits
    }
}

} // verus!
