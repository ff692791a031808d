//! Character-level string utilities: ASCII case folding, case-insensitive
//! substring search, and prefix/suffix tests, all specified over `Seq<char>`.
use vstd::prelude::*;

verus! {

/// ASCII lower-casing of a single character; non-ASCII-uppercase characters
/// are unchanged.
pub open spec fn lower_char(c: char) -> char {
    if 65 <= c as u32 && c as u32 <= 90 {
        (((c as u32) + 32) as u8) as char
    } else {
        c
    }
}

/// ASCII lower-casing of a character sequence.
pub open spec fn lower_seq(s: Seq<char>) -> Seq<char> {
    s.map(|_i: int, c: char| lower_char(c))
}

/// The pattern occurs at offset `i` of `text`, compared ASCII-case-insensitively.
pub open spec fn matches_ci_at(text: Seq<char>, pat: Seq<char>, i: int) -> bool {
    forall|j: int| 0 <= j < pat.len() ==> lower_char(text[i + j]) == lower_char(pat[j])
}

/// The pattern occurs somewhere in `text`, compared ASCII-case-insensitively.
pub open spec fn contains_ci(text: Seq<char>, pat: Seq<char>) -> bool {
    exists|i: int| 0 <= i && i + pat.len() <= text.len() && matches_ci_at(text, pat, i)
}

/// `s` ends with `suffix` (exact comparison).
pub open spec fn ends_with(s: Seq<char>, suffix: Seq<char>) -> bool {
    &&& suffix.len() <= s.len()
    &&& forall|j: int|
        0 <= j < suffix.len() ==> s[s.len() - suffix.len() + j] == suffix[j]
}

/// `s` ends with `suffix`, compared ASCII-case-insensitively.
pub open spec fn ends_with_ci(s: Seq<char>, suffix: Seq<char>) -> bool {
    &&& suffix.len() <= s.len()
    &&& forall|j: int|
        0 <= j < suffix.len() ==> lower_char(s[s.len() - suffix.len() + j]) == lower_char(
            suffix[j],
        )
}

/// `s` starts with `prefix` (exact comparison).
pub open spec fn starts_with(s: Seq<char>, prefix: Seq<char>) -> bool {
    &&& prefix.len() <= s.len()
    &&& forall|j: int| 0 <= j < prefix.len() ==> s[j] == prefix[j]
}

/// The first position in `s` at or after `from` whose character is not `c`;
/// the length of `s` when there is none.
pub open spec fn first_not_char(s: Seq<char>, c: char, from: int) -> int
    decreases s.len() - from,
{
    if from < 0 || from >= s.len() {
        s.len() as int
    } else if s[from] != c {
        from
    } else {
        first_not_char(s, c, from + 1)
    }
}

/// A pattern that is a prefix of the text occurs in it,
/// case-insensitively.
pub proof fn lemma_prefix_occurs_ci(text: Seq<char>, pat: Seq<char>)
    requires
        pat.len() <= text.len(),
        forall|j: int| 0 <= j < pat.len() ==> text[j] == pat[j],
    ensures
        contains_ci(text, pat),
{
    assert(matches_ci_at(text, pat, 0));
}

/// Lower-cases one ASCII character.
pub fn to_lower_char(c: char) -> (r: char)
    ensures
        r == lower_char(c),
{
    let u = c as u32;
    if 65 <= u && u <= 90 {
        ((u + 32) as u8) as char
    } else {
        c
    }
}

/// Checks whether the pattern occurs at offset `i` of `text`,
/// ASCII-case-insensitively.
fn match_ci_at(text: &str, pat: &str, i: usize, plen: usize) -> (r: bool)
    requires
        plen == pat@.len(),
        i + plen <= text@.len(),
        text@.len() <= usize::MAX,
    ensures
        r == matches_ci_at(text@, pat@, i as int),
{
    let mut j: usize = 0;
    while j < plen
        invariant
            0 <= j <= plen,
            plen == pat@.len(),
            i + plen <= text@.len(),
            text@.len() <= usize::MAX,
            forall|j0: int|
                0 <= j0 < j ==> lower_char(text@[i + j0]) == lower_char(pat@[j0]),
        decreases plen - j,
    {
        let tc = text.get_char(i + j);
        let pc = pat.get_char(j);
        if to_lower_char(tc) != to_lower_char(pc) {
            return false;
        }
        j += 1;
    }
    true
}

/// Case-insensitive substring search: does `pat` occur anywhere in `text`,
/// ignoring ASCII case?
pub fn str_contains_ci(text: &str, pat: &str) -> (r: bool)
    ensures
        r == contains_ci(text@, pat@),
{
    let tlen = text.unicode_len();
    let plen = pat.unicode_len();
    if plen > tlen {
        return false;
    }
    let mut i: usize = 0;
    while i <= tlen - plen
        invariant
            tlen == text@.len(),
            plen == pat@.len(),
            plen <= tlen,
            0 <= i <= tlen - plen + 1,
            forall|k: int| 0 <= k < i ==> !matches_ci_at(text@, pat@, k),
        decreases tlen - plen - i + 1,
    {
        if match_ci_at(text, pat, i, plen) {
            return true;
        }
        i += 1;
    }
    false
}

/// Does `s` end with `suffix`, ignoring ASCII case?
pub fn str_ends_with_ci(s: &str, suffix: &str) -> (r: bool)
    ensures
        r == ends_with_ci(s@, suffix@),
{
    let slen = s.unicode_len();
    let xlen = suffix.unicode_len();
    if xlen > slen {
        return false;
    }
    let start = slen - xlen;
    let mut j: usize = 0;
    while j < xlen
        invariant
            slen == s@.len(),
            xlen == suffix@.len(),
            xlen <= slen,
            start == slen - xlen,
            0 <= j <= xlen,
            forall|j0: int|
                0 <= j0 < j ==> lower_char(s@[start + j0]) == lower_char(suffix@[j0]),
        decreases xlen - j,
    {
        let sc = s.get_char(start + j);
        let xc = suffix.get_char(j);
        if to_lower_char(sc) != to_lower_char(xc) {
            return false;
        }
        j += 1;
    }
    true
}

/// Does `s` end with `suffix` (exact comparison)?
pub fn str_ends_with(s: &str, suffix: &str) -> (r: bool)
    ensures
        r == ends_with(s@, suffix@),
{
    let slen = s.unicode_len();
    let xlen = suffix.unicode_len();
    if xlen > slen {
        return false;
    }
    let start = slen - xlen;
    let mut j: usize = 0;
    while j < xlen
        invariant
            slen == s@.len(),
            xlen == suffix@.len(),
            xlen <= slen,
            start == slen - xlen,
            0 <= j <= xlen,
            forall|j0: int| 0 <= j0 < j ==> s@[start + j0] == suffix@[j0],
        decreases xlen - j,
    {
        let sc = s.get_char(start + j);
        let xc = suffix.get_char(j);
        if sc != xc {
            return false;
        }
        j += 1;
    }
    true
}

/// Are the two strings equal up to ASCII case?
pub fn str_eq_ci(a: &str, b: &str) -> (r: bool)
    ensures
        r == (lower_seq(a@) == lower_seq(b@)),
{
    let alen = a.unicode_len();
    let blen = b.unicode_len();
    if alen != blen {
        proof {
            assert(lower_seq(a@).len() != lower_seq(b@).len());
        }
        return false;
    }
    let mut j: usize = 0;
    while j < alen
        invariant
            alen == a@.len(),
            alen == b@.len(),
            0 <= j <= alen,
            forall|j0: int| 0 <= j0 < j ==> lower_char(a@[j0]) == lower_char(b@[j0]),
        decreases alen - j,
    {
        let ac = a.get_char(j);
        let bc = b.get_char(j);
        if to_lower_char(ac) != to_lower_char(bc) {
            proof {
                assert(lower_seq(a@)[j as int] != lower_seq(b@)[j as int]);
            }
            return false;
        }
        j += 1;
    }
    proof {
        assert(lower_seq(a@) =~= lower_seq(b@));
    }
    true
}

/// Does `s` start with `prefix` (exact comparison)?
pub fn str_starts_with(s: &str, prefix: &str) -> (r: bool)
    ensures
        r == starts_with(s@, prefix@),
{
    let slen = s.unicode_len();
    let plen = prefix.unicode_len();
    if plen > slen {
        return false;
    }
    let mut j: usize = 0;
    while j < plen
        invariant
            slen == s@.len(),
            plen == prefix@.len(),
            plen <= slen,
            0 <= j <= plen,
            forall|j0: int| 0 <= j0 < j ==> s@[j0] == prefix@[j0],
        decreases plen - j,
    {
        let sc = s.get_char(j);
        let pc = prefix.get_char(j);
        if sc != pc {
            return false;
        }
        j += 1;
    }
    true
}

} // verus!
