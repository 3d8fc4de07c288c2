//! Verified character and string utilities: ASCII case folding, whitespace
//! and newline trimming, and string comparison.

use vstd::prelude::*;
use vstd::string::*;

verus! {

/// ASCII case folding of one character: `A`..`Z` map to `a`..`z`, every
/// other character is unchanged.
pub open spec fn lower_char_spec(c: char) -> char {
    if 'A' <= c && c <= 'Z' {
        ((c as u32) + 32) as char
    } else {
        c
    }
}

/// ASCII case folding of a whole string.
pub open spec fn fold_lower(s: Seq<char>) -> Seq<char> {
    s.map_values(|c: char| lower_char_spec(c))
}

/// The characters with the Unicode `White_Space` property, the set that
/// `str::trim` removes at both ends.
pub open spec fn is_ws_char(c: char) -> bool {
    let u = c as u32;
    u == 0x09 || u == 0x0A || u == 0x0B || u == 0x0C || u == 0x0D || u == 0x20 || u == 0x85
        || u == 0xA0 || u == 0x1680 || (0x2000 <= u && u <= 0x200A) || u == 0x2028 || u == 0x2029
        || u == 0x202F || u == 0x205F || u == 0x3000
}

/// Drops leading characters satisfying `p`.
pub open spec fn trim_front_by(s: Seq<char>, p: spec_fn(char) -> bool) -> Seq<char>
    decreases s.len(),
{
    if s.len() > 0 && p(s[0]) {
        trim_front_by(s.drop_first(), p)
    } else {
        s
    }
}

/// Drops trailing characters satisfying `p`.
pub open spec fn trim_back_by(s: Seq<char>, p: spec_fn(char) -> bool) -> Seq<char>
    decreases s.len(),
{
    if s.len() > 0 && p(s.last()) {
        trim_back_by(s.drop_last(), p)
    } else {
        s
    }
}

/// Drops the characters satisfying `p` at both ends.
pub open spec fn trim_by(s: Seq<char>, p: spec_fn(char) -> bool) -> Seq<char> {
    trim_back_by(trim_front_by(s, p), p)
}

/// The predicate trimmed away: whitespace, or the newline character alone.
pub open spec fn trim_pred(ws: bool) -> spec_fn(char) -> bool {
    if ws {
        |c: char| is_ws_char(c)
    } else {
        |c: char| c == '\n'
    }
}

/// Whitespace trimmed from both ends, as `str::trim` does.
pub open spec fn trim_ws_spec(s: Seq<char>) -> Seq<char> {
    trim_by(s, trim_pred(true))
}

/// Newlines trimmed from both ends, as element texts are cleaned.
pub open spec fn trim_nl_spec(s: Seq<char>) -> Seq<char> {
    trim_by(s, trim_pred(false))
}

proof fn lemma_trim_front_at(s: Seq<char>, p: spec_fn(char) -> bool, i: int)
    requires
        0 <= i <= s.len(),
        forall|j: int| 0 <= j < i ==> p(s[j]),
        i == s.len() || !p(s[i]),
    ensures
        trim_front_by(s, p) == s.skip(i),
    decreases i,
{
    if i == 0 {
        assert(s.skip(0) =~= s);
    } else {
        lemma_trim_front_at(s.drop_first(), p, i - 1);
        assert(s.drop_first().skip(i - 1) =~= s.skip(i));
    }
}

proof fn lemma_trim_back_at(s: Seq<char>, p: spec_fn(char) -> bool, e: int)
    requires
        0 <= e <= s.len(),
        forall|j: int| e <= j < s.len() ==> p(s[j]),
        e == 0 || !p(s[e - 1]),
    ensures
        trim_back_by(s, p) == s.subrange(0, e),
    decreases s.len() - e,
{
    if e == s.len() {
        assert(s.subrange(0, e) =~= s);
    } else {
        lemma_trim_back_at(s.drop_last(), p, e);
        assert(s.drop_last().subrange(0, e) =~= s.subrange(0, e));
    }
}

/// ASCII case folding of one character.
pub fn lower_char(c: char) -> (r: char)
    ensures
        r == lower_char_spec(c),
{
    let u = c as u32;
    if 65 <= u && u <= 90 {
        ((u + 32) as u8) as char
    } else {
        c
    }
}

/// Whether `c` carries the Unicode `White_Space` property.
pub fn is_ws(c: char) -> (r: bool)
    ensures
        r == is_ws_char(c),
{
    let u = c as u32;
    u == 0x09 || u == 0x0A || u == 0x0B || u == 0x0C || u == 0x0D || u == 0x20 || u == 0x85
        || u == 0xA0 || u == 0x1680 || (0x2000 <= u && u <= 0x200A) || u == 0x2028 || u == 0x2029
        || u == 0x202F || u == 0x205F || u == 0x3000
}

/// Exact string equality.
pub fn str_eq(a: &str, b: &str) -> (r: bool)
    ensures
        r == (a@ == b@),
{
    let n = a.unicode_len();
    if n != b.unicode_len() {
        return false;
    }
    let mut i: usize = 0;
    while i < n
        invariant
            n == a@.len(),
            n == b@.len(),
            0 <= i <= n,
            forall|j: int| 0 <= j < i ==> a@[j] == b@[j],
        decreases n - i,
    {
        if a.get_char(i) != b.get_char(i) {
            return false;
        }
        i += 1;
    }
    proof {
        assert(a@ =~= b@);
    }
    true
}

/// String equality up to ASCII case folding.
pub fn str_eq_fold(a: &str, b: &str) -> (r: bool)
    ensures
        r == (fold_lower(a@) == fold_lower(b@)),
{
    let n = a.unicode_len();
    if n != b.unicode_len() {
        proof {
            assert(fold_lower(a@).len() == a@.len());
            assert(fold_lower(b@).len() == b@.len());
        }
        return false;
    }
    let mut i: usize = 0;
    while i < n
        invariant
            n == a@.len(),
            n == b@.len(),
            0 <= i <= n,
            forall|j: int| 0 <= j < i ==> lower_char_spec(a@[j]) == lower_char_spec(b@[j]),
        decreases n - i,
    {
        if lower_char(a.get_char(i)) != lower_char(b.get_char(i)) {
            proof {
                assert(fold_lower(a@)[i as int] == lower_char_spec(a@[i as int]));
                assert(fold_lower(b@)[i as int] == lower_char_spec(b@[i as int]));
            }
            return false;
        }
        i += 1;
    }
    proof {
        assert(fold_lower(a@) =~= fold_lower(b@));
    }
    true
}

fn char_matches(c: char, ws: bool) -> (r: bool)
    ensures
        r == trim_pred(ws)(c),
{
    if ws {
        is_ws(c)
    } else {
        c == '\n'
    }
}

fn trim_by_kind<'a>(s: &'a str, ws: bool) -> (r: &'a str)
    ensures
        r@ == trim_by(s@, trim_pred(ws)),
{
    let ghost p = trim_pred(ws);
    let n = s.unicode_len();
    let mut start: usize = 0;
    while start < n && char_matches(s.get_char(start), ws)
        invariant
            p == trim_pred(ws),
            n == s@.len(),
            0 <= start <= n,
            forall|j: int| 0 <= j < start ==> p(s@[j]),
        decreases n - start,
    {
        start += 1;
    }
    let mut end: usize = n;
    while end > start && char_matches(s.get_char(end - 1), ws)
        invariant
            p == trim_pred(ws),
            n == s@.len(),
            start <= end <= n,
            forall|j: int| end <= j < n ==> p(s@[j]),
        decreases end,
    {
        end -= 1;
    }
    let r = s.substring_char(start, end);
    proof {
        lemma_trim_front_at(s@, p, start as int);
        let t = s@.skip(start as int);
        lemma_trim_back_at(t, p, end - start);
        assert(t.subrange(0, end - start) =~= s@.subrange(start as int, end as int));
    }
    r
}

/// Whitespace trimmed from both ends.
pub fn trim_ws<'a>(s: &'a str) -> (r: &'a str)
    ensures
        r@ == trim_ws_spec(s@),
{
    trim_by_kind(s, true)
}

/// Newlines trimmed from both ends.
pub fn trim_nl<'a>(s: &'a str) -> (r: &'a str)
    ensures
        r@ == trim_nl_spec(s@),
{
    trim_by_kind(s, false)
}

} // verus!
