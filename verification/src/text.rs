//! String predicates and helpers shared by the gateway's parsing and
//! error-translation logic: ASCII case-insensitive comparison, prefix and
//! suffix tests, leading-whitespace trimming, and allowlist membership.

use vstd::prelude::*;
use vstd::string::StrSliceExecFns;

verus! {

/// Two characters are equal up to ASCII case.
pub open spec fn chars_eq_ci(a: char, b: char) -> bool {
    a == b || ('A' <= a && a <= 'Z' && b as int == a as int + 32) || ('A' <= b && b <= 'Z'
        && a as int == b as int + 32)
}

/// Two character sequences are equal up to ASCII case.
pub open spec fn seq_eq_ci(a: Seq<char>, b: Seq<char>) -> bool {
    a.len() == b.len() && (forall|i: int| 0 <= i < a.len() ==> chars_eq_ci(a[i], b[i]))
}

/// `p` is a prefix of `s`.
pub open spec fn has_prefix(s: Seq<char>, p: Seq<char>) -> bool {
    p.len() <= s.len() && s.subrange(0, p.len() as int) == p
}

/// `p` is a suffix of `s`.
pub open spec fn has_suffix(s: Seq<char>, p: Seq<char>) -> bool {
    p.len() <= s.len() && s.subrange(s.len() - p.len(), s.len() as int) == p
}

/// ASCII whitespace — the kind an HTTP header value can carry, and the
/// kind trimmed from configured lists.
pub open spec fn is_ascii_ws(c: char) -> bool {
    c == ' ' || c == '\t' || c == '\n' || c == '\r'
}

/// `s` without its leading ASCII whitespace.
pub open spec fn trim_leading_ws(s: Seq<char>) -> Seq<char>
    decreases s.len(),
{
    if s.len() > 0 && is_ascii_ws(s[0]) {
        trim_leading_ws(s.subrange(1, s.len() as int))
    } else {
        s
    }
}

/// `s` without its trailing ASCII whitespace.
pub open spec fn trim_trailing_ws(s: Seq<char>) -> Seq<char>
    decreases s.len(),
{
    if s.len() > 0 && is_ascii_ws(s[s.len() - 1]) {
        trim_trailing_ws(s.subrange(0, s.len() - 1))
    } else {
        s
    }
}

/// `s` without leading and trailing ASCII whitespace.
pub open spec fn trim_ws_spec(s: Seq<char>) -> Seq<char> {
    trim_trailing_ws(trim_leading_ws(s))
}

/// The segments of `s` between its commas, in order, separators dropped.
/// A sequence with no comma is one segment; every comma adds one.
pub open spec fn split_commas(s: Seq<char>) -> Seq<Seq<char>>
    decreases s.len(),
{
    if s.len() == 0 {
        seq![Seq::<char>::empty()]
    } else if s[0] == ',' {
        seq![Seq::<char>::empty()] + split_commas(s.subrange(1, s.len() as int))
    } else {
        let rest = split_commas(s.subrange(1, s.len() as int));
        seq![seq![s[0]] + rest[0]] + rest.subrange(1, rest.len() as int)
    }
}

pub proof fn lemma_split_commas_len(s: Seq<char>)
    ensures
        split_commas(s).len() >= 1,
    decreases s.len(),
{
    if s.len() > 0 {
        lemma_split_commas_len(s.subrange(1, s.len() as int));
    }
}

/// A comma-free sequence is one whole segment.
pub proof fn lemma_split_commas_none(s: Seq<char>)
    requires
        forall|i: int| 0 <= i < s.len() ==> s[i] != ',',
    ensures
        split_commas(s) =~= seq![s],
    decreases s.len(),
{
    if s.len() == 0 {
        assert(s =~= Seq::<char>::empty());
    } else {
        let tail = s.subrange(1, s.len() as int);
        lemma_split_commas_none(tail);
        lemma_split_commas_len(tail);
        assert(seq![s[0]] + tail =~= s);
    }
}

/// Splitting at the first comma: the part before it is the first segment,
/// and the rest of the segments are those of the part after it.
pub proof fn lemma_split_commas_first(s: Seq<char>, k: int)
    requires
        0 <= k < s.len(),
        s[k] == ',',
        forall|i: int| 0 <= i < k ==> s[i] != ',',
    ensures
        split_commas(s) =~= seq![s.subrange(0, k)] + split_commas(
            s.subrange(k + 1, s.len() as int),
        ),
    decreases k,
{
    if k == 0 {
        assert(s.subrange(0, 0) =~= Seq::<char>::empty());
    } else {
        let tail = s.subrange(1, s.len() as int);
        lemma_split_commas_first(tail, k - 1);
        lemma_split_commas_len(tail.subrange(k, tail.len() as int));
        assert(tail.subrange(0, k - 1) =~= s.subrange(1, k));
        assert(tail.subrange(k, tail.len() as int) =~= s.subrange(k + 1, s.len() as int));
        assert(seq![s[0]] + s.subrange(1, k) =~= s.subrange(0, k));
    }
}

/// Some element of `al` reads exactly `s`.
pub open spec fn seq_contains_str(al: Seq<String>, s: Seq<char>) -> bool {
    exists|i: int| 0 <= i < al.len() && al[i]@ == s
}

/// Exact string equality.
pub fn str_eq(a: &str, b: &str) -> (r: bool)
    ensures
        r == (a@ == b@),
{
    a.to_owned().eq(&b.to_owned())
}

/// Character equality up to ASCII case.
pub fn chars_eq_ci_exec(a: char, b: char) -> (r: bool)
    ensures
        r == chars_eq_ci(a, b),
{
    if a == b {
        true
    } else {
        let au = a as u32;
        let bu = b as u32;
        (65 <= au && au <= 90 && bu == au + 32) || (65 <= bu && bu <= 90 && au == bu + 32)
    }
}

/// String equality up to ASCII case.
pub fn str_eq_ci(a: &str, b: &str) -> (r: bool)
    ensures
        r == seq_eq_ci(a@, b@),
{
    let alen = a.unicode_len();
    if alen != b.unicode_len() {
        return false;
    }
    let mut i: usize = 0;
    while i < alen
        invariant
            i <= alen,
            alen == a@.len(),
            alen == b@.len(),
            forall|j: int| 0 <= j < i ==> chars_eq_ci(a@[j], b@[j]),
        decreases alen - i,
    {
        if !chars_eq_ci_exec(a.get_char(i), b.get_char(i)) {
            return false;
        }
        i += 1;
    }
    true
}

/// Prefix test.
pub fn starts_with_str(s: &str, p: &str) -> (r: bool)
    ensures
        r == has_prefix(s@, p@),
{
    let plen = p.unicode_len();
    if plen > s.unicode_len() {
        return false;
    }
    let head = s.substring_char(0, plen);
    str_eq(head, p)
}

/// Suffix test.
pub fn ends_with_str(s: &str, p: &str) -> (r: bool)
    ensures
        r == has_suffix(s@, p@),
{
    let plen = p.unicode_len();
    let slen = s.unicode_len();
    if plen > slen {
        return false;
    }
    let tail = s.substring_char(slen - plen, slen);
    str_eq(tail, p)
}

/// ASCII whitespace test.
pub fn is_ascii_ws_exec(c: char) -> (r: bool)
    ensures
        r == is_ascii_ws(c),
{
    c == ' ' || c == '\t' || c == '\n' || c == '\r'
}

/// Copy of `s` without its leading ASCII whitespace.
pub fn trim_start_ws(s: &str) -> (r: String)
    ensures
        r@ == trim_leading_ws(s@),
{
    let len = s.unicode_len();
    let mut i: usize = 0;
    proof {
        assert(s@.subrange(0, len as int) =~= s@);
    }
    while i < len && is_ascii_ws_exec(s.get_char(i))
        invariant
            i <= len,
            len == s@.len(),
            trim_leading_ws(s@) == trim_leading_ws(s@.subrange(i as int, len as int)),
        decreases len - i,
    {
        proof {
            assert(s@.subrange(i as int, len as int).subrange(1, (len - i) as int) =~= s@.subrange(
                i + 1,
                len as int,
            ));
        }
        i += 1;
    }
    proof {
        assert(trim_leading_ws(s@.subrange(i as int, len as int)) == s@.subrange(
            i as int,
            len as int,
        ));
    }
    s.substring_char(i, len).to_owned()
}

/// Copy of `s` without leading and trailing ASCII whitespace.
pub fn trim_ws(s: &str) -> (r: String)
    ensures
        r@ == trim_ws_spec(s@),
{
    let len = s.unicode_len();
    let mut i: usize = 0;
    proof {
        assert(s@.subrange(0, len as int) =~= s@);
    }
    while i < len && is_ascii_ws_exec(s.get_char(i))
        invariant
            i <= len,
            len == s@.len(),
            trim_leading_ws(s@) == trim_leading_ws(s@.subrange(i as int, len as int)),
        decreases len - i,
    {
        proof {
            assert(s@.subrange(i as int, len as int).subrange(1, (len - i) as int) =~= s@.subrange(
                i + 1,
                len as int,
            ));
        }
        i += 1;
    }
    proof {
        assert(trim_leading_ws(s@.subrange(i as int, len as int)) == s@.subrange(
            i as int,
            len as int,
        ));
    }
    let mut j: usize = len;
    while j > i && is_ascii_ws_exec(s.get_char(j - 1))
        invariant
            i <= j <= len,
            len == s@.len(),
            trim_leading_ws(s@) == s@.subrange(i as int, len as int),
            trim_trailing_ws(s@.subrange(i as int, len as int)) == trim_trailing_ws(
                s@.subrange(i as int, j as int),
            ),
        decreases j,
    {
        proof {
            assert(s@.subrange(i as int, j as int).subrange(0, (j - i - 1) as int) =~= s@.subrange(
                i as int,
                j - 1,
            ));
        }
        j -= 1;
    }
    proof {
        assert(trim_trailing_ws(s@.subrange(i as int, j as int)) == s@.subrange(
            i as int,
            j as int,
        ));
    }
    s.substring_char(i, j).to_owned()
}

/// Position of the first comma of `s`, if it has one.
pub fn find_comma(s: &str) -> (r: Option<usize>)
    ensures
        match r {
            Some(k) => k < s@.len() && s@[k as int] == ',' && (forall|i: int|
                0 <= i < k ==> s@[i] != ','),
            None => forall|i: int| 0 <= i < s@.len() ==> s@[i] != ',',
        },
{
    let len = s.unicode_len();
    let mut i: usize = 0;
    while i < len
        invariant
            i <= len,
            len == s@.len(),
            forall|j: int| 0 <= j < i ==> s@[j] != ',',
        decreases len - i,
    {
        if s.get_char(i) == ',' {
            return Some(i);
        }
        i += 1;
    }
    None
}

/// Membership of `s` in a vector of names.
pub fn vec_contains_str(al: &Vec<String>, s: &str) -> (r: bool)
    ensures
        r == seq_contains_str(al@, s@),
{
    let mut i: usize = 0;
    while i < al.len()
        invariant
            i <= al@.len(),
            forall|j: int| 0 <= j < i ==> al@[j]@ != s@,
        decreases al@.len() - i,
    {
        if str_eq(al[i].as_str(), s) {
            return true;
        }
        i += 1;
    }
    false
}

} // verus!
