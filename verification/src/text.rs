//! Small verified text utilities: exact and ASCII-case-insensitive string
//! comparison, and whitespace trimming.
use vstd::prelude::*;
use vstd::string::StrSliceExecFns;
use vstd::string::StringExecFns;

verus! {

/// Whether a character counts as whitespace, as `char::is_whitespace` decides
/// it; left abstract because the underlying character property is a large
/// fixed table.
pub uninterp spec fn is_space_char(c: char) -> bool;

/// Relies on `char::is_whitespace` from std: whether the character has the
/// Unicode white-space property, a fixed function of the character alone.
#[verifier::external_body]
fn is_whitespace_char(c: char) -> (r: bool)
    ensures
        r == is_space_char(c),
{
    c.is_whitespace()
}

/// Compares two string slices character by character.
pub fn str_eq(a: &str, b: &str) -> (r: bool)
    ensures
        r == (a@ == b@),
{
    let a_len = a.unicode_len();
    let b_len = b.unicode_len();
    if a_len != b_len {
        assert(a@.len() != b@.len());
        return false;
    }
    let mut i: usize = 0;
    while i < a_len
        invariant
            a_len == a@.len(),
            b_len == b@.len(),
            a_len == b_len,
            i <= a_len,
            forall|j: int| 0 <= j < i ==> a@[j] == b@[j],
        decreases a_len - i,
    {
        if a.get_char(i) != b.get_char(i) {
            return false;
        }
        i = i + 1;
    }
    assert(a@ =~= b@);
    true
}

/// Whether two characters are equal up to ASCII letter case; characters
/// outside the ASCII letters must match exactly.
pub open spec fn char_ci_eq(a: char, b: char) -> bool {
    ||| a == b
    ||| ('A' <= a <= 'Z' && a as int + 32 == b as int)
    ||| ('A' <= b <= 'Z' && b as int + 32 == a as int)
}

/// Whether two character sequences match up to ASCII letter case.
pub open spec fn seq_ci_eq(a: Seq<char>, b: Seq<char>) -> bool {
    a.len() == b.len() && (forall|i: int| 0 <= i < a.len() ==> #[trigger] char_ci_eq(a[i], b[i]))
}

/// Compares two string slices, treating ASCII letters case-insensitively.
pub fn str_eq_ignore_ascii_case(a: &str, b: &str) -> (r: bool)
    ensures
        r == seq_ci_eq(a@, b@),
{
    let a_len = a.unicode_len();
    let b_len = b.unicode_len();
    if a_len != b_len {
        return false;
    }
    let mut i: usize = 0;
    while i < a_len
        invariant
            a_len == a@.len(),
            b_len == b@.len(),
            a_len == b_len,
            i <= a_len,
            forall|j: int| 0 <= j < i ==> #[trigger] char_ci_eq(a@[j], b@[j]),
        decreases a_len - i,
    {
        let ca = a.get_char(i);
        let cb = b.get_char(i);
        let ca_code = ca as u32;
        let cb_code = cb as u32;
        let folded_a: u32 = if 65 <= ca_code && ca_code <= 90 {
            ca_code + 32
        } else {
            ca_code
        };
        let folded_b: u32 = if 65 <= cb_code && cb_code <= 90 {
            cb_code + 32
        } else {
            cb_code
        };
        if folded_a != folded_b {
            assert(!char_ci_eq(a@[i as int], b@[i as int]));
            return false;
        }
        assert(char_ci_eq(a@[i as int], b@[i as int]));
        i = i + 1;
    }
    true
}

/// The sequence with its leading whitespace removed.
pub open spec fn spec_trim_start(s: Seq<char>) -> Seq<char>
    decreases s.len(),
{
    if s.len() == 0 {
        s
    } else if is_space_char(s[0]) {
        spec_trim_start(s.drop_first())
    } else {
        s
    }
}

/// The sequence with its trailing whitespace removed.
pub open spec fn spec_trim_end(s: Seq<char>) -> Seq<char>
    decreases s.len(),
{
    if s.len() == 0 {
        s
    } else if is_space_char(s.last()) {
        spec_trim_end(s.drop_last())
    } else {
        s
    }
}

/// The sequence with leading and trailing whitespace removed.
pub open spec fn spec_trim(s: Seq<char>) -> Seq<char> {
    spec_trim_end(spec_trim_start(s))
}

proof fn lemma_trim_start_skip(s: Seq<char>, i: int)
    requires
        0 <= i <= s.len(),
        forall|j: int| 0 <= j < i ==> is_space_char(s[j]),
    ensures
        spec_trim_start(s) == spec_trim_start(s.skip(i)),
    decreases i,
{
    if i > 0 {
        assert(s.skip(0) =~= s);
        assert(s.drop_first() =~= s.skip(1));
        lemma_trim_start_skip(s.drop_first(), i - 1);
        assert(s.drop_first().skip(i - 1) =~= s.skip(i));
    } else {
        assert(s.skip(0) =~= s);
    }
}

proof fn lemma_trim_end_take(s: Seq<char>, i: int)
    requires
        0 <= i <= s.len(),
        forall|j: int| i <= j < s.len() ==> is_space_char(s[j]),
    ensures
        spec_trim_end(s) == spec_trim_end(s.take(i)),
    decreases s.len() - i,
{
    if i < s.len() {
        assert(is_space_char(s.last()));
        lemma_trim_end_take(s.drop_last(), i);
        assert(s.drop_last().take(i) =~= s.take(i));
    } else {
        assert(s.take(i) =~= s);
    }
}

/// Returns the string with leading and trailing whitespace removed.
pub fn trim_str(s: &str) -> (r: String)
    ensures
        r@ == spec_trim(s@),
{
    let n = s.unicode_len();
    let mut start: usize = 0;
    while start < n && is_whitespace_char(s.get_char(start))
        invariant
            n == s@.len(),
            start <= n,
            forall|j: int| 0 <= j < start ==> is_space_char(s@[j]),
        decreases n - start,
    {
        start = start + 1;
    }
    proof {
        lemma_trim_start_skip(s@, start as int);
    }
    if start == n {
        proof {
            assert(s@.skip(start as int) =~= Seq::<char>::empty());
        }
        return String::new();
    }
    assert(!is_space_char(s@[start as int]));
    let ghost rest = s@.skip(start as int);
    proof {
        assert(rest[0] == s@[start as int]);
        assert(spec_trim_start(s@) == rest);
    }
    let mut end: usize = n;
    while end > start && is_whitespace_char(s.get_char(end - 1))
        invariant
            n == s@.len(),
            start <= end <= n,
            forall|j: int| end <= j < n ==> is_space_char(s@[j]),
        decreases end,
    {
        end = end - 1;
    }
    assert(end > start);
    proof {
        assert(forall|j: int| end - start <= j < rest.len() ==> is_space_char(#[trigger] rest[j]));
        lemma_trim_end_take(rest, end - start);
        assert(rest.take(end - start) =~= s@.subrange(start as int, end as int));
        assert(rest.take(end - start).last() == s@[end - 1]);
        assert(!is_space_char(s@[end - 1]));
        assert(spec_trim_end(rest.take(end - start)) == rest.take(end - start));
    }
    let piece = s.substring_char(start, end);
    String::from_str(piece)
}

} // verus!
