//! Small trusted bridge between `String`/`&str` and `Vec<char>`.
//!
//! Verus views both a string slice and a `String` as a `Seq<char>`, so the
//! contracts below only restate the definition of that view; the bodies do
//! the conversions that vstd does not provide directly.

use vstd::prelude::*;

verus! {

/// Relies on str::chars: iterating a string slice yields exactly the
/// characters of its view, in order.
#[verifier::external_body]
pub fn str_chars(s: &str) -> (r: Vec<char>)
    ensures
        r@ == s@,
{
    s.chars().collect()
}

/// Relies on String's FromIterator over chars: collecting characters yields
/// the string whose view is that character sequence.
#[verifier::external_body]
pub fn chars_string(v: &Vec<char>) -> (r: String)
    ensures
        r@ == v@,
{
    v.iter().collect()
}

/// Whether two string slices hold the same characters, compared one by one.
pub fn str_eq(a: &str, b: &str) -> (r: bool)
    ensures
        r == (a@ == b@),
{
    let ca = str_chars(a);
    let cb = str_chars(b);
    if ca.len() != cb.len() {
        return false;
    }
    let mut i: usize = 0;
    while i < ca.len()
        invariant
            ca@ == a@,
            cb@ == b@,
            a@.len() == b@.len(),
            0 <= i <= a@.len(),
            forall|j: int| 0 <= j < i ==> a@[j] == b@[j],
        decreases a@.len() - i,
    {
        if ca[i] != cb[i] {
            return false;
        }
        i = i + 1;
    }
    proof {
        assert(a@ =~= b@);
    }
    true
}

/// The string with leading and trailing whitespace removed.
pub fn trim_string(s: &str) -> (r: String)
    ensures
        r@ == crate::chars::trim_spec(s@),
{
    let cs = str_chars(s);
    let n = cs.len();
    let mut b: usize = 0;
    while b < n && crate::chars::is_whitespace_char(cs[b])
        invariant
            0 <= b <= n,
            n == cs@.len(),
            cs@ == s@,
            forall|j: int| 0 <= j < b ==> crate::chars::is_ws(s@[j]),
        decreases n - b,
    {
        b = b + 1;
    }
    proof {
        crate::chars::lemma_first_non_ws_at(s@, b as int);
    }
    if b == n {
        proof {
            crate::chars::lemma_last_non_ws(s@);
        }
        let empty: Vec<char> = Vec::new();
        return chars_string(&empty);
    }
    let mut e: usize = n;
    while e > b + 1 && crate::chars::is_whitespace_char(cs[e - 1])
        invariant
            b < e <= n,
            n == cs@.len(),
            cs@ == s@,
            forall|j: int| e <= j < n ==> crate::chars::is_ws(s@[j]),
        decreases e,
    {
        e = e - 1;
    }
    // Here the character at `e - 1` is not whitespace: either the scan
    // stopped on it, or it is the first non-whitespace character itself.
    proof {
        crate::chars::lemma_last_non_ws_at(s@, e - 1);
    }
    let mut out: Vec<char> = Vec::new();
    let mut i: usize = b;
    while i < e
        invariant
            b <= i <= e <= n,
            n == cs@.len(),
            cs@ == s@,
            out@ == s@.subrange(b as int, i as int),
        decreases e - i,
    {
        out.push(cs[i]);
        proof {
            assert(out@ =~= s@.subrange(b as int, i + 1));
        }
        i = i + 1;
    }
    chars_string(&out)
}

/// An owned copy of a string slice.
pub fn str_string(s: &str) -> (r: String)
    ensures
        r@ == s@,
{
    let cs = str_chars(s);
    chars_string(&cs)
}

/// Appends the characters of `s` to `out`.
pub fn append_chars(out: &mut Vec<char>, s: &Vec<char>)
    ensures
        final(out)@ == old(out)@ + s@,
{
    let mut i: usize = 0;
    while i < s.len()
        invariant
            0 <= i <= s@.len(),
            out@ == old(out)@ + s@.take(i as int),
        decreases s@.len() - i,
    {
        out.push(s[i]);
        proof {
            assert(old(out)@ + s@.take(i + 1) =~= (old(out)@ + s@.take(i as int)).push(
                s@[i as int],
            ));
        }
        i = i + 1;
    }
    proof {
        assert(s@.take(s@.len() as int) =~= s@);
    }
}

/// Appends the characters of the string slice `s` to `out`.
pub fn append_str(out: &mut Vec<char>, s: &str)
    ensures
        final(out)@ == old(out)@ + s@,
{
    let cs = str_chars(s);
    append_chars(out, &cs);
}

} // verus!
