//! Matriculation numbers.

use vstd::prelude::*;
use vstd::string::StrSliceExecFns;
use vstd::string::StringExecFns;

verus! {

/// An ASCII decimal digit.
pub open spec fn is_digit(c: char) -> bool {
    '0' <= c && c <= '9'
}

/// A matriculation number: exactly eight characters, each a decimal digit.
/// Leading zeros count; the string is never read as a number.
pub open spec fn is_mat_nr_spec(s: Seq<char>) -> bool {
    &&& s.len() == 8
    &&& forall|i: int| 0 <= i < s.len() ==> is_digit(#[trigger] s[i])
}

/// Whether `s` is a well-formed matriculation number.
pub fn is_mat_nr(s: &str) -> (r: bool)
    ensures
        r == is_mat_nr_spec(s@),
{
    let n: usize = s.unicode_len();
    if n != 8 {
        return false;
    }
    let mut i: usize = 0;
    while i < n
        invariant
            n == s@.len(),
            i <= n,
            forall|t: int| 0 <= t < i ==> is_digit(#[trigger] s@[t]),
        decreases n - i,
    {
        let c: char = s.get_char(i);
        if !('0' <= c && c <= '9') {
            return false;
        }
        i += 1;
    }
    true
}

/// A string without the white space at its two ends, as the standard library
/// takes it off.
pub uninterp spec fn trimmed(s: Seq<char>) -> Seq<char>;

/// `str::trim` of the standard library: the result is the argument without its
/// leading and trailing white space, a function of its characters alone.
#[verifier::external_body]
fn trim(s: &str) -> (r: &str)
    ensures
        r@ == trimmed(s@),
{
    s.trim()
}

/// The first `n` characters of `s`, or all of it where it has fewer.
pub open spec fn first_chars(s: Seq<char>, n: nat) -> Seq<char> {
    if s.len() <= n {
        s
    } else {
        s.subrange(0, n as int)
    }
}

/// The first `n` characters of `s`, or all of it where it has fewer.
pub fn leading_chars(s: &str, n: usize) -> (r: String)
    ensures
        r@ == first_chars(s@, n as nat),
{
    let len: usize = s.unicode_len();
    if len <= n {
        String::from_str(s)
    } else {
        String::from_str(s.substring_char(0, n))
    }
}

/// What counts as typed: the first eight characters of the input once the
/// white space round it is taken off. A picked suggestion begins with the
/// matriculation number, so this is the number it stands for.
pub fn typed_mat_nr(input: &str) -> (r: String)
    ensures
        r@ == first_chars(trimmed(input@), 8),
{
    leading_chars(trim(input), 8)
}

} // verus!
