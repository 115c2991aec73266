//! Text helpers: trimming, decimal rendering and path joining.

use vstd::prelude::*;
use vstd::string::StringExecFns;

verus! {

/// The characters that `str::trim` leaves of `s`.
pub uninterp spec fn trim_of(s: Seq<char>) -> Seq<char>;

/// The text of the path that `Path::join` makes of `dir` and `name`.
pub uninterp spec fn path_join_of(dir: Seq<char>, name: Seq<char>) -> Seq<char>;

/// The character of a decimal digit.
pub open spec fn digit_char(d: nat) -> char
    recommends
        d < 10,
{
    seq!['0', '1', '2', '3', '4', '5', '6', '7', '8', '9'][d as int]
}

/// Decimal digits of a natural number, most significant first, no leading zeros.
pub open spec fn digits_of(n: nat) -> Seq<char>
    decreases n,
{
    if n < 10 {
        seq![digit_char(n)]
    } else {
        digits_of(n / 10).push(digit_char(n % 10))
    }
}

/// Decimal text of an integer, with a leading `-` when it is negative.
pub open spec fn decimal_text(x: int) -> Seq<char> {
    if x < 0 {
        seq!['-'] + digits_of((-x) as nat)
    } else {
        digits_of(x as nat)
    }
}

/// Relies on `str::trim`: leading and trailing white space removed; the
/// result is a function of the characters alone.
#[verifier::external_body]
fn trim_str(s: &str) -> (r: String)
    ensures
        r@ == trim_of(s@),
{
    s.trim().to_string()
}

/// Relies on `ToString` for `i64` (its `Display`): decimal digits, `-` before
/// a negative value.
#[verifier::external_body]
pub(crate) fn i64_text(x: i64) -> (r: String)
    ensures
        r@ == decimal_text(x as int),
{
    x.to_string()
}

/// Relies on `Path::join`, the joined path read back as text.
#[verifier::external_body]
pub(crate) fn join_str(dir: &str, name: &str) -> (r: String)
    ensures
        r@ == path_join_of(dir@, name@),
{
    std::path::Path::new(dir).join(name).display().to_string()
}

/// `s` without leading and trailing white space.
pub fn trimmed(s: &str) -> (r: String)
    ensures
        r@ == trim_of(s@),
{
    trim_str(s)
}

/// `a` followed by `b`.
pub fn concat(a: &str, b: &str) -> (r: String)
    ensures
        r@ == a@ + b@,
{
    let mut s = String::from_str(a);
    s.append(b);
    s
}

/// Whether `value` reads as a filesystem path rather than a bare command
/// name: it holds a path separator or a drive marker.
pub open spec fn is_path_like(value: Seq<char>) -> bool {
    value.contains('\\') || value.contains('/') || value.contains(':')
}

pub fn looks_like_path(value: &str) -> (r: bool)
    ensures
        r == is_path_like(value@),
{
    let n = value.unicode_len();
    let mut i: usize = 0;
    while i < n
        invariant
            n == value@.len(),
            0 <= i <= n,
            forall|j: int| 0 <= j < i ==> value@[j] != '\\' && value@[j] != '/' && value@[j] != ':',
        decreases n - i,
    {
        let c = value.get_char(i);
        if c == '\\' || c == '/' || c == ':' {
            assert(value@[i as int] == c);
            return true;
        }
        i = i + 1;
    }
    assert(!value@.contains('\\'));
    assert(!value@.contains('/'));
    assert(!value@.contains(':'));
    false
}

} // verus!
