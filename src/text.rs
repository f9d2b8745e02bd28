//! Text primitives: case folding, substring search and decimal rendering.
use vstd::prelude::*;

verus! {

/// What `str::to_lowercase` makes of a string: Unicode lowercase mapping,
/// which depends on the characters alone.
pub uninterp spec fn lower_of(s: Seq<char>) -> Seq<char>;

/// Relies on `str::to_lowercase`: the result is the lowercase mapping of the
/// characters of `s`, and the empty string maps to the empty string.
#[verifier::external_body]
pub(crate) fn lowercase(s: &str) -> (r: String)
    ensures
        r@ == lower_of(s@),
        s@.len() == 0 ==> r@.len() == 0,
{
    s.to_lowercase()
}

/// `needle` stands in `haystack` starting at position `i`.
pub open spec fn occurs_at(needle: Seq<char>, haystack: Seq<char>, i: int) -> bool {
    0 <= i && i + needle.len() <= haystack.len() && haystack.subrange(i, i + needle.len())
        == needle
}

/// `needle` is a contiguous part of `haystack` (the empty sequence is part of every one).
pub open spec fn is_substring(needle: Seq<char>, haystack: Seq<char>) -> bool {
    exists|i: int| #[trigger] occurs_at(needle, haystack, i)
}

fn occurs_at_exec(haystack: &str, needle: &str, h: usize, n: usize, i: usize) -> (r: bool)
    requires
        h == haystack@.len(),
        n == needle@.len(),
        i + n <= h,
    ensures
        r == occurs_at(needle@, haystack@, i as int),
{
    let mut j: usize = 0;
    while j < n
        invariant
            h == haystack@.len(),
            n == needle@.len(),
            i + n <= h,
            j <= n,
            forall|k: int| 0 <= k < j ==> haystack@[i + k] == needle@[k],
        decreases n - j,
    {
        if haystack.get_char(i + j) != needle.get_char(j) {
            assert(haystack@.subrange(i as int, i + n)[j as int] != needle@[j as int]);
            return false;
        }
        j += 1;
    }
    assert(haystack@.subrange(i as int, i + n) =~= needle@);
    true
}

/// Substring search over characters.
pub fn contains_text(haystack: &str, needle: &str) -> (r: bool)
    ensures
        r == is_substring(needle@, haystack@),
{
    let h = haystack.unicode_len();
    let n = needle.unicode_len();
    if n > h {
        assert(forall|i: int| !occurs_at(needle@, haystack@, i));
        return false;
    }
    let mut i: usize = 0;
    loop
        invariant
            n <= h,
            h == haystack@.len(),
            n == needle@.len(),
            i <= h - n,
            forall|k: int| 0 <= k < i ==> !occurs_at(needle@, haystack@, k),
        decreases h - n - i,
    {
        if occurs_at_exec(haystack, needle, h, n, i) {
            return true;
        }
        if i == h - n {
            assert(forall|k: int| !occurs_at(needle@, haystack@, k));
            return false;
        }
        i += 1;
    }
}

/// The ten decimal digits, in order of value.
pub const DIGITS: &'static str = "0123456789";

/// The decimal digits of `n`, most significant first, without leading zeros.
pub open spec fn nat_digits(n: nat) -> Seq<char>
    decreases n,
{
    if n < 10 {
        seq![DIGITS@[n as int]]
    } else {
        nat_digits(n / 10).push(DIGITS@[(n % 10) as int])
    }
}

/// The decimal form of `n`, with a leading `-` when it is negative.
pub open spec fn decimal(n: int) -> Seq<char> {
    if n < 0 {
        "-"@ + nat_digits((-n) as nat)
    } else {
        nat_digits(n as nat)
    }
}

fn nat_text(n: u32) -> (r: String)
    ensures
        r@ == nat_digits(n as nat),
    decreases n,
{
    proof {
        reveal_strlit("0123456789");
    }
    if n < 10 {
        let r = String::from_str(DIGITS.substring_char(n as usize, n as usize + 1));
        assert(r@ =~= nat_digits(n as nat));
        r
    } else {
        let mut s = nat_text(n / 10);
        let d = (n % 10) as usize;
        s.append(DIGITS.substring_char(d, d + 1));
        assert(s@ =~= nat_digits(n as nat));
        s
    }
}

/// Renders an integer in decimal.
pub fn decimal_text(n: i32) -> (r: String)
    ensures
        r@ == decimal(n as int),
{
    if n < 0 {
        let m = (-(n as i64)) as u32;
        let mut s = String::from_str("-");
        let digits = nat_text(m);
        s.append(digits.as_str());
        s
    } else {
        nat_text(n as u32)
    }
}

} // verus!
