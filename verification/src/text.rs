//! Small text building blocks shared by the path resolver and the
//! propagation record codec: pushing a character, path joining, matching a
//! literal inside a string, ASCII upper-casing, and decimal renderings of
//! small version numbers.

use vstd::prelude::*;
use vstd::string::StrSliceExecFns;
use vstd::string::StringExecFns;

verus! {

/// Relies on `String::push`: appends the given character to the end of the
/// string.
#[verifier::external_body]
pub fn push_char(s: &mut String, c: char)
    ensures
        final(s)@ == old(s)@.push(c),
{
    s.push(c)
}

/// The character standing for a single decimal digit.
pub open spec fn digit_char(d: int) -> char {
    ((48 + d) as u8) as char
}

/// The canonical decimal rendering of a non-negative integer: no sign, no
/// leading zeros (a plain `"0"` for zero).
pub open spec fn spec_dec(n: int) -> Seq<char>
    decreases n,
{
    if n < 10 {
        seq![digit_char(n)]
    } else {
        spec_dec(n / 10) + seq![digit_char(n % 10)]
    }
}

/// The fixed-width, three-digit decimal rendering of a byte.
pub open spec fn dec3(n: u8) -> Seq<char> {
    seq![
        digit_char(n as int / 100),
        digit_char((n as int / 10) % 10),
        digit_char(n as int % 10),
    ]
}

/// Appends the digit character of `d` to `s`.
fn push_digit(s: &mut String, d: u8)
    requires
        d < 10,
    ensures
        final(s)@ == old(s)@.push(digit_char(d as int)),
{
    let c: char = (48 + d) as char;
    push_char(s, c);
}

/// Appends the canonical decimal rendering of `n` to `s`.
pub fn append_dec(s: &mut String, n: u8)
    ensures
        final(s)@ == old(s)@ + spec_dec(n as int),
{
    let ghost s0 = s@;
    if n < 10 {
        push_digit(s, n);
        assert(final(s)@ =~= s0 + spec_dec(n as int));
    } else if n < 100 {
        push_digit(s, n / 10);
        push_digit(s, n % 10);
        assert(spec_dec(n as int) == spec_dec(n as int / 10) + seq![digit_char(n as int % 10)]);
        assert(final(s)@ =~= s0 + spec_dec(n as int));
    } else {
        push_digit(s, n / 100);
        push_digit(s, (n / 10) % 10);
        push_digit(s, n % 10);
        proof {
            assert((n as int / 10) / 10 == n as int / 100) by (nonlinear_arith);
            assert(n as int / 10 >= 10 && n as int / 100 < 10);
            assert(spec_dec(n as int / 10) == spec_dec(n as int / 100) + seq![
                digit_char((n as int / 10) % 10),
            ]);
        }
        assert(final(s)@ =~= s0 + spec_dec(n as int));
    }
}

/// Appends the three-digit decimal rendering of `n` to `s`.
pub fn append_dec3(s: &mut String, n: u8)
    ensures
        final(s)@ == old(s)@ + dec3(n),
{
    let ghost s0 = s@;
    push_digit(s, n / 100);
    push_digit(s, (n / 10) % 10);
    push_digit(s, n % 10);
    assert(final(s)@ =~= s0 + dec3(n));
}

/// Joining two path segments with the directory separator.
pub open spec fn spec_join(a: Seq<char>, b: Seq<char>) -> Seq<char> {
    a + seq!['/'] + b
}

/// Returns `a` and `b` joined with the directory separator.
pub fn join(a: &str, b: &str) -> (r: String)
    ensures
        r@ == spec_join(a@, b@),
{
    let mut s = a.to_owned();
    push_char(&mut s, '/');
    s.append(b);
    assert(s@ =~= spec_join(a@, b@));
    s
}

/// Whether `l` occurs in `s` starting at position `i`.
pub open spec fn match_at(s: Seq<char>, i: int, l: Seq<char>) -> bool {
    i + l.len() <= s.len() && s.subrange(i, i + l.len()) == l
}

/// Tests whether the literal `l` occurs in `s` at character position `i`.
pub fn match_lit(s: &str, i: usize, l: &str) -> (r: bool)
    requires
        i <= s@.len(),
    ensures
        r == match_at(s@, i as int, l@),
{
    let n = s.unicode_len();
    let k = l.unicode_len();
    if n - i < k {
        return false;
    }
    let mut j: usize = 0;
    while j < k
        invariant
            0 <= j <= k,
            k == l@.len(),
            n == s@.len(),
            i + k <= n,
            forall|t: int| 0 <= t < j ==> s@[i + t] == l@[t],
        decreases k - j,
    {
        if s.get_char(i + j) != l.get_char(j) {
            assert(s@.subrange(i as int, i + l@.len())[j as int] != l@[j as int]);
            return false;
        }
        j += 1;
    }
    assert(s@.subrange(i as int, i + l@.len()) =~= l@);
    true
}

/// The ASCII upper-case counterpart of a character: letters `a` through `z`
/// are shifted to `A` through `Z`; every other character stays itself.
pub open spec fn upper_char(c: char) -> char {
    if 97 <= c as int <= 122 {
        ((c as int - 32) as u8) as char
    } else {
        c
    }
}

/// A string mapped character by character to its ASCII upper case.
pub open spec fn spec_upper(s: Seq<char>) -> Seq<char> {
    s.map_values(|c: char| upper_char(c))
}

/// Returns `s` with every ASCII lower-case letter replaced by its upper-case
/// counterpart; all other characters are kept.
pub fn ascii_upper(s: &str) -> (r: String)
    ensures
        r@ == spec_upper(s@),
{
    let n = s.unicode_len();
    let mut out = String::new();
    let mut i: usize = 0;
    while i < n
        invariant
            0 <= i <= n,
            n == s@.len(),
            out@ == spec_upper(s@.subrange(0, i as int)),
        decreases n - i,
    {
        let ghost prefix = s@.subrange(0, i as int);
        let c = s.get_char(i);
        let u = c as u32;
        if 97 <= u && u <= 122 {
            let shifted: char = ((u - 32) as u8) as char;
            push_char(&mut out, shifted);
            assert(shifted == upper_char(c));
        } else {
            push_char(&mut out, c);
            assert(c == upper_char(c));
        }
        i += 1;
        assert(s@.subrange(0, i as int) =~= prefix.push(c));
        assert(out@ =~= spec_upper(s@.subrange(0, i as int)));
    }
    assert(s@.subrange(0, n as int) =~= s@);
    out
}

} // verus!
