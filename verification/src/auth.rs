//! Group codes: the shared secret that keeps a set of devices apart from
//! the rest of the local network.

use rand::Rng;
use vstd::prelude::*;
use crate::text::push_char;
use crate::text::str_equal;

verus! {

/// An ASCII decimal digit, `'0'` to `'9'`.
pub open spec fn is_digit_char(c: char) -> bool {
    '0' <= c && c <= '9'
}

/// The character of the decimal digit `d` (for `0 <= d < 10`).
pub open spec fn digit_char(d: int) -> char {
    (48 + d) as char
}

/// A code that the settings accept: at least four characters, all digits.
pub open spec fn valid_group_code(code: Seq<char>) -> bool {
    &&& code.len() >= 4
    &&& forall|i: int| 0 <= i < code.len() ==> #[trigger] is_digit_char(code[i])
}

/// Whether a device that presents `provided` may join a group whose code is
/// `expected`: an empty expected code admits everyone.
pub open spec fn group_code_admits(provided: Seq<char>, expected: Seq<char>) -> bool {
    expected.len() == 0 || provided == expected
}

/// The four-digit, zero-padded decimal text of `n` (for `n < 10000`).
pub open spec fn four_digits(n: int) -> Seq<char> {
    seq![
        digit_char(n / 1000),
        digit_char((n / 100) % 10),
        digit_char((n / 10) % 10),
        digit_char(n % 10),
    ]
}

/// Checks a presented group code against the expected one.
pub fn verify_group_code(provided: &str, expected: &str) -> (ok: bool)
    ensures
        ok == group_code_admits(provided@, expected@),
{
    if expected.is_empty() {
        return true;
    }
    str_equal(provided, expected)
}

/// Whether `code` is acceptable as a group code: at least four bytes long
/// and made of ASCII digits only.
pub fn is_valid_group_code(code: &str) -> (ok: bool)
    ensures
        ok == valid_group_code(code@),
{
    let n = code.unicode_len();
    let mut i: usize = 0;
    while i < n
        invariant
            n == code@.len(),
            0 <= i <= n,
            forall|j: int| 0 <= j < i ==> #[trigger] is_digit_char(code@[j]),
        decreases n - i,
    {
        let c = code.get_char(i);
        if !('0' <= c && c <= '9') {
            assert(!is_digit_char(code@[i as int]));
            return false;
        }
        i += 1;
    }
    proof {
        assert forall|j: int| 0 <= j < code@.len() implies '\0' <= #[trigger] code@[j] <= '\u{7f}' by {
            assert(is_digit_char(code@[j]));
        }
        assert(vstd::utf8::is_ascii_chars(code@));
        vstd::string::is_ascii_spec_bytes(code);
    }
    code.len() >= 4
}

/// The character of a decimal digit.
pub fn digit_to_char(d: u32) -> (c: char)
    requires
        d < 10,
    ensures
        c == digit_char(d as int),
        is_digit_char(c),
{
    match d {
        0 => '0',
        1 => '1',
        2 => '2',
        3 => '3',
        4 => '4',
        5 => '5',
        6 => '6',
        7 => '7',
        8 => '8',
        _ => '9',
    }
}

/// Formats `n` as four zero-padded decimal digits (`format!("{:04}", n)`).
pub fn format_group_code(n: u32) -> (s: String)
    requires
        n < 10000,
    ensures
        s@ == four_digits(n as int),
        valid_group_code(s@),
{
    let mut s = String::new();
    push_char(&mut s, digit_to_char(n / 1000));
    push_char(&mut s, digit_to_char((n / 100) % 10));
    push_char(&mut s, digit_to_char((n / 10) % 10));
    push_char(&mut s, digit_to_char(n % 10));
    proof {
        assert(s@ =~= four_digits(n as int));
        assert forall|i: int| 0 <= i < s@.len() implies #[trigger] is_digit_char(s@[i]) by {
            assert(0 <= i < 4);
        }
    }
    s
}

/// `rand::thread_rng().gen_range(1000..9999)`: a random number in the
/// half-open range. Nothing is claimed of which number comes out.
#[verifier::external_body]
fn random_code_number() -> (r: u32)
    ensures
        1000 <= r < 9999,
{
    rand::thread_rng().gen_range(1000..9999)
}

/// Draws a fresh random group code of four digits.
pub fn generate_group_code() -> (s: String)
    ensures
        valid_group_code(s@),
        s@.len() == 4,
        exists|n: int| 1000 <= n < 9999 && s@ == four_digits(n),
{
    let n = random_code_number();
    let s = format_group_code(n);
    assert(s@ == four_digits(n as int));
    s
}

/// A group code's text reads back as its number: four decimal digits whose
/// value, most significant first, is `n`.
pub proof fn lemma_four_digits_value(n: int)
    requires
        0 <= n < 10000,
    ensures
        four_digits(n).len() == 4,
        forall|i: int| 0 <= i < 4 ==> #[trigger] is_digit_char(four_digits(n)[i]),
        (four_digits(n)[0] as int - 48) * 1000 + (four_digits(n)[1] as int - 48) * 100 + (
        four_digits(n)[2] as int - 48) * 10 + (four_digits(n)[3] as int - 48) == n,
{
    let d = four_digits(n);
    assert(d[0] as int == 48 + n / 1000);
    assert(d[1] as int == 48 + (n / 100) % 10);
    assert(d[2] as int == 48 + (n / 10) % 10);
    assert(d[3] as int == 48 + n % 10);
}

} // verus!
