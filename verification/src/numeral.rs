//! Decimal numerals: reading a signed integer out of text, and writing one.

use vstd::prelude::*;
use vstd::string::*;

verus! {

/// Whether a character is one of the ten ASCII digits.
pub open spec fn is_digit(c: char) -> bool {
    '0' <= c && c <= '9'
}

/// The number a digit stands for; zero for any other character.
pub open spec fn digit_value(c: char) -> nat {
    if is_digit(c) {
        (c as int - '0' as int) as nat
    } else {
        0
    }
}

/// The digit that stands for a number below ten.
pub open spec fn digit_char(d: int) -> char {
    (d + 48) as u8 as char
}

/// Whether every character of a text is a digit.
pub open spec fn all_digits(text: Seq<char>) -> bool {
    forall|i: int| 0 <= i < text.len() ==> is_digit(#[trigger] text[i])
}

/// The number that a run of digits writes in base ten.
pub open spec fn digits_value(digits: Seq<char>) -> nat
    decreases digits.len(),
{
    if digits.len() == 0 {
        0
    } else {
        digits_value(digits.drop_last()) * 10 + digit_value(digits.last())
    }
}

/// One where the text opens with `+` or `-`, zero otherwise.
pub open spec fn sign_length(text: Seq<char>) -> int {
    if text.len() > 0 && (text[0] == '-' || text[0] == '+') {
        1
    } else {
        0
    }
}

/// What is left of a text once a leading sign is set aside.
pub open spec fn digit_part(text: Seq<char>) -> Seq<char> {
    text.skip(sign_length(text))
}

/// Whether a text is an optional sign followed by at least one digit and
/// nothing else.
pub open spec fn is_integer_text(text: Seq<char>) -> bool {
    digit_part(text).len() > 0 && all_digits(digit_part(text))
}

/// The number an integer text writes, however large.
pub open spec fn signed_value(text: Seq<char>) -> int {
    if text.len() > 0 && text[0] == '-' {
        -(digits_value(digit_part(text)) as int)
    } else {
        digits_value(digit_part(text)) as int
    }
}

/// The number an integer text writes, where it fits in 64 bits.
pub open spec fn integer_text_value(text: Seq<char>) -> Option<i64> {
    if is_integer_text(text) && i64::MIN <= signed_value(text) <= i64::MAX {
        Some(signed_value(text) as i64)
    } else {
        None
    }
}

/// The digits of a natural number, most significant first, without
/// leading zeros.
pub open spec fn digits_of(n: nat) -> Seq<char>
    decreases n,
{
    if n < 10 {
        seq![digit_char(n as int)]
    } else {
        digits_of(n / 10).push(digit_char((n % 10) as int))
    }
}

/// A number in base ten, with `-` in front where it is negative.
pub open spec fn decimal_text(n: int) -> Seq<char> {
    if n < 0 {
        seq!['-'] + digits_of((-n) as nat)
    } else {
        digits_of(n as nat)
    }
}

/// Ten to the power `k`.
pub open spec fn pow10(k: nat) -> nat
    decreases k,
{
    if k == 0 {
        1
    } else {
        10 * pow10((k - 1) as nat)
    }
}

/// The value of a prefix of a run of digits is never above the value of
/// the whole run.
pub proof fn lemma_prefix_value_bound(digits: Seq<char>, k: int)
    requires
        0 <= k <= digits.len(),
    ensures
        digits_value(digits.take(k)) <= digits_value(digits),
    decreases digits.len(),
{
    if k == digits.len() {
        assert(digits.take(k) =~= digits);
    } else {
        lemma_prefix_value_bound(digits.drop_last(), k);
        assert(digits.drop_last().take(k) =~= digits.take(k));
    }
}

/// An integer text holds ASCII characters only.
pub proof fn lemma_integer_text_is_ascii(text: Seq<char>)
    requires
        is_integer_text(text),
    ensures
        vstd::utf8::is_ascii_chars(text),
{
    let sign: int = sign_length(text);
    assert forall|i: int| 0 <= i < text.len() implies '\0' <= #[trigger] text[i] <= '\u{7f}' by {
        if i >= sign {
            assert(text[i] == digit_part(text)[i - sign]);
            assert(is_digit(digit_part(text)[i - sign]));
        }
    }
}

/// The digits of a number are digits, at least one of them, and write
/// that number.
pub proof fn lemma_digits_of_value(n: nat)
    ensures
        digits_of(n).len() >= 1,
        all_digits(digits_of(n)),
        digits_value(digits_of(n)) == n,
    decreases n,
{
    if n < 10 {
        let one: Seq<char> = digits_of(n);
        assert(one.len() == 1);
        assert(one.drop_last() =~= Seq::<char>::empty());
        assert(digits_value(one.drop_last()) == 0);
        assert(is_digit(one[0]));
        assert(digit_value(one.last()) == n);
    } else {
        lemma_digits_of_value(n / 10);
        let higher: Seq<char> = digits_of(n / 10);
        let whole: Seq<char> = digits_of(n);
        assert(whole == higher.push(digit_char((n % 10) as int)));
        assert(whole.drop_last() =~= higher);
        assert(is_digit(whole.last()));
        assert(digit_value(whole.last()) == n % 10);
        assert forall|i: int| 0 <= i < whole.len() implies is_digit(#[trigger] whole[i]) by {
            if i < higher.len() {
                assert(whole[i] == higher[i]);
            }
        }
    }
}

/// A number has at most `k` digits exactly when it is below ten to the `k`.
pub proof fn lemma_digits_of_length(n: nat, k: nat)
    requires
        k >= 1,
    ensures
        digits_of(n).len() <= k <==> n < pow10(k),
    decreases n,
{
    reveal_with_fuel(pow10, 2);
    if n < 10 {
        lemma_pow10_at_least_ten(k);
        assert(digits_of(n).len() == 1);
    } else {
        lemma_digits_of_value(n / 10);
        assert(digits_of(n).len() == digits_of(n / 10).len() + 1);
        if k > 1 {
            lemma_digits_of_length(n / 10, (k - 1) as nat);
            let below: nat = pow10((k - 1) as nat);
            assert(pow10(k) == 10 * below);
            assert(n / 10 < below <==> n < 10 * below);
        }
    }
}

/// From the first power on, powers of ten are at least ten.
pub proof fn lemma_pow10_at_least_ten(k: nat)
    requires
        k >= 1,
    ensures
        pow10(k) >= 10,
    decreases k,
{
    reveal_with_fuel(pow10, 2);
    if k > 1 {
        lemma_pow10_at_least_ten((k - 1) as nat);
    }
}

/// Writing a 64-bit integer in base ten and reading the text back gives
/// the integer again.
pub proof fn law_decimal_text_reads_back(n: i64)
    ensures
        is_integer_text(decimal_text(n as int)),
        integer_text_value(decimal_text(n as int)) == Some(n),
        digit_part(decimal_text(n as int)) == digits_of(vstd::math::abs(n as int)),
{
    let text: Seq<char> = decimal_text(n as int);
    let size: nat = vstd::math::abs(n as int);
    lemma_digits_of_value(size);
    let digits: Seq<char> = digits_of(size);
    assert(is_digit(digits[0]));
    if n < 0 {
        assert(text[0] == '-');
        assert(text.skip(1) =~= digits);
    } else {
        assert(text == digits);
        assert(text.skip(0) =~= digits);
    }
}

/// An integer read from text, with the number of digits it was written in.
#[derive(Clone, Copy, Debug, PartialEq, Eq, Structural)]
pub struct IntegerText {
    /// The number written.
    pub value: i64,
    /// How many digits followed the optional sign, leading zeros included.
    pub digit_count: usize,
}

/// Reads a text that is nothing but an optional sign and decimal digits.
/// Anything else, and a number that 64 bits cannot hold, gives nothing.
pub fn read_integer(text: &str) -> (found: Option<IntegerText>)
    ensures
        found is Some <==> integer_text_value(text@) is Some,
        found matches Some(read) ==> integer_text_value(text@) == Some(read.value)
            && read.digit_count == digit_part(text@).len(),
{
    if !text.is_ascii() {
        proof {
            if is_integer_text(text@) {
                lemma_integer_text_is_ascii(text@);
            }
        }
        return None;
    }
    let bytes = text.as_bytes();
    proof {
        broadcast use vstd::string::is_ascii_spec_bytes;

        assert(bytes@ =~= Seq::new(text@.len(), |i: int| text@[i] as u8));
    }
    let n: usize = bytes.len();
    if n == 0 {
        return None;
    }
    let first: u8 = bytes[0];
    assert(first == text@[0] as u8);
    let negative: bool = first == 45;
    let start: usize = if first == 45 || first == 43 {
        1
    } else {
        0
    };
    assert(start == sign_length(text@));
    if start == n {
        return None;
    }
    let ghost body: Seq<char> = digit_part(text@);
    let mut magnitude: u128 = 0;
    let mut i: usize = start;
    assert(body.take(0) =~= Seq::<char>::empty());
    while i < n
        invariant
            start <= i <= n,
            n == bytes@.len(),
            n == text@.len(),
            vstd::utf8::is_ascii_chars(text@),
            forall|k: int| 0 <= k < n ==> bytes@[k] == #[trigger] text@[k] as u8,
            start == sign_length(text@),
            body == digit_part(text@),
            all_digits(body.take(i - start)),
            magnitude == digits_value(body.take(i - start)),
            magnitude <= 0x8000_0000_0000_0000,
        decreases n - i,
    {
        let byte: u8 = bytes[i];
        let ghost seen: Seq<char> = body.take(i - start);
        let ghost longer: Seq<char> = body.take(i + 1 - start);
        proof {
            assert(body[i - start] == text@[i as int]);
            assert(byte == text@[i as int] as u8);
            assert(longer.drop_last() =~= seen);
            assert(longer.last() == body[i - start]);
        }
        if byte < 48 || byte > 57 {
            assert(!is_digit(body[i - start]));
            return None;
        }
        assert(is_digit(body[i - start]));
        let next: u128 = magnitude * 10 + (byte - 48) as u128;
        proof {
            assert(digit_value(body[i - start]) == byte - 48);
            assert(next == digits_value(longer));
            assert forall|k: int| 0 <= k < longer.len() implies is_digit(#[trigger] longer[k]) by {
                if k < seen.len() {
                    assert(longer[k] == seen[k]);
                }
            }
        }
        if next > 0x8000_0000_0000_0000 {
            proof {
                lemma_prefix_value_bound(body, i + 1 - start);
            }
            return None;
        }
        magnitude = next;
        i += 1;
    }
    assert(body.take(n - start) =~= body);
    if negative {
        let value: i64 = (-(magnitude as i128)) as i64;
        Some(IntegerText { value, digit_count: n - start })
    } else if magnitude > 0x7fff_ffff_ffff_ffff {
        None
    } else {
        Some(IntegerText { value: magnitude as i64, digit_count: n - start })
    }
}

/// The one-character text of a digit.
fn digit_text(d: u8) -> (text: &'static str)
    requires
        d < 10,
    ensures
        text@ == seq![digit_char(d as int)],
{
    proof {
        reveal_strlit("0");
        reveal_strlit("1");
        reveal_strlit("2");
        reveal_strlit("3");
        reveal_strlit("4");
        reveal_strlit("5");
        reveal_strlit("6");
        reveal_strlit("7");
        reveal_strlit("8");
        reveal_strlit("9");
    }
    let text: &'static str = match d {
        0 => "0",
        1 => "1",
        2 => "2",
        3 => "3",
        4 => "4",
        5 => "5",
        6 => "6",
        7 => "7",
        8 => "8",
        _ => "9",
    };
    assert(text@ =~= seq![digit_char(d as int)]);
    text
}

/// Appends the digits of a number to a text.
pub fn push_digits(out: &mut String, n: u64)
    ensures
        final(out)@ == old(out)@ + digits_of(n as nat),
    decreases n,
{
    if n >= 10 {
        push_digits(out, n / 10);
    }
    out.append(digit_text((n % 10) as u8));
    assert(final(out)@ =~= old(out)@ + digits_of(n as nat));
}

/// Appends one digit to a text.
pub fn push_digit(out: &mut String, d: u8)
    requires
        d < 10,
    ensures
        final(out)@ == old(out)@.push(digit_char(d as int)),
{
    out.append(digit_text(d));
    assert(final(out)@ =~= old(out)@.push(digit_char(d as int)));
}

/// The size of a number without its sign.
pub fn magnitude(n: i64) -> (size: u64)
    ensures
        size == vstd::math::abs(n as int),
{
    if n < 0 {
        ((-(n + 1)) as u64) + 1
    } else {
        n as u64
    }
}

/// Writes a 64-bit integer in base ten.
pub fn render_integer(n: i64) -> (text: String)
    ensures
        text@ == decimal_text(n as int),
{
    let mut text = String::new();
    if n < 0 {
        text.append("-");
        proof {
            reveal_strlit("-");
        }
    }
    push_digits(&mut text, magnitude(n));
    assert(text@ =~= decimal_text(n as int));
    text
}

} // verus!
