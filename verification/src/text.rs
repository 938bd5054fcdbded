//! Rendering of the primitive values that appear in debug text: decimal
//! integers and quoted strings.

use vstd::prelude::*;
use vstd::string::StringExecFns;

verus! {

/// The character for decimal digit `d` (0-9).
pub open spec fn digit_char(d: int) -> char {
    if d == 0 {
        '0'
    } else if d == 1 {
        '1'
    } else if d == 2 {
        '2'
    } else if d == 3 {
        '3'
    } else if d == 4 {
        '4'
    } else if d == 5 {
        '5'
    } else if d == 6 {
        '6'
    } else if d == 7 {
        '7'
    } else if d == 8 {
        '8'
    } else {
        '9'
    }
}

/// The decimal digits of `n`, most significant first, without leading zeros
/// ("0" for zero).
pub open spec fn decimal_text(n: nat) -> Seq<char>
    decreases n,
{
    if n < 10 {
        seq![digit_char(n as int)]
    } else {
        decimal_text(n / 10) + seq![digit_char((n % 10) as int)]
    }
}

/// The decimal rendering of a signed integer: a minus sign before the digits
/// of its magnitude when it is negative.
pub open spec fn signed_decimal_text(x: int) -> Seq<char> {
    if x < 0 {
        seq!['-'] + decimal_text((-x) as nat)
    } else {
        decimal_text(x as nat)
    }
}

/// Whether `c` is a printable ASCII character that `{:?}` leaves as it is
/// inside a quoted string: anything from space to `~` except `"` and `\`.
pub open spec fn plain_debug_char(c: char) -> bool {
    ' ' <= c <= '~' && c != '"' && c != '\\'
}

/// The `{:?}` rendering of a string: the text in double quotes, with the
/// characters that need it escaped.
pub uninterp spec fn str_debug_text(s: Seq<char>) -> Seq<char>;

/// The `{:?}` rendering of a string, with the documented plain case written
/// out: a string made only of printable ASCII other than `"` and `\` renders
/// as itself between double quotes.
pub open spec fn quoted_text(s: Seq<char>) -> Seq<char> {
    if forall|i: int| 0 <= i < s.len() ==> plain_debug_char(#[trigger] s[i]) {
        seq!['"'] + s + seq!['"']
    } else {
        str_debug_text(s)
    }
}

/// `format!("{:?}", s)` for a string slice. The contract names the result,
/// a function of the characters alone, and states the documented plain case:
/// a string made only of printable ASCII other than `"` and `\` renders as
/// itself between double quotes (nothing in it is escaped).
#[verifier::external_body]
fn str_debug(s: &str) -> (r: String)
    ensures
        r@ == str_debug_text(s@),
        (forall|i: int| 0 <= i < s@.len() ==> plain_debug_char(#[trigger] s@[i])) ==> r@ == seq![
            '"',
        ] + s@ + seq!['"'],
{
    format!("{:?}", s)
}

/// The one-character string for decimal digit `d`.
fn digit_str(d: u64) -> (s: &'static str)
    requires
        d < 10,
    ensures
        s@ == seq![digit_char(d as int)],
{
    proof {
        reveal_strlit("0");
        reveal_strlit("1");
        reveal_strlit("2");
        reveal_strlit("3");
        reveal_strlit("4");
        reveal_strlit("5");
        reveal_strlit("6");
        reveal_strlit("7");
        reveal_strlit("8");
        reveal_strlit("9");
    }
    if d == 0 {
        "0"
    } else if d == 1 {
        "1"
    } else if d == 2 {
        "2"
    } else if d == 3 {
        "3"
    } else if d == 4 {
        "4"
    } else if d == 5 {
        "5"
    } else if d == 6 {
        "6"
    } else if d == 7 {
        "7"
    } else if d == 8 {
        "8"
    } else {
        "9"
    }
}

/// Appends the decimal digits of `n` to `out`.
pub(crate) fn push_decimal(out: &mut String, n: u64)
    ensures
        final(out)@ == old(out)@ + decimal_text(n as nat),
    decreases n,
{
    if n >= 10 {
        push_decimal(out, n / 10);
        out.append(digit_str(n % 10));
        assert(old(out)@ + decimal_text(n as nat) =~= old(out)@ + decimal_text((n / 10) as nat)
            + seq![digit_char((n % 10) as int)]);
    } else {
        out.append(digit_str(n));
    }
}

/// Appends the decimal rendering of `x` (with a leading `-` when negative)
/// to `out`.
pub(crate) fn push_signed_decimal(out: &mut String, x: i64)
    ensures
        final(out)@ == old(out)@ + signed_decimal_text(x as int),
{
    if x < 0 {
        out.append("-");
        proof {
            reveal_strlit("-");
        }
        let magnitude: u64 = (0i128 - (x as i128)) as u64;
        push_decimal(out, magnitude);
        assert(old(out)@ + signed_decimal_text(x as int) =~= old(out)@ + seq!['-'] + decimal_text(
            magnitude as nat,
        ));
    } else {
        push_decimal(out, x as u64);
    }
}

/// Appends the `{:?}` rendering of `s` to `out`.
pub(crate) fn push_str_debug(out: &mut String, s: &str)
    ensures
        final(out)@ == old(out)@ + quoted_text(s@),
{
    let quoted = str_debug(s);
    out.append(quoted.as_str());
}

/// The value of a decimal digit character, `None` for any other character.
pub open spec fn digit_value(c: char) -> Option<nat> {
    if '0' <= c && c <= '9' {
        Some((c as int - '0' as int) as nat)
    } else {
        None
    }
}

/// The number a string of decimal digits spells, read left to right
/// (`Some(0)` for the empty string); `None` when a character is not a digit.
pub open spec fn digits_value(s: Seq<char>) -> Option<nat>
    decreases s.len(),
{
    if s.len() == 0 {
        Some(0)
    } else {
        match (digits_value(s.drop_last()), digit_value(s.last())) {
            (Some(high), Some(low)) => Some(high * 10 + low),
            _ => None,
        }
    }
}

/// Reads a canonical unsigned decimal: one or more digits, with no leading
/// zero unless the number is zero itself.
pub open spec fn read_decimal(s: Seq<char>) -> Option<nat> {
    if s.len() == 0 || (s.len() > 1 && s[0] == '0') {
        None
    } else {
        digits_value(s)
    }
}

/// Reads a canonical signed decimal: a canonical unsigned decimal, or a minus
/// sign followed by the canonical digits of a non-zero magnitude.
pub open spec fn read_signed_decimal(s: Seq<char>) -> Option<int> {
    if s.len() > 0 && s[0] == '-' {
        match read_decimal(s.drop_first()) {
            Some(m) => if m > 0 {
                Some(-(m as int))
            } else {
                None
            },
            None => None,
        }
    } else {
        match read_decimal(s) {
            Some(m) => Some(m as int),
            None => None,
        }
    }
}

proof fn lemma_digit_round_trip(d: int)
    requires
        0 <= d < 10,
    ensures
        digit_value(digit_char(d)) == Some(d as nat),
{
}

proof fn lemma_decimal_shape(n: nat)
    ensures
        decimal_text(n).len() >= 1,
        n > 0 ==> decimal_text(n)[0] != '0',
        digit_value(decimal_text(n)[0]) is Some,
        digits_value(decimal_text(n)) == Some(n),
    decreases n,
{
    let s = decimal_text(n);
    if n < 10 {
        lemma_digit_round_trip(n as int);
        assert(s.drop_last() =~= Seq::<char>::empty());
        assert(digits_value(s.drop_last()) == Some(0nat));
        assert(s.last() == digit_char(n as int));
    } else {
        lemma_decimal_shape(n / 10);
        lemma_digit_round_trip((n % 10) as int);
        assert(s.drop_last() =~= decimal_text(n / 10));
        assert(s.last() == digit_char((n % 10) as int));
        assert(s[0] == decimal_text(n / 10)[0]);
        assert(n == (n / 10) * 10 + n % 10);
    }
}

/// Reading back the decimal rendering of any natural number gives that
/// number: the rendering is canonical digits that spell exactly `n`.
pub proof fn lemma_decimal_reads_back(n: nat)
    ensures
        read_decimal(decimal_text(n)) == Some(n),
{
    lemma_decimal_shape(n);
}

/// Reading back the signed decimal rendering of any integer gives that
/// integer.
pub proof fn lemma_signed_decimal_reads_back(x: int)
    ensures
        read_signed_decimal(signed_decimal_text(x)) == Some(x),
{
    if x < 0 {
        let m = (-x) as nat;
        lemma_decimal_reads_back(m);
        lemma_decimal_shape(m);
        let s = signed_decimal_text(x);
        assert(s.drop_first() =~= decimal_text(m));
    } else {
        lemma_decimal_reads_back(x as nat);
        lemma_decimal_shape(x as nat);
        assert(decimal_text(x as nat)[0] != '-');
    }
}

} // verus!
