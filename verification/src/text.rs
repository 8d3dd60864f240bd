//! Decimal numbers as text and as bytes, and a few helpers on byte strings.

use vstd::prelude::*;
use vstd::slice::slice_subrange;
use vstd::string::StringExecFns;

verus! {

/// The ASCII code of a decimal digit.
pub open spec fn digit_byte(digit: nat) -> u8 {
    (48 + digit) as u8
}

/// A number in decimal, without leading zeros, in ASCII.
pub open spec fn decimal(n: nat) -> Seq<u8>
    decreases n,
{
    if n < 10 {
        seq![digit_byte(n)]
    } else {
        decimal(n / 10).push(digit_byte(n % 10))
    }
}

/// A signed number in decimal, in ASCII.
pub open spec fn signed_decimal(n: int) -> Seq<u8> {
    if n < 0 {
        seq![45u8] + decimal((-n) as nat)
    } else {
        decimal(n as nat)
    }
}

/// The characters of an ASCII byte string.
pub open spec fn chars_of(bytes: Seq<u8>) -> Seq<char> {
    bytes.map_values(|b: u8| b as char)
}

/// The bytes of an ASCII text.
pub open spec fn bytes_of(text: Seq<char>) -> Seq<u8> {
    text.map_values(|c: char| c as u8)
}

/// Appends a number in decimal to a byte string.
pub(crate) fn push_decimal(out: &mut Vec<u8>, n: u64)
    ensures
        final(out)@ == old(out)@ + decimal(n as nat),
    decreases n,
{
    if n >= 10 {
        push_decimal(out, n / 10);
    }
    let digit: u64 = n % 10;
    out.push(48u8 + digit as u8);
    proof {
        if n < 10 {
            assert(out@ =~= old(out)@ + decimal(n as nat));
        } else {
            assert(out@ =~= old(out)@ + decimal((n / 10) as nat).push(digit_byte((n % 10) as nat)));
        }
    }
}

/// Appends a signed number in decimal to a byte string.
pub(crate) fn push_signed_decimal(out: &mut Vec<u8>, n: i32)
    ensures
        final(out)@ == old(out)@ + signed_decimal(n as int),
{
    if n < 0 {
        out.push(45u8);
        let magnitude: i64 = -(n as i64);
        push_decimal(out, magnitude as u64);
        assert(out@ =~= old(out)@ + signed_decimal(n as int));
    } else {
        push_decimal(out, n as u64);
    }
}

/// The text of a decimal digit.
fn digit_text(digit: u64) -> (text: &'static str)
    requires
        digit < 10,
    ensures
        text@ == seq![digit_byte(digit as nat) as char],
{
    proof {
        reveal_strlit("0");
        reveal_strlit("1");
        reveal_strlit("2");
        reveal_strlit("3");
        reveal_strlit("4");
        reveal_strlit("5");
        reveal_strlit("6");
        reveal_strlit("7");
        reveal_strlit("8");
        reveal_strlit("9");
    }
    let text: &'static str = if digit == 0 {
        "0"
    } else if digit == 1 {
        "1"
    } else if digit == 2 {
        "2"
    } else if digit == 3 {
        "3"
    } else if digit == 4 {
        "4"
    } else if digit == 5 {
        "5"
    } else if digit == 6 {
        "6"
    } else if digit == 7 {
        "7"
    } else if digit == 8 {
        "8"
    } else {
        "9"
    };
    assert(text@ =~= seq![digit_byte(digit as nat) as char]);
    text
}

/// Appends a number in decimal to a text.
pub(crate) fn append_decimal(out: &mut String, n: u64)
    ensures
        final(out)@ == old(out)@ + chars_of(decimal(n as nat)),
    decreases n,
{
    if n >= 10 {
        append_decimal(out, n / 10);
    }
    out.append(digit_text(n % 10));
    proof {
        if n < 10 {
            assert(out@ =~= old(out)@ + chars_of(decimal(n as nat)));
        } else {
            assert(chars_of(decimal(n as nat)) =~= chars_of(decimal((n / 10) as nat)).push(
                digit_byte((n % 10) as nat) as char,
            ));
            assert(out@ =~= old(out)@ + chars_of(decimal(n as nat)));
        }
    }
}

/// Whether two byte strings are the same.
pub(crate) fn bytes_equal(a: &[u8], b: &[u8]) -> (same: bool)
    ensures
        same == (a@ == b@),
{
    if a.len() != b.len() {
        return false;
    }
    for i in 0..a.len()
        invariant
            a@.len() == b@.len(),
            forall|j: int| 0 <= j < i ==> a@[j] == b@[j],
    {
        if a[i] != b[i] {
            return false;
        }
    }
    assert(a@ =~= b@);
    true
}

/// Whether a byte string starts with another one.
pub(crate) fn bytes_start_with(bytes: &[u8], prefix: &[u8]) -> (yes: bool)
    ensures
        yes == prefix@.is_prefix_of(bytes@),
{
    if prefix.len() > bytes.len() {
        return false;
    }
    bytes_equal(slice_subrange(bytes, 0, prefix.len()), prefix)
}

/// The place of the first zero byte of a byte string that has one.
pub open spec fn is_first_zero(bytes: Seq<u8>, place: usize) -> bool {
    &&& place < bytes.len()
    &&& bytes[place as int] == 0
    &&& !bytes.take(place as int).contains(0)
}

/// The place of the first zero byte.
pub(crate) fn first_zero(bytes: &[u8]) -> (place: Option<usize>)
    ensures
        match place {
            Some(i) => is_first_zero(bytes@, i),
            None => !bytes@.contains(0),
        },
{
    for i in 0..bytes.len()
        invariant
            forall|j: int| 0 <= j < i ==> bytes@[j] != 0,
    {
        if bytes[i] == 0 {
            return Some(i);
        }
    }
    None
}

/// The number that a string of decimal digits stands for.
pub open spec fn number_read(digits: Seq<u8>) -> int
    decreases digits.len(),
{
    if digits.len() == 0 {
        0
    } else {
        10 * number_read(digits.drop_last()) + (digits.last() - 48)
    }
}

/// The bytes are decimal digits, at least one, and the first is a zero only if it is the only one.
pub open spec fn is_all_digits(bytes: Seq<u8>) -> bool {
    &&& bytes.len() >= 1
    &&& forall|i: int| 0 <= i < bytes.len() ==> 48 <= #[trigger] bytes[i] <= 57
    &&& bytes[0] == 48 ==> bytes.len() == 1
}

/// A number in decimal is made of digits, starts with a zero only if it is zero, and is read as the
/// number that it was made from.
pub proof fn law_decimal_reads_back(n: nat)
    ensures
        decimal(n).len() >= 1,
        forall|i: int| 0 <= i < decimal(n).len() ==> 48 <= #[trigger] decimal(n)[i] <= 57,
        decimal(n)[0] == 48 ==> n == 0,
        n < 10 ==> decimal(n).len() == 1,
        number_read(decimal(n)) == n,
    decreases n,
{
    reveal_with_fuel(number_read, 2);
    if n >= 10 {
        law_decimal_reads_back(n / 10);
        assert(decimal(n).drop_last() =~= decimal(n / 10));
    } else {
        assert(decimal(n).drop_last() =~= Seq::<u8>::empty());
    }
}

/// A negative number has a minus sign before its digits, any other has digits alone.
pub proof fn law_signed_decimal_reads_back(n: int)
    ensures
        signed_decimal(n).len() >= 1,
        signed_decimal(n)[0] == 45 <==> n < 0,
        n < 0 ==> number_read(signed_decimal(n).skip(1)) == -n,
        n >= 0 ==> number_read(signed_decimal(n)) == n,
        forall|i: int|
            (if n < 0 {
                1int
            } else {
                0int
            }) <= i < signed_decimal(n).len() ==> 48 <= #[trigger] signed_decimal(n)[i] <= 57,
{
    if n < 0 {
        law_decimal_reads_back((-n) as nat);
        assert(signed_decimal(n).skip(1) =~= decimal((-n) as nat));
    } else {
        law_decimal_reads_back(n as nat);
    }
}

} // verus!
