//! Turning Core Audio status codes into results.

use vstd::prelude::*;
use crate::config::AecError;

verus! {

/// The character of the decimal digit `d` (`0 <= d < 10`).
pub open spec fn digit_char(d: nat) -> char {
    ('0' as u32 + d) as char
}

/// Decimal digits of a natural number, most significant first, no leading zeros.
pub open spec fn decimal_nat(n: nat) -> Seq<char>
    decreases n,
{
    if n < 10 {
        seq![digit_char(n)]
    } else {
        decimal_nat(n / 10).push(digit_char(n % 10))
    }
}

/// Decimal text of an integer, as Rust's `Display` writes it: a `-` sign for negatives.
pub open spec fn decimal(i: int) -> Seq<char> {
    if i < 0 {
        seq!['-'] + decimal_nat((-i) as nat)
    } else {
        decimal_nat(i as nat)
    }
}

/// `"<context>: OSStatus <status>"`.
pub open spec fn os_status_message(context: Seq<char>, status: i32) -> Seq<char> {
    context + ": OSStatus "@ + decimal(status as int)
}

fn digit_str(d: u64) -> (s: &'static str)
    requires
        d < 10,
    ensures
        s@ == seq![digit_char(d as nat)],
{
    proof {
        reveal_strlit("0");
        reveal_strlit("1");
        reveal_strlit("2");
        reveal_strlit("3");
        reveal_strlit("4");
        reveal_strlit("5");
        reveal_strlit("6");
        reveal_strlit("7");
        reveal_strlit("8");
        reveal_strlit("9");
    }
    if d == 0 { "0" }
    else if d == 1 { "1" }
    else if d == 2 { "2" }
    else if d == 3 { "3" }
    else if d == 4 { "4" }
    else if d == 5 { "5" }
    else if d == 6 { "6" }
    else if d == 7 { "7" }
    else if d == 8 { "8" }
    else { "9" }
}

fn append_decimal_nat(s: &mut String, n: u64)
    ensures
        final(s)@ == old(s)@ + decimal_nat(n as nat),
    decreases n,
{
    if n < 10 {
        s.append(digit_str(n));
    } else {
        append_decimal_nat(s, n / 10);
        s.append(digit_str(n % 10));
    }
}

/// Appends the decimal text of `value` to `s`.
pub fn append_decimal(s: &mut String, value: i32)
    ensures
        final(s)@ == old(s)@ + decimal(value as int),
{
    if value < 0 {
        s.append("-");
        let magnitude: u64 = (-(value as i64)) as u64;
        append_decimal_nat(s, magnitude);
        proof { reveal_strlit("-"); }
    } else {
        append_decimal_nat(s, value as u64);
    }
}

/// Maps a Core Audio status to a result: `0` is success, anything else is a
/// backend error whose text names the failed step and the status.
pub fn os_status_to_result(status: i32, context: &str) -> (r: Result<(), AecError>)
    ensures
        r is Ok <==> status == 0,
        r matches Err(e) ==> e matches AecError::BackendError(m) && m@ == os_status_message(context@, status),
{
    if status == 0 {
        Ok(())
    } else {
        let mut message = String::from_str(context);
        message.append(": OSStatus ");
        append_decimal(&mut message, status);
        Err(AecError::BackendError(message))
    }
}


/// The number a string of decimal digits stands for.
pub open spec fn digits_value(digits: Seq<char>) -> int
    decreases digits.len(),
{
    if digits.len() == 0 {
        0
    } else {
        digits_value(digits.drop_last()) * 10 + (digits.last() as int - '0' as int)
    }
}

/// The decimal text of a natural number is its canonical decimal numeral:
/// only the digits 0 to 9, no leading zero (a lone `0` for zero), and it
/// stands for the number itself.
pub proof fn lemma_decimal_nat(n: nat)
    ensures
        decimal_nat(n).len() >= 1,
        forall|k: int| 0 <= k < decimal_nat(n).len() ==> '0' <= #[trigger] decimal_nat(n)[k] <= '9',
        digits_value(decimal_nat(n)) == n,
        decimal_nat(n)[0] == '0' <==> n == 0,
    decreases n,
{
    let d = n % 10;
    assert(digit_char(d) as int == '0' as int + d);
    if n < 10 {
        assert(decimal_nat(n).drop_last() =~= Seq::<char>::empty());
        assert(digits_value(decimal_nat(n)) == digits_value(Seq::<char>::empty()) * 10 + (digit_char(n) as int - '0' as int));
    }
    if n >= 10 {
        lemma_decimal_nat(n / 10);
        let s = decimal_nat(n);
        let prefix = decimal_nat(n / 10);
        assert(s == prefix.push(digit_char(n % 10)));
        assert(s.drop_last() =~= prefix);
        assert(s.last() == digit_char(d));
        assert(digits_value(s) == digits_value(prefix) * 10 + (digit_char(d) as int - '0' as int));
        assert(digits_value(s) == (n / 10) * 10 + d);
        assert(s[0] == prefix[0]);
        assert(n / 10 != 0);
        assert((n / 10) * 10 + n % 10 == n);
    }
}

/// The decimal text of an integer: a minus sign followed by the numeral of
/// its magnitude for negatives, the numeral alone otherwise.
pub proof fn lemma_decimal(i: int)
    ensures
        i < 0 ==> decimal(i)[0] == '-' && decimal(i).drop_first() == decimal_nat((-i) as nat),
        i >= 0 ==> decimal(i) == decimal_nat(i as nat),
{
    if i < 0 {
        assert((seq!['-'] + decimal_nat((-i) as nat)).drop_first() =~= decimal_nat((-i) as nat));
    }
}


/// A status error reads `<context>: OSStatus <status in decimal>`.
pub proof fn lemma_os_status_message(context: Seq<char>, status: i32)
    ensures
        os_status_message(context, status) == context + ": OSStatus "@ + decimal(status as int),
{
}

} // verus!
