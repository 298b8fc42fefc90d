//! Numbers written in decimal digits, with and without leading zeros.

use vstd::prelude::*;

verus! {

/// The ten digits, in order.
pub open spec fn digit_chars() -> Seq<char> {
    seq!['0', '1', '2', '3', '4', '5', '6', '7', '8', '9']
}

/// The character that stands for the digit `d`, for `d` from 0 to 9.
pub open spec fn digit_char(d: int) -> char
    recommends
        0 <= d <= 9,
{
    digit_chars()[d]
}

/// `n` in decimal digits, most significant first, without leading zeros
/// (zero itself is one digit).
pub open spec fn decimal(n: nat) -> Seq<char>
    decreases n,
{
    if n < 10 {
        seq![digit_char(n as int)]
    } else {
        decimal(n / 10).push(digit_char((n % 10) as int))
    }
}

/// `count` zeros.
pub open spec fn zeros(count: nat) -> Seq<char> {
    Seq::new(count, |i: int| '0')
}

/// `n` in decimal digits, with zeros in front where it has fewer than
/// `width` digits. A number with more digits is written in full.
pub open spec fn zero_padded(n: nat, width: nat) -> Seq<char> {
    if decimal(n).len() >= width {
        decimal(n)
    } else {
        zeros((width - decimal(n).len()) as nat) + decimal(n)
    }
}

/// The number that a sequence of digits stands for.
pub open spec fn decimal_value(digits: Seq<char>) -> nat
    decreases digits.len(),
{
    if digits.len() == 0 {
        0
    } else {
        10 * decimal_value(digits.drop_last()) + digit_chars().index_of(digits.last()) as nat
    }
}

/// The decimal form of a number is made of digits only, has no leading
/// zero unless it is the single digit zero, and stands for that number.
pub proof fn lemma_decimal_reads_back(n: nat)
    ensures
        decimal(n).len() >= 1,
        forall|i: int| 0 <= i < decimal(n).len() ==> digit_chars().contains(#[trigger] decimal(n)[i]),
        n >= 10 ==> decimal(n)[0] != '0',
        n < 10 <==> decimal(n).len() == 1,
        decimal_value(decimal(n)) == n,
    decreases n,
{
    let last = digit_char((n % 10) as int);
    assert(digit_chars()[(n % 10) as int] == last);
    assert(digit_chars().index_of(last) == n % 10) by {
        let found = digit_chars().index_of(last);
        assert(0 <= found < 10 && digit_chars()[found] == last);
    }
    if n < 10 {
        let one = decimal(n);
        assert(one.drop_last() =~= Seq::<char>::empty());
        assert(decimal_value(one.drop_last()) == 0);
    } else {
        lemma_decimal_reads_back(n / 10);
        let front = decimal(n / 10);
        let all = decimal(n);
        assert(all.drop_last() =~= front);
        assert(all[0] == front[0]);
        if n / 10 < 10 {
            assert(front[0] == digit_char((n / 10) as int));
        }
    }
}

/// The text of one digit.
fn digit_text(d: u64) -> (text: &'static str)
    requires
        d <= 9,
    ensures
        text@ == seq![digit_char(d as int)],
{
    let all = "0123456789";
    proof {
        reveal_strlit("0123456789");
        assert(all@ =~= digit_chars());
    }
    let text = all.substring_char(d as usize, d as usize + 1);
    assert(text@ =~= seq![digit_char(d as int)]);
    text
}

/// Appends `n` in decimal digits to `out`.
pub fn push_decimal(out: &mut String, n: u64)
    ensures
        final(out)@ == old(out)@ + decimal(n as nat),
    decreases n,
{
    if n >= 10 {
        push_decimal(out, n / 10);
    }
    out.append(digit_text(n % 10));
    assert(out@ =~= old(out)@ + decimal(n as nat));
}

/// Ten to the power `e`.
pub open spec fn pow10(e: nat) -> nat
    decreases e,
{
    if e == 0 {
        1
    } else {
        10 * pow10((e - 1) as nat)
    }
}

/// A number below ten to the power `digits` has at most `digits` digits.
pub proof fn lemma_decimal_len_at_most(n: nat, digits: nat)
    requires
        digits >= 1,
        n < pow10(digits),
    ensures
        decimal(n).len() <= digits,
    decreases digits,
{
    if n >= 10 {
        assert(pow10(1) == 10) by {
            reveal_with_fuel(pow10, 2);
        }
        lemma_decimal_len_at_most(n / 10, (digits - 1) as nat);
    }
}

/// How many digits `n` has.
pub fn decimal_len(n: u64) -> (len: usize)
    ensures
        len == decimal(n as nat).len(),
        1 <= len <= 20,
{
    proof {
        assert(pow10(20) == 100_000_000_000_000_000_000) by {
            reveal_with_fuel(pow10, 21);
        }
        lemma_decimal_len_at_most(n as nat, 20);
    }
    let mut len: usize = 1;
    let mut rest: u64 = n;
    while rest >= 10
        invariant
            len >= 1,
            decimal(n as nat).len() <= 20,
            decimal(n as nat).len() == decimal(rest as nat).len() + len - 1,
        decreases rest,
    {
        rest = rest / 10;
        len = len + 1;
    }
    len
}

/// A number below ten to the power `width`, padded to `width`, has exactly
/// `width` characters, all of them digits, and still stands for the number.
pub proof fn lemma_zero_padded_shape(n: nat, width: nat)
    requires
        width >= 1,
        n < pow10(width),
    ensures
        zero_padded(n, width).len() == width,
        forall|i: int|
            0 <= i < width ==> digit_chars().contains(#[trigger] zero_padded(n, width)[i]),
        decimal_value(zero_padded(n, width)) == n,
{
    lemma_decimal_len_at_most(n, width);
    lemma_decimal_reads_back(n);
    let digits = decimal(n);
    let padded = zero_padded(n, width);
    let front = (width - digits.len()) as nat;
    assert(digit_chars()[0] == '0');
    assert forall|i: int| 0 <= i < width implies digit_chars().contains(#[trigger] padded[i]) by {
        if digits.len() < width && i >= front {
            assert(padded[i] == digits[i - front]);
        }
    }
    lemma_zeros_in_front(n, front);
    if digits.len() >= width {
        assert(zeros(0) + digits =~= digits);
    }
}

/// Zeros in front of a number's digits do not change the number they
/// stand for.
proof fn lemma_zeros_in_front(n: nat, count: nat)
    ensures
        decimal_value(zeros(count) + decimal(n)) == n,
    decreases n, count,
{
    let text = zeros(count) + decimal(n);
    let last = digit_char((n % 10) as int);
    assert(digit_chars()[(n % 10) as int] == last);
    assert(digit_chars().index_of(last) == n % 10) by {
        let found = digit_chars().index_of(last);
        assert(0 <= found < 10 && digit_chars()[found] == last);
    }
    assert(text.last() == last);
    if n >= 10 {
        lemma_zeros_in_front(n / 10, count);
        assert(text.drop_last() =~= zeros(count) + decimal(n / 10));
    } else if count == 0 {
        assert(text.drop_last() =~= Seq::<char>::empty());
        assert(decimal_value(text.drop_last()) == 0);
    } else {
        lemma_zeros_in_front(0, (count - 1) as nat);
        assert(text.drop_last() =~= zeros((count - 1) as nat) + decimal(0));
    }
}

/// Appends `n` in decimal digits to `out`, with zeros in front where it has
/// fewer than `width` digits.
pub fn push_zero_padded(out: &mut String, n: u64, width: usize)
    ensures
        final(out)@ == old(out)@ + zero_padded(n as nat, width as nat),
{
    let len = decimal_len(n);
    let mut written: usize = len;
    while written < width
        invariant
            len == decimal(n as nat).len(),
            len <= written,
            written <= width || written == len,
            out@ == old(out)@ + zeros((written - len) as nat),
        decreases width - written,
    {
        out.append("0");
        proof {
            reveal_strlit("0");
            assert(out@ =~= old(out)@ + zeros((written + 1 - len) as nat));
        }
        written = written + 1;
    }
    proof {
        if len >= width {
            assert(old(out)@ + zeros(0) =~= old(out)@);
        }
    }
    push_decimal(out, n);
    assert(out@ =~= old(out)@ + zero_padded(n as nat, width as nat));
}

/// `n` in decimal digits.
pub fn to_decimal(n: u64) -> (text: String)
    ensures
        text@ == decimal(n as nat),
{
    let mut text = String::new();
    push_decimal(&mut text, n);
    assert(text@ =~= decimal(n as nat));
    text
}

/// `n` in decimal digits, with zeros in front where it has fewer than
/// `width` digits.
pub fn to_zero_padded(n: u64, width: usize) -> (text: String)
    ensures
        text@ == zero_padded(n as nat, width as nat),
{
    let mut text = String::new();
    push_zero_padded(&mut text, n, width);
    assert(text@ =~= zero_padded(n as nat, width as nat));
    text
}

} // verus!
