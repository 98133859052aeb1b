//! Decimal text of unsigned numbers, for the status report.
use vstd::prelude::*;

verus! {

/// The character of a decimal digit.
pub open spec fn digit(value: int) -> char {
    "0123456789"@[value]
}

/// The decimal text of a number: its digits from the most significant one
/// down, with no sign, no padding and no leading zero.
pub open spec fn decimal(value: nat) -> Seq<char>
    decreases value,
{
    if value < 10 {
        seq![digit(value as int)]
    } else {
        decimal(value / 10).push(digit((value % 10) as int))
    }
}

/// The number that a decimal text stands for: each digit counts ten times
/// as much as the one to its right.
pub open spec fn decimal_value(text: Seq<char>) -> nat
    decreases text.len(),
{
    if text.len() == 0 {
        0
    } else {
        decimal_value(text.drop_last()) * 10 + (text.last() as int - '0' as int) as nat
    }
}

/// The decimal text of a number is never empty and holds digits only. It
/// has one digit for a number below ten and more for any other, and it does
/// not start with a zero unless the number is zero.
pub proof fn lemma_decimal_digits(value: nat)
    ensures
        decimal(value).len() >= 1,
        forall|i: int| 0 <= i < decimal(value).len() ==> '0' <= #[trigger] decimal(value)[i] <= '9',
        value < 10 <==> decimal(value).len() == 1,
        value > 0 ==> decimal(value)[0] != '0',
    decreases value,
{
    reveal_strlit("0123456789");
    if value >= 10 {
        lemma_decimal_digits(value / 10);
    }
}

/// The characters of the digits follow one another from `'0'` on.
pub proof fn lemma_digit_value(value: int)
    requires
        0 <= value < 10,
    ensures
        digit(value) as int == '0' as int + value,
{
    reveal_strlit("0123456789");
    let digits = "0123456789"@;
    assert(digits[0] == '0' && digits[1] == '1' && digits[2] == '2' && digits[3] == '3');
    assert(digits[4] == '4' && digits[5] == '5' && digits[6] == '6' && digits[7] == '7');
    assert(digits[8] == '8' && digits[9] == '9');
}

/// The decimal text of a number stands for that number.
pub proof fn lemma_decimal_reads_back(value: nat)
    ensures
        decimal_value(decimal(value)) == value,
    decreases value,
{
    let text = decimal(value);
    lemma_digit_value((value % 10) as int);
    assert(text.last() == digit((value % 10) as int));
    if value >= 10 {
        lemma_decimal_reads_back(value / 10);
        assert(text.drop_last() =~= decimal(value / 10));
    } else {
        assert(text.drop_last() =~= Seq::<char>::empty());
        assert(decimal_value(Seq::<char>::empty()) == 0);
    }
}

/// Appends the decimal text of a number to a text.
pub fn push_decimal(text: &mut String, value: u64)
    ensures
        final(text)@ == old(text)@ + decimal(value as nat),
    decreases value,
{
    if value >= 10 {
        push_decimal(text, value / 10);
    }
    let last: usize = (value % 10) as usize;
    proof {
        reveal_strlit("0123456789");
    }
    text.append("0123456789".substring_ascii(last, last + 1));
}

} // verus!
