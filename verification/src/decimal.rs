use vstd::prelude::*;

verus! {

/// Why a byte string is not the decimal text of an unsigned integer.
#[derive(Clone, Copy, Debug, PartialEq, Eq, Structural)]
pub enum IntFault {
    /// The text is empty.
    Empty,
    /// A byte is not a decimal digit, or a sign stands alone.
    InvalidDigit,
    /// The digits read so far already exceed the largest value of the type.
    Overflow,
}

pub open spec fn is_digit(byte: u8) -> bool {
    48 <= byte <= 57
}

pub open spec fn all_digits(text: Seq<u8>) -> bool {
    forall|i: int| 0 <= i < text.len() ==> is_digit(#[trigger] text[i])
}

/// The shortest decimal text of `n`: no sign, no leading zero but for zero itself.
pub open spec fn decimal_text(n: nat) -> Seq<u8>
    decreases n,
{
    if n < 10 {
        seq![(48 + n) as u8]
    } else {
        decimal_text(n / 10).push((48 + n % 10) as u8)
    }
}

/// Reads digits from the left. The first byte that is no digit, or the first
/// digit that takes the value above `max`, decides the fault.
pub open spec fn parse_digits(text: Seq<u8>, max: nat) -> Result<nat, IntFault>
    decreases text.len(),
{
    if text.len() == 0 {
        Ok(0)
    } else {
        match parse_digits(text.drop_last(), max) {
            Err(fault) => Err(fault),
            Ok(value) => if !is_digit(text.last()) {
                Err(IntFault::InvalidDigit)
            } else if 10 * value + (text.last() - 48) > max {
                Err(IntFault::Overflow)
            } else {
                Ok((10 * value + (text.last() - 48)) as nat)
            },
        }
    }
}

/// The value of an unsigned decimal text that may not exceed `max`: an
/// optional `+`, then at least one digit, and nothing else.
pub open spec fn parse_unsigned(text: Seq<u8>, max: nat) -> Result<nat, IntFault> {
    if text.len() == 0 {
        Err(IntFault::Empty)
    } else {
        let body = if text[0] == 43 { text.skip(1) } else { text };
        if body.len() == 0 {
            Err(IntFault::InvalidDigit)
        } else {
            parse_digits(body, max)
        }
    }
}

/// A fault within a prefix is the fault of the whole text.
pub proof fn lemma_parse_digits_fault_stays(text: Seq<u8>, upto: int, max: nat)
    requires
        0 <= upto <= text.len(),
        parse_digits(text.subrange(0, upto), max) is Err,
    ensures
        parse_digits(text, max) == parse_digits(text.subrange(0, upto), max),
    decreases text.len() - upto,
{
    if upto == text.len() {
        assert(text.subrange(0, upto) =~= text);
    } else {
        assert(text.subrange(0, upto + 1).drop_last() =~= text.subrange(0, upto));
        lemma_parse_digits_fault_stays(text, upto + 1, max);
    }
}

/// The decimal text of a number is made of digits, and of at least one.
pub proof fn lemma_decimal_text_digits(n: nat)
    ensures
        decimal_text(n).len() >= 1,
        all_digits(decimal_text(n)),
    decreases n,
{
    if n >= 10 {
        lemma_decimal_text_digits(n / 10);
    }
}

/// Reading the decimal text of `n` gives `n` back, as long as `n` fits.
pub proof fn lemma_decimal_round_trip(n: nat, max: nat)
    requires
        n <= max,
    ensures
        parse_digits(decimal_text(n), max) == Ok::<nat, IntFault>(n),
        parse_unsigned(decimal_text(n), max) == Ok::<nat, IntFault>(n),
    decreases n,
{
    lemma_decimal_text_digits(n);
    let text = decimal_text(n);
    if n < 10 {
        assert(text.drop_last() =~= Seq::<u8>::empty());
        assert(parse_digits(text.drop_last(), max) == Ok::<nat, IntFault>(0));
        assert(text.last() == (48 + n) as u8);
        assert(text.last() - 48 == n);
    } else {
        assert(n / 10 <= max);
        lemma_decimal_round_trip(n / 10, max);
        assert(text.drop_last() =~= decimal_text(n / 10));
        assert(text.last() == (48 + n % 10) as u8);
        assert(text.last() - 48 == n % 10);
        assert(10 * (n / 10) + n % 10 == n);
    }
    assert(is_digit(text.last()));
    assert(parse_digits(text, max) == Ok::<nat, IntFault>(n));
    assert(is_digit(text[0]));
}

/// Appends the decimal text of `n` to `out`.
pub fn push_decimal(out: &mut Vec<u8>, n: u64)
    ensures
        final(out)@ == old(out)@ + decimal_text(n as nat),
    decreases n,
{
    if n >= 10 {
        push_decimal(out, n / 10);
    }
    let digit: u8 = 48 + (n % 10) as u8;
    out.push(digit);
    proof {
        if n < 10 {
            assert(final(out)@ =~= old(out)@ + decimal_text(n as nat));
        } else {
            assert(final(out)@ =~= old(out)@ + decimal_text(n as nat));
        }
    }
}

/// The decimal text of `n`.
pub fn encode_decimal(n: u64) -> (text: Vec<u8>)
    ensures
        text@ == decimal_text(n as nat),
{
    let mut text: Vec<u8> = Vec::new();
    push_decimal(&mut text, n);
    assert(text@ =~= decimal_text(n as nat));
    text
}

/// Reads an unsigned decimal text whose value may not exceed `max`.
pub fn parse_bounded(text: &[u8], max: u64) -> (result: Result<u64, IntFault>)
    ensures
        match result {
            Ok(value) => parse_unsigned(text@, max as nat) == Ok::<nat, IntFault>(value as nat),
            Err(fault) => parse_unsigned(text@, max as nat) == Err::<nat, IntFault>(fault),
        },
{
    if text.len() == 0 {
        return Err(IntFault::Empty);
    }
    let start: usize = if text[0] == 43 { 1 } else { 0 };
    if start == text.len() {
        assert(text@.skip(1).len() == 0);
        return Err(IntFault::InvalidDigit);
    }
    let ghost body = text@.skip(start as int);
    let mut value: u64 = 0;
    let mut i: usize = start;
    proof {
        assert(body.subrange(0, 0) =~= Seq::<u8>::empty());
        assert(text@.skip(0) =~= text@);
        assert(parse_unsigned(text@, max as nat) == parse_digits(body, max as nat));
    }
    while i < text.len()
        invariant
            start <= i <= text@.len(),
            body == text@.skip(start as int),
            parse_unsigned(text@, max as nat) == parse_digits(body, max as nat),
            value <= max,
            parse_digits(body.subrange(0, i - start), max as nat) == Ok::<nat, IntFault>(value as nat),
        decreases text@.len() - i,
    {
        let byte: u8 = text[i];
        proof {
            assert(body.subrange(0, i - start + 1).drop_last() =~= body.subrange(0, i - start));
            assert(body.subrange(0, i - start + 1).last() == byte);
        }
        if byte < 48 || byte > 57 {
            proof {
                lemma_parse_digits_fault_stays(body, i - start + 1, max as nat);
            }
            return Err(IntFault::InvalidDigit);
        }
        let wide: u128 = (value as u128) * 10 + ((byte - 48) as u128);
        if wide > max as u128 {
            proof {
                lemma_parse_digits_fault_stays(body, i - start + 1, max as nat);
            }
            return Err(IntFault::Overflow);
        }
        value = wide as u64;
        i += 1;
    }
    assert(body.subrange(0, i - start) =~= body);
    Ok(value)
}

/// The character that stands for the digit `d`.
pub open spec fn digit_char(d: nat) -> char {
    if d == 0 {
        '0'
    } else if d == 1 {
        '1'
    } else if d == 2 {
        '2'
    } else if d == 3 {
        '3'
    } else if d == 4 {
        '4'
    } else if d == 5 {
        '5'
    } else if d == 6 {
        '6'
    } else if d == 7 {
        '7'
    } else if d == 8 {
        '8'
    } else {
        '9'
    }
}

/// The decimal text of `n`, as characters.
pub open spec fn decimal_chars(n: nat) -> Seq<char>
    decreases n,
{
    if n < 10 {
        seq![digit_char(n)]
    } else {
        decimal_chars(n / 10).push(digit_char(n % 10))
    }
}

fn digit_str(d: u64) -> (text: &'static str)
    requires
        d < 10,
    ensures
        text@ == seq![digit_char(d as nat)],
{
    proof {
        reveal_strlit("0");
        reveal_strlit("1");
        reveal_strlit("2");
        reveal_strlit("3");
        reveal_strlit("4");
        reveal_strlit("5");
        reveal_strlit("6");
        reveal_strlit("7");
        reveal_strlit("8");
        reveal_strlit("9");
    }
    let text: &'static str = if d == 0 {
        "0"
    } else if d == 1 {
        "1"
    } else if d == 2 {
        "2"
    } else if d == 3 {
        "3"
    } else if d == 4 {
        "4"
    } else if d == 5 {
        "5"
    } else if d == 6 {
        "6"
    } else if d == 7 {
        "7"
    } else if d == 8 {
        "8"
    } else {
        "9"
    };
    assert(text@ =~= seq![digit_char(d as nat)]);
    text
}

/// Appends the decimal text of `n` to `out`.
pub fn append_decimal(out: &mut String, n: u64)
    ensures
        final(out)@ == old(out)@ + decimal_chars(n as nat),
    decreases n,
{
    if n >= 10 {
        append_decimal(out, n / 10);
    }
    out.append(digit_str(n % 10));
    assert(final(out)@ =~= old(out)@ + decimal_chars(n as nat));
}

} // verus!
