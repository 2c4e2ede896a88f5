use vstd::prelude::*;
use crate::decimal::is_digit;
use crate::primitives::bytes_to_vec;

verus! {

/// Why a byte string is not the text of a decimal number.
#[derive(Clone, Copy, Debug, PartialEq, Eq, Structural)]
pub enum FloatFault {
    /// The text is empty.
    Empty,
    /// The text does not follow the grammar of a decimal number.
    Invalid,
}

/// The index of the first byte at or behind `from` that is no digit.
pub open spec fn digits_end(text: Seq<u8>, from: int) -> int
    decreases text.len() - from,
{
    if 0 <= from < text.len() && is_digit(text[from]) {
        digits_end(text, from + 1)
    } else {
        from
    }
}

/// An exponent at `at` that reaches the end of the text: `e` or `E`, an
/// optional sign, and at least one digit.
pub open spec fn exponent_from(text: Seq<u8>, at: int) -> bool {
    &&& 0 <= at < text.len()
    &&& (text[at] == 101 || text[at] == 69)
    &&& {
        let digits = if at + 1 < text.len() && (text[at + 1] == 43 || text[at + 1] == 45) {
            at + 2
        } else {
            at + 1
        };
        digits_end(text, digits) > digits && digits_end(text, digits) == text.len()
    }
}

/// A number from `start` to the end of the text: digits, optionally a point
/// and more digits, with at least one digit on either side of the point, and
/// optionally an exponent.
pub open spec fn number_from(text: Seq<u8>, start: int) -> bool {
    let whole = digits_end(text, start);
    let pointed = 0 <= whole < text.len() && text[whole] == 46;
    let mantissa = if pointed { digits_end(text, whole + 1) } else { whole };
    let digits = if pointed { mantissa - start - 1 } else { mantissa - start };
    digits > 0 && (mantissa == text.len() || exponent_from(text, mantissa))
}

pub open spec fn lower(byte: u8) -> u8 {
    if 65 <= byte <= 90 {
        (byte + 32) as u8
    } else {
        byte
    }
}

/// From `start` to its end the text is `word`, in upper or lower case.
pub open spec fn word_from(text: Seq<u8>, start: int, word: Seq<u8>) -> bool {
    &&& text.len() - start == word.len()
    &&& forall|i: int| 0 <= i < word.len() ==> lower(#[trigger] text[start + i]) == word[i]
}

pub open spec fn word_inf() -> Seq<u8> {
    seq![105u8, 110u8, 102u8]
}

pub open spec fn word_infinity() -> Seq<u8> {
    seq![105u8, 110u8, 102u8, 105u8, 110u8, 105u8, 116u8, 121u8]
}

pub open spec fn word_nan() -> Seq<u8> {
    seq![110u8, 97u8, 110u8]
}

/// Length of the sign that the text starts with: one for `+` or `-`, else zero.
pub open spec fn sign_len(text: Seq<u8>) -> int {
    if text.len() > 0 && (text[0] == 43 || text[0] == 45) {
        1
    } else {
        0
    }
}

/// The grammar of a timestamp: an optional sign, then `inf`, `infinity` or
/// `nan` in any case, or a decimal number with an optional exponent.
pub open spec fn is_float_text(text: Seq<u8>) -> bool {
    let start = sign_len(text);
    ||| word_from(text, start, word_inf())
    ||| word_from(text, start, word_infinity())
    ||| word_from(text, start, word_nan())
    ||| number_from(text, start)
}

/// The digits that `digits_end` passes over are digits, and it stops within the text.
pub proof fn lemma_digits_end(text: Seq<u8>, from: int)
    requires
        0 <= from <= text.len(),
    ensures
        from <= digits_end(text, from) <= text.len(),
        forall|i: int| from <= i < digits_end(text, from) ==> is_digit(#[trigger] text[i]),
    decreases text.len() - from,
{
    if from < text.len() && is_digit(text[from]) {
        lemma_digits_end(text, from + 1);
    }
}

/// No timestamp text holds a colon.
pub proof fn lemma_float_text_has_no_colon(text: Seq<u8>)
    requires
        is_float_text(text),
    ensures
        forall|i: int| 0 <= i < text.len() ==> #[trigger] text[i] != 58,
{
    let start = sign_len(text);
    assert forall|i: int| 0 <= i < text.len() implies #[trigger] text[i] != 58 by {
        if i < start {
        } else if word_from(text, start, word_inf()) {
            assert(lower(text[start + (i - start)]) == word_inf()[i - start]);
        } else if word_from(text, start, word_infinity()) {
            assert(lower(text[start + (i - start)]) == word_infinity()[i - start]);
        } else if word_from(text, start, word_nan()) {
            assert(lower(text[start + (i - start)]) == word_nan()[i - start]);
        } else {
            lemma_digits_end(text, start);
            let whole = digits_end(text, start);
            let pointed = whole < text.len() && text[whole] == 46;
            if pointed {
                lemma_digits_end(text, whole + 1);
            }
            let mantissa = if pointed { digits_end(text, whole + 1) } else { whole };
            if i < mantissa {
            } else {
                let digits = if mantissa + 1 < text.len() && (text[mantissa + 1] == 43
                    || text[mantissa + 1] == 45) {
                    mantissa + 2
                } else {
                    mantissa + 1
                };
                lemma_digits_end(text, digits);
            }
        }
    }
}

/// A point in time, in seconds, held as the decimal text that stands for it
/// in a consensus payload.
#[derive(Debug)]
pub struct Timestamp {
    text: Vec<u8>,
}

impl View for Timestamp {
    type V = Seq<u8>;

    closed spec fn view(&self) -> Seq<u8> {
        self.text@
    }
}

fn scan_digits(text: &[u8], from: usize) -> (end: usize)
    requires
        from <= text@.len(),
    ensures
        end == digits_end(text@, from as int),
        from <= end <= text@.len(),
{
    let mut i: usize = from;
    while i < text.len() && text[i] >= 48 && text[i] <= 57
        invariant
            from <= i <= text@.len(),
            digits_end(text@, from as int) == digits_end(text@, i as int),
        decreases text@.len() - i,
    {
        i += 1;
    }
    i
}

fn matches_word(text: &[u8], start: usize, word: &[u8]) -> (same: bool)
    requires
        start <= text@.len(),
    ensures
        same == word_from(text@, start as int, word@),
{
    if text.len() - start != word.len() {
        return false;
    }
    let total: usize = text.len();
    let mut i: usize = 0;
    while i < word.len()
        invariant
            total == text@.len(),
            start <= text@.len(),
            text@.len() - start == word@.len(),
            i <= word@.len(),
            forall|k: int| 0 <= k < i ==> lower(#[trigger] text@[start + k]) == word@[k],
        decreases word@.len() - i,
    {
        let byte: u8 = text[start + i];
        let lowered: u8 = if byte >= 65 && byte <= 90 { byte + 32 } else { byte };
        if lowered != word[i] {
            assert(lower(text@[start + i]) != word@[i as int]);
            return false;
        }
        i += 1;
    }
    true
}

fn has_exponent(text: &[u8], at: usize) -> (found: bool)
    requires
        at <= text@.len(),
    ensures
        found == exponent_from(text@, at as int),
{
    if at >= text.len() {
        return false;
    }
    if text[at] != 101 && text[at] != 69 {
        return false;
    }
    let digits: usize = if at + 1 < text.len() && (text[at + 1] == 43 || text[at + 1] == 45) {
        at + 2
    } else {
        at + 1
    };
    let end: usize = scan_digits(text, digits);
    end > digits && end == text.len()
}

fn has_number(text: &[u8], start: usize) -> (found: bool)
    requires
        start <= text@.len(),
    ensures
        found == number_from(text@, start as int),
{
    let whole: usize = scan_digits(text, start);
    let pointed: bool = whole < text.len() && text[whole] == 46;
    let mantissa: usize = if pointed { scan_digits(text, whole + 1) } else { whole };
    let digits: usize = if pointed { mantissa - start - 1 } else { mantissa - start };
    digits > 0 && (mantissa == text.len() || has_exponent(text, mantissa))
}

/// Whether `text` follows the grammar of a timestamp.
pub fn is_timestamp_text(text: &[u8]) -> (valid: bool)
    ensures
        valid == is_float_text(text@),
{
    let start: usize = if text.len() > 0 && (text[0] == 43 || text[0] == 45) { 1 } else { 0 };
    let inf: Vec<u8> = vec![105u8, 110u8, 102u8];
    let infinity: Vec<u8> = vec![105u8, 110u8, 102u8, 105u8, 110u8, 105u8, 116u8, 121u8];
    let nan: Vec<u8> = vec![110u8, 97u8, 110u8];
    proof {
        assert(inf@ =~= word_inf());
        assert(infinity@ =~= word_infinity());
        assert(nan@ =~= word_nan());
    }
    matches_word(text, start, inf.as_slice()) || matches_word(text, start, infinity.as_slice())
        || matches_word(text, start, nan.as_slice()) || has_number(text, start)
}

impl Timestamp {
    #[verifier::type_invariant]
    spec fn well_formed(&self) -> bool {
        is_float_text(self.text@)
    }

    /// The timestamp that `text` stands for, if it follows the grammar.
    pub fn parse(text: &[u8]) -> (result: Result<Timestamp, FloatFault>)
        ensures
            match result {
                Ok(timestamp) => is_float_text(text@) && timestamp@ == text@,
                Err(fault) => !is_float_text(text@) && fault == (if text@.len() == 0 {
                    FloatFault::Empty
                } else {
                    FloatFault::Invalid
                }),
            },
    {
        if text.len() == 0 {
            assert(!is_float_text(text@)) by {
                lemma_digits_end(text@, 0);
            }
            return Err(FloatFault::Empty);
        }
        if is_timestamp_text(text) {
            Ok(Timestamp { text: bytes_to_vec(text) })
        } else {
            Err(FloatFault::Invalid)
        }
    }

    /// The timestamp zero, written `0`.
    pub fn zero() -> (timestamp: Timestamp)
        ensures
            timestamp@ == seq![48u8],
    {
        let text: Vec<u8> = vec![48u8];
        proof {
            let t = text@;
            assert(t =~= seq![48u8]);
            assert(is_digit(t[0]));
            assert(digits_end(t, 1) == 1);
            assert(digits_end(t, 0) == 1);
            assert(number_from(t, 0));
        }
        Timestamp { text }
    }

    /// The text of the timestamp.
    pub fn as_bytes(&self) -> (text: &[u8])
        ensures
            text@ == self@,
            is_float_text(self@),
    {
        proof {
            use_type_invariant(self);
        }
        self.text.as_slice()
    }
}

impl Clone for Timestamp {
    fn clone(&self) -> (copy: Self)
        ensures
            copy@ == self@,
    {
        proof {
            use_type_invariant(self);
        }
        Timestamp { text: bytes_to_vec(self.text.as_slice()) }
    }
}

} // verus!
