//! The sentences that describe decoding errors.
use vstd::prelude::*;
use vstd::string::*;
use crate::event::EventDecodeError;

verus! {

/// The character of a decimal digit.
pub open spec fn digit_char(d: nat) -> char {
    (48 + d) as char
}

/// The decimal digits of a number, most significant first, with no leading
/// zero.
pub open spec fn decimal(n: nat) -> Seq<char>
    decreases n,
{
    if n < 10 {
        seq![digit_char(n)]
    } else {
        decimal(n / 10).push(digit_char(n % 10))
    }
}

/// The number that a sequence of decimal digits stands for.
pub open spec fn digits_value(digits: Seq<char>) -> nat
    decreases digits.len(),
{
    if digits.len() == 0 {
        0
    } else {
        digits_value(digits.drop_last()) * 10 + (digits.last() as nat - 48) as nat
    }
}

/// The digits of a number are decimal digits, the first is not a zero unless
/// the number is, and they stand for the number.
pub proof fn lemma_decimal_digits(n: nat)
    ensures
        decimal(n).len() > 0,
        forall|i: int| 0 <= i < decimal(n).len() ==> '0' <= #[trigger] decimal(n)[i] <= '9',
        decimal(n)[0] == '0' ==> n == 0,
        digits_value(decimal(n)) == n,
    decreases n,
{
    let d = n % 10;
    assert(digit_char(d) as nat == 48 + d);
    if n >= 10 {
        lemma_decimal_digits(n / 10);
        assert(n == (n / 10) * 10 + d);
        assert(decimal(n).drop_last() =~= decimal(n / 10));
        assert(decimal(n).last() == digit_char(d));
        assert(digits_value(decimal(n)) == digits_value(decimal(n / 10)) * 10 + d);
        assert(digits_value(decimal(n / 10)) == n / 10);
        assert(digits_value(decimal(n)) == n);
        assert forall|i: int| 0 <= i < decimal(n).len() implies '0' <= #[trigger] decimal(n)[i]
            <= '9' by {
            if i < decimal(n).len() - 1 {
                assert(decimal(n)[i] == decimal(n / 10)[i]);
            }
        }
    } else {
        assert(decimal(n).drop_last() =~= Seq::<char>::empty());
        assert(decimal(n).last() == digit_char(d));
        assert(digits_value(decimal(n).drop_last()) == 0);
        assert(digits_value(decimal(n)) == d);
    }
}

/// Calls `String::push`, which appends one character.
#[verifier::external_body]
fn push_char(s: &mut String, c: char)
    ensures
        final(s)@ == old(s)@.push(c),
{
    s.push(c);
}

/// Appends the decimal digits of `n`.
fn push_decimal(s: &mut String, n: usize)
    ensures
        final(s)@ == old(s)@ + decimal(n as nat),
    decreases n,
{
    if n >= 10 {
        push_decimal(s, n / 10);
    }
    let d: u8 = (n % 10) as u8;
    let c = (48u8 + d) as char;
    push_char(s, c);
    assert(c == digit_char((n % 10) as nat));
}

/// The message that describes a decoding error.
pub open spec fn spec_message(e: EventDecodeError) -> Seq<char> {
    match e {
        EventDecodeError::BufferTooShort { expected, actual } => "event buffer too short (expected at least "@
            + decimal(expected as nat) + " bytes, got "@ + decimal(actual as nat) + ")"@,
        EventDecodeError::InvalidLevel(level) => "invalid log level: "@ + decimal(level as nat),
        EventDecodeError::InvalidKind(kind) => "invalid event kind: "@ + decimal(kind as nat),
        EventDecodeError::InvalidUtf8(field) => "invalid UTF-8 in "@ + field@ + " field"@,
    }
}

impl EventDecodeError {
    /// Describes the error in a sentence.
    pub fn to_string(&self) -> (r: String)
        ensures
            r@ == spec_message(*self),
    {
        let mut s = String::new();
        match self {
            EventDecodeError::BufferTooShort { expected, actual } => {
                s.append("event buffer too short (expected at least ");
                push_decimal(&mut s, *expected);
                s.append(" bytes, got ");
                push_decimal(&mut s, *actual);
                s.append(")");
            },
            EventDecodeError::InvalidLevel(level) => {
                s.append("invalid log level: ");
                push_decimal(&mut s, *level as usize);
            },
            EventDecodeError::InvalidKind(kind) => {
                s.append("invalid event kind: ");
                push_decimal(&mut s, *kind as usize);
            },
            EventDecodeError::InvalidUtf8(field) => {
                s.append("invalid UTF-8 in ");
                s.append(field);
                s.append(" field");
            },
        }
        s
    }
}

} // verus!
