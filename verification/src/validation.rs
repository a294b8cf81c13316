//! Validation of the names that a user submits for registration.

use vstd::prelude::*;
use vstd::std_specs::iter::IteratorSpec;

verus! {

/// Smallest number of characters of a name.
pub const MIN_NAME_LENGTH: usize = 1;

/// Largest number of characters of a name.
pub const MAX_NAME_LENGTH: usize = 32;

/// Largest magnitude of a negative 64-bit integer.
pub const I64_MIN_MAGNITUDE: u128 = 0x8000_0000_0000_0000;

/// Largest positive 64-bit integer.
pub const I64_MAX_MAGNITUDE: u128 = 0x7FFF_FFFF_FFFF_FFFF;

/// Why a name was refused.
#[derive(Clone, Copy, Debug, PartialEq, Eq, Structural)]
pub enum NameError {
    /// The name is empty or longer than 32 characters.
    Length,
    /// The name reads as an integer.
    OnlyDigits,
}

/// Why a registration form was refused: the first field that is invalid,
/// with the reason.
#[derive(Clone, Copy, Debug, PartialEq, Eq, Structural)]
pub enum ValidationError {
    Username(NameError),
    DisplayName(NameError),
}

/// Whether a character is a decimal digit.
pub open spec fn is_digit(c: char) -> bool {
    '0' <= c <= '9'
}

/// Whether every character of a text is a decimal digit.
pub open spec fn all_digits(text: Seq<char>) -> bool {
    forall|i: int| 0 <= i < text.len() ==> is_digit(#[trigger] text[i])
}

/// The number that a text of decimal digits spells.
pub open spec fn digits_value(digits: Seq<char>) -> int
    decreases digits.len(),
{
    if digits.len() == 0 {
        0
    } else {
        digits_value(digits.drop_last()) * 10 + (digits.last() as int - '0' as int)
    }
}

/// Whether a text reads as a 64-bit integer: an optional sign, then at least
/// one decimal digit and nothing else, with a value that fits.
pub open spec fn reads_as_integer(text: Seq<char>) -> bool {
    if text.len() == 0 {
        false
    } else if text[0] == '-' {
        text.len() >= 2 && all_digits(text.skip(1)) && digits_value(text.skip(1))
            <= I64_MIN_MAGNITUDE
    } else if text[0] == '+' {
        text.len() >= 2 && all_digits(text.skip(1)) && digits_value(text.skip(1))
            <= I64_MAX_MAGNITUDE
    } else {
        all_digits(text) && digits_value(text) <= I64_MAX_MAGNITUDE
    }
}

/// The verdict on a name: its length must lie between 1 and 32 characters,
/// and it must not read as an integer.
pub open spec fn name_verdict(name: Seq<char>) -> Result<(), NameError> {
    if name.len() < MIN_NAME_LENGTH || name.len() > MAX_NAME_LENGTH {
        Err(NameError::Length)
    } else if reads_as_integer(name) {
        Err(NameError::OnlyDigits)
    } else {
        Ok(())
    }
}

/// The verdict on a form: that of the first invalid name, the username
/// before the display name.
pub open spec fn form_verdict(username: Seq<char>, display_name: Seq<char>) -> Result<
    (),
    ValidationError,
> {
    match name_verdict(username) {
        Err(reason) => Err(ValidationError::Username(reason)),
        Ok(_) => match name_verdict(display_name) {
            Err(reason) => Err(ValidationError::DisplayName(reason)),
            Ok(_) => Ok(()),
        },
    }
}

/// Whether the characters of `text`, without the first one where
/// `signed` is set, are decimal digits, at least one, that spell a number of
/// at most `bound`.
fn digits_within(text: &str, signed: bool, bound: u128) -> (r: bool)
    requires
        signed ==> text@.len() >= 1,
        bound <= I64_MIN_MAGNITUDE,
    ensures
        r == ({
            let digits = text@.skip(if signed { 1int } else { 0int });
            digits.len() > 0 && all_digits(digits) && digits_value(digits) <= bound
        }),
{
    let ghost digits = text@.skip(if signed { 1int } else { 0int });
    let mut chars = text.chars();
    if signed {
        let _ = chars.next();
    }
    let mut value: u128 = 0;
    let mut exceeded = false;
    let mut any = false;
    let ghost mut count: int = 0;
    loop
        invariant
            chars.obeys_prophetic_iter_laws(),
            bound <= I64_MIN_MAGNITUDE,
            digits == text@.skip(if signed { 1int } else { 0int }),
            0 <= count <= digits.len(),
            any == (count > 0),
            chars.remaining() == digits.skip(count),
            all_digits(digits.take(count)),
            !exceeded ==> value == digits_value(digits.take(count)) && value <= bound,
            exceeded ==> digits_value(digits.take(count)) > bound,
        decreases digits.len() - count,
    {
        let next = chars.next();
        let c = match next {
            Some(c) => c,
            None => {
                assert(digits.take(count) == digits);
                return any && !exceeded;
            },
        };
        assert(digits[count] == c);
        assert(chars.remaining() == digits.skip(count + 1));
        if c < '0' || c > '9' {
            assert(!is_digit(digits[count]));
            return false;
        }
        proof {
            let longer = digits.take(count + 1);
            assert forall|j: int| 0 <= j < longer.len() implies is_digit(#[trigger] longer[j]) by {
                if j < count {
                    assert(longer[j] == digits.take(count)[j]);
                }
            }
            assert(longer.drop_last() == digits.take(count));
            assert(longer.last() == c);
        }
        if !exceeded {
            let digit: u128 = (c as u32 - '0' as u32) as u128;
            value = value * 10 + digit;
            if value > bound {
                exceeded = true;
            }
        } else {
            assert(digits_value(digits.take(count + 1)) >= digits_value(digits.take(count)));
        }
        any = true;
        proof {
            count = count + 1;
        }
    }
}

/// Whether `text` reads as a 64-bit integer.
pub fn parses_as_integer(text: &str) -> (r: bool)
    ensures
        r == reads_as_integer(text@),
{
    let mut chars = text.chars();
    let first = chars.next();
    match first {
        None => false,
        Some(sign) => {
            assert(text@.skip(0) == text@);
            if sign == '-' {
                digits_within(text, true, I64_MIN_MAGNITUDE)
            } else if sign == '+' {
                digits_within(text, true, I64_MAX_MAGNITUDE)
            } else {
                digits_within(text, false, I64_MAX_MAGNITUDE)
            }
        },
    }
}

/// Validates one name.
pub fn validate_name(value: &str) -> (r: Result<(), NameError>)
    ensures
        r == name_verdict(value@),
{
    let length = value.unicode_len();
    if length < MIN_NAME_LENGTH || length > MAX_NAME_LENGTH {
        return Err(NameError::Length);
    }
    if parses_as_integer(value) {
        return Err(NameError::OnlyDigits);
    }
    Ok(())
}

/// The names that a user submits to begin a registration.
#[derive(Debug)]
pub struct RegistrationForm {
    pub username: String,
    pub display_name: String,
}

impl RegistrationForm {
    /// Validates both names, the username first.
    pub fn validate(&self) -> (r: Result<(), ValidationError>)
        ensures
            r == form_verdict(self.username@, self.display_name@),
    {
        match validate_name(self.username.as_str()) {
            Err(reason) => {
                return Err(ValidationError::Username(reason));
            },
            Ok(_) => {},
        }
        match validate_name(self.display_name.as_str()) {
            Err(reason) => Err(ValidationError::DisplayName(reason)),
            Ok(_) => Ok(()),
        }
    }
}

} // verus!
