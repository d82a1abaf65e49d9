//! Errors reported while reading and validating parameters.

use vstd::prelude::*;

verus! {

/// Why a value or a parameter set was refused.
#[derive(Debug, Clone, Copy, PartialEq, Eq, Structural)]
pub enum KeyGenError {
    /// Nothing is left of the text once separators are removed.
    EmptyValue,
    /// A character is not a digit of the selected base, or no digit follows `0x`.
    MalformedNumber,
    /// The modulus is 3 or less.
    PrimeTooSmall,
    /// The modulus is even.
    PrimeEven,
    /// The generator is 1 or less.
    GeneratorTooSmall,
    /// The generator is not below the modulus.
    GeneratorTooLarge,
}

/// The message that describes each error.
pub open spec fn error_message(e: KeyGenError) -> Seq<char> {
    match e {
        KeyGenError::EmptyValue => "value cannot be empty"@,
        KeyGenError::MalformedNumber => "failed to parse big integer"@,
        KeyGenError::PrimeTooSmall => "prime modulus must be greater than 3"@,
        KeyGenError::PrimeEven => "prime modulus must be odd"@,
        KeyGenError::GeneratorTooSmall => "generator must be greater than 1"@,
        KeyGenError::GeneratorTooLarge => "generator must be less than the prime modulus"@,
    }
}

impl KeyGenError {
    /// Whether the text itself could not be read as a number (as opposed to
    /// a number that breaks a rule on the parameters).
    pub fn is_parse_error(&self) -> (r: bool)
        ensures
            r == (*self == KeyGenError::EmptyValue || *self == KeyGenError::MalformedNumber),
    {
        match self {
            KeyGenError::EmptyValue | KeyGenError::MalformedNumber => true,
            _ => false,
        }
    }

    /// The message shown to a user.
    pub fn message(&self) -> (r: &'static str)
        ensures
            r@ == error_message(*self),
    {
        match self {
            KeyGenError::EmptyValue => "value cannot be empty",
            KeyGenError::MalformedNumber => "failed to parse big integer",
            KeyGenError::PrimeTooSmall => "prime modulus must be greater than 3",
            KeyGenError::PrimeEven => "prime modulus must be odd",
            KeyGenError::GeneratorTooSmall => "generator must be greater than 1",
            KeyGenError::GeneratorTooLarge => "generator must be less than the prime modulus",
        }
    }
}

} // verus!
