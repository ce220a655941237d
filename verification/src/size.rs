//! Sizes written as `<N>KB`, `<N>MB` or `<N>GB`, read as byte counts.

use vstd::prelude::*;
use vstd::string::*;
use crate::case::uppercase_of;
use crate::decimal::{parse_u64, parsed_u64};
use crate::text::{ends_with, trim, trimmed};

verus! {

/// The binary units a size may be written in.
#[derive(Clone, Copy, Debug, PartialEq, Eq)]
pub enum SizeUnit {
    Kilobytes,
    Megabytes,
    Gigabytes,
}

impl SizeUnit {
    /// The number of bytes in one unit.
    pub open spec fn bytes(self) -> nat {
        match self {
            SizeUnit::Kilobytes => 1024,
            SizeUnit::Megabytes => 1024 * 1024,
            SizeUnit::Gigabytes => 1024 * 1024 * 1024,
        }
    }

    /// The number of bytes in one unit.
    pub fn multiplier(self) -> (bytes: u64)
        ensures
            bytes == self.bytes(),
    {
        match self {
            SizeUnit::Kilobytes => 1024,
            SizeUnit::Megabytes => 1_048_576,
            SizeUnit::Gigabytes => 1_073_741_824,
        }
    }
}

/// Why a size string was rejected.
#[derive(Clone, Copy, Debug, PartialEq, Eq)]
pub enum SizeFormatError {
    /// The text does not end in `KB`, `MB` or `GB`.
    UnknownUnit,
    /// What precedes the unit is not an unsigned decimal number.
    InvalidNumber,
    /// The byte count does not fit in 64 bits.
    TooLarge,
}

impl SizeFormatError {
    /// The message shown for this error.
    pub open spec fn text(self) -> Seq<char> {
        match self {
            SizeFormatError::UnknownUnit => "Invalid size format. Use MB, KB, or GB"@,
            SizeFormatError::InvalidNumber => "Invalid size number. Use an unsigned decimal number before the unit"@,
            SizeFormatError::TooLarge => "Size too large. The byte count must fit in 64 bits"@,
        }
    }

    /// The message shown for this error.
    pub fn message(&self) -> (text: String)
        ensures
            text@ == self.text(),
    {
        match self {
            SizeFormatError::UnknownUnit => String::from_str(
                "Invalid size format. Use MB, KB, or GB",
            ),
            SizeFormatError::InvalidNumber => String::from_str(
                "Invalid size number. Use an unsigned decimal number before the unit",
            ),
            SizeFormatError::TooLarge => String::from_str(
                "Size too large. The byte count must fit in 64 bits",
            ),
        }
    }
}

/// The unit that the upper-case text `t` ends in.
pub open spec fn unit_suffix(t: Seq<char>) -> Option<SizeUnit> {
    if "MB"@.is_suffix_of(t) {
        Some(SizeUnit::Megabytes)
    } else if "KB"@.is_suffix_of(t) {
        Some(SizeUnit::Kilobytes)
    } else if "GB"@.is_suffix_of(t) {
        Some(SizeUnit::Gigabytes)
    } else {
        None
    }
}

/// The byte count that the trimmed, upper-case text `t` denotes.
pub open spec fn normalized_size(t: Seq<char>) -> Result<u64, SizeFormatError> {
    match unit_suffix(t) {
        None => Err(SizeFormatError::UnknownUnit),
        Some(unit) => match parsed_u64(trimmed(t.take(t.len() - 2))) {
            None => Err(SizeFormatError::InvalidNumber),
            Some(number) => if number * unit.bytes() <= u64::MAX {
                Ok((number * unit.bytes()) as u64)
            } else {
                Err(SizeFormatError::TooLarge)
            },
        },
    }
}

/// The byte count that the size string `s` denotes: surrounding white space
/// and letter case do not matter.
pub open spec fn size_in_bytes(s: Seq<char>) -> Result<u64, SizeFormatError> {
    normalized_size(uppercase_of(trimmed(s)))
}

/// Reads a size whose surrounding white space is gone and whose letters are
/// upper case.
pub fn parse_normalized_size(text: &str) -> (size: Result<u64, SizeFormatError>)
    ensures
        size == normalized_size(text@),
{
    proof {
        reveal_strlit("MB");
        reveal_strlit("KB");
        reveal_strlit("GB");
    }
    let unit = if ends_with(text, "MB") {
        SizeUnit::Megabytes
    } else if ends_with(text, "KB") {
        SizeUnit::Kilobytes
    } else if ends_with(text, "GB") {
        SizeUnit::Gigabytes
    } else {
        return Err(SizeFormatError::UnknownUnit);
    };
    let length = text.unicode_len();
    let number_text = trim(text.substring_char(0, length - 2));
    assert(text@.subrange(0, length - 2) =~= text@.take(text@.len() - 2));
    let number = match parse_u64(number_text) {
        Some(number) => number,
        None => {
            return Err(SizeFormatError::InvalidNumber);
        },
    };
    match number.checked_mul(unit.multiplier()) {
        Some(bytes) => Ok(bytes),
        None => Err(SizeFormatError::TooLarge),
    }
}

/// Reads a size such as `"10MB"` as a number of bytes.
///
/// Surrounding white space is ignored and the unit may be written in any
/// letter case. A number that is not an unsigned decimal, a unit other than
/// `KB`, `MB` or `GB`, and a byte count beyond 64 bits are errors.
pub fn parse_size(size_str: &str) -> (size: Result<u64, SizeFormatError>)
    ensures
        size == size_in_bytes(size_str@),
{
    let upper = trim(size_str).to_uppercase();
    parse_normalized_size(upper.as_str())
}

/// Letter case and surrounding white space do not matter: two size strings
/// with the same trimmed, upper-case form denote the same.
pub proof fn lemma_size_ignores_case_and_margin(a: Seq<char>, b: Seq<char>)
    requires
        uppercase_of(trimmed(a)) == uppercase_of(trimmed(b)),
    ensures
        size_in_bytes(a) == size_in_bytes(b),
{
}

/// A size is the number before the unit times the unit, whenever it is
/// accepted.
pub proof fn lemma_accepted_size(t: Seq<char>, bytes: u64)
    requires
        normalized_size(t) == Ok::<u64, SizeFormatError>(bytes),
    ensures
        unit_suffix(t) matches Some(unit) && parsed_u64(trimmed(t.take(t.len() - 2))) matches Some(
            number,
        ) && bytes == number * unit.bytes(),
{
}

} // verus!
