//! Command-line values that the emulator checks itself.

use vstd::prelude::*;
use vstd::string::StringExecFns;

verus! {

/// A command-line value that was not accepted, with the reason in words.
#[derive(Debug)]
pub struct ArgParseError {
    pub message: String,
}

impl ArgParseError {
    pub fn new(message: String) -> (r: Self)
        ensures
            r.message@ == message@,
    {
        ArgParseError { message }
    }

    /// The reason, as it is shown to the user.
    pub fn to_text(&self) -> (r: String)
        ensures
            r@ == self.message@,
    {
        self.message.clone()
    }
}

/// Smallest scale of the window.
pub const MIN_SCALE: u32 = 1;

/// Largest scale of the window.
pub const MAX_SCALE: u32 = 8;

pub open spec fn is_decimal_digit(c: char) -> bool {
    '0' <= c && c <= '9'
}

/// The number that a row of decimal digits writes.
pub open spec fn digits_value(digits: Seq<char>) -> nat
    decreases digits.len(),
{
    if digits.len() == 0 {
        0
    } else {
        digits_value(digits.drop_last()) * 10 + ((digits.last() as u32 - '0' as u32) as nat)
    }
}

/// The `u32` that a string writes in base ten: an optional `+`, then one or
/// more decimal digits and nothing else, with a value that fits.
pub open spec fn decimal_u32(s: Seq<char>) -> Option<u32> {
    let digits = if s.len() > 0 && s[0] == '+' {
        s.skip(1)
    } else {
        s
    };
    if digits.len() > 0 && (forall|i: int| 0 <= i < digits.len() ==> is_decimal_digit(digits[i]))
        && digits_value(digits) <= u32::MAX {
        Some(digits_value(digits) as u32)
    } else {
        None
    }
}

/// The words in which the standard library says why a string is no `u32`.
pub uninterp spec fn parse_error_text(s: Seq<char>) -> Seq<char>;

/// `str::parse::<u32>`, with the error turned into its text.
///
/// The standard library documents that the string must be an optional `+`
/// followed by decimal digits only, that the empty string, a sign alone, any
/// other character and a value too large for the type are errors, and that
/// the digits are read in base ten: this is `decimal_u32`. The text of an
/// error depends on the string alone and is given a name.
#[verifier::external_body]
fn parse_u32(arg: &str) -> (r: Result<u32, String>)
    ensures
        match r {
            Ok(v) => decimal_u32(arg@) == Some(v),
            Err(text) => decimal_u32(arg@) is None && text@ == parse_error_text(arg@),
        },
{
    match arg.parse::<u32>() {
        Ok(v) => Ok(v),
        Err(e) => Err(e.to_string()),
    }
}

/// The scale that a reading of the argument stands for: the reading's error
/// with its cause named, or the number if it lies within the limits.
pub open spec fn scale_of(parsed: Result<u32, Seq<char>>) -> Result<u32, Seq<char>> {
    match parsed {
        Err(text) => Err("Could not parse scale: "@ + text),
        Ok(s) => if s < MIN_SCALE {
            Err("Scale must be at least 1"@)
        } else if s > MAX_SCALE {
            Err("Scale may be at most 8"@)
        } else {
            Ok(s)
        },
    }
}

/// Checks a scale that was read from the command line, or names what kept it
/// from being read.
pub fn check_scale(parsed: Result<u32, String>) -> (r: Result<u32, ArgParseError>)
    ensures
        match scale_of(
            match parsed {
                Ok(s) => Ok(s),
                Err(text) => Err(text@),
            },
        ) {
            Ok(s) => r matches Ok(v) && v == s,
            Err(text) => r matches Err(e) && e.message@ == text,
        },
{
    match parsed {
        Err(text) => Err(
            ArgParseError::new(String::from_str("Could not parse scale: ").concat(text.as_str())),
        ),
        Ok(s) => if s < MIN_SCALE {
            Err(ArgParseError::new(String::from_str("Scale must be at least 1")))
        } else if s > MAX_SCALE {
            Err(ArgParseError::new(String::from_str("Scale may be at most 8")))
        } else {
            Ok(s)
        },
    }
}

/// Reads the scale of the window from its command-line argument: a number
/// from 1 to 8 in base ten.
pub fn parse_scale_var(arg: &str) -> (r: Result<u32, ArgParseError>)
    ensures
        match decimal_u32(arg@) {
            None => r matches Err(e) && e.message@ == "Could not parse scale: "@
                + parse_error_text(arg@),
            Some(s) => if s < 1 {
                r matches Err(e) && e.message@ == "Scale must be at least 1"@
            } else if s > 8 {
                r matches Err(e) && e.message@ == "Scale may be at most 8"@
            } else {
                r matches Ok(v) && v == s
            },
        },
{
    check_scale(parse_u32(arg))
}

} // verus!
