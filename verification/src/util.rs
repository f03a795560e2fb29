//! Checks of single command-line values.

use crate::pattern::{regex_compiles, Pattern};
use crate::text::{parse_usize, parse_usize_spec, push_str, string_of, NumberError};
use vstd::prelude::*;

verus! {

/// What is said of a text that is no number, by the kind of the fault.
pub open spec fn number_error_text(error: NumberError) -> Seq<char> {
    match error {
        NumberError::Empty => "cannot parse integer from empty string"@,
        NumberError::InvalidDigit => "invalid digit found in string"@,
        NumberError::TooLarge => "number too large to fit in target type"@,
    }
}

/// Accepts `input` where something exists at that path and is a directory; the caller
/// says whether it does and is.
pub fn validate_directory(input: &str, exists: bool, is_dir: bool) -> (checked: Result<(), String>)
    ensures
        checked is Ok <==> exists && is_dir,
        checked matches Err(text) ==> text@ == "Invalid directory: "@ + input@,
{
    if exists && is_dir {
        Ok(())
    } else {
        let mut out: Vec<char> = Vec::new();
        push_str(&mut out, "Invalid directory: ");
        push_str(&mut out, input);
        Err(string_of(&out))
    }
}

/// Accepts `input` where it is the decimal numeral of a `usize`.
pub fn validate_usize(input: &str) -> (checked: Result<(), String>)
    ensures
        checked is Ok <==> parse_usize_spec(input@) is Ok,
        checked matches Err(text) ==> text@ == "Failed to parse usize: "@ + number_error_text(
            parse_usize_spec(input@)->Err_0,
        ),
{
    match parse_usize(input) {
        Ok(_) => Ok(()),
        Err(error) => {
            let mut out: Vec<char> = Vec::new();
            push_str(&mut out, "Failed to parse usize: ");
            push_str(
                &mut out,
                match error {
                    NumberError::Empty => "cannot parse integer from empty string",
                    NumberError::InvalidDigit => "invalid digit found in string",
                    NumberError::TooLarge => "number too large to fit in target type",
                },
            );
            Err(string_of(&out))
        },
    }
}

/// Accepts `input` where the `regex` crate compiles it. The text of a refusal ends in
/// what the crate says of the pattern.
pub fn validate_regex(input: &str) -> (checked: Result<(), String>)
    ensures
        checked is Ok <==> regex_compiles(input@),
        checked matches Err(text) ==> text@.len() >= "Failed to parse regex: "@.len()
            && text@.take("Failed to parse regex: "@.len() as int) == "Failed to parse regex: "@,
{
    match Pattern::new(input) {
        Ok(_) => Ok(()),
        Err(error) => {
            let mut out: Vec<char> = Vec::new();
            push_str(&mut out, "Failed to parse regex: ");
            let ghost head = out@;
            push_str(&mut out, error.message.as_str());
            assert(out@.take(head.len() as int) == head);
            Err(string_of(&out))
        },
    }
}

} // verus!
