use vstd::prelude::*;
use vstd::utf8::{decode_utf8, valid_utf8};

use crate::command::{Outcome, OutcomeView};
use crate::error::CloneError;
use crate::path::{is_absolute, is_absolute_path};
use crate::text::{trim, trimmed};

verus! {

/// The exit status with which the tool reports that a configuration key is
/// not set.
pub const KEY_NOT_FOUND_STATUS: i32 = 1;

/// `std::string::FromUtf8Error`, the error of `String::from_utf8`. It is
/// handed on unread: nothing is known of a value of it.
#[verifier::external_type_specification]
#[verifier::external_body]
pub struct ExFromUtf8Error(std::string::FromUtf8Error);

/// `String::from_utf8` succeeds on the byte sequences that are UTF-8, and
/// the string it returns holds the characters that they encode.
pub assume_specification[ String::from_utf8 ](vec: Vec<u8>) -> (r: Result<
    String,
    std::string::FromUtf8Error,
>)
    ensures
        r is Ok <==> valid_utf8(vec@),
        r matches Ok(s) ==> s@ == decode_utf8(vec@),
;

/// The base directory that the outcome of reading the configuration gives,
/// or the reason why it gives none.
///
/// Status zero means that the key was found, and the output, trimmed, is its
/// value; it has to be an absolute path. [`KEY_NOT_FOUND_STATUS`] means that
/// the key is not set. Anything else, a missing status too, is a failed read.
pub open spec fn base_directory(outcome: OutcomeView) -> Result<Seq<char>, CloneError> {
    match outcome.exit_status {
        Some(status) => {
            if status == 0 {
                if !valid_utf8(outcome.stdout) {
                    Err(CloneError::OutputNotText)
                } else {
                    let value = trimmed(decode_utf8(outcome.stdout));
                    if value.len() == 0 || !is_absolute(value) {
                        Err(CloneError::ConfigInvalid)
                    } else {
                        Ok(value)
                    }
                }
            } else if status == KEY_NOT_FOUND_STATUS {
                Err(CloneError::ConfigMissing)
            } else {
                Err(CloneError::ConfigReadError)
            }
        },
        None => Err(CloneError::ConfigReadError),
    }
}

/// Resolves the base directory from the outcome of the command that reads
/// it from the configuration.
pub fn basedir(outcome: Outcome) -> (r: Result<String, CloneError>)
    ensures
        match base_directory(outcome@) {
            Ok(dir) => r matches Ok(d) && d@ == dir,
            Err(e) => r == Err::<String, CloneError>(e),
        },
{
    match outcome.exit_status {
        Some(status) => {
            if status == KEY_NOT_FOUND_STATUS {
                return Err(CloneError::ConfigMissing);
            }
            if status != 0 {
                return Err(CloneError::ConfigReadError);
            }
        },
        None => {
            return Err(CloneError::ConfigReadError);
        },
    }
    let text: String = match String::from_utf8(outcome.stdout) {
        Ok(text) => text,
        Err(_) => {
            return Err(CloneError::OutputNotText);
        },
    };
    let value: &str = trim(text.as_str());
    if value.is_empty() || !is_absolute_path(value) {
        return Err(CloneError::ConfigInvalid);
    }
    Ok(value.to_string())
}

} // verus!
