//! The settings that the library takes from its surroundings.
//!
//! Reading the environment is the caller's part. These functions take what
//! was found under a variable's name and decide whether it will do: a
//! setting that is missing or empty is an error for the caller to act on.

use vstd::prelude::*;
use crate::error::{result_view, Error, ErrorView};
use crate::text::join;

verus! {

/// The variable that names the working directory.
pub const VULCAN_DIR: &'static str = "VULCAN_DIR";

/// The variable that holds the OpenAI credential.
pub const OPENAI_API_KEY: &'static str = "OPENAI_API_KEY";

/// The variable that holds the Gemini credential.
pub const GEMINI_API_KEY: &'static str = "GEMINI_API_KEY";

/// What the setting `name` is, given what was found under that name: the
/// value, if there is one and it is not empty; else an error that names the
/// variable and says which of the two is wrong.
pub open spec fn setting(name: Seq<char>, found: Option<Seq<char>>) -> Result<
    Seq<char>,
    ErrorView,
> {
    match found {
        None => Err(ErrorView::String("Environment variable "@ + name + " is required"@)),
        Some(value) => if value.len() == 0 {
            Err(ErrorView::String("Environment variable "@ + name + " is empty"@))
        } else {
            Ok(value)
        },
    }
}

/// Decides on the setting `name`, given what was found under that name.
pub fn env(name: &str, found: Option<String>) -> (r: Result<String, Error>)
    ensures
        result_view(r) == setting(
            name@,
            match found {
                Some(value) => Some(value@),
                None => None,
            },
        ),
{
    match found {
        None => {
            let mut message = join("Environment variable ", name);
            message.append(" is required");
            Err(Error::String(message))
        },
        Some(value) => {
            if value.as_str().is_empty() {
                let mut message = join("Environment variable ", name);
                message.append(" is empty");
                Err(Error::String(message))
            } else {
                Ok(value)
            }
        },
    }
}

/// The working directory, given what was found under `VULCAN_DIR`.
pub fn vulcan_dir(found: Option<String>) -> (r: Result<String, Error>)
    ensures
        result_view(r) == setting(
            "VULCAN_DIR"@,
            match found {
                Some(value) => Some(value@),
                None => None,
            },
        ),
{
    env(VULCAN_DIR, found)
}

/// The OpenAI credential, given what was found under `OPENAI_API_KEY`.
pub fn openai_api_key(found: Option<String>) -> (r: Result<String, Error>)
    ensures
        result_view(r) == setting(
            "OPENAI_API_KEY"@,
            match found {
                Some(value) => Some(value@),
                None => None,
            },
        ),
{
    env(OPENAI_API_KEY, found)
}

/// The Gemini credential, given what was found under `GEMINI_API_KEY`.
pub fn gemini_api_key(found: Option<String>) -> (r: Result<String, Error>)
    ensures
        result_view(r) == setting(
            "GEMINI_API_KEY"@,
            match found {
                Some(value) => Some(value@),
                None => None,
            },
        ),
{
    env(GEMINI_API_KEY, found)
}

} // verus!
