//! The message of the most recent failure.
//!
//! A failing call reports through its return value that it failed, and
//! leaves a text that says why in a cell. The cell holds at most one
//! message: each failure overwrites the one before. The host keeps one cell
//! per thread and reads it as a C string, so a message that could not travel
//! as a C string leaves the cell empty.

use vstd::prelude::*;
use vstd::string::to_string_from_display_ensures;
use crate::string::has_nul;
use crate::types::{WryErrorCode, WryResult};

verus! {

/// The cell that holds the last error message.
pub struct LastError {
    message: Option<String>,
}

/// What the cell holds after `message` was reported.
pub open spec fn stored_message(message: Seq<char>) -> Option<Seq<char>> {
    if message.contains('\0') {
        None
    } else {
        Some(message)
    }
}

impl View for LastError {
    type V = Option<Seq<char>>;

    closed spec fn view(&self) -> Option<Seq<char>> {
        match self.message {
            Some(text) => Some(text@),
            None => None,
        }
    }
}

impl LastError {
    /// A cell without a message.
    pub fn new() -> (cell: Self)
        ensures
            cell@ is None,
    {
        LastError { message: None }
    }
}

/// Puts `message` into the cell, in place of what was there.
pub fn set_last_error(cell: &mut LastError, message: &str)
    ensures
        final(cell)@ == stored_message(message@),
{
    if has_nul(message) {
        cell.message = None;
    } else {
        cell.message = Some(message.to_owned());
    }
}

/// The message in the cell, if there is one. It is valid until the next
/// failure overwrites it.
pub fn get_last_error_ptr(cell: &LastError) -> (message: Option<&str>)
    ensures
        message is Some <==> cell@ is Some,
        message matches Some(text) ==> cell@ == Some(text@),
{
    match &cell.message {
        Some(text) => Some(text.as_str()),
        None => None,
    }
}

/// Empties the cell.
pub fn clear_last_error(cell: &mut LastError)
    ensures
        final(cell)@ is None,
{
    cell.message = None;
}

/// Turns a failure into the result that the host sees, and leaves the
/// reason in the cell.
pub trait IntoWryResult<T> {
    fn into_wry_result(self, cell: &mut LastError) -> Result<T, WryResult>;
}

impl<T, E: std::fmt::Display> IntoWryResult<T> for Result<T, E> {
    /// A success passes through and leaves the cell alone. A failure becomes
    /// the result for an unknown error, and its rendering goes into the cell.
    fn into_wry_result(self, cell: &mut LastError) -> (converted: Result<T, WryResult>)
        ensures
            match self {
                Ok(value) => converted == Ok::<T, WryResult>(value) && final(cell)@ == old(cell)@,
                Err(error) => converted == Err::<T, WryResult>(
                    WryResult { success: false, error_code: WryErrorCode::Unknown.spec_code() },
                ) && exists|rendering: String| #[trigger]
                    to_string_from_display_ensures::<E>(&error, rendering) && final(cell)@
                        == stored_message(rendering@),
            },
    {
        match self {
            Ok(value) => Ok(value),
            Err(error) => {
                let rendering = error.to_string();
                set_last_error(cell, rendering.as_str());
                Err(WryResult::err(WryErrorCode::Unknown.code()))
            },
        }
    }
}

/// Reports a failure: leaves `message` in the cell and returns the result
/// that carries the number of `code`.
pub fn error_result(cell: &mut LastError, code: WryErrorCode, message: &str) -> (result: WryResult)
    ensures
        result == (WryResult { success: false, error_code: code.spec_code() }),
        final(cell)@ == stored_message(message@),
{
    set_last_error(cell, message);
    WryResult::err(code.code())
}

/// What is read back after a failure is the message of that failure,
/// whatever the cell held before: the whole message, character for
/// character, unless it holds a zero character, which leaves the cell empty.
pub proof fn lemma_cell_holds_latest_message(message: Seq<char>)
    ensures
        !message.contains('\0') ==> stored_message(message) == Some(message),
        message.contains('\0') ==> stored_message(message) is None,
{
}

} // verus!
