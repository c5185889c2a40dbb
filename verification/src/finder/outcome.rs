//! What a run of the finder comes to, once it has exited.

use crate::finder::column::{column_of, pattern_compiles, try_get_column};
use crate::finder::output::{decoded, parse_output_single, FinderError};
use crate::structures::finder::{Opts, OptsView};
use vstd::prelude::*;
use vstd::utf8::{decode_utf8, valid_utf8};

verus! {

/// The exit code of a finder that the user left without a selection. The
/// whole program ends with the same code.
pub const EXIT_CANCELLED: i32 = 130;

/// The exit code of the whole program where the finder could not be started.
pub const EXIT_UNAVAILABLE: i32 = 33;

/// What follows from a run of the finder.
#[derive(Clone, Debug, PartialEq, Eq)]
pub enum Outcome {
    /// The finder completed; this is the final selection.
    Selected(String),
    /// The user cancelled: the whole program ends with `EXIT_CANCELLED`.
    Cancelled,
    /// The finder failed; this is what it wrote to its standard error.
    Failed(String),
}

/// Whether the finder completed: it found a match, found none, or met an
/// error and still printed what can be used.
pub open spec fn completed(status: Option<i32>) -> bool {
    status == Some(0i32) || status == Some(1i32) || status == Some(2i32)
}

/// The final selection for what a completed finder printed, or why there is
/// none: the bytes have to be UTF-8, the text is decoded as the mode says, and
/// the column that the configuration names is kept.
pub open spec fn selection(opts: OptsView, stdout: Seq<u8>) -> Result<Seq<char>, FinderError> {
    if !valid_utf8(stdout) {
        Err(FinderError::InvalidUtf8)
    } else {
        match decoded(decode_utf8(stdout), opts.suggestion_type) {
            None => Err(FinderError::InsufficientData),
            Some(text) => if opts.column is Some && (opts.delimiter matches Some(pattern)
                && !pattern_compiles(pattern)) {
                Err(FinderError::InvalidDelimiter)
            } else {
                Ok(column_of(text, opts.column, opts.delimiter))
            },
        }
    }
}

/// What is reported of a finder that failed: its standard error, or a note
/// where that is not UTF-8.
pub open spec fn failure_text(stderr: Seq<u8>) -> Seq<char> {
    if valid_utf8(stderr) {
        decode_utf8(stderr)
    } else {
        "<stderr contains invalid UTF-8>"@
    }
}

/// `String::from_utf8` returns the text that the bytes encode, and fails
/// exactly where they are not UTF-8.
#[verifier::external_body]
fn text_from_utf8(bytes: Vec<u8>) -> (text: Option<String>)
    ensures
        text is Some <==> valid_utf8(bytes@),
        text matches Some(t) ==> t@ == decode_utf8(bytes@),
{
    match String::from_utf8(bytes) {
        Ok(text) => Some(text),
        Err(_) => None,
    }
}

/// Decides what a run of the finder comes to, from its exit status and what it
/// wrote. Status 0, 1 or 2 is a completed run, whose output is decoded; 130
/// is a cancellation, whatever the mode; any other status, or none, is a
/// failure that carries the finder's standard error.
pub fn conclude(opts: &Opts, status: Option<i32>, stdout: Vec<u8>, stderr: Vec<u8>) -> (result:
    Result<Outcome, FinderError>)
    ensures
        completed(status) ==> match selection(opts@, stdout@) {
            Ok(text) => result matches Ok(Outcome::Selected(s)) && s@ == text,
            Err(error) => result matches Err(e) && e == error,
        },
        status == Some(EXIT_CANCELLED) ==> result matches Ok(Outcome::Cancelled),
        !completed(status) && status != Some(EXIT_CANCELLED) ==> (result matches Ok(
            Outcome::Failed(s),
        ) && s@ == failure_text(stderr@)),
{
    match status {
        Some(0) | Some(1) | Some(2) => {
            let text = match text_from_utf8(stdout) {
                Some(text) => text,
                None => {
                    return Err(FinderError::InvalidUtf8);
                },
            };
            let chosen = match parse_output_single(text, opts.suggestion_type) {
                Ok(chosen) => chosen,
                Err(error) => {
                    return Err(error);
                },
            };
            let delimiter = match &opts.delimiter {
                Some(pattern) => Some(pattern.as_str()),
                None => None,
            };
            match try_get_column(chosen, opts.column, delimiter) {
                Some(kept) => Ok(Outcome::Selected(kept)),
                None => Err(FinderError::InvalidDelimiter),
            }
        },
        Some(130) => Ok(Outcome::Cancelled),
        _ => {
            let text = match text_from_utf8(stderr) {
                Some(text) => text,
                None => "<stderr contains invalid UTF-8>".to_owned(),
            };
            Ok(Outcome::Failed(text))
        },
    }
}

} // verus!
