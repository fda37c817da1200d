//! Classifying what the runner reported for one execution.

use vstd::prelude::*;

verus! {

/// Why a call produced no result.
#[derive(Debug, Clone, PartialEq, Eq)]
pub enum Error {
    /// The service itself failed: I/O, spawning the runner, or captured
    /// output that is not text.
    Internal(String),
    /// The runner rejected or failed the submitted code; holds its
    /// diagnostics verbatim.
    Compile(String),
}

/// The HTTP status for an internal failure.
pub open spec fn internal_status() -> u16 {
    500
}

/// The HTTP status for code that the runner rejected.
pub open spec fn unprocessable_status() -> u16 {
    422
}

impl Error {
    /// The status a client receives for this error.
    pub fn status(&self) -> (r: u16)
        ensures
            self is Internal ==> r == internal_status(),
            self is Compile ==> r == unprocessable_status(),
    {
        match self {
            Error::Internal(_) => 500,
            Error::Compile(_) => 422,
        }
    }
}

/// The characters that `bytes` encode as UTF-8, or `None` where they are not
/// valid UTF-8.
pub uninterp spec fn utf8_text(bytes: Seq<u8>) -> Option<Seq<char>>;

/// The message carried by an internal error for output that is not text.
pub open spec fn not_text_message() -> Seq<char> {
    "captured output is not valid UTF-8"@
}

/// Relies on `String::from_utf8`: it succeeds exactly on valid UTF-8 and
/// then holds the characters the bytes encode; no bytes make the empty string.
#[verifier::external_body]
fn decode_utf8(bytes: Vec<u8>) -> (r: Option<String>)
    ensures
        r is Some <==> utf8_text(bytes@) is Some,
        r is Some ==> r->0@ == utf8_text(bytes@)->0,
        bytes@.len() == 0 ==> r is Some && r->0@.len() == 0,
{
    String::from_utf8(bytes).ok()
}

/// What a call returns, given whether the runner exited successfully and
/// its standard output and standard error as text (`None` where the bytes
/// were not text).
pub open spec fn outcome_holds(
    success: bool,
    out: Option<Seq<char>>,
    err: Option<Seq<char>>,
    r: Result<String, Error>,
) -> bool {
    if success {
        match out {
            Some(t) => r matches Ok(s) && s@ == t,
            None => r matches Err(Error::Internal(m)) && m@ == not_text_message(),
        }
    } else {
        match err {
            Some(t) => r matches Err(Error::Compile(m)) && m@ == t,
            None => r matches Err(Error::Internal(m)) && m@ == not_text_message(),
        }
    }
}

fn not_text() -> (r: Error)
    ensures
        r matches Error::Internal(m) && m@ == not_text_message(),
{
    Error::Internal(String::from_str("captured output is not valid UTF-8"))
}

/// The result of a call from the runner's exit status and its decoded
/// outputs: on success the standard output is the result; otherwise the
/// standard error is the diagnostic of a compile error.
pub fn outcome_from_text(success: bool, out: Option<String>, err: Option<String>) -> (r: Result<
    String,
    Error,
>)
    ensures
        outcome_holds(
            success,
            match out {
                Some(s) => Some(s@),
                None => None,
            },
            match err {
                Some(s) => Some(s@),
                None => None,
            },
            r,
        ),
{
    if success {
        match out {
            Some(s) => Ok(s),
            None => Err(not_text()),
        }
    } else {
        match err {
            Some(s) => Err(Error::Compile(s)),
            None => Err(not_text()),
        }
    }
}

/// Classifies one run from its exit status and captured bytes. Only the
/// stream that decides the result is decoded.
pub fn classify(success: bool, stdout: &Vec<u8>, stderr: &Vec<u8>) -> (r: Result<String, Error>)
    ensures
        outcome_holds(success, utf8_text(stdout@), utf8_text(stderr@), r),
{
    if success {
        let out = decode_utf8(stdout.clone());
        outcome_from_text(true, out, None)
    } else {
        let err = decode_utf8(stderr.clone());
        outcome_from_text(false, None, err)
    }
}

} // verus!
