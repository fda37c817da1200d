//! A submitted call and the harness program that runs it.

use crate::broadcast::Broadcaster;
use crate::outcome::{classify, outcome_holds, utf8_text, Error};
use vstd::prelude::*;

verus! {

/// One submitted call: an optional head (carried, never read), the code of a
/// `main` function taking one argument, and that argument as raw JSON text.
pub struct Call {
    pub head: String,
    pub code: String,
    pub data: String,
}

/// The argument text used when a call carries none.
pub open spec fn null_text() -> Seq<char> {
    "null"@
}

/// The harness text before the argument.
pub open spec fn harness_head() -> Seq<char> {
    "fn main() -> Result<(), Box<dyn std::error::Error>> { let args = serde_json::from_str(r#\""@
}

/// The harness text between the argument and the submitted code.
pub open spec fn harness_middle() -> Seq<char> {
    "\"#)?; "@
}

/// The harness text after the submitted code.
pub open spec fn harness_tail() -> Seq<char> {
    " println!(\"{}\", serde_json::to_string(&main(args))?); Ok(()) }"@
}

/// The program written for `code` called on `data`: it decodes the argument,
/// calls the submitted `main` with it, and prints the encoded result as its
/// one line of output.
pub open spec fn harness_text(code: Seq<char>, data: Seq<char>) -> Seq<char> {
    harness_head() + data + harness_middle() + code + harness_tail()
}

/// The argument text of a call that gives none.
pub fn null_data() -> (r: String)
    ensures
        r@ == null_text(),
{
    String::from_str("null")
}

/// The harness program for `code` called on the raw argument `data`.
pub fn harness_source(code: &str, data: &str) -> (r: String)
    ensures
        r@ == harness_text(code@, data@),
{
    let mut s = String::from_str(
        "fn main() -> Result<(), Box<dyn std::error::Error>> { let args = serde_json::from_str(r#\"",
    );
    s.append(data);
    s.append("\"#)?; ");
    s.append(code);
    s.append(" println!(\"{}\", serde_json::to_string(&main(args))?); Ok(()) }");
    s
}

impl Call {
    /// A call of `code` on `data`, with an empty head.
    pub fn new(code: String, data: String) -> (r: Call)
        ensures
            r.head@.len() == 0,
            r.code@ == code@,
            r.data@ == data@,
    {
        Call { head: String::new(), code, data }
    }

    /// A call of `code` that gives no argument.
    pub fn without_data(code: String) -> (r: Call)
        ensures
            r.head@.len() == 0,
            r.code@ == code@,
            r.data@ == null_text(),
    {
        Call::new(code, null_data())
    }

    /// The harness program that runs this call.
    pub fn source(&self) -> (r: String)
        ensures
            r@ == harness_text(self.code@, self.data@),
    {
        harness_source(self.code.as_str(), self.data.as_str())
    }
}

/// Finishes a call once the runner has exited: the result is classified from
/// the exit status and the captured bytes, and the standard output is
/// published to the subscribers whatever the result.
pub fn complete_call(
    broadcaster: &Broadcaster,
    success: bool,
    stdout: Vec<u8>,
    stderr: &Vec<u8>,
) -> (r: Result<String, Error>)
    ensures
        outcome_holds(success, utf8_text(stdout@), utf8_text(stderr@), r),
{
    let r = classify(success, &stdout, stderr);
    broadcaster.publish(stdout);
    r
}

} // verus!
