//! What a server's answer to a fetch amounts to.

use vstd::prelude::*;
use vstd::string::StringExecFns;
use crate::decimal::{decimal, decimal_string};
use crate::text::{prefix_of, take_chars};

verus! {

/// How much of a failed response's body is quoted.
pub const SNIPPET_CHARS: usize = 200;

/// What is said of an answer that is no success: the status code and the
/// beginning of the body.
pub open spec fn http_failure(status: u16, body: Seq<char>) -> Seq<char> {
    "HTTP "@ + decimal(status as nat) + " response: "@ + prefix_of(body, SNIPPET_CHARS as nat)
}

/// What a fetch of a text amounts to: the body where the server answered
/// with a success status, else a failure that names the status and quotes
/// the body.
pub open spec fn text_outcome(success: bool, status: u16, body: Seq<char>) -> Result<
    Seq<char>,
    Seq<char>,
> {
    if success {
        Ok(body)
    } else {
        Err(http_failure(status, body))
    }
}

/// What a fetch amounts to, given whether the status `status` is a success
/// status, and the body.
pub fn check_response(success: bool, status: u16, body: String) -> (r: Result<String, String>)
    ensures
        match r {
            Ok(text) => text_outcome(success, status, body@) == Ok::<Seq<char>, Seq<char>>(text@),
            Err(m) => text_outcome(success, status, body@) == Err::<Seq<char>, Seq<char>>(m@),
        },
{
    if success {
        Ok(body)
    } else {
        let mut m = String::from_str("HTTP ");
        m.append(decimal_string(status as u64).as_str());
        m.append(" response: ");
        m.append(take_chars(body.as_str(), SNIPPET_CHARS).as_str());
        Err(m)
    }
}

/// A failure never quotes more than `SNIPPET_CHARS` characters of the body.
pub proof fn lemma_snippet_is_short(body: Seq<char>)
    ensures
        prefix_of(body, SNIPPET_CHARS as nat).len() <= SNIPPET_CHARS,
        prefix_of(body, SNIPPET_CHARS as nat).len() <= body.len(),
{
}

} // verus!
