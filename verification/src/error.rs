//! The ways in which a fetch from the upstream service fails, and the rules
//! that sort an HTTP exchange into bytes or one of those failures.

use vstd::prelude::*;
use vstd::string::*;
use bytes::Bytes;
use reqwest::StatusCode;

verus! {

/// Why a fetch from the upstream service gave no bytes.
#[derive(Debug, Clone, Copy, PartialEq, Eq, Structural)]
pub enum MartaError {
    /// The service rejected the credentials (HTTP 401).
    Unauthorized,
    /// The service reported a failure of its own (HTTP 500).
    InternalServerError,
    /// The request did not complete within the transport's timeout.
    TimeoutError,
    /// Any other answer outside the 2xx range, with its status code.
    GenericError(u16),
    /// The connection failed for a reason other than a timeout.
    TransportError,
}

/// The character that writes the digit `d`.
pub open spec fn digit_char(d: nat) -> char
    recommends
        d < 10,
{
    if d == 0 {
        '0'
    } else if d == 1 {
        '1'
    } else if d == 2 {
        '2'
    } else if d == 3 {
        '3'
    } else if d == 4 {
        '4'
    } else if d == 5 {
        '5'
    } else if d == 6 {
        '6'
    } else if d == 7 {
        '7'
    } else if d == 8 {
        '8'
    } else {
        '9'
    }
}

/// `n` written in decimal, without leading zeros.
pub open spec fn decimal(n: nat) -> Seq<char>
    decreases n,
{
    if n < 10 {
        seq![digit_char(n)]
    } else {
        decimal(n / 10).push(digit_char(n % 10))
    }
}

/// The one-character text of a single digit.
fn digit_text(d: u16) -> (s: &'static str)
    requires
        d < 10,
    ensures
        s@ == seq![digit_char(d as nat)],
{
    proof {
        reveal_strlit("0");
        reveal_strlit("1");
        reveal_strlit("2");
        reveal_strlit("3");
        reveal_strlit("4");
        reveal_strlit("5");
        reveal_strlit("6");
        reveal_strlit("7");
        reveal_strlit("8");
        reveal_strlit("9");
    }
    let s = if d == 0 {
        "0"
    } else if d == 1 {
        "1"
    } else if d == 2 {
        "2"
    } else if d == 3 {
        "3"
    } else if d == 4 {
        "4"
    } else if d == 5 {
        "5"
    } else if d == 6 {
        "6"
    } else if d == 7 {
        "7"
    } else if d == 8 {
        "8"
    } else {
        "9"
    };
    assert(s@ =~= seq![digit_char(d as nat)]);
    s
}

/// Writes a status code in decimal.
pub fn status_text(code: u16) -> (s: String)
    ensures
        s@ == decimal(code as nat),
    decreases code,
{
    if code < 10 {
        String::from_str(digit_text(code))
    } else {
        let mut s = status_text(code / 10);
        s.append(digit_text(code % 10));
        assert(s@ =~= decimal(code as nat));
        s
    }
}

/// The reason phrase that the HTTP library knows for the status code `code`,
/// such as `Not Found` for 404, if it knows one.
pub uninterp spec fn canonical_reason(code: u16) -> Option<Seq<char>>;

/// A text, if there is one, as its characters.
pub open spec fn phrase_text(phrase: Option<&str>) -> Option<Seq<char>> {
    match phrase {
        Some(text) => Some(text@),
        None => None,
    }
}

/// `StatusCode::from_u16` followed by `StatusCode::canonical_reason`, both as
/// `reqwest` exports them: the reason phrase of a status code. Trusted: for a
/// code between 100 and 999, which `from_u16` accepts, the result is the phrase
/// that the library's table holds for the code, or nothing where the table
/// has no entry. Other codes are kept out, so the error arm is never taken.
#[verifier::external_body]
pub(crate) fn reason_phrase(code: u16) -> (phrase: Option<&'static str>)
    requires
        100 <= code <= 999,
    ensures
        phrase_text(phrase) == canonical_reason(code),
{
    match StatusCode::from_u16(code) {
        Ok(status) => status.canonical_reason(),
        Err(_) => None,
    }
}

/// The reason phrase of `code`: the library's phrase for a code between 100
/// and 999, and none for any other number.
pub open spec fn known_reason(code: u16) -> Option<Seq<char>> {
    if 100 <= code <= 999 {
        canonical_reason(code)
    } else {
        None
    }
}

/// A status code as it is shown: the number, a space, and the reason phrase
/// or a marker where there is none.
pub open spec fn status_line_text(code: u16, reason: Option<Seq<char>>) -> Seq<char> {
    decimal(code as nat) + " "@ + match reason {
        Some(phrase) => phrase,
        None => "<unknown status code>"@,
    }
}

/// Writes a status code as it is shown, with the reason phrase `reason`.
pub fn status_line(code: u16, reason: Option<&str>) -> (s: String)
    ensures
        s@ == status_line_text(code, phrase_text(reason)),
{
    let number = status_text(code);
    let phrase = match reason {
        Some(text) => text,
        None => "<unknown status code>",
    };
    number.concat(" ").concat(phrase)
}

/// Looks up the reason phrase of a status code.
pub fn find_reason(code: u16) -> (reason: Option<&'static str>)
    ensures
        phrase_text(reason) == known_reason(code),
{
    if 100 <= code && code <= 999 {
        reason_phrase(code)
    } else {
        None
    }
}

impl MartaError {
    /// The text that describes this failure to a client.
    pub open spec fn message_text(self) -> Seq<char> {
        match self {
            MartaError::Unauthorized => "Authorization failed against MARTA API"@,
            MartaError::InternalServerError => "MARTA API did not return results"@,
            MartaError::TimeoutError => "MARTA API timed out"@,
            MartaError::GenericError(code) => "MARTA API returned HTTP "@ + status_line_text(
                code,
                known_reason(code),
            ),
            MartaError::TransportError => "MARTA API could not be reached"@,
        }
    }

    /// Renders this failure as the text that is sent to a client.
    pub fn message(&self) -> (s: String)
        ensures
            s@ == self.message_text(),
    {
        match self {
            MartaError::Unauthorized => String::from_str("Authorization failed against MARTA API"),
            MartaError::InternalServerError => String::from_str("MARTA API did not return results"),
            MartaError::TimeoutError => String::from_str("MARTA API timed out"),
            MartaError::GenericError(code) => {
                let line = status_line(*code, find_reason(*code));
                String::from_str("MARTA API returned HTTP ").concat(line.as_str())
            },
            MartaError::TransportError => String::from_str("MARTA API could not be reached"),
        }
    }
}

/// Whether a status code counts as success: the 2xx range.
pub open spec fn is_success(status: u16) -> bool {
    200 <= status <= 299
}

/// The failure that a status code outside the 2xx range stands for.
pub open spec fn status_failure(status: u16) -> MartaError {
    if status == 401 {
        MartaError::Unauthorized
    } else if status == 500 {
        MartaError::InternalServerError
    } else {
        MartaError::GenericError(status)
    }
}

/// What an answer of the service amounts to: its body when the status is in
/// the 2xx range, otherwise the failure that the status stands for.
pub open spec fn response_outcome(status: u16, body: Bytes) -> Result<Bytes, MartaError> {
    if is_success(status) {
        Ok(body)
    } else {
        Err(status_failure(status))
    }
}

/// What a status code alone decides: nothing to object to in the 2xx range,
/// otherwise the failure that the status stands for.
pub open spec fn status_outcome(status: u16) -> Result<(), MartaError> {
    if is_success(status) {
        Ok(())
    } else {
        Err(status_failure(status))
    }
}

/// Sorts a status code before the body is read.
pub fn check_status(status: u16) -> (r: Result<(), MartaError>)
    ensures
        r == status_outcome(status),
{
    if 200 <= status && status <= 299 {
        Ok(())
    } else if status == 401 {
        Err(MartaError::Unauthorized)
    } else if status == 500 {
        Err(MartaError::InternalServerError)
    } else {
        Err(MartaError::GenericError(status))
    }
}

/// Sorts an answer of the service, given as its status code and its body,
/// into the body or a failure.
pub fn handle_response(status: u16, body: Bytes) -> (r: Result<Bytes, MartaError>)
    ensures
        r == response_outcome(status, body),
{
    match check_status(status) {
        Ok(()) => Ok(body),
        Err(failure) => Err(failure),
    }
}

/// Sorts a request that got no answer: a timeout, or any other failure of the
/// connection.
pub fn handle_client_error(timed_out: bool) -> (e: MartaError)
    ensures
        e == if timed_out {
            MartaError::TimeoutError
        } else {
            MartaError::TransportError
        },
{
    if timed_out {
        MartaError::TimeoutError
    } else {
        MartaError::TransportError
    }
}

} // verus!
