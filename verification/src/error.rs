//! Errors as they are reported to the caller and to the log.

use vstd::prelude::*;
use vstd::string::*;

verus! {

/// Status code of a request that is malformed.
pub const BAD_REQUEST: u16 = 400;

/// Status code of a request that the service failed to handle.
pub const INTERNAL_SERVER_ERROR: u16 = 500;

/// An error together with the status code under which it is reported.
#[derive(Debug)]
pub struct ResponseError {
    status_code: u16,
    internal_error: String,
}

/// A response error as plain values.
pub struct ResponseErrorView {
    pub status_code: u16,
    pub internal_error: Seq<char>,
}

impl View for ResponseError {
    type V = ResponseErrorView;

    closed spec fn view(&self) -> ResponseErrorView {
        ResponseErrorView { status_code: self.status_code, internal_error: self.internal_error@ }
    }
}

impl ResponseError {
    /// An error with the message `internal_error`, reported as `status_code`.
    pub fn new(status_code: u16, internal_error: String) -> (error: Self)
        ensures
            error@ == (ResponseErrorView { status_code, internal_error: internal_error@ }),
    {
        ResponseError { status_code, internal_error }
    }

    /// The same error under another status code.
    pub fn set_status(self, status_code: u16) -> (error: Self)
        ensures
            error@ == (ResponseErrorView { status_code, internal_error: self@.internal_error }),
    {
        ResponseError { status_code, internal_error: self.internal_error }
    }

    /// An error with the message `value`, reported as an internal server error.
    pub fn from(value: String) -> (error: Self)
        ensures
            error@ == (ResponseErrorView {
                status_code: INTERNAL_SERVER_ERROR,
                internal_error: value@,
            }),
    {
        ResponseError { status_code: INTERNAL_SERVER_ERROR, internal_error: value }
    }

    /// The status code.
    pub fn status_code(&self) -> (status_code: u16)
        ensures
            status_code == self@.status_code,
    {
        self.status_code
    }

    /// The message.
    pub fn to_string(&self) -> (message: String)
        ensures
            message@ == self@.internal_error,
    {
        self.internal_error.clone()
    }

    /// The status code and the body of the response that reports the error.
    pub fn into_response(self) -> (response: (u16, String))
        ensures
            response.0 == self@.status_code,
            response.1@ == self@.internal_error,
    {
        (self.status_code, self.internal_error)
    }
}

/// The error `e`, reported as a bad request.
pub fn e400(e: String) -> (error: ResponseError)
    ensures
        error@ == (ResponseErrorView { status_code: BAD_REQUEST, internal_error: e@ }),
{
    ResponseError::from(e).set_status(BAD_REQUEST)
}

/// The error `e`, reported as an internal server error.
pub fn e500(e: String) -> (error: ResponseError)
    ensures
        error@ == (ResponseErrorView { status_code: INTERNAL_SERVER_ERROR, internal_error: e@ }),
{
    ResponseError::from(e)
}

/// The text that reports an error with the chain of its causes: the error,
/// an empty line, then for each cause, outermost first, a line
/// `Caused by:` and the cause on a line of its own behind a tab.
pub open spec fn chain_text(error: Seq<char>, causes: Seq<Seq<char>>) -> Seq<char>
    decreases causes.len(),
{
    if causes.len() == 0 {
        error + "\n\n"@
    } else {
        chain_text(error, causes.drop_last()) + "Caused by:\n\t"@ + causes.last() + "\n"@
    }
}

/// The messages in a list, in order.
pub open spec fn messages(list: Seq<String>) -> Seq<Seq<char>> {
    list.map_values(|message: String| message@)
}

/// Writes out `error` and the chain of its `causes`.
pub fn error_chain_fmt(error: &str, causes: &Vec<String>) -> (text: String)
    ensures
        text@ == chain_text(error@, messages(causes@)),
{
    let mut text = String::from_str(error);
    text.append("\n\n");
    let mut i: usize = 0;
    assert(messages(causes@).take(0) =~= Seq::empty());
    while i < causes.len()
        invariant
            0 <= i <= causes.len(),
            text@ == chain_text(error@, messages(causes@).take(i as int)),
        decreases causes.len() - i,
    {
        proof {
            let next = messages(causes@).take(i as int + 1);
            assert(next.drop_last() =~= messages(causes@).take(i as int));
            assert(next.last() == causes[i as int]@);
        }
        text.append("Caused by:\n\t");
        text.append(causes[i].as_str());
        text.append("\n");
        i += 1;
    }
    assert(messages(causes@).take(causes.len() as int) =~= messages(causes@));
    text
}

} // verus!
