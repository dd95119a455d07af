//! The typed API call: one request to a fixed endpoint, one reply, and the
//! rule that turns the reply into a typed result or an error.
//!
//! Sending the request and parsing the body are the caller's work; what to
//! send and what a reply amounts to are decided here.

use vstd::prelude::*;
use vstd::string::StringExecFns;

verus! {

/// The decimal digit that stands for `d`, for `d` below ten.
pub open spec fn digit(d: nat) -> char {
    if d == 0 {
        '0'
    } else if d == 1 {
        '1'
    } else if d == 2 {
        '2'
    } else if d == 3 {
        '3'
    } else if d == 4 {
        '4'
    } else if d == 5 {
        '5'
    } else if d == 6 {
        '6'
    } else if d == 7 {
        '7'
    } else if d == 8 {
        '8'
    } else {
        '9'
    }
}

/// The decimal numeral of `n`: most significant digit first, no sign, no
/// leading zero except for zero itself.
pub open spec fn decimal(n: nat) -> Seq<char>
    decreases n,
{
    if n < 10 {
        seq![digit(n)]
    } else {
        decimal(n / 10).push(digit(n % 10))
    }
}

/// The one-character text of a decimal digit.
fn digit_text(d: u32) -> (text: &'static str)
    requires
        d < 10,
    ensures
        text@ == seq![digit(d as nat)],
{
    proof {
        reveal_strlit("0");
        reveal_strlit("1");
        reveal_strlit("2");
        reveal_strlit("3");
        reveal_strlit("4");
        reveal_strlit("5");
        reveal_strlit("6");
        reveal_strlit("7");
        reveal_strlit("8");
        reveal_strlit("9");
    }
    let text = if d == 0 {
        "0"
    } else if d == 1 {
        "1"
    } else if d == 2 {
        "2"
    } else if d == 3 {
        "3"
    } else if d == 4 {
        "4"
    } else if d == 5 {
        "5"
    } else if d == 6 {
        "6"
    } else if d == 7 {
        "7"
    } else if d == 8 {
        "8"
    } else {
        "9"
    };
    assert(text@ =~= seq![digit(d as nat)]);
    text
}

/// Writes an integer as its decimal numeral.
pub fn decimal_text(n: u32) -> (text: String)
    ensures
        text@ == decimal(n as nat),
    decreases n,
{
    if n < 10 {
        String::from_str(digit_text(n))
    } else {
        let mut text = decimal_text(n / 10);
        text.append(digit_text(n % 10));
        assert(text@ =~= decimal(n as nat));
        text
    }
}

/// Request parameters of one endpoint: a plain value that knows which
/// name/value pairs it contributes to the request.
pub trait RequestParams {
    /// The name/value pairs of these parameters, in the order in which they
    /// are sent.
    spec fn query_pairs(&self) -> Seq<(Seq<char>, Seq<char>)>;

    /// Serializes the parameters into name/value pairs.
    fn query(&self) -> (pairs: Vec<(String, String)>)
        ensures
            pairs.deep_view() == self.query_pairs(),
    ;
}

/// A request that is ready to be sent: where it goes and what it carries.
#[derive(Debug)]
pub struct ApiRequest {
    /// The base URL followed by the endpoint's path.
    pub url: String,
    /// The name/value pairs of the request parameters.
    pub query: Vec<(String, String)>,
}

/// Builds the request of a call from a base URL, the endpoint's path and the
/// typed request parameters. The URL is the base URL directly followed by the
/// path; the parameters are serialized as they are, without validation.
pub fn prepare<P: RequestParams>(base_url: &str, path: &str, params: &P) -> (request: ApiRequest)
    ensures
        request.url@ == base_url@ + path@,
        request.query.deep_view() == params.query_pairs(),
{
    let mut url = String::from_str(base_url);
    url.append(path);
    ApiRequest { url, query: params.query() }
}

/// Why a call gave no typed result.
#[derive(Clone, Copy, Debug, PartialEq, Eq, Structural)]
pub enum ApiError {
    /// The request failed in transport, or the server answered with a status
    /// outside the success range.
    Transport,
    /// The server answered, but the body did not have the expected shape.
    Parse,
}

/// What came back from the single request of a call.
pub enum Reply<T> {
    /// No HTTP response arrived: name resolution, connection or timeout failed.
    Unreachable,
    /// An HTTP response arrived.
    Response {
        /// The HTTP status code.
        status: u16,
        /// The body parsed as the expected type, or `None` where it did not
        /// parse: empty, malformed, or of another shape.
        payload: Option<T>,
    },
}

/// Whether an HTTP status code reports success: the range 200 to 299.
pub open spec fn status_is_success(status: u16) -> bool {
    200 <= status <= 299
}

/// The result that a reply amounts to.
///
/// No response, or a status outside the success range, is a transport error,
/// whatever the body held. A successful status with a body that did not parse
/// is a parse error. Otherwise the parsed value is the result, as it came:
/// nothing inside it is inspected, so an envelope whose `success` flag is
/// `false` is still a result.
pub open spec fn outcome<T>(reply: Reply<T>) -> Result<T, ApiError> {
    match reply {
        Reply::Unreachable => Err(ApiError::Transport),
        Reply::Response { status, payload } => if !status_is_success(status) {
            Err(ApiError::Transport)
        } else {
            match payload {
                None => Err(ApiError::Parse),
                Some(value) => Ok(value),
            }
        },
    }
}

/// Tells whether an HTTP status code reports success.
pub fn is_success(status: u16) -> (yes: bool)
    ensures
        yes == status_is_success(status),
{
    200 <= status && status <= 299
}

/// Turns the reply to a call into its result.
pub fn conclude<T>(reply: Reply<T>) -> (result: Result<T, ApiError>)
    ensures
        result == outcome(reply),
{
    match reply {
        Reply::Unreachable => Err(ApiError::Transport),
        Reply::Response { status, payload } => {
            if !is_success(status) {
                Err(ApiError::Transport)
            } else {
                match payload {
                    None => Err(ApiError::Parse),
                    Some(value) => Ok(value),
                }
            }
        },
    }
}

/// A body that did not parse never becomes a result: whatever the status,
/// the call ends in an error, not in a value made up in the body's place.
pub proof fn lemma_unparsed_body_is_an_error<T>(status: u16)
    ensures
        outcome(Reply::<T>::Response { status, payload: None }) is Err,
{
}

/// Under a successful status, a body that did not parse (empty, malformed or
/// of another shape) is a parse error.
pub proof fn lemma_unparsed_body_is_a_parse_error<T>(status: u16)
    requires
        status_is_success(status),
    ensures
        outcome(Reply::<T>::Response { status, payload: None }) == Err::<T, ApiError>(
            ApiError::Parse,
        ),
{
}

/// A status outside the success range is a transport error, whether or not
/// the body parsed.
pub proof fn lemma_failed_status_is_a_transport_error<T>(status: u16, payload: Option<T>)
    requires
        !status_is_success(status),
    ensures
        outcome(Reply::Response { status, payload }) == Err::<T, ApiError>(ApiError::Transport),
{
}

/// Under a successful status, a body that parsed is the result, unchanged.
pub proof fn lemma_parsed_body_is_the_result<T>(status: u16, value: T)
    requires
        status_is_success(status),
    ensures
        outcome(Reply::Response { status, payload: Some(value) }) == Ok::<T, ApiError>(value),
{
}

} // verus!
