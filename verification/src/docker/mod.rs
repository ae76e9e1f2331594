//! One exchange with the daemon and what its status code means.

pub mod errors;
pub mod info;
pub mod transport;

pub use self::errors::DockerApiError;
pub use self::errors::JsonError;
pub use self::errors::TransportError;

use crate::codec::Decode;
use crate::json::json_document;
use crate::json::json_text;
use crate::json::render;
use crate::json::Json;
use crate::json::JsonView;
use crate::json::parse;
use vstd::prelude::*;
use vstd::string::StringExecFns;

verus! {

/// What one exchange produced: the status code and the decoded body.
#[derive(Debug, Clone)]
pub struct Response {
    pub status_code: usize,
    pub body: String,
}

/// The HTTP verb of an exchange.
#[derive(Debug, Clone, Copy, PartialEq, Eq, Structural)]
pub enum Method {
    GET,
    POST,
    DELETE,
}

/// What the daemon is asked at `api_endpoint` with `query_params` behind it:
/// the two texts joined, the query being empty where none is given.
pub open spec fn api_path(api_endpoint: Seq<char>, query_params: Option<Seq<char>>) -> Seq<char> {
    match query_params {
        Some(q) => api_endpoint + q,
        None => api_endpoint,
    }
}

/// The view of an optional text.
pub open spec fn opt_text(s: Option<&str>) -> Option<Seq<char>> {
    match s {
        Some(t) => Some(t@),
        None => None,
    }
}

/// Joins an endpoint and its already encoded query string.
pub fn join_path(api_endpoint: &str, query_params: Option<&str>) -> (path: String)
    ensures
        path@ == api_path(api_endpoint@, opt_text(query_params)),
{
    let mut path = String::from_str(api_endpoint);
    match query_params {
        Some(q) => {
            path.append(q);
        },
        None => {},
    }
    path
}

/// How the outcome of an exchange is handed on: a response as it is, a broken
/// exchange as [`DockerApiError::TransportError`].
pub open spec fn api_reply(outcome: Result<Response, TransportError>) -> Result<
    Response,
    DockerApiError,
> {
    match outcome {
        Ok(res) => Ok(res),
        Err(e) => Err(DockerApiError::TransportError(e)),
    }
}

/// The transport: whatever can carry one request to the daemon and bring its
/// answer back.
pub trait Client {
    /// Whether `outcome` is a way in which this transport can end the
    /// exchange of `method` on `path` with the request body `body`. A
    /// transport that says nothing of itself can end it in any way.
    open spec fn answers(
        &self,
        path: Seq<char>,
        method: Method,
        body: Option<Seq<char>>,
        outcome: Result<Response, TransportError>,
    ) -> bool {
        true
    }

    /// Performs exactly one exchange: `method` on `api_endpoint`, which already
    /// holds its query string, with `body` as the request body where the
    /// method carries one.
    fn request(&self, api_endpoint: &str, method: Method, body: Option<&str>) -> (outcome: Result<
        Response,
        TransportError,
    >)
        ensures
            self.answers(api_endpoint@, method, opt_text(body), outcome),
    ;

    /// One exchange on `api_endpoint` followed by `query_params`.
    fn get_response_from_api(
        &self,
        api_endpoint: &str,
        method: Method,
        query_params: Option<&str>,
        body: Option<&str>,
    ) -> (r: Result<Response, DockerApiError>)
        ensures
            exists|outcome: Result<Response, TransportError>| #[trigger]
                self.answers(
                    api_path(api_endpoint@, opt_text(query_params)),
                    method,
                    opt_text(body),
                    outcome,
                ) && r == api_reply(outcome),
    {
        let path = join_path(api_endpoint, query_params);
        let outcome = self.request(path.as_str(), method, body);
        let r = match outcome {
            Ok(res) => Ok(res),
            Err(e) => Err(DockerApiError::TransportError(e)),
        };
        assert(self.answers(path@, method, opt_text(body), outcome) && r == api_reply(outcome));
        r
    }
}

/// A transport with one answer to whatever it is asked: for trying out
/// callers where there is no daemon to ask.
#[derive(Debug)]
pub struct FixedAnswer {
    pub status_code: usize,
    pub body: String,
}

impl Client for FixedAnswer {
    open spec fn answers(
        &self,
        path: Seq<char>,
        method: Method,
        body: Option<Seq<char>>,
        outcome: Result<Response, TransportError>,
    ) -> bool {
        outcome matches Ok(res) && res.status_code == self.status_code && res.body@ == self.body@
    }

    fn request(&self, api_endpoint: &str, method: Method, body: Option<&str>) -> (outcome: Result<
        Response,
        TransportError,
    >) {
        Ok(Response { status_code: self.status_code, body: self.body.clone() })
    }
}

/// Whether `reply` is what one exchange through `client` can give: a
/// response as the transport brought it, or the transport's failure.
pub open spec fn is_exchange<C: Client + ?Sized>(
    client: &C,
    path: Seq<char>,
    method: Method,
    body: Option<Seq<char>>,
    reply: Result<Response, DockerApiError>,
) -> bool {
    exists|outcome: Result<Response, TransportError>| #[trigger]
        client.answers(path, method, body, outcome) && reply == api_reply(outcome)
}

/// One exchange through `client` on `api_endpoint` followed by `query_params`:
/// the response as it came, or the transport's failure.
pub fn get_response_from_api_static<C: Client>(
    client: &C,
    api_endpoint: &str,
    method: Method,
    query_params: Option<&str>,
    body: Option<&str>,
) -> (r: Result<Response, DockerApiError>)
    ensures
        is_exchange(
            client,
            api_path(api_endpoint@, opt_text(query_params)),
            method,
            opt_text(body),
            r,
        ),
{
    let path = join_path(api_endpoint, query_params);
    let outcome = client.request(path.as_str(), method, body);
    let r = match outcome {
        Ok(res) => Ok(res),
        Err(e) => Err(DockerApiError::TransportError(e)),
    };
    assert(client.answers(path@, method, opt_text(body), outcome) && r == api_reply(outcome));
    r
}

/// The text of a request body that holds `document`.
pub fn request_body(document: &Json) -> (r: Result<String, DockerApiError>)
    ensures
        match json_text(document@) {
            Some(text) => r matches Ok(body) && body@ == text,
            None => r matches Err(DockerApiError::JsonSerializationError(e)) && e is Syntax,
        },
{
    match render(document) {
        Ok(body) => Ok(body),
        Err(e) => Err(DockerApiError::JsonSerializationError(e)),
    }
}

/// The error for a response whose status code is not the one an operation expects.
pub fn invalid_api_resp(res: Response) -> (e: DockerApiError)
    ensures
        e == DockerApiError::InvalidApiResponseError(res.status_code, res.body),
{
    DockerApiError::InvalidApiResponseError(res.status_code, res.body)
}

/// What a response means to an operation whose success code is `expected`:
/// the body on that code, and on any other code the error that carries the
/// code and the body received.
pub open spec fn status_outcome(res: Response, expected: usize) -> Result<String, DockerApiError> {
    if res.status_code == expected {
        Ok(res.body)
    } else {
        Err(DockerApiError::InvalidApiResponseError(res.status_code, res.body))
    }
}

/// Holds a response against the one status code that means success.
pub fn expect_status(res: Response, expected: usize) -> (r: Result<String, DockerApiError>)
    ensures
        r == status_outcome(res, expected),
{
    if res.status_code != expected {
        return Err(invalid_api_resp(res));
    }
    Ok(res.body)
}

/// What a response means to an operation that answers with a fixed text on
/// the status code `expected`: the text on that code, whatever the body
/// holds, and on any other code the error with the code and body received.
pub open spec fn is_confirmation(
    res: Response,
    expected: usize,
    text: Seq<char>,
    r: Result<String, DockerApiError>,
) -> bool {
    if res.status_code == expected {
        r matches Ok(said) && said@ == text
    } else {
        r == Err::<String, DockerApiError>(
            DockerApiError::InvalidApiResponseError(res.status_code, res.body),
        )
    }
}

/// [`is_confirmation`] for the outcome of an exchange: a failure to get a
/// response is handed on as it is.
pub open spec fn is_confirmed_reply(
    reply: Result<Response, DockerApiError>,
    expected: usize,
    text: Seq<char>,
    r: Result<String, DockerApiError>,
) -> bool {
    match reply {
        Ok(res) => is_confirmation(res, expected, text, r),
        Err(e) => r == Err::<String, DockerApiError>(e),
    }
}

/// What an operation gives that makes one exchange through `client` and
/// answers with a fixed text on the status code `expected`.
pub open spec fn is_confirmed_exchange<C: Client + ?Sized>(
    client: &C,
    path: Seq<char>,
    method: Method,
    body: Option<Seq<char>>,
    expected: usize,
    text: Seq<char>,
    r: Result<String, DockerApiError>,
) -> bool {
    exists|reply: Result<Response, DockerApiError>| #[trigger]
        is_exchange(client, path, method, body, reply) && is_confirmed_reply(
            reply,
            expected,
            text,
            r,
        )
}

/// Answers a response with `text` where its status code is `expected`.
pub fn confirm_response(res: Response, expected: usize, text: &str) -> (r: Result<
    String,
    DockerApiError,
>)
    ensures
        is_confirmation(res, expected, text@, r),
{
    match expect_status(res, expected) {
        Ok(_) => Ok(String::from_str(text)),
        Err(e) => Err(e),
    }
}

/// What a response means to an operation that answers with a record on the
/// status code `expected`. On another code: the error with the code and
/// body received. On that code: the record that the body holds; where the
/// body is no JSON text, or JSON of another shape, the error that says which.
pub open spec fn is_record<T: Decode>(
    res: Response,
    expected: usize,
    r: Result<T, DockerApiError>,
) -> bool {
    if res.status_code != expected {
        r == Err::<T, DockerApiError>(
            DockerApiError::InvalidApiResponseError(res.status_code, res.body),
        )
    } else {
        match json_document(res.body@) {
            None => r matches Err(DockerApiError::JsonDeserializationError(e)) && e is Syntax,
            Some(document) => match T::decoded(document) {
                Some(value) => r matches Ok(record) && record.deep_view() == value,
                None => r matches Err(DockerApiError::JsonDeserializationError(e))
                    && e is UnexpectedShape,
            },
        }
    }
}

/// [`is_record`] for the outcome of an exchange: a failure to get a response
/// is handed on as it is.
pub open spec fn is_record_reply<T: Decode>(
    reply: Result<Response, DockerApiError>,
    expected: usize,
    r: Result<T, DockerApiError>,
) -> bool {
    match reply {
        Ok(res) => is_record::<T>(res, expected, r),
        Err(e) => r == Err::<T, DockerApiError>(e),
    }
}

/// What an operation gives that makes one exchange through `client` and
/// answers with a record on the status code `expected`.
pub open spec fn is_record_exchange<T: Decode, C: Client + ?Sized>(
    client: &C,
    path: Seq<char>,
    method: Method,
    body: Option<Seq<char>>,
    expected: usize,
    r: Result<T, DockerApiError>,
) -> bool {
    exists|reply: Result<Response, DockerApiError>| #[trigger]
        is_exchange(client, path, method, body, reply) && is_record_reply::<T>(
            reply,
            expected,
            r,
        )
}

/// Reads the record out of a response whose status code is `expected`.
pub fn decode_response<T: Decode>(res: Response, expected: usize) -> (r: Result<T, DockerApiError>)
    ensures
        is_record::<T>(res, expected, r),
{
    let body = match expect_status(res, expected) {
        Ok(body) => body,
        Err(e) => {
            return Err(e);
        },
    };
    let document = match parse(body.as_str()) {
        Ok(document) => document,
        Err(e) => {
            return Err(DockerApiError::JsonDeserializationError(e));
        },
    };
    match T::from_json(&document) {
        Ok(record) => Ok(record),
        Err(e) => Err(DockerApiError::JsonDeserializationError(e)),
    }
}

/// [`decode_response`] for the outcome of an exchange.
pub fn decode_reply<T: Decode>(reply: Result<Response, DockerApiError>, expected: usize) -> (r:
    Result<T, DockerApiError>)
    ensures
        is_record_reply::<T>(reply, expected, r),
{
    match reply {
        Ok(res) => decode_response::<T>(res, expected),
        Err(e) => Err(e),
    }
}

/// [`confirm_response`] for the outcome of an exchange.
pub fn confirm_reply(reply: Result<Response, DockerApiError>, expected: usize, text: &str) -> (r:
    Result<String, DockerApiError>)
    ensures
        is_confirmed_reply(reply, expected, text@, r),
{
    match reply {
        Ok(res) => confirm_response(res, expected, text),
        Err(e) => Err(e),
    }
}

/// No response with another status code than the expected one is taken for
/// a record: what comes out is the error with exactly the code and the body
/// that were received.
pub proof fn lemma_other_status_gives_no_record<T: Decode>(
    res: Response,
    expected: usize,
    r: Result<T, DockerApiError>,
)
    requires
        res.status_code != expected,
        is_record::<T>(res, expected, r),
    ensures
        r == Err::<T, DockerApiError>(
            DockerApiError::InvalidApiResponseError(res.status_code, res.body),
        ),
{
}

/// No response with another status code than the expected one is confirmed:
/// what comes out is the error with exactly the code and the body that were
/// received.
pub proof fn lemma_other_status_is_not_confirmed(
    res: Response,
    expected: usize,
    text: Seq<char>,
    r: Result<String, DockerApiError>,
)
    requires
        res.status_code != expected,
        is_confirmation(res, expected, text, r),
    ensures
        r == Err::<String, DockerApiError>(
            DockerApiError::InvalidApiResponseError(res.status_code, res.body),
        ),
{
}

/// A response with the expected status code and a body that holds a record
/// gives that record.
pub proof fn lemma_expected_status_gives_the_record<T: Decode>(
    res: Response,
    expected: usize,
    r: Result<T, DockerApiError>,
    document: JsonView,
)
    requires
        res.status_code == expected,
        json_document(res.body@) == Some(document),
        T::decoded(document) is Some,
        is_record::<T>(res, expected, r),
    ensures
        r is Ok,
        Some(r->Ok_0.deep_view()) == T::decoded(document),
{
}

/// A response with the expected status code is confirmed, whatever its body
/// holds.
pub proof fn lemma_expected_status_is_confirmed(
    res: Response,
    expected: usize,
    text: Seq<char>,
    r: Result<String, DockerApiError>,
)
    requires
        res.status_code == expected,
        is_confirmation(res, expected, text, r),
    ensures
        r is Ok,
        r->Ok_0@ == text,
{
}

} // verus!
