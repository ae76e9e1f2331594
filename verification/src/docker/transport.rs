//! The computing half of one HTTP exchange over a Unix domain socket: what
//! to send, how the status line is captured from the header lines, and how
//! the body bytes become text. Whoever drives the socket feeds a [`Transfer`]
//! and gets a [`Response`](super::Response) out of it.

use super::errors::TransportError;
use super::Method;
use super::Response;
use vstd::prelude::*;
use vstd::slice::slice_to_vec;
use vstd::string::StringExecFns;
use vstd::utf8::decode_utf8;
use vstd::utf8::valid_utf8;

verus! {

/// `std::string::FromUtf8Error`, of which nothing is looked at.
#[verifier::external_type_specification]
#[verifier::external_body]
pub struct ExFromUtf8Error(std::string::FromUtf8Error);

/// `String::from_utf8`: succeeds exactly on well-formed UTF-8 and then holds
/// the characters that the bytes encode.
#[verifier::external_body]
fn string_from_utf8(bytes: Vec<u8>) -> (r: Result<String, std::string::FromUtf8Error>)
    ensures
        r is Ok <==> valid_utf8(bytes@),
        r matches Ok(s) ==> s@ == decode_utf8(bytes@),
{
    String::from_utf8(bytes)
}

// ---------------------------------------------------------------------------
// What to send
// ---------------------------------------------------------------------------
/// The socket that is used where none is configured.
pub open spec fn default_socket() -> Seq<char> {
    "/var/run/docker.sock"@
}

/// The socket to connect to: the configured one, else the default.
pub fn socket_path(configured: Option<String>) -> (path: String)
    ensures
        path@ == match configured {
            Some(p) => p@,
            None => default_socket(),
        },
{
    match configured {
        Some(p) => p,
        None => String::from_str("/var/run/docker.sock"),
    }
}

/// The request body that goes out: POST sends the given body, or an empty
/// one where none is given; no other method sends a body, given or not.
pub open spec fn payload_of(method: Method, body: Option<Seq<char>>) -> Option<Seq<char>> {
    match method {
        Method::POST => Some(
            match body {
                Some(b) => b,
                None => Seq::empty(),
            },
        ),
        _ => None,
    }
}

/// Everything the socket's driver has to set up for one exchange.
#[derive(Debug)]
pub struct Plan {
    /// The URL: the endpoint behind the placeholder `http`. Routing is by
    /// the socket, so nothing is looked up under that name.
    pub url: String,
    /// The one header line that every request carries.
    pub header: String,
    /// GET is a plain request, POST sends `payload`, DELETE is sent as a
    /// custom verb of that name.
    pub method: Method,
    /// The request body, present exactly for POST.
    pub payload: Option<String>,
}

/// What a [`Plan`] says, as plain values.
pub struct PlanView {
    pub url: Seq<char>,
    pub header: Seq<char>,
    pub method: Method,
    pub payload: Option<Seq<char>>,
}

impl View for Plan {
    type V = PlanView;

    open spec fn view(&self) -> PlanView {
        PlanView {
            url: self.url@,
            header: self.header@,
            method: self.method,
            payload: match self.payload {
                Some(p) => Some(p@),
                None => None,
            },
        }
    }
}

/// The plan for `method` on `api_endpoint` (query string included).
pub open spec fn plan_of(api_endpoint: Seq<char>, method: Method, body: Option<Seq<char>>) -> PlanView {
    PlanView {
        url: "http"@ + api_endpoint,
        header: "Content-Type: application/json"@,
        method: method,
        payload: payload_of(method, body),
    }
}

impl Plan {
    /// Plans one exchange.
    pub fn new(api_endpoint: &str, method: Method, body: Option<&str>) -> (plan: Plan)
        ensures
            plan@ == plan_of(api_endpoint@, method, super::opt_text(body)),
    {
        let mut url = String::from_str("http");
        url.append(api_endpoint);
        let payload = match method {
            Method::POST => Some(
                match body {
                    Some(b) => String::from_str(b),
                    None => String::new(),
                },
            ),
            _ => None,
        };
        Plan { url, header: String::from_str("Content-Type: application/json"), method, payload }
    }
}

// ---------------------------------------------------------------------------
// The status line
// ---------------------------------------------------------------------------
/// The byte that separates the parts of a status line.
pub open spec fn is_space(b: u8) -> bool {
    b == 0x20
}

/// An ASCII decimal digit.
pub open spec fn is_digit(b: u8) -> bool {
    0x30 <= b <= 0x39
}

/// The digit's value.
pub open spec fn digit_value(b: u8) -> nat {
    if is_digit(b) {
        (b - 0x30) as nat
    } else {
        0
    }
}

/// The number that a run of digits writes in base ten.
pub open spec fn digits_value(digits: Seq<u8>) -> nat
    decreases digits.len(),
{
    if digits.len() == 0 {
        0
    } else {
        digits_value(digits.drop_last()) * 10 + digit_value(digits.last())
    }
}

/// Whether every byte is a digit.
pub open spec fn all_digits(digits: Seq<u8>) -> bool {
    forall|i: int| 0 <= i < digits.len() ==> is_digit(#[trigger] digits[i])
}

/// What is left of a number's text once an optional `+` in front is taken off.
pub open spec fn unsigned_part(text: Seq<u8>) -> Seq<u8> {
    if text.len() > 0 && text[0] == 0x2b {
        text.subrange(1, text.len() as int)
    } else {
        text
    }
}

/// The number a text writes: an optional `+`, then one or more digits and
/// nothing else, with a value that a `usize` holds.
pub open spec fn decimal(text: Seq<u8>) -> Option<usize> {
    let digits = unsigned_part(text);
    if digits.len() > 0 && all_digits(digits) && digits_value(digits) <= usize::MAX {
        Some(digits_value(digits) as usize)
    } else {
        None
    }
}

/// Where the part that begins at `from` ends: at the first space at or
/// after `from`, or at the end of the line.
pub open spec fn part_end(line: Seq<u8>, from: int) -> int
    decreases line.len() - from,
{
    if from >= line.len() {
        line.len() as int
    } else if is_space(line[from]) {
        from
    } else {
        part_end(line, from + 1)
    }
}

/// The second of the parts that single spaces cut a header line into: on a
/// status line, the code. `None` where the line has no space, and so one part.
pub open spec fn second_part(line: Seq<u8>) -> Option<Seq<u8>> {
    let first_end = part_end(line, 0);
    if first_end >= line.len() {
        None
    } else {
        Some(line.subrange(first_end + 1, part_end(line, first_end + 1)))
    }
}

/// The status code that a header line gives: none where the line is one part
/// only, else the number that its second part writes.
pub open spec fn header_status(line: Seq<u8>) -> Result<Option<usize>, TransportError> {
    match second_part(line) {
        None => Ok(None),
        Some(code) => match decimal(code) {
            Some(status) => Ok(Some(status)),
            None => Err(TransportError::StatusLine),
        },
    }
}

/// A longer run of digits writes no smaller a number than any run it starts with.
pub proof fn lemma_digits_value_grows(digits: Seq<u8>, n: int)
    requires
        0 <= n <= digits.len(),
    ensures
        digits_value(digits.subrange(0, n)) <= digits_value(digits),
    decreases digits.len() - n,
{
    if n == digits.len() {
        assert(digits.subrange(0, n) == digits);
    } else {
        lemma_digits_value_grows(digits, n + 1);
        assert(digits.subrange(0, n + 1).drop_last() == digits.subrange(0, n));
    }
}

/// `part_end` is the one position at or after `from` with no space before it
/// and a space, or the line's end, at it.
pub proof fn lemma_part_end(line: Seq<u8>, from: int, end: int)
    requires
        0 <= from <= end <= line.len(),
        forall|k: int| from <= k < end ==> !is_space(#[trigger] line[k]),
        end == line.len() || is_space(line[end]),
    ensures
        part_end(line, from) == end,
    decreases end - from,
{
    if from < end {
        lemma_part_end(line, from + 1, end);
    }
}

/// Finds the end of the part that begins at `from`.
fn find_part_end(line: &[u8], from: usize) -> (end: usize)
    requires
        from <= line@.len(),
    ensures
        from <= end <= line@.len(),
        end == part_end(line@, from as int),
{
    let mut end: usize = from;
    while end < line.len() && line[end] != 0x20
        invariant
            from <= end <= line@.len(),
            forall|k: int| from <= k < end ==> !is_space(#[trigger] line@[k]),
        decreases line@.len() - end,
    {
        end = end + 1;
    }
    proof {
        lemma_part_end(line@, from as int, end as int);
    }
    end
}

/// Reads the number that a text writes.
pub fn parse_decimal(text: &[u8]) -> (r: Option<usize>)
    ensures
        r == decimal(text@),
{
    assert(text@.subrange(0, text@.len() as int) == text@);
    parse_decimal_in(text, 0, text.len())
}

/// Reads the number that the bytes from `start` up to `end` write.
fn parse_decimal_in(line: &[u8], start: usize, end: usize) -> (r: Option<usize>)
    requires
        start <= end <= line@.len(),
    ensures
        r == decimal(line@.subrange(start as int, end as int)),
{
    let ghost text = line@.subrange(start as int, end as int);
    let first: usize = if start < end && line[start] == 0x2b {
        start + 1
    } else {
        start
    };
    let ghost digits = unsigned_part(text);
    assert(digits == line@.subrange(first as int, end as int));
    if first == end {
        return None;
    }
    let mut value: usize = 0;
    let mut i: usize = first;
    while i < end
        invariant
            start <= first <= i <= end <= line@.len(),
            first < end,
            digits == unsigned_part(line@.subrange(start as int, end as int)),
            digits == line@.subrange(first as int, end as int),
            all_digits(digits.subrange(0, i - first)),
            value == digits_value(digits.subrange(0, i - first)),
        decreases end - i,
    {
        let b = line[i];
        if b < 0x30 || b > 0x39 {
            assert(!is_digit(digits[i - first]));
            return None;
        }
        let ghost seen = digits.subrange(0, i + 1 - first);
        proof {
            assert(seen.drop_last() == digits.subrange(0, i - first));
            assert(seen.last() == b);
            lemma_digits_value_grows(digits, i + 1 - first);
            assert forall|k: int| 0 <= k < seen.len() implies is_digit(#[trigger] seen[k]) by {
                if k < i - first {
                    assert(seen[k] == digits.subrange(0, i - first)[k]);
                }
            }
        }
        let next = match value.checked_mul(10) {
            Some(shifted) => shifted.checked_add((b - 0x30) as usize),
            None => None,
        };
        match next {
            Some(n) => {
                value = n;
            },
            None => {
                return None;
            },
        }
        i = i + 1;
    }
    assert(digits.subrange(0, end - first) == digits);
    Some(value)
}

/// Reads the status code off one header line.
pub fn parse_header_status(line: &[u8]) -> (r: Result<Option<usize>, TransportError>)
    ensures
        r == header_status(line@),
{
    let first_end = find_part_end(line, 0);
    if first_end >= line.len() {
        return Ok(None);
    }
    let second_end = find_part_end(line, first_end + 1);
    match parse_decimal_in(line, first_end + 1, second_end) {
        Some(status) => Ok(Some(status)),
        None => Err(TransportError::StatusLine),
    }
}

// ---------------------------------------------------------------------------
// The body
// ---------------------------------------------------------------------------
/// The text of a body as it was received: nothing where nothing came; else
/// the bytes without the last one, which the transfer puts behind the body,
/// read as UTF-8.
pub open spec fn body_text(raw: Seq<u8>) -> Result<Seq<char>, TransportError> {
    if raw.len() == 0 {
        Ok(Seq::empty())
    } else if valid_utf8(raw.drop_last()) {
        Ok(decode_utf8(raw.drop_last()))
    } else {
        Err(TransportError::BodyEncoding)
    }
}

/// Turns the bytes of a body into its text.
pub fn decode_body(raw: Vec<u8>) -> (r: Result<String, TransportError>)
    ensures
        match body_text(raw@) {
            Ok(text) => r matches Ok(s) && s@ == text,
            Err(e) => r == Err::<String, TransportError>(e),
        },
{
    let mut raw = raw;
    if raw.len() == 0 {
        return Ok(String::new());
    }
    raw.pop();
    match string_from_utf8(raw) {
        Ok(text) => Ok(text),
        Err(_) => Err(TransportError::BodyEncoding),
    }
}

// ---------------------------------------------------------------------------
// One transfer
// ---------------------------------------------------------------------------
/// What has been captured of a response so far.
#[derive(Debug)]
pub struct Transfer {
    status_code: usize,
    body: Vec<u8>,
}

/// A [`Transfer`] as plain values.
pub struct TransferView {
    /// The status code, 0 while none has been seen.
    pub status_code: usize,
    /// The body bytes received so far, in order.
    pub body: Seq<u8>,
}

impl View for Transfer {
    type V = TransferView;

    closed spec fn view(&self) -> TransferView {
        TransferView { status_code: self.status_code, body: self.body@ }
    }
}

/// The status code after a header line has come in, given the one held
/// before. Every line has to be UTF-8. While no code is held, the line is
/// read as a status line; once one is held, it stays.
pub open spec fn status_after(held: usize, line: Seq<u8>) -> Result<usize, TransportError> {
    if !valid_utf8(line) {
        Err(TransportError::HeaderEncoding)
    } else if held != 0 {
        Ok(held)
    } else {
        match header_status(line) {
            Ok(Some(status)) => Ok(status),
            Ok(None) => Ok(0),
            Err(e) => Err(e),
        }
    }
}

/// How a finished transfer turns out: a failure where no status code was
/// seen or the body is not text, else the response.
pub open spec fn outcome_of(transfer: TransferView) -> Result<(usize, Seq<char>), TransportError> {
    if transfer.status_code == 0 {
        Err(TransportError::NoStatus)
    } else {
        match body_text(transfer.body) {
            Ok(text) => Ok((transfer.status_code, text)),
            Err(e) => Err(e),
        }
    }
}

impl Transfer {
    /// A transfer of which nothing has come in yet.
    pub fn new() -> (transfer: Transfer)
        ensures
            transfer@ == (TransferView { status_code: 0, body: Seq::empty() }),
    {
        Transfer { status_code: 0, body: Vec::new() }
    }

    /// The status code captured so far, 0 for none.
    pub fn status_code(&self) -> (status: usize)
        ensures
            status == self@.status_code,
    {
        self.status_code
    }

    /// Takes in one header line. On a failure nothing changes.
    pub fn header(&mut self, line: &[u8]) -> (r: Result<(), TransportError>)
        ensures
            match status_after(old(self)@.status_code, line@) {
                Ok(status) => r is Ok && final(self)@ == (TransferView {
                    status_code: status,
                    body: old(self)@.body,
                }),
                Err(e) => r == Err::<(), TransportError>(e) && final(self)@ == old(self)@,
            },
    {
        match string_from_utf8(slice_to_vec(line)) {
            Ok(_) => {},
            Err(_) => {
                return Err(TransportError::HeaderEncoding);
            },
        }
        if self.status_code == 0 {
            match parse_header_status(line) {
                Ok(Some(status)) => {
                    self.status_code = status;
                },
                Ok(None) => {},
                Err(e) => {
                    return Err(e);
                },
            }
        }
        Ok(())
    }

    /// Takes in a piece of the body and says how many bytes it took: all of them.
    pub fn write(&mut self, data: &[u8]) -> (taken: usize)
        ensures
            taken == data@.len(),
            final(self)@ == (TransferView {
                status_code: old(self)@.status_code,
                body: old(self)@.body + data@,
            }),
    {
        let ghost before = self.body@;
        self.body.extend_from_slice(data);
        assert(self.body@ =~= before + data@);
        data.len()
    }

    /// Ends the transfer.
    pub fn finish(self) -> (r: Result<Response, TransportError>)
        ensures
            match outcome_of(self@) {
                Ok((status, text)) => r matches Ok(res) && res.status_code == status && res.body@
                    == text,
                Err(e) => r == Err::<Response, TransportError>(e),
            },
    {
        if self.status_code == 0 {
            return Err(TransportError::NoStatus);
        }
        let status_code = self.status_code;
        match decode_body(self.body) {
            Ok(body) => Ok(Response { status_code, body }),
            Err(e) => Err(e),
        }
    }
}

/// The status code held after all of `lines` have come in, one after the
/// other, given the one held before.
pub open spec fn status_after_all(held: usize, lines: Seq<Seq<u8>>) -> Result<usize, TransportError>
    decreases lines.len(),
{
    if lines.len() == 0 {
        Ok(held)
    } else {
        match status_after(held, lines[0]) {
            Ok(status) => status_after_all(status, lines.drop_first()),
            Err(e) => Err(e),
        }
    }
}

/// A status code, once captured, is never replaced: whatever well-formed
/// header lines follow, the code held stays the code held.
pub proof fn lemma_status_is_kept(held: usize, lines: Seq<Seq<u8>>)
    requires
        held != 0,
        forall|i: int| 0 <= i < lines.len() ==> valid_utf8(#[trigger] lines[i]),
    ensures
        status_after_all(held, lines) == Ok::<usize, TransportError>(held),
    decreases lines.len(),
{
    if lines.len() > 0 {
        assert(valid_utf8(lines[0]));
        let rest = lines.drop_first();
        assert forall|i: int| 0 <= i < rest.len() implies valid_utf8(#[trigger] rest[i]) by {
            assert(rest[i] == lines[i + 1]);
        }
        lemma_status_is_kept(held, rest);
    }
}

} // verus!
