//! The cached outcome of a publish request, and its stored form.

use crate::database::store::Database;
use crate::idempotency::key::IdempotencyKey;
use vstd::prelude::*;
use vstd::string::*;

verus! {

/// One response header as it is stored: a name and the raw bytes of its value.
#[derive(Debug)]
pub struct HeaderPairRecord {
    pub name: String,
    pub value: Vec<u8>,
}

impl View for HeaderPairRecord {
    type V = (Seq<char>, Seq<u8>);

    open spec fn view(&self) -> (Seq<char>, Seq<u8>) {
        (self.name@, self.value@)
    }
}

impl Clone for HeaderPairRecord {
    fn clone(&self) -> (copy: Self)
        ensures
            copy@ == self@,
    {
        let value = self.value.clone();
        assert(value@ =~= self.value@);
        HeaderPairRecord { name: self.name.clone(), value }
    }
}

/// A list of header pairs as a sequence of plain pairs, in the same order.
pub open spec fn headers_view(headers: Seq<HeaderPairRecord>) -> Seq<(Seq<char>, Seq<u8>)> {
    headers.map_values(|pair: HeaderPairRecord| pair@)
}

/// Copies a list of header pairs.
pub fn clone_headers(headers: &Vec<HeaderPairRecord>) -> (copy: Vec<HeaderPairRecord>)
    ensures
        headers_view(copy@) == headers_view(headers@),
{
    let mut copy: Vec<HeaderPairRecord> = Vec::new();
    let mut i: usize = 0;
    while i < headers.len()
        invariant
            0 <= i <= headers.len(),
            copy.len() == i,
            forall|j: int| 0 <= j < i ==> (#[trigger] copy[j])@ == headers[j]@,
        decreases headers.len() - i,
    {
        copy.push(headers[i].clone());
        i += 1;
    }
    assert(headers_view(copy@) =~= headers_view(headers@));
    copy
}

/// A complete HTTP response as plain values.
pub struct ResponseView {
    pub status: u16,
    pub headers: Seq<(Seq<char>, Seq<u8>)>,
    pub body: Seq<u8>,
}

/// Why stored values do not make up a response.
#[derive(Debug, Clone, Copy, PartialEq, Eq, Structural)]
pub enum RecordError {
    /// The status code lies outside 100 to 999.
    InvalidStatus,
    /// The header at this position has a name that is no header name.
    InvalidHeaderName(usize),
    /// The header at this position has a value with a forbidden byte.
    InvalidHeaderValue(usize),
}

/// Whether `code` is an HTTP status code: from 100 to 999.
pub open spec fn status_is_valid(code: int) -> bool {
    100 <= code < 1000
}

/// Whether all of `value` may stand in a header value: no control byte
/// other than the horizontal tab.
pub open spec fn header_value_is_valid(value: Seq<u8>) -> bool {
    forall|i: int| 0 <= i < value.len() ==> (#[trigger] value[i] >= 32 && value[i] != 127) || value[i] == 9
}

/// The normalized spelling under which `http` keeps the header name `name`,
/// or `None` where it refuses `name`.
pub uninterp spec fn canonical_header_name(name: Seq<char>) -> Option<Seq<char>>;

/// Whether a stored header pair can be put into a response.
pub open spec fn header_is_valid(header: (Seq<char>, Seq<u8>)) -> bool {
    canonical_header_name(header.0) is Some && header_value_is_valid(header.1)
}

/// The header pair of the response that a valid stored pair stands for.
pub open spec fn decoded_header(header: (Seq<char>, Seq<u8>)) -> (Seq<char>, Seq<u8>) {
    (canonical_header_name(header.0).unwrap(), header.1)
}

/// Calls `http::StatusCode::from_u16`, which accepts exactly the codes that
/// are at least 100 and less than 1000.
#[verifier::external_body]
fn status_code_is_accepted(code: u16) -> (accepted: bool)
    ensures
        accepted == status_is_valid(code as int),
{
    http::StatusCode::from_u16(code).is_ok()
}

/// Calls `http::header::HeaderName::from_bytes` on the bytes of `name` and
/// hands back the spelling of the name it made, or `None` where it refused.
/// What that spelling is stays unstated: the result is only given its name.
#[verifier::external_body]
fn parse_header_name(name: &str) -> (parsed: Option<String>)
    ensures
        parsed is Some <==> canonical_header_name(name@) is Some,
        parsed matches Some(spelling) ==> canonical_header_name(name@) == Some(spelling@),
{
    match http::header::HeaderName::from_bytes(name.as_bytes()) {
        Ok(parsed) => Some(parsed.as_str().to_owned()),
        Err(_) => None,
    }
}

/// Calls `http::header::HeaderValue::from_bytes`, which refuses a value
/// exactly when one of its bytes is below 32 and no tab, or is 127.
#[verifier::external_body]
fn header_value_is_accepted(value: &[u8]) -> (accepted: bool)
    ensures
        accepted == header_value_is_valid(value@),
{
    http::header::HeaderValue::from_bytes(value).is_ok()
}

/// The response that was produced for a publish request, kept so that a
/// repeated request can be answered with the same status, headers and body.
#[derive(Debug)]
pub struct CachedResponse {
    status: u16,
    headers: Vec<HeaderPairRecord>,
    body: Vec<u8>,
}

impl View for CachedResponse {
    type V = ResponseView;

    closed spec fn view(&self) -> ResponseView {
        ResponseView { status: self.status, headers: headers_view(self.headers@), body: self.body@ }
    }
}

impl Clone for CachedResponse {
    fn clone(&self) -> (copy: Self)
        ensures
            copy@ == self@,
    {
        proof {
            use_type_invariant(self);
        }
        let body = self.body.clone();
        assert(body@ =~= self.body@);
        CachedResponse { status: self.status, headers: clone_headers(&self.headers), body }
    }
}

impl CachedResponse {
    #[verifier::type_invariant]
    spec fn well_formed(self) -> bool {
        status_is_valid(self.status as int)
    }

    /// Builds a response from a status code, header pairs and a body.
    ///
    /// Succeeds exactly when the status code is valid and every header has a
    /// valid name and value. Header names are stored in their normalized
    /// spelling; order and multiplicity are kept. The error names the first
    /// thing found wrong: the status, else the first invalid header.
    pub fn new(status: u16, headers: Vec<HeaderPairRecord>, body: Vec<u8>) -> (made: Result<
        CachedResponse,
        RecordError,
    >)
        ensures
            made is Ok <==> status_is_valid(status as int) && forall|i: int|
                0 <= i < headers.len() ==> header_is_valid(#[trigger] headers[i]@),
            made matches Ok(response) ==> response@ == (ResponseView {
                status,
                headers: headers_view(headers@).map_values(
                    |h: (Seq<char>, Seq<u8>)| decoded_header(h),
                ),
                body: body@,
            }),
            made matches Err(error) ==> match error {
                RecordError::InvalidStatus => !status_is_valid(status as int),
                RecordError::InvalidHeaderName(at) => {
                    &&& status_is_valid(status as int)
                    &&& at < headers.len()
                    &&& forall|i: int| 0 <= i < at ==> header_is_valid(#[trigger] headers[i]@)
                    &&& canonical_header_name(headers[at as int].name@) is None
                },
                RecordError::InvalidHeaderValue(at) => {
                    &&& status_is_valid(status as int)
                    &&& at < headers.len()
                    &&& forall|i: int| 0 <= i < at ==> header_is_valid(#[trigger] headers[i]@)
                    &&& canonical_header_name(headers[at as int].name@) is Some
                    &&& !header_value_is_valid(headers[at as int].value@)
                },
            },
    {
        if !status_code_is_accepted(status) {
            return Err(RecordError::InvalidStatus);
        }
        let mut decoded: Vec<HeaderPairRecord> = Vec::new();
        let mut i: usize = 0;
        while i < headers.len()
            invariant
                0 <= i <= headers.len(),
                decoded.len() == i,
                status_is_valid(status as int),
                forall|j: int| 0 <= j < i ==> header_is_valid(#[trigger] headers[j]@),
                forall|j: int| 0 <= j < i ==> (#[trigger] decoded[j])@ == decoded_header(headers[j]@),
            decreases headers.len() - i,
        {
            let name = match parse_header_name(headers[i].name.as_str()) {
                Some(name) => name,
                None => {
                    assert(!header_is_valid(headers[i as int]@));
                    return Err(RecordError::InvalidHeaderName(i));
                },
            };
            if !header_value_is_accepted(headers[i].value.as_slice()) {
                assert(!header_is_valid(headers[i as int]@));
                return Err(RecordError::InvalidHeaderValue(i));
            }
            let value = headers[i].value.clone();
            assert(value@ =~= headers[i as int].value@);
            decoded.push(HeaderPairRecord { name, value });
            i += 1;
        }
        assert(headers_view(decoded@) =~= headers_view(headers@).map_values(
            |h: (Seq<char>, Seq<u8>)| decoded_header(h),
        ));
        Ok(CachedResponse { status, headers: decoded, body })
    }

    /// Rebuilds the response from the columns of a stored record: `new` on
    /// the status code where it is not negative, `InvalidStatus` where it is.
    pub fn from_record(status_code: i16, headers: Vec<HeaderPairRecord>, body: Vec<u8>) -> (made:
        Result<CachedResponse, RecordError>)
        ensures
            made is Ok <==> status_is_valid(status_code as int) && forall|i: int|
                0 <= i < headers.len() ==> header_is_valid(#[trigger] headers[i]@),
            made matches Ok(response) ==> response@ == (ResponseView {
                status: status_code as u16,
                headers: headers_view(headers@).map_values(
                    |h: (Seq<char>, Seq<u8>)| decoded_header(h),
                ),
                body: body@,
            }),
            made matches Err(error) ==> match error {
                RecordError::InvalidStatus => !status_is_valid(status_code as int),
                RecordError::InvalidHeaderName(at) => {
                    &&& status_is_valid(status_code as int)
                    &&& at < headers.len()
                    &&& forall|i: int| 0 <= i < at ==> header_is_valid(#[trigger] headers[i]@)
                    &&& canonical_header_name(headers[at as int].name@) is None
                },
                RecordError::InvalidHeaderValue(at) => {
                    &&& status_is_valid(status_code as int)
                    &&& at < headers.len()
                    &&& forall|i: int| 0 <= i < at ==> header_is_valid(#[trigger] headers[i]@)
                    &&& canonical_header_name(headers[at as int].name@) is Some
                    &&& !header_value_is_valid(headers[at as int].value@)
                },
            },
    {
        if status_code < 0 {
            return Err(RecordError::InvalidStatus);
        }
        CachedResponse::new(status_code as u16, headers, body)
    }

    /// The columns under which the response is stored: status code, header
    /// pairs in order, body.
    pub fn to_record(&self) -> (columns: (i16, Vec<HeaderPairRecord>, Vec<u8>))
        ensures
            columns.0 == self@.status,
            headers_view(columns.1@) == self@.headers,
            columns.2@ == self@.body,
    {
        proof {
            use_type_invariant(self);
        }
        let body = self.body.clone();
        assert(body@ =~= self.body@);
        (self.status as i16, clone_headers(&self.headers), body)
    }

    /// The status code, between 100 and 999.
    pub fn status(&self) -> (status: u16)
        ensures
            status == self@.status,
            status_is_valid(status as int),
    {
        proof {
            use_type_invariant(self);
        }
        self.status
    }

    /// The headers in order, names in normalized spelling.
    pub fn headers(&self) -> (headers: &Vec<HeaderPairRecord>)
        ensures
            headers_view(headers@) == self@.headers,
    {
        &self.headers
    }

    /// The body.
    pub fn body(&self) -> (body: &Vec<u8>)
        ensures
            body@ == self@.body,
    {
        &self.body
    }
}

/// What a publish request does once it has tried to claim its key.
#[derive(Debug)]
pub enum NextAction {
    /// The key was free and is now claimed: go on and publish.
    StartProcessing,
    /// The key was used before: answer with the response stored then.
    ReturnSavedResponse(CachedResponse),
}

/// The key is claimed by a request that has not stored its response yet.
#[derive(Debug, Clone, Copy, PartialEq, Eq, Structural)]
pub struct ResponseNotSaved;

/// Tries to claim `key` for `user_id` on the store in memory.
///
/// Where the key is free it is claimed, and the caller is to start
/// processing. Where it is taken the store stays as it is: the caller gets
/// the saved response, or `ResponseNotSaved` while the claimant has not
/// stored one.
pub fn try_processing(db: &mut Database, key: &IdempotencyKey, user_id: u128, now: i64) -> (next:
    Result<NextAction, ResponseNotSaved>)
    requires
        old(db).wf(),
    ensures
        final(db).wf(),
        match next {
            Ok(NextAction::StartProcessing) => old(db)@.is_free((user_id, key@)) && final(db)@
                == old(db)@.claim((user_id, key@), now),
            Ok(NextAction::ReturnSavedResponse(response)) => !old(db)@.is_free((user_id, key@))
                && old(db)@.saved_response((user_id, key@)) == Some(response@) && final(db)@
                == old(db)@,
            Err(_) => !old(db)@.is_free((user_id, key@)) && old(db)@.saved_response(
                (user_id, key@),
            ) is None && final(db)@ == old(db)@,
        },
{
    let n_inserted_rows = db.claim(key, user_id, now);
    if n_inserted_rows > 0 {
        Ok(NextAction::StartProcessing)
    } else {
        match db.get_saved_response(key, user_id) {
            Some(response) => Ok(NextAction::ReturnSavedResponse(response)),
            None => Err(ResponseNotSaved),
        }
    }
}

} // verus!
