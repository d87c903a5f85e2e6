//! Who is asking: credentials from a request, and their check against what
//! is stored.

use base64::Engine;
use vstd::prelude::*;
use vstd::string::*;
use vstd::utf8::{decode_utf8, encode_utf8, valid_utf8};

verus! {

broadcast use vstd::string::group_string_axioms;

/// A user name and a password as they were presented.
#[derive(Debug)]
pub struct Credentials {
    pub username: String,
    pub password: String,
}

/// Why credentials were not accepted.
#[derive(Debug)]
pub enum AuthError {
    /// The user is unknown or the password is wrong.
    InvalidCredentials(String),
    /// The check itself failed.
    UnexpectedError(String),
}

/// The `Authorization` header of a request, as far as it could be read.
#[derive(Debug)]
pub enum AuthorizationHeader {
    /// The request has no such header.
    Missing,
    /// The header's value is not text.
    NotText,
    /// The header's value.
    Text(String),
}

/// Why a request carries no usable `Basic` credentials.
#[derive(Debug, Clone, Copy, PartialEq, Eq, Structural)]
pub enum CredentialsError {
    MissingHeader,
    HeaderNotText,
    NotBasic,
    NotBase64,
    CredentialsNotUtf8,
    MissingPassword,
}

impl CredentialsError {
    /// What the log is told.
    pub fn message(&self) -> (message: &'static str)
        ensures
            message@ == (match *self {
                CredentialsError::MissingHeader => "The 'Authorization' headers was missing."@,
                CredentialsError::HeaderNotText =>
                    "The 'Authorization' header was not a valid UTF-8 string."@,
                CredentialsError::NotBasic => "The authorization scheme was not 'Basic'."@,
                CredentialsError::NotBase64 => "Failed to base64-decode 'Basic' credentials."@,
                CredentialsError::CredentialsNotUtf8 =>
                    "The decoded credential string is not valid UTF-8."@,
                CredentialsError::MissingPassword =>
                    "A password must be provided in 'Basic' auth."@,
            }),
    {
        match self {
            CredentialsError::MissingHeader => "The 'Authorization' headers was missing.",
            CredentialsError::HeaderNotText => {
                "The 'Authorization' header was not a valid UTF-8 string."
            },
            CredentialsError::NotBasic => "The authorization scheme was not 'Basic'.",
            CredentialsError::NotBase64 => "Failed to base64-decode 'Basic' credentials.",
            CredentialsError::CredentialsNotUtf8 => {
                "The decoded credential string is not valid UTF-8."
            },
            CredentialsError::MissingPassword => "A password must be provided in 'Basic' auth.",
        }
    }
}

/// The bytes that the standard base64 alphabet with padding encodes as `s`,
/// or `None` where `s` is no such encoding.
pub uninterp spec fn base64_decoded(s: Seq<char>) -> Option<Seq<u8>>;

/// Calls `decode` of `base64::engine::general_purpose::STANDARD`.
#[verifier::external_body]
fn decode_base64(s: &str) -> (decoded: Option<Vec<u8>>)
    ensures
        decoded is Some <==> base64_decoded(s@) is Some,
        decoded matches Some(bytes) ==> base64_decoded(s@) == Some(bytes@),
{
    match base64::engine::general_purpose::STANDARD.decode(s) {
        Ok(bytes) => Some(bytes),
        Err(_) => None,
    }
}

/// Calls `String::from_utf8`: the text that the bytes encode, or `None`
/// where they are not valid UTF-8.
#[verifier::external_body]
fn string_from_utf8(bytes: Vec<u8>) -> (text: Option<String>)
    ensures
        text is Some <==> valid_utf8(bytes@),
        text matches Some(decoded) ==> decoded@ == decode_utf8(bytes@),
{
    match String::from_utf8(bytes) {
        Ok(text) => Some(text),
        Err(_) => None,
    }
}

/// The position of the first colon in `text`, or the length of `text`
/// where it has none.
pub open spec fn colon_index(text: Seq<char>) -> int
    decreases text.len(),
{
    if text.len() == 0 || text[0] == ':' {
        0
    } else {
        1 + colon_index(text.drop_first())
    }
}

/// The first colon index is where the first colon stands.
pub proof fn lemma_colon_index(text: Seq<char>, at: int)
    requires
        0 <= at <= text.len(),
        forall|i: int| 0 <= i < at ==> text[i] != ':',
        at < text.len() ==> text[at] == ':',
    ensures
        colon_index(text) == at,
    decreases text.len(),
{
    if text.len() > 0 && text[0] != ':' {
        let rest = text.drop_first();
        assert forall|i: int| 0 <= i < at - 1 implies rest[i] != ':' by {
            assert(rest[i] == text[i + 1]);
        }
        lemma_colon_index(rest, at - 1);
    }
}

/// The six characters with which `Basic` credentials begin.
pub open spec fn basic_prefix() -> Seq<char> {
    seq!['B', 'a', 's', 'i', 'c', ' ']
}

/// The position of the first colon in `text`, if it has one.
pub fn find_colon(text: &str) -> (found: Option<usize>)
    ensures
        match found {
            Some(at) => at == colon_index(text@) && at < text@.len(),
            None => colon_index(text@) == text@.len(),
        },
{
    let mut rest = text.chars();
    let ghost mut seen: int = 0;
    let mut at: usize = 0;
    let length = text.unicode_len();
    loop
        invariant
            0 <= seen <= text@.len(),
            at == seen,
            length == text@.len(),
            vstd::std_specs::iter::IteratorSpec::remaining(&rest) == text@.skip(seen),
            forall|i: int| 0 <= i < seen ==> text@[i] != ':',
        decreases text@.len() - seen,
    {
        match rest.next() {
            Some(c) => {
                assert(c == text@.skip(seen)[0]);
                if c == ':' {
                    proof {
                        lemma_colon_index(text@, seen);
                    }
                    return Some(at);
                }
                proof {
                    assert(text@.skip(seen).drop_first() =~= text@.skip(seen + 1));
                    seen = seen + 1;
                }
                at += 1;
            },
            None => {
                assert(text@.skip(seen).len() == 0);
                proof {
                    lemma_colon_index(text@, seen);
                }
                return None;
            },
        }
    }
}

/// Reads user name and password from the `Authorization` header of a
/// request with `Basic` authentication.
///
/// The header's value must begin with `Basic ` and go on with the base64
/// encoding of a UTF-8 text. The user name is what stands before the first
/// colon of that text, the password is all that follows it. The error names
/// the first of these that does not hold.
pub fn basic_authentication(header: AuthorizationHeader) -> (read: Result<
    Credentials,
    CredentialsError,
>)
    ensures
        match read {
            Ok(credentials) => {
                &&& header matches AuthorizationHeader::Text(value)
                &&& basic_prefix().is_prefix_of(value@)
                &&& base64_decoded(value@.skip(6)) matches Some(bytes)
                &&& valid_utf8(bytes)
                &&& colon_index(decode_utf8(bytes)) < decode_utf8(bytes).len()
                &&& credentials.username@ == decode_utf8(bytes).take(
                    colon_index(decode_utf8(bytes)),
                )
                &&& credentials.password@ == decode_utf8(bytes).skip(
                    colon_index(decode_utf8(bytes)) + 1,
                )
            },
            Err(CredentialsError::MissingHeader) => header is Missing,
            Err(CredentialsError::HeaderNotText) => header is NotText,
            Err(CredentialsError::NotBasic) => header matches AuthorizationHeader::Text(value)
                && !basic_prefix().is_prefix_of(value@),
            Err(CredentialsError::NotBase64) => {
                &&& header matches AuthorizationHeader::Text(value)
                &&& basic_prefix().is_prefix_of(value@)
                &&& base64_decoded(value@.skip(6)) is None
            },
            Err(CredentialsError::CredentialsNotUtf8) => {
                &&& header matches AuthorizationHeader::Text(value)
                &&& basic_prefix().is_prefix_of(value@)
                &&& base64_decoded(value@.skip(6)) matches Some(bytes)
                &&& !valid_utf8(bytes)
            },
            Err(CredentialsError::MissingPassword) => {
                &&& header matches AuthorizationHeader::Text(value)
                &&& basic_prefix().is_prefix_of(value@)
                &&& base64_decoded(value@.skip(6)) matches Some(bytes)
                &&& valid_utf8(bytes)
                &&& colon_index(decode_utf8(bytes)) == decode_utf8(bytes).len()
            },
        },
{
    let value = match header {
        AuthorizationHeader::Missing => {
            return Err(CredentialsError::MissingHeader);
        },
        AuthorizationHeader::NotText => {
            return Err(CredentialsError::HeaderNotText);
        },
        AuthorizationHeader::Text(value) => value,
    };
    let header_value = value.as_str();
    let length = header_value.unicode_len();
    if length < 6 || header_value.get_char(0) != 'B' || header_value.get_char(1) != 'a'
        || header_value.get_char(2) != 's' || header_value.get_char(3) != 'i'
        || header_value.get_char(4) != 'c' || header_value.get_char(5) != ' ' {
        assert(!basic_prefix().is_prefix_of(value@)) by {
            if basic_prefix().is_prefix_of(value@) {
                assert(forall|i: int| 0 <= i < 6 ==> value@[i] == basic_prefix()[i]);
            }
        }
        return Err(CredentialsError::NotBasic);
    }
    assert(basic_prefix().is_prefix_of(value@)) by {
        assert(value@.subrange(0, 6) =~= basic_prefix());
    }
    let base64encoded_segment = header_value.substring_char(6, length);
    assert(base64encoded_segment@ =~= value@.skip(6));
    let decoded_bytes = match decode_base64(base64encoded_segment) {
        Some(bytes) => bytes,
        None => {
            return Err(CredentialsError::NotBase64);
        },
    };
    let ghost bytes = decoded_bytes@;
    let decoded_credentials = match string_from_utf8(decoded_bytes) {
        Some(text) => text,
        None => {
            return Err(CredentialsError::CredentialsNotUtf8);
        },
    };
    let text = decoded_credentials.as_str();
    let at = match find_colon(text) {
        Some(at) => at,
        None => {
            return Err(CredentialsError::MissingPassword);
        },
    };
    let size = text.unicode_len();
    let username = text.substring_char(0, at).to_owned();
    let password = text.substring_char(at + 1, size).to_owned();
    assert(username@ =~= text@.take(at as int));
    assert(password@ =~= text@.skip(at as int + 1));
    let credentials = Credentials { username, password };
    Ok(credentials)
}

/// Whether `password_hash::PasswordHash::new` reads `hash` as a hash in PHC
/// string format.
pub uninterp spec fn is_phc_string(hash: Seq<char>) -> bool;

/// Whether Argon2 with its default parameters finds that `password` is the
/// password behind the PHC string `hash`.
pub uninterp spec fn argon2_accepts(hash: Seq<char>, password: Seq<u8>) -> bool;

/// Calls `password_hash::PasswordHash::new` and tells whether it succeeded.
#[verifier::external_body]
fn parses_as_phc(hash: &str) -> (parsed: bool)
    ensures
        parsed == is_phc_string(hash@),
{
    argon2::PasswordHash::new(hash).is_ok()
}

/// Calls `verify_password` of `argon2::Argon2::default()` on the bytes of
/// `password` and the parsed `hash`, and tells whether it succeeded.
#[verifier::external_body]
fn argon2_verify(hash: &str, password: &str) -> (accepted: bool)
    requires
        is_phc_string(hash@),
    ensures
        accepted == argon2_accepts(hash@, encode_utf8(password@)),
{
    match argon2::PasswordHash::new(hash) {
        Ok(parsed) => argon2::PasswordVerifier::verify_password(
            &argon2::Argon2::default(),
            password.as_bytes(),
            &parsed,
        ).is_ok(),
        Err(_) => false,
    }
}

/// Checks a password against a stored hash.
///
/// A hash that is no PHC string is an unexpected error; a password that the
/// hash does not accept is an authentication failure.
pub fn verify_password_hash(expected_password_hash: &str, password_candidate: &str) -> (verified:
    Result<(), AuthError>)
    ensures
        match verified {
            Ok(_) => is_phc_string(expected_password_hash@) && argon2_accepts(
                expected_password_hash@,
                encode_utf8(password_candidate@),
            ),
            Err(AuthError::UnexpectedError(message)) => !is_phc_string(expected_password_hash@)
                && message@ == "Failed to parse hash in PHC string format."@,
            Err(AuthError::InvalidCredentials(message)) => is_phc_string(expected_password_hash@)
                && !argon2_accepts(expected_password_hash@, encode_utf8(password_candidate@))
                && message@ == "Invalid password."@,
        },
{
    if !parses_as_phc(expected_password_hash) {
        return Err(
            AuthError::UnexpectedError(
                String::from_str("Failed to parse hash in PHC string format."),
            ),
        );
    }
    if !argon2_verify(expected_password_hash, password_candidate) {
        return Err(AuthError::InvalidCredentials(String::from_str("Invalid password.")));
    }
    Ok(())
}

/// Checks credentials against what is stored for their user name: the id of
/// the user and the hash of the password, if the name is known.
///
/// An unknown user name is an authentication failure; for a known one the
/// password is checked as `verify_password_hash` says, and the id of the user
/// comes back where it is accepted.
pub fn validate_credentials(stored: Option<(u128, String)>, credentials: &Credentials) -> (validated:
    Result<u128, AuthError>)
    ensures
        match validated {
            Ok(user_id) => {
                &&& stored matches Some(row)
                &&& user_id == row.0
                &&& is_phc_string(row.1@)
                &&& argon2_accepts(row.1@, encode_utf8(credentials.password@))
            },
            Err(AuthError::UnexpectedError(message)) => {
                &&& stored matches Some(row)
                &&& !is_phc_string(row.1@)
                &&& message@ == "Failed to parse hash in PHC string format."@
            },
            Err(AuthError::InvalidCredentials(message)) => match stored {
                None => message@ == "Unknown username."@,
                Some(row) => is_phc_string(row.1@) && !argon2_accepts(
                    row.1@,
                    encode_utf8(credentials.password@),
                ) && message@ == "Invalid password."@,
            },
        },
{
    let (user_id, expected_password_hash) = match stored {
        Some(row) => row,
        None => {
            return Err(AuthError::InvalidCredentials(String::from_str("Unknown username.")));
        },
    };
    match verify_password_hash(expected_password_hash.as_str(), credentials.password.as_str()) {
        Ok(_) => Ok(user_id),
        Err(error) => Err(error),
    }
}

} // verus!
