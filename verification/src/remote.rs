//! The requests that the tracker sends to the remote service, and how it reads
//! the status of an answer.

use crate::error::CommandError;
use crate::model::{AuthToken, AuthTokenView};
use vstd::prelude::*;
use vstd::string::*;
use vstd::utf8::*;

verus! {

/// The address that accounts are created at.
pub open spec fn users_url_text() -> Seq<char> {
    "https://api.easyportfol.io/users/"@
}

/// The address that the rate of `quote` in `base` is asked at. The codes are
/// put in as they are.
pub open spec fn exchange_rate_url_text(quote: Seq<char>, base: Seq<char>) -> Seq<char> {
    "https://api.easyportfol.io/exchange_rates?quote="@ + quote + "&base="@ + base
}

/// The header value that presents the credential `id`.
pub open spec fn bearer_text(id: Seq<char>) -> Seq<char> {
    "Bearer "@ + id
}

/// A byte that may stand in an HTTP header value: a tab, or anything from the
/// space upwards but the delete character.
pub open spec fn header_byte(b: u8) -> bool {
    b == 9 || (b >= 32 && b != 127)
}

/// Every byte of the UTF-8 encoding of `text` may stand in a header value.
pub open spec fn header_bytes(text: Seq<char>) -> bool {
    forall|i: int| 0 <= i < encode_utf8(text).len() ==> header_byte(#[trigger] encode_utf8(text)[i])
}

/// A character that may stand in an HTTP header value: a tab, or any
/// character that is not an ASCII control character.
pub open spec fn header_char(c: char) -> bool {
    c == '\t' || (c >= ' ' && c != '\x7f')
}

/// Every character of `text` may stand in a header value.
pub open spec fn header_text(text: Seq<char>) -> bool {
    forall|i: int| 0 <= i < text.len() ==> header_char(#[trigger] text[i])
}

/// `reqwest::header::HeaderValue::from_str` takes a string exactly when each
/// byte of it is a tab, or is at least 32 and not 127.
#[verifier::external_body]
fn header_value_accepts(text: &str) -> (r: bool)
    ensures
        r == header_bytes(text@),
{
    reqwest::header::HeaderValue::from_str(text).is_ok()
}

/// `reqwest::StatusCode::from_u16` turns down what is under 100 or over 999,
/// and `is_success` holds of the codes from 200 to 299.
#[verifier::external_body]
fn status_is_success(status: u16) -> (r: bool)
    ensures
        r == (200 <= status < 300),
{
    match reqwest::StatusCode::from_u16(status) {
        Ok(code) => code.is_success(),
        Err(_) => false,
    }
}

/// Whether an answer with this status carries what was asked for. Any other
/// answer carries an [`ApiError`](crate::model::ApiError).
pub fn is_success(status: u16) -> (r: bool)
    ensures
        r == (200 <= status < 300),
{
    status_is_success(status)
}

/// The address that accounts are created at.
pub fn users_url() -> (r: String)
    ensures
        r@ == users_url_text(),
{
    "https://api.easyportfol.io/users/".to_owned()
}

/// The address that the rate of `quote` in `base` is asked at.
pub fn exchange_rate_url(quote: &str, base: &str) -> (r: String)
    ensures
        r@ == exchange_rate_url_text(quote@, base@),
{
    let mut url = "https://api.easyportfol.io/exchange_rates?quote=".to_owned();
    url.append(quote);
    url.append("&base=");
    url.append(base);
    url
}

/// The bytes that encode one character may all stand in a header value
/// exactly when the character may.
proof fn lemma_header_scalar(c: char)
    ensures
        header_char(c) <==> forall|i: int|
            0 <= i < encode_scalar(c as u32).len() ==> header_byte(
                #[trigger] encode_scalar(c as u32)[i],
            ),
{
    let s = c as u32;
    let bytes = encode_scalar(s);
    char_is_scalar(c);
    if has_width_1_encoding(s) {
        assert(leading_byte_width_1(s) == s) by (bit_vector)
            requires
                s <= 0x7F,
        ;
        assert(bytes[0] == s);
    } else {
        assert(header_char(c));
        assert(leading_byte_width_2(s) >= 0x80) by (bit_vector);
        assert(leading_byte_width_3(s) >= 0x80) by (bit_vector);
        assert(leading_byte_width_4(s) >= 0x80) by (bit_vector);
        assert(last_continuation_byte(s) >= 0x80) by (bit_vector);
        assert(second_last_continuation_byte(s) >= 0x80) by (bit_vector);
        assert(third_last_continuation_byte(s) >= 0x80) by (bit_vector);
    }
}

/// A text may be sent as a header value, byte by byte, exactly when each of
/// its characters may: a character above the ASCII range is encoded in bytes
/// that are all above it.
pub proof fn lemma_header_bytes_by_char(text: Seq<char>)
    ensures
        header_bytes(text) == header_text(text),
    decreases text.len(),
{
    if text.len() > 0 {
        let first = encode_scalar(text[0] as u32);
        let rest = text.drop_first();
        let tail = encode_utf8(rest);
        let bytes = encode_utf8(text);
        lemma_header_scalar(text[0]);
        lemma_header_bytes_by_char(rest);
        assert(bytes == first + tail);
        if header_text(text) {
            assert forall|i: int| 0 <= i < rest.len() implies header_char(#[trigger] rest[i]) by {
                assert(rest[i] == text[i + 1]);
            }
            assert forall|i: int| 0 <= i < bytes.len() implies header_byte(#[trigger] bytes[i]) by {
                if i < first.len() {
                    assert(bytes[i] == first[i]);
                } else {
                    assert(bytes[i] == tail[i - first.len()]);
                }
            }
        }
        if header_bytes(text) {
            assert forall|i: int| 0 <= i < first.len() implies header_byte(#[trigger] first[i]) by {
                assert(first[i] == bytes[i]);
            }
            assert forall|i: int| 0 <= i < tail.len() implies header_byte(#[trigger] tail[i]) by {
                assert(tail[i] == bytes[i + first.len()]);
            }
            assert forall|i: int| 0 <= i < text.len() implies header_char(#[trigger] text[i]) by {
                if i > 0 {
                    assert(text[i] == rest[i - 1]);
                }
            }
        }
    }
}

/// The `Authorization` header value that presents `token`, when the
/// credential can be sent at all: it cannot when it holds an ASCII control
/// character other than a tab.
pub fn bearer(token: &AuthToken) -> (r: Result<String, CommandError>)
    ensures
        match r {
            Ok(value) => header_text(token@.id) && value@ == bearer_text(token@.id),
            Err(e) => !header_text(token@.id) && e == CommandError::InvalidHeader,
        },
{
    let mut value = "Bearer ".to_owned();
    value.append(token.id.as_str());
    proof {
        let prefix = "Bearer "@;
        let id = token@.id;
        reveal_strlit("Bearer ");
        lemma_header_bytes_by_char(value@);
        if header_text(id) {
            assert forall|i: int| 0 <= i < value@.len() implies header_char(#[trigger] value@[i]) by {
                if i >= prefix.len() {
                    assert(value@[i] == id[i - prefix.len()]);
                }
            }
        }
        if header_text(value@) {
            assert forall|i: int| 0 <= i < id.len() implies header_char(#[trigger] id[i]) by {
                assert(id[i] == value@[i + prefix.len()]);
            }
        }
    }
    if header_value_accepts(value.as_str()) {
        Ok(value)
    } else {
        Err(CommandError::InvalidHeader)
    }
}

/// A `POST` request that creates an account: `fields` become the members of
/// the JSON object that is sent as the body.
#[derive(Debug, PartialEq, Eq)]
pub struct CreateUserRequest {
    pub url: String,
    pub fields: Vec<(String, String)>,
}

pub struct CreateUserRequestView {
    pub url: Seq<char>,
    pub fields: Seq<(Seq<char>, Seq<char>)>,
}

impl View for CreateUserRequest {
    type V = CreateUserRequestView;

    open spec fn view(&self) -> CreateUserRequestView {
        CreateUserRequestView { url: self.url@, fields: self.fields.deep_view() }
    }
}

/// The request that signs `username` up with `password`.
pub open spec fn create_user_request_of(
    username: Seq<char>,
    password: Seq<char>,
) -> CreateUserRequestView {
    CreateUserRequestView {
        url: users_url_text(),
        fields: seq![("username"@, username), ("password"@, password)],
    }
}

/// The request that signs `username` up with `password`.
pub fn create_user_request(username: &str, password: &str) -> (r: CreateUserRequest)
    ensures
        r@ == create_user_request_of(username@, password@),
{
    let mut fields: Vec<(String, String)> = Vec::new();
    fields.push(("username".to_owned(), username.to_owned()));
    fields.push(("password".to_owned(), password.to_owned()));
    assert(fields.deep_view() =~= seq![("username"@, username@), ("password"@, password@)]);
    CreateUserRequest { url: users_url(), fields }
}

/// A `GET` request for one exchange rate. Without a credential it carries no
/// `Authorization` header.
#[derive(Debug, PartialEq, Eq)]
pub struct RateRequest {
    pub url: String,
    pub authorization: Option<String>,
}

pub struct RateRequestView {
    pub url: Seq<char>,
    pub authorization: Option<Seq<char>>,
}

impl View for RateRequest {
    type V = RateRequestView;

    open spec fn view(&self) -> RateRequestView {
        RateRequestView { url: self.url@, authorization: self.authorization.deep_view() }
    }
}

/// The credential is there and cannot be sent.
pub open spec fn unsendable(auth_token: Option<AuthTokenView>) -> bool {
    auth_token matches Some(token) && !header_text(token.id)
}

/// The request for the rate of `quote` in `base`, sent in the name of
/// `auth_token`.
pub open spec fn rate_request_of(
    quote: Seq<char>,
    base: Seq<char>,
    auth_token: Option<AuthTokenView>,
) -> RateRequestView {
    RateRequestView {
        url: exchange_rate_url_text(quote, base),
        authorization: match auth_token {
            Some(token) => Some(bearer_text(token.id)),
            None => None,
        },
    }
}

/// The request for the rate of `quote` in `base`, sent in the name of
/// `auth_token`. There is none where the credential cannot be sent; where
/// there is no credential the request goes out without one, and it is for
/// the service to turn it down.
pub fn rate_request(quote: &str, base: &str, auth_token: Option<&AuthToken>) -> (r: Result<
    RateRequest,
    CommandError,
>)
    ensures
        match r {
            Ok(request) => !unsendable(auth_token.deep_view()) && request@ == rate_request_of(
                quote@,
                base@,
                auth_token.deep_view(),
            ),
            Err(error) => unsendable(auth_token.deep_view()) && error
                == CommandError::InvalidHeader,
        },
{
    let authorization = match auth_token {
        Some(token) => match bearer(token) {
            Ok(value) => Some(value),
            Err(error) => {
                return Err(error);
            },
        },
        None => None,
    };
    Ok(RateRequest { url: exchange_rate_url(quote, base), authorization })
}

} // verus!
