//! Request signing: the authentication headers of one request, from the
//! credential, the method and the path.

use vstd::prelude::*;
use vstd::string::{StringExecFns, StringSliceAdditionalSpecFns};
use crate::kalshi_error::CredentialError;
use crate::text::{byte_len, decimal, decimal_string, strip_query, without_query};

verus! {

/// The error stack of OpenSSL.
#[verifier::external_type_specification]
#[verifier::external_body]
pub struct ExErrorStack(openssl::error::ErrorStack);

/// A point in time of the system clock.
#[verifier::external_type_specification]
#[verifier::external_body]
pub struct ExSystemTime(std::time::SystemTime);

/// The HTTP methods that the exchange's API uses.
#[derive(Debug, Clone, Copy, PartialEq, Eq, Structural)]
pub enum HttpMethod {
    Get,
    Post,
    Delete,
}

impl HttpMethod {
    /// The method's name, in upper case.
    pub open spec fn name(self) -> Seq<char> {
        match self {
            HttpMethod::Get => "GET"@,
            HttpMethod::Post => "POST"@,
            HttpMethod::Delete => "DELETE"@,
        }
    }

    /// The method's name, in upper case.
    pub fn as_str(&self) -> (s: &'static str)
        ensures
            s@ == self.name(),
    {
        match self {
            HttpMethod::Get => "GET",
            HttpMethod::Post => "POST",
            HttpMethod::Delete => "DELETE",
        }
    }
}

/// What authenticates the caller to the exchange. It cannot be printed: a
/// key or a token must not reach a log.
#[derive(Clone)]
pub enum Credential {
    /// An API key: its identifier and its private RSA key in PEM.
    ApiKey { key_id: String, private_key_pem: String },
    /// A session token obtained elsewhere; none while there is no session.
    SessionToken { token: Option<String> },
}

/// The header that carries the key identifier.
pub open spec fn key_header() -> Seq<char> {
    "kalshi-access-key"@
}

/// The header that carries the signature.
pub open spec fn signature_header() -> Seq<char> {
    "kalshi-access-signature"@
}

/// The header that carries the timestamp.
pub open spec fn timestamp_header() -> Seq<char> {
    "kalshi-access-timestamp"@
}

/// The header that carries a session token.
pub open spec fn token_header() -> Seq<char> {
    "authorization"@
}

/// What is signed for a request: the timestamp in decimal milliseconds, the
/// method in upper case and the path without its query, with nothing
/// between them.
pub open spec fn signing_payload(
    timestamp_ms: u64,
    method: HttpMethod,
    path: Seq<char>,
) -> Seq<char> {
    decimal(timestamp_ms as nat) + method.name() + without_query(path)
}

/// The text of a header list: names and values.
pub open spec fn header_texts(headers: Seq<(String, String)>) -> Seq<(Seq<char>, Seq<char>)> {
    Seq::new(headers.len(), |i: int| (headers[i].0@, headers[i].1@))
}

/// The base64 text of `bytes`, as OpenSSL encodes it in one block.
pub uninterp spec fn base64_text(bytes: Seq<u8>) -> Seq<char>;

/// The headers of a request signed with an API key.
pub open spec fn api_key_header_texts(
    key_id: Seq<char>,
    timestamp_ms: u64,
    signature: Seq<u8>,
) -> Seq<(Seq<char>, Seq<char>)> {
    seq![
        (key_header(), key_id),
        (signature_header(), base64_text(signature)),
        (timestamp_header(), decimal(timestamp_ms as nat)),
    ]
}

/// The header of a request authenticated by a session token: the token as
/// it is.
pub open spec fn token_header_texts(token: Seq<char>) -> Seq<(Seq<char>, Seq<char>)> {
    seq![(token_header(), token)]
}

/// The most bytes that the text of a private key may hold: OpenSSL reads it
/// through a buffer whose length a C `int` counts.
pub const KEY_BYTES_MAX: usize = 0x7fff_ffff;

/// Whether the text of a private key is short enough to be read.
pub open spec fn key_fits(private_key_pem: Seq<char>) -> bool {
    byte_len(private_key_pem) <= KEY_BYTES_MAX
}

/// Signs `payload` with the private key in `pem`, through OpenSSL's
/// `PKey::private_key_from_pem_passphrase` (with an empty passphrase, so
/// that an encrypted key fails and nothing is asked on the terminal) and
/// `Signer`: RSA-PSS over SHA-256, MGF1 with SHA-256, salt as long as the
/// digest. The signature differs from call to call, so nothing is stated of
/// it. The length bound is the one beyond which OpenSSL's buffer panics.
#[verifier::external_body]
fn sign_pss_sha256(pem: &[u8], payload: &[u8]) -> (r: Result<Vec<u8>, openssl::error::ErrorStack>)
    requires
        pem@.len() <= KEY_BYTES_MAX,
{
    let key = openssl::pkey::PKey::private_key_from_pem_passphrase(pem, b"")?;
    let digest = openssl::hash::MessageDigest::sha256();
    let mut signer = openssl::sign::Signer::new(digest, &key)?;
    signer.set_rsa_padding(openssl::rsa::Padding::PKCS1_PSS)?;
    signer.set_rsa_mgf1_md(digest)?;
    signer.set_rsa_pss_saltlen(openssl::sign::RsaPssSaltlen::DIGEST_LENGTH)?;
    signer.update(payload)?;
    signer.sign_to_vec()
}

/// The most bytes that can be encoded in one block: beyond it the length of
/// the base64 text, with its terminator, is more than a C `int` counts.
pub const BASE64_INPUT_MAX: usize = 1_610_612_732;

/// `openssl::base64::encode_block`: the base64 text of the bytes. It
/// panics where the length of the input or of the text overflows a C `int`,
/// so such inputs are left out.
#[verifier::external_body]
fn base64_encode(bytes: &[u8]) -> (text: String)
    requires
        bytes@.len() <= BASE64_INPUT_MAX,
    ensures
        text@ == base64_text(bytes@),
{
    openssl::base64::encode_block(bytes)
}

/// `SystemTime::now`: the system clock's time.
#[verifier::external_body]
fn system_now() -> std::time::SystemTime {
    std::time::SystemTime::now()
}

/// `SystemTime::duration_since` the Unix epoch: nothing where the time lies
/// before it.
#[verifier::external_body]
fn since_epoch(time: &std::time::SystemTime) -> Option<std::time::Duration> {
    time.duration_since(std::time::UNIX_EPOCH).ok()
}

/// `Duration::as_millis`: the whole milliseconds of the span.
#[verifier::external_body]
fn whole_millis(span: &std::time::Duration) -> u128 {
    span.as_millis()
}

/// The timestamp for a count of milliseconds since the Unix epoch: the count
/// itself where it fits, else nothing.
pub fn timestamp_of(millis: u128) -> (timestamp_ms: Option<u64>)
    ensures
        timestamp_ms == (if millis <= u64::MAX {
            Some(millis as u64)
        } else {
            None
        }),
{
    if millis <= 0xffff_ffff_ffff_ffff {
        Some(millis as u64)
    } else {
        None
    }
}

/// The wall-clock time in milliseconds since the Unix epoch, read anew at
/// each call; nothing where the clock is set before the epoch or the count
/// does not fit.
fn unix_millis() -> Option<u64> {
    let now = system_now();
    let span = since_epoch(&now)?;
    timestamp_of(whole_millis(&span))
}

/// Writes what is signed for a request.
pub fn signing_payload_string(
    timestamp_ms: u64,
    method: HttpMethod,
    path: &str,
) -> (payload: String)
    ensures
        payload@ == signing_payload(timestamp_ms, method, path@),
{
    let mut payload = decimal_string(timestamp_ms);
    payload.append(method.as_str());
    payload.append(strip_query(path));
    payload
}

/// The headers of a request signed with an API key, from the signature that
/// the signer gave.
pub fn api_key_headers(key_id: &String, timestamp_ms: u64, signature: &[u8]) -> (headers: Vec<
    (String, String),
>)
    requires
        signature@.len() <= BASE64_INPUT_MAX,
    ensures
        header_texts(headers@) == api_key_header_texts(key_id@, timestamp_ms, signature@),
{
    let mut headers: Vec<(String, String)> = Vec::new();
    headers.push((String::from_str("kalshi-access-key"), key_id.clone()));
    headers.push((String::from_str("kalshi-access-signature"), base64_encode(signature)));
    headers.push((String::from_str("kalshi-access-timestamp"), decimal_string(timestamp_ms)));
    assert(header_texts(headers@) =~= api_key_header_texts(key_id@, timestamp_ms, signature@));
    headers
}

/// What becomes of the signer's answer: the three headers for a signature,
/// and the error of a malformed key where the signer failed or gave more
/// bytes than can be encoded.
pub fn headers_from_signature(
    key_id: &String,
    timestamp_ms: u64,
    signed: Result<Vec<u8>, openssl::error::ErrorStack>,
) -> (r: Result<Vec<(String, String)>, CredentialError>)
    ensures
        match signed {
            Ok(signature) => if signature@.len() <= BASE64_INPUT_MAX {
                r is Ok && header_texts(r->Ok_0@) == api_key_header_texts(
                    key_id@,
                    timestamp_ms,
                    signature@,
                )
            } else {
                r == Err::<Vec<(String, String)>, CredentialError>(CredentialError::MalformedKey)
            },
            Err(_) => r == Err::<Vec<(String, String)>, CredentialError>(
                CredentialError::MalformedKey,
            ),
        },
{
    match signed {
        Ok(signature) => {
            if signature.len() > BASE64_INPUT_MAX {
                return Err(CredentialError::MalformedKey);
            }
            Ok(api_key_headers(key_id, timestamp_ms, signature.as_slice()))
        },
        Err(_) => Err(CredentialError::MalformedKey),
    }
}

/// What a session token gives, whatever the time: the one header with the
/// token as it is, and the error of a missing token where there is none.
pub open spec fn token_signed(
    r: Result<Vec<(String, String)>, CredentialError>,
    token: Option<String>,
) -> bool {
    match token {
        Some(token) => r is Ok && header_texts(r->Ok_0@) == token_header_texts(token@),
        None => r == Err::<Vec<(String, String)>, CredentialError>(CredentialError::MissingToken),
    }
}

/// What an API key may give at `timestamp_ms`. A key whose text is too long
/// to be read is refused as malformed before anything is signed. Any other
/// key gives the three headers of some signature, or the error of a key that
/// cannot sign; which of the two, and which signature, is the signer's to
/// say.
pub open spec fn key_signed(
    r: Result<Vec<(String, String)>, CredentialError>,
    key_id: String,
    private_key_pem: String,
    timestamp_ms: u64,
) -> bool {
    if !key_fits(private_key_pem@) {
        r == Err::<Vec<(String, String)>, CredentialError>(CredentialError::MalformedKey)
    } else {
        match r {
            Ok(headers) => exists|signature: Seq<u8>|
                header_texts(headers@) == #[trigger] api_key_header_texts(
                    key_id@,
                    timestamp_ms,
                    signature,
                ),
            Err(e) => e == CredentialError::MalformedKey,
        }
    }
}

/// Whether `r` is what signing a request at `timestamp_ms` may give: for a
/// session token what `token_signed` says, for an API key what `key_signed`
/// says.
pub open spec fn signed_as(
    r: Result<Vec<(String, String)>, CredentialError>,
    credential: Credential,
    timestamp_ms: u64,
) -> bool {
    match credential {
        Credential::SessionToken { token } => token_signed(r, token),
        Credential::ApiKey { key_id, private_key_pem } => key_signed(
            r,
            key_id,
            private_key_pem,
            timestamp_ms,
        ),
    }
}

/// Whether `r` is what signing a request now may give. A session token
/// needs no clock: it gives what `token_signed` says. An API key whose text
/// is too long is refused as malformed before the clock is read; any other
/// key gives what `key_signed` says for some time of the clock, or the error
/// of a clock that gives no time.
pub open spec fn signed(
    r: Result<Vec<(String, String)>, CredentialError>,
    credential: Credential,
) -> bool {
    match credential {
        Credential::SessionToken { token } => token_signed(r, token),
        Credential::ApiKey { key_id, private_key_pem } => if !key_fits(private_key_pem@) {
            r == Err::<Vec<(String, String)>, CredentialError>(CredentialError::MalformedKey)
        } else {
            r matches Err(CredentialError::Clock) || exists|timestamp_ms: u64| #[trigger]
                key_signed(r, key_id, private_key_pem, timestamp_ms)
        },
    }
}

/// With a session token, signing owes no answer to the clock or to a
/// signer: a held token gives exactly one header, the authorization header
/// with the token as it is, and a missing token gives its own error.
pub proof fn lemma_token_needs_no_clock(
    r: Result<Vec<(String, String)>, CredentialError>,
    token: Option<String>,
)
    requires
        signed(r, Credential::SessionToken { token }),
    ensures
        token is Some ==> r is Ok && header_texts(r->Ok_0@) == seq![(token_header(), token->0@)],
        token is None ==> r == Err::<Vec<(String, String)>, CredentialError>(
            CredentialError::MissingToken,
        ),
{
}

/// The header of a request authenticated by a session token.
pub fn token_headers(token: &Option<String>) -> (r: Result<
    Vec<(String, String)>,
    CredentialError,
>)
    ensures
        token_signed(r, *token),
{
    match token {
        Some(token) => {
            let mut headers: Vec<(String, String)> = Vec::new();
            headers.push((String::from_str("authorization"), token.clone()));
            assert(header_texts(headers@) =~= token_header_texts(token@));
            Ok(headers)
        },
        None => Err(CredentialError::MissingToken),
    }
}

/// The headers of a request signed with an API key at `timestamp_ms`. What
/// is signed is `signing_payload`: the query is no part of it.
pub fn key_headers(
    key_id: &String,
    private_key_pem: &String,
    path: &str,
    method: HttpMethod,
    timestamp_ms: u64,
) -> (r: Result<Vec<(String, String)>, CredentialError>)
    ensures
        key_signed(r, *key_id, *private_key_pem, timestamp_ms),
{
    let pem = private_key_pem.as_str().as_bytes();
    if pem.len() > KEY_BYTES_MAX {
        return Err(CredentialError::MalformedKey);
    }
    let payload = signing_payload_string(timestamp_ms, method, path);
    let signed = sign_pss_sha256(pem, payload.as_str().as_bytes());
    headers_from_signature(key_id, timestamp_ms, signed)
}

impl Credential {
    /// The authentication headers of a request made at `timestamp_ms`.
    pub fn sign_at(&self, path: &str, method: HttpMethod, timestamp_ms: u64) -> (r: Result<
        Vec<(String, String)>,
        CredentialError,
    >)
        ensures
            signed_as(r, *self, timestamp_ms),
    {
        match self {
            Credential::SessionToken { token } => token_headers(token),
            Credential::ApiKey { key_id, private_key_pem } => key_headers(
                key_id,
                private_key_pem,
                path,
                method,
                timestamp_ms,
            ),
        }
    }

    /// The authentication headers of a request made now. The clock is read
    /// only for an API key, and anew at each call.
    pub fn sign(&self, path: &str, method: HttpMethod) -> (r: Result<
        Vec<(String, String)>,
        CredentialError,
    >)
        ensures
            signed(r, *self),
    {
        match self {
            Credential::SessionToken { token } => token_headers(token),
            Credential::ApiKey { key_id, private_key_pem } => {
                if private_key_pem.as_str().as_bytes().len() > KEY_BYTES_MAX {
                    return Err(CredentialError::MalformedKey);
                }
                match unix_millis() {
                    Some(timestamp_ms) => {
                        let r = key_headers(key_id, private_key_pem, path, method, timestamp_ms);
                        assert(key_signed(r, *key_id, *private_key_pem, timestamp_ms));
                        r
                    },
                    None => Err(CredentialError::Clock),
                }
            },
        }
    }
}

} // verus!
