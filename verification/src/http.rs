//! One request to the exchange: its URL, its signed form, and what becomes
//! of the response.

use vstd::prelude::*;
use vstd::string::{StrSliceExecFns, StringExecFns, StringSliceAdditionalSpecFns};
use crate::auth::{signed, Credential, HttpMethod};
use crate::json::{json_parse, parse_value, FromJson};
use crate::text::byte_len;
use crate::kalshi_error::{
    classify_status, status_class, CredentialError, KalshiError, RequestError, StatusClass,
    TransportError,
};

verus! {

/// A parsed URL of the `url` crate.
#[verifier::external_type_specification]
#[verifier::external_body]
pub struct ExUrl(url::Url);

/// The serialization of a URL.
pub uninterp spec fn url_text(url: url::Url) -> Seq<char>;

/// The path of a URL: what stands between the host and the query.
pub uninterp spec fn url_path(url: url::Url) -> Seq<char>;

/// What the library reads of a URL: its serialization and its path.
pub struct ParsedUrl {
    pub text: Seq<char>,
    pub path: Seq<char>,
}

/// What the library reads of `url`.
pub open spec fn parsed(url: url::Url) -> ParsedUrl {
    ParsedUrl { text: url_text(url), path: url_path(url) }
}

/// What `url` parses `input` to: the URL's serialization and path, or the
/// error that it reports.
pub uninterp spec fn url_parse(input: Seq<char>) -> Result<ParsedUrl, url::ParseError>;

/// What `url` parses `input` to and then extends by the query parameters
/// `params`: the URL's serialization and path, or the error that it reports.
pub uninterp spec fn url_parse_with_params(
    input: Seq<char>,
    params: Seq<(Seq<char>, Seq<char>)>,
) -> Result<ParsedUrl, url::ParseError>;

/// The texts of a list of query parameters, in their order.
pub open spec fn param_texts(params: Seq<(&str, String)>) -> Seq<(Seq<char>, Seq<char>)> {
    Seq::new(params.len(), |i: int| (params[i].0@, params[i].1@))
}

/// `Url::parse`: the URL or the error that `url_parse` names for this
/// input.
#[verifier::external_body]
fn parse_url(input: &str) -> (r: Result<url::Url, url::ParseError>)
    ensures
        match r {
            Ok(url) => url_parse(input@) == Ok::<ParsedUrl, url::ParseError>(parsed(url)),
            Err(e) => url_parse(input@) == Err::<ParsedUrl, url::ParseError>(e),
        },
{
    url::Url::parse(input)
}

/// The most bytes that the text of a URL may hold where query parameters
/// are added to it, and the most that the parameters may hold together. The
/// bound is the library's own choice: `url` panics only where a URL grows
/// past 4 GiB, and 16 MiB for each part is far more than a request needs and
/// far below that.
pub const URL_PART_MAX: usize = 0x0100_0000;

/// The bytes that the names and values of query parameters hold together.
pub open spec fn params_size(params: Seq<(Seq<char>, Seq<char>)>) -> nat
    decreases params.len(),
{
    if params.len() == 0 {
        0
    } else {
        params_size(params.drop_last()) + byte_len(params.last().0) + byte_len(params.last().1)
    }
}

/// Whether a URL text and its query parameters are within the limits.
pub open spec fn url_fits(input: Seq<char>, params: Seq<(Seq<char>, Seq<char>)>) -> bool {
    &&& byte_len(input) <= URL_PART_MAX
    &&& params.len() <= URL_PART_MAX
    &&& params_size(params) <= URL_PART_MAX
}

/// `Url::parse_with_params`: the URL or the error that
/// `url_parse_with_params` names for this input and these parameters. It
/// parses the input as `Url::parse` does and adds the parameters to the
/// query of what came out: so it fails exactly where `Url::parse` fails, with
/// the same error, and the path is the one that `Url::parse` gives. Where
/// the URL grows beyond what 32 bits count it panics, so the input is held to
/// limits that keep it far below.
#[verifier::external_body]
fn parse_url_with_params(input: &str, params: &Vec<(&str, String)>) -> (r: Result<
    url::Url,
    url::ParseError,
>)
    requires
        url_fits(input@, param_texts(params@)),
    ensures
        match r {
            Ok(url) => {
                &&& url_parse_with_params(input@, param_texts(params@)) == Ok::<
                    ParsedUrl,
                    url::ParseError,
                >(parsed(url))
                &&& url_parse(input@) is Ok
                &&& url_parse(input@)->Ok_0.path == url_path(url)
            },
            Err(e) => {
                &&& url_parse_with_params(input@, param_texts(params@)) == Err::<
                    ParsedUrl,
                    url::ParseError,
                >(e)
                &&& url_parse(input@) == Err::<ParsedUrl, url::ParseError>(e)
            },
        },
{
    url::Url::parse_with_params(input, params)
}

/// `Url::path`: the path of the URL.
pub assume_specification<'a>[ url::Url::path ](url: &'a url::Url) -> (path: &'a str)
    ensures
        path@ == url_path(*url),
;

/// `Url::as_str`: the serialization of the URL.
pub assume_specification<'a>[ url::Url::as_str ](url: &'a url::Url) -> (text: &'a str)
    ensures
        text@ == url_text(*url),
;

/// The client's fixed context: where the exchange is, and who calls. It
/// holds the credential and so cannot be printed.
#[derive(Clone)]
pub struct Kalshi {
    base_url: String,
    credential: Credential,
}

/// A request ready to be sent: nothing of it changes after signing. It
/// holds the token or the signature and so cannot be printed.
pub struct SignedRequest {
    pub method: HttpMethod,
    pub url: url::Url,
    pub headers: Vec<(String, String)>,
    pub body: Option<String>,
}

/// How loud a diagnostic record is.
#[derive(Debug, Clone, Copy, PartialEq, Eq, Structural)]
pub enum DiagnosticLevel {
    Debug,
    Info,
    Warn,
    Error,
}

/// What is recorded of one response for diagnosis. The bodies are cut to
/// their first `DIAGNOSTIC_BODY_LIMIT` characters or bytes.
#[derive(Debug)]
pub struct RequestDiagnostic {
    pub level: DiagnosticLevel,
    pub method: String,
    pub url: String,
    pub status: u16,
    pub request_body: Option<String>,
    pub response_body: Vec<u8>,
}

/// The most that a diagnostic record keeps of a body.
pub const DIAGNOSTIC_BODY_LIMIT: usize = 2048;

/// The level of the record of a response: a success is for debugging, a
/// status from 400 to 499 a warning, one from 500 to 599 an error, and any
/// other status is worth a note.
pub open spec fn diagnostic_level(status: u16) -> DiagnosticLevel {
    if 200 <= status <= 299 {
        DiagnosticLevel::Debug
    } else if 400 <= status <= 499 {
        DiagnosticLevel::Warn
    } else if 500 <= status <= 599 {
        DiagnosticLevel::Error
    } else {
        DiagnosticLevel::Info
    }
}

/// The first `limit` items of `s`, or all of it where it has fewer.
pub open spec fn cut<T>(s: Seq<T>, limit: int) -> Seq<T> {
    if s.len() <= limit {
        s
    } else {
        s.take(limit)
    }
}

/// A response as its status classifies it, or the failure of the transport.
#[derive(Debug)]
pub enum ClassifiedResponse {
    Success(Vec<u8>),
    ClientError(u16, Vec<u8>),
    ServerError(u16, Vec<u8>),
    TransportFailure(TransportError),
}

impl ClassifiedResponse {
    /// Whether this is the classification of `outcome`: by the status code
    /// alone where there is a response, whatever its body, and a transport
    /// failure exactly where there is none.
    pub open spec fn classifies(self, outcome: Result<(u16, Vec<u8>), TransportError>) -> bool {
        match outcome {
            Ok((status, body)) => match status_class(status) {
                StatusClass::Success => self matches ClassifiedResponse::Success(b) && b@ == body@,
                StatusClass::ClientError => self matches ClassifiedResponse::ClientError(s, b) && s
                    == status && b@ == body@,
                StatusClass::ServerError => self matches ClassifiedResponse::ServerError(s, b) && s
                    == status && b@ == body@,
            },
            Err(e) => self matches ClassifiedResponse::TransportFailure(found) && found == e,
        }
    }
}

/// Classifies the outcome of sending a request.
pub fn classify_response(outcome: Result<(u16, Vec<u8>), TransportError>) -> (c: ClassifiedResponse)
    ensures
        c.classifies(outcome),
{
    match outcome {
        Ok((status, body)) => match classify_status(status) {
            StatusClass::Success => ClassifiedResponse::Success(body),
            StatusClass::ClientError => ClassifiedResponse::ClientError(status, body),
            StatusClass::ServerError => ClassifiedResponse::ServerError(status, body),
        },
        Err(e) => ClassifiedResponse::TransportFailure(e),
    }
}

/// The class of a response is a function of its status code alone: two
/// responses with the same status are classified alike, whatever their
/// bodies, and neither as a transport failure.
pub proof fn lemma_class_by_status_alone(
    status: u16,
    first_body: Vec<u8>,
    second_body: Vec<u8>,
    first: ClassifiedResponse,
    second: ClassifiedResponse,
)
    requires
        first.classifies(Ok::<(u16, Vec<u8>), TransportError>((status, first_body))),
        second.classifies(Ok::<(u16, Vec<u8>), TransportError>((status, second_body))),
    ensures
        first is Success <==> second is Success,
        first is ClientError <==> second is ClientError,
        first is ServerError <==> second is ServerError,
        !(first is TransportFailure) && !(second is TransportFailure),
        first is Success <==> 200 <= status <= 299,
        first is ClientError <==> 400 <= status <= 499,
        500 <= status <= 599 ==> first is ServerError,
{
}

/// A failure of the transport is classified as such, and as no class of
/// status, whatever it carries.
pub proof fn lemma_transport_failure_is_no_status(e: TransportError, c: ClassifiedResponse)
    requires
        c.classifies(Err::<(u16, Vec<u8>), TransportError>(e)),
    ensures
        c matches ClassifiedResponse::TransportFailure(found) && found == e,
{
}

/// Whether the query parameters are within the limits.
fn params_fit(params: &Vec<(&str, String)>) -> (fit: bool)
    ensures
        fit == (params@.len() <= URL_PART_MAX && params_size(param_texts(params@))
            <= URL_PART_MAX),
{
    if params.len() > URL_PART_MAX {
        return false;
    }
    let ghost texts = param_texts(params@);
    let mut size: usize = 0;
    let mut i: usize = 0;
    while i < params.len()
        invariant
            i <= params@.len(),
            params@.len() <= URL_PART_MAX,
            texts == param_texts(params@),
            size == params_size(texts.take(i as int)),
            size <= URL_PART_MAX,
        decreases params@.len() - i,
    {
        let name = params[i].0.as_bytes().len();
        let value = params[i].1.as_str().as_bytes().len();
        proof {
            let next = texts.take(i + 1);
            assert(next.drop_last() =~= texts.take(i as int));
            assert(next.last() == texts[i as int]);
            lemma_params_size_grows(texts, i + 1);
        }
        if name > URL_PART_MAX || value > URL_PART_MAX || size + name > URL_PART_MAX || size + name
            + value > URL_PART_MAX {
            return false;
        }
        size = size + name + value;
        i += 1;
    }
    assert(texts.take(i as int) =~= texts);
    true
}

/// The size of the first parameters is no more than the size of all.
proof fn lemma_params_size_grows(params: Seq<(Seq<char>, Seq<char>)>, k: int)
    requires
        0 <= k <= params.len(),
    ensures
        params_size(params.take(k)) <= params_size(params),
    decreases params.len() - k,
{
    if k < params.len() {
        let next = params.take(k + 1);
        assert(next.drop_last() =~= params.take(k));
        lemma_params_size_grows(params, k + 1);
    } else {
        assert(params.take(k) =~= params);
    }
}

fn cut_bytes(bytes: &Vec<u8>, limit: usize) -> (out: Vec<u8>)
    ensures
        out@ == cut(bytes@, limit as int),
{
    let n = if bytes.len() <= limit {
        bytes.len()
    } else {
        limit
    };
    let mut out: Vec<u8> = Vec::new();
    let mut i: usize = 0;
    while i < n
        invariant
            i <= n <= bytes@.len(),
            out@ == bytes@.take(i as int),
        decreases n - i,
    {
        out.push(bytes[i]);
        assert(out@ =~= bytes@.take(i + 1));
        i += 1;
    }
    assert(bytes@.take(bytes@.len() as int) =~= bytes@);
    out
}

fn cut_text(text: &str, limit: usize) -> (out: String)
    ensures
        out@ == cut(text@, limit as int),
{
    let n = text.unicode_len();
    if n <= limit {
        String::from_str(text)
    } else {
        String::from_str(text.substring_char(0, limit))
    }
}

/// Whether `r` is what a response with this status and body must give for
/// the type `T`. A status outside 200 to 299 gives the error of its class,
/// with the status and the whole body. A success gives the value that the
/// body holds, or a decode error with the whole body where the body is no
/// JSON text or holds no value of the type.
pub open spec fn responded<T: FromJson>(
    r: Result<T, KalshiError>,
    status: u16,
    bytes: Seq<u8>,
) -> bool {
    match status_class(status) {
        StatusClass::Success => match json_parse(bytes) {
            Some(m) => match r {
                Ok(value) => value.reads(m),
                Err(KalshiError::DecodeError { body, transport }) => body@ == bytes
                    && transport is None && forall|value: T|
                    !value.reads(m),
                Err(_) => false,
            },
            None => r matches Err(KalshiError::DecodeError { body, transport }) && body@ == bytes
                && transport is None,
        },
        StatusClass::ClientError => r matches Err(
            KalshiError::RequestError(RequestError::ClientError { status: found, body }),
        ) && found == status && body@ == bytes,
        StatusClass::ServerError => r matches Err(
            KalshiError::RequestError(RequestError::ServerError { status: found, body }),
        ) && found == status && body@ == bytes,
    }
}

impl RequestDiagnostic {
    /// Whether this is the record of a response: the level by the status,
    /// the method, the URL and the status as they are, and the bodies cut
    /// to the limit.
    pub open spec fn records(
        self,
        method: Seq<char>,
        url: url::Url,
        request_body: Option<String>,
        status: u16,
        bytes: Seq<u8>,
    ) -> bool {
        &&& self.level == diagnostic_level(status)
        &&& self.method@ == method
        &&& self.url@ == url_text(url)
        &&& self.status == status
        &&& match request_body {
            Some(body) => self.request_body is Some && self.request_body->0@ == cut(
                body@,
                DIAGNOSTIC_BODY_LIMIT as int,
            ),
            None => self.request_body is None,
        }
        &&& self.response_body@ == cut(bytes, DIAGNOSTIC_BODY_LIMIT as int)
    }
}

impl Kalshi {
    /// A context for the exchange at `base_url`, with the caller's
    /// credential.
    pub fn new(base_url: String, credential: Credential) -> (kalshi: Kalshi)
        ensures
            kalshi.base_url() == base_url@,
            kalshi.credential() == credential,
    {
        Kalshi { base_url, credential }
    }

    /// The text that every URL starts with.
    pub closed spec fn base_url(&self) -> Seq<char> {
        self.base_url@
    }

    /// The caller's credential.
    pub closed spec fn credential(&self) -> Credential {
        self.credential
    }

    /// The URL of a path under the base URL.
    pub fn build_url(&self, base_path: &str) -> (r: Result<url::Url, KalshiError>)
        ensures
            match url_parse(self.base_url() + base_path@) {
                Ok(url) => r is Ok && parsed(r->Ok_0) == url,
                Err(e) => r matches Err(
                    KalshiError::RequestError(RequestError::UrlParseError(found)),
                ) && found == e,
            },
    {
        let mut input = self.base_url.clone();
        input.append(base_path);
        match parse_url(input.as_str()) {
            Ok(url) => Ok(url),
            Err(e) => Err(KalshiError::RequestError(RequestError::UrlParseError(e))),
        }
    }

    /// The URL of a path under the base URL, with query parameters in the
    /// order given. A URL or a query beyond the limits is refused as the
    /// caller's mistake. The parameters go into the query alone: the path is
    /// the one that the URL has without them.
    pub fn build_url_with_params(&self, base_path: &str, params: Vec<(&str, String)>) -> (r: Result<
        url::Url,
        KalshiError,
    >)
        ensures
            if !url_fits(self.base_url() + base_path@, param_texts(params@)) {
                r matches Err(KalshiError::UserInputError(_))
            } else {
                match url_parse_with_params(self.base_url() + base_path@, param_texts(params@)) {
                    Ok(url) => r is Ok && parsed(r->Ok_0) == url,
                    Err(e) => r matches Err(
                        KalshiError::RequestError(RequestError::UrlParseError(found)),
                    ) && found == e,
                }
            },
            r is Ok <==> url_fits(self.base_url() + base_path@, param_texts(params@)) && url_parse(
                self.base_url() + base_path@,
            ) is Ok,
            r is Ok ==> url_path(r->Ok_0) == url_parse(self.base_url() + base_path@)->Ok_0.path,
            r matches Err(KalshiError::RequestError(RequestError::UrlParseError(found)))
                ==> url_parse(self.base_url() + base_path@) == Err::<ParsedUrl, url::ParseError>(
                found,
            ),
    {
        let mut input = self.base_url.clone();
        input.append(base_path);
        if input.as_str().as_bytes().len() > URL_PART_MAX || !params_fit(&params) {
            return Err(KalshiError::UserInputError(String::from_str("the URL is too long")));
        }
        match parse_url_with_params(input.as_str(), &params) {
            Ok(url) => Ok(url),
            Err(e) => Err(KalshiError::RequestError(RequestError::UrlParseError(e))),
        }
    }

    /// The authentication headers of a request made now for `path`: what
    /// `signed` says for the credential. A session token gives its one
    /// header and the lack of one the error of a missing token, whatever the
    /// clock says; only an API key has the clock read and the signer asked.
    pub fn auth_headers(&self, path: &str, method: HttpMethod) -> (r: Result<
        Vec<(String, String)>,
        KalshiError,
    >)
        ensures
            match r {
                Ok(headers) => signed(
                    Ok::<Vec<(String, String)>, CredentialError>(headers),
                    self.credential(),
                ),
                Err(KalshiError::CredentialError(reason)) => signed(
                    Err::<Vec<(String, String)>, CredentialError>(reason),
                    self.credential(),
                ),
                Err(_) => false,
            },
    {
        match self.credential.sign(path, method) {
            Ok(headers) => Ok(headers),
            Err(reason) => Err(KalshiError::CredentialError(reason)),
        }
    }

    /// Signs a request: the headers are made from the method and the URL's
    /// path alone, so the query is never signed. The method, the URL and the
    /// body go into the request as they came; with a session token the
    /// request is made for certain.
    pub fn sign_request(
        &self,
        method: HttpMethod,
        url: url::Url,
        body: Option<String>,
    ) -> (r: Result<SignedRequest, KalshiError>)
        ensures
            match r {
                Ok(request) => {
                    &&& request.method == method
                    &&& request.url == url
                    &&& request.body == body
                    &&& signed(
                        Ok::<Vec<(String, String)>, CredentialError>(request.headers),
                        self.credential(),
                    )
                },
                Err(KalshiError::CredentialError(reason)) => signed(
                    Err::<Vec<(String, String)>, CredentialError>(reason),
                    self.credential(),
                ),
                Err(_) => false,
            },
    {
        match self.auth_headers(url.path(), method) {
            Ok(headers) => Ok(SignedRequest { method, url, headers, body }),
            Err(e) => Err(e),
        }
    }

    /// Makes a request ready to be sent: the URL of `path` under the base
    /// URL with the query parameters in the order given, signed for the
    /// method and the URL's path. A URL beyond the limits is the caller's
    /// mistake, one that cannot be parsed is reported as such, and only then
    /// is the credential asked to sign: a session token then gives the
    /// request for certain, and its lack the error of a missing token.
    pub fn prepare(
        &self,
        method: HttpMethod,
        path: &str,
        params: Vec<(&str, String)>,
        body: Option<String>,
    ) -> (r: Result<SignedRequest, KalshiError>)
        ensures
            match r {
                Ok(request) => {
                    &&& url_fits(self.base_url() + path@, param_texts(params@))
                    &&& url_parse_with_params(self.base_url() + path@, param_texts(params@))
                        == Ok::<ParsedUrl, url::ParseError>(parsed(request.url))
                    &&& url_parse(self.base_url() + path@) is Ok
                    &&& url_path(request.url) == url_parse(self.base_url() + path@)->Ok_0.path
                    &&& request.method == method
                    &&& request.body == body
                    &&& signed(
                        Ok::<Vec<(String, String)>, CredentialError>(request.headers),
                        self.credential(),
                    )
                },
                Err(KalshiError::UserInputError(_)) => !url_fits(
                    self.base_url() + path@,
                    param_texts(params@),
                ),
                Err(KalshiError::RequestError(RequestError::UrlParseError(found))) => {
                    &&& url_fits(self.base_url() + path@, param_texts(params@))
                    &&& url_parse(self.base_url() + path@) == Err::<ParsedUrl, url::ParseError>(
                        found,
                    )
                },
                Err(KalshiError::CredentialError(reason)) => {
                    &&& url_fits(self.base_url() + path@, param_texts(params@))
                    &&& url_parse(self.base_url() + path@) is Ok
                    &&& signed(
                        Err::<Vec<(String, String)>, CredentialError>(reason),
                        self.credential(),
                    )
                },
                Err(_) => false,
            },
    {
        match self.build_url_with_params(path, params) {
            Ok(url) => self.sign_request(method, url, body),
            Err(e) => Err(e),
        }
    }

    /// The record of a response for diagnosis.
    pub fn diagnostic(
        method: &str,
        url: &url::Url,
        request_body: &Option<String>,
        status: u16,
        bytes: &Vec<u8>,
    ) -> (record: RequestDiagnostic)
        ensures
            record.records(method@, *url, *request_body, status, bytes@),
    {
        let level = if 200 <= status && status <= 299 {
            DiagnosticLevel::Debug
        } else if 400 <= status && status <= 499 {
            DiagnosticLevel::Warn
        } else if 500 <= status && status <= 599 {
            DiagnosticLevel::Error
        } else {
            DiagnosticLevel::Info
        };
        let request_body = match request_body {
            Some(body) => Some(cut_text(body.as_str(), DIAGNOSTIC_BODY_LIMIT)),
            None => None,
        };
        RequestDiagnostic {
            level,
            method: String::from_str(method),
            url: String::from_str(url.as_str()),
            status,
            request_body,
            response_body: cut_bytes(bytes, DIAGNOSTIC_BODY_LIMIT),
        }
    }

    /// Turns a response into the value asked for or into the error of its
    /// status, and records it for diagnosis. The whole body is at hand
    /// before anything is decided.
    pub fn process_response<T: FromJson>(
        &self,
        method: &str,
        url: &url::Url,
        request_body: Option<String>,
        status: u16,
        bytes: Vec<u8>,
    ) -> (out: (Result<T, KalshiError>, RequestDiagnostic))
        ensures
            responded(out.0, status, bytes@),
            out.1.records(method@, *url, request_body, status, bytes@),
    {
        let record = Kalshi::diagnostic(method, url, &request_body, status, &bytes);
        let result = match classify_response(Ok((status, bytes))) {
            ClassifiedResponse::Success(body) => match parse_value(body.as_slice()) {
                Ok(json) => match T::from_json(&json) {
                    Some(value) => Ok(value),
                    None => Err(KalshiError::DecodeError { body, transport: None }),
                },
                Err(_) => Err(KalshiError::DecodeError { body, transport: None }),
            },
            ClassifiedResponse::ClientError(status, body) => Err(
                KalshiError::RequestError(RequestError::ClientError { status, body }),
            ),
            ClassifiedResponse::ServerError(status, body) => Err(
                KalshiError::RequestError(RequestError::ServerError { status, body }),
            ),
            ClassifiedResponse::TransportFailure(e) => Err(KalshiError::from(e)),
        };
        (result, record)
    }
}

} // verus!
