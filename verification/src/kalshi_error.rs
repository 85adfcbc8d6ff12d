//! The errors that the library reports.

use vstd::prelude::*;
use vstd::string::StringExecFns;
use crate::text::{decimal, decimal_string};

verus! {

/// The error of `url`'s parser.
#[verifier::external_type_specification]
#[verifier::external_body]
pub struct ExUrlParseError(url::ParseError);

/// Why no authentication headers could be made.
#[derive(Debug, Clone, Copy, PartialEq, Eq, Structural)]
pub enum CredentialError {
    /// Session-token authentication is chosen and there is no token.
    MissingToken,
    /// The private key cannot be read, or cannot sign.
    MalformedKey,
    /// The clock gives no time in milliseconds since the Unix epoch.
    Clock,
}

/// What the transport reports of a request that got no usable response: no
/// status class is read out of it but the one it carries.
#[derive(Debug, Clone)]
pub struct TransportError {
    /// The response body could not be decoded.
    pub is_decode: bool,
    /// The failure was made from a response's status.
    pub is_status: bool,
    /// The status code that came with the failure, if any.
    pub status: Option<u16>,
    /// The request or response body failed.
    pub is_body: bool,
    /// The request timed out.
    pub is_timeout: bool,
    /// The transport's own description.
    pub message: String,
}

/// What went wrong with one HTTP request.
#[derive(Debug)]
pub enum RequestError {
    /// The request got no response: timeout, connection reset, malformed
    /// HTTP. There is no status code.
    TransportFailure(TransportError),
    /// A status from 400 to 499, with the raw body.
    ClientError { status: u16, body: Vec<u8> },
    /// Another status outside 200 to 299, with the raw body.
    ServerError { status: u16, body: Vec<u8> },
    /// The URL could not be parsed.
    UrlParseError(url::ParseError),
}

/// Why an inbound frame could not be decoded.
#[derive(Debug)]
pub enum DecodeError {
    /// The frame is no JSON text.
    InvalidJson,
    /// The frame has no member `type` that is a string.
    MissingDiscriminant,
    /// The protocol does not know this value of `type`.
    UnknownVariant(String),
    /// The value of `type` is known, and the frame does not have the shape
    /// that goes with it.
    MalformedPayload(String),
}

/// The exchange refused a subscribe or unsubscribe command.
#[derive(Debug)]
pub struct SubscriptionError {
    /// The id of the refused command.
    pub command_id: u32,
    /// The exchange's error code.
    pub code: u32,
    /// The exchange's message.
    pub msg: String,
}

/// Every error of the library.
#[derive(Debug)]
pub enum KalshiError {
    /// No authentication headers could be made.
    CredentialError(CredentialError),
    /// The request failed, in transport or by its status.
    RequestError(RequestError),
    /// The body is not what was asked for. Where the library found that
    /// out, on a status of success, the whole body is kept; where the
    /// transport did, what the transport reports is kept and there is no
    /// body.
    DecodeError { body: Vec<u8>, transport: Option<TransportError> },
    /// The exchange refused a subscribe or unsubscribe command.
    SubscriptionError(SubscriptionError),
    /// The caller's input is not acceptable.
    UserInputError(String),
    /// Something that is not supposed to happen.
    InternalError(String),
}

/// The class of an HTTP status code.
#[derive(Debug, Clone, Copy, PartialEq, Eq, Structural)]
pub enum StatusClass {
    Success,
    ClientError,
    ServerError,
}

/// The class of a status code: 200 to 299 is a success, 400 to 499 a client
/// error, and every other code counts as a server error.
pub open spec fn status_class(status: u16) -> StatusClass {
    if 200 <= status <= 299 {
        StatusClass::Success
    } else if 400 <= status <= 499 {
        StatusClass::ClientError
    } else {
        StatusClass::ServerError
    }
}

/// Classifies a status code.
pub fn classify_status(status: u16) -> (class: StatusClass)
    ensures
        class == status_class(status),
        200 <= status <= 299 ==> class == StatusClass::Success,
        400 <= status <= 499 ==> class == StatusClass::ClientError,
        500 <= status <= 599 ==> class == StatusClass::ServerError,
{
    if 200 <= status && status <= 299 {
        StatusClass::Success
    } else if 400 <= status && status <= 499 {
        StatusClass::ClientError
    } else {
        StatusClass::ServerError
    }
}

/// The error that a transport failure stands for. A failure to decode the
/// body is a decode error; a failure that carries a status is a client or a
/// server error by the class of that status; every other one is a transport
/// failure, which has no status class.
pub open spec fn transport_error_kind(e: TransportError) -> ErrorKind {
    if e.is_decode {
        ErrorKind::Decode
    } else if e.is_status && e.status is Some {
        if status_class(e.status->0) == StatusClass::ClientError {
            ErrorKind::Client(e.status->0)
        } else {
            ErrorKind::Server(e.status->0)
        }
    } else {
        ErrorKind::Transport
    }
}

/// The kinds of error that a request can end in.
pub enum ErrorKind {
    Decode,
    Client(u16),
    Server(u16),
    Transport,
}

impl KalshiError {
    /// Whether this error is of the given kind: a decode error that holds
    /// `e` itself, a status error with its status, both without a body, or a
    /// transport failure that holds `e` itself.
    pub open spec fn is_of(self, kind: ErrorKind, e: TransportError) -> bool {
        match kind {
            ErrorKind::Decode => self matches KalshiError::DecodeError { body, transport }
                && body@.len() == 0 && transport == Some(e),
            ErrorKind::Client(status) => self matches KalshiError::RequestError(
                RequestError::ClientError { status: found, body },
            ) && found == status && body@.len() == 0,
            ErrorKind::Server(status) => self matches KalshiError::RequestError(
                RequestError::ServerError { status: found, body },
            ) && found == status && body@.len() == 0,
            ErrorKind::Transport => self matches KalshiError::RequestError(
                RequestError::TransportFailure(found),
            ) && found == e,
        }
    }
}

impl From<TransportError> for KalshiError {
    /// The error for a transport failure.
    fn from(e: TransportError) -> (error: KalshiError)
        ensures
            error.is_of(transport_error_kind(e), e),
    {
        if e.is_decode {
            KalshiError::DecodeError { body: Vec::new(), transport: Some(e) }
        } else if e.is_status {
            match e.status {
                Some(status) => match classify_status(status) {
                    StatusClass::ClientError => KalshiError::RequestError(
                        RequestError::ClientError { status, body: Vec::new() },
                    ),
                    _ => KalshiError::RequestError(
                        RequestError::ServerError { status, body: Vec::new() },
                    ),
                },
                None => KalshiError::RequestError(RequestError::TransportFailure(e)),
            }
        } else {
            KalshiError::RequestError(RequestError::TransportFailure(e))
        }
    }
}

impl vstd::std_specs::convert::FromSpecImpl<TransportError> for KalshiError {
    open spec fn obeys_from_spec() -> bool {
        false
    }

    open spec fn from_spec(e: TransportError) -> KalshiError {
        arbitrary()
    }
}


/// The text that `url` gives for one of its errors.
pub uninterp spec fn url_error_text(e: url::ParseError) -> Seq<char>;

/// `ParseError`'s `to_string`: the description that `url` has for the error.
#[verifier::external_body]
fn url_error_string(e: &url::ParseError) -> (text: String)
    ensures
        text@ == url_error_text(*e),
{
    e.to_string()
}

impl CredentialError {
    /// What the error says.
    pub open spec fn text(self) -> Seq<char> {
        match self {
            CredentialError::MissingToken => "there is no session token"@,
            CredentialError::MalformedKey => "the private key cannot be read or cannot sign"@,
            CredentialError::Clock => "the clock gives no time since the Unix epoch"@,
        }
    }

    /// What the error says.
    pub fn message(&self) -> (text: &'static str)
        ensures
            text@ == self.text(),
    {
        match self {
            CredentialError::MissingToken => "there is no session token",
            CredentialError::MalformedKey => "the private key cannot be read or cannot sign",
            CredentialError::Clock => "the clock gives no time since the Unix epoch",
        }
    }
}

impl DecodeError {
    /// What the error says.
    pub open spec fn text(self) -> Seq<char> {
        match self {
            DecodeError::InvalidJson => "the frame is no JSON text"@,
            DecodeError::MissingDiscriminant => "the frame has no type"@,
            DecodeError::UnknownVariant(tag) => "unknown frame type: "@ + tag@,
            DecodeError::MalformedPayload(tag) => "malformed frame of type: "@ + tag@,
        }
    }

    /// What the error says.
    pub fn message(&self) -> (text: String)
        ensures
            text@ == self.text(),
    {
        match self {
            DecodeError::InvalidJson => String::from_str("the frame is no JSON text"),
            DecodeError::MissingDiscriminant => String::from_str("the frame has no type"),
            DecodeError::UnknownVariant(tag) => String::from_str("unknown frame type: ").concat(
                tag.as_str(),
            ),
            DecodeError::MalformedPayload(tag) => String::from_str(
                "malformed frame of type: ",
            ).concat(tag.as_str()),
        }
    }
}

impl SubscriptionError {
    /// What the error says: the exchange's code and message.
    pub open spec fn text(self) -> Seq<char> {
        "code "@ + decimal(self.code as nat) + ": "@ + self.msg@
    }

    /// What the error says.
    pub fn message(&self) -> (text: String)
        ensures
            text@ == self.text(),
    {
        let mut text = String::from_str("code ");
        text.append(decimal_string(self.code as u64).as_str());
        text.append(": ");
        text.append(self.msg.as_str());
        text
    }
}

impl RequestError {
    /// What the error says: the status code of a status error, and the
    /// transport's or the parser's own words else.
    pub open spec fn text(self) -> Seq<char> {
        match self {
            RequestError::TransportFailure(e) => "Transport Failure: "@ + e.message@,
            RequestError::ClientError { status, .. } => "Client Request Error, Status code: "@
                + decimal(status as nat),
            RequestError::ServerError { status, .. } => "Server Request Error, Status code: "@
                + decimal(status as nat),
            RequestError::UrlParseError(e) => "URL Parse Error: "@ + url_error_text(e),
        }
    }

    /// What the error says.
    pub fn message(&self) -> (text: String)
        ensures
            text@ == self.text(),
    {
        match self {
            RequestError::TransportFailure(e) => String::from_str("Transport Failure: ").concat(
                e.message.as_str(),
            ),
            RequestError::ClientError { status, .. } => String::from_str(
                "Client Request Error, Status code: ",
            ).concat(decimal_string(*status as u64).as_str()),
            RequestError::ServerError { status, .. } => String::from_str(
                "Server Request Error, Status code: ",
            ).concat(decimal_string(*status as u64).as_str()),
            RequestError::UrlParseError(e) => String::from_str("URL Parse Error: ").concat(
                url_error_string(e).as_str(),
            ),
        }
    }
}

impl KalshiError {
    /// What the error says: its kind, then the words of what it holds.
    pub open spec fn text(self) -> Seq<char> {
        match self {
            KalshiError::CredentialError(e) => "Credential Error: "@ + e.text(),
            KalshiError::RequestError(e) => "HTTP Error: "@ + e.text(),
            KalshiError::DecodeError { transport: Some(e), .. } => "Decode Error: "@ + e.message@,
            KalshiError::DecodeError { transport: None, .. } =>
                "Decode Error: the response body is not what was asked for"@,
            KalshiError::SubscriptionError(e) => "Subscription Error: "@ + e.text(),
            KalshiError::UserInputError(e) => "User Input Error: "@ + e@,
            KalshiError::InternalError(e) => "Internal Error: "@ + e@,
        }
    }

    /// What the error says.
    pub fn message(&self) -> (text: String)
        ensures
            text@ == self.text(),
    {
        match self {
            KalshiError::CredentialError(e) => String::from_str("Credential Error: ").concat(
                e.message(),
            ),
            KalshiError::RequestError(e) => String::from_str("HTTP Error: ").concat(
                e.message().as_str(),
            ),
            KalshiError::DecodeError { transport: Some(e), .. } => String::from_str(
                "Decode Error: ",
            ).concat(e.message.as_str()),
            KalshiError::DecodeError { transport: None, .. } => String::from_str(
                "Decode Error: the response body is not what was asked for",
            ),
            KalshiError::SubscriptionError(e) => String::from_str("Subscription Error: ").concat(
                e.message().as_str(),
            ),
            KalshiError::UserInputError(e) => String::from_str("User Input Error: ").concat(
                e.as_str(),
            ),
            KalshiError::InternalError(e) => String::from_str("Internal Error: ").concat(
                e.as_str(),
            ),
        }
    }
}

} // verus!
