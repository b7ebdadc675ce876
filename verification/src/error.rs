//! The failures that signing in can end with.

use vstd::prelude::*;
use vstd::string::StringExecFns;

verus! {

/// Why the password proof engine refused its input.
#[derive(Debug)]
pub enum SrpFailure {
    /// An argument handed to the engine was not in the form it requires.
    InvalidArgument(String),
    /// The keyed hash could not be set up.
    Cryptography,
}

/// How an HTTP exchange failed.
#[derive(Debug)]
pub enum HttpFailure {
    /// The request could not be sent, or no response came back.
    Transport(String),
    /// The response carried this status where success was expected.
    Status(u16),
}

/// A mandatory field of the server's challenge.
#[derive(Debug, Clone, Copy, PartialEq, Eq, Structural)]
pub enum ChallengeField {
    Salt,
    SecretBlock,
    SrpB,
    Username,
    UserIdForSrp,
}

/// Every way in which signing in can fail.
#[derive(Debug)]
pub enum Error {
    /// The network or the HTTP exchange failed.
    HttpError(HttpFailure),
    /// The password proof engine refused its input.
    Srp(SrpFailure),
    /// A response body could not be read as the expected document.
    Serialization(String),
    /// A header value held bytes outside the visible ASCII range.
    InvalidHeaderValue,
    /// A response lacked the named header.
    MissingHeader(String),
    /// The bearer header did not have the form `Bearer <token>`.
    InvalidTokenFormat(String),
    /// The challenge lacked one of its mandatory fields.
    MalformedChallenge(ChallengeField),
    /// The server's public value is not usable: zero modulo the group prime,
    /// or one that scrambles to zero.
    InvalidServerValue,
    /// The identity provider rejected the credentials.
    InvalidCredentials,
    /// A reply arrived that the handshake was not waiting for.
    UnexpectedReply,
}

/// How a failure is to be presented, and whether trying again can help.
#[derive(Debug, Clone, Copy, PartialEq, Eq, Structural)]
pub enum ErrorClass {
    /// The identity provider rejected the credentials.
    Credentials,
    /// The service could not be reached, or answered with a failure status.
    Transport,
    /// The handshake broke: a server sent what it may not send, or the proof
    /// could not be computed.
    Unexpected,
}

impl Error {
    /// The class of the failure: a rejection of the credentials, a failure of
    /// the transport, or anything else.
    pub open spec fn spec_class(&self) -> ErrorClass {
        match self {
            Error::InvalidCredentials => ErrorClass::Credentials,
            Error::HttpError(_) => ErrorClass::Transport,
            _ => ErrorClass::Unexpected,
        }
    }

    /// The class of the failure.
    pub fn class(&self) -> (r: ErrorClass)
        ensures
            r == self.spec_class(),
    {
        match self {
            Error::InvalidCredentials => ErrorClass::Credentials,
            Error::HttpError(_) => ErrorClass::Transport,
            _ => ErrorClass::Unexpected,
        }
    }

    /// Only a failure of the transport is worth a new attempt.
    pub fn is_retryable(&self) -> (r: bool)
        ensures
            r == (self.spec_class() == ErrorClass::Transport),
    {
        match self {
            Error::HttpError(_) => true,
            _ => false,
        }
    }

    /// The failure in words.
    pub open spec fn spec_message(&self) -> Seq<char> {
        match self {
            Error::HttpError(HttpFailure::Transport(why)) => "Could not reach the service: "@
                + why@,
            Error::HttpError(HttpFailure::Status(_)) => "The service answered with a failure status"@,
            Error::Srp(SrpFailure::InvalidArgument(why)) => "Invalid argument: "@ + why@,
            Error::Srp(SrpFailure::Cryptography) => "Cryptography error"@,
            Error::Serialization(why) => "Could not read the response: "@ + why@,
            Error::InvalidHeaderValue => "Invalid header value"@,
            Error::MissingHeader(name) => "Missing header: "@ + name@,
            Error::InvalidTokenFormat(why) => "Invalid token format: "@ + why@,
            Error::MalformedChallenge(field) => "Malformed challenge: missing "@
                + field.spec_name(),
            Error::InvalidServerValue => "Invalid server value"@,
            Error::InvalidCredentials => "Authentication failed"@,
            Error::UnexpectedReply => "Unexpected reply"@,
        }
    }

    /// The failure in words.
    pub fn message(&self) -> (r: String)
        ensures
            r@ == self.spec_message(),
    {
        match self {
            Error::HttpError(HttpFailure::Transport(why)) => String::from_str(
                "Could not reach the service: ",
            ).concat(why.as_str()),
            Error::HttpError(HttpFailure::Status(_)) => String::from_str(
                "The service answered with a failure status",
            ),
            Error::Srp(SrpFailure::InvalidArgument(why)) => String::from_str(
                "Invalid argument: ",
            ).concat(why.as_str()),
            Error::Srp(SrpFailure::Cryptography) => String::from_str("Cryptography error"),
            Error::Serialization(why) => String::from_str("Could not read the response: ").concat(
                why.as_str(),
            ),
            Error::InvalidHeaderValue => String::from_str("Invalid header value"),
            Error::MissingHeader(name) => String::from_str("Missing header: ").concat(
                name.as_str(),
            ),
            Error::InvalidTokenFormat(why) => String::from_str("Invalid token format: ").concat(
                why.as_str(),
            ),
            Error::MalformedChallenge(field) => String::from_str(
                "Malformed challenge: missing ",
            ).concat(field.name()),
            Error::InvalidServerValue => String::from_str("Invalid server value"),
            Error::InvalidCredentials => String::from_str("Authentication failed"),
            Error::UnexpectedReply => String::from_str("Unexpected reply"),
        }
    }
}

impl ChallengeField {
    /// The field's name in the challenge document.
    pub open spec fn spec_name(self) -> Seq<char> {
        match self {
            ChallengeField::Salt => "SALT"@,
            ChallengeField::SecretBlock => "SECRET_BLOCK"@,
            ChallengeField::SrpB => "SRP_B"@,
            ChallengeField::Username => "USERNAME"@,
            ChallengeField::UserIdForSrp => "USER_ID_FOR_SRP"@,
        }
    }

    /// The field's name in the challenge document.
    pub fn name(self) -> (r: &'static str)
        ensures
            r@ == self.spec_name(),
    {
        match self {
            ChallengeField::Salt => "SALT",
            ChallengeField::SecretBlock => "SECRET_BLOCK",
            ChallengeField::SrpB => "SRP_B",
            ChallengeField::Username => "USERNAME",
            ChallengeField::UserIdForSrp => "USER_ID_FOR_SRP",
        }
    }
}

} // verus!
