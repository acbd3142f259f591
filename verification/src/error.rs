//! The error taxonomy and the classification of HTTP status codes.

use vstd::prelude::*;

verus! {

/// Everything that can go wrong between the client and the brokerage API.
#[derive(Copy, Clone, Debug, PartialEq, Eq, Structural)]
pub enum Error {
    /// An operation that needs a session was called while none exists.
    NoActiveSession,
    /// The token endpoint answered a grant exchange with a non-success status.
    AuthFailure,
    /// The server offers no second-factor method that this client can drive.
    UnsupportedTanType,
    /// The server answered with a second-factor method other than the one
    /// that the flow at hand admits.
    UnexpectedTanType,
    /// The server did not confirm the activation of the session TAN.
    CouldNotCreateSession,
    /// The session could not be ended.
    CouldNotEndSession,
    /// A header or a body field that the protocol promises is missing or malformed.
    UnexpectedResponseShape,
    /// A response body could not be decoded.
    ResponseDecodeFailure,
    /// The server answered with a status in 400..=499 other than 404 and 422.
    ClientError,
    /// The server answered with a status in 500..=599.
    ServerError,
    /// The server answered with status 404.
    NotFound,
    /// The server answered with status 422.
    UnprocessableRequest,
    /// The confirmation provider failed to deliver a one-time code.
    LocalIOFailure,
    /// Any other failure, such as a transport that got no answer at all.
    Other,
}

/// Whether `status` lies in the client-error class, 400..=499.
pub open spec fn is_client_error(status: u16) -> bool {
    400 <= status <= 499
}

/// Whether `status` lies in the server-error class, 500..=599.
pub open spec fn is_server_error(status: u16) -> bool {
    500 <= status <= 599
}

/// Whether `status` lies in the success class, 200..=299.
pub open spec fn is_success(status: u16) -> bool {
    200 <= status <= 299
}

/// The error that stands for a failed request, given the status code that
/// came with the failure, if any.
pub open spec fn classify_status(status: Option<u16>) -> Error {
    match status {
        Some(code) => if code == 404 {
            Error::NotFound
        } else if code == 422 {
            Error::UnprocessableRequest
        } else if is_client_error(code) {
            Error::ClientError
        } else if is_server_error(code) {
            Error::ServerError
        } else {
            Error::Other
        },
        None => Error::Other,
    }
}

impl Error {
    /// Classifies a failed request by the status code it carried.
    pub fn from_status(status: Option<u16>) -> (error: Error)
        ensures
            error == classify_status(status),
    {
        match status {
            Some(404) => Error::NotFound,
            Some(422) => Error::UnprocessableRequest,
            Some(code) => {
                if 400 <= code && code <= 499 {
                    Error::ClientError
                } else if 500 <= code && code <= 599 {
                    Error::ServerError
                } else {
                    Error::Other
                }
            },
            None => Error::Other,
        }
    }

    /// The name of the error, for messages and logs.
    pub fn name(&self) -> (text: &'static str)
        ensures
            text@ == error_name(*self),
    {
        match self {
            Error::NoActiveSession => "NoActiveSession",
            Error::AuthFailure => "AuthFailure",
            Error::UnsupportedTanType => "UnsupportedTanType",
            Error::UnexpectedTanType => "UnexpectedTanType",
            Error::CouldNotCreateSession => "CouldNotCreateSession",
            Error::CouldNotEndSession => "CouldNotEndSession",
            Error::UnexpectedResponseShape => "UnexpectedResponseShape",
            Error::ResponseDecodeFailure => "ResponseDecodeFailure",
            Error::ClientError => "ClientError",
            Error::ServerError => "ServerError",
            Error::NotFound => "NotFound",
            Error::UnprocessableRequest => "UnprocessableRequest",
            Error::LocalIOFailure => "LocalIOFailure",
            Error::Other => "Other",
        }
    }
}

/// The name under which each error is reported.
pub open spec fn error_name(error: Error) -> Seq<char> {
    match error {
        Error::NoActiveSession => "NoActiveSession"@,
        Error::AuthFailure => "AuthFailure"@,
        Error::UnsupportedTanType => "UnsupportedTanType"@,
        Error::UnexpectedTanType => "UnexpectedTanType"@,
        Error::CouldNotCreateSession => "CouldNotCreateSession"@,
        Error::CouldNotEndSession => "CouldNotEndSession"@,
        Error::UnexpectedResponseShape => "UnexpectedResponseShape"@,
        Error::ResponseDecodeFailure => "ResponseDecodeFailure"@,
        Error::ClientError => "ClientError"@,
        Error::ServerError => "ServerError"@,
        Error::NotFound => "NotFound"@,
        Error::UnprocessableRequest => "UnprocessableRequest"@,
        Error::LocalIOFailure => "LocalIOFailure"@,
        Error::Other => "Other"@,
    }
}

} // verus!
