//! Binding a fresh token pair to a session identity.

use vstd::prelude::*;
use vstd::string::*;
use crate::error::Error;
use crate::http::{spec_status_error, HttpMethod, HttpReply, HttpRequest, HttpRequestView};
use crate::json::parsed_json;
use crate::negotiate::spec_sessions_url;
use crate::session::{
    make_session_request, spec_decode_single_status, spec_session_request, PreSession, Session,
    SessionId, SessionStatus,
};

verus! {

/// The request for the status of the user's session: a GET of the sessions
/// of the user, authorized by the fresh access token and marked with the
/// client's id for the session.
pub open spec fn spec_status_request(
    access_token: Seq<char>,
    session_id: Seq<char>,
    request_id: Seq<char>,
) -> HttpRequestView {
    spec_session_request(
        HttpMethod::Get,
        spec_sessions_url(),
        access_token,
        session_id,
        request_id,
    )
}

/// What a reply to the request for the session status amounts to: the error
/// of its status; [`Error::ResponseDecodeFailure`] for a body that is no
/// JSON; [`Error::UnexpectedResponseShape`] for a body that is not an array
/// of exactly one session status; otherwise that status, as the id that the
/// server assigned with the flag that tells whether the TAN is active.
pub open spec fn spec_status_outcome(reply: HttpReply) -> Result<(Seq<char>, bool), Error> {
    match spec_status_error(reply) {
        Some(error) => Err(error),
        None => match parsed_json(reply->Answer_0.body@) {
            Some(json) => match spec_decode_single_status(json) {
                Some(status) => Ok(status),
                None => Err(Error::UnexpectedResponseShape),
            },
            None => Err(Error::ResponseDecodeFailure),
        },
    }
}

/// The content of a session status, or the error in its place.
pub open spec fn status_result_view(result: Result<SessionStatus, Error>) -> Result<
    (Seq<char>, bool),
    Error,
> {
    match result {
        Ok(status) => Ok((status.identifier@, status.tan_is_active)),
        Err(error) => Err(error),
    }
}

/// Builds the request for the status of the user's session.
pub fn make_status_request(pre_session: &PreSession, session_id: &SessionId, request_id: &str) -> (request:
    HttpRequest)
    ensures
        request@ == spec_status_request(
            pre_session.tokens@.access_token,
            session_id@,
            request_id@,
        ),
{
    make_session_request(
        HttpMethod::Get,
        String::from_str("https://api.comdirect.de/api/session/clients/user/v1/sessions"),
        &pre_session.tokens.access_token,
        session_id,
        request_id,
    )
}

/// Reads the reply to the request for the session status.
pub fn read_status_reply(reply: &HttpReply) -> (outcome: Result<SessionStatus, Error>)
    ensures
        status_result_view(outcome) == spec_status_outcome(*reply),
{
    match reply.check_status() {
        Ok(response) => match response.json() {
            Ok(json) => SessionStatus::from_single(&json),
            Err(error) => Err(error),
        },
        Err(error) => Err(error),
    }
}

/// Binds a fresh token pair to the session that the reply describes: the
/// session keeps the client's id and the token pair, and takes the id that
/// the server assigned.
pub fn establish(pre_session: PreSession, session_id: SessionId, reply: &HttpReply) -> (outcome: Result<
    Session,
    Error,
>)
    ensures
        match outcome {
            Ok(session) => {
                &&& spec_status_outcome(*reply) matches Ok(status)
                &&& session.session_uuid@ == status.0
                &&& session.session_id == session_id
                &&& session.tokens == pre_session.tokens
            },
            Err(error) => spec_status_outcome(*reply) == Err::<(Seq<char>, bool), Error>(error),
        },
{
    match read_status_reply(reply) {
        Ok(status) => Ok(
            Session::from_pre_session(pre_session, session_id, status.take_session_uuid()),
        ),
        Err(error) => Err(error),
    }
}

} // verus!
