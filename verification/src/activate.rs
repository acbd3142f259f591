//! The activation of a session's TAN, once the user has confirmed the
//! challenge out of band.

use vstd::prelude::*;
use vstd::string::*;
use crate::error::Error;
use crate::http::{spec_status_error, BodyView, HttpMethod, HttpReply, HttpRequest, HttpRequestView};
use crate::json::parsed_json;
use crate::negotiate::{make_identity_body, spec_identity_body, spec_sessions_url};
use crate::session::{spec_decode_status, spec_session_request, Session, SessionStatus, SessionView};
use crate::tan::{
    spec_challenge_header, spec_confirmation_info, spec_needs_secret, TanChallenge,
    TanChallengeType, TanChallengeView,
};

verus! {

/// The request that activates the TAN of a session: a PATCH of the session,
/// marked and authorized as every request of the session, with the header
/// that echoes the id of the challenge, the identity of the session as its
/// body, and, only for a challenge that is confirmed with a one-time code,
/// the header that carries the code.
pub open spec fn spec_activation_request(
    session: SessionView,
    challenge: TanChallengeView,
    tan: Seq<char>,
    request_id: Seq<char>,
) -> HttpRequestView {
    let plain = spec_session_request(
        HttpMethod::Patch,
        spec_sessions_url() + "/"@ + session.session_uuid,
        session.tokens.access_token,
        session.session_id,
        request_id,
    );
    let echoed = plain.headers.push((spec_challenge_header(), spec_confirmation_info(challenge.id)));
    HttpRequestView {
        headers: if spec_needs_secret(challenge.typ) {
            echoed.push(("x-once-authentication"@, tan))
        } else {
            echoed
        },
        body: BodyView::Json(spec_identity_body(session.session_uuid)),
        ..plain
    }
}

/// What a reply to the activation amounts to: the error of its status;
/// [`Error::ResponseDecodeFailure`] for a body that is no JSON;
/// [`Error::UnexpectedResponseShape`] for a body that is no session status;
/// [`Error::CouldNotCreateSession`] where the status says that the TAN is
/// not active; success otherwise.
pub open spec fn spec_activation_outcome(reply: HttpReply) -> Result<(), Error> {
    match spec_status_error(reply) {
        Some(error) => Err(error),
        None => match parsed_json(reply->Answer_0.body@) {
            Some(json) => match spec_decode_status(json) {
                Some(status) => if status.1 {
                    Ok(())
                } else {
                    Err(Error::CouldNotCreateSession)
                },
                None => Err(Error::UnexpectedResponseShape),
            },
            None => Err(Error::ResponseDecodeFailure),
        },
    }
}

/// Builds the request that activates the TAN of a session. The one-time code
/// `tan` is sent only where the kind of the challenge asks for one. A
/// challenge of the kind `Free` has no place in the making of a session.
pub fn make_activation_request(
    session: &Session,
    tan_challenge: &TanChallenge,
    tan: &str,
    request_id: &str,
) -> (request: HttpRequest)
    requires
        tan_challenge.typ != TanChallengeType::Free,
    ensures
        request@ == spec_activation_request(session@, tan_challenge@, tan@, request_id@),
{
    let url = String::from_str("https://api.comdirect.de/api/session/clients/user/v1/sessions")
        .concat("/").concat(session.session_uuid.as_str());
    let tan_header = tan_challenge.make_x_authentication_info_header();
    let request = session.request(HttpMethod::Patch, url, request_id).with_header(
        "x-once-authentication-info",
        tan_header.value,
    ).with_json(make_identity_body(session.session_uuid.as_str()));
    match tan_challenge.typ {
        TanChallengeType::PushTan => request,
        TanChallengeType::Free => request,
        _ => request.with_header("x-once-authentication", String::from_str(tan)),
    }
}

/// Reads the reply to the activation.
pub fn read_activation_reply(reply: &HttpReply) -> (outcome: Result<(), Error>)
    ensures
        outcome == spec_activation_outcome(*reply),
{
    match reply.check_status() {
        Ok(response) => match response.json() {
            Ok(json) => match SessionStatus::from_json(&json) {
                Ok(status) => {
                    if status.tan_is_active() {
                        Ok(())
                    } else {
                        Err(Error::CouldNotCreateSession)
                    }
                },
                Err(error) => Err(error),
            },
            Err(error) => Err(error),
        },
        Err(error) => Err(error),
    }
}

/// What the user is told to do about a challenge: to approve a push
/// notification, or to call the number that a challenge of the mobile kind
/// names and to enter the code; in any case to press enter afterwards. For
/// the other kinds there is nothing to tell but that.
pub open spec fn spec_confirmation_prompt(challenge: TanChallengeView) -> Seq<char> {
    match challenge.typ {
        TanChallengeType::PushTan => "Please open your PhotoTan App and activate the PushTan."@
            + " Then press enter."@,
        TanChallengeType::MobileTan => match challenge.challenge {
            Some(number) => "Please call '"@ + number + "' and input the TAN.\n"@
                + " Then press enter."@,
            None => " Then press enter."@,
        },
        _ => " Then press enter."@,
    }
}

/// Writes what the user is told to do about a challenge. A challenge of the
/// kind `Free` has no place in the making of a session.
pub fn confirmation_prompt(tan_challenge: &TanChallenge) -> (prompt: String)
    requires
        tan_challenge.typ != TanChallengeType::Free,
    ensures
        prompt@ == spec_confirmation_prompt(tan_challenge@),
{
    match tan_challenge.typ {
        TanChallengeType::PushTan => String::from_str(
            "Please open your PhotoTan App and activate the PushTan.",
        ).concat(" Then press enter."),
        TanChallengeType::MobileTan => match &tan_challenge.challenge {
            Some(number) => String::from_str("Please call '").concat(number.as_str()).concat(
                "' and input the TAN.\n",
            ).concat(" Then press enter."),
            None => String::from_str(" Then press enter."),
        },
        _ => String::from_str(" Then press enter."),
    }
}

} // verus!
