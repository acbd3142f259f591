use comdirect_api::activate::{
    confirmation_prompt, make_activation_request, read_activation_reply,
};
use comdirect_api::error::Error;
use comdirect_api::establish::{establish, make_status_request, read_status_reply};
use comdirect_api::http::{Body, Field, HttpMethod, HttpReply, HttpResponse};
use comdirect_api::negotiate::make_identity_body;
use comdirect_api::session::{make_request_info, PreSession, Session, SessionId, TokenPair};
use comdirect_api::tan::{TanChallenge, TanChallengeType};

fn session_id() -> SessionId {
    SessionId::new("ffffffffffffffffffffffffffffffff".to_string()).unwrap()
}

fn pre_session() -> PreSession {
    PreSession {
        tokens: TokenPair {
            access_token: "AT0".to_string(),
            refresh_token: "RT0".to_string(),
            expires_at: 500,
        },
    }
}

fn session() -> Session {
    Session::from_pre_session(pre_session(), session_id(), "UUID-9".to_string())
}

fn body_reply(status: u16, body: &str) -> HttpReply {
    HttpReply::Answer(HttpResponse { status, headers: vec![], body: body.to_string() })
}

fn challenge(typ: TanChallengeType, hint: Option<&str>) -> TanChallenge {
    TanChallenge::new("CH-1".to_string(), typ, vec![typ], hint.map(|text| text.to_string()))
}

#[test]
fn status_request_uses_the_fresh_token() {
    let request = make_status_request(&pre_session(), &session_id(), "r1");
    assert_eq!(request.method, HttpMethod::Get);
    assert_eq!(request.url, "https://api.comdirect.de/api/session/clients/user/v1/sessions");
    assert_eq!(request.bearer, Some("AT0".to_string()));
    assert_eq!(request.body, Body::Empty);
    assert_eq!(
        request.headers,
        vec![Field {
            name: "x-http-request-info".to_string(),
            value: make_request_info(&session_id(), "r1"),
        }]
    );
}

#[test]
fn establish_binds_tokens_to_the_server_uuid() {
    let reply = body_reply(200, "[{\"identifier\":\"UUID-9\",\"sessionTanActive\":false}]");
    let session = establish(pre_session(), session_id(), &reply).unwrap();
    assert_eq!(session.session_uuid, "UUID-9");
    assert_eq!(session.session_id, session_id());
    assert_eq!(session.tokens, pre_session().tokens);
}

#[test]
fn establish_refuses_an_empty_array() {
    assert_eq!(
        establish(pre_session(), session_id(), &body_reply(200, "[]")).err(),
        Some(Error::UnexpectedResponseShape)
    );
}

#[test]
fn establish_refuses_a_status_without_identifier() {
    assert_eq!(
        establish(pre_session(), session_id(), &body_reply(200, "[{\"sessionTanActive\":true}]"))
            .err(),
        Some(Error::UnexpectedResponseShape)
    );
}

#[test]
fn establish_reports_status_and_decoding_failures() {
    assert_eq!(
        establish(pre_session(), session_id(), &body_reply(401, "[]")).err(),
        Some(Error::ClientError)
    );
    assert_eq!(
        establish(pre_session(), session_id(), &body_reply(200, "oops")).err(),
        Some(Error::ResponseDecodeFailure)
    );
    assert_eq!(
        establish(pre_session(), session_id(), &HttpReply::NoAnswer).err(),
        Some(Error::Other)
    );
}

#[test]
fn status_reply_is_read() {
    let reply = body_reply(200, "[{\"identifier\":\"U\",\"sessionTanActive\":true}]");
    let status = read_status_reply(&reply).unwrap();
    assert_eq!(status.identifier, "U");
    assert!(status.tan_is_active);
}

#[test]
fn push_activation_echoes_the_challenge_without_code() {
    let request = make_activation_request(
        &session(),
        &challenge(TanChallengeType::PushTan, None),
        "123456",
        "r7",
    );
    assert_eq!(request.method, HttpMethod::Patch);
    assert_eq!(
        request.url,
        "https://api.comdirect.de/api/session/clients/user/v1/sessions/UUID-9"
    );
    assert_eq!(request.bearer, Some("AT0".to_string()));
    assert_eq!(
        request.headers,
        vec![
            Field {
                name: "x-http-request-info".to_string(),
                value: make_request_info(&session_id(), "r7"),
            },
            Field {
                name: "x-once-authentication-info".to_string(),
                value: "{\"id\":\"CH-1\"}".to_string(),
            },
        ]
    );
    assert_eq!(request.body, Body::Json(make_identity_body("UUID-9")));
}

#[test]
fn coded_activation_carries_the_code() {
    for typ in
        [TanChallengeType::PhotoTan, TanChallengeType::PhotoTanApp, TanChallengeType::MobileTan]
    {
        let request = make_activation_request(&session(), &challenge(typ, None), "123456", "r7");
        assert_eq!(request.headers.len(), 3);
        assert_eq!(request.headers[1].name, "x-once-authentication-info");
        assert_eq!(
            request.headers[2],
            Field { name: "x-once-authentication".to_string(), value: "123456".to_string() }
        );
    }
}

#[test]
fn activation_succeeds_when_the_tan_is_active() {
    let reply = body_reply(200, "{\"identifier\":\"UUID-9\",\"sessionTanActive\":true}");
    assert_eq!(read_activation_reply(&reply), Ok(()));
}

#[test]
fn activation_fails_when_the_tan_is_not_active() {
    let reply = body_reply(200, "{\"identifier\":\"UUID-9\",\"sessionTanActive\":false}");
    assert_eq!(read_activation_reply(&reply), Err(Error::CouldNotCreateSession));
}

#[test]
fn activation_reports_malformed_replies() {
    assert_eq!(
        read_activation_reply(&body_reply(200, "{\"identifier\":\"UUID-9\"}")),
        Err(Error::UnexpectedResponseShape)
    );
    assert_eq!(read_activation_reply(&body_reply(200, "")), Err(Error::ResponseDecodeFailure));
    assert_eq!(read_activation_reply(&body_reply(422, "")), Err(Error::UnprocessableRequest));
    assert_eq!(read_activation_reply(&body_reply(500, "")), Err(Error::ServerError));
}

#[test]
fn prompts_tell_the_user_what_to_do() {
    assert_eq!(
        confirmation_prompt(&challenge(TanChallengeType::PushTan, None)),
        "Please open your PhotoTan App and activate the PushTan. Then press enter."
    );
    assert_eq!(
        confirmation_prompt(&challenge(TanChallengeType::MobileTan, Some("+49 170"))),
        "Please call '+49 170' and input the TAN.\n Then press enter."
    );
    assert_eq!(
        confirmation_prompt(&challenge(TanChallengeType::MobileTan, None)),
        " Then press enter."
    );
    assert_eq!(
        confirmation_prompt(&challenge(TanChallengeType::PhotoTan, Some("hint"))),
        " Then press enter."
    );
}
