use comdirect_api::activate::make_activation_request;
use comdirect_api::error::Error;
use comdirect_api::establish::make_status_request;
use comdirect_api::http::{Body, Field, HttpMethod, HttpReply, HttpRequest, HttpResponse};
use comdirect_api::lifecycle::{
    make_revoke_request, ApiClient, CreationStep, SessionCreation,
};
use comdirect_api::negotiate::make_challenge_request;
use comdirect_api::oauth::Credentials;
use comdirect_api::session::{GrantType, PreSession, Session, SessionId, TokenPair};
use comdirect_api::tan::TanChallengeType;

fn session_id() -> SessionId {
    SessionId::new("0123456789abcdef0123456789abcdef".to_string()).unwrap()
}

fn client() -> ApiClient {
    ApiClient::new(
        "CLIENT".to_string(),
        "SECRET".to_string(),
        "USER".to_string(),
        "PASS".to_string(),
    )
}

fn credentials() -> Credentials {
    Credentials::new(
        "CLIENT".to_string(),
        "SECRET".to_string(),
        "USER".to_string(),
        "PASS".to_string(),
    )
}

fn tokens(access: &str, refresh: &str, expires_at: i64) -> TokenPair {
    TokenPair {
        access_token: access.to_string(),
        refresh_token: refresh.to_string(),
        expires_at,
    }
}

fn session() -> Session {
    Session {
        session_id: session_id(),
        session_uuid: "UUID-1".to_string(),
        tokens: tokens("AT1", "RT1", 1_600),
    }
}

fn body_reply(status: u16, body: &str) -> HttpReply {
    HttpReply::Answer(HttpResponse { status, headers: vec![], body: body.to_string() })
}

fn challenge_reply(description: &str) -> HttpReply {
    HttpReply::Answer(HttpResponse {
        status: 201,
        headers: vec![Field {
            name: "x-once-authentication-info".to_string(),
            value: description.to_string(),
        }],
        body: String::new(),
    })
}

fn token_body(access: &str, refresh: &str, lifetime: i64) -> String {
    format!(
        "{{\"access_token\":\"{}\",\"refresh_token\":\"{}\",\"expires_in\":{}}}",
        access, refresh, lifetime
    )
}

fn expect_send(step: CreationStep) -> (SessionCreation, HttpRequest) {
    match step {
        CreationStep::Send(state, request) => (state, request),
        other => panic!("expected a request, got {:?}", other),
    }
}

fn expect_failure(step: CreationStep) -> Error {
    match step {
        CreationStep::Done(Err(error)) => error,
        other => panic!("expected a failure, got {:?}", other),
    }
}

const PUSH: &str = "{\"id\":\"CH\",\"typ\":\"P_TAN_PUSH\",\"availableTypes\":[\"P_TAN_PUSH\"]}";

#[test]
fn new_client_has_no_session() {
    let client = client();
    assert_eq!(client.session, None);
    assert_eq!(client.credentials, credentials());
}

#[test]
fn a_session_is_made_in_five_requests() {
    let mut client = client();
    let mut requests = Vec::new();

    let (state, request) = client.new_session(session_id());
    assert_eq!(request, credentials().make_token_request(&GrantType::Password));
    requests.push(request);

    let reply = body_reply(200, &token_body("AT1", "RT1", 600));
    let (state, request) = expect_send(state.on_reply(&client.credentials, &reply, 1_000, "r1"));
    assert_eq!(
        request,
        make_status_request(
            &PreSession { tokens: tokens("AT1", "RT1", 1_600) },
            &session_id(),
            "r1"
        )
    );
    requests.push(request);

    let reply = body_reply(200, "[{\"identifier\":\"UUID-1\",\"sessionTanActive\":false}]");
    let (state, request) = expect_send(state.on_reply(&client.credentials, &reply, 1_001, "r2"));
    assert_eq!(request, make_challenge_request(&session(), None, "r2"));
    requests.push(request);

    let pending = match state.on_reply(&client.credentials, &challenge_reply(PUSH), 1_002, "r3")
    {
        CreationStep::Confirm(pending) => pending,
        other => panic!("expected the confirmation, got {:?}", other),
    };
    assert_eq!(pending.tan_challenge().typ, TanChallengeType::PushTan);
    assert_eq!(pending.tan_challenge().id, "CH");
    let challenge = pending.tan_challenge().clone();

    let (state, request) = expect_send(pending.confirmed(Some("\n".to_string()), "r4"));
    assert_eq!(request, make_activation_request(&session(), &challenge, "\n", "r4"));
    assert!(request.headers.iter().all(|header| header.name != "x-once-authentication"));
    requests.push(request);

    let reply = body_reply(200, "{\"identifier\":\"UUID-1\",\"sessionTanActive\":true}");
    let (state, request) = expect_send(state.on_reply(&client.credentials, &reply, 1_010, "r5"));
    assert_eq!(
        request,
        credentials().make_token_request(&GrantType::SecondaryElevation("AT1".to_string()))
    );
    requests.push(request);

    let reply = body_reply(200, &token_body("AT2", "RT2", 599));
    let made = match state.on_reply(&client.credentials, &reply, 1_011, "r6") {
        CreationStep::Done(Ok(session)) => session,
        other => panic!("expected the session, got {:?}", other),
    };
    assert_eq!(made.session_id, session_id());
    assert_eq!(made.session_uuid, "UUID-1");
    assert_eq!(made.tokens, tokens("AT2", "RT2", 1_610));
    assert_eq!(requests.len(), 5);

    assert_eq!(client.finish_new_session(Ok(made.clone())), Ok(()));
    assert_eq!(client.session, Some(made));
}

#[test]
fn a_session_is_made_in_six_requests_after_a_retry() {
    let credentials = credentials();
    let (state, _) = SessionCreation::start(&credentials, session_id());
    let reply = body_reply(200, &token_body("AT1", "RT1", 600));
    let (state, _) = expect_send(state.on_reply(&credentials, &reply, 1_000, "r1"));
    let reply = body_reply(200, "[{\"identifier\":\"UUID-1\",\"sessionTanActive\":false}]");
    let (state, _) = expect_send(state.on_reply(&credentials, &reply, 1_000, "r2"));
    let reply = challenge_reply(
        "{\"id\":\"C0\",\"typ\":\"P_TAN\",\"availableTypes\":[\"P_TAN\",\"P_TAN_PUSH\"]}",
    );
    let (state, request) = expect_send(state.on_reply(&credentials, &reply, 1_000, "r3"));
    assert_eq!(
        request,
        make_challenge_request(&session(), Some(TanChallengeType::PushTan), "r3")
    );
    match &state {
        SessionCreation::AwaitingChallenge { negotiator, .. } => {
            assert_eq!(negotiator.requests_sent(), 2)
        },
        other => panic!("expected the negotiation, got {:?}", other),
    }
    match state.on_reply(&credentials, &challenge_reply(PUSH), 1_000, "r4") {
        CreationStep::Confirm(pending) => assert_eq!(pending.tan_challenge().id, "CH"),
        other => panic!("expected the confirmation, got {:?}", other),
    }
}

#[test]
fn a_failed_password_exchange_ends_the_making() {
    let credentials = credentials();
    let (state, _) = SessionCreation::start(&credentials, session_id());
    assert_eq!(
        expect_failure(state.on_reply(&credentials, &body_reply(401, ""), 0, "r")),
        Error::AuthFailure
    );
    let (state, _) = SessionCreation::start(&credentials, session_id());
    assert_eq!(
        expect_failure(state.on_reply(&credentials, &body_reply(200, "{}"), 0, "r")),
        Error::ResponseDecodeFailure
    );
}

#[test]
fn a_failed_status_request_ends_the_making() {
    let state = SessionCreation::AwaitingStatus {
        pre_session: PreSession { tokens: tokens("A", "R", 5) },
        session_id: session_id(),
    };
    assert_eq!(
        expect_failure(state.on_reply(&credentials(), &body_reply(200, "[]"), 0, "r")),
        Error::UnexpectedResponseShape
    );
}

#[test]
fn an_unsupported_challenge_ends_the_making() {
    let credentials = credentials();
    let state = SessionCreation::AwaitingStatus {
        pre_session: PreSession { tokens: tokens("A", "R", 5) },
        session_id: session_id(),
    };
    let reply = body_reply(200, "[{\"identifier\":\"U\",\"sessionTanActive\":false}]");
    let (state, _) = expect_send(state.on_reply(&credentials, &reply, 0, "r"));
    let reply = challenge_reply("{\"id\":\"C\",\"typ\":\"M_TAN\",\"availableTypes\":[\"M_TAN\"]}");
    assert_eq!(
        expect_failure(state.on_reply(&credentials, &reply, 0, "r")),
        Error::UnsupportedTanType
    );
}

#[test]
fn a_free_challenge_never_reaches_the_confirmation() {
    let credentials = credentials();
    let state = SessionCreation::AwaitingStatus {
        pre_session: PreSession { tokens: tokens("A", "R", 5) },
        session_id: session_id(),
    };
    let reply = body_reply(200, "[{\"identifier\":\"U\",\"sessionTanActive\":false}]");
    let (state, _) = expect_send(state.on_reply(&credentials, &reply, 0, "r"));
    let reply = challenge_reply("{\"id\":\"C\",\"typ\":\"TAN_FREI\",\"availableTypes\":[]}");
    assert_eq!(
        expect_failure(state.on_reply(&credentials, &reply, 0, "r")),
        Error::UnsupportedTanType
    );
}

#[test]
fn a_failing_confirmation_provider_is_a_local_failure() {
    let credentials = credentials();
    let state = SessionCreation::AwaitingStatus {
        pre_session: PreSession { tokens: tokens("A", "R", 5) },
        session_id: session_id(),
    };
    let reply = body_reply(200, "[{\"identifier\":\"U\",\"sessionTanActive\":false}]");
    let (state, _) = expect_send(state.on_reply(&credentials, &reply, 0, "r"));
    let pending = match state.on_reply(&credentials, &challenge_reply(PUSH), 0, "r") {
        CreationStep::Confirm(pending) => pending,
        other => panic!("expected the confirmation, got {:?}", other),
    };
    assert_eq!(expect_failure(pending.confirmed(None, "r")), Error::LocalIOFailure);
}

#[test]
fn an_inactive_tan_ends_the_making() {
    let state = SessionCreation::AwaitingActivation { session: session() };
    let reply = body_reply(200, "{\"identifier\":\"UUID-1\",\"sessionTanActive\":false}");
    assert_eq!(
        expect_failure(state.on_reply(&credentials(), &reply, 0, "r")),
        Error::CouldNotCreateSession
    );
}

#[test]
fn a_failed_elevation_ends_the_making() {
    let state = SessionCreation::AwaitingElevation { session: session() };
    assert_eq!(
        expect_failure(state.on_reply(&credentials(), &body_reply(403, ""), 0, "r")),
        Error::AuthFailure
    );
}

#[test]
fn starting_a_new_session_gives_up_the_old_one() {
    let mut client = client();
    client.session = Some(session());
    let (state, _) = client.new_session(session_id());
    assert_eq!(client.session, None);
    assert_eq!(state, SessionCreation::AwaitingToken { session_id: session_id() });
}

#[test]
fn a_failed_making_leaves_the_client_as_it_is() {
    let mut client = client();
    assert_eq!(client.finish_new_session(Err(Error::AuthFailure)), Err(Error::AuthFailure));
    assert_eq!(client.session, None);
}

#[test]
fn refresh_request_exchanges_the_refresh_token() {
    let mut client = client();
    client.session = Some(session());
    assert_eq!(
        client.make_refresh_request(),
        Ok(credentials().make_token_request(&GrantType::Refresh("RT1".to_string())))
    );
}

#[test]
fn refresh_replaces_the_tokens_and_keeps_the_identity() {
    let mut client = client();
    client.session = Some(session());
    let reply = body_reply(200, &token_body("AT3", "RT3", 300));
    assert_eq!(client.refresh_session(&reply, 2_000), Ok(()));
    let refreshed = client.session.clone().unwrap();
    assert_eq!(refreshed.session_id, session_id());
    assert_eq!(refreshed.session_uuid, "UUID-1");
    assert_eq!(refreshed.tokens, tokens("AT3", "RT3", 2_300));
    assert_eq!(client.active_session(), Ok(&refreshed));
}

#[test]
fn a_failed_refresh_leaves_the_session_as_it_was() {
    let failures = [
        (body_reply(400, ""), Error::AuthFailure),
        (body_reply(500, ""), Error::AuthFailure),
        (body_reply(200, "not json"), Error::ResponseDecodeFailure),
        (body_reply(200, &token_body("AT3", "RT3", 0)), Error::ResponseDecodeFailure),
        (HttpReply::NoAnswer, Error::Other),
    ];
    for (reply, error) in failures {
        let mut client = client();
        client.session = Some(session());
        assert_eq!(client.refresh_session(&reply, 2_000), Err(error));
        assert_eq!(client.session, Some(session()));
    }
}

#[test]
fn a_session_can_be_refreshed_after_a_failed_refresh() {
    let mut client = client();
    client.session = Some(session());
    assert_eq!(client.refresh_session(&body_reply(503, ""), 2_000), Err(Error::AuthFailure));
    assert_eq!(
        client.make_refresh_request(),
        Ok(credentials().make_token_request(&GrantType::Refresh("RT1".to_string())))
    );
    let reply = body_reply(200, &token_body("AT3", "RT3", 300));
    assert_eq!(client.refresh_session(&reply, 2_001), Ok(()));
    assert_eq!(client.session.clone().unwrap().tokens, tokens("AT3", "RT3", 2_301));
}

#[test]
fn revoke_request_deletes_with_the_access_token() {
    let request = make_revoke_request(&"AT1".to_string());
    assert_eq!(request.method, HttpMethod::Delete);
    assert_eq!(request.url, "https://api.comdirect.de/oauth/revoke");
    assert_eq!(request.bearer, Some("AT1".to_string()));
    assert!(request.headers.is_empty());
    assert!(request.query.is_empty());
    assert_eq!(request.body, Body::Empty);
    let mut client = client();
    client.session = Some(session());
    assert_eq!(client.revoke_oauth_token(), Ok(request));
}

#[test]
fn ending_a_session_clears_it() {
    let mut client = client();
    client.session = Some(session());
    assert_eq!(client.end_session(&body_reply(204, "")), Ok(()));
    assert_eq!(client.session, None);
}

#[test]
fn a_failed_revocation_is_reported_and_still_clears_the_session() {
    for (reply, error) in [
        (body_reply(500, ""), Error::ServerError),
        (body_reply(401, ""), Error::ClientError),
        (body_reply(404, ""), Error::NotFound),
        (HttpReply::NoAnswer, Error::Other),
    ] {
        let mut client = client();
        client.session = Some(session());
        assert_eq!(client.end_session(&reply), Err(error));
        assert_eq!(client.session, None);
    }
}

#[test]
fn discarding_gives_the_last_revocation() {
    let mut client = client();
    assert_eq!(client.discard_session(), None);
    client.session = Some(session());
    assert_eq!(client.discard_session(), Some(make_revoke_request(&"AT1".to_string())));
    assert_eq!(client.session, None);
    assert_eq!(client.discard_session(), None);
}
