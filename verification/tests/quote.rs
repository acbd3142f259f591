use comdirect_api::error::Error;
use comdirect_api::http::{Body, Field, HttpMethod, HttpReply, HttpResponse};
use comdirect_api::json::Json;
use comdirect_api::lifecycle::ApiClient;
use comdirect_api::quote::{
    make_quote_request, make_ticket_request, make_ticket_tan_request, read_ticket_reply,
    QuoteRequest, QuoteStep, QuoteTicket,
};
use comdirect_api::session::{make_request_info, Session, SessionId, TokenPair};
use comdirect_api::tan::{TanChallenge, TanChallengeType};

fn parse(text: &str) -> Option<Json> {
    HttpResponse { status: 200, headers: vec![], body: text.to_string() }.json().ok()
}

const OUTLINE: &str = "{\"orderType\":\"QUOTE\",\"side\":\"BUY\"}";

fn session() -> Session {
    Session {
        session_id: SessionId::new("0123456789abcdef0123456789abcdef".to_string()).unwrap(),
        session_uuid: "UUID-1".to_string(),
        tokens: TokenPair {
            access_token: "AT1".to_string(),
            refresh_token: "RT1".to_string(),
            expires_at: 1_000,
        },
    }
}

fn ticket_reply(typ: &str, body: &str) -> HttpReply {
    HttpReply::Answer(HttpResponse {
        status: 201,
        headers: vec![Field {
            name: "x-once-authentication-info".to_string(),
            value: format!("{{\"id\":\"CH-3\",\"typ\":\"{}\",\"availableTypes\":[]}}", typ),
        }],
        body: body.to_string(),
    })
}

fn body_reply(status: u16, body: &str) -> HttpReply {
    HttpReply::Answer(HttpResponse { status, headers: vec![], body: body.to_string() })
}

#[test]
fn ticket_is_read_from_json() {
    let json = parse("{\"quoteTicketId\":\"T-1\"}").unwrap();
    let ticket = QuoteTicket::from_json(&json).unwrap();
    assert_eq!(ticket.id(), "T-1");
    for text in ["{}", "{\"quoteTicketId\":1}", "[]"] {
        let json = parse(text).unwrap();
        assert_eq!(QuoteTicket::from_json(&json).err(), Some(Error::UnexpectedResponseShape));
    }
}

#[test]
fn ticket_request_posts_the_outline() {
    let request = make_ticket_request(&session(), OUTLINE, "r1");
    assert_eq!(request.method, HttpMethod::Post);
    assert_eq!(request.url, "https://api.comdirect.de/api/brokerage/v3/quoteticket");
    assert_eq!(request.body, Body::Json(OUTLINE.to_string()));
    assert_eq!(request.bearer, Some("AT1".to_string()));
}

#[test]
fn ticket_tan_request_stands_in_for_a_code() {
    let ticket = QuoteTicket { id: "T-1".to_string() };
    let challenge = TanChallenge::new("CH-3".to_string(), TanChallengeType::Free, vec![], None);
    let request = make_ticket_tan_request(&session(), &ticket, &challenge, "r2");
    assert_eq!(request.method, HttpMethod::Patch);
    assert_eq!(request.url, "https://api.comdirect.de/api/brokerage/v3/quoteticket/T-1");
    assert_eq!(request.body, Body::Empty);
    assert_eq!(
        request.headers,
        vec![
            Field {
                name: "x-http-request-info".to_string(),
                value: make_request_info(&session().session_id, "r2"),
            },
            Field { name: "x-once-authentication".to_string(), value: "TAN_FREI".to_string() },
            Field {
                name: "x-once-authentication-info".to_string(),
                value: "{\"id\":\"CH-3\"}".to_string(),
            },
        ]
    );
}

#[test]
fn quote_request_posts_the_outline() {
    let request = make_quote_request(&session(), OUTLINE, "r3");
    assert_eq!(request.method, HttpMethod::Post);
    assert_eq!(request.url, "https://api.comdirect.de/api/brokerage/v3/quotes");
    assert_eq!(request.body, Body::Json(OUTLINE.to_string()));
}

#[test]
fn ticket_reply_needs_challenge_and_ticket() {
    let (ticket, challenge) =
        read_ticket_reply(&ticket_reply("TAN_FREI", "{\"quoteTicketId\":\"T-1\"}")).unwrap();
    assert_eq!(ticket.id, "T-1");
    assert_eq!(challenge.id, "CH-3");
    assert_eq!(
        read_ticket_reply(&ticket_reply("M_TAN", "{\"quoteTicketId\":\"T-1\"}")).err(),
        Some(Error::UnexpectedTanType)
    );
    assert_eq!(
        read_ticket_reply(&ticket_reply("TAN_FREI", "{}")).err(),
        Some(Error::UnexpectedResponseShape)
    );
    assert_eq!(
        read_ticket_reply(&ticket_reply("TAN_FREI", "")).err(),
        Some(Error::ResponseDecodeFailure)
    );
    assert_eq!(
        read_ticket_reply(&body_reply(200, "{\"quoteTicketId\":\"T-1\"}")).err(),
        Some(Error::UnexpectedResponseShape)
    );
    assert_eq!(read_ticket_reply(&body_reply(500, "")).err(), Some(Error::ServerError));
}

#[test]
fn a_quote_takes_three_requests() {
    let (state, first) = QuoteRequest::start(&session(), OUTLINE.to_string(), "r1");
    assert_eq!(first, make_ticket_request(&session(), OUTLINE, "r1"));
    let reply = ticket_reply("TAN_FREI", "{\"quoteTicketId\":\"T-1\"}");
    let (state, second) = match state.on_reply(&session(), reply, "r2") {
        QuoteStep::Send(state, request) => (state, request),
        other => panic!("expected a request, got {:?}", other),
    };
    let challenge = TanChallenge::new("CH-3".to_string(), TanChallengeType::Free, vec![], None);
    assert_eq!(
        second,
        make_ticket_tan_request(
            &session(),
            &QuoteTicket { id: "T-1".to_string() },
            &challenge,
            "r2"
        )
    );
    let (state, third) = match state.on_reply(&session(), body_reply(204, ""), "r3") {
        QuoteStep::Send(state, request) => (state, request),
        other => panic!("expected a request, got {:?}", other),
    };
    assert_eq!(third, make_quote_request(&session(), OUTLINE, "r3"));
    match state.on_reply(&session(), body_reply(200, "{\"quoteId\":\"Q\"}"), "r4") {
        QuoteStep::Done(Ok((ticket, response))) => {
            assert_eq!(ticket.id, "T-1");
            assert_eq!(response.body, "{\"quoteId\":\"Q\"}");
        },
        other => panic!("expected the quote, got {:?}", other),
    }
}

#[test]
fn a_quote_fails_at_any_request() {
    let (state, _) = QuoteRequest::start(&session(), OUTLINE.to_string(), "r1");
    let reply = ticket_reply("P_TAN_PUSH", "{\"quoteTicketId\":\"T-1\"}");
    assert_eq!(
        state.on_reply(&session(), reply, "r2"),
        QuoteStep::Done(Err(Error::UnexpectedTanType))
    );
    let state = QuoteRequest::AwaitingTicketTan {
        outline: OUTLINE.to_string(),
        ticket: QuoteTicket { id: "T-1".to_string() },
    };
    assert_eq!(
        state.on_reply(&session(), body_reply(422, ""), "r3"),
        QuoteStep::Done(Err(Error::UnprocessableRequest))
    );
    let state = QuoteRequest::AwaitingQuote { ticket: QuoteTicket { id: "T-1".to_string() } };
    assert_eq!(
        state.on_reply(&session(), HttpReply::NoAnswer, "r4"),
        QuoteStep::Done(Err(Error::Other))
    );
    let state = QuoteRequest::AwaitingQuote { ticket: QuoteTicket { id: "T-1".to_string() } };
    assert_eq!(
        state.on_reply(&session(), body_reply(503, ""), "r4"),
        QuoteStep::Done(Err(Error::ServerError))
    );
}

#[test]
fn client_asks_for_quotes_within_its_session() {
    let mut client = ApiClient::new(
        "CLIENT".to_string(),
        "SECRET".to_string(),
        "USER".to_string(),
        "PASS".to_string(),
    );
    assert_eq!(client.get_quote(OUTLINE.to_string(), "r").err(), Some(Error::NoActiveSession));
    let state = QuoteRequest::AwaitingTicket { outline: OUTLINE.to_string() };
    assert_eq!(
        client.quote_reply(state, body_reply(200, ""), "r"),
        QuoteStep::Done(Err(Error::NoActiveSession))
    );
    client.session = Some(session());
    let (state, request) = client.get_quote(OUTLINE.to_string(), "r1").unwrap();
    assert_eq!(request, make_ticket_request(&session(), OUTLINE, "r1"));
    let reply = ticket_reply("TAN_FREI", "{\"quoteTicketId\":\"T-1\"}");
    match client.quote_reply(state, reply, "r2") {
        QuoteStep::Send(_, _) => {},
        other => panic!("expected a request, got {:?}", other),
    }
}
