//! Quotes: binding prices that the user asks a market place for.
//!
//! A quote is asked for in three requests. The first gets a ticket and a
//! challenge, which must be of the kind `Free`. The second confirms the
//! challenge for the ticket. The third asks for the quote itself.

use vstd::prelude::*;
use vstd::string::*;
use crate::error::Error;
use crate::http::{spec_status_error, BodyView, HttpMethod, HttpReply, HttpRequest, HttpRequestView, HttpResponse};
use crate::json::{parsed_json, Json};
use crate::lifecycle::ApiClient;
use crate::session::{spec_session_request, Session, SessionView};
use crate::tan::{
    extract_tan_challenge, spec_challenge_header, spec_confirmation_info,
    spec_extract_challenge, TanChallenge, TanChallengeType, TanChallengeView,
};

verus! {

/// The ticket that entitles to ask for one quote.
#[derive(Debug, PartialEq)]
pub struct QuoteTicket {
    pub id: String,
}

/// The id of the ticket that a JSON document describes: the string
/// `quoteTicketId` of an object. `None` for every other document.
pub open spec fn spec_decode_ticket(json: Json) -> Option<Seq<char>> {
    match json.spec_member("quoteTicketId"@) {
        Some(id) => id.spec_text(),
        None => None,
    }
}

impl QuoteTicket {
    /// The id of the ticket.
    pub fn id(&self) -> (id: &String)
        ensures
            *id == self.id,
    {
        &self.id
    }

    /// Reads a ticket from the JSON object that describes it. Every other
    /// document is refused as [`Error::UnexpectedResponseShape`].
    pub fn from_json(json: &Json) -> (decoded: Result<QuoteTicket, Error>)
        ensures
            match decoded {
                Ok(ticket) => spec_decode_ticket(*json) == Some(ticket.id@),
                Err(error) => error == Error::UnexpectedResponseShape && spec_decode_ticket(
                    *json,
                ) is None,
            },
    {
        match json.member("quoteTicketId") {
            Some(value) => match value.as_text() {
                Some(text) => Ok(QuoteTicket { id: text.clone() }),
                None => Err(Error::UnexpectedResponseShape),
            },
            None => Err(Error::UnexpectedResponseShape),
        }
    }
}

/// The address of the quote tickets.
pub open spec fn spec_tickets_url() -> Seq<char> {
    "https://api.comdirect.de/api/brokerage/v3/quoteticket"@
}

/// The address of the quotes.
pub open spec fn spec_quotes_url() -> Seq<char> {
    "https://api.comdirect.de/api/brokerage/v3/quotes"@
}

/// The request for a ticket: a POST of the outline of the quote to the quote
/// tickets.
pub open spec fn spec_ticket_request(session: SessionView, outline: Seq<char>, request_id: Seq<char>) -> HttpRequestView {
    HttpRequestView {
        body: BodyView::Json(outline),
        ..spec_session_request(
            HttpMethod::Post,
            spec_tickets_url(),
            session.tokens.access_token,
            session.session_id,
            request_id,
        )
    }
}

/// The request that confirms the challenge for a ticket: a PATCH of the
/// ticket, with the header that stands in for a one-time code and the header
/// that echoes the id of the challenge.
pub open spec fn spec_ticket_tan_request(
    session: SessionView,
    ticket_id: Seq<char>,
    challenge_id: Seq<char>,
    request_id: Seq<char>,
) -> HttpRequestView {
    let plain = spec_session_request(
        HttpMethod::Patch,
        spec_tickets_url() + "/"@ + ticket_id,
        session.tokens.access_token,
        session.session_id,
        request_id,
    );
    HttpRequestView {
        headers: plain.headers.push(("x-once-authentication"@, "TAN_FREI"@)).push(
            (spec_challenge_header(), spec_confirmation_info(challenge_id)),
        ),
        ..plain
    }
}

/// The request for the quote: a POST of the outline of the quote to the
/// quotes.
pub open spec fn spec_quote_request(session: SessionView, outline: Seq<char>, request_id: Seq<char>) -> HttpRequestView {
    HttpRequestView {
        body: BodyView::Json(outline),
        ..spec_session_request(
            HttpMethod::Post,
            spec_quotes_url(),
            session.tokens.access_token,
            session.session_id,
            request_id,
        )
    }
}

/// What a reply to the request for a ticket amounts to: the error of its
/// status; [`Error::UnexpectedResponseShape`] where its headers hold no
/// challenge; [`Error::ResponseDecodeFailure`] for a body that is no JSON;
/// [`Error::UnexpectedResponseShape`] for a body that is no ticket;
/// [`Error::UnexpectedTanType`] for a challenge of any kind but `Free`;
/// otherwise the id of the ticket with the challenge.
pub open spec fn spec_ticket_outcome(reply: HttpReply) -> Result<(Seq<char>, TanChallengeView), Error> {
    match spec_status_error(reply) {
        Some(error) => Err(error),
        None => match spec_extract_challenge(reply->Answer_0.headers@) {
            Some(challenge) => match parsed_json(reply->Answer_0.body@) {
                Some(json) => match spec_decode_ticket(json) {
                    Some(ticket_id) => if challenge.typ == TanChallengeType::Free {
                        Ok((ticket_id, challenge))
                    } else {
                        Err(Error::UnexpectedTanType)
                    },
                    None => Err(Error::UnexpectedResponseShape),
                },
                None => Err(Error::ResponseDecodeFailure),
            },
            None => Err(Error::UnexpectedResponseShape),
        },
    }
}

/// The content of a ticket with its challenge, or the error in their place.
pub open spec fn ticket_result_view(result: Result<(QuoteTicket, TanChallenge), Error>) -> Result<
    (Seq<char>, TanChallengeView),
    Error,
> {
    match result {
        Ok(pair) => Ok((pair.0.id@, pair.1@)),
        Err(error) => Err(error),
    }
}

/// Reads the reply to the request for a ticket.
pub fn read_ticket_reply(reply: &HttpReply) -> (outcome: Result<(QuoteTicket, TanChallenge), Error>)
    ensures
        ticket_result_view(outcome) == spec_ticket_outcome(*reply),
{
    match reply.check_status() {
        Ok(response) => match extract_tan_challenge(&response.headers) {
            Ok(challenge) => match response.json() {
                Ok(json) => match QuoteTicket::from_json(&json) {
                    Ok(ticket) => match challenge.typ {
                        TanChallengeType::Free => Ok((ticket, challenge)),
                        _ => Err(Error::UnexpectedTanType),
                    },
                    Err(error) => Err(error),
                },
                Err(error) => Err(error),
            },
            Err(error) => Err(error),
        },
        Err(error) => Err(error),
    }
}

/// Builds the request for a ticket.
pub fn make_ticket_request(session: &Session, outline: &str, request_id: &str) -> (request:
    HttpRequest)
    ensures
        request@ == spec_ticket_request(session@, outline@, request_id@),
{
    session.request(
        HttpMethod::Post,
        String::from_str("https://api.comdirect.de/api/brokerage/v3/quoteticket"),
        request_id,
    ).with_json(String::from_str(outline))
}

/// Builds the request that confirms the challenge for a ticket.
pub fn make_ticket_tan_request(
    session: &Session,
    quote_ticket: &QuoteTicket,
    tan_challenge: &TanChallenge,
    request_id: &str,
) -> (request: HttpRequest)
    ensures
        request@ == spec_ticket_tan_request(
            session@,
            quote_ticket.id@,
            tan_challenge@.id,
            request_id@,
        ),
{
    let url = String::from_str("https://api.comdirect.de/api/brokerage/v3/quoteticket").concat(
        "/",
    ).concat(quote_ticket.id.as_str());
    let tan_header = tan_challenge.make_x_authentication_info_header();
    session.request(HttpMethod::Patch, url, request_id).with_header(
        "x-once-authentication",
        String::from_str("TAN_FREI"),
    ).with_header("x-once-authentication-info", tan_header.value)
}

/// Builds the request for the quote.
pub fn make_quote_request(session: &Session, outline: &str, request_id: &str) -> (request:
    HttpRequest)
    ensures
        request@ == spec_quote_request(session@, outline@, request_id@),
{
    session.request(
        HttpMethod::Post,
        String::from_str("https://api.comdirect.de/api/brokerage/v3/quotes"),
        request_id,
    ).with_json(String::from_str(outline))
}

/// The asking for a quote, waiting for the reply to the request that it sent
/// last.
#[derive(Debug, PartialEq)]
pub enum QuoteRequest {
    /// The request for a ticket is under way.
    AwaitingTicket { outline: String },
    /// The confirmation of the challenge is under way.
    AwaitingTicketTan { outline: String, ticket: QuoteTicket },
    /// The request for the quote is under way.
    AwaitingQuote { ticket: QuoteTicket },
}

/// What the asking for a quote does next.
#[derive(Debug, PartialEq)]
pub enum QuoteStep {
    /// Send this request, and hand the reply to the state beside it.
    Send(QuoteRequest, HttpRequest),
    /// The asking is over: here is the ticket with the answer that describes
    /// the quote, or the reason why there is none.
    Done(Result<(QuoteTicket, HttpResponse), Error>),
}

/// Whether `step` is what the asking for a quote does when `reply` answers
/// the request that `state` waits for. A failure at any request ends the
/// asking. A ticket with a challenge of the kind `Free` leads to the
/// confirmation of the challenge; the confirmation leads to the request for
/// the quote; the answer to that ends the asking.
pub open spec fn spec_quote_step(
    state: QuoteRequest,
    session: SessionView,
    reply: HttpReply,
    request_id: Seq<char>,
    step: QuoteStep,
) -> bool {
    match state {
        QuoteRequest::AwaitingTicket { outline } => match spec_ticket_outcome(reply) {
            Ok(pair) => {
                &&& step matches QuoteStep::Send(
                    QuoteRequest::AwaitingTicketTan { outline: kept, ticket },
                    request,
                )
                &&& kept == outline
                &&& ticket.id@ == pair.0
                &&& request@ == spec_ticket_tan_request(session, pair.0, pair.1.id, request_id)
            },
            Err(error) => step matches QuoteStep::Done(Err(reported)) && reported == error,
        },
        QuoteRequest::AwaitingTicketTan { outline, ticket } => match spec_status_error(reply) {
            Some(error) => step matches QuoteStep::Done(Err(reported)) && reported == error,
            None => {
                &&& step matches QuoteStep::Send(
                    QuoteRequest::AwaitingQuote { ticket: kept },
                    request,
                )
                &&& kept == ticket
                &&& request@ == spec_quote_request(session, outline@, request_id)
            },
        },
        QuoteRequest::AwaitingQuote { ticket } => match spec_status_error(reply) {
            Some(error) => step matches QuoteStep::Done(Err(reported)) && reported == error,
            None => step == QuoteStep::Done(Ok((ticket, reply->Answer_0))),
        },
    }
}

impl QuoteRequest {
    /// Starts the asking for the quote that `outline` describes: gives the
    /// first request, the one for a ticket.
    pub fn start(session: &Session, outline: String, request_id: &str) -> (started: (
        QuoteRequest,
        HttpRequest,
    ))
        ensures
            started.0 == (QuoteRequest::AwaitingTicket { outline }),
            started.1@ == spec_ticket_request(session@, outline@, request_id@),
    {
        let request = make_ticket_request(session, outline.as_str(), request_id);
        (QuoteRequest::AwaitingTicket { outline }, request)
    }

    /// Takes the reply to the request that was sent last and moves on by one
    /// step. `request_id` marks the request that the step may send.
    pub fn on_reply(self, session: &Session, reply: HttpReply, request_id: &str) -> (step:
        QuoteStep)
        ensures
            spec_quote_step(self, session@, reply, request_id@, step),
    {
        match self {
            QuoteRequest::AwaitingTicket { outline } => {
                match read_ticket_reply(&reply) {
                    Ok((ticket, challenge)) => {
                        let request = make_ticket_tan_request(
                            session,
                            &ticket,
                            &challenge,
                            request_id,
                        );
                        QuoteStep::Send(QuoteRequest::AwaitingTicketTan { outline, ticket }, request)
                    },
                    Err(error) => QuoteStep::Done(Err(error)),
                }
            },
            QuoteRequest::AwaitingTicketTan { outline, ticket } => {
                match reply.check_status() {
                    Ok(_) => {
                        let request = make_quote_request(session, outline.as_str(), request_id);
                        QuoteStep::Send(QuoteRequest::AwaitingQuote { ticket }, request)
                    },
                    Err(error) => QuoteStep::Done(Err(error)),
                }
            },
            QuoteRequest::AwaitingQuote { ticket } => {
                match reply {
                    HttpReply::NoAnswer => QuoteStep::Done(Err(Error::Other)),
                    HttpReply::Answer(response) => {
                        if 400 <= response.status && response.status <= 599 {
                            QuoteStep::Done(Err(Error::from_status(Some(response.status))))
                        } else {
                            QuoteStep::Done(Ok((ticket, response)))
                        }
                    },
                }
            },
        }
    }
}

impl ApiClient {
    /// Starts the asking for the quote that `outline` describes, within the
    /// session of the client. Without a session it is
    /// [`Error::NoActiveSession`].
    pub fn get_quote(&self, outline: String, request_id: &str) -> (started: Result<
        (QuoteRequest, HttpRequest),
        Error,
    >)
        ensures
            match self.session {
                Some(session) => {
                    &&& started matches Ok(pair)
                    &&& pair.0 == (QuoteRequest::AwaitingTicket { outline })
                    &&& pair.1@ == spec_ticket_request(session@, outline@, request_id@)
                },
                None => started matches Err(error) && error == Error::NoActiveSession,
            },
    {
        match &self.session {
            Some(session) => Ok(QuoteRequest::start(session, outline, request_id)),
            None => Err(Error::NoActiveSession),
        }
    }

    /// Takes the reply to the request that the asking for a quote sent last
    /// and moves it on by one step. Without a session the asking ends as
    /// [`Error::NoActiveSession`].
    pub fn quote_reply(&self, state: QuoteRequest, reply: HttpReply, request_id: &str) -> (step:
        QuoteStep)
        ensures
            match self.session {
                Some(session) => spec_quote_step(state, session@, reply, request_id@, step),
                None => step matches QuoteStep::Done(Err(error)) && error
                    == Error::NoActiveSession,
            },
    {
        match &self.session {
            Some(session) => state.on_reply(session, reply, request_id),
            None => QuoteStep::Done(Err(Error::NoActiveSession)),
        }
    }
}

} // verus!
