//! The life of a session: its making, its refreshing and its end.
//!
//! A client holds at most one session. The making of a session is a chain of
//! requests with one pause for the user, who confirms the challenge out of
//! band. [`SessionCreation`] holds where the chain stands; each reply moves it
//! on by one step.

use vstd::prelude::*;
use vstd::string::*;
use crate::activate::{make_activation_request, read_activation_reply, spec_activation_outcome, spec_activation_request};
use crate::error::Error;
use crate::establish::{establish, make_status_request, spec_status_outcome, spec_status_request};
use crate::http::{
    fields_view, spec_status_error, Body, BodyView, Field, HttpMethod, HttpReply, HttpRequest,
    HttpRequestView,
};
use crate::negotiate::{
    spec_challenge_outcome, spec_challenge_request, spec_verdict, NegotiationStep, TanNegotiator,
    Verdict,
};
use crate::oauth::{read_token_reply, spec_token_outcome, spec_token_request, Credentials};
use crate::session::{GrantType, PreSession, Session, SessionId};
use crate::tan::{TanChallenge, TanChallengeType};

verus! {

/// The making of a session, waiting for the reply to the request that it
/// sent last.
#[derive(Debug, PartialEq)]
pub enum SessionCreation {
    /// The exchange of the password for a token pair is under way.
    AwaitingToken { session_id: SessionId },
    /// The request for the session status is under way.
    AwaitingStatus { pre_session: PreSession, session_id: SessionId },
    /// The negotiation of a challenge is under way.
    AwaitingChallenge { session: Session, negotiator: TanNegotiator },
    /// The activation of the TAN is under way.
    AwaitingActivation { session: Session },
    /// The exchange of the access token for an elevated token pair is under way.
    AwaitingElevation { session: Session },
}

/// The making of a session, waiting for the user to confirm the challenge.
/// The challenge is of the push kind.
#[derive(Debug, PartialEq)]
pub struct PendingConfirmation {
    session: Session,
    challenge: TanChallenge,
}

/// What the making of a session does next.
#[derive(Debug, PartialEq)]
pub enum CreationStep {
    /// Send this request, and hand the reply to the state beside it.
    Send(SessionCreation, HttpRequest),
    /// Let the user confirm the challenge, and tell the state when it is done.
    Confirm(PendingConfirmation),
    /// The making is over: here is the session, or the reason why there is none.
    Done(Result<Session, Error>),
}

impl PendingConfirmation {
    #[verifier::type_invariant]
    spec fn push_only(self) -> bool {
        self.challenge.typ == TanChallengeType::PushTan
    }

    /// The session that is being made.
    pub closed spec fn session(self) -> Session {
        self.session
    }

    /// The challenge that the user is to confirm.
    pub closed spec fn challenge(self) -> TanChallenge {
        self.challenge
    }

    /// The challenge that the user is to confirm. It is of the push kind,
    /// never of the kind `Free`.
    pub fn tan_challenge(&self) -> (challenge: &TanChallenge)
        ensures
            *challenge == self.challenge(),
            challenge.typ == TanChallengeType::PushTan,
    {
        proof {
            use_type_invariant(self);
        }
        &self.challenge
    }

    /// Goes on after the confirmation provider has returned: with the
    /// one-time code that it delivered, or with `None` where it failed, which
    /// ends the making as [`Error::LocalIOFailure`]. Otherwise the next step
    /// sends the activation of the TAN.
    pub fn confirmed(self, tan: Option<String>, request_id: &str) -> (step: CreationStep)
        ensures
            match tan {
                Some(code) => {
                    &&& step matches CreationStep::Send(
                        SessionCreation::AwaitingActivation { session },
                        request,
                    )
                    &&& session == self.session()
                    &&& request@ == spec_activation_request(
                        self.session()@,
                        self.challenge()@,
                        code@,
                        request_id@,
                    )
                },
                None => step matches CreationStep::Done(Err(error)) && error
                    == Error::LocalIOFailure,
            },
    {
        proof {
            use_type_invariant(&self);
        }
        match tan {
            Some(code) => {
                let request = make_activation_request(
                    &self.session,
                    &self.challenge,
                    code.as_str(),
                    request_id,
                );
                CreationStep::Send(
                    SessionCreation::AwaitingActivation { session: self.session },
                    request,
                )
            },
            None => CreationStep::Done(Err(Error::LocalIOFailure)),
        }
    }
}

/// Whether `step` is what the making of a session does when the exchange of
/// the password is answered by `reply` at the time `now`: a failed exchange
/// ends the making; a token pair leads to the request for the session status.
pub open spec fn spec_after_token(
    session_id: SessionId,
    reply: HttpReply,
    now: i64,
    request_id: Seq<char>,
    step: CreationStep,
) -> bool {
    match spec_token_outcome(reply, now) {
        Ok(tokens) => {
            &&& step matches CreationStep::Send(
                SessionCreation::AwaitingStatus { pre_session, session_id: kept },
                request,
            )
            &&& pre_session.tokens@ == tokens
            &&& kept == session_id
            &&& request@ == spec_status_request(tokens.access_token, session_id@, request_id)
        },
        Err(error) => step matches CreationStep::Done(Err(reported)) && reported == error,
    }
}

/// Whether `step` is what the making of a session does when the request for
/// the session status is answered by `reply`: a failure ends the making; a
/// status binds the token pair to the session and leads to the first request
/// for a challenge, which asks for no kind.
pub open spec fn spec_after_status(
    pre_session: PreSession,
    session_id: SessionId,
    reply: HttpReply,
    request_id: Seq<char>,
    step: CreationStep,
) -> bool {
    match spec_status_outcome(reply) {
        Ok(status) => {
            &&& step matches CreationStep::Send(
                SessionCreation::AwaitingChallenge { session, negotiator },
                request,
            )
            &&& session.session_id == session_id
            &&& session.session_uuid@ == status.0
            &&& session.tokens == pre_session.tokens
            &&& negotiator.desired() is None
            &&& negotiator.calls() == 1
            &&& request@ == spec_challenge_request(session@, None, request_id)
        },
        Err(error) => step matches CreationStep::Done(Err(reported)) && reported == error,
    }
}

/// Whether `step` is what the making of a session does when a request for a
/// challenge is answered by `reply`: by the rule of the negotiation, it
/// waits for the user to confirm a challenge of the push kind, or asks once
/// more, for the push kind by name, or ends.
pub open spec fn spec_after_challenge(
    session: Session,
    negotiator: TanNegotiator,
    reply: HttpReply,
    request_id: Seq<char>,
    step: CreationStep,
) -> bool {
    match spec_challenge_outcome(reply) {
        Ok(challenge) => match spec_verdict(challenge, negotiator.desired()) {
            Verdict::Accept => {
                &&& step matches CreationStep::Confirm(pending)
                &&& pending.session() == session
                &&& pending.challenge()@ == challenge
                &&& challenge.typ == TanChallengeType::PushTan
            },
            Verdict::Retry => {
                &&& step matches CreationStep::Send(
                    SessionCreation::AwaitingChallenge { session: kept, negotiator: next },
                    request,
                )
                &&& kept == session
                &&& negotiator.calls() == 1
                &&& next.calls() == 2
                &&& next.desired() == Some(TanChallengeType::PushTan)
                &&& request@ == spec_challenge_request(
                    session@,
                    Some(TanChallengeType::PushTan),
                    request_id,
                )
            },
            Verdict::Reject(error) => step matches CreationStep::Done(Err(reported)) && reported
                == error,
        },
        Err(error) => step matches CreationStep::Done(Err(reported)) && reported == error,
    }
}

/// Whether `step` is what the making of a session does when the activation
/// is answered by `reply`: a failure ends the making; success leads to the
/// exchange of the session's access token for an elevated token pair.
pub open spec fn spec_after_activation(
    session: Session,
    credentials: Credentials,
    reply: HttpReply,
    step: CreationStep,
) -> bool {
    match spec_activation_outcome(reply) {
        Ok(()) => {
            &&& step matches CreationStep::Send(
                SessionCreation::AwaitingElevation { session: kept },
                request,
            )
            &&& kept == session
            &&& request@ == spec_token_request(
                credentials@,
                GrantType::SecondaryElevation(session.tokens.access_token),
            )
        },
        Err(error) => step matches CreationStep::Done(Err(reported)) && reported == error,
    }
}

/// Whether `step` is what the making of a session does when the second
/// exchange is answered by `reply` at the time `now`: a failure ends the
/// making; a token pair replaces that of the session, whose identity stays,
/// and the session is made.
pub open spec fn spec_after_elevation(
    session: Session,
    reply: HttpReply,
    now: i64,
    step: CreationStep,
) -> bool {
    match spec_token_outcome(reply, now) {
        Ok(tokens) => {
            &&& step matches CreationStep::Done(Ok(made))
            &&& made.session_id == session.session_id
            &&& made.session_uuid == session.session_uuid
            &&& made.tokens@ == tokens
            &&& made.tokens.expires_at > now
        },
        Err(error) => step matches CreationStep::Done(Err(reported)) && reported == error,
    }
}

impl SessionCreation {
    /// Starts the making of a session under the client's id `session_id`:
    /// gives the first request, the exchange of the password for a token pair.
    pub fn start(credentials: &Credentials, session_id: SessionId) -> (started: (
        SessionCreation,
        HttpRequest,
    ))
        ensures
            started.0 == (SessionCreation::AwaitingToken { session_id }),
            started.1@ == spec_token_request(credentials@, GrantType::Password),
    {
        let request = credentials.make_token_request(&GrantType::Password);
        (SessionCreation::AwaitingToken { session_id }, request)
    }

    /// Takes the reply to the request that was sent last, at the time `now`,
    /// and moves on by one step. `request_id` marks the request that the
    /// step may send.
    pub fn on_reply(
        self,
        credentials: &Credentials,
        reply: &HttpReply,
        now: i64,
        request_id: &str,
    ) -> (step: CreationStep)
        ensures
            match self {
                SessionCreation::AwaitingToken { session_id } => spec_after_token(
                    session_id,
                    *reply,
                    now,
                    request_id@,
                    step,
                ),
                SessionCreation::AwaitingStatus { pre_session, session_id } => spec_after_status(
                    pre_session,
                    session_id,
                    *reply,
                    request_id@,
                    step,
                ),
                SessionCreation::AwaitingChallenge { session, negotiator } => spec_after_challenge(
                    session,
                    negotiator,
                    *reply,
                    request_id@,
                    step,
                ),
                SessionCreation::AwaitingActivation { session } => spec_after_activation(
                    session,
                    *credentials,
                    *reply,
                    step,
                ),
                SessionCreation::AwaitingElevation { session } => spec_after_elevation(
                    session,
                    *reply,
                    now,
                    step,
                ),
            },
    {
        match self {
            SessionCreation::AwaitingToken { session_id } => {
                match read_token_reply(reply, now) {
                    Ok(pre_session) => {
                        let request = make_status_request(&pre_session, &session_id, request_id);
                        CreationStep::Send(
                            SessionCreation::AwaitingStatus { pre_session, session_id },
                            request,
                        )
                    },
                    Err(error) => CreationStep::Done(Err(error)),
                }
            },
            SessionCreation::AwaitingStatus { pre_session, session_id } => {
                match establish(pre_session, session_id, reply) {
                    Ok(session) => {
                        let (negotiator, request) = TanNegotiator::start(
                            &session,
                            None,
                            request_id,
                        );
                        CreationStep::Send(
                            SessionCreation::AwaitingChallenge { session, negotiator },
                            request,
                        )
                    },
                    Err(error) => CreationStep::Done(Err(error)),
                }
            },
            SessionCreation::AwaitingChallenge { session, negotiator } => {
                match negotiator.on_reply(&session, reply, request_id) {
                    NegotiationStep::Retry(next, request) => CreationStep::Send(
                        SessionCreation::AwaitingChallenge { session, negotiator: next },
                        request,
                    ),
                    NegotiationStep::Done(Ok(challenge)) => CreationStep::Confirm(
                        PendingConfirmation { session, challenge },
                    ),
                    NegotiationStep::Done(Err(error)) => CreationStep::Done(Err(error)),
                }
            },
            SessionCreation::AwaitingActivation { session } => {
                match read_activation_reply(reply) {
                    Ok(()) => {
                        let grant = GrantType::SecondaryElevation(
                            session.tokens.access_token.clone(),
                        );
                        let request = credentials.make_token_request(&grant);
                        CreationStep::Send(SessionCreation::AwaitingElevation { session }, request)
                    },
                    Err(error) => CreationStep::Done(Err(error)),
                }
            },
            SessionCreation::AwaitingElevation { session } => {
                match read_token_reply(reply, now) {
                    Ok(secondary_session) => {
                        let mut session = session;
                        session.update(secondary_session);
                        CreationStep::Done(Ok(session))
                    },
                    Err(error) => CreationStep::Done(Err(error)),
                }
            },
        }
    }
}

/// The address at which a token is revoked.
pub open spec fn spec_revoke_url() -> Seq<char> {
    "https://api.comdirect.de/oauth/revoke"@
}

/// The request that revokes an access token: a DELETE at the revoke
/// endpoint, with the token as bearer, no header and no body.
pub open spec fn spec_revoke_request(access_token: Seq<char>) -> HttpRequestView {
    HttpRequestView {
        method: HttpMethod::Delete,
        url: spec_revoke_url(),
        query: seq![],
        bearer: Some(access_token),
        headers: seq![],
        body: BodyView::Empty,
    }
}

/// What a reply to a revocation amounts to: the error of its status, or
/// success.
pub open spec fn spec_revoke_outcome(reply: HttpReply) -> Result<(), Error> {
    match spec_status_error(reply) {
        Some(error) => Err(error),
        None => Ok(()),
    }
}

/// Builds the request that revokes an access token.
pub fn make_revoke_request(access_token: &String) -> (request: HttpRequest)
    ensures
        request@ == spec_revoke_request(access_token@),
{
    let query: Vec<Field> = Vec::new();
    let headers: Vec<Field> = Vec::new();
    assert(fields_view(Seq::<Field>::empty()) =~= seq![]);
    HttpRequest {
        method: HttpMethod::Delete,
        url: String::from_str("https://api.comdirect.de/oauth/revoke"),
        query,
        bearer: Some(access_token.clone()),
        headers,
        body: Body::Empty,
    }
}

/// A client of the brokerage API: its credentials, and its session while it
/// has one.
#[derive(Debug, PartialEq)]
pub struct ApiClient {
    pub credentials: Credentials,
    pub session: Option<Session>,
}

impl ApiClient {
    /// A client with the given credentials and no session.
    pub fn new(client_id: String, client_secret: String, username: String, password: String) -> (client:
        ApiClient)
        ensures
            client.credentials.client_id == client_id,
            client.credentials.client_secret == client_secret,
            client.credentials.username == username,
            client.credentials.password == password,
            client.session is None,
    {
        ApiClient {
            credentials: Credentials::new(client_id, client_secret, username, password),
            session: None,
        }
    }

    /// The session of the client, or [`Error::NoActiveSession`].
    pub fn active_session(&self) -> (active: Result<&Session, Error>)
        ensures
            match active {
                Ok(session) => self.session == Some(*session),
                Err(error) => error == Error::NoActiveSession && self.session is None,
            },
    {
        match &self.session {
            Some(session) => Ok(session),
            None => Err(Error::NoActiveSession),
        }
    }

    /// Gives up the session that the client has, if any, and starts the
    /// making of a new one under the client's id `session_id`.
    pub fn new_session(&mut self, session_id: SessionId) -> (started: (
        SessionCreation,
        HttpRequest,
    ))
        ensures
            final(self).session is None,
            final(self).credentials == old(self).credentials,
            started.0 == (SessionCreation::AwaitingToken { session_id }),
            started.1@ == spec_token_request(old(self).credentials@, GrantType::Password),
    {
        self.session = None;
        SessionCreation::start(&self.credentials, session_id)
    }

    /// Ends the making of a session: the client takes the session that was
    /// made, or stays without one and reports why.
    pub fn finish_new_session(&mut self, outcome: Result<Session, Error>) -> (result: Result<(), Error>)
        ensures
            final(self).credentials == old(self).credentials,
            match outcome {
                Ok(session) => result is Ok && final(self).session == Some(session),
                Err(error) => result == Err::<(), Error>(error) && final(self).session
                    == old(self).session,
            },
    {
        match outcome {
            Ok(session) => {
                self.session = Some(session);
                Ok(())
            },
            Err(error) => Err(error),
        }
    }

    /// The request that refreshes the session: an exchange of its refresh
    /// token. Without a session it is [`Error::NoActiveSession`].
    pub fn make_refresh_request(&self) -> (request: Result<HttpRequest, Error>)
        ensures
            match self.session {
                Some(session) => request matches Ok(sent) && sent@ == spec_token_request(
                    self.credentials@,
                    GrantType::Refresh(session.tokens.refresh_token),
                ),
                None => request matches Err(error) && error == Error::NoActiveSession,
            },
    {
        match &self.session {
            Some(session) => {
                let grant = GrantType::Refresh(session.tokens.refresh_token.clone());
                Ok(self.credentials.make_token_request(&grant))
            },
            None => Err(Error::NoActiveSession),
        }
    }

    /// Takes the reply to the refresh request, at the time `now`. Without a
    /// session it is [`Error::NoActiveSession`]. A token pair replaces that
    /// of the session in place; the identity of the session stays. A failed
    /// exchange is reported and leaves the session as it was: only ending a
    /// session destroys it.
    pub fn refresh_session(&mut self, reply: &HttpReply, now: i64) -> (result: Result<(), Error>)
        ensures
            final(self).credentials == old(self).credentials,
            match old(self).session {
                Some(session) => match spec_token_outcome(*reply, now) {
                    Ok(tokens) => {
                        &&& result is Ok
                        &&& final(self).session matches Some(refreshed)
                        &&& refreshed.session_id == session.session_id
                        &&& refreshed.session_uuid == session.session_uuid
                        &&& refreshed.tokens@ == tokens
                        &&& refreshed.tokens.expires_at > now
                    },
                    Err(error) => result == Err::<(), Error>(error) && final(self).session
                        == old(self).session,
                },
                None => result == Err::<(), Error>(Error::NoActiveSession) && final(self).session
                    is None,
            },
    {
        if self.session.is_none() {
            return Err(Error::NoActiveSession);
        }
        match read_token_reply(reply, now) {
            Ok(refresh_session) => match self.session.take() {
                Some(session) => {
                    let mut session = session;
                    session.update(refresh_session);
                    self.session = Some(session);
                    Ok(())
                },
                None => Err(Error::NoActiveSession),
            },
            Err(error) => Err(error),
        }
    }

    /// The request that revokes the access token of the session. Without a
    /// session it is [`Error::NoActiveSession`].
    pub fn revoke_oauth_token(&self) -> (request: Result<HttpRequest, Error>)
        ensures
            match self.session {
                Some(session) => request matches Ok(sent) && sent@ == spec_revoke_request(
                    session.tokens.access_token@,
                ),
                None => request matches Err(error) && error == Error::NoActiveSession,
            },
    {
        match &self.session {
            Some(session) => Ok(make_revoke_request(&session.tokens.access_token)),
            None => Err(Error::NoActiveSession),
        }
    }

    /// Takes the reply to the revocation and ends the session. Whatever the
    /// reply, the client has no session afterwards; a failed revocation is
    /// reported. Without a session it is [`Error::NoActiveSession`].
    pub fn end_session(&mut self, reply: &HttpReply) -> (result: Result<(), Error>)
        ensures
            final(self).session is None,
            final(self).credentials == old(self).credentials,
            match old(self).session {
                Some(_) => result == spec_revoke_outcome(*reply),
                None => result == Err::<(), Error>(Error::NoActiveSession),
            },
    {
        match self.session.take() {
            Some(_) => match reply.check_status() {
                Ok(_) => Ok(()),
                Err(error) => Err(error),
            },
            None => Err(Error::NoActiveSession),
        }
    }

    /// Discards the session without waiting for anything: gives the request
    /// that revokes its access token, for a last attempt whose result nobody
    /// waits for, or `None` where there is no session.
    pub fn discard_session(&mut self) -> (request: Option<HttpRequest>)
        ensures
            final(self).session is None,
            final(self).credentials == old(self).credentials,
            match old(self).session {
                Some(session) => request matches Some(sent) && sent@ == spec_revoke_request(
                    session.tokens.access_token@,
                ),
                None => request is None,
            },
    {
        match self.session.take() {
            Some(session) => Some(make_revoke_request(&session.tokens.access_token)),
            None => None,
        }
    }
}

} // verus!
