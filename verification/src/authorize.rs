//! The authorization of an account-mutating action.
//!
//! Every action that changes the account goes through two requests. The
//! first submits the action for validation; the server answers with a
//! challenge, which must be of the kind `Free`, because the session is
//! already elevated. The second commits the action and echoes the id of the
//! challenge. Where the validation fails, or the challenge is of another
//! kind, no commit is ever sent.

use vstd::prelude::*;
use vstd::string::*;
use crate::error::Error;
use crate::http::{spec_status_error, BodyView, HttpMethod, HttpReply, HttpRequest, HttpRequestView, HttpResponse};
use crate::session::{spec_session_request, Session, SessionView};
use crate::tan::{
    extract_tan_challenge, spec_challenge_header, spec_confirmation_info,
    spec_extract_challenge, TanChallenge, TanChallengeType, TanChallengeView,
};

verus! {

/// An action that changes the account, as the payload to submit and the
/// order that it is aimed at. The payload is a JSON text that is passed on
/// as it is.
#[derive(Debug, PartialEq)]
pub enum MutationIntent {
    /// Place the order that `payload` outlines.
    Create { payload: String },
    /// Change the order `order_id` as `payload` says.
    Change { order_id: String, payload: String },
    /// Delete the order `order_id`.
    Delete { order_id: String },
}

/// The three requests that submit an action without committing it.
#[derive(Copy, Clone, Debug, PartialEq, Eq, Structural)]
pub enum Inspection {
    /// A check of the action that asks for no challenge.
    Prevalidation,
    /// The validation that comes before a commit.
    Validation,
    /// A preview of the costs of the action.
    CostIndication,
}

/// The address of the orders.
pub open spec fn spec_orders_url() -> Seq<char> {
    "https://api.comdirect.de/api/brokerage/v3/orders"@
}

/// The name of the resource that takes an inspection.
pub open spec fn spec_inspection_name(inspection: Inspection) -> Seq<char> {
    match inspection {
        Inspection::Prevalidation => "prevalidation"@,
        Inspection::Validation => "validation"@,
        Inspection::CostIndication => "costindicationexante"@,
    }
}

impl MutationIntent {
    /// The address of the resource that the action is aimed at: the orders
    /// for a new order, the order itself for a change or a deletion.
    pub open spec fn spec_resource_url(self) -> Seq<char> {
        match self {
            MutationIntent::Create { payload } => spec_orders_url(),
            MutationIntent::Change { order_id, payload } => spec_orders_url() + "/"@ + order_id@,
            MutationIntent::Delete { order_id } => spec_orders_url() + "/"@ + order_id@,
        }
    }

    /// The payload that is sent with the action: for a deletion the empty
    /// object.
    pub open spec fn spec_payload(self) -> Seq<char> {
        match self {
            MutationIntent::Create { payload } => payload@,
            MutationIntent::Change { order_id, payload } => payload@,
            MutationIntent::Delete { order_id } => "{}"@,
        }
    }

    /// The verb that commits the action.
    pub open spec fn spec_commit_method(self) -> HttpMethod {
        match self {
            MutationIntent::Create { payload } => HttpMethod::Post,
            MutationIntent::Change { order_id, payload } => HttpMethod::Patch,
            MutationIntent::Delete { order_id } => HttpMethod::Delete,
        }
    }

    /// The address of the resource that the action is aimed at.
    pub fn resource_url(&self) -> (url: String)
        ensures
            url@ == self.spec_resource_url(),
    {
        let orders = String::from_str("https://api.comdirect.de/api/brokerage/v3/orders");
        match self {
            MutationIntent::Create { payload } => orders,
            MutationIntent::Change { order_id, payload } => orders.concat("/").concat(
                order_id.as_str(),
            ),
            MutationIntent::Delete { order_id } => orders.concat("/").concat(order_id.as_str()),
        }
    }

    /// The payload that is sent with the action.
    pub fn payload(&self) -> (payload: String)
        ensures
            payload@ == self.spec_payload(),
    {
        match self {
            MutationIntent::Create { payload } => payload.clone(),
            MutationIntent::Change { order_id, payload } => payload.clone(),
            MutationIntent::Delete { order_id } => String::from_str("{}"),
        }
    }

    /// The verb that commits the action.
    pub fn commit_method(&self) -> (method: HttpMethod)
        ensures
            method == self.spec_commit_method(),
    {
        match self {
            MutationIntent::Create { payload } => HttpMethod::Post,
            MutationIntent::Change { order_id, payload } => HttpMethod::Patch,
            MutationIntent::Delete { order_id } => HttpMethod::Delete,
        }
    }
}

/// The request that submits an action for inspection: a POST of the payload
/// to the sub-resource of that inspection, marked and authorized as every
/// request of the session.
pub open spec fn spec_inspection_request(
    session: SessionView,
    intent: MutationIntent,
    inspection: Inspection,
    request_id: Seq<char>,
) -> HttpRequestView {
    let plain = spec_session_request(
        HttpMethod::Post,
        intent.spec_resource_url() + "/"@ + spec_inspection_name(inspection),
        session.tokens.access_token,
        session.session_id,
        request_id,
    );
    HttpRequestView { body: BodyView::Json(intent.spec_payload()), ..plain }
}

/// The request that commits an action: the verb of the action on its
/// resource, with the header that echoes the id of the challenge and the
/// same payload as in the validation.
pub open spec fn spec_commit_request(
    session: SessionView,
    intent: MutationIntent,
    challenge_id: Seq<char>,
    request_id: Seq<char>,
) -> HttpRequestView {
    let plain = spec_session_request(
        intent.spec_commit_method(),
        intent.spec_resource_url(),
        session.tokens.access_token,
        session.session_id,
        request_id,
    );
    HttpRequestView {
        headers: plain.headers.push((spec_challenge_header(), spec_confirmation_info(challenge_id))),
        body: BodyView::Json(intent.spec_payload()),
        ..plain
    }
}

/// What a reply to a validation amounts to: the error of its status;
/// [`Error::UnexpectedResponseShape`] where its headers hold no challenge;
/// [`Error::UnexpectedTanType`] for a challenge of any kind but `Free`;
/// otherwise the challenge.
pub open spec fn spec_validation_outcome(reply: HttpReply) -> Result<TanChallengeView, Error> {
    match spec_status_error(reply) {
        Some(error) => Err(error),
        None => match spec_extract_challenge(reply->Answer_0.headers@) {
            Some(challenge) => if challenge.typ == TanChallengeType::Free {
                Ok(challenge)
            } else {
                Err(Error::UnexpectedTanType)
            },
            None => Err(Error::UnexpectedResponseShape),
        },
    }
}

/// Builds the request that submits an action for inspection.
pub fn make_inspection_request(
    session: &Session,
    intent: &MutationIntent,
    inspection: Inspection,
    request_id: &str,
) -> (request: HttpRequest)
    ensures
        request@ == spec_inspection_request(session@, *intent, inspection, request_id@),
{
    let name = match inspection {
        Inspection::Prevalidation => "prevalidation",
        Inspection::Validation => "validation",
        Inspection::CostIndication => "costindicationexante",
    };
    let url = intent.resource_url().concat("/").concat(name);
    session.request(HttpMethod::Post, url, request_id).with_json(intent.payload())
}

/// Builds the request that commits an action under a challenge.
pub fn make_commit_request(
    session: &Session,
    intent: &MutationIntent,
    tan_challenge: &TanChallenge,
    request_id: &str,
) -> (request: HttpRequest)
    ensures
        request@ == spec_commit_request(session@, *intent, tan_challenge@.id, request_id@),
{
    let tan_header = tan_challenge.make_x_authentication_info_header();
    session.request(intent.commit_method(), intent.resource_url(), request_id).with_header(
        "x-once-authentication-info",
        tan_header.value,
    ).with_json(intent.payload())
}

/// Tells whether a challenge is of the kind `Free`, the only kind that the
/// authorization of an action admits.
pub fn tan_is_free(tan_challenge: &TanChallenge) -> (checked: Result<(), Error>)
    ensures
        checked == if tan_challenge.typ == TanChallengeType::Free {
            Ok::<(), Error>(())
        } else {
            Err::<(), Error>(Error::UnexpectedTanType)
        },
{
    match tan_challenge.typ {
        TanChallengeType::Free => Ok(()),
        _ => Err(Error::UnexpectedTanType),
    }
}

/// Reads the reply to a validation.
pub fn read_validation_reply(reply: &HttpReply) -> (outcome: Result<TanChallenge, Error>)
    ensures
        crate::negotiate::challenge_result_view(outcome) == spec_validation_outcome(*reply),
{
    match reply.check_status() {
        Ok(response) => match extract_tan_challenge(&response.headers) {
            Ok(challenge) => match tan_is_free(&challenge) {
                Ok(()) => Ok(challenge),
                Err(error) => Err(error),
            },
            Err(error) => Err(error),
        },
        Err(error) => Err(error),
    }
}

/// The authorization of an action, waiting for the reply to the request that
/// it sent last.
#[derive(Debug, PartialEq)]
pub enum TransactionAuthorizer {
    /// The validation is under way.
    Validating { intent: MutationIntent },
    /// The commit is under way.
    Committing { intent: MutationIntent },
}

/// What the authorization of an action does next.
#[derive(Debug, PartialEq)]
pub enum AuthorizationStep {
    /// Send this request, the commit, and hand the reply to the state beside it.
    Commit(TransactionAuthorizer, HttpRequest),
    /// The authorization is over. The action comes back to the caller, with
    /// the answer to the commit or the reason why the action failed.
    Done(MutationIntent, Result<HttpResponse, Error>),
}

/// Whether `step` is what the authorization does when `reply` answers the
/// request that `state` waits for.
///
/// After the validation: a failure ends the authorization and hands the
/// action back; a challenge of the kind `Free` leads to the commit. After
/// the commit: the authorization ends, with the error of the reply's status
/// or with the answer.
pub open spec fn spec_authorization_step(
    state: TransactionAuthorizer,
    session: SessionView,
    reply: HttpReply,
    request_id: Seq<char>,
    step: AuthorizationStep,
) -> bool {
    match state {
        TransactionAuthorizer::Validating { intent } => match spec_validation_outcome(reply) {
            Ok(challenge) => {
                &&& step matches AuthorizationStep::Commit(
                    TransactionAuthorizer::Committing { intent: kept },
                    request,
                )
                &&& kept == intent
                &&& request@ == spec_commit_request(session, intent, challenge.id, request_id)
            },
            Err(error) => step == AuthorizationStep::Done(intent, Err(error)),
        },
        TransactionAuthorizer::Committing { intent } => match spec_status_error(reply) {
            Some(error) => step == AuthorizationStep::Done(intent, Err(error)),
            None => step == AuthorizationStep::Done(intent, Ok(reply->Answer_0)),
        },
    }
}

/// A validation that is answered with a challenge of any kind but `Free`
/// fails as [`Error::UnexpectedTanType`], and the step that follows it is
/// never a commit: the action comes back with that error.
pub proof fn lemma_non_free_never_commits(
    intent: MutationIntent,
    session: SessionView,
    reply: HttpReply,
    request_id: Seq<char>,
    step: AuthorizationStep,
)
    requires
        spec_status_error(reply) is None,
        spec_extract_challenge(reply->Answer_0.headers@) matches Some(challenge) && challenge.typ
            != TanChallengeType::Free,
        spec_authorization_step(
            TransactionAuthorizer::Validating { intent },
            session,
            reply,
            request_id,
            step,
        ),
    ensures
        spec_validation_outcome(reply) == Err::<TanChallengeView, Error>(Error::UnexpectedTanType),
        step == AuthorizationStep::Done(intent, Err(Error::UnexpectedTanType)),
        !(step is Commit),
{
}

/// A commit is only ever sent after a validation that was answered with a
/// challenge of the kind `Free`, and it echoes the id of that challenge.
pub proof fn lemma_commit_only_after_free(
    state: TransactionAuthorizer,
    session: SessionView,
    reply: HttpReply,
    request_id: Seq<char>,
    step: AuthorizationStep,
)
    requires
        spec_authorization_step(state, session, reply, request_id, step),
        step is Commit,
    ensures
        state is Validating,
        spec_validation_outcome(reply) matches Ok(challenge) && challenge.typ
            == TanChallengeType::Free && step->Commit_1@ == spec_commit_request(
            session,
            state->Validating_intent,
            challenge.id,
            request_id,
        ),
{
}

impl TransactionAuthorizer {
    /// Starts the authorization of an action: gives the first request, the
    /// validation.
    pub fn validate(session: &Session, intent: MutationIntent, request_id: &str) -> (started: (
        TransactionAuthorizer,
        HttpRequest,
    ))
        ensures
            started.0 == (TransactionAuthorizer::Validating { intent }),
            started.1@ == spec_inspection_request(
                session@,
                intent,
                Inspection::Validation,
                request_id@,
            ),
    {
        let request = make_inspection_request(session, &intent, Inspection::Validation, request_id);
        (TransactionAuthorizer::Validating { intent }, request)
    }

    /// Takes the reply to the request that was sent last and moves on by one
    /// step. `request_id` marks the commit that the step may send.
    pub fn on_reply(self, session: &Session, reply: HttpReply, request_id: &str) -> (step:
        AuthorizationStep)
        ensures
            spec_authorization_step(self, session@, reply, request_id@, step),
    {
        match self {
            TransactionAuthorizer::Validating { intent } => {
                match read_validation_reply(&reply) {
                    Ok(challenge) => {
                        let request = make_commit_request(session, &intent, &challenge, request_id);
                        AuthorizationStep::Commit(
                            TransactionAuthorizer::Committing { intent },
                            request,
                        )
                    },
                    Err(error) => AuthorizationStep::Done(intent, Err(error)),
                }
            },
            TransactionAuthorizer::Committing { intent } => {
                match reply {
                    HttpReply::NoAnswer => AuthorizationStep::Done(intent, Err(Error::Other)),
                    HttpReply::Answer(response) => {
                        if 400 <= response.status && response.status <= 599 {
                            AuthorizationStep::Done(
                                intent,
                                Err(Error::from_status(Some(response.status))),
                            )
                        } else {
                            AuthorizationStep::Done(intent, Ok(response))
                        }
                    },
                }
            },
        }
    }
}

} // verus!
