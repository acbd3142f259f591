//! The negotiation of a second-factor challenge.
//!
//! A session is elevated by a challenge that the user approves through a push
//! notification. The server picks the kind of challenge. Where it picks
//! another kind and offers the push kind too, the client asks once more, for
//! the push kind by name. It never asks a third time.

use vstd::prelude::*;
use vstd::string::*;
use crate::error::Error;
use crate::http::{BodyView, HttpMethod, HttpReply, HttpRequest, HttpRequestView, spec_status_error};
use crate::session::{spec_session_request, Session, SessionView};
use crate::tan::{
    extract_tan_challenge, spec_authentication_info, spec_challenge_header,
    spec_extract_challenge, TanChallenge, TanChallengeType, TanChallengeView,
};
use crate::text::join3;

verus! {

/// The address of the sessions of the user.
pub open spec fn spec_sessions_url() -> Seq<char> {
    "https://api.comdirect.de/api/session/clients/user/v1/sessions"@
}

/// The JSON body that names a session whose TAN is to be active.
pub open spec fn spec_identity_body(session_uuid: Seq<char>) -> Seq<char> {
    "{\"identifier\":\""@ + session_uuid + "\",\"sessionTanActive\":true,\"activated2FA\":true}"@
}

/// The request for a challenge: a POST to the `validate` resource of the
/// session, marked and authorized as every request of the session, with the
/// identity of the session as its body, and with the header that names the
/// desired kind of challenge where one is desired.
pub open spec fn spec_challenge_request(
    session: SessionView,
    desired: Option<TanChallengeType>,
    request_id: Seq<char>,
) -> HttpRequestView {
    let plain = spec_session_request(
        HttpMethod::Post,
        spec_sessions_url() + "/"@ + session.session_uuid + "/validate"@,
        session.tokens.access_token,
        session.session_id,
        request_id,
    );
    HttpRequestView {
        headers: match desired {
            Some(typ) => plain.headers.push((spec_challenge_header(), spec_authentication_info(typ))),
            None => plain.headers,
        },
        body: BodyView::Json(spec_identity_body(session.session_uuid)),
        ..plain
    }
}

/// What a reply to the request for a challenge amounts to: the error of its
/// status, or the challenge in its headers, or
/// [`Error::UnexpectedResponseShape`] where the headers hold none.
pub open spec fn spec_challenge_outcome(reply: HttpReply) -> Result<TanChallengeView, Error> {
    match spec_status_error(reply) {
        Some(error) => Err(error),
        None => match spec_extract_challenge(reply->Answer_0.headers@) {
            Some(challenge) => Ok(challenge),
            None => Err(Error::UnexpectedResponseShape),
        },
    }
}

/// The content of a challenge, or the error in its place.
pub open spec fn challenge_result_view(result: Result<TanChallenge, Error>) -> Result<
    TanChallengeView,
    Error,
> {
    match result {
        Ok(challenge) => Ok(challenge@),
        Err(error) => Err(error),
    }
}

/// What the client makes of a challenge.
#[derive(Copy, Clone, Debug, PartialEq, Eq, Structural)]
pub enum Verdict {
    /// The challenge is of the push kind: go on with it.
    Accept,
    /// Ask once more, for the push kind by name.
    Retry,
    /// Give up.
    Reject(Error),
}

/// The rule of the negotiation. A challenge of the push kind is accepted.
/// Any other kind is a failure, unless no kind was asked for yet and the
/// server offers the push kind: then the client asks again. Where a kind was
/// asked for, the failure tells whether the server answered with that kind
/// (`UnsupportedTanType`) or with another (`UnexpectedTanType`).
pub open spec fn spec_verdict(challenge: TanChallengeView, desired: Option<TanChallengeType>) -> Verdict {
    if challenge.typ == TanChallengeType::PushTan {
        Verdict::Accept
    } else {
        match desired {
            Some(asked) => if asked == challenge.typ {
                Verdict::Reject(Error::UnsupportedTanType)
            } else {
                Verdict::Reject(Error::UnexpectedTanType)
            },
            None => if challenge.available_types.contains(TanChallengeType::PushTan) {
                Verdict::Retry
            } else {
                Verdict::Reject(Error::UnsupportedTanType)
            },
        }
    }
}

/// Where a negotiation stands after a number of answers.
pub struct Run {
    /// The result, once there is one.
    pub outcome: Option<Result<TanChallengeView, Error>>,
    /// The number of requests sent so far.
    pub calls: nat,
}

/// The course of a negotiation that starts by asking for `desired` and gets
/// `answers` to its requests, in order. Answers that come after the result
/// is settled are never asked for.
pub open spec fn spec_negotiate(
    desired: Option<TanChallengeType>,
    answers: Seq<Result<TanChallengeView, Error>>,
) -> Run
    decreases answers.len(),
{
    if answers.len() == 0 {
        Run { outcome: None, calls: 1 }
    } else {
        match answers[0] {
            Err(error) => Run { outcome: Some(Err(error)), calls: 1 },
            Ok(challenge) => match spec_verdict(challenge, desired) {
                Verdict::Accept => Run { outcome: Some(Ok(challenge)), calls: 1 },
                Verdict::Reject(error) => Run { outcome: Some(Err(error)), calls: 1 },
                Verdict::Retry => {
                    let rest = spec_negotiate(
                        Some(TanChallengeType::PushTan),
                        answers.drop_first(),
                    );
                    Run { outcome: rest.outcome, calls: rest.calls + 1 }
                },
            },
        }
    }
}

/// Once a kind has been asked for, the client never asks again.
pub proof fn lemma_no_retry_once_asked(challenge: TanChallengeView, asked: TanChallengeType)
    ensures
        spec_verdict(challenge, Some(asked)) != Verdict::Retry,
{
}

/// A negotiation sends at most two requests, whatever the server answers,
/// and at most one where it starts by asking for a kind.
pub proof fn lemma_at_most_two_calls(
    desired: Option<TanChallengeType>,
    answers: Seq<Result<TanChallengeView, Error>>,
)
    ensures
        1 <= spec_negotiate(desired, answers).calls <= 2,
        desired is Some ==> spec_negotiate(desired, answers).calls == 1,
{
    if answers.len() > 0 {
        let rest = answers.drop_first();
        if rest.len() > 0 {
            assert(spec_negotiate(Some(TanChallengeType::PushTan), rest).calls == 1);
        }
    }
}

/// Where the first answer is a challenge of the push kind, the negotiation
/// succeeds with it after a single request.
pub proof fn lemma_push_first_succeeds(
    desired: Option<TanChallengeType>,
    answers: Seq<Result<TanChallengeView, Error>>,
)
    requires
        answers.len() > 0,
        answers[0] is Ok,
        answers[0]->Ok_0.typ == TanChallengeType::PushTan,
    ensures
        spec_negotiate(desired, answers) == (Run { outcome: Some(answers[0]), calls: 1 }),
{
}

/// Where the server answers with a kind other than push and does not offer
/// the push kind, a negotiation that asked for no kind, or for the kind that
/// came back, fails as `UnsupportedTanType` after a single request.
pub proof fn lemma_push_never_offered_fails(
    desired: Option<TanChallengeType>,
    answers: Seq<Result<TanChallengeView, Error>>,
)
    requires
        answers.len() > 0,
        answers[0] is Ok,
        answers[0]->Ok_0.typ != TanChallengeType::PushTan,
        !answers[0]->Ok_0.available_types.contains(TanChallengeType::PushTan),
        desired is None || desired == Some(answers[0]->Ok_0.typ),
    ensures
        spec_negotiate(desired, answers) == (Run {
            outcome: Some(Err(Error::UnsupportedTanType)),
            calls: 1,
        }),
{
}

/// A negotiation only ever succeeds with a challenge of the push kind.
pub proof fn lemma_success_is_push(
    desired: Option<TanChallengeType>,
    answers: Seq<Result<TanChallengeView, Error>>,
)
    ensures
        spec_negotiate(desired, answers).outcome matches Some(Ok(challenge)) ==> challenge.typ
            == TanChallengeType::PushTan,
    decreases answers.len(),
{
    if answers.len() > 0 {
        lemma_success_is_push(Some(TanChallengeType::PushTan), answers.drop_first());
    }
}

/// Writes the JSON body that names a session whose TAN is to be active.
pub fn make_identity_body(session_uuid: &str) -> (body: String)
    ensures
        body@ == spec_identity_body(session_uuid@),
{
    join3(
        "{\"identifier\":\"",
        session_uuid,
        "\",\"sessionTanActive\":true,\"activated2FA\":true}",
    )
}

/// Builds the request for a challenge.
pub fn make_challenge_request(
    session: &Session,
    desired: Option<TanChallengeType>,
    request_id: &str,
) -> (request: HttpRequest)
    ensures
        request@ == spec_challenge_request(session@, desired, request_id@),
{
    let url = String::from_str("https://api.comdirect.de/api/session/clients/user/v1/sessions")
        .concat("/").concat(session.session_uuid.as_str()).concat("/validate");
    let request = session.request(HttpMethod::Post, url, request_id).with_json(
        make_identity_body(session.session_uuid.as_str()),
    );
    match desired {
        Some(typ) => request.with_header(
            "x-once-authentication-info",
            String::from_str(typ.to_authentication_info()),
        ),
        None => request,
    }
}

/// Reads the reply to the request for a challenge.
pub fn read_challenge_reply(reply: &HttpReply) -> (answer: Result<TanChallenge, Error>)
    ensures
        challenge_result_view(answer) == spec_challenge_outcome(*reply),
{
    match reply.check_status() {
        Ok(response) => extract_tan_challenge(&response.headers),
        Err(error) => Err(error),
    }
}

/// Decides what to make of a challenge that is not of the push kind.
pub fn handle_unsupported_tan_type(
    current_tan_challenge: &TanChallenge,
    desired_tan_type: Option<TanChallengeType>,
) -> (verdict: Verdict)
    requires
        current_tan_challenge.typ != TanChallengeType::PushTan,
    ensures
        verdict == spec_verdict(current_tan_challenge@, desired_tan_type),
        verdict != Verdict::Accept,
{
    match desired_tan_type {
        Some(desired) => {
            if desired == current_tan_challenge.typ {
                Verdict::Reject(Error::UnsupportedTanType)
            } else {
                Verdict::Reject(Error::UnexpectedTanType)
            }
        },
        None => {
            if current_tan_challenge.offers(TanChallengeType::PushTan) {
                Verdict::Retry
            } else {
                Verdict::Reject(Error::UnsupportedTanType)
            }
        },
    }
}

/// Decides what to make of a challenge, given the kind that was asked for.
pub fn check_tan_challenge(
    current_tan_challenge: &TanChallenge,
    desired_tan_type: Option<TanChallengeType>,
) -> (verdict: Verdict)
    ensures
        verdict == spec_verdict(current_tan_challenge@, desired_tan_type),
{
    match current_tan_challenge.typ {
        TanChallengeType::PushTan => Verdict::Accept,
        _ => handle_unsupported_tan_type(current_tan_challenge, desired_tan_type),
    }
}

/// A negotiation that has sent a request and waits for the answer.
#[derive(Debug, PartialEq)]
pub struct TanNegotiator {
    desired: Option<TanChallengeType>,
    calls: u8,
}

/// What a negotiation does next.
#[derive(Debug, PartialEq)]
pub enum NegotiationStep {
    /// Send this request, and hand the answer to the negotiation.
    Retry(TanNegotiator, HttpRequest),
    /// The negotiation is over.
    Done(Result<TanChallenge, Error>),
}

impl TanNegotiator {
    #[verifier::type_invariant]
    spec fn bounded(self) -> bool {
        self.calls == 1 || (self.calls == 2 && self.desired == Some(TanChallengeType::PushTan))
    }

    /// The kind of challenge that the pending request asks for, if any.
    pub closed spec fn desired(self) -> Option<TanChallengeType> {
        self.desired
    }

    /// The number of requests that the negotiation has sent.
    pub closed spec fn calls(self) -> nat {
        self.calls as nat
    }

    /// Starts a negotiation: gives the first request to send.
    pub fn start(session: &Session, desired: Option<TanChallengeType>, request_id: &str) -> (started: (
        TanNegotiator,
        HttpRequest,
    ))
        ensures
            started.0.desired() == desired,
            started.0.calls() == 1,
            started.1@ == spec_challenge_request(session@, desired, request_id@),
    {
        (TanNegotiator { desired, calls: 1 }, make_challenge_request(session, desired, request_id))
    }

    /// The number of requests that the negotiation has sent: one or two, and
    /// two only after it asked for the push kind by name.
    pub fn requests_sent(&self) -> (calls: u8)
        ensures
            calls == self.calls(),
            1 <= calls <= 2,
            calls == 2 ==> self.desired() == Some(TanChallengeType::PushTan),
    {
        proof {
            use_type_invariant(self);
        }
        self.calls
    }

    /// The kind of challenge that the pending request asks for, if any.
    pub fn desired_type(&self) -> (desired: Option<TanChallengeType>)
        ensures
            desired == self.desired(),
    {
        self.desired
    }

    /// Takes the answer to the pending request, as a challenge or the error
    /// in its place, and decides by the rule of the negotiation. A retry
    /// asks for the push kind and is the second and last request.
    pub fn on_challenge(
        self,
        session: &Session,
        answer: Result<TanChallenge, Error>,
        request_id: &str,
    ) -> (step: NegotiationStep)
        ensures
            match step {
                NegotiationStep::Retry(next, request) => {
                    &&& answer is Ok
                    &&& spec_verdict(answer->Ok_0@, self.desired()) == Verdict::Retry
                    &&& self.desired() is None
                    &&& self.calls() == 1
                    &&& next.desired() == Some(TanChallengeType::PushTan)
                    &&& next.calls() == 2
                    &&& request@ == spec_challenge_request(
                        session@,
                        Some(TanChallengeType::PushTan),
                        request_id@,
                    )
                },
                NegotiationStep::Done(Ok(challenge)) => {
                    &&& answer == Ok::<TanChallenge, Error>(challenge)
                    &&& spec_verdict(challenge@, self.desired()) == Verdict::Accept
                    &&& challenge.typ == TanChallengeType::PushTan
                },
                NegotiationStep::Done(Err(error)) => match answer {
                    Ok(challenge) => spec_verdict(challenge@, self.desired()) == Verdict::Reject(
                        error,
                    ),
                    Err(failure) => error == failure,
                },
            },
    {
        proof {
            use_type_invariant(&self);
        }
        match answer {
            Err(error) => NegotiationStep::Done(Err(error)),
            Ok(challenge) => match check_tan_challenge(&challenge, self.desired) {
                Verdict::Accept => NegotiationStep::Done(Ok(challenge)),
                Verdict::Reject(error) => NegotiationStep::Done(Err(error)),
                Verdict::Retry => {
                    let next = TanNegotiator {
                        desired: Some(TanChallengeType::PushTan),
                        calls: 2,
                    };
                    NegotiationStep::Retry(
                        next,
                        make_challenge_request(
                            session,
                            Some(TanChallengeType::PushTan),
                            request_id,
                        ),
                    )
                },
            },
        }
    }

    /// Takes the reply to the pending request: reads the challenge from it
    /// and decides as [`TanNegotiator::on_challenge`] does.
    pub fn on_reply(self, session: &Session, reply: &HttpReply, request_id: &str) -> (step:
        NegotiationStep)
        ensures
            match step {
                NegotiationStep::Retry(next, request) => {
                    &&& spec_challenge_outcome(*reply) is Ok
                    &&& spec_verdict(spec_challenge_outcome(*reply)->Ok_0, self.desired())
                        == Verdict::Retry
                    &&& self.desired() is None
                    &&& self.calls() == 1
                    &&& next.desired() == Some(TanChallengeType::PushTan)
                    &&& next.calls() == 2
                    &&& request@ == spec_challenge_request(
                        session@,
                        Some(TanChallengeType::PushTan),
                        request_id@,
                    )
                },
                NegotiationStep::Done(Ok(challenge)) => {
                    &&& spec_challenge_outcome(*reply) == Ok::<TanChallengeView, Error>(challenge@)
                    &&& spec_verdict(challenge@, self.desired()) == Verdict::Accept
                    &&& challenge.typ == TanChallengeType::PushTan
                },
                NegotiationStep::Done(Err(error)) => match spec_challenge_outcome(*reply) {
                    Ok(challenge) => spec_verdict(challenge, self.desired()) == Verdict::Reject(
                        error,
                    ),
                    Err(failure) => error == failure,
                },
            },
    {
        let answer = read_challenge_reply(reply);
        self.on_challenge(session, answer, request_id)
    }
}

/// What the replies to the requests of a negotiation amount to, in order.
pub open spec fn spec_challenge_outcomes(replies: Seq<HttpReply>) -> Seq<
    Result<TanChallengeView, Error>,
> {
    replies.map_values(|reply: HttpReply| spec_challenge_outcome(reply))
}

/// The content of the result of a negotiation, while there is one.
pub open spec fn outcome_view(outcome: Option<Result<TanChallenge, Error>>) -> Option<
    Result<TanChallengeView, Error>,
> {
    match outcome {
        Some(result) => Some(challenge_result_view(result)),
        None => None,
    }
}

/// Runs a negotiation against replies that are known beforehand: the first
/// reply answers the first request, the second a retry. Gives the result, or
/// `None` where the replies run out before there is one, and the number of
/// requests that the negotiation sent. This is the course that
/// [`spec_negotiate`] describes, so the number is one or two.
pub fn replay(
    session: &Session,
    desired: Option<TanChallengeType>,
    replies: &Vec<HttpReply>,
    request_id: &str,
) -> (run: (Option<Result<TanChallenge, Error>>, u8))
    ensures
        outcome_view(run.0) == spec_negotiate(desired, spec_challenge_outcomes(replies@)).outcome,
        run.1 == spec_negotiate(desired, spec_challenge_outcomes(replies@)).calls,
        1 <= run.1 <= 2,
{
    let ghost answers = spec_challenge_outcomes(replies@);
    let (negotiator, _) = TanNegotiator::start(session, desired, request_id);
    if replies.len() == 0 {
        return (None, 1);
    }
    assert(answers[0] == spec_challenge_outcome(replies@[0]));
    match negotiator.on_reply(session, &replies[0], request_id) {
        NegotiationStep::Done(result) => (Some(result), 1),
        NegotiationStep::Retry(next, _) => {
            let ghost rest = answers.drop_first();
            assert(spec_negotiate(desired, answers).calls == spec_negotiate(
                Some(TanChallengeType::PushTan),
                rest,
            ).calls + 1);
            assert(spec_negotiate(desired, answers).outcome == spec_negotiate(
                Some(TanChallengeType::PushTan),
                rest,
            ).outcome);
            if replies.len() == 1 {
                assert(rest.len() == 0);
                return (None, 2);
            }
            assert(rest[0] == spec_challenge_outcome(replies@[1]));
            match next.on_reply(session, &replies[1], request_id) {
                NegotiationStep::Done(result) => (Some(result), 2),
                NegotiationStep::Retry(_, _) => (None, 2),
            }
        },
    }
}

} // verus!
