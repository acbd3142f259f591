//! Token pairs, session identities and the sessions built from them.

use vstd::prelude::*;
use vstd::string::*;
use rand::Rng;
use crate::error::Error;
use crate::http::{fields_view, push_field, Body, BodyView, HttpMethod, HttpRequest, HttpRequestView};
use crate::json::Json;
use crate::text::join5;

verus! {

/// Which credentials a token exchange presents.
#[derive(Debug, PartialEq)]
pub enum GrantType {
    /// The user's name and password.
    Password,
    /// The access token of a session whose TAN has been activated.
    SecondaryElevation(String),
    /// A refresh token.
    Refresh(String),
}

impl Clone for GrantType {
    fn clone(&self) -> (copy: GrantType)
        ensures
            copy == *self,
    {
        match self {
            GrantType::Password => GrantType::Password,
            GrantType::SecondaryElevation(token) => GrantType::SecondaryElevation(token.clone()),
            GrantType::Refresh(token) => GrantType::Refresh(token.clone()),
        }
    }
}

/// The name of a grant type on the wire.
pub open spec fn spec_grant_name(grant: GrantType) -> Seq<char> {
    match grant {
        GrantType::Password => "password"@,
        GrantType::SecondaryElevation(_) => "cd_secondary"@,
        GrantType::Refresh(_) => "refresh_token"@,
    }
}

impl GrantType {
    /// The name of this grant type on the wire.
    pub fn as_str(&self) -> (name: &'static str)
        ensures
            name@ == spec_grant_name(*self),
    {
        match self {
            GrantType::Password => "password",
            GrantType::SecondaryElevation(_) => "cd_secondary",
            GrantType::Refresh(_) => "refresh_token",
        }
    }

    /// The name of this grant type on the wire; the same as [`GrantType::as_str`].
    pub fn to_str(&self) -> (name: &'static str)
        ensures
            name@ == spec_grant_name(*self),
    {
        self.as_str()
    }
}

/// An access token with the refresh token that renews it and the time at
/// which it expires, in seconds since the Unix epoch.
#[derive(Debug, PartialEq)]
pub struct TokenPair {
    pub access_token: String,
    pub refresh_token: String,
    pub expires_at: i64,
}

/// The mathematical content of a [`TokenPair`].
pub struct TokenPairView {
    pub access_token: Seq<char>,
    pub refresh_token: Seq<char>,
    pub expires_at: int,
}

impl View for TokenPair {
    type V = TokenPairView;

    open spec fn view(&self) -> TokenPairView {
        TokenPairView {
            access_token: self.access_token@,
            refresh_token: self.refresh_token@,
            expires_at: self.expires_at as int,
        }
    }
}

impl Clone for TokenPair {
    fn clone(&self) -> (copy: TokenPair)
        ensures
            copy == *self,
    {
        TokenPair {
            access_token: self.access_token.clone(),
            refresh_token: self.refresh_token.clone(),
            expires_at: self.expires_at,
        }
    }
}

/// The token pair that the body of a token response describes at the time
/// `now`: an object with the strings `access_token` and `refresh_token` and a
/// positive integer `expires_in`, the lifetime in seconds, which is counted
/// from `now`. `None` for every other document, and where the expiry would
/// not fit the clock.
pub open spec fn spec_decode_tokens(json: Json, now: i64) -> Option<TokenPairView> {
    match (
        json.spec_member("access_token"@),
        json.spec_member("refresh_token"@),
        json.spec_member("expires_in"@),
    ) {
        (Some(access), Some(refresh), Some(lifetime)) => match (
            access.spec_text(),
            refresh.spec_text(),
            lifetime.spec_integer(),
        ) {
            (Some(access_token), Some(refresh_token), Some(expires_in)) => if 0 < expires_in
                && now + expires_in <= i64::MAX {
                Some(TokenPairView { access_token, refresh_token, expires_at: now + expires_in })
            } else {
                None
            },
            _ => None,
        },
        _ => None,
    }
}

impl TokenPair {
    /// Reads a token pair from the body of a token response that arrived at
    /// the time `now`. A body that does not describe a token pair is refused
    /// as [`Error::ResponseDecodeFailure`]. A pair that is accepted expires
    /// strictly after `now`.
    pub fn from_json(json: &Json, now: i64) -> (decoded: Result<TokenPair, Error>)
        ensures
            match decoded {
                Ok(pair) => spec_decode_tokens(*json, now) == Some(pair@) && pair.expires_at > now,
                Err(error) => error == Error::ResponseDecodeFailure && spec_decode_tokens(
                    *json,
                    now,
                ) is None,
            },
    {
        let access_token = match json.member("access_token") {
            Some(value) => match value.as_text() {
                Some(text) => text.clone(),
                None => { return Err(Error::ResponseDecodeFailure); },
            },
            None => { return Err(Error::ResponseDecodeFailure); },
        };
        let refresh_token = match json.member("refresh_token") {
            Some(value) => match value.as_text() {
                Some(text) => text.clone(),
                None => { return Err(Error::ResponseDecodeFailure); },
            },
            None => { return Err(Error::ResponseDecodeFailure); },
        };
        let expires_in = match json.member("expires_in") {
            Some(value) => match value.as_integer() {
                Some(seconds) => seconds,
                None => { return Err(Error::ResponseDecodeFailure); },
            },
            None => { return Err(Error::ResponseDecodeFailure); },
        };
        if expires_in <= 0 {
            return Err(Error::ResponseDecodeFailure);
        }
        match now.checked_add(expires_in) {
            Some(expires_at) => Ok(TokenPair { access_token, refresh_token, expires_at }),
            None => Err(Error::ResponseDecodeFailure),
        }
    }
}

/// A token pair that is not yet bound to a session identity.
#[derive(Debug, PartialEq)]
pub struct PreSession {
    pub tokens: TokenPair,
}

/// Whether a character is one of `0`..`9`, `a`..`f`.
pub open spec fn is_lower_hex(c: char) -> bool {
    ('0' <= c && c <= '9') || ('a' <= c && c <= 'f')
}

/// Whether a text has the form of a session id: 32 lowercase hexadecimal
/// digits.
pub open spec fn is_session_id(text: Seq<char>) -> bool {
    &&& text.len() == 32
    &&& forall|i: int| 0 <= i < text.len() ==> is_lower_hex(#[trigger] text[i])
}

/// The hexadecimal digit for a value below 16.
pub open spec fn spec_hex_digit(nibble: usize) -> char
    recommends
        nibble < 16,
{
    "0123456789abcdef"@[nibble as int]
}

/// The text that a list of values below 16 spells in hexadecimal digits.
pub open spec fn spec_hex_text(nibbles: Seq<usize>) -> Seq<char> {
    Seq::new(nibbles.len(), |i: int| spec_hex_digit(nibbles[i]))
}

/// Every hexadecimal digit for a value below 16 is a lowercase digit.
pub proof fn lemma_hex_digit_is_lower_hex(nibble: usize)
    requires
        nibble < 16,
    ensures
        is_lower_hex(spec_hex_digit(nibble)),
{
    reveal_strlit("0123456789abcdef");
}

/// Draws a number below `bound` from the generator that `rand::thread_rng`
/// gives, with `rand::Rng::gen_range(0, bound)`, which yields a value from 0
/// up to, but not including, `bound`, and panics for an empty range.
#[verifier::external_body]
fn random_below(bound: usize) -> (drawn: usize)
    requires
        0 < bound,
    ensures
        drawn < bound,
{
    rand::thread_rng().gen_range(0usize, bound)
}

/// The one-character text of a hexadecimal digit.
fn hex_str(nibble: usize) -> (digit: &'static str)
    requires
        nibble < 16,
    ensures
        digit@ == seq![spec_hex_digit(nibble)],
{
    proof {
        reveal_strlit("0123456789abcdef");
        reveal_strlit("0");
        reveal_strlit("1");
        reveal_strlit("2");
        reveal_strlit("3");
        reveal_strlit("4");
        reveal_strlit("5");
        reveal_strlit("6");
        reveal_strlit("7");
        reveal_strlit("8");
        reveal_strlit("9");
        reveal_strlit("a");
        reveal_strlit("b");
        reveal_strlit("c");
        reveal_strlit("d");
        reveal_strlit("e");
        reveal_strlit("f");
    }
    let digit = if nibble == 0 {
        "0"
    } else if nibble == 1 {
        "1"
    } else if nibble == 2 {
        "2"
    } else if nibble == 3 {
        "3"
    } else if nibble == 4 {
        "4"
    } else if nibble == 5 {
        "5"
    } else if nibble == 6 {
        "6"
    } else if nibble == 7 {
        "7"
    } else if nibble == 8 {
        "8"
    } else if nibble == 9 {
        "9"
    } else if nibble == 10 {
        "a"
    } else if nibble == 11 {
        "b"
    } else if nibble == 12 {
        "c"
    } else if nibble == 13 {
        "d"
    } else if nibble == 14 {
        "e"
    } else {
        "f"
    };
    assert(digit@ =~= seq![spec_hex_digit(nibble)]);
    digit
}

/// The id by which the client marks every request of one session: 32
/// lowercase hexadecimal digits, drawn at random. It correlates requests and
/// is no secret.
#[derive(Debug, PartialEq)]
pub struct SessionId {
    text: String,
}

impl View for SessionId {
    type V = Seq<char>;

    closed spec fn view(&self) -> Seq<char> {
        self.text@
    }
}

impl Clone for SessionId {
    fn clone(&self) -> (copy: SessionId)
        ensures
            copy@ == self@,
    {
        proof {
            use_type_invariant(self);
        }
        SessionId { text: self.text.clone() }
    }
}

impl SessionId {
    #[verifier::type_invariant]
    spec fn well_formed(self) -> bool {
        is_session_id(self.text@)
    }

    /// Accepts a text as a session id if it has the form of one.
    pub fn new(text: String) -> (made: Option<SessionId>)
        ensures
            match made {
                Some(id) => is_session_id(text@) && id@ == text@,
                None => !is_session_id(text@),
            },
    {
        let length = text.as_str().unicode_len();
        if length != 32 {
            return None;
        }
        let mut index: usize = 0;
        while index < length
            invariant
                index <= length,
                length == text@.len(),
                forall|i: int| 0 <= i < index ==> is_lower_hex(#[trigger] text@[i]),
            decreases length - index,
        {
            let c = text.as_str().get_char(index);
            if !(('0' <= c && c <= '9') || ('a' <= c && c <= 'f')) {
                return None;
            }
            index = index + 1;
        }
        Some(SessionId { text })
    }

    /// Spells a session id from 32 values below 16, one digit each.
    fn spell(nibbles: &Vec<usize>) -> (made: SessionId)
        requires
            nibbles@.len() == 32,
            forall|i: int| 0 <= i < 32 ==> nibbles@[i] < 16,
        ensures
            made@ == spec_hex_text(nibbles@),
    {
        let mut text = String::new();
        let mut index: usize = 0;
        while index < 32
            invariant
                index <= 32,
                nibbles@.len() == 32,
                text@.len() == index,
                forall|i: int| 0 <= i < 32 ==> nibbles@[i] < 16,
                forall|i: int| 0 <= i < index ==> text@[i] == spec_hex_digit(nibbles@[i]),
            decreases 32 - index,
        {
            text.append(hex_str(nibbles[index]));
            index = index + 1;
        }
        assert(text@ =~= spec_hex_text(nibbles@));
        assert forall|i: int| 0 <= i < text@.len() implies is_lower_hex(#[trigger] text@[i]) by {
            lemma_hex_digit_is_lower_hex(nibbles@[i]);
        }
        SessionId { text }
    }

    /// Spells a session id from 32 values below 16, one digit each. Any other
    /// list gives `None`.
    pub fn from_nibbles(nibbles: &Vec<usize>) -> (made: Option<SessionId>)
        ensures
            match made {
                Some(id) => id@ == spec_hex_text(nibbles@) && nibbles@.len() == 32 && forall|
                    i: int,
                | 0 <= i < 32 ==> nibbles@[i] < 16,
                None => nibbles@.len() != 32 || exists|i: int| 0 <= i < 32 && nibbles@[i] >= 16,
            },
    {
        if nibbles.len() != 32 {
            return None;
        }
        let mut index: usize = 0;
        while index < 32
            invariant
                index <= 32,
                nibbles@.len() == 32,
                forall|i: int| 0 <= i < index ==> nibbles@[i] < 16,
            decreases 32 - index,
        {
            if nibbles[index] >= 16 {
                return None;
            }
            index = index + 1;
        }
        Some(SessionId::spell(nibbles))
    }

    /// Draws a fresh session id at random.
    pub fn generate() -> (made: SessionId)
        ensures
            is_session_id(made@),
    {
        let mut nibbles: Vec<usize> = Vec::new();
        let mut index: usize = 0;
        while index < 32
            invariant
                index <= 32,
                nibbles@.len() == index,
                forall|i: int| 0 <= i < index ==> nibbles@[i] < 16,
            decreases 32 - index,
        {
            nibbles.push(random_below(16));
            index = index + 1;
        }
        let id = SessionId::spell(&nibbles);
        proof {
            use_type_invariant(&id);
        }
        id
    }

    /// The digits of the id. They always have the form of a session id.
    pub fn as_str(&self) -> (text: &str)
        ensures
            text@ == self@,
            is_session_id(self@),
    {
        proof {
            use_type_invariant(self);
        }
        self.text.as_str()
    }
}

/// A session: the identity that client and server gave it, and the token
/// pair that currently authorizes its requests.
#[derive(Debug, PartialEq)]
pub struct Session {
    /// The client's own id for the session.
    pub session_id: SessionId,
    /// The id that the server assigned to the session.
    pub session_uuid: String,
    pub tokens: TokenPair,
}

/// The mathematical content of a [`Session`].
pub struct SessionView {
    pub session_id: Seq<char>,
    pub session_uuid: Seq<char>,
    pub tokens: TokenPairView,
}

impl View for Session {
    type V = SessionView;

    open spec fn view(&self) -> SessionView {
        SessionView {
            session_id: self.session_id@,
            session_uuid: self.session_uuid@,
            tokens: self.tokens@,
        }
    }
}

impl Clone for Session {
    fn clone(&self) -> (copy: Session)
        ensures
            copy@ == self@,
    {
        Session {
            session_id: self.session_id.clone(),
            session_uuid: self.session_uuid.clone(),
            tokens: self.tokens.clone(),
        }
    }
}

impl PreSession {
    /// Binds the token pair to a session identity.
    pub fn session(self, session_id: SessionId, session_uuid: String) -> (session: Session)
        ensures
            session.session_id == session_id,
            session.session_uuid == session_uuid,
            session.tokens == self.tokens,
    {
        Session { session_id, session_uuid, tokens: self.tokens }
    }
}

/// The value of the header that marks a request: the JSON object
/// `{"clientRequestId":{"sessionId":"<session id>","requestId":"<request id>"}}`.
pub open spec fn spec_request_info(session_id: Seq<char>, request_id: Seq<char>) -> Seq<char> {
    "{\"clientRequestId\":{\"sessionId\":\""@ + session_id + "\",\"requestId\":\""@ + request_id
        + "\"}}"@
}

/// The request that every call within a session starts from: the verb and
/// the URL, the access token as bearer, the header that marks the request,
/// and no body.
pub open spec fn spec_session_request(
    method: HttpMethod,
    url: Seq<char>,
    access_token: Seq<char>,
    session_id: Seq<char>,
    request_id: Seq<char>,
) -> HttpRequestView {
    HttpRequestView {
        method,
        url,
        query: seq![],
        bearer: Some(access_token),
        headers: seq![("x-http-request-info"@, spec_request_info(session_id, request_id))],
        body: BodyView::Empty,
    }
}

/// Writes the value of the header that marks a request.
pub fn make_request_info(session_id: &SessionId, request_id: &str) -> (info: String)
    ensures
        info@ == spec_request_info(session_id@, request_id@),
{
    join5(
        "{\"clientRequestId\":{\"sessionId\":\"",
        session_id.as_str(),
        "\",\"requestId\":\"",
        request_id,
        "\"}}",
    )
}

/// Starts a request that is authorized by `access_token` and marked with the
/// session id and a request id.
pub fn make_session_request(
    method: HttpMethod,
    url: String,
    access_token: &String,
    session_id: &SessionId,
    request_id: &str,
) -> (request: HttpRequest)
    ensures
        request@ == spec_session_request(method, url@, access_token@, session_id@, request_id@),
{
    let mut headers: Vec<crate::http::Field> = Vec::new();
    push_field(&mut headers, "x-http-request-info", make_request_info(session_id, request_id));
    assert(fields_view(headers@) =~= seq![
        ("x-http-request-info"@, spec_request_info(session_id@, request_id@)),
    ]);
    let query: Vec<crate::http::Field> = Vec::new();
    assert(fields_view(query@) =~= seq![]);
    HttpRequest {
        method,
        url,
        query,
        bearer: Some(access_token.clone()),
        headers,
        body: Body::Empty,
    }
}

impl Session {
    /// Binds a token pair to a session identity.
    pub fn from_pre_session(pre_session: PreSession, session_id: SessionId, session_uuid: String) -> (session:
        Session)
        ensures
            session.session_id == session_id,
            session.session_uuid == session_uuid,
            session.tokens == pre_session.tokens,
    {
        Session { session_id, session_uuid, tokens: pre_session.tokens }
    }

    /// Replaces the token pair of the session. The identity of the session
    /// stays as it is.
    pub fn update(&mut self, pre_session: PreSession)
        ensures
            final(self).tokens == pre_session.tokens,
            final(self).session_id == old(self).session_id,
            final(self).session_uuid == old(self).session_uuid,
    {
        self.tokens = pre_session.tokens;
    }

    /// Starts a request within this session.
    pub fn request(&self, method: HttpMethod, url: String, request_id: &str) -> (request:
        HttpRequest)
        ensures
            request@ == spec_session_request(
                method,
                url@,
                self@.tokens.access_token,
                self@.session_id,
                request_id@,
            ),
    {
        make_session_request(method, url, &self.tokens.access_token, &self.session_id, request_id)
    }
}

/// What the server says of a session: its id there and whether its TAN is
/// active.
#[derive(Debug, PartialEq)]
pub struct SessionStatus {
    pub identifier: String,
    pub tan_is_active: bool,
}

/// The session status that a JSON document describes: an object with a
/// string `identifier` and a boolean `sessionTanActive`. `None` for every
/// other document.
pub open spec fn spec_decode_status(json: Json) -> Option<(Seq<char>, bool)> {
    match (json.spec_member("identifier"@), json.spec_member("sessionTanActive"@)) {
        (Some(identifier), Some(active)) => match (identifier.spec_text(), active.spec_bool()) {
            (Some(identifier), Some(active)) => Some((identifier, active)),
            _ => None,
        },
        _ => None,
    }
}

/// The session status that a JSON array of exactly one element describes.
/// `None` for every other document.
pub open spec fn spec_decode_single_status(json: Json) -> Option<(Seq<char>, bool)> {
    match json.spec_items() {
        Some(items) => if items.len() == 1 {
            spec_decode_status(items[0])
        } else {
            None
        },
        None => None,
    }
}

impl SessionStatus {
    /// Reads a session status from the JSON object that describes it. Every
    /// other document is refused as [`Error::UnexpectedResponseShape`].
    pub fn from_json(json: &Json) -> (decoded: Result<SessionStatus, Error>)
        ensures
            match decoded {
                Ok(status) => spec_decode_status(*json) == Some(
                    (status.identifier@, status.tan_is_active),
                ),
                Err(error) => error == Error::UnexpectedResponseShape && spec_decode_status(
                    *json,
                ) is None,
            },
    {
        let identifier = match json.member("identifier") {
            Some(value) => match value.as_text() {
                Some(text) => text.clone(),
                None => { return Err(Error::UnexpectedResponseShape); },
            },
            None => { return Err(Error::UnexpectedResponseShape); },
        };
        let tan_is_active = match json.member("sessionTanActive") {
            Some(value) => match value.as_bool() {
                Some(flag) => flag,
                None => { return Err(Error::UnexpectedResponseShape); },
            },
            None => { return Err(Error::UnexpectedResponseShape); },
        };
        Ok(SessionStatus { identifier, tan_is_active })
    }

    /// Reads a session status from a JSON array that holds it as its only
    /// element. Every other document is refused as
    /// [`Error::UnexpectedResponseShape`].
    pub fn from_single(json: &Json) -> (decoded: Result<SessionStatus, Error>)
        ensures
            match decoded {
                Ok(status) => spec_decode_single_status(*json) == Some(
                    (status.identifier@, status.tan_is_active),
                ),
                Err(error) => error == Error::UnexpectedResponseShape
                    && spec_decode_single_status(*json) is None,
            },
    {
        match json.as_items() {
            Some(items) => {
                if items.len() == 1 {
                    SessionStatus::from_json(&items[0])
                } else {
                    Err(Error::UnexpectedResponseShape)
                }
            },
            None => Err(Error::UnexpectedResponseShape),
        }
    }

    /// Whether the TAN of the session is active.
    pub fn tan_is_active(&self) -> (active: bool)
        ensures
            active == self.tan_is_active,
    {
        self.tan_is_active
    }

    /// Gives up the status for the id that the server assigned to the session.
    pub fn take_session_uuid(self) -> (uuid: String)
        ensures
            uuid == self.identifier,
    {
        self.identifier
    }
}

} // verus!
