//! The exchange of credentials for a token pair.

use vstd::prelude::*;
use vstd::string::*;
use crate::error::{is_success, Error};
use crate::http::{
    fields_view, push_field, spec_names_distinct, Body, BodyView, Field, HttpMethod, HttpReply,
    HttpRequest, HttpRequestView,
};
use crate::json::parsed_json;
use crate::session::{spec_decode_tokens, spec_grant_name, GrantType, PreSession, TokenPair, TokenPairView};

verus! {

/// What identifies the client application and its user to the token endpoint.
#[derive(Debug, PartialEq)]
pub struct Credentials {
    pub client_id: String,
    pub client_secret: String,
    pub username: String,
    pub password: String,
}

/// The mathematical content of [`Credentials`].
pub struct CredentialsView {
    pub client_id: Seq<char>,
    pub client_secret: Seq<char>,
    pub username: Seq<char>,
    pub password: Seq<char>,
}

impl View for Credentials {
    type V = CredentialsView;

    open spec fn view(&self) -> CredentialsView {
        CredentialsView {
            client_id: self.client_id@,
            client_secret: self.client_secret@,
            username: self.username@,
            password: self.password@,
        }
    }
}

/// The address of the token endpoint.
pub open spec fn spec_token_url() -> Seq<char> {
    "https://api.comdirect.de/oauth/token"@
}

/// The form parameters that are particular to a grant type: the user's name
/// and password, the access token to elevate, or the refresh token.
pub open spec fn spec_grant_params(credentials: CredentialsView, grant: GrantType) -> Seq<
    (Seq<char>, Seq<char>),
> {
    match grant {
        GrantType::Password => seq![
            ("username"@, credentials.username),
            ("password"@, credentials.password),
        ],
        GrantType::SecondaryElevation(access_token) => seq![("token"@, access_token@)],
        GrantType::Refresh(refresh_token) => seq![("refresh_token"@, refresh_token@)],
    }
}

/// The form parameters of a token exchange: the client's id and secret, the
/// name of the grant type, and what is particular to the grant type.
pub open spec fn spec_oauth_params(credentials: CredentialsView, grant: GrantType) -> Seq<
    (Seq<char>, Seq<char>),
> {
    seq![
        ("client_id"@, credentials.client_id),
        ("client_secret"@, credentials.client_secret),
        ("grant_type"@, spec_grant_name(grant)),
    ] + spec_grant_params(credentials, grant)
}

/// The names of the form parameters are pairwise distinct.
pub proof fn lemma_param_names_distinct()
    ensures
        "client_id"@ != "client_secret"@,
        "client_id"@ != "grant_type"@,
        "client_id"@ != "username"@,
        "client_id"@ != "password"@,
        "client_id"@ != "token"@,
        "client_id"@ != "refresh_token"@,
        "client_secret"@ != "grant_type"@,
        "client_secret"@ != "username"@,
        "client_secret"@ != "password"@,
        "client_secret"@ != "token"@,
        "client_secret"@ != "refresh_token"@,
        "grant_type"@ != "username"@,
        "grant_type"@ != "password"@,
        "grant_type"@ != "token"@,
        "grant_type"@ != "refresh_token"@,
        "username"@ != "password"@,
        "username"@ != "token"@,
        "username"@ != "refresh_token"@,
        "password"@ != "token"@,
        "password"@ != "refresh_token"@,
        "token"@ != "refresh_token"@,
{
    reveal_strlit("client_id");
    reveal_strlit("client_secret");
    reveal_strlit("grant_type");
    reveal_strlit("username");
    reveal_strlit("password");
    reveal_strlit("token");
    reveal_strlit("refresh_token");
    assert("client_id"@.len() == 9);
    assert("client_secret"@.len() == 13);
    assert("grant_type"@.len() == 10);
    assert("username"@.len() == 8);
    assert("password"@.len() == 8);
    assert("token"@.len() == 5);
    assert("refresh_token"@.len() == 13);
    assert("client_secret"@[0] == 'c');
    assert("refresh_token"@[0] == 'r');
    assert("username"@[0] == 'u');
    assert("password"@[0] == 'p');
}

/// The form parameters of a token exchange are a map: no name occurs twice,
/// whatever the credentials and the grant type.
pub proof fn lemma_oauth_params_distinct(credentials: CredentialsView, grant: GrantType)
    ensures
        spec_names_distinct(spec_oauth_params(credentials, grant)),
{
    lemma_param_names_distinct();
    let params = spec_oauth_params(credentials, grant);
    assert(params[0].0 == "client_id"@);
    assert(params[1].0 == "client_secret"@);
    assert(params[2].0 == "grant_type"@);
    match grant {
        GrantType::Password => {
            assert(params.len() == 5);
            assert(params[3].0 == "username"@);
            assert(params[4].0 == "password"@);
        },
        GrantType::SecondaryElevation(_) => {
            assert(params.len() == 4);
            assert(params[3].0 == "token"@);
        },
        GrantType::Refresh(_) => {
            assert(params.len() == 4);
            assert(params[3].0 == "refresh_token"@);
        },
    }
}

/// The request of a token exchange: a POST of the form parameters to the
/// token endpoint, with no bearer.
pub open spec fn spec_token_request(credentials: CredentialsView, grant: GrantType) -> HttpRequestView {
    HttpRequestView {
        method: HttpMethod::Post,
        url: spec_token_url(),
        query: seq![],
        bearer: None,
        headers: seq![("content-type"@, "application/x-www-form-urlencoded"@)],
        body: BodyView::Form(spec_oauth_params(credentials, grant)),
    }
}

/// What a reply to a token exchange amounts to at the time `now`. No answer
/// is [`Error::Other`]; an answer with a status outside 200..=299 is
/// [`Error::AuthFailure`]; a body that does not describe a token pair is
/// [`Error::ResponseDecodeFailure`]. Otherwise the exchange yields the token
/// pair of the body, which expires `expires_in` seconds after `now`.
pub open spec fn spec_token_outcome(reply: HttpReply, now: i64) -> Result<TokenPairView, Error> {
    match reply {
        HttpReply::NoAnswer => Err(Error::Other),
        HttpReply::Answer(response) => if !is_success(response.status) {
            Err(Error::AuthFailure)
        } else {
            match parsed_json(response.body@) {
                Some(json) => match spec_decode_tokens(json, now) {
                    Some(tokens) => Ok(tokens),
                    None => Err(Error::ResponseDecodeFailure),
                },
                None => Err(Error::ResponseDecodeFailure),
            }
        },
    }
}

/// The content of a fresh token pair, or the error in its place.
pub open spec fn tokens_result_view(result: Result<PreSession, Error>) -> Result<TokenPairView, Error> {
    match result {
        Ok(pre_session) => Ok(pre_session.tokens@),
        Err(error) => Err(error),
    }
}

/// Whatever the grant type and whatever the server answers, a token pair
/// that an exchange yields expires strictly after the time of the exchange,
/// by the lifetime that the server stated.
pub proof fn lemma_exchange_expires_later(reply: HttpReply, now: i64)
    ensures
        spec_token_outcome(reply, now) matches Ok(tokens) ==> {
            &&& tokens.expires_at > now
            &&& parsed_json(reply->Answer_0.body@) matches Some(json)
            &&& json.spec_member("expires_in"@) matches Some(lifetime)
            &&& lifetime.spec_integer() matches Some(expires_in)
            &&& tokens.expires_at == now + expires_in
        },
{
}

impl Credentials {
    /// The credentials of a client application and its user.
    pub fn new(client_id: String, client_secret: String, username: String, password: String) -> (made:
        Credentials)
        ensures
            made.client_id == client_id,
            made.client_secret == client_secret,
            made.username == username,
            made.password == password,
    {
        Credentials { client_id, client_secret, username, password }
    }

    /// Appends the form parameters that are particular to a grant type to
    /// the parameters that every exchange sends.
    fn add_oauth_params_grant_type(&self, grant_type: &GrantType, params: &mut Vec<Field>)
        requires
            fields_view(old(params)@) == seq![
                ("client_id"@, self@.client_id),
                ("client_secret"@, self@.client_secret),
                ("grant_type"@, spec_grant_name(*grant_type)),
            ],
        ensures
            fields_view(final(params)@) == spec_oauth_params(self@, *grant_type),
    {
        match grant_type {
            GrantType::Password => {
                push_field(params, "username", self.username.clone());
                push_field(params, "password", self.password.clone());
            },
            GrantType::SecondaryElevation(access_token) => {
                push_field(params, "token", access_token.clone());
            },
            GrantType::Refresh(refresh_token) => {
                push_field(params, "refresh_token", refresh_token.clone());
            },
        }
        assert(fields_view(params@) =~= spec_oauth_params(self@, *grant_type));
    }

    /// The form parameters of a token exchange, in which no name occurs
    /// twice.
    pub fn make_oauth_params(&self, grant_type: &GrantType) -> (params: Vec<Field>)
        ensures
            fields_view(params@) == spec_oauth_params(self@, *grant_type),
            spec_names_distinct(fields_view(params@)),
    {
        let mut params: Vec<Field> = Vec::new();
        push_field(&mut params, "client_id", self.client_id.clone());
        push_field(&mut params, "client_secret", self.client_secret.clone());
        push_field(&mut params, "grant_type", String::from_str(grant_type.as_str()));
        assert(fields_view(params@) =~= seq![
            ("client_id"@, self@.client_id),
            ("client_secret"@, self@.client_secret),
            ("grant_type"@, spec_grant_name(*grant_type)),
        ]);
        self.add_oauth_params_grant_type(grant_type, &mut params);
        proof {
            lemma_oauth_params_distinct(self@, *grant_type);
        }
        params
    }

    /// Builds the request of a token exchange.
    pub fn make_token_request(&self, grant_type: &GrantType) -> (request: HttpRequest)
        ensures
            request@ == spec_token_request(self@, *grant_type),
    {
        let mut headers: Vec<Field> = Vec::new();
        push_field(
            &mut headers,
            "content-type",
            String::from_str("application/x-www-form-urlencoded"),
        );
        assert(fields_view(headers@) =~= seq![
            ("content-type"@, "application/x-www-form-urlencoded"@),
        ]);
        let query: Vec<Field> = Vec::new();
        assert(fields_view(query@) =~= seq![]);
        HttpRequest {
            method: HttpMethod::Post,
            url: String::from_str("https://api.comdirect.de/oauth/token"),
            query,
            bearer: None,
            headers,
            body: Body::Form(self.make_oauth_params(grant_type)),
        }
    }
}

/// Reads the reply to a token exchange that arrived at the time `now`. A
/// token pair that comes out expires strictly after `now`.
pub fn read_token_reply(reply: &HttpReply, now: i64) -> (outcome: Result<PreSession, Error>)
    ensures
        tokens_result_view(outcome) == spec_token_outcome(*reply, now),
        outcome matches Ok(pre_session) ==> pre_session.tokens.expires_at > now,
{
    match reply {
        HttpReply::NoAnswer => Err(Error::Other),
        HttpReply::Answer(response) => {
            if response.status < 200 || response.status > 299 {
                return Err(Error::AuthFailure);
            }
            match response.json() {
                Ok(json) => match TokenPair::from_json(&json, now) {
                    Ok(tokens) => Ok(PreSession { tokens }),
                    Err(error) => Err(error),
                },
                Err(error) => Err(error),
            }
        },
    }
}

} // verus!
