//! Requests and replies as plain values.
//!
//! The crate never talks to the network. It describes each request as an
//! [`HttpRequest`] for a transport to perform, and reads what the transport
//! brings back as an [`HttpReply`].

use vstd::prelude::*;
use vstd::string::*;
use crate::error::{classify_status, is_client_error, is_server_error, Error};
use crate::json::{parse_json, parsed_json, Json};
use crate::text::str_eq;

verus! {

/// The verb of a request.
#[derive(Copy, Clone, Debug, PartialEq, Eq, Structural)]
pub enum HttpMethod {
    Get,
    Post,
    Patch,
    Delete,
}

/// A name with its value: a header or a form parameter.
#[derive(Debug, PartialEq)]
pub struct Field {
    pub name: String,
    pub value: String,
}

impl View for Field {
    type V = (Seq<char>, Seq<char>);

    open spec fn view(&self) -> (Seq<char>, Seq<char>) {
        (self.name@, self.value@)
    }
}

impl Clone for Field {
    fn clone(&self) -> (copy: Field)
        ensures
            copy == *self,
    {
        Field { name: self.name.clone(), value: self.value.clone() }
    }
}

/// The names and values that a list of fields holds, in order.
pub open spec fn fields_view(fields: Seq<Field>) -> Seq<(Seq<char>, Seq<char>)> {
    fields.map_values(|field: Field| field@)
}

/// Whether no name occurs twice in a list of names and values, as in a map.
pub open spec fn spec_names_distinct(fields: Seq<(Seq<char>, Seq<char>)>) -> bool {
    forall|i: int, j: int| 0 <= i < j < fields.len() ==> fields[i].0 != fields[j].0
}

/// Copies a list of fields.
pub fn clone_fields(fields: &Vec<Field>) -> (copy: Vec<Field>)
    ensures
        copy@ == fields@,
{
    let mut copy: Vec<Field> = Vec::new();
    let mut index: usize = 0;
    while index < fields.len()
        invariant
            index <= fields.len(),
            copy@.len() == index,
            forall|i: int| 0 <= i < index ==> copy@[i] == fields@[i],
        decreases fields.len() - index,
    {
        copy.push(fields[index].clone());
        index = index + 1;
    }
    assert(copy@ =~= fields@);
    copy
}

/// What a request carries as its body.
#[derive(Debug, PartialEq)]
pub enum Body {
    /// No body.
    Empty,
    /// Form parameters, to be sent URL-encoded.
    Form(Vec<Field>),
    /// A JSON text.
    Json(String),
}

/// The mathematical content of a [`Body`].
pub enum BodyView {
    Empty,
    Form(Seq<(Seq<char>, Seq<char>)>),
    Json(Seq<char>),
}

impl View for Body {
    type V = BodyView;

    open spec fn view(&self) -> BodyView {
        match self {
            Body::Empty => BodyView::Empty,
            Body::Form(fields) => BodyView::Form(fields_view(fields@)),
            Body::Json(text) => BodyView::Json(text@),
        }
    }
}

impl Clone for Body {
    fn clone(&self) -> (copy: Body)
        ensures
            copy@ == self@,
    {
        match self {
            Body::Empty => Body::Empty,
            Body::Form(fields) => Body::Form(clone_fields(fields)),
            Body::Json(text) => Body::Json(text.clone()),
        }
    }
}

/// A request for the transport to perform.
#[derive(Debug, PartialEq)]
pub struct HttpRequest {
    pub method: HttpMethod,
    pub url: String,
    /// The parameters to append to the URL as its query.
    pub query: Vec<Field>,
    /// The token to authenticate with as a bearer, if any.
    pub bearer: Option<String>,
    pub headers: Vec<Field>,
    pub body: Body,
}

/// The mathematical content of an [`HttpRequest`].
pub struct HttpRequestView {
    pub method: HttpMethod,
    pub url: Seq<char>,
    pub query: Seq<(Seq<char>, Seq<char>)>,
    pub bearer: Option<Seq<char>>,
    pub headers: Seq<(Seq<char>, Seq<char>)>,
    pub body: BodyView,
}

impl View for HttpRequest {
    type V = HttpRequestView;

    open spec fn view(&self) -> HttpRequestView {
        HttpRequestView {
            method: self.method,
            url: self.url@,
            query: fields_view(self.query@),
            bearer: match self.bearer {
                Some(token) => Some(token@),
                None => None,
            },
            headers: fields_view(self.headers@),
            body: self.body@,
        }
    }
}

impl Clone for HttpRequest {
    fn clone(&self) -> (copy: HttpRequest)
        ensures
            copy@ == self@,
    {
        HttpRequest {
            method: self.method,
            url: self.url.clone(),
            query: clone_fields(&self.query),
            bearer: match &self.bearer {
                Some(token) => Some(token.clone()),
                None => None,
            },
            headers: clone_fields(&self.headers),
            body: self.body.clone(),
        }
    }
}

/// What the server answered.
#[derive(Debug, PartialEq)]
pub struct HttpResponse {
    pub status: u16,
    /// The response headers, their names in lower case.
    pub headers: Vec<Field>,
    pub body: String,
}

impl Clone for HttpResponse {
    fn clone(&self) -> (copy: HttpResponse)
        ensures
            copy.status == self.status,
            copy.headers@ == self.headers@,
            copy.body == self.body,
    {
        HttpResponse {
            status: self.status,
            headers: clone_fields(&self.headers),
            body: self.body.clone(),
        }
    }
}

/// What the transport brings back for a request.
#[derive(Debug, PartialEq)]
pub enum HttpReply {
    /// The server answered.
    Answer(HttpResponse),
    /// No answer was received: the request could not be sent, or the
    /// connection broke before a status arrived.
    NoAnswer,
}

impl Clone for HttpReply {
    fn clone(&self) -> (copy: HttpReply)
        ensures
            match *self {
                HttpReply::Answer(response) => copy matches HttpReply::Answer(copied)
                    && copied.status == response.status && copied.headers@ == response.headers@
                    && copied.body == response.body,
                HttpReply::NoAnswer => copy is NoAnswer,
            },
    {
        match self {
            HttpReply::Answer(response) => HttpReply::Answer(response.clone()),
            HttpReply::NoAnswer => HttpReply::NoAnswer,
        }
    }
}

/// The value of the first field called `name`, if there is one.
pub open spec fn spec_field_value(fields: Seq<Field>, name: Seq<char>) -> Option<Seq<char>>
    decreases fields.len(),
{
    if fields.len() == 0 {
        None
    } else if fields[0].name@ == name {
        Some(fields[0].value@)
    } else {
        spec_field_value(fields.drop_first(), name)
    }
}

/// The error that a reply stands for by its status alone, if any: a missing
/// answer, or a status in the client- or server-error class.
pub open spec fn spec_status_error(reply: HttpReply) -> Option<Error> {
    match reply {
        HttpReply::NoAnswer => Some(Error::Other),
        HttpReply::Answer(response) => if is_client_error(response.status) || is_server_error(
            response.status,
        ) {
            Some(classify_status(Some(response.status)))
        } else {
            None
        },
    }
}

/// Appends a field to a list.
pub fn push_field(fields: &mut Vec<Field>, name: &str, value: String)
    ensures
        fields_view(final(fields)@) == fields_view(old(fields)@).push((name@, value@)),
        final(fields)@.len() == old(fields)@.len() + 1,
{
    let field = Field { name: String::from_str(name), value };
    fields.push(field);
    assert(fields_view(fields@) =~= fields_view(old(fields)@).push((name@, value@)));
}

/// Looks the first field called `name` up.
pub fn find_field<'a>(fields: &'a Vec<Field>, name: &str) -> (found: Option<&'a String>)
    ensures
        match found {
            Some(value) => spec_field_value(fields@, name@) == Some(value@),
            None => spec_field_value(fields@, name@) is None,
        },
{
    let mut index: usize = 0;
    assert(fields@.subrange(0, fields@.len() as int) == fields@);
    while index < fields.len()
        invariant
            index <= fields.len(),
            spec_field_value(fields@, name@) == spec_field_value(
                fields@.subrange(index as int, fields@.len() as int),
                name@,
            ),
        decreases fields.len() - index,
    {
        let ghost rest = fields@.subrange(index as int, fields@.len() as int);
        assert(rest[0] == fields@[index as int]);
        assert(rest.drop_first() == fields@.subrange(index as int + 1, fields@.len() as int));
        if str_eq(fields[index].name.as_str(), name) {
            assert(spec_field_value(rest, name@) == Some(rest[0].value@));
            return Some(&fields[index].value);
        }
        index = index + 1;
    }
    None
}

impl HttpRequest {
    /// The request with one more header at the end.
    pub fn with_header(self, name: &str, value: String) -> (request: HttpRequest)
        ensures
            request@ == (HttpRequestView { headers: self@.headers.push((name@, value@)), ..self@ }),
    {
        let mut headers = self.headers;
        push_field(&mut headers, name, value);
        HttpRequest {
            method: self.method,
            url: self.url,
            query: self.query,
            bearer: self.bearer,
            headers,
            body: self.body,
        }
    }

    /// The request with one more parameter at the end of its query.
    pub fn with_query(self, name: &str, value: String) -> (request: HttpRequest)
        ensures
            request@ == (HttpRequestView { query: self@.query.push((name@, value@)), ..self@ }),
    {
        let mut query = self.query;
        push_field(&mut query, name, value);
        HttpRequest {
            method: self.method,
            url: self.url,
            query,
            bearer: self.bearer,
            headers: self.headers,
            body: self.body,
        }
    }

    /// The request with a JSON text as its body.
    pub fn with_json(self, text: String) -> (request: HttpRequest)
        ensures
            request@ == (HttpRequestView { body: BodyView::Json(text@), ..self@ }),
    {
        HttpRequest {
            method: self.method,
            url: self.url,
            query: self.query,
            bearer: self.bearer,
            headers: self.headers,
            body: Body::Json(text),
        }
    }
}

impl HttpResponse {
    /// Parses the body as JSON. A body that is no JSON text is refused as
    /// [`Error::ResponseDecodeFailure`].
    pub fn json(&self) -> (parsed: Result<Json, Error>)
        ensures
            match parsed {
                Ok(json) => parsed_json(self.body@) == Some(json),
                Err(error) => error == Error::ResponseDecodeFailure && parsed_json(self.body@)
                    is None,
            },
    {
        match parse_json(self.body.as_str()) {
            Some(json) => Ok(json),
            None => Err(Error::ResponseDecodeFailure),
        }
    }
}

impl HttpReply {
    /// Tells an answer that the protocol can go on with from a failure: a
    /// missing answer is [`Error::Other`], a status in 400..=599 is the error
    /// of its class, and every other answer is handed back.
    pub fn check_status(&self) -> (checked: Result<&HttpResponse, Error>)
        ensures
            match checked {
                Ok(response) => spec_status_error(*self) is None && *self == HttpReply::Answer(
                    *response,
                ),
                Err(error) => spec_status_error(*self) == Some(error),
            },
    {
        match self {
            HttpReply::NoAnswer => Err(Error::Other),
            HttpReply::Answer(response) => {
                if 400 <= response.status && response.status <= 599 {
                    Err(Error::from_status(Some(response.status)))
                } else {
                    Ok(response)
                }
            },
        }
    }
}

} // verus!
