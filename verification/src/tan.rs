//! Second-factor (TAN) challenges: their kinds, and how a challenge is read
//! from the header that carries it.

use vstd::prelude::*;
use vstd::string::*;
use crate::error::Error;
use crate::http::{find_field, spec_field_value, Field};
use crate::json::{parse_json, parsed_json, Json};
use crate::text::{join3, str_eq};

verus! {

/// The kinds of second factor that the server can ask for.
#[derive(Clone, Copy, Debug, PartialEq, Eq, Structural)]
pub enum TanChallengeType {
    /// Approval by a push notification; no code is typed.
    PushTan,
    /// A code shown after scanning a graphic.
    PhotoTan,
    /// A code from the photo TAN app.
    PhotoTanApp,
    /// A code sent to a mobile phone.
    MobileTan,
    /// No human action is required.
    Free,
}

/// The name of a challenge kind on the wire.
pub open spec fn spec_tag(typ: TanChallengeType) -> Seq<char> {
    match typ {
        TanChallengeType::PushTan => "P_TAN_PUSH"@,
        TanChallengeType::PhotoTan => "P_TAN"@,
        TanChallengeType::PhotoTanApp => "P_TAN_APP"@,
        TanChallengeType::MobileTan => "M_TAN"@,
        TanChallengeType::Free => "TAN_FREI"@,
    }
}

/// The challenge kind that a wire name stands for, if any.
pub open spec fn spec_from_tag(tag: Seq<char>) -> Option<TanChallengeType> {
    if tag == "P_TAN_PUSH"@ {
        Some(TanChallengeType::PushTan)
    } else if tag == "P_TAN"@ {
        Some(TanChallengeType::PhotoTan)
    } else if tag == "P_TAN_APP"@ {
        Some(TanChallengeType::PhotoTanApp)
    } else if tag == "M_TAN"@ {
        Some(TanChallengeType::MobileTan)
    } else if tag == "TAN_FREI"@ {
        Some(TanChallengeType::Free)
    } else {
        None
    }
}

/// The header value that asks the server for a challenge of a given kind:
/// the JSON object `{"typ":"<wire name>"}`.
pub open spec fn spec_authentication_info(typ: TanChallengeType) -> Seq<char> {
    "{\"typ\":\""@ + spec_tag(typ) + "\"}"@
}

/// Whether a challenge of this kind is confirmed with a one-time code: every
/// kind but `PushTan` and `Free`.
pub open spec fn spec_needs_secret(typ: TanChallengeType) -> bool {
    typ != TanChallengeType::PushTan && typ != TanChallengeType::Free
}

/// The five wire names are pairwise distinct.
pub proof fn lemma_tags_distinct()
    ensures
        "P_TAN_PUSH"@ != "P_TAN"@,
        "P_TAN_PUSH"@ != "P_TAN_APP"@,
        "P_TAN_PUSH"@ != "M_TAN"@,
        "P_TAN_PUSH"@ != "TAN_FREI"@,
        "P_TAN"@ != "P_TAN_APP"@,
        "P_TAN"@ != "M_TAN"@,
        "P_TAN"@ != "TAN_FREI"@,
        "P_TAN_APP"@ != "M_TAN"@,
        "P_TAN_APP"@ != "TAN_FREI"@,
        "M_TAN"@ != "TAN_FREI"@,
{
    reveal_strlit("P_TAN_PUSH");
    reveal_strlit("P_TAN");
    reveal_strlit("P_TAN_APP");
    reveal_strlit("M_TAN");
    reveal_strlit("TAN_FREI");
    assert("P_TAN_PUSH"@.len() == 10);
    assert("P_TAN"@.len() == 5);
    assert("P_TAN_APP"@.len() == 9);
    assert("M_TAN"@.len() == 5);
    assert("TAN_FREI"@.len() == 8);
    assert("P_TAN"@[0] == 'P');
    assert("M_TAN"@[0] == 'M');
}

/// Reading a wire name back gives the kind it was written for.
pub proof fn lemma_tag_roundtrip(typ: TanChallengeType)
    ensures
        spec_from_tag(spec_tag(typ)) == Some(typ),
{
    lemma_tags_distinct();
}

/// A wire name that stands for a kind is the name of that kind.
pub proof fn lemma_from_tag_sound(tag: Seq<char>)
    ensures
        spec_from_tag(tag) matches Some(typ) ==> spec_tag(typ) == tag,
{
}

impl TanChallengeType {
    /// The name of this kind on the wire.
    pub fn tag(&self) -> (tag: &'static str)
        ensures
            tag@ == spec_tag(*self),
            spec_from_tag(tag@) == Some(*self),
    {
        proof {
            lemma_tag_roundtrip(*self);
        }
        match self {
            TanChallengeType::PushTan => "P_TAN_PUSH",
            TanChallengeType::PhotoTan => "P_TAN",
            TanChallengeType::PhotoTanApp => "P_TAN_APP",
            TanChallengeType::MobileTan => "M_TAN",
            TanChallengeType::Free => "TAN_FREI",
        }
    }

    /// Reads a wire name.
    pub fn from_tag(tag: &str) -> (typ: Option<TanChallengeType>)
        ensures
            typ == spec_from_tag(tag@),
            typ matches Some(read) ==> spec_tag(read) == tag@,
    {
        proof {
            lemma_from_tag_sound(tag@);
        }
        if str_eq(tag, "P_TAN_PUSH") {
            Some(TanChallengeType::PushTan)
        } else if str_eq(tag, "P_TAN") {
            Some(TanChallengeType::PhotoTan)
        } else if str_eq(tag, "P_TAN_APP") {
            Some(TanChallengeType::PhotoTanApp)
        } else if str_eq(tag, "M_TAN") {
            Some(TanChallengeType::MobileTan)
        } else if str_eq(tag, "TAN_FREI") {
            Some(TanChallengeType::Free)
        } else {
            None
        }
    }

    /// The header value that asks the server for a challenge of this kind.
    pub fn to_authentication_info(&self) -> (info: &'static str)
        ensures
            info@ == spec_authentication_info(*self),
    {
        proof {
            reveal_strlit("{\"typ\":\"");
            reveal_strlit("\"}");
        }
        match self {
            TanChallengeType::PushTan => {
                proof {
                    reveal_strlit("P_TAN_PUSH");
                    reveal_strlit("{\"typ\":\"P_TAN_PUSH\"}");
                }
                assert("{\"typ\":\"P_TAN_PUSH\"}"@ =~= spec_authentication_info(*self));
                "{\"typ\":\"P_TAN_PUSH\"}"
            },
            TanChallengeType::PhotoTan => {
                proof {
                    reveal_strlit("P_TAN");
                    reveal_strlit("{\"typ\":\"P_TAN\"}");
                }
                assert("{\"typ\":\"P_TAN\"}"@ =~= spec_authentication_info(*self));
                "{\"typ\":\"P_TAN\"}"
            },
            TanChallengeType::PhotoTanApp => {
                proof {
                    reveal_strlit("P_TAN_APP");
                    reveal_strlit("{\"typ\":\"P_TAN_APP\"}");
                }
                assert("{\"typ\":\"P_TAN_APP\"}"@ =~= spec_authentication_info(*self));
                "{\"typ\":\"P_TAN_APP\"}"
            },
            TanChallengeType::MobileTan => {
                proof {
                    reveal_strlit("M_TAN");
                    reveal_strlit("{\"typ\":\"M_TAN\"}");
                }
                assert("{\"typ\":\"M_TAN\"}"@ =~= spec_authentication_info(*self));
                "{\"typ\":\"M_TAN\"}"
            },
            TanChallengeType::Free => {
                proof {
                    reveal_strlit("TAN_FREI");
                    reveal_strlit("{\"typ\":\"TAN_FREI\"}");
                }
                assert("{\"typ\":\"TAN_FREI\"}"@ =~= spec_authentication_info(*self));
                "{\"typ\":\"TAN_FREI\"}"
            },
        }
    }

    /// Whether a challenge of this kind is confirmed with a one-time code.
    pub fn needs_secret(&self) -> (needed: bool)
        ensures
            needed == spec_needs_secret(*self),
    {
        match self {
            TanChallengeType::PushTan => false,
            TanChallengeType::Free => false,
            _ => true,
        }
    }
}

/// A challenge as the server describes it.
#[derive(Debug, PartialEq)]
pub struct TanChallenge {
    /// The id under which the challenge is confirmed.
    pub id: String,
    /// The kind of second factor that the server chose.
    pub typ: TanChallengeType,
    /// The kinds that the server could offer instead.
    pub available_types: Vec<TanChallengeType>,
    /// A hint for the user, such as the phone number that a code was sent to.
    pub challenge: Option<String>,
}

/// The mathematical content of a [`TanChallenge`].
pub struct TanChallengeView {
    pub id: Seq<char>,
    pub typ: TanChallengeType,
    pub available_types: Seq<TanChallengeType>,
    pub challenge: Option<Seq<char>>,
}

impl View for TanChallenge {
    type V = TanChallengeView;

    open spec fn view(&self) -> TanChallengeView {
        TanChallengeView {
            id: self.id@,
            typ: self.typ,
            available_types: self.available_types@,
            challenge: match self.challenge {
                Some(hint) => Some(hint@),
                None => None,
            },
        }
    }
}

impl Clone for TanChallenge {
    fn clone(&self) -> (copy: TanChallenge)
        ensures
            copy@ == self@,
    {
        let mut available_types: Vec<TanChallengeType> = Vec::new();
        let mut index: usize = 0;
        while index < self.available_types.len()
            invariant
                index <= self.available_types.len(),
                available_types@.len() == index,
                forall|i: int| 0 <= i < index ==> available_types@[i] == self.available_types@[i],
            decreases self.available_types.len() - index,
        {
            available_types.push(self.available_types[index]);
            index = index + 1;
        }
        assert(available_types@ =~= self.available_types@);
        TanChallenge {
            id: self.id.clone(),
            typ: self.typ,
            available_types,
            challenge: match &self.challenge {
                Some(hint) => Some(hint.clone()),
                None => None,
            },
        }
    }
}

/// The challenge kind that a JSON value names, if it is a string with a
/// known wire name.
pub open spec fn spec_type_of(json: Json) -> Option<TanChallengeType> {
    match json.spec_text() {
        Some(tag) => spec_from_tag(tag),
        None => None,
    }
}

/// The challenge kinds that a list of JSON values names, if every one of
/// them names a kind.
pub open spec fn spec_types_of(items: Seq<Json>) -> Option<Seq<TanChallengeType>> {
    if forall|i: int| 0 <= i < items.len() ==> (#[trigger] spec_type_of(items[i])) is Some {
        Some(Seq::new(items.len(), |i: int| spec_type_of(items[i])->0))
    } else {
        None
    }
}

/// An optional string member: absent and `null` both mean that there is
/// none. The outer `None` marks a member of another type.
pub open spec fn spec_optional_text(member: Option<Json>) -> Option<Option<Seq<char>>> {
    match member {
        None => Some(None),
        Some(Json::Null) => Some(None),
        Some(Json::Text(text)) => Some(Some(text@)),
        Some(_) => None,
    }
}

/// The challenge that a JSON document describes: an object with a string
/// `id`, a known wire name as `typ`, an array of known wire names as
/// `availableTypes`, and an optional string `challenge`. `None` for every
/// other document.
pub open spec fn spec_decode_challenge(json: Json) -> Option<TanChallengeView> {
    match (
        json.spec_member("id"@),
        json.spec_member("typ"@),
        json.spec_member("availableTypes"@),
        spec_optional_text(json.spec_member("challenge"@)),
    ) {
        (Some(id), Some(typ), Some(available), Some(challenge)) => match (
            id.spec_text(),
            spec_type_of(typ),
            available.spec_items(),
        ) {
            (Some(id), Some(typ), Some(items)) => match spec_types_of(items) {
                Some(available_types) => Some(
                    TanChallengeView { id, typ, available_types, challenge },
                ),
                None => None,
            },
            _ => None,
        },
        _ => None,
    }
}

/// The name of the header that carries a challenge, in both directions.
pub open spec fn spec_challenge_header() -> Seq<char> {
    "x-once-authentication-info"@
}

/// What the headers of a response say of a challenge, given what the JSON
/// parser makes of the header's text: the challenge that the header
/// describes, or `None` where the header is missing or malformed.
pub open spec fn spec_extract_challenge(headers: Seq<Field>) -> Option<TanChallengeView> {
    match spec_field_value(headers, spec_challenge_header()) {
        Some(text) => match parsed_json(text) {
            Some(json) => spec_decode_challenge(json),
            None => None,
        },
        None => None,
    }
}

/// The header value that confirms a challenge: the JSON object `{"id":"<id>"}`.
pub open spec fn spec_confirmation_info(id: Seq<char>) -> Seq<char> {
    "{\"id\":\""@ + id + "\"}"@
}

/// Reads the kind that a JSON value names.
pub fn type_from_json(json: &Json) -> (typ: Option<TanChallengeType>)
    ensures
        typ == spec_type_of(*json),
{
    match json.as_text() {
        Some(tag) => TanChallengeType::from_tag(tag.as_str()),
        None => None,
    }
}

/// Reads the kinds that a list of JSON values names.
pub fn types_from_json(items: &Vec<Json>) -> (types: Option<Vec<TanChallengeType>>)
    ensures
        match types {
            Some(list) => spec_types_of(items@) == Some(list@),
            None => spec_types_of(items@) is None,
        },
{
    let mut list: Vec<TanChallengeType> = Vec::new();
    let mut index: usize = 0;
    while index < items.len()
        invariant
            index <= items.len(),
            list@.len() == index,
            forall|i: int| 0 <= i < index ==> (#[trigger] spec_type_of(items@[i])) == Some(list@[i]),
        decreases items.len() - index,
    {
        match type_from_json(&items[index]) {
            Some(typ) => {
                list.push(typ);
            },
            None => {
                assert(spec_type_of(items@[index as int]) is None);
                return None;
            },
        }
        index = index + 1;
    }
    assert(spec_types_of(items@)->0 =~= list@);
    Some(list)
}

impl TanChallenge {
    /// A challenge with the given content.
    pub fn new(
        id: String,
        typ: TanChallengeType,
        available_types: Vec<TanChallengeType>,
        challenge: Option<String>,
    ) -> (made: TanChallenge)
        ensures
            made.id == id,
            made.typ == typ,
            made.available_types == available_types,
            made.challenge == challenge,
    {
        TanChallenge { id, typ, available_types, challenge }
    }

    /// The id under which the challenge is confirmed.
    pub fn id(&self) -> (id: &String)
        ensures
            id == self.id,
    {
        &self.id
    }

    /// The kind of second factor that the server chose.
    pub fn typ(&self) -> (typ: &TanChallengeType)
        ensures
            *typ == self.typ,
    {
        &self.typ
    }

    /// The kinds that the server could offer instead.
    pub fn available_types(&self) -> (types: &Vec<TanChallengeType>)
        ensures
            types == self.available_types,
    {
        &self.available_types
    }

    /// The hint for the user, if the server gave one.
    pub fn challenge(&self) -> (hint: &Option<String>)
        ensures
            hint == self.challenge,
    {
        &self.challenge
    }

    /// Whether the server could offer a challenge of the kind `typ`.
    pub fn offers(&self, typ: TanChallengeType) -> (offered: bool)
        ensures
            offered == self@.available_types.contains(typ),
    {
        let mut index: usize = 0;
        while index < self.available_types.len()
            invariant
                index <= self.available_types.len(),
                forall|i: int| 0 <= i < index ==> self.available_types@[i] != typ,
            decreases self.available_types.len() - index,
        {
            if self.available_types[index] == typ {
                return true;
            }
            index = index + 1;
        }
        false
    }

    /// Reads a challenge from the JSON document that describes it. Every
    /// document that does not have the expected members is refused as
    /// [`Error::UnexpectedResponseShape`].
    pub fn from_json(json: &Json) -> (decoded: Result<TanChallenge, Error>)
        ensures
            match decoded {
                Ok(challenge) => spec_decode_challenge(*json) == Some(challenge@),
                Err(error) => error == Error::UnexpectedResponseShape && spec_decode_challenge(
                    *json,
                ) is None,
            },
    {
        let id = match json.member("id") {
            Some(value) => match value.as_text() {
                Some(text) => text.clone(),
                None => { return Err(Error::UnexpectedResponseShape); },
            },
            None => { return Err(Error::UnexpectedResponseShape); },
        };
        let typ = match json.member("typ") {
            Some(value) => match type_from_json(value) {
                Some(typ) => typ,
                None => { return Err(Error::UnexpectedResponseShape); },
            },
            None => { return Err(Error::UnexpectedResponseShape); },
        };
        let available_types = match json.member("availableTypes") {
            Some(value) => match value.as_items() {
                Some(items) => match types_from_json(items) {
                    Some(types) => types,
                    None => { return Err(Error::UnexpectedResponseShape); },
                },
                None => { return Err(Error::UnexpectedResponseShape); },
            },
            None => { return Err(Error::UnexpectedResponseShape); },
        };
        let challenge = match json.member("challenge") {
            None => None,
            Some(Json::Null) => None,
            Some(Json::Text(text)) => Some(text.clone()),
            Some(_) => { return Err(Error::UnexpectedResponseShape); },
        };
        Ok(TanChallenge { id, typ, available_types, challenge })
    }

    /// The header that confirms this challenge when it is sent back.
    pub fn make_x_authentication_info_header(&self) -> (header: Field)
        ensures
            header@ == (spec_challenge_header(), spec_confirmation_info(self@.id)),
    {
        Field {
            name: String::from_str("x-once-authentication-info"),
            value: join3("{\"id\":\"", self.id.as_str(), "\"}"),
        }
    }
}

/// Reads the challenge that a response carries in its headers. A response
/// without the header, or with one that is not the JSON description of a
/// challenge, is refused as [`Error::UnexpectedResponseShape`].
pub fn extract_tan_challenge(headers: &Vec<Field>) -> (extracted: Result<TanChallenge, Error>)
    ensures
        match extracted {
            Ok(challenge) => spec_extract_challenge(headers@) == Some(challenge@),
            Err(error) => error == Error::UnexpectedResponseShape && spec_extract_challenge(
                headers@,
            ) is None,
        },
{
    match find_field(headers, "x-once-authentication-info") {
        Some(text) => match parse_json(text.as_str()) {
            Some(json) => TanChallenge::from_json(&json),
            None => Err(Error::UnexpectedResponseShape),
        },
        None => Err(Error::UnexpectedResponseShape),
    }
}

} // verus!
