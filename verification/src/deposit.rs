//! Deposits, the accounts that hold securities.

use vstd::prelude::*;
use vstd::string::*;
use crate::error::Error;
use crate::json::{is_plain_json_text, quote_json, quoted_json, spec_in_quotes, Json};

verus! {

/// A deposit of the user.
#[derive(Debug, PartialEq)]
pub struct ComdirectDeposit {
    /// The id by which the API addresses the deposit.
    pub id: String,
    /// The number under which the user knows the deposit.
    pub display_id: String,
}

/// The mathematical content of a [`ComdirectDeposit`].
pub struct DepositView {
    pub id: Seq<char>,
    pub display_id: Seq<char>,
}

impl View for ComdirectDeposit {
    type V = DepositView;

    open spec fn view(&self) -> DepositView {
        DepositView { id: self.id@, display_id: self.display_id@ }
    }
}

impl Clone for ComdirectDeposit {
    fn clone(&self) -> (copy: ComdirectDeposit)
        ensures
            copy == *self,
    {
        ComdirectDeposit { id: self.id.clone(), display_id: self.display_id.clone() }
    }
}

/// The deposit that a JSON document describes: an object with the strings
/// `depotId` and `depotDisplayId`. `None` for every other document.
pub open spec fn spec_decode_deposit(json: Json) -> Option<DepositView> {
    match (json.spec_member("depotId"@), json.spec_member("depotDisplayId"@)) {
        (Some(id), Some(display_id)) => match (id.spec_text(), display_id.spec_text()) {
            (Some(id), Some(display_id)) => Some(DepositView { id, display_id }),
            _ => None,
        },
        _ => None,
    }
}

impl ComdirectDeposit {
    /// A deposit with the given ids.
    pub fn new(id: String, display_id: String) -> (made: ComdirectDeposit)
        ensures
            made.id == id,
            made.display_id == display_id,
    {
        ComdirectDeposit { id, display_id }
    }

    /// The id by which the API addresses the deposit.
    pub fn id(&self) -> (id: &String)
        ensures
            id == self.id,
    {
        &self.id
    }

    /// The number under which the user knows the deposit.
    pub fn display_id(&self) -> (display_id: &String)
        ensures
            display_id == self.display_id,
    {
        &self.display_id
    }

    /// The deposit as it is shown to the user: by its display id.
    pub fn to_text(&self) -> (text: String)
        ensures
            text@ == self.display_id@,
    {
        self.display_id.clone()
    }

    /// Reads a deposit from the JSON object that describes it. Every other
    /// document is refused as [`Error::UnexpectedResponseShape`].
    pub fn from_json(json: &Json) -> (decoded: Result<ComdirectDeposit, Error>)
        ensures
            match decoded {
                Ok(deposit) => spec_decode_deposit(*json) == Some(deposit@),
                Err(error) => error == Error::UnexpectedResponseShape && spec_decode_deposit(
                    *json,
                ) is None,
            },
    {
        let id = match json.member("depotId") {
            Some(value) => match value.as_text() {
                Some(text) => text.clone(),
                None => { return Err(Error::UnexpectedResponseShape); },
            },
            None => { return Err(Error::UnexpectedResponseShape); },
        };
        let display_id = match json.member("depotDisplayId") {
            Some(value) => match value.as_text() {
                Some(text) => text.clone(),
                None => { return Err(Error::UnexpectedResponseShape); },
            },
            None => { return Err(Error::UnexpectedResponseShape); },
        };
        Ok(ComdirectDeposit { id, display_id })
    }
}

/// Writes a deposit as it stands in the outline of an order: as the JSON
/// string of its id, which is the id between two double quotes where the id
/// holds nothing to escape.
pub fn serialize_deposit_as_id(deposit: &ComdirectDeposit) -> (written: String)
    ensures
        written@ == quoted_json(deposit.id@),
        is_plain_json_text(deposit.id@) ==> written@ == spec_in_quotes(deposit.id@),
{
    quote_json(deposit.id.as_str())
}

/// The deposits that a list of JSON documents describes, if every one of
/// them describes a deposit.
pub open spec fn spec_decode_deposit_list(items: Seq<Json>) -> Option<Seq<DepositView>> {
    if forall|i: int| 0 <= i < items.len() ==> (#[trigger] spec_decode_deposit(items[i])) is Some {
        Some(Seq::new(items.len(), |i: int| spec_decode_deposit(items[i])->0))
    } else {
        None
    }
}

/// The deposits that a JSON document lists: an object whose member `values`
/// is an array of deposits. `None` for every other document.
pub open spec fn spec_decode_deposits(json: Json) -> Option<Seq<DepositView>> {
    match json.spec_member("values"@) {
        Some(values) => match values.spec_items() {
            Some(items) => spec_decode_deposit_list(items),
            None => None,
        },
        None => None,
    }
}

/// The contents of a list of deposits.
pub open spec fn deposits_view(deposits: Seq<ComdirectDeposit>) -> Seq<DepositView> {
    deposits.map_values(|deposit: ComdirectDeposit| deposit@)
}

/// Reads the deposits that a JSON document lists. Every document that is no
/// list of deposits is refused as [`Error::UnexpectedResponseShape`].
pub fn deposits_from_json(json: &Json) -> (decoded: Result<Vec<ComdirectDeposit>, Error>)
    ensures
        match decoded {
            Ok(deposits) => spec_decode_deposits(*json) == Some(deposits_view(deposits@)),
            Err(error) => error == Error::UnexpectedResponseShape && spec_decode_deposits(*json)
                is None,
        },
{
    let items = match json.member("values") {
        Some(values) => match values.as_items() {
            Some(items) => items,
            None => { return Err(Error::UnexpectedResponseShape); },
        },
        None => { return Err(Error::UnexpectedResponseShape); },
    };
    let mut deposits: Vec<ComdirectDeposit> = Vec::new();
    let mut index: usize = 0;
    while index < items.len()
        invariant
            index <= items.len(),
            deposits@.len() == index,
            spec_decode_deposits(*json) == spec_decode_deposit_list(items@),
            forall|i: int|
                0 <= i < index ==> (#[trigger] spec_decode_deposit(items@[i])) == Some(
                    deposits@[i]@,
                ),
        decreases items.len() - index,
    {
        match ComdirectDeposit::from_json(&items[index]) {
            Ok(deposit) => {
                deposits.push(deposit);
            },
            Err(error) => {
                assert(spec_decode_deposit(items@[index as int]) is None);
                return Err(error);
            },
        }
        index = index + 1;
    }
    assert(spec_decode_deposit_list(items@)->0 =~= deposits_view(deposits@));
    Ok(deposits)
}

} // verus!
