//! Orders, and the changes that a user asks for.

use vstd::prelude::*;
use vstd::string::*;
use crate::authorize::{
    make_inspection_request, spec_inspection_request, AuthorizationStep, Inspection,
    MutationIntent, TransactionAuthorizer,
};
use crate::deposit::ComdirectDeposit;
use crate::error::Error;
use crate::http::{HttpReply, HttpRequest, HttpResponse};
use crate::json::{parsed_json, quote_json, quoted_json, spec_quoting_known, Json};
use crate::lifecycle::ApiClient;

verus! {

/// An amount of money or a number of pieces: the value in decimal notation,
/// and the unit that it counts in, such as `EUR`.
#[derive(Debug, PartialEq)]
pub struct Amount {
    pub value: String,
    pub unit: String,
}

impl Clone for Amount {
    fn clone(&self) -> (copy: Amount)
        ensures
            copy == *self,
    {
        Amount { value: self.value.clone(), unit: self.unit.clone() }
    }
}

/// How long an order stays in the market.
#[derive(Debug, PartialEq)]
pub enum OrderValidity {
    /// Until the end of the trading day.
    OneDay,
    /// Until the end of a given day, written as `YYYY-MM-DD`.
    TillDate(String),
}

impl Clone for OrderValidity {
    fn clone(&self) -> (copy: OrderValidity)
        ensures
            copy == *self,
    {
        match self {
            OrderValidity::OneDay => OrderValidity::OneDay,
            OrderValidity::TillDate(date) => OrderValidity::TillDate(date.clone()),
        }
    }
}

/// The two kinds of validity that the API knows.
#[derive(Copy, Clone, Debug, PartialEq, Eq, Structural)]
pub enum ComdirectOrderValidityType {
    GoodForDay,
    GoodTillDate,
}

/// The name of a kind of validity on the wire.
pub open spec fn spec_validity_name(kind: ComdirectOrderValidityType) -> Seq<char> {
    match kind {
        ComdirectOrderValidityType::GoodForDay => "GFD"@,
        ComdirectOrderValidityType::GoodTillDate => "GTD"@,
    }
}

impl ComdirectOrderValidityType {
    /// The name of this kind of validity on the wire.
    pub fn as_str(&self) -> (name: &'static str)
        ensures
            name@ == spec_validity_name(*self),
    {
        match self {
            ComdirectOrderValidityType::GoodForDay => "GFD",
            ComdirectOrderValidityType::GoodTillDate => "GTD",
        }
    }
}

impl OrderValidity {
    /// The kind of this validity.
    pub open spec fn spec_kind(self) -> ComdirectOrderValidityType {
        match self {
            OrderValidity::OneDay => ComdirectOrderValidityType::GoodForDay,
            OrderValidity::TillDate(_) => ComdirectOrderValidityType::GoodTillDate,
        }
    }

    /// The kind of this validity.
    pub fn kind(&self) -> (kind: ComdirectOrderValidityType)
        ensures
            kind == self.spec_kind(),
    {
        match self {
            OrderValidity::OneDay => ComdirectOrderValidityType::GoodForDay,
            OrderValidity::TillDate(_) => ComdirectOrderValidityType::GoodTillDate,
        }
    }
}

/// Where an order stands.
#[derive(Copy, Clone, Debug, PartialEq, Eq, Structural)]
pub enum OrderStatus {
    Open,
    Executed,
    PartiallyExecuted,
    Canceled,
    PartiallyCanceled,
    Expired,
    Pending,
    Unknown,
}

/// The status that a name on the wire stands for, if any. Some have more
/// than one name.
pub open spec fn spec_status_from_name(name: Seq<char>) -> Option<OrderStatus> {
    if name == "OPEN"@ {
        Some(OrderStatus::Open)
    } else if name == "EXECUTED"@ || name == "SETTLED"@ {
        Some(OrderStatus::Executed)
    } else if name == "PARTIALLY_EXECUTED"@ {
        Some(OrderStatus::PartiallyExecuted)
    } else if name == "CANCELED"@ || name == "CANCELLED_SYSTEM"@ || name == "CANCELLED_TRADE"@
        || name == "CANCELLED_USER"@ {
        Some(OrderStatus::Canceled)
    } else if name == "PARTIALLY_CANCELED"@ {
        Some(OrderStatus::PartiallyCanceled)
    } else if name == "EXPIRED"@ {
        Some(OrderStatus::Expired)
    } else if name == "PENDING"@ || name == "WAITING"@ {
        Some(OrderStatus::Pending)
    } else if name == "UNKNOWN"@ {
        Some(OrderStatus::Unknown)
    } else {
        None
    }
}

impl OrderStatus {
    /// Reads a status from its name on the wire.
    pub fn from_name(name: &str) -> (status: Option<OrderStatus>)
        ensures
            status == spec_status_from_name(name@),
    {
        if crate::text::str_eq(name, "OPEN") {
            Some(OrderStatus::Open)
        } else if crate::text::str_eq(name, "EXECUTED") || crate::text::str_eq(name, "SETTLED") {
            Some(OrderStatus::Executed)
        } else if crate::text::str_eq(name, "PARTIALLY_EXECUTED") {
            Some(OrderStatus::PartiallyExecuted)
        } else if crate::text::str_eq(name, "CANCELED") || crate::text::str_eq(
            name,
            "CANCELLED_SYSTEM",
        ) || crate::text::str_eq(name, "CANCELLED_TRADE") || crate::text::str_eq(
            name,
            "CANCELLED_USER",
        ) {
            Some(OrderStatus::Canceled)
        } else if crate::text::str_eq(name, "PARTIALLY_CANCELED") {
            Some(OrderStatus::PartiallyCanceled)
        } else if crate::text::str_eq(name, "EXPIRED") {
            Some(OrderStatus::Expired)
        } else if crate::text::str_eq(name, "PENDING") || crate::text::str_eq(name, "WAITING") {
            Some(OrderStatus::Pending)
        } else if crate::text::str_eq(name, "UNKNOWN") {
            Some(OrderStatus::Unknown)
        } else {
            None
        }
    }
}

/// An order for one instrument.
#[derive(Debug, PartialEq)]
pub struct RawSingleOrder {
    pub id: String,
    pub status: OrderStatus,
    pub limit: Option<Amount>,
    pub trigger_limit: Option<Amount>,
    pub absolute_trailing_limit: Option<Amount>,
    /// The trailing distance in percent, in decimal notation.
    pub relative_trailing_limit: Option<String>,
    pub validity: OrderValidity,
}

/// Two orders that depend on each other.
#[derive(Debug, PartialEq)]
pub struct RawCombinationOrder {
    pub id: String,
    pub sub_orders: (RawSingleOrder, RawSingleOrder),
}

/// An order as the server describes it.
#[derive(Debug, PartialEq)]
pub enum RawOrder {
    CombinationOrder(RawCombinationOrder),
    SingleOrder(RawSingleOrder),
}

/// An order in a deposit.
#[derive(Debug, PartialEq)]
pub struct Order {
    pub deposit: ComdirectDeposit,
    pub raw: RawOrder,
}

/// Which of the orders within an order a change is aimed at.
#[derive(Copy, Clone, Debug, PartialEq, Eq, Structural)]
pub enum SubOrder {
    First,
    Second,
}

impl RawOrder {
    /// The id of the order.
    pub open spec fn spec_id(self) -> String {
        match self {
            RawOrder::CombinationOrder(raw) => raw.id,
            RawOrder::SingleOrder(raw) => raw.id,
        }
    }

    /// The single order that a change is aimed at: the order itself, or the
    /// chosen one of the two orders of a combination.
    pub open spec fn spec_target(self, which: SubOrder) -> RawSingleOrder {
        match self {
            RawOrder::SingleOrder(raw) => raw,
            RawOrder::CombinationOrder(raw) => match which {
                SubOrder::First => raw.sub_orders.0,
                SubOrder::Second => raw.sub_orders.1,
            },
        }
    }

    /// The order with `single` in the place of the single order that a
    /// change is aimed at.
    pub open spec fn spec_with_target(self, which: SubOrder, single: RawSingleOrder) -> RawOrder {
        match self {
            RawOrder::SingleOrder(raw) => RawOrder::SingleOrder(single),
            RawOrder::CombinationOrder(raw) => match which {
                SubOrder::First => RawOrder::CombinationOrder(
                    RawCombinationOrder { id: raw.id, sub_orders: (single, raw.sub_orders.1) },
                ),
                SubOrder::Second => RawOrder::CombinationOrder(
                    RawCombinationOrder { id: raw.id, sub_orders: (raw.sub_orders.0, single) },
                ),
            },
        }
    }

    /// The id of the order.
    pub fn id(&self) -> (id: &String)
        ensures
            *id == self.spec_id(),
    {
        match self {
            RawOrder::CombinationOrder(raw) => &raw.id,
            RawOrder::SingleOrder(raw) => &raw.id,
        }
    }

    /// The single order that a change is aimed at.
    pub fn target(&self, which: SubOrder) -> (single: &RawSingleOrder)
        ensures
            *single == self.spec_target(which),
    {
        match self {
            RawOrder::SingleOrder(raw) => raw,
            RawOrder::CombinationOrder(raw) => match which {
                SubOrder::First => &raw.sub_orders.0,
                SubOrder::Second => &raw.sub_orders.1,
            },
        }
    }
}

impl Order {
    /// The order that the server describes as `raw`, in the deposit `deposit`.
    pub fn from_raw(raw: RawOrder, deposit: ComdirectDeposit) -> (order: Order)
        ensures
            order.raw == raw,
            order.deposit == deposit,
    {
        Order { deposit, raw }
    }

    /// Gives up the order for the server's description of it.
    pub fn into_raw(self) -> (raw: RawOrder)
        ensures
            raw == self.raw,
    {
        self.raw
    }

    /// The deposit that the order belongs to.
    pub fn deposit(&self) -> (deposit: &ComdirectDeposit)
        ensures
            *deposit == self.deposit,
    {
        &self.deposit
    }

    /// The server's description of the order.
    pub fn raw(&self) -> (raw: &RawOrder)
        ensures
            *raw == self.raw,
    {
        &self.raw
    }

    /// The id of the order.
    pub fn id(&self) -> (id: &String)
        ensures
            *id == self.raw.spec_id(),
    {
        self.raw.id()
    }

    /// The status of the order; for a combination, that of its first order.
    pub fn status0(&self) -> (status: OrderStatus)
        ensures
            status == self.raw.spec_target(SubOrder::First).status,
    {
        self.raw.target(SubOrder::First).status
    }
}

/// A change of an order. It holds the order while the change is under way,
/// and hands it back changed, or as it was.
#[derive(Debug, PartialEq)]
pub struct OrderChange {
    pub order: Order,
    pub which: SubOrder,
    pub limit: Option<Amount>,
    pub trigger_limit: Option<Amount>,
    pub absolute_trailing_limit: Option<Amount>,
    pub relative_trailing_limit: Option<String>,
    pub validity: Option<OrderValidity>,
}

/// The new value where a change names one, the old value otherwise.
pub open spec fn spec_replaced<T>(new: Option<T>, old: Option<T>) -> Option<T> {
    match new {
        Some(value) => Some(value),
        None => old,
    }
}

impl OrderChange {
    /// The single order that the change is aimed at.
    pub open spec fn spec_raw_single_order(self) -> RawSingleOrder {
        self.order.raw.spec_target(self.which)
    }

    /// The single order as it is once the change is made: every limit that
    /// the change names is set, as is the validity if the change names one;
    /// everything else stays.
    pub open spec fn spec_changed_single_order(self) -> RawSingleOrder {
        let single = self.spec_raw_single_order();
        RawSingleOrder {
            id: single.id,
            status: single.status,
            limit: spec_replaced(self.limit, single.limit),
            trigger_limit: spec_replaced(self.trigger_limit, single.trigger_limit),
            absolute_trailing_limit: spec_replaced(
                self.absolute_trailing_limit,
                single.absolute_trailing_limit,
            ),
            relative_trailing_limit: spec_replaced(
                self.relative_trailing_limit,
                single.relative_trailing_limit,
            ),
            validity: match self.validity {
                Some(validity) => validity,
                None => single.validity,
            },
        }
    }

    /// The order as it is once the change is made.
    pub open spec fn spec_changed_order(self) -> Order {
        Order {
            deposit: self.order.deposit,
            raw: self.order.raw.spec_with_target(self.which, self.spec_changed_single_order()),
        }
    }

    fn from_raw_single_order(order: Order, which: SubOrder) -> (change: OrderChange)
        ensures
            change == (OrderChange {
                order,
                which,
                limit: None,
                trigger_limit: None,
                absolute_trailing_limit: None,
                relative_trailing_limit: None,
                validity: None,
            }),
    {
        OrderChange {
            order,
            which,
            limit: None,
            trigger_limit: None,
            absolute_trailing_limit: None,
            relative_trailing_limit: None,
            validity: None,
        }
    }

    /// A change of the order itself, or of the first order of a combination.
    /// It changes nothing yet.
    pub fn from_order0(order: Order) -> (change: OrderChange)
        ensures
            change == (OrderChange {
                order,
                which: SubOrder::First,
                limit: None,
                trigger_limit: None,
                absolute_trailing_limit: None,
                relative_trailing_limit: None,
                validity: None,
            }),
    {
        OrderChange::from_raw_single_order(order, SubOrder::First)
    }

    /// A change of the order itself, or of the second order of a
    /// combination. It changes nothing yet.
    pub fn from_order1(order: Order) -> (change: OrderChange)
        ensures
            change == (OrderChange {
                order,
                which: SubOrder::Second,
                limit: None,
                trigger_limit: None,
                absolute_trailing_limit: None,
                relative_trailing_limit: None,
                validity: None,
            }),
    {
        OrderChange::from_raw_single_order(order, SubOrder::Second)
    }

    /// The single order that the change is aimed at.
    pub fn get_raw_single_order(&self) -> (single: &RawSingleOrder)
        ensures
            *single == self.spec_raw_single_order(),
    {
        self.order.raw.target(self.which)
    }

    /// The id of the single order that the change is aimed at.
    pub fn order_id(&self) -> (id: &String)
        ensures
            *id == self.spec_raw_single_order().id,
    {
        &self.order.raw.target(self.which).id
    }

    /// The limit that the change sets, if any.
    pub fn get_limit(&self) -> (limit: &Option<Amount>)
        ensures
            *limit == self.limit,
    {
        &self.limit
    }

    /// The trigger limit that the change sets, if any.
    pub fn get_trigger_limit(&self) -> (limit: &Option<Amount>)
        ensures
            *limit == self.trigger_limit,
    {
        &self.trigger_limit
    }

    /// The absolute trailing limit that the change sets, if any.
    pub fn get_absolute_trailing_limit(&self) -> (limit: &Option<Amount>)
        ensures
            *limit == self.absolute_trailing_limit,
    {
        &self.absolute_trailing_limit
    }

    /// The relative trailing limit that the change sets, if any.
    pub fn get_relative_trailing_limit(&self) -> (limit: &Option<String>)
        ensures
            *limit == self.relative_trailing_limit,
    {
        &self.relative_trailing_limit
    }

    /// The validity that the change sets, if any.
    pub fn get_validity(&self) -> (validity: &Option<OrderValidity>)
        ensures
            *validity == self.validity,
    {
        &self.validity
    }

    /// The change, with `limit` as the limit to set.
    pub fn limit(self, limit: Amount) -> (change: OrderChange)
        ensures
            change == (OrderChange { limit: Some(limit), ..self }),
    {
        let mut change = self;
        change.limit = Some(limit);
        change
    }

    /// The change, with `trigger_limit` as the trigger limit to set.
    pub fn trigger_limit(self, trigger_limit: Amount) -> (change: OrderChange)
        ensures
            change == (OrderChange { trigger_limit: Some(trigger_limit), ..self }),
    {
        let mut change = self;
        change.trigger_limit = Some(trigger_limit);
        change
    }

    /// The change, with `absolute_trailing_limit` as the absolute trailing
    /// limit to set.
    pub fn absolute_trailing_limit(self, absolute_trailing_limit: Amount) -> (change: OrderChange)
        ensures
            change == (OrderChange {
                absolute_trailing_limit: Some(absolute_trailing_limit),
                ..self
            }),
    {
        let mut change = self;
        change.absolute_trailing_limit = Some(absolute_trailing_limit);
        change
    }

    /// The change, with `relative_trailing_limit` as the relative trailing
    /// limit to set.
    pub fn relative_trailing_limit(self, relative_trailing_limit: String) -> (change: OrderChange)
        ensures
            change == (OrderChange {
                relative_trailing_limit: Some(relative_trailing_limit),
                ..self
            }),
    {
        let mut change = self;
        change.relative_trailing_limit = Some(relative_trailing_limit);
        change
    }

    /// The change, with `validity` as the validity to set.
    pub fn validity(self, validity: OrderValidity) -> (change: OrderChange)
        ensures
            change == (OrderChange { validity: Some(validity), ..self }),
    {
        let mut change = self;
        change.validity = Some(validity);
        change
    }

    /// Gives the order back as it was: the change was not made.
    pub fn into_order(self) -> (order: Order)
        ensures
            order == self.order,
    {
        self.order
    }

    /// Makes the change on the order, and gives the order back: every limit
    /// that the change names is set, as is the validity if the change names
    /// one; everything else stays.
    pub fn change_order(self) -> (order: Order)
        ensures
            order == self.spec_changed_order(),
    {
        let OrderChange {
            order,
            which,
            limit,
            trigger_limit,
            absolute_trailing_limit,
            relative_trailing_limit,
            validity,
        } = self;
        let Order { deposit, raw } = order;
        let raw = match raw {
            RawOrder::SingleOrder(single) => RawOrder::SingleOrder(
                change_single_order(
                    single,
                    limit,
                    trigger_limit,
                    absolute_trailing_limit,
                    relative_trailing_limit,
                    validity,
                ),
            ),
            RawOrder::CombinationOrder(combination) => {
                let RawCombinationOrder { id, sub_orders } = combination;
                let (first, second) = sub_orders;
                match which {
                    SubOrder::First => RawOrder::CombinationOrder(
                        RawCombinationOrder {
                            id,
                            sub_orders: (
                                change_single_order(
                                    first,
                                    limit,
                                    trigger_limit,
                                    absolute_trailing_limit,
                                    relative_trailing_limit,
                                    validity,
                                ),
                                second,
                            ),
                        },
                    ),
                    SubOrder::Second => RawOrder::CombinationOrder(
                        RawCombinationOrder {
                            id,
                            sub_orders: (
                                first,
                                change_single_order(
                                    second,
                                    limit,
                                    trigger_limit,
                                    absolute_trailing_limit,
                                    relative_trailing_limit,
                                    validity,
                                ),
                            ),
                        },
                    ),
                }
            },
        };
        Order { deposit, raw }
    }
}

/// Sets on a single order every limit that is named, and the validity if one
/// is named.
pub fn change_single_order(
    single: RawSingleOrder,
    limit: Option<Amount>,
    trigger_limit: Option<Amount>,
    absolute_trailing_limit: Option<Amount>,
    relative_trailing_limit: Option<String>,
    validity: Option<OrderValidity>,
) -> (changed: RawSingleOrder)
    ensures
        changed == (RawSingleOrder {
            id: single.id,
            status: single.status,
            limit: spec_replaced(limit, single.limit),
            trigger_limit: spec_replaced(trigger_limit, single.trigger_limit),
            absolute_trailing_limit: spec_replaced(
                absolute_trailing_limit,
                single.absolute_trailing_limit,
            ),
            relative_trailing_limit: spec_replaced(
                relative_trailing_limit,
                single.relative_trailing_limit,
            ),
            validity: match validity {
                Some(validity) => validity,
                None => single.validity,
            },
        }),
{
    let mut changed = single;
    match limit {
        Some(limit) => {
            changed.limit = Some(limit);
        },
        None => {},
    }
    match trigger_limit {
        Some(limit) => {
            changed.trigger_limit = Some(limit);
        },
        None => {},
    }
    match absolute_trailing_limit {
        Some(limit) => {
            changed.absolute_trailing_limit = Some(limit);
        },
        None => {},
    }
    match relative_trailing_limit {
        Some(limit) => {
            changed.relative_trailing_limit = Some(limit);
        },
        None => {},
    }
    match validity {
        Some(validity) => {
            changed.validity = validity;
        },
        None => {},
    }
    changed
}

/// A member of a JSON object after the first: `,"<name>":<value>`.
pub open spec fn spec_member_text(name: Seq<char>, value: Seq<char>) -> Seq<char> {
    ",\""@ + name + "\":"@ + value
}

/// An amount as a JSON object: `{"value":<value>,"unit":<unit>}`, both as
/// JSON strings.
pub open spec fn spec_amount_text(amount: Amount) -> Seq<char> {
    "{\"value\":"@ + quoted_json(amount.value@) + ",\"unit\":"@ + quoted_json(amount.unit@)
        + "}"@
}

/// The member that names an amount, or nothing where there is none.
pub open spec fn spec_amount_member(name: Seq<char>, amount: Option<Amount>) -> Seq<char> {
    match amount {
        Some(amount) => spec_member_text(name, spec_amount_text(amount)),
        None => Seq::empty(),
    }
}

/// The member that names a text, or nothing where there is none.
pub open spec fn spec_text_member(name: Seq<char>, text: Option<String>) -> Seq<char> {
    match text {
        Some(text) => spec_member_text(name, quoted_json(text@)),
        None => Seq::empty(),
    }
}

/// The members that name a validity: its kind, and the date for a validity
/// that ends on one; or nothing where there is none.
pub open spec fn spec_validity_members(validity: Option<OrderValidity>) -> Seq<char> {
    match validity {
        Some(OrderValidity::OneDay) => spec_member_text(
            "validityType"@,
            quoted_json(spec_validity_name(ComdirectOrderValidityType::GoodForDay)),
        ),
        Some(OrderValidity::TillDate(date)) => spec_member_text(
            "validityType"@,
            quoted_json(spec_validity_name(ComdirectOrderValidityType::GoodTillDate)),
        ) + spec_member_text("validity"@, quoted_json(date@)),
        None => Seq::empty(),
    }
}

/// Whether the JSON strings of an amount's value and unit are known.
pub open spec fn spec_amount_quoting(amount: Option<Amount>) -> bool {
    amount matches Some(held) ==> spec_quoting_known(held.value@) && spec_quoting_known(
        held.unit@,
    )
}

/// Whether the JSON strings of the texts that name a validity are known.
pub open spec fn spec_validity_quoting(validity: Option<OrderValidity>) -> bool {
    match validity {
        Some(OrderValidity::OneDay) => spec_quoting_known(
            spec_validity_name(ComdirectOrderValidityType::GoodForDay),
        ),
        Some(OrderValidity::TillDate(date)) => spec_quoting_known(
            spec_validity_name(ComdirectOrderValidityType::GoodTillDate),
        ) && spec_quoting_known(date@),
        None => true,
    }
}

/// Whether the JSON string of every text in the payload of a change is
/// known. Each text that holds nothing to escape then stands in the payload
/// between two double quotes, so that the payload of a change with such
/// texts is known character by character.
pub open spec fn spec_change_quoting(change: OrderChange) -> bool {
    &&& spec_quoting_known(change.spec_raw_single_order().id@)
    &&& spec_amount_quoting(change.limit)
    &&& spec_amount_quoting(change.trigger_limit)
    &&& spec_amount_quoting(change.absolute_trailing_limit)
    &&& (change.relative_trailing_limit matches Some(limit) ==> spec_quoting_known(limit@))
    &&& spec_validity_quoting(change.validity)
}

/// The payload that submits a change: a JSON object with the id of the
/// single order as `orderId`, and one member for each thing that the change
/// sets.
pub open spec fn spec_change_payload(change: OrderChange) -> Seq<char> {
    "{\"orderId\":"@ + quoted_json(change.spec_raw_single_order().id@) + spec_amount_member(
        "limit"@,
        change.limit,
    ) + spec_amount_member("triggerLimit"@, change.trigger_limit) + spec_amount_member(
        "absoluteTrailingLimit"@,
        change.absolute_trailing_limit,
    ) + spec_text_member("relativeTrailingLimit"@, change.relative_trailing_limit)
        + spec_validity_members(change.validity) + "}"@
}

/// Writes a member of a JSON object after the first, from its name and its
/// value as a JSON text.
pub fn member_text(name: &str, value: &str) -> (text: String)
    ensures
        text@ == spec_member_text(name@, value@),
{
    String::from_str(",\"").concat(name).concat("\":").concat(value)
}

/// Writes the JSON object of an amount from its value and its unit, both
/// already written as JSON strings.
pub fn amount_text(quoted_value: &str, quoted_unit: &str) -> (text: String)
    ensures
        text@ == "{\"value\":"@ + quoted_value@ + ",\"unit\":"@ + quoted_unit@ + "}"@,
{
    String::from_str("{\"value\":").concat(quoted_value).concat(",\"unit\":").concat(
        quoted_unit,
    ).concat("}")
}

impl Amount {
    /// An amount of `value`, in decimal notation, counted in `unit`.
    pub fn new(value: String, unit: String) -> (amount: Amount)
        ensures
            amount == (Amount { value, unit }),
    {
        Amount { value, unit }
    }

    /// Writes the amount as a JSON object.
    pub fn to_json_text(&self) -> (text: String)
        ensures
            text@ == spec_amount_text(*self),
            spec_quoting_known(self.value@),
            spec_quoting_known(self.unit@),
    {
        let value = quote_json(self.value.as_str());
        let unit = quote_json(self.unit.as_str());
        amount_text(value.as_str(), unit.as_str())
    }
}

fn append_amount_member(text: &mut String, name: &str, amount: &Option<Amount>)
    ensures
        final(text)@ == old(text)@ + spec_amount_member(name@, *amount),
        spec_amount_quoting(*amount),
{
    match amount {
        Some(amount) => {
            let member = member_text(name, amount.to_json_text().as_str());
            text.append(member.as_str());
        },
        None => {
            assert(text@ + Seq::<char>::empty() =~= text@);
        },
    }
}

fn append_text_member(text: &mut String, name: &str, value: &Option<String>)
    ensures
        final(text)@ == old(text)@ + spec_text_member(name@, *value),
        *value matches Some(held) ==> spec_quoting_known(held@),
{
    match value {
        Some(value) => {
            let member = member_text(name, quote_json(value.as_str()).as_str());
            text.append(member.as_str());
        },
        None => {
            assert(text@ + Seq::<char>::empty() =~= text@);
        },
    }
}

fn append_validity_members(text: &mut String, validity: &Option<OrderValidity>)
    ensures
        final(text)@ == old(text)@ + spec_validity_members(*validity),
        spec_validity_quoting(*validity),
{
    match validity {
        Some(validity) => {
            let kind = member_text(
                "validityType",
                quote_json(validity.kind().as_str()).as_str(),
            );
            text.append(kind.as_str());
            match validity {
                OrderValidity::OneDay => {},
                OrderValidity::TillDate(date) => {
                    let until = member_text("validity", quote_json(date.as_str()).as_str());
                    text.append(until.as_str());
                    assert(text@ =~= old(text)@ + (kind@ + until@));
                },
            }
        },
        None => {
            assert(text@ + Seq::<char>::empty() =~= text@);
        },
    }
}

impl OrderChange {
    /// Writes the payload that submits the change.
    pub fn payload(&self) -> (payload: String)
        ensures
            payload@ == spec_change_payload(*self),
            spec_change_quoting(*self),
    {
        let mut text = String::from_str("{\"orderId\":").concat(
            quote_json(self.order_id().as_str()).as_str(),
        );
        append_amount_member(&mut text, "limit", &self.limit);
        append_amount_member(&mut text, "triggerLimit", &self.trigger_limit);
        append_amount_member(&mut text, "absoluteTrailingLimit", &self.absolute_trailing_limit);
        append_text_member(&mut text, "relativeTrailingLimit", &self.relative_trailing_limit);
        append_validity_members(&mut text, &self.validity);
        text.append("}");
        text
    }

    /// The change as an action to authorize: aimed at the single order, with
    /// the payload of the change.
    pub fn intent(&self) -> (intent: MutationIntent)
        ensures
            intent matches MutationIntent::Change { order_id, payload } && order_id
                == self.spec_raw_single_order().id && payload@ == spec_change_payload(*self),
            spec_change_quoting(*self),
    {
        MutationIntent::Change { order_id: self.order_id().clone(), payload: self.payload() }
    }
}

impl Order {
    /// The deletion of the order as an action to authorize.
    pub fn deletion(&self) -> (intent: MutationIntent)
        ensures
            intent == (MutationIntent::Delete { order_id: self.raw.spec_id() }),
    {
        MutationIntent::Delete { order_id: self.id().clone() }
    }
}

/// Ends the change of an order, given how its authorization ended. After a
/// commit that the server accepted, the change is made on the order, and the
/// changed order comes back. After any failure the order comes back as it
/// was, beside the error.
pub fn change_order_outcome(order_change: OrderChange, committed: Result<HttpResponse, Error>) -> (outcome:
    Result<Order, (Error, Order)>)
    ensures
        match committed {
            Ok(_) => outcome == Ok::<Order, (Error, Order)>(order_change.spec_changed_order()),
            Err(error) => outcome == Err::<Order, (Error, Order)>((error, order_change.order)),
        },
{
    match committed {
        Ok(_) => Ok(order_change.change_order()),
        Err(error) => Err((error, order_change.into_order())),
    }
}

/// Ends the deletion of an order, given how its authorization ended. After
/// any failure the order comes back to the caller as it was, beside the
/// error: a deletion that failed destroys nothing.
pub fn delete_order_outcome(order: Order, committed: Result<HttpResponse, Error>) -> (outcome: Result<
    (),
    (Error, Order),
>)
    ensures
        match committed {
            Ok(_) => outcome == Ok::<(), (Error, Order)>(()),
            Err(error) => outcome == Err::<(), (Error, Order)>((error, order)),
        },
{
    match committed {
        Ok(_) => Ok(()),
        Err(error) => Err((error, order)),
    }
}

/// What starting the authorization of an action amounts to: without a
/// session it is [`Error::NoActiveSession`]; otherwise the authorization
/// waits for the answer to the validation of the action, which is the
/// request to send.
pub open spec fn spec_started(
    client: ApiClient,
    intent: MutationIntent,
    request_id: Seq<char>,
    started: Result<(TransactionAuthorizer, HttpRequest), Error>,
) -> bool {
    match client.session {
        Some(session) => {
            &&& started matches Ok(pair)
            &&& pair.0 == (TransactionAuthorizer::Validating { intent })
            &&& pair.1@ == spec_inspection_request(
                session@,
                intent,
                Inspection::Validation,
                request_id,
            )
        },
        None => started matches Err(error) && error == Error::NoActiveSession,
    }
}

/// What asking for an inspection of an action amounts to: without a session
/// it is [`Error::NoActiveSession`]; otherwise the request of that
/// inspection.
pub open spec fn spec_inspected(
    client: ApiClient,
    intent: MutationIntent,
    inspection: Inspection,
    request_id: Seq<char>,
    request: Result<HttpRequest, Error>,
) -> bool {
    match client.session {
        Some(session) => request matches Ok(sent) && sent@ == spec_inspection_request(
            session@,
            intent,
            inspection,
            request_id,
        ),
        None => request matches Err(error) && error == Error::NoActiveSession,
    }
}

impl ApiClient {
    /// Starts the authorization of an action within the session of the client.
    pub fn authorize(&self, intent: MutationIntent, request_id: &str) -> (started: Result<
        (TransactionAuthorizer, HttpRequest),
        Error,
    >)
        ensures
            spec_started(*self, intent, request_id@, started),
    {
        match &self.session {
            Some(session) => Ok(TransactionAuthorizer::validate(session, intent, request_id)),
            None => Err(Error::NoActiveSession),
        }
    }

    /// Builds the request that submits an action for an inspection, within
    /// the session of the client.
    pub fn inspect(&self, intent: &MutationIntent, inspection: Inspection, request_id: &str) -> (request:
        Result<HttpRequest, Error>)
        ensures
            spec_inspected(*self, *intent, inspection, request_id@, request),
    {
        match &self.session {
            Some(session) => Ok(make_inspection_request(session, intent, inspection, request_id)),
            None => Err(Error::NoActiveSession),
        }
    }

    /// Takes the reply to the request that an authorization sent last and
    /// moves it on by one step. Without a session the authorization ends as
    /// [`Error::NoActiveSession`] and hands the action back.
    pub fn authorization_reply(
        &self,
        state: TransactionAuthorizer,
        reply: HttpReply,
        request_id: &str,
    ) -> (step: AuthorizationStep)
        ensures
            match self.session {
                Some(session) => crate::authorize::spec_authorization_step(
                    state,
                    session@,
                    reply,
                    request_id@,
                    step,
                ),
                None => step == AuthorizationStep::Done(
                    match state {
                        TransactionAuthorizer::Validating { intent } => intent,
                        TransactionAuthorizer::Committing { intent } => intent,
                    },
                    Err(Error::NoActiveSession),
                ),
            },
    {
        match &self.session {
            Some(session) => state.on_reply(session, reply, request_id),
            None => match state {
                TransactionAuthorizer::Validating { intent } => AuthorizationStep::Done(
                    intent,
                    Err(Error::NoActiveSession),
                ),
                TransactionAuthorizer::Committing { intent } => AuthorizationStep::Done(
                    intent,
                    Err(Error::NoActiveSession),
                ),
            },
        }
    }

    /// Starts the placing of the order that `order_outline` describes.
    pub fn place_order(&self, order_outline: String, request_id: &str) -> (started: Result<
        (TransactionAuthorizer, HttpRequest),
        Error,
    >)
        ensures
            spec_started(
                *self,
                MutationIntent::Create { payload: order_outline },
                request_id@,
                started,
            ),
    {
        self.authorize(MutationIntent::Create { payload: order_outline }, request_id)
    }

    /// Starts the change of an order.
    pub fn change_order(&self, order_change: &OrderChange, request_id: &str) -> (started: Result<
        (TransactionAuthorizer, HttpRequest),
        Error,
    >)
        ensures
            exists|intent: MutationIntent|
                {
                    &&& intent matches MutationIntent::Change { order_id, payload }
                    &&& order_id == order_change.spec_raw_single_order().id
                    &&& payload@ == spec_change_payload(*order_change)
                    &&& #[trigger] spec_started(*self, intent, request_id@, started)
                },
    {
        let intent = order_change.intent();
        self.authorize(intent, request_id)
    }

    /// Starts the deletion of an order.
    pub fn delete_order(&self, order: &Order, request_id: &str) -> (started: Result<
        (TransactionAuthorizer, HttpRequest),
        Error,
    >)
        ensures
            spec_started(
                *self,
                MutationIntent::Delete { order_id: order.raw.spec_id() },
                request_id@,
                started,
            ),
    {
        self.authorize(order.deletion(), request_id)
    }

    /// Builds the request that checks the outline of an order without
    /// asking for a challenge.
    pub fn pre_validate_order_outline(&self, order_outline: String, request_id: &str) -> (request:
        Result<HttpRequest, Error>)
        ensures
            spec_inspected(
                *self,
                MutationIntent::Create { payload: order_outline },
                Inspection::Prevalidation,
                request_id@,
                request,
            ),
    {
        let intent = MutationIntent::Create { payload: order_outline };
        self.inspect(&intent, Inspection::Prevalidation, request_id)
    }

    /// Builds the request that checks the change of an order without asking
    /// for a challenge.
    pub fn pre_validate_order_change(&self, order_change: &OrderChange, request_id: &str) -> (request:
        Result<HttpRequest, Error>)
        ensures
            exists|intent: MutationIntent|
                {
                    &&& intent matches MutationIntent::Change { order_id, payload }
                    &&& order_id == order_change.spec_raw_single_order().id
                    &&& payload@ == spec_change_payload(*order_change)
                    &&& #[trigger] spec_inspected(
                        *self,
                        intent,
                        Inspection::Prevalidation,
                        request_id@,
                        request,
                    )
                },
    {
        let intent = order_change.intent();
        self.inspect(&intent, Inspection::Prevalidation, request_id)
    }

    /// Builds the request that checks the deletion of an order without
    /// asking for a challenge.
    pub fn pre_validate_order_deletion(&self, order: &Order, request_id: &str) -> (request: Result<
        HttpRequest,
        Error,
    >)
        ensures
            spec_inspected(
                *self,
                MutationIntent::Delete { order_id: order.raw.spec_id() },
                Inspection::Prevalidation,
                request_id@,
                request,
            ),
    {
        let intent = order.deletion();
        self.inspect(&intent, Inspection::Prevalidation, request_id)
    }

    /// Builds the request that previews the costs of the order that
    /// `order_outline` describes.
    pub fn order_cost_indication(&self, order_outline: String, request_id: &str) -> (request: Result<
        HttpRequest,
        Error,
    >)
        ensures
            spec_inspected(
                *self,
                MutationIntent::Create { payload: order_outline },
                Inspection::CostIndication,
                request_id@,
                request,
            ),
    {
        let intent = MutationIntent::Create { payload: order_outline };
        self.inspect(&intent, Inspection::CostIndication, request_id)
    }

    /// Builds the request that previews the costs of the change of an order.
    pub fn order_change_cost_indication(&self, order_change: &OrderChange, request_id: &str) -> (request:
        Result<HttpRequest, Error>)
        ensures
            exists|intent: MutationIntent|
                {
                    &&& intent matches MutationIntent::Change { order_id, payload }
                    &&& order_id == order_change.spec_raw_single_order().id
                    &&& payload@ == spec_change_payload(*order_change)
                    &&& #[trigger] spec_inspected(
                        *self,
                        intent,
                        Inspection::CostIndication,
                        request_id@,
                        request,
                    )
                },
    {
        let intent = order_change.intent();
        self.inspect(&intent, Inspection::CostIndication, request_id)
    }
}

/// The amount that a JSON document describes: an object with a `value`,
/// which is a number or a string that holds one, and a string `unit`. `None`
/// for every other document.
pub open spec fn spec_decode_amount(json: Json) -> Option<Amount> {
    match (json.spec_member("value"@), json.spec_member("unit"@)) {
        (Some(value), Some(unit)) => match (value.spec_decimal_string(), unit.spec_string()) {
            (Some(value), Some(unit)) => Some(Amount { value, unit }),
            _ => None,
        },
        _ => None,
    }
}

/// An optional amount: a member that is absent or `null` means that there is
/// none. The outer `None` marks a member that is no amount.
pub open spec fn spec_optional_amount(member: Option<Json>) -> Option<Option<Amount>> {
    match member {
        None => Some(None),
        Some(Json::Null) => Some(None),
        Some(json) => match spec_decode_amount(json) {
            Some(amount) => Some(Some(amount)),
            None => None,
        },
    }
}

/// An optional number in decimal notation: a member that is absent or `null`
/// means that there is none. The outer `None` marks a member that is neither
/// a number nor a string.
pub open spec fn spec_optional_decimal(member: Option<Json>) -> Option<Option<String>> {
    match member {
        None => Some(None),
        Some(Json::Null) => Some(None),
        Some(json) => match json.spec_decimal_string() {
            Some(text) => Some(Some(text)),
            None => None,
        },
    }
}

/// The status that a JSON value names, if it is a string with a known name.
pub open spec fn spec_status_of(json: Json) -> Option<OrderStatus> {
    match json.spec_text() {
        Some(name) => spec_status_from_name(name),
        None => None,
    }
}

/// The single order that a JSON document describes: an object with a string
/// `orderId`, a known status as `orderStatus`, and, each of them optional,
/// the amounts `limit`, `triggerLimit` and `trailingLimitDistAbs` and the
/// number `trailingLimitDistRel`. The validity is not read: an order that
/// comes from the server counts as valid for the day. `None` for every
/// other document.
pub open spec fn spec_decode_single_order(json: Json) -> Option<RawSingleOrder> {
    match (
        json.spec_member("orderId"@),
        json.spec_member("orderStatus"@),
        spec_optional_amount(json.spec_member("limit"@)),
        spec_optional_amount(json.spec_member("triggerLimit"@)),
        spec_optional_amount(json.spec_member("trailingLimitDistAbs"@)),
        spec_optional_decimal(json.spec_member("trailingLimitDistRel"@)),
    ) {
        (
            Some(id),
            Some(status),
            Some(limit),
            Some(trigger_limit),
            Some(absolute_trailing_limit),
            Some(relative_trailing_limit),
        ) => match (id.spec_string(), spec_status_of(status)) {
            (Some(id), Some(status)) => Some(
                RawSingleOrder {
                    id,
                    status,
                    limit,
                    trigger_limit,
                    absolute_trailing_limit,
                    relative_trailing_limit,
                    validity: OrderValidity::OneDay,
                },
            ),
            _ => None,
        },
        _ => None,
    }
}

/// The combination that a JSON document describes: an object with a string
/// `orderId` and an array `subOrders` of exactly two single orders. `None`
/// for every other document.
pub open spec fn spec_decode_combination_order(json: Json) -> Option<RawCombinationOrder> {
    match (json.spec_member("orderId"@), json.spec_member("subOrders"@)) {
        (Some(id), Some(sub_orders)) => match (id.spec_string(), sub_orders.spec_items()) {
            (Some(id), Some(items)) => if items.len() == 2 {
                match (spec_decode_single_order(items[0]), spec_decode_single_order(items[1])) {
                    (Some(first), Some(second)) => Some(
                        RawCombinationOrder { id, sub_orders: (first, second) },
                    ),
                    _ => None,
                }
            } else {
                None
            },
            _ => None,
        },
        _ => None,
    }
}

/// The order that a JSON document describes: a combination where the
/// document describes one, else a single order. `None` for every other
/// document.
pub open spec fn spec_decode_order(json: Json) -> Option<RawOrder> {
    match spec_decode_combination_order(json) {
        Some(combination) => Some(RawOrder::CombinationOrder(combination)),
        None => match spec_decode_single_order(json) {
            Some(single) => Some(RawOrder::SingleOrder(single)),
            None => None,
        },
    }
}

/// What the answer to the placing of an order amounts to, given how the
/// authorization ended: the error of the authorization;
/// [`Error::ResponseDecodeFailure`] for a body that is no JSON;
/// [`Error::UnexpectedResponseShape`] for a body that is no order; otherwise
/// the order of the body.
pub open spec fn spec_placed_order(committed: Result<HttpResponse, Error>) -> Result<RawOrder, Error> {
    match committed {
        Ok(response) => match parsed_json(response.body@) {
            Some(json) => match spec_decode_order(json) {
                Some(raw) => Ok(raw),
                None => Err(Error::UnexpectedResponseShape),
            },
            None => Err(Error::ResponseDecodeFailure),
        },
        Err(error) => Err(error),
    }
}

fn optional_amount(member: Option<&Json>) -> (decoded: Option<Option<Amount>>)
    ensures
        decoded == spec_optional_amount(
            match member {
                Some(json) => Some(*json),
                None => None,
            },
        ),
{
    match member {
        None => Some(None),
        Some(Json::Null) => Some(None),
        Some(json) => match Amount::from_json(json) {
            Some(amount) => Some(Some(amount)),
            None => None,
        },
    }
}

fn optional_decimal(member: Option<&Json>) -> (decoded: Option<Option<String>>)
    ensures
        decoded == spec_optional_decimal(
            match member {
                Some(json) => Some(*json),
                None => None,
            },
        ),
{
    match member {
        None => Some(None),
        Some(Json::Null) => Some(None),
        Some(json) => match json.as_decimal() {
            Some(text) => Some(Some(text.clone())),
            None => None,
        },
    }
}

impl Amount {
    /// Reads an amount from the JSON object that describes it.
    pub fn from_json(json: &Json) -> (decoded: Option<Amount>)
        ensures
            decoded == spec_decode_amount(*json),
    {
        let value = match json.member("value") {
            Some(member) => match member.as_decimal() {
                Some(text) => text.clone(),
                None => { return None; },
            },
            None => { return None; },
        };
        let unit = match json.member("unit") {
            Some(member) => match member.as_text() {
                Some(text) => text.clone(),
                None => { return None; },
            },
            None => { return None; },
        };
        Some(Amount { value, unit })
    }
}

impl RawSingleOrder {
    /// Reads a single order from the JSON object that describes it.
    pub fn from_json(json: &Json) -> (decoded: Option<RawSingleOrder>)
        ensures
            decoded == spec_decode_single_order(*json),
    {
        let id = match json.member("orderId") {
            Some(member) => match member.as_text() {
                Some(text) => Some(text.clone()),
                None => None,
            },
            None => { return None; },
        };
        let status = match json.member("orderStatus") {
            Some(member) => match member.as_text() {
                Some(name) => OrderStatus::from_name(name.as_str()),
                None => None,
            },
            None => { return None; },
        };
        let limit = optional_amount(json.member("limit"));
        let trigger_limit = optional_amount(json.member("triggerLimit"));
        let absolute_trailing_limit = optional_amount(json.member("trailingLimitDistAbs"));
        let relative_trailing_limit = optional_decimal(json.member("trailingLimitDistRel"));
        match (limit, trigger_limit, absolute_trailing_limit, relative_trailing_limit) {
            (
                Some(limit),
                Some(trigger_limit),
                Some(absolute_trailing_limit),
                Some(relative_trailing_limit),
            ) => match (id, status) {
                (Some(id), Some(status)) => Some(
                    RawSingleOrder {
                        id,
                        status,
                        limit,
                        trigger_limit,
                        absolute_trailing_limit,
                        relative_trailing_limit,
                        validity: OrderValidity::OneDay,
                    },
                ),
                _ => None,
            },
            _ => None,
        }
    }
}

impl RawCombinationOrder {
    /// Reads a combination from the JSON object that describes it.
    pub fn from_json(json: &Json) -> (decoded: Option<RawCombinationOrder>)
        ensures
            decoded == spec_decode_combination_order(*json),
    {
        let id = match json.member("orderId") {
            Some(member) => match member.as_text() {
                Some(text) => Some(text.clone()),
                None => None,
            },
            None => { return None; },
        };
        let items = match json.member("subOrders") {
            Some(member) => match member.as_items() {
                Some(items) => Some(items),
                None => None,
            },
            None => { return None; },
        };
        match (id, items) {
            (Some(id), Some(items)) => {
                if items.len() != 2 {
                    return None;
                }
                match (RawSingleOrder::from_json(&items[0]), RawSingleOrder::from_json(&items[1])) {
                    (Some(first), Some(second)) => Some(
                        RawCombinationOrder { id, sub_orders: (first, second) },
                    ),
                    _ => None,
                }
            },
            _ => None,
        }
    }
}

impl RawOrder {
    /// Reads an order from the JSON object that describes it.
    pub fn from_json(json: &Json) -> (decoded: Option<RawOrder>)
        ensures
            decoded == spec_decode_order(*json),
    {
        match RawCombinationOrder::from_json(json) {
            Some(combination) => Some(RawOrder::CombinationOrder(combination)),
            None => match RawSingleOrder::from_json(json) {
                Some(single) => Some(RawOrder::SingleOrder(single)),
                None => None,
            },
        }
    }
}

/// Ends the placing of an order, given how its authorization ended: reads
/// the order that the server describes in its answer to the commit, and puts
/// it into the deposit that it was placed for.
pub fn place_order_outcome(committed: Result<HttpResponse, Error>, deposit: ComdirectDeposit) -> (outcome:
    Result<Order, Error>)
    ensures
        match outcome {
            Ok(order) => spec_placed_order(committed) == Ok::<RawOrder, Error>(order.raw)
                && order.deposit == deposit,
            Err(error) => spec_placed_order(committed) == Err::<RawOrder, Error>(error),
        },
{
    match committed {
        Ok(response) => match response.json() {
            Ok(json) => match RawOrder::from_json(&json) {
                Some(raw) => Ok(Order::from_raw(raw, deposit)),
                None => Err(Error::UnexpectedResponseShape),
            },
            Err(error) => Err(error),
        },
        Err(error) => Err(error),
    }
}

/// The orders that a list of JSON documents describes, if every one of them
/// describes an order.
pub open spec fn spec_decode_order_list(items: Seq<Json>) -> Option<Seq<RawOrder>> {
    if forall|i: int| 0 <= i < items.len() ==> (#[trigger] spec_decode_order(items[i])) is Some {
        Some(Seq::new(items.len(), |i: int| spec_decode_order(items[i])->0))
    } else {
        None
    }
}

/// The orders that a JSON document lists: an object whose member `values` is
/// an array of orders. `None` for every other document.
pub open spec fn spec_decode_orders(json: Json) -> Option<Seq<RawOrder>> {
    match json.spec_member("values"@) {
        Some(values) => match values.spec_items() {
            Some(items) => spec_decode_order_list(items),
            None => None,
        },
        None => None,
    }
}

/// Reads the orders that a JSON document lists, and puts each into the
/// deposit `deposit`. Every document that is no list of orders is refused as
/// [`Error::UnexpectedResponseShape`].
pub fn orders_from_json(json: &Json, deposit: &ComdirectDeposit) -> (decoded: Result<
    Vec<Order>,
    Error,
>)
    ensures
        match decoded {
            Ok(orders) => {
                &&& spec_decode_orders(*json) matches Some(raw)
                &&& raw.len() == orders@.len()
                &&& forall|i: int|
                    0 <= i < orders@.len() ==> (#[trigger] orders@[i]).raw == raw[i] && orders@[i].deposit
                        == *deposit
            },
            Err(error) => error == Error::UnexpectedResponseShape && spec_decode_orders(*json)
                is None,
        },
{
    let items = match json.member("values") {
        Some(values) => match values.as_items() {
            Some(items) => items,
            None => { return Err(Error::UnexpectedResponseShape); },
        },
        None => { return Err(Error::UnexpectedResponseShape); },
    };
    let mut orders: Vec<Order> = Vec::new();
    let mut index: usize = 0;
    while index < items.len()
        invariant
            index <= items.len(),
            orders@.len() == index,
            spec_decode_orders(*json) == spec_decode_order_list(items@),
            forall|i: int|
                0 <= i < index ==> (#[trigger] spec_decode_order(items@[i])) == Some(
                    orders@[i].raw,
                ),
            forall|i: int| 0 <= i < index ==> (#[trigger] orders@[i]).deposit == *deposit,
        decreases items.len() - index,
    {
        match RawOrder::from_json(&items[index]) {
            Some(raw) => {
                orders.push(Order::from_raw(raw, deposit.clone()));
            },
            None => {
                assert(spec_decode_order(items@[index as int]) is None);
                return Err(Error::UnexpectedResponseShape);
            },
        }
        index = index + 1;
    }
    Ok(orders)
}

} // verus!
