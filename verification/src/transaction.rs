//! Transactions, the movements in a deposit.

use vstd::prelude::*;
use crate::text::str_eq;

verus! {

/// Whether a transaction has been booked.
#[derive(Copy, Clone, Debug, PartialEq, Eq, Structural)]
pub enum BookingStatus {
    Booked,
    NotBooked,
    /// Stands for both in a filter.
    Both,
}

/// Whether a transaction brings securities in or takes them out.
#[derive(Copy, Clone, Debug, PartialEq, Eq, Structural)]
pub enum TransactionDirection {
    In,
    Out,
}

/// The kinds of transaction.
#[derive(Copy, Clone, Debug, PartialEq, Eq, Structural)]
pub enum TransactionType {
    Buy,
    Sell,
    TransferIn,
    TransferOut,
    Other,
}

/// The name of a booking status on the wire.
pub open spec fn spec_booking_name(status: BookingStatus) -> Seq<char> {
    match status {
        BookingStatus::Booked => "BOOKED"@,
        BookingStatus::NotBooked => "NOTBOOKED"@,
        BookingStatus::Both => "BOTH"@,
    }
}

/// The booking status that a name on the wire stands for, if any.
pub open spec fn spec_booking_from_name(name: Seq<char>) -> Option<BookingStatus> {
    if name == "BOOKED"@ {
        Some(BookingStatus::Booked)
    } else if name == "NOTBOOKED"@ {
        Some(BookingStatus::NotBooked)
    } else if name == "BOTH"@ {
        Some(BookingStatus::Both)
    } else {
        None
    }
}

/// The name of a direction on the wire.
pub open spec fn spec_direction_name(direction: TransactionDirection) -> Seq<char> {
    match direction {
        TransactionDirection::In => "IN"@,
        TransactionDirection::Out => "OUT"@,
    }
}

/// The direction that a name on the wire stands for, if any.
pub open spec fn spec_direction_from_name(name: Seq<char>) -> Option<TransactionDirection> {
    if name == "IN"@ {
        Some(TransactionDirection::In)
    } else if name == "OUT"@ {
        Some(TransactionDirection::Out)
    } else {
        None
    }
}

/// The name of a kind of transaction on the wire.
pub open spec fn spec_transaction_name(kind: TransactionType) -> Seq<char> {
    match kind {
        TransactionType::Buy => "BUY"@,
        TransactionType::Sell => "SELL"@,
        TransactionType::TransferIn => "TRANSFER_IN"@,
        TransactionType::TransferOut => "TRANSFER_OUT"@,
        TransactionType::Other => "OTHER"@,
    }
}

/// The kind of transaction that a name on the wire stands for, if any.
pub open spec fn spec_transaction_from_name(name: Seq<char>) -> Option<TransactionType> {
    if name == "BUY"@ {
        Some(TransactionType::Buy)
    } else if name == "SELL"@ {
        Some(TransactionType::Sell)
    } else if name == "TRANSFER_IN"@ {
        Some(TransactionType::TransferIn)
    } else if name == "TRANSFER_OUT"@ {
        Some(TransactionType::TransferOut)
    } else if name == "OTHER"@ {
        Some(TransactionType::Other)
    } else {
        None
    }
}

/// Reading the name of a booking status back gives that status.
pub proof fn lemma_booking_name_roundtrip(status: BookingStatus)
    ensures
        spec_booking_from_name(spec_booking_name(status)) == Some(status),
{
    reveal_strlit("BOOKED");
    reveal_strlit("NOTBOOKED");
    reveal_strlit("BOTH");
    assert("BOOKED"@.len() == 6);
    assert("NOTBOOKED"@.len() == 9);
    assert("BOTH"@.len() == 4);
}

/// Reading the name of a direction back gives that direction.
pub proof fn lemma_direction_name_roundtrip(direction: TransactionDirection)
    ensures
        spec_direction_from_name(spec_direction_name(direction)) == Some(direction),
{
    reveal_strlit("IN");
    reveal_strlit("OUT");
    assert("IN"@.len() == 2);
    assert("OUT"@.len() == 3);
}

/// Reading the name of a kind of transaction back gives that kind.
pub proof fn lemma_transaction_name_roundtrip(kind: TransactionType)
    ensures
        spec_transaction_from_name(spec_transaction_name(kind)) == Some(kind),
{
    reveal_strlit("BUY");
    reveal_strlit("SELL");
    reveal_strlit("TRANSFER_IN");
    reveal_strlit("TRANSFER_OUT");
    reveal_strlit("OTHER");
    assert("BUY"@.len() == 3);
    assert("SELL"@.len() == 4);
    assert("TRANSFER_IN"@.len() == 11);
    assert("TRANSFER_OUT"@.len() == 12);
    assert("OTHER"@.len() == 5);
}

impl BookingStatus {
    /// The name of this booking status on the wire.
    pub fn as_str(&self) -> (name: &'static str)
        ensures
            name@ == spec_booking_name(*self),
            spec_booking_from_name(name@) == Some(*self),
    {
        proof {
            lemma_booking_name_roundtrip(*self);
        }
        match self {
            BookingStatus::Booked => "BOOKED",
            BookingStatus::NotBooked => "NOTBOOKED",
            BookingStatus::Both => "BOTH",
        }
    }

    /// Reads a booking status from its name on the wire.
    pub fn from_name(name: &str) -> (status: Option<BookingStatus>)
        ensures
            status == spec_booking_from_name(name@),
    {
        if str_eq(name, "BOOKED") {
            Some(BookingStatus::Booked)
        } else if str_eq(name, "NOTBOOKED") {
            Some(BookingStatus::NotBooked)
        } else if str_eq(name, "BOTH") {
            Some(BookingStatus::Both)
        } else {
            None
        }
    }
}

impl TransactionDirection {
    /// The name of this direction on the wire.
    pub fn as_str(&self) -> (name: &'static str)
        ensures
            name@ == spec_direction_name(*self),
            spec_direction_from_name(name@) == Some(*self),
    {
        proof {
            lemma_direction_name_roundtrip(*self);
        }
        match self {
            TransactionDirection::In => "IN",
            TransactionDirection::Out => "OUT",
        }
    }

    /// Reads a direction from its name on the wire.
    pub fn from_name(name: &str) -> (direction: Option<TransactionDirection>)
        ensures
            direction == spec_direction_from_name(name@),
    {
        if str_eq(name, "IN") {
            Some(TransactionDirection::In)
        } else if str_eq(name, "OUT") {
            Some(TransactionDirection::Out)
        } else {
            None
        }
    }
}

impl TransactionType {
    /// The name of this kind of transaction on the wire.
    pub fn as_str(&self) -> (name: &'static str)
        ensures
            name@ == spec_transaction_name(*self),
            spec_transaction_from_name(name@) == Some(*self),
    {
        proof {
            lemma_transaction_name_roundtrip(*self);
        }
        match self {
            TransactionType::Buy => "BUY",
            TransactionType::Sell => "SELL",
            TransactionType::TransferIn => "TRANSFER_IN",
            TransactionType::TransferOut => "TRANSFER_OUT",
            TransactionType::Other => "OTHER",
        }
    }

    /// Reads a kind of transaction from its name on the wire.
    pub fn from_name(name: &str) -> (kind: Option<TransactionType>)
        ensures
            kind == spec_transaction_from_name(name@),
    {
        if str_eq(name, "BUY") {
            Some(TransactionType::Buy)
        } else if str_eq(name, "SELL") {
            Some(TransactionType::Sell)
        } else if str_eq(name, "TRANSFER_IN") {
            Some(TransactionType::TransferIn)
        } else if str_eq(name, "TRANSFER_OUT") {
            Some(TransactionType::TransferOut)
        } else if str_eq(name, "OTHER") {
            Some(TransactionType::Other)
        } else {
            None
        }
    }
}

} // verus!
