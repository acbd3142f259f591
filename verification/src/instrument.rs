//! Instruments, the things that are traded.

use vstd::prelude::*;
use crate::text::str_eq;

verus! {

/// The kinds of instrument.
#[derive(Copy, Clone, Debug, PartialEq, Eq, Structural)]
pub enum InstrumentType {
    Share,
    Bonds,
    SubscriptionRight,
    ETF,
    ProfitPartCertificate,
    Fund,
    Warrant,
    Certificate,
    NotAvailable,
}

/// What the API tells of a derivative beyond what it tells of every
/// instrument. So far that is nothing.
#[derive(Copy, Clone, Debug, PartialEq, Eq, Structural)]
pub struct DerivativeData {
}

/// What the API tells of a fund beyond what it tells of every instrument. So
/// far that is nothing.
#[derive(Copy, Clone, Debug, PartialEq, Eq, Structural)]
pub struct FundData {
}

/// The name of a kind of instrument on the wire: the name of the variant in
/// capitals, with an underscore before each capital after the first.
pub open spec fn spec_instrument_name(kind: InstrumentType) -> Seq<char> {
    match kind {
        InstrumentType::Share => "SHARE"@,
        InstrumentType::Bonds => "BONDS"@,
        InstrumentType::SubscriptionRight => "SUBSCRIPTION_RIGHT"@,
        InstrumentType::ETF => "E_T_F"@,
        InstrumentType::ProfitPartCertificate => "PROFIT_PART_CERTIFICATE"@,
        InstrumentType::Fund => "FUND"@,
        InstrumentType::Warrant => "WARRANT"@,
        InstrumentType::Certificate => "CERTIFICATE"@,
        InstrumentType::NotAvailable => "NOT_AVAILABLE"@,
    }
}

/// The kind of instrument that a name on the wire stands for, if any.
pub open spec fn spec_instrument_from_name(name: Seq<char>) -> Option<InstrumentType> {
    if name == "SHARE"@ {
        Some(InstrumentType::Share)
    } else if name == "BONDS"@ {
        Some(InstrumentType::Bonds)
    } else if name == "SUBSCRIPTION_RIGHT"@ {
        Some(InstrumentType::SubscriptionRight)
    } else if name == "E_T_F"@ {
        Some(InstrumentType::ETF)
    } else if name == "PROFIT_PART_CERTIFICATE"@ {
        Some(InstrumentType::ProfitPartCertificate)
    } else if name == "FUND"@ {
        Some(InstrumentType::Fund)
    } else if name == "WARRANT"@ {
        Some(InstrumentType::Warrant)
    } else if name == "CERTIFICATE"@ {
        Some(InstrumentType::Certificate)
    } else if name == "NOT_AVAILABLE"@ {
        Some(InstrumentType::NotAvailable)
    } else {
        None
    }
}

/// Reading the name of a kind of instrument back gives that kind.
pub proof fn lemma_instrument_name_roundtrip(kind: InstrumentType)
    ensures
        spec_instrument_from_name(spec_instrument_name(kind)) == Some(kind),
{
    reveal_strlit("SHARE");
    reveal_strlit("BONDS");
    reveal_strlit("SUBSCRIPTION_RIGHT");
    reveal_strlit("E_T_F");
    reveal_strlit("PROFIT_PART_CERTIFICATE");
    reveal_strlit("FUND");
    reveal_strlit("WARRANT");
    reveal_strlit("CERTIFICATE");
    reveal_strlit("NOT_AVAILABLE");
    assert("SHARE"@[0] == 'S');
    assert("BONDS"@[0] == 'B');
    assert("E_T_F"@[0] == 'E');
    assert("SHARE"@.len() == 5);
    assert("BONDS"@.len() == 5);
    assert("SUBSCRIPTION_RIGHT"@.len() == 18);
    assert("E_T_F"@.len() == 5);
    assert("PROFIT_PART_CERTIFICATE"@.len() == 23);
    assert("FUND"@.len() == 4);
    assert("WARRANT"@.len() == 7);
    assert("CERTIFICATE"@.len() == 11);
    assert("NOT_AVAILABLE"@.len() == 13);
}

impl InstrumentType {
    /// The name of this kind of instrument on the wire.
    pub fn as_str(&self) -> (name: &'static str)
        ensures
            name@ == spec_instrument_name(*self),
            spec_instrument_from_name(name@) == Some(*self),
    {
        proof {
            lemma_instrument_name_roundtrip(*self);
        }
        match self {
            InstrumentType::Share => "SHARE",
            InstrumentType::Bonds => "BONDS",
            InstrumentType::SubscriptionRight => "SUBSCRIPTION_RIGHT",
            InstrumentType::ETF => "E_T_F",
            InstrumentType::ProfitPartCertificate => "PROFIT_PART_CERTIFICATE",
            InstrumentType::Fund => "FUND",
            InstrumentType::Warrant => "WARRANT",
            InstrumentType::Certificate => "CERTIFICATE",
            InstrumentType::NotAvailable => "NOT_AVAILABLE",
        }
    }

    /// Reads a kind of instrument from its name on the wire.
    pub fn from_name(name: &str) -> (kind: Option<InstrumentType>)
        ensures
            kind == spec_instrument_from_name(name@),
    {
        if str_eq(name, "SHARE") {
            Some(InstrumentType::Share)
        } else if str_eq(name, "BONDS") {
            Some(InstrumentType::Bonds)
        } else if str_eq(name, "SUBSCRIPTION_RIGHT") {
            Some(InstrumentType::SubscriptionRight)
        } else if str_eq(name, "E_T_F") {
            Some(InstrumentType::ETF)
        } else if str_eq(name, "PROFIT_PART_CERTIFICATE") {
            Some(InstrumentType::ProfitPartCertificate)
        } else if str_eq(name, "FUND") {
            Some(InstrumentType::Fund)
        } else if str_eq(name, "WARRANT") {
            Some(InstrumentType::Warrant)
        } else if str_eq(name, "CERTIFICATE") {
            Some(InstrumentType::Certificate)
        } else if str_eq(name, "NOT_AVAILABLE") {
            Some(InstrumentType::NotAvailable)
        } else {
            None
        }
    }
}

} // verus!
