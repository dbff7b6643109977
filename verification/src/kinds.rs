//! Closed enumerations persisted as small integers.
//!
//! The integer assignment of each variant is a frozen contract with the
//! persisted data, written out here as an explicit bidirectional mapping
//! rather than derived from declaration order.

use vstd::prelude::*;

verus! {

/// A user's role.
#[derive(Clone, Copy, Debug, PartialEq, Eq, Structural)]
pub enum Role {
    Superuser,
    Staff,
    Customer,
}

/// The lifecycle state of an invoice.
#[derive(Clone, Copy, Debug, PartialEq, Eq, Structural)]
pub enum InvoiceStatus {
    Draft,
    Open,
    Paid,
    Uncollectible,
    Void,
}

/// Why an invoice was issued.
#[derive(Clone, Copy, Debug, PartialEq, Eq, Structural)]
pub enum BillingReason {
    Manual,
    ContractCycle,
}

impl Role {
    /// The frozen integer code of the role.
    pub open spec fn spec_code(self) -> i16 {
        match self {
            Role::Superuser => 0,
            Role::Staff => 1,
            Role::Customer => 2,
        }
    }

    /// The integer the role is persisted as.
    pub fn code(self) -> (r: i16)
        ensures
            r == self.spec_code(),
    {
        match self {
            Role::Superuser => 0,
            Role::Staff => 1,
            Role::Customer => 2,
        }
    }

    /// The role a persisted integer stands for; unassigned integers are
    /// rejected.
    pub fn from_code(code: i16) -> (r: Option<Role>)
        ensures
            r is Some <==> 0 <= code <= 2,
            r is Some ==> r->0.spec_code() == code,
    {
        match code {
            0 => Some(Role::Superuser),
            1 => Some(Role::Staff),
            2 => Some(Role::Customer),
            _ => None,
        }
    }
}

impl InvoiceStatus {
    /// The frozen integer code of the status.
    pub open spec fn spec_code(self) -> i16 {
        match self {
            InvoiceStatus::Draft => 0,
            InvoiceStatus::Open => 1,
            InvoiceStatus::Paid => 2,
            InvoiceStatus::Uncollectible => 3,
            InvoiceStatus::Void => 4,
        }
    }

    /// The integer the status is persisted as.
    pub fn code(self) -> (r: i16)
        ensures
            r == self.spec_code(),
    {
        match self {
            InvoiceStatus::Draft => 0,
            InvoiceStatus::Open => 1,
            InvoiceStatus::Paid => 2,
            InvoiceStatus::Uncollectible => 3,
            InvoiceStatus::Void => 4,
        }
    }

    /// The status a persisted integer stands for.
    pub fn from_code(code: i16) -> (r: Option<InvoiceStatus>)
        ensures
            r is Some <==> 0 <= code <= 4,
            r is Some ==> r->0.spec_code() == code,
    {
        match code {
            0 => Some(InvoiceStatus::Draft),
            1 => Some(InvoiceStatus::Open),
            2 => Some(InvoiceStatus::Paid),
            3 => Some(InvoiceStatus::Uncollectible),
            4 => Some(InvoiceStatus::Void),
            _ => None,
        }
    }
}

impl BillingReason {
    /// The frozen integer code of the reason.
    pub open spec fn spec_code(self) -> i16 {
        match self {
            BillingReason::Manual => 0,
            BillingReason::ContractCycle => 1,
        }
    }

    /// The integer the reason is persisted as.
    pub fn code(self) -> (r: i16)
        ensures
            r == self.spec_code(),
    {
        match self {
            BillingReason::Manual => 0,
            BillingReason::ContractCycle => 1,
        }
    }

    /// The reason a persisted integer stands for.
    pub fn from_code(code: i16) -> (r: Option<BillingReason>)
        ensures
            r is Some <==> 0 <= code <= 1,
            r is Some ==> r->0.spec_code() == code,
    {
        match code {
            0 => Some(BillingReason::Manual),
            1 => Some(BillingReason::ContractCycle),
            _ => None,
        }
    }
}

/// Every role survives a round trip through its persisted integer.
pub proof fn lemma_role_code_round_trip(role: Role)
    ensures
        0 <= role.spec_code() <= 2,
        forall|other: Role| other.spec_code() == role.spec_code() ==> other == role,
{
}

/// Every status survives a round trip through its persisted integer.
pub proof fn lemma_status_code_round_trip(status: InvoiceStatus)
    ensures
        0 <= status.spec_code() <= 4,
        forall|other: InvoiceStatus| other.spec_code() == status.spec_code() ==> other == status,
{
}

/// Every billing reason survives a round trip through its persisted
/// integer.
pub proof fn lemma_reason_code_round_trip(reason: BillingReason)
    ensures
        0 <= reason.spec_code() <= 1,
        forall|other: BillingReason| other.spec_code() == reason.spec_code() ==> other == reason,
{
}

} // verus!
