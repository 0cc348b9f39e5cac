use vstd::prelude::*;

verus! {

/// A domain fact that happened to an account. Events are immutable once
/// produced and the ordered sequence of them is the sole source of truth for
/// the account's state. Amounts and balances are in whole currency units.
///
/// Each money-moving event carries the authoritative resulting balance, so
/// that replay is a plain overwrite and never re-derives arithmetic.
#[derive(Clone, Debug)]
pub enum BankAccountEvent {
    AccountOpened { account_id: String },
    CustomerDepositedMoney { amount: i64, balance: i64 },
    CustomerWithdrewCash { amount: i64, balance: i64 },
    CustomerWroteCheck { check_number: String, amount: i64, balance: i64 },
}

impl BankAccountEvent {
    /// The stable storage/dispatch name of each variant.
    pub open spec fn spec_event_type(&self) -> Seq<char> {
        match self {
            BankAccountEvent::AccountOpened { .. } => "AccountOpened"@,
            BankAccountEvent::CustomerDepositedMoney { .. } => "CustomerDepositedMoney"@,
            BankAccountEvent::CustomerWithdrewCash { .. } => "CustomerWithdrewCash"@,
            BankAccountEvent::CustomerWroteCheck { .. } => "CustomerWroteCheck"@,
        }
    }

    /// A stable, human-readable identifier for this event, unique per
    /// variant; used as a storage and dispatch key.
    pub fn event_type(&self) -> (r: String)
        ensures
            r@ == self.spec_event_type(),
    {
        let name: &str = match self {
            BankAccountEvent::AccountOpened { .. } => "AccountOpened",
            BankAccountEvent::CustomerDepositedMoney { .. } => "CustomerDepositedMoney",
            BankAccountEvent::CustomerWithdrewCash { .. } => "CustomerWithdrewCash",
            BankAccountEvent::CustomerWroteCheck { .. } => "CustomerWroteCheck",
        };
        name.to_owned()
    }

    /// The schema version tag of the event payload.
    pub fn event_version(&self) -> (r: String)
        ensures
            r@ == "1.0"@,
    {
        "1.0".to_owned()
    }
}

/// Event type names identify the variant: two events share a type name only
/// when they are the same kind of fact.
pub proof fn lemma_event_types_distinct(e1: &BankAccountEvent, e2: &BankAccountEvent)
    requires
        e1.spec_event_type() == e2.spec_event_type(),
    ensures
        (e1 matches BankAccountEvent::AccountOpened { .. }) == (e2
            matches BankAccountEvent::AccountOpened { .. }),
        (e1 matches BankAccountEvent::CustomerDepositedMoney { .. }) == (e2
            matches BankAccountEvent::CustomerDepositedMoney { .. }),
        (e1 matches BankAccountEvent::CustomerWithdrewCash { .. }) == (e2
            matches BankAccountEvent::CustomerWithdrewCash { .. }),
        (e1 matches BankAccountEvent::CustomerWroteCheck { .. }) == (e2
            matches BankAccountEvent::CustomerWroteCheck { .. }),
{
    reveal_strlit("AccountOpened");
    reveal_strlit("CustomerDepositedMoney");
    reveal_strlit("CustomerWithdrewCash");
    reveal_strlit("CustomerWroteCheck");
    assert("AccountOpened"@.len() == 13);
    assert("CustomerDepositedMoney"@.len() == 22);
    assert("CustomerWithdrewCash"@.len() == 20);
    assert("CustomerWroteCheck"@.len() == 18);
}

impl PartialEq for BankAccountEvent {
    fn eq(&self, other: &Self) -> (r: bool) {
        match (self, other) {
            (
                BankAccountEvent::AccountOpened { account_id: a },
                BankAccountEvent::AccountOpened { account_id: b },
            ) => a.eq(b),
            (
                BankAccountEvent::CustomerDepositedMoney { amount: a1, balance: b1 },
                BankAccountEvent::CustomerDepositedMoney { amount: a2, balance: b2 },
            ) => *a1 == *a2 && *b1 == *b2,
            (
                BankAccountEvent::CustomerWithdrewCash { amount: a1, balance: b1 },
                BankAccountEvent::CustomerWithdrewCash { amount: a2, balance: b2 },
            ) => *a1 == *a2 && *b1 == *b2,
            (
                BankAccountEvent::CustomerWroteCheck { check_number: c1, amount: a1, balance: b1 },
                BankAccountEvent::CustomerWroteCheck { check_number: c2, amount: a2, balance: b2 },
            ) => c1.eq(c2) && *a1 == *a2 && *b1 == *b2,
            _ => false,
        }
    }
}

impl vstd::std_specs::cmp::PartialEqSpecImpl for BankAccountEvent {
    open spec fn obeys_eq_spec() -> bool {
        true
    }

    open spec fn eq_spec(&self, other: &Self) -> bool {
        match (self, other) {
            (
                BankAccountEvent::AccountOpened { account_id: a },
                BankAccountEvent::AccountOpened { account_id: b },
            ) => a@ == b@,
            (
                BankAccountEvent::CustomerDepositedMoney { amount: a1, balance: b1 },
                BankAccountEvent::CustomerDepositedMoney { amount: a2, balance: b2 },
            ) => a1 == a2 && b1 == b2,
            (
                BankAccountEvent::CustomerWithdrewCash { amount: a1, balance: b1 },
                BankAccountEvent::CustomerWithdrewCash { amount: a2, balance: b2 },
            ) => a1 == a2 && b1 == b2,
            (
                BankAccountEvent::CustomerWroteCheck { check_number: c1, amount: a1, balance: b1 },
                BankAccountEvent::CustomerWroteCheck { check_number: c2, amount: a2, balance: b2 },
            ) => c1@ == c2@ && a1 == a2 && b1 == b2,
            _ => false,
        }
    }
}

} // verus!
