use vstd::prelude::*;

verus! {

/// An external request to change an account. Commands are transient: they are
/// validated against the current state, never stored, and may be rejected
/// without any side effect. Amounts are in whole currency units.
#[derive(Debug)]
pub enum BankAccountCommand {
    OpenAccount { account_id: String },
    DepositMoney { amount: i64 },
    WithdrawMoney { amount: i64 },
    WriteCheck { check_number: String, amount: i64 },
}

} // verus!
