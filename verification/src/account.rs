use vstd::prelude::*;
use crate::commands::BankAccountCommand;
use crate::errors::BankAccountError;
use crate::events::BankAccountEvent;
use crate::services::BankAccountServices;

verus! {

/// The bank account aggregate. Its state is derived solely from its event
/// history: it starts as [`initial_state`] and advances one event at a time
/// through [`BankAccount::apply`]. Command handling never touches it
/// directly.
pub struct BankAccount {
    pub opened: bool,
    pub balance: i64,
}

/// The state of an account with no history: closed, with a zero balance.
pub open spec fn initial_state() -> BankAccount {
    BankAccount { opened: false, balance: 0 }
}

/// How one event advances the state. Money-moving events overwrite the
/// balance with the balance the event records, so that replay trusts the
/// persisted fact and never re-derives arithmetic.
pub open spec fn apply_spec(s: BankAccount, event: BankAccountEvent) -> BankAccount {
    match event {
        BankAccountEvent::AccountOpened { .. } => BankAccount { opened: true, balance: s.balance },
        BankAccountEvent::CustomerDepositedMoney { balance, .. } => BankAccount {
            opened: s.opened,
            balance,
        },
        BankAccountEvent::CustomerWithdrewCash { balance, .. } => BankAccount {
            opened: s.opened,
            balance,
        },
        BankAccountEvent::CustomerWroteCheck { balance, .. } => BankAccount {
            opened: s.opened,
            balance,
        },
    }
}

/// What command handling decides: the events to append, or the rejection.
/// Opening is refused once the account is open; a deposit always succeeds; a
/// withdrawal is refused when it would drive the balance below zero; writing
/// a check is deliberately recorded as having no effect here. Amounts carry
/// no sign restriction: the rules are deliberately permissive about
/// non-positive deposits and withdrawals.
pub open spec fn decide_spec(s: BankAccount, command: BankAccountCommand) -> Result<
    Seq<BankAccountEvent>,
    Seq<char>,
> {
    match command {
        BankAccountCommand::OpenAccount { account_id } => if s.opened {
            Err("account already open"@)
        } else {
            Ok(seq![BankAccountEvent::AccountOpened { account_id }])
        },
        BankAccountCommand::DepositMoney { amount } => Ok(
            seq![
                BankAccountEvent::CustomerDepositedMoney {
                    amount,
                    balance: (s.balance + amount) as i64,
                },
            ],
        ),
        BankAccountCommand::WithdrawMoney { amount } => if s.balance - amount < 0 {
            Err("funds not available"@)
        } else {
            Ok(
                seq![
                    BankAccountEvent::CustomerWithdrewCash {
                        amount,
                        balance: (s.balance - amount) as i64,
                    },
                ],
            )
        },
        BankAccountCommand::WriteCheck { .. } => Ok(Seq::empty()),
    }
}

impl BankAccount {
    /// The stable name identifying this aggregate kind for storage and
    /// routing.
    pub fn aggregate_type() -> (r: String)
        ensures
            r@ == "Account"@,
    {
        "Account".to_owned()
    }

    /// Validates `command` against the current state and either returns the
    /// events to append to the history, or the rejection; the state itself is
    /// untouched either way. The bounds keep balance arithmetic within the
    /// machine's range.
    pub fn handle(
        &self,
        command: BankAccountCommand,
        _services: &BankAccountServices,
    ) -> (r: Result<Vec<BankAccountEvent>, BankAccountError>)
        requires
            (match command {
                BankAccountCommand::DepositMoney { amount } => i64::MIN <= self.balance + amount
                    <= i64::MAX,
                BankAccountCommand::WithdrawMoney { amount } => i64::MIN <= self.balance - amount
                    <= i64::MAX,
                _ => true,
            }),
        ensures
            (match decide_spec(*self, command) {
                Ok(events) => r matches Ok(v) && v@ == events,
                Err(reason) => r matches Err(e) && e@ == reason,
            }),
    {
        match command {
            BankAccountCommand::OpenAccount { account_id } => {
                if self.opened {
                    Err(BankAccountError::new("account already open"))
                } else {
                    let events = vec![BankAccountEvent::AccountOpened { account_id }];
                    proof {
                        assert(events@ =~= decide_spec(*self, command)->Ok_0);
                    }
                    Ok(events)
                }
            },
            BankAccountCommand::DepositMoney { amount } => {
                let balance = self.balance + amount;
                let events = vec![BankAccountEvent::CustomerDepositedMoney { amount, balance }];
                proof {
                    assert(events@ =~= decide_spec(*self, command)->Ok_0);
                }
                Ok(events)
            },
            BankAccountCommand::WithdrawMoney { amount } => {
                let balance = self.balance - amount;
                if balance < 0 {
                    return Err(BankAccountError::new("funds not available"));
                }
                let events = vec![BankAccountEvent::CustomerWithdrewCash { amount, balance }];
                proof {
                    assert(events@ =~= decide_spec(*self, command)->Ok_0);
                }
                Ok(events)
            },
            BankAccountCommand::WriteCheck { .. } => {
                let events: Vec<BankAccountEvent> = vec![];
                proof {
                    assert(events@ =~= decide_spec(*self, command)->Ok_0);
                }
                Ok(events)
            },
        }
    }

    /// Advances the state by one event, in the order events occurred. Total:
    /// folding a well-formed event never fails.
    pub fn apply(&mut self, event: BankAccountEvent)
        ensures
            *final(self) == apply_spec(*old(self), event),
    {
        match event {
            BankAccountEvent::AccountOpened { .. } => self.opened = true,
            BankAccountEvent::CustomerDepositedMoney { amount: _, balance } => {
                self.balance = balance;
            },
            BankAccountEvent::CustomerWithdrewCash { amount: _, balance } => {
                self.balance = balance;
            },
            BankAccountEvent::CustomerWroteCheck { check_number: _, amount: _, balance } => {
                self.balance = balance;
            },
        }
    }
}

impl Default for BankAccount {
    /// The default account is the one with no history.
    fn default() -> (r: Self)
        ensures
            r == initial_state(),
    {
        BankAccount { opened: false, balance: 0 }
    }
}

/// Command handling never emits a withdrawal whose resulting balance is
/// negative: such a command is rejected instead.
pub proof fn lemma_no_negative_withdrawal(s: BankAccount, command: BankAccountCommand)
    requires
        (match command {
            BankAccountCommand::WithdrawMoney { amount } => i64::MIN <= s.balance - amount
                <= i64::MAX,
            _ => true,
        }),
    ensures
        (match decide_spec(s, command) {
            Ok(events) => forall|i: int|
                0 <= i < events.len() ==> ((#[trigger] events[i])
                    matches BankAccountEvent::CustomerWithdrewCash { balance, .. } ==> balance
                    >= 0),
            Err(_) => true,
        }),
{
}

} // verus!
