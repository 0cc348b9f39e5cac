use bank_account::apply_history;
use bank_account::BankAccount;
use bank_account::BankAccountCommand;
use bank_account::BankAccountError;
use bank_account::BankAccountEvent;
use bank_account::BankAccountServices;

#[test]
fn test_deposit_money() {
    let expected = BankAccountEvent::CustomerDepositedMoney {
        amount: 200,
        balance: 200,
    };

    let state = apply_history(vec![]);
    let result = state.handle(
        BankAccountCommand::DepositMoney { amount: 200 },
        &BankAccountServices,
    );
    assert_eq!(result, Ok(vec![expected]));
}

#[test]
fn test_deposit_money_with_balance() {
    let previous = BankAccountEvent::CustomerDepositedMoney {
        amount: 200,
        balance: 200,
    };
    let expected = BankAccountEvent::CustomerDepositedMoney {
        amount: 200,
        balance: 400,
    };

    let state = apply_history(vec![previous]);
    let result = state.handle(
        BankAccountCommand::DepositMoney { amount: 200 },
        &BankAccountServices,
    );
    assert_eq!(result, Ok(vec![expected]));
}

#[test]
fn test_withdraw_money() {
    let previous = BankAccountEvent::CustomerDepositedMoney {
        amount: 200,
        balance: 200,
    };
    let expected = BankAccountEvent::CustomerWithdrewCash {
        amount: 100,
        balance: 100,
    };

    let state = apply_history(vec![previous]);
    let result = state.handle(
        BankAccountCommand::WithdrawMoney { amount: 100 },
        &BankAccountServices,
    );
    assert_eq!(result, Ok(vec![expected]));
}

#[test]
fn test_withdraw_money_funds_unavailable() {
    let state = apply_history(vec![]);
    let result = state.handle(
        BankAccountCommand::WithdrawMoney { amount: 200 },
        &BankAccountServices,
    );
    assert_eq!(result, Err(BankAccountError::new("funds not available")));
}

#[test]
fn test_open_account() {
    let state = apply_history(vec![]);
    let result = state.handle(
        BankAccountCommand::OpenAccount {
            account_id: "A-1".to_string(),
        },
        &BankAccountServices,
    );
    assert_eq!(
        result,
        Ok(vec![BankAccountEvent::AccountOpened {
            account_id: "A-1".to_string(),
        }])
    );
}

#[test]
fn test_reopen_account_rejected() {
    let state = apply_history(vec![BankAccountEvent::AccountOpened {
        account_id: "A-1".to_string(),
    }]);
    let result = state.handle(
        BankAccountCommand::OpenAccount {
            account_id: "A-1".to_string(),
        },
        &BankAccountServices,
    );
    assert_eq!(result, Err(BankAccountError::new("account already open")));
}

#[test]
fn test_write_check_records_nothing() {
    let state = apply_history(vec![BankAccountEvent::CustomerDepositedMoney {
        amount: 200,
        balance: 200,
    }]);
    let result = state.handle(
        BankAccountCommand::WriteCheck {
            check_number: "1170".to_string(),
            amount: 50,
        },
        &BankAccountServices,
    );
    assert_eq!(result, Ok(vec![]));
}

#[test]
fn test_withdraw_entire_balance() {
    let state = apply_history(vec![BankAccountEvent::CustomerDepositedMoney {
        amount: 200,
        balance: 200,
    }]);
    let result = state.handle(
        BankAccountCommand::WithdrawMoney { amount: 200 },
        &BankAccountServices,
    );
    assert_eq!(
        result,
        Ok(vec![BankAccountEvent::CustomerWithdrewCash {
            amount: 200,
            balance: 0,
        }])
    );
}

#[test]
fn test_replay_is_deterministic() {
    let history = || {
        vec![
            BankAccountEvent::AccountOpened {
                account_id: "A-1".to_string(),
            },
            BankAccountEvent::CustomerDepositedMoney {
                amount: 300,
                balance: 300,
            },
            BankAccountEvent::CustomerWithdrewCash {
                amount: 120,
                balance: 180,
            },
        ]
    };

    let first = apply_history(history());
    let second = apply_history(history());
    assert_eq!(first.opened, second.opened);
    assert_eq!(first.balance, second.balance);
}

#[test]
fn test_rejected_command_leaves_state_unchanged() {
    let state = apply_history(vec![BankAccountEvent::CustomerDepositedMoney {
        amount: 150,
        balance: 150,
    }]);
    let result = state.handle(
        BankAccountCommand::WithdrawMoney { amount: 500 },
        &BankAccountServices,
    );
    assert!(result.is_err());
    assert_eq!(state.balance, 150);
    assert!(!state.opened);
}

#[test]
fn test_balance_matches_last_event() {
    let state = apply_history(vec![
        BankAccountEvent::CustomerDepositedMoney {
            amount: 500,
            balance: 500,
        },
        BankAccountEvent::CustomerWithdrewCash {
            amount: 180,
            balance: 320,
        },
    ]);
    assert_eq!(state.balance, 320);
}

#[test]
fn test_emitted_withdrawal_balance_is_never_negative() {
    let state = apply_history(vec![BankAccountEvent::CustomerDepositedMoney {
        amount: 90,
        balance: 90,
    }]);
    let result = state.handle(
        BankAccountCommand::WithdrawMoney { amount: 90 },
        &BankAccountServices,
    );
    let events = result.unwrap();
    for event in &events {
        if let BankAccountEvent::CustomerWithdrewCash { balance, .. } = event {
            assert!(*balance >= 0);
        }
    }
    assert_eq!(events.len(), 1);
}

#[test]
fn test_default_state_is_closed_and_empty() {
    let state = BankAccount::default();
    assert!(!state.opened);
    assert_eq!(state.balance, 0);
}

#[test]
fn test_apply_account_opened_sets_opened() {
    let mut state = BankAccount::default();
    state.apply(BankAccountEvent::AccountOpened {
        account_id: "A-1".to_string(),
    });
    assert!(state.opened);
    assert_eq!(state.balance, 0);
}

#[test]
fn test_apply_trusts_event_balance() {
    let mut state = BankAccount::default();
    state.apply(BankAccountEvent::CustomerWroteCheck {
        check_number: "1170".to_string(),
        amount: 25,
        balance: 75,
    });
    assert_eq!(state.balance, 75);
    assert!(!state.opened);
}

#[test]
fn test_event_type_names() {
    let opened = BankAccountEvent::AccountOpened {
        account_id: "A-1".to_string(),
    };
    let deposited = BankAccountEvent::CustomerDepositedMoney {
        amount: 1,
        balance: 1,
    };
    let withdrew = BankAccountEvent::CustomerWithdrewCash {
        amount: 1,
        balance: 0,
    };
    let check = BankAccountEvent::CustomerWroteCheck {
        check_number: "1".to_string(),
        amount: 1,
        balance: 0,
    };
    assert_eq!(opened.event_type(), "AccountOpened");
    assert_eq!(deposited.event_type(), "CustomerDepositedMoney");
    assert_eq!(withdrew.event_type(), "CustomerWithdrewCash");
    assert_eq!(check.event_type(), "CustomerWroteCheck");
}

#[test]
fn test_event_version() {
    let deposited = BankAccountEvent::CustomerDepositedMoney {
        amount: 1,
        balance: 1,
    };
    assert_eq!(deposited.event_version(), "1.0");
}

#[test]
fn test_aggregate_type() {
    assert_eq!(BankAccount::aggregate_type(), "Account");
}

#[test]
fn test_error_message_round_trip() {
    let error = BankAccountError::new("funds not available");
    assert_eq!(error.message(), "funds not available");
}

#[test]
fn test_event_equality_is_structural() {
    let a = BankAccountEvent::CustomerDepositedMoney {
        amount: 200,
        balance: 200,
    };
    let b = BankAccountEvent::CustomerDepositedMoney {
        amount: 200,
        balance: 200,
    };
    let c = BankAccountEvent::CustomerDepositedMoney {
        amount: 200,
        balance: 400,
    };
    let d = BankAccountEvent::CustomerWithdrewCash {
        amount: 200,
        balance: 200,
    };
    assert_eq!(a, b);
    assert_ne!(a, c);
    assert_ne!(a, d);
}

#[test]
fn test_services_always_authorize() {
    let services = BankAccountServices;
    assert!(services.atm_withdrawal("atm-7", 40).is_ok());
    assert!(services.validate_check("A-1", "1170").is_ok());
}
