//! An event-sourced bank account aggregate.
//!
//! The account's state is never stored directly: it is reconstructed by
//! folding the ordered history of domain events. Command handling validates a
//! request against the reconstructed state and either emits new events or
//! rejects the command with an error; a rejected command changes nothing.

pub mod account;
pub mod commands;
pub mod errors;
pub mod events;
pub mod replay;
pub mod services;

pub use account::BankAccount;
pub use commands::BankAccountCommand;
pub use errors::AtmError;
pub use errors::BankAccountError;
pub use errors::CheckingError;
pub use events::BankAccountEvent;
pub use replay::apply_history;
pub use services::BankAccountServices;
