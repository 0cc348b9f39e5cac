use vstd::prelude::*;

verus! {

/// Why a command was rejected. The reason is a plain message, compared by
/// value in assertions; a rejection never becomes part of the event history.
#[derive(Debug)]
pub struct BankAccountError(String);

impl View for BankAccountError {
    type V = Seq<char>;

    closed spec fn view(&self) -> Seq<char> {
        self.0@
    }
}

impl BankAccountError {
    /// Wraps a rejection reason.
    pub fn new(reason: &str) -> (r: Self)
        ensures
            r@ == reason@,
    {
        BankAccountError(reason.to_owned())
    }

    /// The rejection reason, for display at the boundary.
    pub fn message(&self) -> (r: &str)
        ensures
            r@ == self@,
    {
        self.0.as_str()
    }
}

impl PartialEq for BankAccountError {
    fn eq(&self, other: &Self) -> (r: bool) {
        self.0 == other.0
    }
}

impl vstd::std_specs::cmp::PartialEqSpecImpl for BankAccountError {
    open spec fn obeys_eq_spec() -> bool {
        true
    }

    open spec fn eq_spec(&self, other: &Self) -> bool {
        self@ == other@
    }
}

/// Failure reported by the ATM withdrawal capability.
#[derive(Debug)]
pub struct AtmError;

/// Failure reported by the check validation capability.
#[derive(Debug)]
pub struct CheckingError;

} // verus!
