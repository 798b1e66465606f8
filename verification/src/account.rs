//! Who calls, and when: the two facts every operation takes from its surroundings.

use vstd::prelude::*;

verus! {

/// The identity of an account or of a contract: its 256-bit key, in two halves.
///
/// Two addresses are the same identity exactly when both halves agree.
#[derive(Clone, Copy, Debug, PartialEq, Eq, Structural)]
pub struct Address {
    pub hi: u128,
    pub lo: u128,
}

/// The circumstances of one call: the identity that authorised it and the
/// ledger sequence number at which it runs.
#[derive(Clone, Copy, Debug)]
pub struct Context {
    pub caller: Address,
    pub ledger: u32,
}

impl Address {
    /// The address with the given halves.
    pub fn new(hi: u128, lo: u128) -> (a: Address)
        ensures
            a == (Address { hi, lo }),
    {
        Address { hi, lo }
    }
}

impl Context {
    /// A call by `caller` at ledger `ledger`.
    pub fn new(caller: Address, ledger: u32) -> (c: Context)
        ensures
            c == (Context { caller, ledger }),
    {
        Context { caller, ledger }
    }
}

} // verus!
