//! Plain value types shared by the token standards.

use vstd::prelude::*;

verus! {

/// A 256-bit unsigned value, held as four 64-bit limbs, least significant
/// first.
#[derive(Clone, Copy, Debug, PartialEq, Eq, Structural)]
pub struct U256 {
    pub w0: u64,
    pub w1: u64,
    pub w2: u64,
    pub w3: u64,
}

impl U256 {
    /// The zero value.
    pub fn zero() -> (r: U256)
        ensures
            r == (U256 { w0: 0, w1: 0, w2: 0, w3: 0 }),
    {
        U256 { w0: 0, w1: 0, w2: 0, w3: 0 }
    }

    /// The value of a 64-bit number.
    pub fn from_u64(v: u64) -> (r: U256)
        ensures
            r == (U256 { w0: v, w1: 0, w2: 0, w3: 0 }),
    {
        U256 { w0: v, w1: 0, w2: 0, w3: 0 }
    }
}

/// A participant account, identified by a 256-bit key.
#[derive(Clone, Copy, Debug, PartialEq, Eq, Structural)]
pub struct Account {
    pub key: U256,
}

impl Account {
    /// The account with the given key.
    pub fn with(key: U256) -> (r: Account)
        ensures
            r == (Account { key }),
    {
        Account { key }
    }
}

} // verus!
