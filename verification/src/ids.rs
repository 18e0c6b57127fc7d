//! Fixed-width identifiers: object ids, account addresses and digests.
//!
//! Each is thirty-two raw bytes. Two identifiers are equal exactly when all
//! their bytes are, which is also what `==` means for them in contracts.

use vstd::prelude::*;
use vstd::std_specs::cmp::PartialEqSpecImpl;

verus! {

/// Whether two byte strings of identifier width hold the same bytes.
pub fn bytes32_equal(a: &[u8; 32], b: &[u8; 32]) -> (r: bool)
    ensures
        r == (*a == *b),
{
    let mut i: usize = 0;
    while i < 32
        invariant
            i <= 32,
            forall|j: int| 0 <= j < i ==> a[j] == b[j],
        decreases 32 - i,
    {
        if a[i] != b[i] {
            return false;
        }
        i += 1;
    }
    assert(*a =~= *b);
    true
}

/// The identifier of an on-chain object.
#[derive(Clone, Copy, Debug, Eq, Hash)]
pub struct ObjectId {
    pub bytes: [u8; 32],
}

impl PartialEq for ObjectId {
    fn eq(&self, other: &Self) -> (r: bool) {
        bytes32_equal(&self.bytes, &other.bytes)
    }
}

impl PartialEqSpecImpl for ObjectId {
    open spec fn obeys_eq_spec() -> bool {
        true
    }

    open spec fn eq_spec(&self, other: &Self) -> bool {
        self.bytes == other.bytes
    }
}

/// The address of an account, or of the object that owns another object.
#[derive(Clone, Copy, Debug, Eq, Hash)]
pub struct Address {
    pub bytes: [u8; 32],
}

impl PartialEq for Address {
    fn eq(&self, other: &Self) -> (r: bool) {
        bytes32_equal(&self.bytes, &other.bytes)
    }
}

impl PartialEqSpecImpl for Address {
    open spec fn obeys_eq_spec() -> bool {
        true
    }

    open spec fn eq_spec(&self, other: &Self) -> bool {
        self.bytes == other.bytes
    }
}

/// The digest that names a transaction.
#[derive(Clone, Copy, Debug, Eq, Hash)]
pub struct TransactionDigest {
    pub bytes: [u8; 32],
}

impl PartialEq for TransactionDigest {
    fn eq(&self, other: &Self) -> (r: bool) {
        bytes32_equal(&self.bytes, &other.bytes)
    }
}

impl PartialEqSpecImpl for TransactionDigest {
    open spec fn obeys_eq_spec() -> bool {
        true
    }

    open spec fn eq_spec(&self, other: &Self) -> bool {
        self.bytes == other.bytes
    }
}

/// The digest of one version of an object.
#[derive(Clone, Copy, Debug, Eq, Hash)]
pub struct ObjectDigest {
    pub bytes: [u8; 32],
}

impl PartialEq for ObjectDigest {
    fn eq(&self, other: &Self) -> (r: bool) {
        bytes32_equal(&self.bytes, &other.bytes)
    }
}

impl PartialEqSpecImpl for ObjectDigest {
    open spec fn obeys_eq_spec() -> bool {
        true
    }

    open spec fn eq_spec(&self, other: &Self) -> bool {
        self.bytes == other.bytes
    }
}

/// The address at which the system publishes its own modules: thirty-one
/// zero bytes and then a three.
pub open spec fn system_address() -> Address {
    Address {
        bytes: [
            0u8, 0, 0, 0, 0, 0, 0, 0, 0, 0, 0, 0, 0, 0, 0, 0,
            0, 0, 0, 0, 0, 0, 0, 0, 0, 0, 0, 0, 0, 0, 0, 3,
        ],
    }
}

/// The address at which the system publishes its own modules.
pub fn sui_system_address() -> (r: Address)
    ensures
        r == system_address(),
{
    Address {
        bytes: [
            0u8, 0, 0, 0, 0, 0, 0, 0, 0, 0, 0, 0, 0, 0, 0, 0,
            0, 0, 0, 0, 0, 0, 0, 0, 0, 0, 0, 0, 0, 0, 0, 3,
        ],
    }
}

} // verus!
