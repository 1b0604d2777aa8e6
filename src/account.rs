use vstd::prelude::*;

verus! {

/// Length in bytes of an account identifier.
pub const ACCOUNT_ID_LEN: usize = 32;

/// An opaque, already authenticated account identifier: 32 raw bytes,
/// compared byte for byte.
#[derive(Clone, Copy, Debug, Hash)]
pub struct AccountId(pub [u8; 32]);

impl AccountId {
    /// Wraps the raw bytes of an account.
    pub fn new(bytes: [u8; 32]) -> (r: AccountId)
        ensures
            r.0 == bytes,
    {
        AccountId(bytes)
    }

    /// The raw bytes of the account.
    pub fn as_bytes(&self) -> (r: &[u8; 32])
        ensures
            *r == self.0,
    {
        &self.0
    }
}

impl PartialEq for AccountId {
    fn eq(&self, o: &AccountId) -> (r: bool)
        ensures
            r == (*self == *o),
    {
        let mut i: usize = 0;
        while i < ACCOUNT_ID_LEN
            invariant
                i <= ACCOUNT_ID_LEN,
                forall|k: int| 0 <= k < i ==> self.0[k] == o.0[k],
            decreases ACCOUNT_ID_LEN - i,
        {
            if self.0[i] != o.0[i] {
                return false;
            }
            i = i + 1;
        }
        proof {
            assert(self.0 =~= o.0);
        }
        true
    }
}

impl vstd::std_specs::cmp::PartialEqSpecImpl for AccountId {
    open spec fn obeys_eq_spec() -> bool {
        true
    }

    open spec fn eq_spec(&self, o: &AccountId) -> bool {
        *self == *o
    }
}

impl Eq for AccountId {
}

} // verus!
