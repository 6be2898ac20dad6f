//! Plain-value views of the accounts a transition receives: the caller's
//! glue copies each referenced account's key, owner, signer flag and data
//! into one of these before invoking a transition.

use vstd::prelude::*;
use crate::state::KEY_LEN;

verus! {

/// What a transition sees of one referenced account.
pub struct AccountView {
    /// The account's address.
    pub key: Vec<u8>,
    /// The program that owns the account.
    pub owner: Vec<u8>,
    /// Whether the request was signed by this account's key.
    pub is_signer: bool,
    /// The account's stored bytes.
    pub data: Vec<u8>,
}

impl AccountView {
    pub open spec fn wf(&self) -> bool {
        &&& self.key@.len() == KEY_LEN
        &&& self.owner@.len() == KEY_LEN
    }
}

/// Byte-for-byte equality of two keys (or any two byte strings).
pub fn key_eq(a: &Vec<u8>, b: &Vec<u8>) -> (r: bool)
    ensures
        r == (a@ == b@),
{
    if a.len() != b.len() {
        return false;
    }
    let mut i: usize = 0;
    while i < a.len()
        invariant
            i <= a@.len(),
            a@.len() == b@.len(),
            forall|j: int| 0 <= j < i ==> a@[j] == b@[j],
        decreases a@.len() - i,
    {
        if a[i] != b[i] {
            return false;
        }
        i = i + 1;
    }
    proof {
        assert(a@ =~= b@);
    }
    true
}

/// A fresh copy of a byte string.
pub fn copy_bytes(k: &Vec<u8>) -> (r: Vec<u8>)
    ensures
        r@ == k@,
{
    crate::state::bytes_of(k.as_slice(), 0, k.len())
}

} // verus!
