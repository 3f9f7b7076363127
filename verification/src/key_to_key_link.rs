//! The statement options shared by the two-key kinds: a pair of DIDs.

use vstd::prelude::*;
use crate::signer::DID;

verus! {

/// Two linked identities: the options a follow statement renders from.
#[derive(Clone, Debug)]
pub struct KeyToKeyLink {
    pub key_1: DID,
    pub key_2: DID,
}

} // verus!
