//! Client identifiers.

use vstd::prelude::*;

verus! {

/// `Uuid::new_v4`, written in the crate's simple format: a random identifier of
/// 32 hexadecimal digits. Which digits depends on the random source, so only the
/// length is stated. (The call stops the process where the operating system
/// yields no random bytes.)
#[verifier::external_body]
fn random_id() -> (id: String)
    ensures
        id@.len() == 32,
{
    uuid::Uuid::new_v4().simple().to_string()
}

/// A fresh identifier for a client that supplied none.
pub fn unique_id() -> (id: String)
    ensures
        id@.len() == 32,
{
    random_id()
}

} // verus!
