use vstd::prelude::*;

use crate::identity::{same_key, Pubkey};

verus! {

/// The owner-or-admin rule: `requester` may manage a record owned by `owner`
/// when it is that owner or the configured global admin.
pub open spec fn may_manage(owner: Seq<u8>, requester: Seq<u8>, admin: Seq<u8>) -> bool {
    requester == owner || requester == admin
}

/// Decides the owner-or-admin rule for one request.
pub fn is_authorized(owner: &Pubkey, requester: &Pubkey, admin: &Pubkey) -> (r: bool)
    ensures
        r == may_manage(owner@, requester@, admin@),
{
    let is_owner = same_key(requester, owner);
    let is_admin = same_key(requester, admin);
    is_owner || is_admin
}

} // verus!
