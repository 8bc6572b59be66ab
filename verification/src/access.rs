//! The events the access module announces to other modules.

use vstd::prelude::*;

use crate::primitives::{PermissionSetId, RoleId, UserId};

verus! {

/// What the access module announces: users and roles created, removed or
/// changed.
#[derive(Debug)]
pub enum CoreAccessEvent {
    UserCreated { id: UserId, email: String, role_id: RoleId },
    UserRemoved { id: UserId },
    UserUpdatedRole { id: UserId, role_id: RoleId },
    RoleCreated { id: RoleId, name: String },
    RoleGainedPermissionSet { id: RoleId, permission_set_id: PermissionSetId },
    RoleLostPermissionSet { id: RoleId, permission_set_id: PermissionSetId },
}

} // verus!
