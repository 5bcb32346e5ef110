use vstd::prelude::*;
use crate::role::Role;

verus! {

/// A role may be handed out iff the game enables it and the caller does not exclude it.
pub open spec fn can_generate(role: Role, enabled_roles: Seq<Role>, excluded_roles: Seq<Role>) -> bool {
    enabled_roles.contains(role) && !excluded_roles.contains(role)
}

/// Whether `role` occurs in `roles`.
pub fn contains_role(roles: &[Role], role: Role) -> (r: bool)
    ensures
        r == roles@.contains(role),
{
    let mut i: usize = 0;
    while i < roles.len()
        invariant
            i <= roles@.len(),
            forall|j: int| 0 <= j < i ==> roles@[j] != role,
        decreases roles@.len() - i,
    {
        if roles[i] == role {
            assert(roles@[i as int] == role);
            return true;
        }
        i = i + 1;
    }
    false
}

/// Eligibility of `role` against the enabled-role list and an exclusion list.
pub fn role_can_generate(role: Role, enabled_roles: &Vec<Role>, excluded_roles: &[Role]) -> (r: bool)
    ensures
        r == can_generate(role, enabled_roles@, excluded_roles@),
{
    contains_role(enabled_roles.as_slice(), role) && !contains_role(excluded_roles, role)
}

} // verus!
