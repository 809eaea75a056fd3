use vstd::prelude::*;

verus! {

/// A user of the system: the user id and whether the user is an administrator.
#[derive(Clone, Copy, Debug, PartialEq, Eq, Structural)]
pub struct User {
    pub uid: u8,
    pub admin: bool,
}

impl User {
    /// The user the system starts with: uid 0, an administrator.
    pub fn boot_user() -> (u: User)
        ensures
            u.uid == 0,
            u.admin,
    {
        User { uid: 0, admin: true }
    }
}

/// Whether the current user may do privileged work: exactly when an administrator.
pub fn check_perm(current: &User) -> (r: bool)
    ensures
        r == current.admin,
{
    current.admin
}

} // verus!
