//! Users and their role assignments.

use vstd::prelude::*;
use crate::entities::UserModel;
use crate::roles::{DisplayRole, FullRole};

verus! {

/// The client-facing view of a user: the public fields and the views of the
/// user's roles.
#[derive(Debug, PartialEq, Eq)]
pub struct DisplayUser {
    pub id: i32,
    pub username: String,
    pub country: Option<String>,
    pub restricted: bool,
    pub roles: Vec<DisplayRole>,
}

impl Default for DisplayUser {
    /// A placeholder view: no user.
    fn default() -> (d: Self)
        ensures
            d.id == 0,
            d.username@ == Seq::<char>::empty(),
            d.country is None,
            !d.restricted,
            d.roles@ == Seq::<DisplayRole>::empty(),
    {
        DisplayUser {
            id: 0,
            username: String::new(),
            country: None,
            restricted: false,
            roles: Vec::new(),
        }
    }
}

/// A user together with the roles assigned to them.
#[derive(Debug, PartialEq, Eq)]
pub struct FullUser {
    pub base: UserModel,
    pub roles: Vec<FullRole>,
}

/// Whether `d` is exactly the client-facing view of `u`: the public fields
/// carried over and each role replaced by its view, in order.
pub open spec fn is_display_of(d: DisplayUser, u: FullUser) -> bool {
    &&& d.id == u.base.id
    &&& d.username == u.base.username
    &&& d.country == u.base.country
    &&& d.restricted == u.base.restricted
    &&& d.roles@.len() == u.roles@.len()
    &&& forall|j: int| 0 <= j < u.roles@.len() ==> #[trigger] d.roles@[j] == u.roles@[j].spec_display()
}

impl FullUser {
    /// Builds the full user from a fetched row and the roles fetched for it.
    pub fn from(model: UserModel, roles: Vec<FullRole>) -> (user: Self)
        ensures
            user.base == model,
            user.roles == roles,
    {
        FullUser { base: model, roles }
    }

    /// Converts the user into its client-facing view: the public fields and
    /// the view of every assigned role, in order.
    pub fn into_display(self) -> (d: DisplayUser)
        ensures
            is_display_of(d, self),
    {
        let ghost initial = self;
        let FullUser { base, roles } = self;
        let mut remaining = roles;
        let mut displays: Vec<DisplayRole> = Vec::new();
        proof {
            assert(remaining@ =~= initial.roles@.subrange(0, initial.roles@.len() as int));
        }
        while remaining.len() > 0
            invariant
                displays@.len() + remaining@.len() == initial.roles@.len(),
                remaining@ =~= initial.roles@.subrange(
                    displays@.len() as int,
                    initial.roles@.len() as int,
                ),
                forall|j: int|
                    0 <= j < displays@.len() ==> #[trigger] displays@[j]
                        == initial.roles@[j].spec_display(),
            decreases remaining@.len(),
        {
            let role = remaining.remove(0);
            proof {
                assert(role == initial.roles@[displays@.len() as int]);
            }
            displays.push(role.into_display());
            proof {
                assert(remaining@ =~= initial.roles@.subrange(
                    displays@.len() as int,
                    initial.roles@.len() as int,
                ));
            }
        }
        DisplayUser {
            id: base.id,
            username: base.username,
            country: base.country,
            restricted: base.restricted,
            roles: displays,
        }
    }
}

} // verus!
