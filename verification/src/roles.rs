//! Roles and their permission flags.

use vstd::prelude::*;
use crate::entities::RoleModel;

verus! {

// Administrator permissions.
pub const ADMIN: i64 = 1;
pub const MANAGE_ROLES: i64 = 1 << 1;
pub const MANAGE_SITE_SETTINGS: i64 = 1 << 2;

// General team permissions.
pub const VIEW_ROUNDS: i64 = 1 << 3;
pub const MANAGE_ROUNDS: i64 = 1 << 4;
pub const MANAGE_PICKS: i64 = 1 << 5;
pub const MANAGE_GAMEMODE_PICKS: i64 = 1 << 6;
pub const MANAGE_METADATA: i64 = 1 << 7;
pub const MANAGE_MODERATION: i64 = 1 << 8;

/// Every permission bit that is defined.
pub const ALL_PERMISSIONS: i64 = 511;

/// A set of permission flags, stored as the bits of the `permissions` column.
#[derive(Debug, Clone, Copy, PartialEq, Eq, Structural)]
pub struct Permissions {
    pub bits: i64,
}

impl Permissions {
    /// The set with no permission granted.
    pub fn empty() -> (p: Permissions)
        ensures
            p.bits == 0,
    {
        Permissions { bits: 0 }
    }

    /// The permission set the given bits encode, or nothing when a bit
    /// outside the defined flags is set.
    pub fn from_bits(bits: i64) -> (p: Option<Permissions>)
        ensures
            bits & !ALL_PERMISSIONS == 0 ==> p == Some(Permissions { bits }),
            bits & !ALL_PERMISSIONS != 0 ==> p is None,
    {
        if bits & !ALL_PERMISSIONS == 0 {
            Some(Permissions { bits })
        } else {
            None
        }
    }

    /// Whether every flag of `other` is granted here.
    pub fn contains(&self, other: Permissions) -> (granted: bool)
        ensures
            granted == (self.bits & other.bits == other.bits),
    {
        self.bits & other.bits == other.bits
    }
}

/// The client-facing view of a role.
#[derive(Debug, PartialEq, Eq)]
pub struct DisplayRole {
    pub base: RoleModel,
    pub id: i32,
}

impl DisplayRole {
    pub fn new(base: RoleModel) -> (d: Self)
        ensures
            d.base == base,
            d.id == base.id,
    {
        let id = base.id;
        Self { base, id }
    }
}

/// A role together with its decoded permission flags.
#[derive(Debug, PartialEq, Eq)]
pub struct FullRole {
    pub base: RoleModel,
    pub permissions: Permissions,
}

impl FullRole {
    /// The client-facing view this role presents.
    pub open spec fn spec_display(self) -> DisplayRole {
        DisplayRole { base: self.base, id: self.base.id }
    }

    /// Builds the full role from a fetched row, decoding its permission bits;
    /// bits outside the defined flags leave the role with no permission.
    pub fn from(model: RoleModel) -> (role: Self)
        ensures
            role.base == model,
            model.permissions & !ALL_PERMISSIONS == 0 ==> role.permissions.bits
                == model.permissions,
            model.permissions & !ALL_PERMISSIONS != 0 ==> role.permissions.bits == 0,
    {
        let permissions = match Permissions::from_bits(model.permissions) {
            Some(p) => p,
            None => Permissions::empty(),
        };
        FullRole { base: model, permissions }
    }

    /// Converts the role into its client-facing view.
    pub fn into_display(self) -> (d: DisplayRole)
        ensures
            d == self.spec_display(),
    {
        let id = self.base.id;
        DisplayRole { base: self.base, id }
    }
}

} // verus!
