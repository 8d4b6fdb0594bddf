//! The records of the inventory and the text codes under which roles and
//! item statuses are stored.
use vstd::prelude::*;

use crate::text::str_equal;

verus! {

/// What a user may do: a lab manager administers everything, an assistant
/// works on the inventory and its maintenance.
#[derive(Debug, Clone, Copy, PartialEq, Eq, Structural)]
pub enum Role {
    LabManager,
    Assistant,
}

/// The text under which a role is stored.
pub open spec fn role_code(r: Role) -> Seq<char> {
    match r {
        Role::LabManager => "lab_manager"@,
        Role::Assistant => "assistant"@,
    }
}

/// The role that a stored text stands for; any text other than the
/// lab manager's code reads as an assistant.
pub open spec fn role_from_code(s: Seq<char>) -> Role {
    if s == "lab_manager"@ {
        Role::LabManager
    } else {
        Role::Assistant
    }
}

impl Role {
    /// The text under which this role is stored.
    pub fn to_db(&self) -> (r: &'static str)
        ensures
            r@ == role_code(*self),
    {
        match self {
            Role::LabManager => "lab_manager",
            Role::Assistant => "assistant",
        }
    }

    /// Reads a stored role; unknown text reads as `Assistant`.
    pub fn from_db(s: &str) -> (r: Self)
        ensures
            r == role_from_code(s@),
    {
        if str_equal(s, "lab_manager") {
            Role::LabManager
        } else {
            Role::Assistant
        }
    }
}

/// A signed-in user.
#[derive(Debug, Clone)]
pub struct User {
    pub id: i64,
    pub username: String,
    pub role: Role,
}

/// Where an inventory item is.
#[derive(Debug, Clone, Copy, PartialEq, Eq, Structural)]
pub enum ItemStatus {
    Available,
    InService,
    WrittenOff,
}

/// The text under which an item status is stored.
pub open spec fn status_code(s: ItemStatus) -> Seq<char> {
    match s {
        ItemStatus::Available => "available"@,
        ItemStatus::InService => "in_service"@,
        ItemStatus::WrittenOff => "written_off"@,
    }
}

/// The status that a stored text stands for; unknown text reads as
/// `Available`.
pub open spec fn status_from_code(s: Seq<char>) -> ItemStatus {
    if s == "available"@ {
        ItemStatus::Available
    } else if s == "in_service"@ {
        ItemStatus::InService
    } else if s == "written_off"@ {
        ItemStatus::WrittenOff
    } else {
        ItemStatus::Available
    }
}

impl ItemStatus {
    /// The text under which this status is stored.
    pub fn to_db(&self) -> (r: &'static str)
        ensures
            r@ == status_code(*self),
    {
        match self {
            ItemStatus::Available => "available",
            ItemStatus::InService => "in_service",
            ItemStatus::WrittenOff => "written_off",
        }
    }

    /// Reads a stored status; unknown text reads as `Available`.
    pub fn from_db(s: &str) -> (r: Self)
        ensures
            r == status_from_code(s@),
    {
        if str_equal(s, "available") {
            ItemStatus::Available
        } else if str_equal(s, "in_service") {
            ItemStatus::InService
        } else if str_equal(s, "written_off") {
            ItemStatus::WrittenOff
        } else {
            ItemStatus::Available
        }
    }
}

/// An item category.
#[derive(Debug, Clone)]
pub struct Category {
    pub id: i64,
    pub name: String,
}

/// A vendor that supplied items.
#[derive(Debug, Clone)]
pub struct Vendor {
    pub id: i64,
    pub name: String,
}

/// An inventory item, identified by its inventory number.
#[derive(Debug, Clone)]
pub struct InventoryItem {
    pub id: i64,
    pub name: String,
    pub inv_num: String,
    pub status: ItemStatus,
    pub category_id: i64,
    pub vendor_id: i64,
}

/// One maintenance entry of an item.
#[derive(Debug, Clone)]
pub struct MaintenanceLog {
    pub id: i64,
    pub item_id: i64,
    pub timestamp: String,
    pub description: String,
    pub by_user_id: i64,
}

/// One entry of the audit trail.
#[derive(Debug, Clone)]
pub struct AuditLog {
    pub id: i64,
    pub timestamp: String,
    pub user_id: Option<i64>,
    pub action: String,
    pub details: String,
}

// ---------------------------------------------------------------------------
// Laws
// ---------------------------------------------------------------------------

/// A stored role reads back as the role that was stored.
pub proof fn law_role_round_trip(r: Role)
    ensures
        role_from_code(role_code(r)) == r,
{
    reveal_strlit("lab_manager");
    reveal_strlit("assistant");
    if r == Role::Assistant {
        assert("assistant"@[0] != "lab_manager"@[0]);
    }
}

/// Distinct roles are stored under distinct texts.
pub proof fn law_role_codes_distinct(a: Role, b: Role)
    ensures
        role_code(a) == role_code(b) ==> a == b,
{
    law_role_round_trip(a);
    law_role_round_trip(b);
}

/// A stored status reads back as the status that was stored.
pub proof fn law_status_round_trip(s: ItemStatus)
    ensures
        status_from_code(status_code(s)) == s,
{
    reveal_strlit("available");
    reveal_strlit("in_service");
    reveal_strlit("written_off");
    match s {
        ItemStatus::Available => {},
        ItemStatus::InService => {
            assert("in_service"@[0] != "available"@[0]);
        },
        ItemStatus::WrittenOff => {
            assert("written_off"@[0] != "available"@[0]);
            assert("written_off"@[0] != "in_service"@[0]);
        },
    }
}

/// Distinct statuses are stored under distinct texts.
pub proof fn law_status_codes_distinct(a: ItemStatus, b: ItemStatus)
    ensures
        status_code(a) == status_code(b) ==> a == b,
{
    law_status_round_trip(a);
    law_status_round_trip(b);
}

} // verus!
