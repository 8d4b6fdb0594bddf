//! The audit trail: which events are recorded, under which action name,
//! and with which details text.
use vstd::prelude::*;
use vstd::string::*;

use crate::text::{decimal, i64_to_decimal};

verus! {

/// Something worth recording in the audit trail.
#[derive(Debug, Clone)]
pub enum AuditEvent {
    /// The initial lab manager account was created.
    UserSeed,
    UserLogin { username: String },
    UserLoginFail { username: String },
    UserLogout { username: String },
    ItemCreate { inv_num: String },
    ItemUpdateMain { old_inv_num: String, new_inv_num: String },
    ItemStatusChange { inv_num: String },
    ItemDelete { inv_num: String },
    MaintenanceAdd { inv_num: String },
    MaintenanceDelete { maintenance_id: i64 },
    CategoryCreate { name: String },
    CategoryUpdate { id: i64 },
    CategoryDelete { id: i64 },
    VendorCreate { name: String },
    VendorUpdate { id: i64 },
    VendorDelete { id: i64 },
    UserCreate { username: String },
    UserRoleUpdate { user_id: i64 },
    UserPasswordReset { user_id: i64 },
    UserDelete { user_id: i64 },
}

/// The action name under which an event is recorded.
pub open spec fn event_action(e: AuditEvent) -> Seq<char> {
    match e {
        AuditEvent::UserSeed => "USER_SEED"@,
        AuditEvent::UserLogin { .. } => "USER_LOGIN"@,
        AuditEvent::UserLoginFail { .. } => "USER_LOGIN_FAIL"@,
        AuditEvent::UserLogout { .. } => "USER_LOGOUT"@,
        AuditEvent::ItemCreate { .. } => "ITEM_CREATE"@,
        AuditEvent::ItemUpdateMain { .. } => "ITEM_UPDATE_MAIN"@,
        AuditEvent::ItemStatusChange { .. } => "ITEM_STATUS_CHANGE"@,
        AuditEvent::ItemDelete { .. } => "ITEM_DELETE"@,
        AuditEvent::MaintenanceAdd { .. } => "MAINT_ADD"@,
        AuditEvent::MaintenanceDelete { .. } => "MAINT_DELETE"@,
        AuditEvent::CategoryCreate { .. } => "CATEGORY_CREATE"@,
        AuditEvent::CategoryUpdate { .. } => "CATEGORY_UPDATE"@,
        AuditEvent::CategoryDelete { .. } => "CATEGORY_DELETE"@,
        AuditEvent::VendorCreate { .. } => "VENDOR_CREATE"@,
        AuditEvent::VendorUpdate { .. } => "VENDOR_UPDATE"@,
        AuditEvent::VendorDelete { .. } => "VENDOR_DELETE"@,
        AuditEvent::UserCreate { .. } => "USER_CREATE"@,
        AuditEvent::UserRoleUpdate { .. } => "USER_ROLE_UPDATE"@,
        AuditEvent::UserPasswordReset { .. } => "USER_PASSWORD_RESET"@,
        AuditEvent::UserDelete { .. } => "USER_DELETE"@,
    }
}

/// The details text recorded with an event: `label=value`, with numbers
/// written in decimal.
pub open spec fn event_details(e: AuditEvent) -> Seq<char> {
    match e {
        AuditEvent::UserSeed => "created initial lab_manager pushnyavka"@,
        AuditEvent::UserLogin { username } => "username="@ + username@,
        AuditEvent::UserLoginFail { username } => "username="@ + username@,
        AuditEvent::UserLogout { username } => "username="@ + username@,
        AuditEvent::ItemCreate { inv_num } => "inv_num="@ + inv_num@,
        AuditEvent::ItemUpdateMain { old_inv_num, new_inv_num } => "old="@ + old_inv_num@
            + ", new="@ + new_inv_num@,
        AuditEvent::ItemStatusChange { inv_num } => "inv_num="@ + inv_num@,
        AuditEvent::ItemDelete { inv_num } => "inv_num="@ + inv_num@,
        AuditEvent::MaintenanceAdd { inv_num } => "inv_num="@ + inv_num@,
        AuditEvent::MaintenanceDelete { maintenance_id } => "maintenance_id="@ + decimal(
            maintenance_id as int,
        ),
        AuditEvent::CategoryCreate { name } => "name="@ + name@,
        AuditEvent::CategoryUpdate { id } => "id="@ + decimal(id as int),
        AuditEvent::CategoryDelete { id } => "id="@ + decimal(id as int),
        AuditEvent::VendorCreate { name } => "name="@ + name@,
        AuditEvent::VendorUpdate { id } => "id="@ + decimal(id as int),
        AuditEvent::VendorDelete { id } => "id="@ + decimal(id as int),
        AuditEvent::UserCreate { username } => "username="@ + username@,
        AuditEvent::UserRoleUpdate { user_id } => "user_id="@ + decimal(user_id as int),
        AuditEvent::UserPasswordReset { user_id } => "user_id="@ + decimal(user_id as int),
        AuditEvent::UserDelete { user_id } => "user_id="@ + decimal(user_id as int),
    }
}

/// `label` followed by `value`.
fn labelled(label: &str, value: &str) -> (r: String)
    ensures
        r@ == label@ + value@,
{
    let mut s = label.to_owned();
    s.append(value);
    s
}

/// `label` followed by `n` in decimal.
fn labelled_number(label: &str, n: i64) -> (r: String)
    ensures
        r@ == label@ + decimal(n as int),
{
    let digits = i64_to_decimal(n);
    labelled(label, digits.as_str())
}

impl AuditEvent {
    /// The action name under which this event is recorded.
    pub fn action(&self) -> (r: &'static str)
        ensures
            r@ == event_action(*self),
    {
        match self {
            AuditEvent::UserSeed => "USER_SEED",
            AuditEvent::UserLogin { .. } => "USER_LOGIN",
            AuditEvent::UserLoginFail { .. } => "USER_LOGIN_FAIL",
            AuditEvent::UserLogout { .. } => "USER_LOGOUT",
            AuditEvent::ItemCreate { .. } => "ITEM_CREATE",
            AuditEvent::ItemUpdateMain { .. } => "ITEM_UPDATE_MAIN",
            AuditEvent::ItemStatusChange { .. } => "ITEM_STATUS_CHANGE",
            AuditEvent::ItemDelete { .. } => "ITEM_DELETE",
            AuditEvent::MaintenanceAdd { .. } => "MAINT_ADD",
            AuditEvent::MaintenanceDelete { .. } => "MAINT_DELETE",
            AuditEvent::CategoryCreate { .. } => "CATEGORY_CREATE",
            AuditEvent::CategoryUpdate { .. } => "CATEGORY_UPDATE",
            AuditEvent::CategoryDelete { .. } => "CATEGORY_DELETE",
            AuditEvent::VendorCreate { .. } => "VENDOR_CREATE",
            AuditEvent::VendorUpdate { .. } => "VENDOR_UPDATE",
            AuditEvent::VendorDelete { .. } => "VENDOR_DELETE",
            AuditEvent::UserCreate { .. } => "USER_CREATE",
            AuditEvent::UserRoleUpdate { .. } => "USER_ROLE_UPDATE",
            AuditEvent::UserPasswordReset { .. } => "USER_PASSWORD_RESET",
            AuditEvent::UserDelete { .. } => "USER_DELETE",
        }
    }

    /// The details text recorded with this event.
    pub fn details(&self) -> (r: String)
        ensures
            r@ == event_details(*self),
    {
        match self {
            AuditEvent::UserSeed => "created initial lab_manager pushnyavka".to_owned(),
            AuditEvent::UserLogin { username } => labelled("username=", username.as_str()),
            AuditEvent::UserLoginFail { username } => labelled("username=", username.as_str()),
            AuditEvent::UserLogout { username } => labelled("username=", username.as_str()),
            AuditEvent::ItemCreate { inv_num } => labelled("inv_num=", inv_num.as_str()),
            AuditEvent::ItemUpdateMain { old_inv_num, new_inv_num } => {
                let mut s = labelled("old=", old_inv_num.as_str());
                s.append(", new=");
                s.append(new_inv_num.as_str());
                s
            },
            AuditEvent::ItemStatusChange { inv_num } => labelled("inv_num=", inv_num.as_str()),
            AuditEvent::ItemDelete { inv_num } => labelled("inv_num=", inv_num.as_str()),
            AuditEvent::MaintenanceAdd { inv_num } => labelled("inv_num=", inv_num.as_str()),
            AuditEvent::MaintenanceDelete { maintenance_id } => labelled_number(
                "maintenance_id=",
                *maintenance_id,
            ),
            AuditEvent::CategoryCreate { name } => labelled("name=", name.as_str()),
            AuditEvent::CategoryUpdate { id } => labelled_number("id=", *id),
            AuditEvent::CategoryDelete { id } => labelled_number("id=", *id),
            AuditEvent::VendorCreate { name } => labelled("name=", name.as_str()),
            AuditEvent::VendorUpdate { id } => labelled_number("id=", *id),
            AuditEvent::VendorDelete { id } => labelled_number("id=", *id),
            AuditEvent::UserCreate { username } => labelled("username=", username.as_str()),
            AuditEvent::UserRoleUpdate { user_id } => labelled_number("user_id=", *user_id),
            AuditEvent::UserPasswordReset { user_id } => labelled_number("user_id=", *user_id),
            AuditEvent::UserDelete { user_id } => labelled_number("user_id=", *user_id),
        }
    }
}

} // verus!
