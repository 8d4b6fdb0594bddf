use lab_inventory::audit::AuditEvent;
use lab_inventory::records::{audit_entry, maintenance_entry};

fn s(x: &str) -> String {
    x.to_string()
}

#[test]
fn actions_and_details() {
    let cases: Vec<(AuditEvent, &str, &str)> = vec![
        (AuditEvent::UserSeed, "USER_SEED", "created initial lab_manager pushnyavka"),
        (AuditEvent::UserLogin { username: s("ann") }, "USER_LOGIN", "username=ann"),
        (AuditEvent::UserLoginFail { username: s("ann") }, "USER_LOGIN_FAIL", "username=ann"),
        (AuditEvent::UserLogout { username: s("bob") }, "USER_LOGOUT", "username=bob"),
        (AuditEvent::ItemCreate { inv_num: s("INV-7") }, "ITEM_CREATE", "inv_num=INV-7"),
        (
            AuditEvent::ItemUpdateMain { old_inv_num: s("A1"), new_inv_num: s("B2") },
            "ITEM_UPDATE_MAIN",
            "old=A1, new=B2",
        ),
        (AuditEvent::ItemStatusChange { inv_num: s("A1") }, "ITEM_STATUS_CHANGE", "inv_num=A1"),
        (AuditEvent::ItemDelete { inv_num: s("A1") }, "ITEM_DELETE", "inv_num=A1"),
        (AuditEvent::MaintenanceAdd { inv_num: s("A1") }, "MAINT_ADD", "inv_num=A1"),
        (AuditEvent::MaintenanceDelete { maintenance_id: 15 }, "MAINT_DELETE", "maintenance_id=15"),
        (AuditEvent::CategoryCreate { name: s("optics") }, "CATEGORY_CREATE", "name=optics"),
        (AuditEvent::CategoryUpdate { id: 3 }, "CATEGORY_UPDATE", "id=3"),
        (AuditEvent::CategoryDelete { id: -4 }, "CATEGORY_DELETE", "id=-4"),
        (AuditEvent::VendorCreate { name: s("Zeiss") }, "VENDOR_CREATE", "name=Zeiss"),
        (AuditEvent::VendorUpdate { id: 10 }, "VENDOR_UPDATE", "id=10"),
        (AuditEvent::VendorDelete { id: 0 }, "VENDOR_DELETE", "id=0"),
        (AuditEvent::UserCreate { username: s("kim") }, "USER_CREATE", "username=kim"),
        (AuditEvent::UserRoleUpdate { user_id: 2 }, "USER_ROLE_UPDATE", "user_id=2"),
        (AuditEvent::UserPasswordReset { user_id: 2 }, "USER_PASSWORD_RESET", "user_id=2"),
        (AuditEvent::UserDelete { user_id: i64::MIN }, "USER_DELETE", "user_id=-9223372036854775808"),
    ];
    for (event, action, details) in cases {
        assert_eq!(event.action(), action);
        assert_eq!(event.details(), details);
    }
}

#[test]
fn audit_entry_carries_event() {
    let e = audit_entry(Some(5), &AuditEvent::ItemDelete { inv_num: s("X-1") });
    assert_eq!(e.user_id, Some(5));
    assert_eq!(e.action, "ITEM_DELETE");
    assert_eq!(e.details, "inv_num=X-1");
    assert!(e.timestamp.ends_with("+00:00"), "{}", e.timestamp);
    let e = audit_entry(None, &AuditEvent::UserSeed);
    assert_eq!(e.user_id, None);
    assert_eq!(e.action, "USER_SEED");
}

#[test]
fn maintenance_entry_carries_fields() {
    let m = maintenance_entry(9, "replaced lamp", 2);
    assert_eq!(m.item_id, 9);
    assert_eq!(m.description, "replaced lamp");
    assert_eq!(m.by_user_id, 2);
    assert!(m.timestamp.ends_with("+00:00"));
    assert!(m.timestamp.len() >= 25);
}
