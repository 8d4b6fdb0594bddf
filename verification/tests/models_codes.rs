use lab_inventory::models::{ItemStatus, Role};

#[test]
fn role_codes() {
    assert_eq!(Role::LabManager.to_db(), "lab_manager");
    assert_eq!(Role::Assistant.to_db(), "assistant");
}

#[test]
fn role_from_known_codes() {
    assert_eq!(Role::from_db("lab_manager"), Role::LabManager);
    assert_eq!(Role::from_db("assistant"), Role::Assistant);
}

#[test]
fn role_from_unknown_code_is_assistant() {
    assert_eq!(Role::from_db(""), Role::Assistant);
    assert_eq!(Role::from_db("Lab_Manager"), Role::Assistant);
    assert_eq!(Role::from_db("lab_manager "), Role::Assistant);
    assert_eq!(Role::from_db("admin"), Role::Assistant);
}

#[test]
fn role_round_trip() {
    for r in [Role::LabManager, Role::Assistant] {
        assert_eq!(Role::from_db(r.to_db()), r);
    }
}

#[test]
fn status_codes() {
    assert_eq!(ItemStatus::Available.to_db(), "available");
    assert_eq!(ItemStatus::InService.to_db(), "in_service");
    assert_eq!(ItemStatus::WrittenOff.to_db(), "written_off");
}

#[test]
fn status_from_known_codes() {
    assert_eq!(ItemStatus::from_db("available"), ItemStatus::Available);
    assert_eq!(ItemStatus::from_db("in_service"), ItemStatus::InService);
    assert_eq!(ItemStatus::from_db("written_off"), ItemStatus::WrittenOff);
}

#[test]
fn status_from_unknown_code_is_available() {
    assert_eq!(ItemStatus::from_db("broken"), ItemStatus::Available);
    assert_eq!(ItemStatus::from_db(""), ItemStatus::Available);
    assert_eq!(ItemStatus::from_db("IN_SERVICE"), ItemStatus::Available);
}

#[test]
fn status_round_trip() {
    for s in [ItemStatus::Available, ItemStatus::InService, ItemStatus::WrittenOff] {
        assert_eq!(ItemStatus::from_db(s.to_db()), s);
    }
}
