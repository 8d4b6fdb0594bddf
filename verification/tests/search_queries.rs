use lab_inventory::models::ItemStatus;
use lab_inventory::queries::{plan_item_list, search_pattern};

#[test]
fn blank_search_lists_everything() {
    assert_eq!(search_pattern(""), None);
    assert_eq!(search_pattern("  \t"), None);
}

#[test]
fn search_keeps_text_as_typed() {
    assert_eq!(search_pattern("scope"), Some("%scope%".to_string()));
    assert_eq!(search_pattern(" scope "), Some("% scope %".to_string()));
}

#[test]
fn item_list_plans() {
    let q = plan_item_list("", None);
    assert!(q.pattern.is_none() && q.status.is_none());
    let q = plan_item_list("INV-1", None);
    assert_eq!(q.pattern.as_deref(), Some("%INV-1%"));
    assert!(q.status.is_none());
    let q = plan_item_list(" ", Some(ItemStatus::InService));
    assert!(q.pattern.is_none());
    assert_eq!(q.status, Some(ItemStatus::InService));
    let q = plan_item_list("mic", Some(ItemStatus::WrittenOff));
    assert_eq!(q.pattern.as_deref(), Some("%mic%"));
    assert_eq!(q.status, Some(ItemStatus::WrittenOff));
}
