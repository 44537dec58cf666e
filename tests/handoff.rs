use action_radar::handoff::{
    is_notification_tab, offer_notification_tab, pending_notification_tab_slot,
    set_pending_notification_tab, take_pending_notification_tab,
};

#[test]
fn last_write_wins_and_is_taken_once() {
    let mut slot = pending_notification_tab_slot();
    set_pending_notification_tab(&mut slot, "assigned".to_string());
    set_pending_notification_tab(&mut slot, "review".to_string());
    assert_eq!(take_pending_notification_tab(&mut slot), Some("review".to_string()));
    assert_eq!(take_pending_notification_tab(&mut slot), None);
}

#[test]
fn fresh_slot_is_empty() {
    let mut slot = pending_notification_tab_slot();
    assert_eq!(take_pending_notification_tab(&mut slot), None);
}

#[test]
fn only_known_tabs_are_offered() {
    assert!(is_notification_tab(&"assigned".to_string()));
    assert!(is_notification_tab(&"review".to_string()));
    assert!(!is_notification_tab(&"Review".to_string()));
    assert!(!is_notification_tab(&"".to_string()));
    let mut slot = pending_notification_tab_slot();
    assert!(offer_notification_tab(&mut slot, "assigned".to_string()));
    assert!(!offer_notification_tab(&mut slot, "settings".to_string()));
    assert_eq!(take_pending_notification_tab(&mut slot), Some("assigned".to_string()));
}
