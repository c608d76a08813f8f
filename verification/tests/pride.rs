use tempest::pride::{is_pride_month, should_show_panel_accent};

#[test]
fn is_pride_month_only_june() {
    assert!(is_pride_month(6));
    for m in [1, 5, 7, 12] {
        assert!(!is_pride_month(m), "month {m} must not be Pride month");
    }
}

#[test]
fn panel_accent_needs_june_setting_and_room() {
    assert!(should_show_panel_accent(true, true, true));
    assert!(!should_show_panel_accent(false, true, true));
    assert!(!should_show_panel_accent(true, false, true));
    assert!(!should_show_panel_accent(true, true, false));
}
