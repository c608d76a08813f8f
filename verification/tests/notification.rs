use tempest::notification::{alert_notice, alert_urgency, sanitize_notification_text, AlertSeverity, Urgency};

#[test]
fn truncation_is_char_safe_for_multibyte() {
    let input = "é".repeat(100);
    let result = sanitize_notification_text(&input, 99);
    assert_eq!(result, format!("{}...", "é".repeat(99)));
    assert_eq!(result.chars().count(), 99 + 3);
}

#[test]
fn ascii_text_within_limit_is_unchanged() {
    let input = "Tornado warning";
    assert_eq!(sanitize_notification_text(input, 99), input);
}

#[test]
fn markup_and_multibyte_combined() {
    let result = sanitize_notification_text("<b>café</b>", 3);
    assert_eq!(result, "caf...");
}

#[test]
fn markup_is_stripped_without_truncation() {
    assert_eq!(
        sanitize_notification_text("<p>Flood <i>watch</i></p>", 100),
        "Flood watch"
    );
}

#[test]
fn text_at_exactly_the_limit_is_not_cut() {
    assert_eq!(sanitize_notification_text("abcde", 5), "abcde");
    assert_eq!(sanitize_notification_text("abcdef", 5), "abcde...");
}

#[test]
fn unclosed_tag_drops_the_rest() {
    assert_eq!(sanitize_notification_text("Heat <b advisory", 100), "Heat ");
}

#[test]
fn severity_picks_the_urgency() {
    assert_eq!(alert_urgency(AlertSeverity::Extreme), Urgency::Critical);
    assert_eq!(alert_urgency(AlertSeverity::Severe), Urgency::Critical);
    assert_eq!(alert_urgency(AlertSeverity::Moderate), Urgency::Normal);
    assert_eq!(alert_urgency(AlertSeverity::Minor), Urgency::Low);
    assert_eq!(alert_urgency(AlertSeverity::Unknown), Urgency::Low);
}

#[test]
fn alert_notice_cleans_summary_and_body() {
    let long_headline = "x".repeat(301);
    let notice = alert_notice(AlertSeverity::Severe, "<b>Tornado</b> Warning", &long_headline);
    assert_eq!(notice.summary, "Tornado Warning");
    assert_eq!(notice.body, format!("{}...", "x".repeat(300)));
    assert_eq!(notice.urgency, Urgency::Critical);
}
