use tempest::dates::{format_date, format_iso_date, DateNames, IsoDate, Weekday};

fn english() -> DateNames {
    DateNames {
        weekdays: ["Mon", "Tue", "Wed", "Thu", "Fri", "Sat", "Sun"].iter().map(|s| s.to_string()).collect(),
        months: ["Jan", "Feb", "Mar", "Apr", "May", "Jun", "Jul", "Aug", "Sep", "Oct", "Nov", "Dec"]
            .iter()
            .map(|s| s.to_string())
            .collect(),
    }
}

#[test]
fn iso_date_reads_as_weekday_month_day() {
    assert_eq!(format_date("2025-11-25", &english()), "Tue Nov 25");
    assert_eq!(format_date("2026-06-01", &english()), "Mon Jun 01");
}

#[test]
fn non_date_text_is_returned_as_is() {
    assert_eq!(format_date("tomorrow", &english()), "tomorrow");
    assert_eq!(format_date("2025-13-01", &english()), "2025-13-01");
}

#[test]
fn date_parts_render_with_two_digit_day() {
    let d = IsoDate { weekday: Weekday::Sun, month: 3, day: 7 };
    assert_eq!(format_iso_date(d, &english()), "Sun Mar 07");
}
