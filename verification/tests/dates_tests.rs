use macronx_tui::dates::{format_date, format_datetime};

#[test]
fn date_of_a_timestamp() {
    assert_eq!(format_date("2026-06-12T20:40:00.000Z"), "Jun 12, 2026");
}

#[test]
fn datetime_of_a_timestamp() {
    assert_eq!(
        format_datetime("2026-06-12T20:40:00.000Z"),
        "June 12, 2026 at 20:40 UTC"
    );
}

#[test]
fn every_month_has_its_name() {
    let short = ["Jan", "Feb", "Mar", "Apr", "May", "Jun", "Jul", "Aug", "Sep", "Oct", "Nov", "Dec"];
    let long = [
        "January", "February", "March", "April", "May", "June", "July", "August", "September",
        "October", "November", "December",
    ];
    for m in 1..=12 {
        let ts = format!("2024-{:02}-05T01:02:03Z", m);
        assert_eq!(format_date(&ts), format!("{} 5, 2024", short[m - 1]));
        assert_eq!(format_datetime(&ts), format!("{} 5, 2024 at 01:02 UTC", long[m - 1]));
    }
}

#[test]
fn unknown_month_is_kept() {
    assert_eq!(format_date("2024-13-05"), "13 5, 2024");
    assert_eq!(format_datetime("2024-00-10T11:22:33"), "00 10, 2024 at 11:22 UTC");
}

#[test]
fn leading_zeros_of_the_day_go() {
    assert_eq!(format_date("2024-01-09"), "Jan 9, 2024");
    assert_eq!(format_date("2024-01-00"), "Jan , 2024");
}

#[test]
fn short_text_is_kept() {
    assert_eq!(format_date("2024-01-0"), "2024-01-0");
    assert_eq!(format_date(""), "");
    assert_eq!(format_datetime("2024-01-09T10:0"), "2024-01-09T10:0");
}

#[test]
fn text_without_three_dashed_parts_is_kept() {
    assert_eq!(format_date("2024/01/09"), "2024/01/09");
    assert_eq!(format_date("2024-01-0-9"), "2024-01-0-9");
    assert_eq!(format_datetime("20240109T10:00:00"), "20240109T10:00:00");
}

#[test]
fn datetime_reads_the_time_after_the_separator() {
    assert_eq!(format_datetime("1999-12-31 23:59"), "December 31, 1999 at 23:59 UTC");
}
