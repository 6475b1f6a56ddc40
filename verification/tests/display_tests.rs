use macronx_tui::display::{
    centered_rect, form_inner_area, inbox_count_title, input_display, status_display,
    summary_display, table_selection, Area,
};

#[test]
fn popup_is_centred() {
    let screen = Area { x: 0, y: 0, width: 100, height: 50 };
    assert_eq!(centered_rect(70, 80, screen), Area { x: 15, y: 5, width: 70, height: 40 });
}

#[test]
fn popup_follows_the_offset_of_the_area() {
    let screen = Area { x: 10, y: 20, width: 200, height: 100 };
    assert_eq!(centered_rect(50, 50, screen), Area { x: 60, y: 45, width: 100, height: 50 });
}

#[test]
fn form_sits_inside_the_popup() {
    let popup = Area { x: 15, y: 5, width: 70, height: 40 };
    assert_eq!(form_inner_area(popup), Area { x: 17, y: 6, width: 66, height: 37 });
    let tiny = Area { x: 0, y: 0, width: 3, height: 2 };
    assert_eq!(form_inner_area(tiny), Area { x: 2, y: 1, width: 0, height: 0 });
}

#[test]
fn input_box_text() {
    assert_eq!(input_display("", false), ("(empty)".to_string(), true));
    assert_eq!(input_display("", true), ("█".to_string(), false));
    assert_eq!(input_display("abc", true), ("abc█".to_string(), false));
    assert_eq!(input_display("abc", false), ("abc".to_string(), false));
}

#[test]
fn status_line_text() {
    assert_eq!(status_display(&None, " "), None);
    assert_eq!(
        status_display(&Some(("Saved".to_string(), false)), " "),
        Some((" Saved".to_string(), false))
    );
    assert_eq!(
        status_display(&Some(("Bad".to_string(), true)), ""),
        Some(("Bad".to_string(), true))
    );
}

#[test]
fn summary_or_fallback() {
    assert_eq!(summary_display(&Some("s".to_string()), "—"), "s");
    assert_eq!(summary_display(&None, "—"), "—");
    assert_eq!(summary_display(&None, ""), "");
}

#[test]
fn table_title_counts_inboxes() {
    assert_eq!(inbox_count_title(0), " 0 inboxes ");
    assert_eq!(inbox_count_title(12), " 12 inboxes ");
}

#[test]
fn highlighted_row() {
    assert_eq!(table_selection(0, 3), None);
    assert_eq!(table_selection(5, 3), Some(3));
}
