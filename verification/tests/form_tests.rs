use macronx_tui::form::{CreateForm, FormField, Screen};

fn filled_form() -> CreateForm {
    CreateForm {
        name: "n".to_string(),
        source: "s".to_string(),
        summary: "sum".to_string(),
        payload: "{}".to_string(),
        metadata: "[1]".to_string(),
        active_field: 0,
    }
}

#[test]
fn labels_name_each_field() {
    assert_eq!(FormField::Name.label(), "Name");
    assert_eq!(FormField::Source.label(), "Source");
    assert_eq!(FormField::Summary.label(), "Summary");
    assert_eq!(FormField::Payload.label(), "Payload (JSON)");
    assert_eq!(FormField::Metadata.label(), "Metadata (JSON)");
}

#[test]
fn all_lists_fields_in_form_order() {
    assert_eq!(
        FormField::all(),
        [
            FormField::Name,
            FormField::Source,
            FormField::Summary,
            FormField::Payload,
            FormField::Metadata
        ]
    );
}

#[test]
fn next_field_wraps_after_last() {
    let mut f = CreateForm::default();
    for expected in [1, 2, 3, 4, 0, 1] {
        f.next_field();
        assert_eq!(f.active_field, expected);
    }
}

#[test]
fn prev_field_wraps_before_first() {
    let mut f = CreateForm::default();
    for expected in [4, 3, 2, 1, 0, 4] {
        f.prev_field();
        assert_eq!(f.active_field, expected);
    }
}

#[test]
fn prev_field_steps_down_from_out_of_range() {
    let mut f = CreateForm::default();
    f.active_field = 9;
    f.prev_field();
    assert_eq!(f.active_field, 8);
}

#[test]
fn value_for_reads_each_field() {
    let f = filled_form();
    assert_eq!(f.value_for(&FormField::Name), "n");
    assert_eq!(f.value_for(&FormField::Source), "s");
    assert_eq!(f.value_for(&FormField::Summary), "sum");
    assert_eq!(f.value_for(&FormField::Payload), "{}");
    assert_eq!(f.value_for(&FormField::Metadata), "[1]");
}

#[test]
fn active_value_mut_edits_the_active_field_only() {
    let mut f = filled_form();
    f.active_field = 2;
    f.active_value_mut().push('!');
    assert_eq!(f.summary, "sum!");
    assert_eq!(f.name, "n");
    f.active_field = 4;
    f.active_value_mut().pop();
    assert_eq!(f.metadata, "[1");
}

#[test]
fn clear_empties_the_form() {
    let mut f = filled_form();
    f.active_field = 3;
    f.clear();
    assert_eq!(f.name, "");
    assert_eq!(f.source, "");
    assert_eq!(f.summary, "");
    assert_eq!(f.payload, "");
    assert_eq!(f.metadata, "");
    assert_eq!(f.active_field, 0);
}

#[test]
fn screens_compare_by_variant() {
    assert_eq!(Screen::InboxList, Screen::InboxList);
    assert_ne!(Screen::InboxShow, Screen::InboxCreate);
}
