use macronx_tui::app::{Action, App, Key};
use macronx_tui::form::Screen;
use macronx_tui::models::Inbox;

fn inbox(id: u64, name: &str) -> Inbox {
    Inbox {
        id,
        name: name.to_string(),
        source: "src".to_string(),
        summary: None,
        payload: serde_json::Value::Null,
        metadata: serde_json::Value::Null,
        created_at: "2026-06-12T20:40:00.000Z".to_string(),
        updated_at: "2026-06-12T20:40:00.000Z".to_string(),
    }
}

fn app_with(n: u64) -> App {
    let mut app = App::new();
    app.load_inboxes(Ok((1..=n).map(|i| inbox(i * 10, "x")).collect()));
    app
}

fn is_nothing(a: &Action) -> bool {
    matches!(a, Action::Nothing)
}

fn type_text(app: &mut App, text: &str) {
    for c in text.chars() {
        assert!(is_nothing(&app.handle_key(Key::Char(c))));
    }
}

#[test]
fn starts_on_an_empty_list() {
    let app = App::new();
    assert_eq!(app.screen, Screen::InboxList);
    assert!(app.inboxes.is_empty());
    assert_eq!(app.selected, 0);
    assert!(app.current_inbox.is_none());
    assert!(app.status.is_none());
    assert!(!app.should_quit);
}

#[test]
fn q_quits_from_the_list() {
    let mut app = App::new();
    app.handle_key(Key::Char('q'));
    assert!(app.should_quit);
    let mut app = App::new();
    app.handle_key(Key::Char('Q'));
    assert!(app.should_quit);
}

#[test]
fn navigation_stays_inside_the_list() {
    let mut app = app_with(3);
    app.handle_key(Key::Char('j'));
    assert_eq!(app.selected, 1);
    app.handle_key(Key::Down);
    app.handle_key(Key::Down);
    assert_eq!(app.selected, 2);
    app.handle_key(Key::Char('k'));
    assert_eq!(app.selected, 1);
    app.handle_key(Key::Up);
    app.handle_key(Key::Up);
    assert_eq!(app.selected, 0);
    app.handle_key(Key::Char('G'));
    assert_eq!(app.selected, 2);
    app.handle_key(Key::Char('g'));
    assert_eq!(app.selected, 0);
}

#[test]
fn navigation_on_an_empty_list_does_nothing() {
    let mut app = App::new();
    app.handle_key(Key::Char('j'));
    app.handle_key(Key::Char('G'));
    assert_eq!(app.selected, 0);
    assert!(is_nothing(&app.handle_key(Key::Enter)));
}

#[test]
fn enter_asks_for_the_selected_inbox() {
    let mut app = app_with(3);
    app.handle_key(Key::Down);
    match app.handle_key(Key::Enter) {
        Action::FetchInbox(id) => assert_eq!(id, 20),
        _ => panic!("expected a fetch"),
    }
    app.show_fetched_inbox(Ok(inbox(20, "second")));
    assert_eq!(app.screen, Screen::InboxShow);
    assert_eq!(app.current_inbox.as_ref().unwrap().name, "second");
}

#[test]
fn fetch_error_is_reported() {
    let mut app = app_with(1);
    app.show_fetched_inbox(Err("Failed to connect to API".to_string()));
    assert_eq!(app.screen, Screen::InboxList);
    assert_eq!(
        app.status,
        Some(("Error loading inbox: Failed to connect to API".to_string(), true))
    );
}

#[test]
fn r_asks_for_the_list_and_a_reload_clamps_the_selection() {
    let mut app = app_with(5);
    app.handle_key(Key::Char('G'));
    assert_eq!(app.selected, 4);
    assert!(matches!(app.handle_key(Key::Char('r')), Action::LoadInboxes));
    app.load_inboxes(Ok(vec![inbox(1, "a"), inbox(2, "b")]));
    assert_eq!(app.selected, 1);
    app.load_inboxes(Ok(Vec::new()));
    assert_eq!(app.selected, 1);
    app.load_inboxes(Ok(vec![inbox(1, "a")]));
    assert_eq!(app.selected, 0);
}

#[test]
fn list_error_keeps_the_list() {
    let mut app = app_with(2);
    app.load_inboxes(Err("API returned 500 Internal Server Error".to_string()));
    assert_eq!(app.inboxes.len(), 2);
    assert_eq!(
        app.status,
        Some(("Error loading inboxes: API returned 500 Internal Server Error".to_string(), true))
    );
}

#[test]
fn show_screen_returns_to_the_list() {
    for key in [Key::Esc, Key::Char('q'), Key::Backspace] {
        let mut app = app_with(1);
        app.show_fetched_inbox(Ok(inbox(10, "x")));
        app.handle_key(Key::Char('x'));
        assert_eq!(app.screen, Screen::InboxShow);
        app.handle_key(key);
        assert_eq!(app.screen, Screen::InboxList);
        assert!(!app.should_quit);
    }
}

#[test]
fn form_typing_and_tab() {
    let mut app = App::new();
    app.handle_key(Key::Char('n'));
    assert_eq!(app.screen, Screen::InboxCreate);
    type_text(&mut app, "ab");
    app.handle_key(Key::Tab);
    type_text(&mut app, "web");
    app.handle_key(Key::BackTab);
    app.handle_key(Key::BackTab);
    assert_eq!(app.form.active_field, 4);
    type_text(&mut app, "q");
    assert_eq!(app.form.name, "ab");
    assert_eq!(app.form.source, "web");
    assert_eq!(app.form.metadata, "q");
    assert_eq!(app.screen, Screen::InboxCreate);
    assert!(!app.should_quit);
}

#[test]
fn backspace_returns_from_the_form() {
    let mut app = App::new();
    app.handle_key(Key::Char('n'));
    type_text(&mut app, "draft");
    assert!(is_nothing(&app.handle_key(Key::Backspace)));
    assert_eq!(app.screen, Screen::InboxList);
    assert_eq!(app.form.name, "");
}

#[test]
fn tab_then_back_tab_undoes_itself() {
    let mut app = App::new();
    app.handle_key(Key::Char('n'));
    type_text(&mut app, "x");
    for start in 0..5 {
        while app.form.active_field != start {
            app.handle_key(Key::Tab);
        }
        app.handle_key(Key::Tab);
        app.handle_key(Key::BackTab);
        assert_eq!(app.form.active_field, start);
        assert_eq!(app.form.name, "x");
        assert_eq!(app.screen, Screen::InboxCreate);
    }
}

#[test]
fn esc_discards_the_form() {
    let mut app = App::new();
    app.handle_key(Key::Char('n'));
    type_text(&mut app, "draft");
    app.handle_key(Key::Esc);
    assert_eq!(app.screen, Screen::InboxList);
    assert_eq!(app.form.name, "");
}

#[test]
fn invalid_payload_stops_the_submit() {
    let mut app = App::new();
    app.handle_key(Key::Char('n'));
    app.form.payload = "{oops".to_string();
    assert!(is_nothing(&app.handle_key(Key::Enter)));
    assert_eq!(app.status, Some(("Payload is not valid JSON".to_string(), true)));
    assert_eq!(app.screen, Screen::InboxCreate);
    app.form.payload = String::new();
    app.form.metadata = "nope".to_string();
    assert!(is_nothing(&app.handle_key(Key::Enter)));
    assert_eq!(app.status, Some(("Metadata is not valid JSON".to_string(), true)));
}

#[test]
fn submit_builds_the_request() {
    let mut app = App::new();
    app.handle_key(Key::Char('n'));
    type_text(&mut app, "Invoice");
    app.handle_key(Key::Tab);
    type_text(&mut app, "mail");
    app.form.payload = "{\"amount\": 3}".to_string();
    match app.handle_key(Key::Enter) {
        Action::CreateInbox(req) => {
            assert_eq!(req.inbox.name, "Invoice");
            assert_eq!(req.inbox.source, "mail");
            assert_eq!(req.inbox.summary, "");
            assert_eq!(req.inbox.payload, "{\"amount\": 3}");
            assert_eq!(req.inbox.metadata, "{}");
        }
        _ => panic!("expected a create request"),
    }
}

#[test]
fn created_inbox_is_shown_and_the_list_reloaded() {
    let mut app = App::new();
    app.handle_key(Key::Char('n'));
    type_text(&mut app, "x");
    let next = app.finish_create(Ok(inbox(7, "new")));
    assert!(matches!(next, Action::LoadInboxes));
    assert_eq!(app.screen, Screen::InboxShow);
    assert_eq!(app.form.name, "");
    assert_eq!(app.current_inbox.as_ref().unwrap().id, 7);
    assert_eq!(app.status, Some(("Inbox created successfully".to_string(), false)));
    app.handle_key(Key::Char('x'));
    assert!(app.status.is_none());
}

#[test]
fn create_error_keeps_the_form() {
    let mut app = App::new();
    app.handle_key(Key::Char('n'));
    type_text(&mut app, "x");
    let next = app.finish_create(Err("API returned 422 Unprocessable Entity: bad".to_string()));
    assert!(is_nothing(&next));
    assert_eq!(app.form.name, "x");
    assert_eq!(app.screen, Screen::InboxCreate);
    assert_eq!(
        app.status,
        Some(("Error creating inbox: API returned 422 Unprocessable Entity: bad".to_string(), true))
    );
    app.handle_key(Key::Char('y'));
    assert!(app.status.is_some());
}
