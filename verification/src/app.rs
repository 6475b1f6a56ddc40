//! The client's state and how keys and API replies change it. The functions
//! here decide; the caller performs the `Action` that they return (a request
//! to the API) and hands the reply back to the matching function.

use vstd::prelude::*;
use crate::form::{CreateForm, FormView, Screen, FIELD_COUNT};
use crate::json::{is_json_text, json_field_text, json_text_for};
use crate::models::{CreateInboxBody, CreateInboxRequest, Inbox, RequestView};
use crate::text::{owned, push_char, push_str};

verus! {

/// A key press, as far as the client tells keys apart.
#[derive(Debug, Clone, Copy, PartialEq, Eq, Structural)]
pub enum Key {
    Char(char),
    Up,
    Down,
    Enter,
    Esc,
    Tab,
    BackTab,
    Backspace,
    Other,
}

/// The API request that a transition asks the caller to make.
pub enum Action {
    Nothing,
    /// Fetch the list of inboxes, then call `App::load_inboxes`.
    LoadInboxes,
    /// Fetch the inbox with this id, then call `App::show_fetched_inbox`.
    FetchInbox(u64),
    /// Send this request, then call `App::finish_create`.
    CreateInbox(CreateInboxRequest),
}

/// What an `Action` asks for.
pub enum ActionView {
    Nothing,
    LoadInboxes,
    FetchInbox(u64),
    CreateInbox(RequestView),
}

impl View for Action {
    type V = ActionView;

    open spec fn view(&self) -> ActionView {
        match self {
            Action::Nothing => ActionView::Nothing,
            Action::LoadInboxes => ActionView::LoadInboxes,
            Action::FetchInbox(id) => ActionView::FetchInbox(*id),
            Action::CreateInbox(req) => ActionView::CreateInbox(req@),
        }
    }
}

/// The state of the client.
pub struct App {
    pub screen: Screen,
    pub inboxes: Vec<Inbox>,
    pub selected: usize,
    pub current_inbox: Option<Inbox>,
    pub form: CreateForm,
    /// The message of the status line, and whether it reports an error.
    pub status: Option<(String, bool)>,
    pub should_quit: bool,
}

/// What an `App` holds.
pub struct AppView {
    pub screen: Screen,
    pub inboxes: Seq<Inbox>,
    pub selected: nat,
    pub current_inbox: Option<Inbox>,
    pub form: FormView,
    pub status: Option<(Seq<char>, bool)>,
    pub should_quit: bool,
}

/// The view of a status line.
pub open spec fn status_view(s: Option<(String, bool)>) -> Option<(Seq<char>, bool)> {
    match s {
        Some((m, e)) => Some((m@, e)),
        None => None,
    }
}

impl View for App {
    type V = AppView;

    open spec fn view(&self) -> AppView {
        AppView {
            screen: self.screen,
            inboxes: self.inboxes@,
            selected: self.selected as nat,
            current_inbox: self.current_inbox,
            form: self.form@,
            status: status_view(self.status),
            should_quit: self.should_quit,
        }
    }
}

impl AppView {
    /// The state that the client starts in.
    pub open spec fn initial() -> AppView {
        AppView {
            screen: Screen::InboxList,
            inboxes: Seq::empty(),
            selected: 0,
            current_inbox: None,
            form: FormView::empty(),
            status: None,
            should_quit: false,
        }
    }

    /// What every reachable state keeps: a non-empty list has its selection
    /// inside it, and the active field of the form is one of the five.
    pub open spec fn wf(self) -> bool {
        &&& self.inboxes.len() > 0 ==> self.selected < self.inboxes.len()
        &&& self.form.active_field < 5
    }

    /// The status line set to `msg`.
    pub open spec fn with_status(self, msg: Seq<char>, is_error: bool) -> AppView {
        AppView { status: Some((msg, is_error)), ..self }
    }

    /// The state with no status line.
    pub open spec fn without_status(self) -> AppView {
        AppView { status: None, ..self }
    }

    /// The state with the selection at `i`.
    pub open spec fn select(self, i: nat) -> AppView {
        AppView { selected: i, ..self }
    }

    /// The state showing `screen`, with no status line.
    pub open spec fn go_to(self, screen: Screen) -> AppView {
        AppView { screen: screen, status: None, ..self }
    }

    /// The state with the form `form`.
    pub open spec fn with_form(self, form: FormView) -> AppView {
        AppView { form: form, ..self }
    }

    /// A key press first removes a status line that reports no error.
    pub open spec fn drop_notice(self) -> AppView {
        match self.status {
            Some((_, false)) => self.without_status(),
            _ => self,
        }
    }

    /// The index of the last inbox of a non-empty list.
    pub open spec fn last_index(self) -> nat {
        (self.inboxes.len() - 1) as nat
    }
}

/// Whether `key` is the character `c`.
pub open spec fn is_char(key: Key, c: char) -> bool {
    key == Key::Char(c)
}

/// Opening the selected inbox: fetch it, when there is one.
pub open spec fn open_selected(v: AppView) -> (AppView, ActionView) {
    if v.inboxes.len() == 0 {
        (v, ActionView::Nothing)
    } else {
        (v, ActionView::FetchInbox(v.inboxes[v.selected as int].id))
    }
}

/// A key on the list screen.
pub open spec fn list_key(v: AppView, key: Key) -> (AppView, ActionView) {
    if is_char(key, 'q') || is_char(key, 'Q') {
        (AppView { should_quit: true, ..v }, ActionView::Nothing)
    } else if is_char(key, 'j') || key == Key::Down {
        if v.inboxes.len() > 0 {
            (v.select(if v.selected + 1 <= v.last_index() { v.selected + 1 } else { v.last_index() }), ActionView::Nothing)
        } else {
            (v, ActionView::Nothing)
        }
    } else if is_char(key, 'k') || key == Key::Up {
        (v.select(if v.selected > 0 { (v.selected - 1) as nat } else { 0 }), ActionView::Nothing)
    } else if is_char(key, 'g') {
        (v.select(0), ActionView::Nothing)
    } else if is_char(key, 'G') {
        if v.inboxes.len() > 0 {
            (v.select(v.last_index()), ActionView::Nothing)
        } else {
            (v, ActionView::Nothing)
        }
    } else if key == Key::Enter {
        open_selected(v)
    } else if is_char(key, 'n') {
        (v.with_form(FormView::empty()).go_to(Screen::InboxCreate), ActionView::Nothing)
    } else if is_char(key, 'r') {
        (v, ActionView::LoadInboxes)
    } else {
        (v, ActionView::Nothing)
    }
}

/// A key on the screen that shows one inbox: Esc, `q` and Backspace return
/// to the list.
pub open spec fn show_key(v: AppView, key: Key) -> AppView {
    if key == Key::Esc || is_char(key, 'q') || key == Key::Backspace {
        v.go_to(Screen::InboxList)
    } else {
        v
    }
}

/// Submitting the create form: the request, or the error that stops it.
pub open spec fn submit(v: AppView) -> (AppView, ActionView) {
    let payload = json_field_text(v.form.payload, is_json_text(v.form.payload));
    let metadata = json_field_text(v.form.metadata, is_json_text(v.form.metadata));
    if payload is None {
        (v.with_status("Payload is not valid JSON"@, true), ActionView::Nothing)
    } else if metadata is None {
        (v.with_status("Metadata is not valid JSON"@, true), ActionView::Nothing)
    } else {
        (
            v,
            ActionView::CreateInbox(
                RequestView {
                    name: v.form.name,
                    source: v.form.source,
                    summary: v.form.summary,
                    payload: payload->0,
                    metadata: metadata->0,
                },
            ),
        )
    }
}

/// A key on the create form: Esc and Backspace discard the form and return
/// to the list, Tab and Shift+Tab move between fields, Enter submits, and
/// other characters are typed into the active field.
pub open spec fn create_key(v: AppView, key: Key) -> (AppView, ActionView) {
    let f = v.form;
    let a = f.active_field;
    if key == Key::Esc || key == Key::Backspace {
        (v.with_form(FormView::empty()).go_to(Screen::InboxList), ActionView::Nothing)
    } else if key == Key::Tab {
        (v.with_form(f.with_active(f.next_active())), ActionView::Nothing)
    } else if key == Key::BackTab {
        (v.with_form(f.with_active(f.prev_active())), ActionView::Nothing)
    } else if key == Key::Enter {
        submit(v)
    } else if key is Char {
        (v.with_form(f.with_value(a, f.value(a).push(key->Char_0))), ActionView::Nothing)
    } else {
        (v, ActionView::Nothing)
    }
}

/// The next state and the request to make after `key` is pressed.
pub open spec fn step(v: AppView, key: Key) -> (AppView, ActionView) {
    let v1 = v.drop_notice();
    match v1.screen {
        Screen::InboxList => list_key(v1, key),
        Screen::InboxShow => (show_key(v1, key), ActionView::Nothing),
        Screen::InboxCreate => create_key(v1, key),
    }
}

/// The state after the inbox list was fetched, or failed to be.
pub open spec fn inboxes_loaded(v: AppView, fetched: Result<Seq<Inbox>, Seq<char>>) -> AppView {
    match fetched {
        Ok(list) => {
            let sel = if v.selected >= list.len() && list.len() > 0 {
                (list.len() - 1) as nat
            } else {
                v.selected
            };
            AppView { inboxes: list, selected: sel, status: None, ..v }
        },
        Err(e) => v.with_status("Error loading inboxes: "@ + e, true),
    }
}

/// The state after one inbox was fetched, or failed to be.
pub open spec fn inbox_fetched(v: AppView, fetched: Result<Inbox, Seq<char>>) -> AppView {
    match fetched {
        Ok(inbox) => AppView { current_inbox: Some(inbox), ..v }.go_to(Screen::InboxShow),
        Err(e) => v.with_status("Error loading inbox: "@ + e, true),
    }
}

/// The state and the next request after an inbox was created, or failed to
/// be.
pub open spec fn inbox_created(v: AppView, created: Result<Inbox, Seq<char>>) -> (AppView, ActionView) {
    match created {
        Ok(inbox) => (
            AppView {
                form: FormView::empty(),
                current_inbox: Some(inbox),
                screen: Screen::InboxShow,
                status: Some(("Inbox created successfully"@, false)),
                ..v
            },
            ActionView::LoadInboxes,
        ),
        Err(e) => (v.with_status("Error creating inbox: "@ + e, true), ActionView::Nothing),
    }
}

/// The start state keeps the invariant, and so does every key press and
/// every API reply.
pub proof fn law_every_transition_keeps_wf(
    v: AppView,
    key: Key,
    list: Result<Seq<Inbox>, Seq<char>>,
    one: Result<Inbox, Seq<char>>,
)
    requires
        v.wf(),
    ensures
        AppView::initial().wf(),
        step(v, key).0.wf(),
        inboxes_loaded(v, list).wf(),
        inbox_fetched(v, one).wf(),
        inbox_created(v, one).0.wf(),
{
}

/// A key press leaves no status line that reports success: such a line lasts
/// until the next key.
pub proof fn law_key_clears_notice(v: AppView, key: Key)
    ensures
        step(v, key).0.status matches Some((_, is_error)) ==> is_error,
{
}

/// Only the list screen (Enter, `r`) and the form (Enter) ask for a request;
/// the screen that shows an inbox never does.
pub proof fn law_show_screen_asks_nothing(v: AppView, key: Key)
    requires
        v.screen == Screen::InboxShow,
    ensures
        step(v, key).1 == ActionView::Nothing,
        step(v, key).0.inboxes == v.inboxes,
        step(v, key).0.form == v.form,
{
}

/// On the list, Down then Up returns to the same inbox, unless the last one
/// was selected.
pub proof fn law_down_then_up(v: AppView)
    requires
        v.wf(),
        v.screen == Screen::InboxList,
        v.selected + 1 < v.inboxes.len(),
    ensures
        step(step(v, Key::Down).0, Key::Up).0 == v.drop_notice(),
{
}

/// `g` selects the first inbox and `G` the last; Down never leaves the list.
pub proof fn law_first_and_last(v: AppView)
    requires
        v.wf(),
        v.screen == Screen::InboxList,
        v.inboxes.len() > 0,
    ensures
        step(v, Key::Char('g')).0.selected == 0,
        step(v, Key::Char('G')).0.selected == v.inboxes.len() - 1,
        step(v, Key::Down).0.selected < v.inboxes.len(),
        step(v, Key::Char('G')).0 == step(step(v, Key::Char('G')).0, Key::Down).0,
{
}

/// On the form, typing a character adds it at the end of the active field
/// and changes nothing else.
pub proof fn law_typing_appends(v: AppView, c: char)
    requires
        v.wf(),
        v.screen == Screen::InboxCreate,
    ensures
        ({
            let (w, act) = step(v, Key::Char(c));
            let f = v.form;
            &&& w == v.drop_notice().with_form(f.with_value(f.active_field, f.value(f.active_field).push(c)))
            &&& w.form.value(f.active_field) == f.value(f.active_field).push(c)
            &&& act == ActionView::Nothing
        }),
{
}

/// On the form, Tab then Shift+Tab returns to the same field.
pub proof fn law_tab_then_back_tab_on_form(v: AppView)
    requires
        v.wf(),
        v.screen == Screen::InboxCreate,
    ensures
        step(step(v, Key::Tab).0, Key::BackTab).0 == v.drop_notice(),
{
}

/// Esc or Backspace on the form discards what was typed and returns to the
/// list; on the screen that shows an inbox, Esc, `q` and Backspace return to
/// the list with no status line and leave the rest of the state as it was.
pub proof fn law_return_keys(v: AppView, key: Key)
    requires
        key == Key::Esc || key == Key::Backspace,
    ensures
        v.screen == Screen::InboxCreate ==> step(v, key).0.form == FormView::empty(),
        v.screen == Screen::InboxCreate ==> step(v, key).0.screen == Screen::InboxList,
        v.screen == Screen::InboxShow ==> step(v, key).0 == v.go_to(Screen::InboxList),
        v.screen == Screen::InboxShow ==> step(v, Key::Char('q')).0 == v.go_to(Screen::InboxList),
        step(v, key).1 == ActionView::Nothing,
{
}

/// Tab then Shift+Tab on the form's key handler gives back the same state.
pub proof fn law_create_key_tab_then_back_tab(v: AppView)
    requires
        v.wf(),
    ensures
        create_key(create_key(v, Key::Tab).0, Key::BackTab).0 == v,
        create_key(v, Key::Tab).1 == ActionView::Nothing,
        create_key(create_key(v, Key::Tab).0, Key::BackTab).1 == ActionView::Nothing,
{
}

/// Submitting asks to create an inbox exactly when each JSON field parses or
/// is blank; the request carries the form's text, with `{}` for a blank JSON
/// field that does not parse; otherwise the form stays and an error shows.
pub proof fn law_submit_sends_valid_json(v: AppView)
    requires
        v.screen == Screen::InboxCreate,
    ensures
        ({
            let (w, act) = step(v, Key::Enter);
            let f = v.form;
            let p_ok = is_json_text(f.payload) || crate::json::is_blank(f.payload);
            let m_ok = is_json_text(f.metadata) || crate::json::is_blank(f.metadata);
            &&& (act is CreateInbox <==> p_ok && m_ok)
            &&& act matches ActionView::CreateInbox(req) ==> {
                &&& req.name == f.name
                &&& req.source == f.source
                &&& req.summary == f.summary
                &&& req.payload == (if is_json_text(f.payload) { f.payload } else { "{}"@ })
                &&& req.metadata == (if is_json_text(f.metadata) { f.metadata } else { "{}"@ })
            }
            &&& !(p_ok && m_ok) ==> w.form == f && w.status matches Some((_, true))
        }),
{
}

/// A created inbox is shown, the form is emptied, and the list is asked for
/// again.
pub proof fn law_created_inbox_is_shown(v: AppView, inbox: Inbox)
    ensures
        inbox_created(v, Ok(inbox)).0.current_inbox == Some(inbox),
        inbox_created(v, Ok(inbox)).0.screen == Screen::InboxShow,
        inbox_created(v, Ok(inbox)).0.form == FormView::empty(),
        inbox_created(v, Ok(inbox)).1 == ActionView::LoadInboxes,
{
}

/// A failed request leaves everything but the status line as it was, and the
/// status line reports the error with the reason appended.
pub proof fn law_failures_only_report(v: AppView, e: Seq<char>)
    ensures
        inboxes_loaded(v, Err(e)) == v.with_status("Error loading inboxes: "@ + e, true),
        inbox_fetched(v, Err(e)) == v.with_status("Error loading inbox: "@ + e, true),
        inbox_created(v, Err(e)) == (v.with_status("Error creating inbox: "@ + e, true), ActionView::Nothing),
{
}

/// A successful fetch shows the inbox that was fetched, whatever was shown
/// before, and changes nothing but the screen, the shown inbox and the status
/// line.
pub proof fn law_fetch_shows_fetched_inbox(v: AppView, i: Inbox)
    ensures
        inbox_fetched(v, Ok(i)).current_inbox == Some(i),
        inbox_fetched(v, Ok(i)).screen == Screen::InboxShow,
        inbox_fetched(v, Ok(i)).status is None,
        inbox_fetched(v, Ok(i)).inboxes == v.inboxes,
        inbox_fetched(v, Ok(i)).selected == v.selected,
        inbox_fetched(v, Ok(i)).form == v.form,
        inbox_fetched(v, Ok(i)).should_quit == v.should_quit,
{
}

/// A loaded list is kept as the API sent it, in its order; the selection
/// stays where it was when it is still inside the list, and moves to the last
/// inbox otherwise; nothing else but the status line changes.
pub proof fn law_load_keeps_the_fetched_list(v: AppView, list: Seq<Inbox>)
    ensures
        inboxes_loaded(v, Ok(list)).inboxes == list,
        forall|k: int| 0 <= k < list.len() ==> #[trigger] inboxes_loaded(v, Ok(list)).inboxes[k] == list[k],
        v.selected < list.len() ==> inboxes_loaded(v, Ok(list)).selected == v.selected,
        v.selected >= list.len() && list.len() > 0 ==> inboxes_loaded(v, Ok(list)).selected == list.len() - 1,
        list.len() == 0 ==> inboxes_loaded(v, Ok(list)).selected == v.selected,
        inboxes_loaded(v, Ok(list)).status is None,
        inboxes_loaded(v, Ok(list)).screen == v.screen,
        inboxes_loaded(v, Ok(list)).current_inbox == v.current_inbox,
        inboxes_loaded(v, Ok(list)).form == v.form,
        inboxes_loaded(v, Ok(list)).should_quit == v.should_quit,
{
}

/// Only `q` or `Q` on the list ends the program: every other key on every
/// screen, and every API reply, leaves `should_quit` as it was.
pub proof fn law_only_q_on_the_list_quits(
    v: AppView,
    key: Key,
    list: Result<Seq<Inbox>, Seq<char>>,
    one: Result<Inbox, Seq<char>>,
)
    ensures
        v.screen == Screen::InboxList && (key == Key::Char('q') || key == Key::Char('Q'))
            ==> step(v, key).0.should_quit,
        !(v.screen == Screen::InboxList && (key == Key::Char('q') || key == Key::Char('Q')))
            ==> step(v, key).0.should_quit == v.should_quit,
        inboxes_loaded(v, list).should_quit == v.should_quit,
        inbox_fetched(v, one).should_quit == v.should_quit,
        inbox_created(v, one).0.should_quit == v.should_quit,
{
}

/// Submitting the form leaves what was typed in it, and stays on the form:
/// only a successful create, Esc or Backspace empties it. A refused create
/// leaves the form too.
pub proof fn law_submit_keeps_the_form(v: AppView, e: Seq<char>)
    requires
        v.screen == Screen::InboxCreate,
    ensures
        step(v, Key::Enter).0.form == v.form,
        step(v, Key::Enter).0.screen == Screen::InboxCreate,
        step(v, Key::Enter).0.inboxes == v.inboxes,
        step(v, Key::Enter).0.current_inbox == v.current_inbox,
        inbox_created(v, Err(e)).0.form == v.form,
        inbox_created(v, Err(e)).0.screen == v.screen,
{
}

/// On the list, no key changes the list or the shown inbox; only `n` changes
/// the screen or the form; the selection moves by at most one on j, k, Up and
/// Down, down on j and Down, up on k and Up.
pub proof fn law_list_keys_change_little(v: AppView, key: Key)
    requires
        v.wf(),
        v.screen == Screen::InboxList,
    ensures
        step(v, key).0.inboxes == v.inboxes,
        step(v, key).0.current_inbox == v.current_inbox,
        key != Key::Char('n') ==> step(v, key).0.screen == Screen::InboxList,
        key != Key::Char('n') ==> step(v, key).0.form == v.form,
        (key == Key::Char('j') || key == Key::Down) ==> v.selected <= step(v, key).0.selected <= v.selected + 1,
        (key == Key::Char('k') || key == Key::Up) ==> step(v, key).0.selected <= v.selected
            && v.selected <= step(v, key).0.selected + 1,
{
}

/// Requests come only from the keys that ask for them: Enter on a non-empty
/// list asks for the selected inbox by its id, `r` on the list asks for the
/// list, Enter on the form asks to create an inbox; no other key asks for
/// anything.
pub proof fn law_requests_come_from_their_keys(v: AppView, key: Key)
    requires
        v.wf(),
    ensures
        step(v, key).1 matches ActionView::FetchInbox(id) ==> v.screen == Screen::InboxList
            && key == Key::Enter && v.inboxes.len() > 0 && id == v.inboxes[v.selected as int].id,
        v.screen == Screen::InboxList && key == Key::Enter && v.inboxes.len() > 0
            ==> step(v, key).1 == ActionView::FetchInbox(v.inboxes[v.selected as int].id),
        step(v, key).1 is LoadInboxes <==> v.screen == Screen::InboxList && key == Key::Char('r'),
        step(v, key).1 is CreateInbox ==> v.screen == Screen::InboxCreate && key == Key::Enter,
{
}

/// On the form, Tab makes the next field active (the first after the last)
/// and Shift+Tab the previous one (the last before the first); neither
/// changes what was typed, the screen or the status line.
pub proof fn law_tab_moves_one_field(v: AppView)
    requires
        v.wf(),
        v.screen == Screen::InboxCreate,
    ensures
        step(v, Key::Tab).0.form.active_field == (if v.form.active_field == 4 { 0 } else { v.form.active_field + 1 }),
        step(v, Key::BackTab).0.form.active_field == (if v.form.active_field == 0 { 4 } else { v.form.active_field - 1 }),
        forall|i: nat| i < 5 ==> #[trigger] step(v, Key::Tab).0.form.value(i) == v.form.value(i),
        forall|i: nat| i < 5 ==> #[trigger] step(v, Key::BackTab).0.form.value(i) == v.form.value(i),
        step(v, Key::Tab).0.screen == Screen::InboxCreate,
        step(v, Key::BackTab).0.screen == Screen::InboxCreate,
        step(v, Key::Tab).0.status == v.drop_notice().status,
        step(v, Key::BackTab).0.status == v.drop_notice().status,
{
}

/// `n` on the list opens an empty form on the first field.
pub proof fn law_n_opens_an_empty_form(v: AppView)
    requires
        v.screen == Screen::InboxList,
    ensures
        step(v, Key::Char('n')).0.screen == Screen::InboxCreate,
        step(v, Key::Char('n')).0.form == FormView::empty(),
        step(v, Key::Char('n')).0.status is None,
        step(v, Key::Char('n')).1 == ActionView::Nothing,
{
}

/// An error on the status line stays through key presses that leave the
/// screen as it is, until a key that changes screens clears it.
pub proof fn law_errors_stay_until_the_screen_changes(v: AppView, key: Key, msg: Seq<char>)
    requires
        v.status == Some((msg, true)),
    ensures
        step(v, key).0.screen == v.screen && !(v.screen == Screen::InboxCreate && key == Key::Enter)
            ==> step(v, key).0.status == v.status,
        step(v, key).0.screen != v.screen ==> step(v, key).0.status is None,
{
}

/// On the screen that shows an inbox, keys other than Esc, `q` and Backspace
/// change nothing but a success notice on the status line.
pub proof fn law_other_keys_leave_the_inbox_screen(v: AppView, key: Key)
    requires
        v.screen == Screen::InboxShow,
        key != Key::Esc,
        key != Key::Char('q'),
        key != Key::Backspace,
    ensures
        step(v, key).0 == v.drop_notice(),
{
}

/// A created inbox leaves the list as it was and reports success.
pub proof fn law_create_reports_success(v: AppView, i: Inbox)
    ensures
        inbox_created(v, Ok(i)).0.inboxes == v.inboxes,
        inbox_created(v, Ok(i)).0.selected == v.selected,
        inbox_created(v, Ok(i)).0.status == Some(("Inbox created successfully"@, false)),
{
}

/// The view of a fetched list of inboxes, or of the error.
pub open spec fn list_result_view(r: Result<Vec<Inbox>, String>) -> Result<Seq<Inbox>, Seq<char>> {
    match r {
        Ok(v) => Ok(v@),
        Err(e) => Err(e@),
    }
}

/// The view of a fetched inbox, or of the error.
pub open spec fn inbox_result_view(r: Result<Inbox, String>) -> Result<Inbox, Seq<char>> {
    match r {
        Ok(i) => Ok(i),
        Err(e) => Err(e@),
    }
}

/// `prefix` followed by `detail`.
fn message(prefix: &str, detail: &String) -> (r: String)
    ensures
        r@ == prefix@ + detail@,
{
    let mut m = owned(prefix);
    push_str(&mut m, detail.as_str());
    m
}

impl App {
    /// The client as it starts: the empty list screen.
    pub fn new() -> (r: App)
        ensures
            r@ == AppView::initial(),
            r@.wf(),
    {
        App {
            screen: Screen::InboxList,
            inboxes: Vec::new(),
            selected: 0,
            current_inbox: None,
            form: CreateForm::default(),
            status: None,
            should_quit: false,
        }
    }

    /// Takes in the fetched list of inboxes, or reports why it failed.
    pub fn load_inboxes(&mut self, fetched: Result<Vec<Inbox>, String>)
        requires
            old(self)@.wf(),
        ensures
            final(self)@ == inboxes_loaded(old(self)@, list_result_view(fetched)),
            final(self)@.wf(),
    {
        match fetched {
            Ok(inboxes) => {
                self.inboxes = inboxes;
                if self.selected >= self.inboxes.len() && self.inboxes.len() > 0 {
                    self.selected = self.inboxes.len() - 1;
                }
                self.status = None;
            },
            Err(e) => {
                self.status = Some((message("Error loading inboxes: ", &e), true));
            },
        }
    }

    /// Asks for the selected inbox, when the list is not empty.
    pub fn open_selected_inbox(&self) -> (action: Action)
        requires
            self@.wf(),
        ensures
            (self@, action@) == open_selected(self@),
    {
        if self.inboxes.len() == 0 {
            return Action::Nothing;
        }
        Action::FetchInbox(self.inboxes[self.selected].id)
    }

    /// Shows the fetched inbox, or reports why it could not be fetched.
    pub fn show_fetched_inbox(&mut self, fetched: Result<Inbox, String>)
        requires
            old(self)@.wf(),
        ensures
            final(self)@ == inbox_fetched(old(self)@, inbox_result_view(fetched)),
            final(self)@.wf(),
    {
        match fetched {
            Ok(inbox) => {
                self.current_inbox = Some(inbox);
                self.screen = Screen::InboxShow;
                self.status = None;
            },
            Err(e) => {
                self.status = Some((message("Error loading inbox: ", &e), true));
            },
        }
    }

    /// Builds the create request from the form, or reports the field whose
    /// JSON is not valid.
    pub fn submit_create_form(&mut self) -> (action: Action)
        requires
            old(self)@.wf(),
        ensures
            (final(self)@, action@) == submit(old(self)@),
            final(self)@.wf(),
    {
        let payload = match json_text_for(self.form.payload.as_str()) {
            Some(t) => t,
            None => {
                self.status = Some((owned("Payload is not valid JSON"), true));
                return Action::Nothing;
            },
        };
        let metadata = match json_text_for(self.form.metadata.as_str()) {
            Some(t) => t,
            None => {
                self.status = Some((owned("Metadata is not valid JSON"), true));
                return Action::Nothing;
            },
        };
        Action::CreateInbox(
            CreateInboxRequest {
                inbox: CreateInboxBody {
                    name: self.form.name.clone(),
                    source: self.form.source.clone(),
                    summary: self.form.summary.clone(),
                    payload: payload,
                    metadata: metadata,
                },
            },
        )
    }

    /// Shows the created inbox and asks for the list again, or reports why
    /// the inbox could not be created.
    pub fn finish_create(&mut self, created: Result<Inbox, String>) -> (action: Action)
        requires
            old(self)@.wf(),
        ensures
            (final(self)@, action@) == inbox_created(old(self)@, inbox_result_view(created)),
            final(self)@.wf(),
    {
        match created {
            Ok(inbox) => {
                self.form.clear();
                self.current_inbox = Some(inbox);
                self.screen = Screen::InboxShow;
                self.status = Some((owned("Inbox created successfully"), false));
                Action::LoadInboxes
            },
            Err(e) => {
                self.status = Some((message("Error creating inbox: ", &e), true));
                Action::Nothing
            },
        }
    }

    /// Reacts to a key press.
    pub fn handle_key(&mut self, key: Key) -> (action: Action)
        requires
            old(self)@.wf(),
        ensures
            (final(self)@, action@) == step(old(self)@, key),
            final(self)@.wf(),
    {
        let notice = match &self.status {
            Some((_, is_error)) => !*is_error,
            None => false,
        };
        if notice {
            self.status = None;
        }
        match self.screen {
            Screen::InboxList => self.handle_list_key(key),
            Screen::InboxShow => {
                self.handle_show_key(key);
                Action::Nothing
            },
            Screen::InboxCreate => self.handle_create_key(key),
        }
    }

    fn handle_list_key(&mut self, key: Key) -> (action: Action)
        requires
            old(self)@.wf(),
        ensures
            (final(self)@, action@) == list_key(old(self)@, key),
            final(self)@.wf(),
    {
        match key {
            Key::Char('q') | Key::Char('Q') => {
                self.should_quit = true;
                Action::Nothing
            },
            Key::Char('j') | Key::Down => {
                if self.inboxes.len() > 0 {
                    let last = self.inboxes.len() - 1;
                    self.selected = if self.selected + 1 <= last { self.selected + 1 } else { last };
                }
                Action::Nothing
            },
            Key::Char('k') | Key::Up => {
                self.selected = self.selected.saturating_sub(1);
                Action::Nothing
            },
            Key::Char('g') => {
                self.selected = 0;
                Action::Nothing
            },
            Key::Char('G') => {
                if self.inboxes.len() > 0 {
                    self.selected = self.inboxes.len() - 1;
                }
                Action::Nothing
            },
            Key::Enter => self.open_selected_inbox(),
            Key::Char('n') => {
                self.form.clear();
                self.screen = Screen::InboxCreate;
                self.status = None;
                Action::Nothing
            },
            Key::Char('r') => Action::LoadInboxes,
            _ => Action::Nothing,
        }
    }

    fn handle_show_key(&mut self, key: Key)
        requires
            old(self)@.wf(),
        ensures
            final(self)@ == show_key(old(self)@, key),
            final(self)@.wf(),
    {
        match key {
            Key::Esc | Key::Char('q') | Key::Backspace => {
                self.screen = Screen::InboxList;
                self.status = None;
            },
            _ => {},
        }
    }

    fn handle_create_key(&mut self, key: Key) -> (action: Action)
        requires
            old(self)@.wf(),
        ensures
            (final(self)@, action@) == create_key(old(self)@, key),
            final(self)@.wf(),
    {
        match key {
            Key::Esc | Key::Backspace => {
                self.form.clear();
                self.screen = Screen::InboxList;
                self.status = None;
                Action::Nothing
            },
            Key::Tab => {
                self.form.next_field();
                Action::Nothing
            },
            Key::BackTab => {
                self.form.prev_field();
                Action::Nothing
            },
            Key::Enter => self.submit_create_form(),
            Key::Char(c) => {
                push_char(self.form.active_value_mut(), c);
                Action::Nothing
            },
            _ => Action::Nothing,
        }
    }
}

} // verus!
