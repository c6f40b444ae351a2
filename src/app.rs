//! The application state machine: modal flags, the draft of a new item, the
//! list on display, ambient information and the store, with one transition
//! per user action.

use crate::database::{listed_items, DatabaseError, DatabaseManager, StoredRow};
use crate::types::{next_status, pop_char, push_char, ListState, Status, TODOData};
use vstd::prelude::*;

verus! {

/// Longest title a draft accepts, in characters.
pub const TITLE_LIMIT: usize = 50;

/// Longest message a draft accepts, in characters.
pub const MESSAGE_LIMIT: usize = 200;

/// Period of the refresh tick, in milliseconds.
pub const TICK_MS: u64 = 1000;

/// Whether a tick is due after `elapsed_ms` milliseconds since the last one.
pub fn tick_due(elapsed_ms: u64) -> (r: bool)
    ensures
        r == (elapsed_ms >= TICK_MS),
{
    elapsed_ms >= TICK_MS
}

/// How long to wait for input, in milliseconds, so that the wait ends by
/// the next tick.
pub fn poll_timeout_ms(elapsed_ms: u64) -> (r: u64)
    ensures
        r == if elapsed_ms >= TICK_MS {
            0
        } else {
            TICK_MS - elapsed_ms
        },
{
    if elapsed_ms >= TICK_MS {
        0
    } else {
        TICK_MS - elapsed_ms
    }
}

/// The field of the draft that receives typed characters.
#[derive(Debug, Clone, Copy, PartialEq, Eq, Structural)]
pub enum InputField {
    Title,
    Message,
}

/// Current weather at the resolved location, the temperature in whole
/// degrees Celsius.
#[derive(Debug, Clone)]
pub struct WeatherInfo {
    pub name: String,
    pub temp_c: i64,
}

/// A result of the startup lookups, delivered to the state machine.
#[derive(Debug)]
pub enum AsyncUpdate {
    Ip(String),
    Weather(WeatherInfo),
    Error(String),
}

/// Which layer interprets keys; the add form takes precedence over the quit
/// prompt, which takes precedence over the help overlay.
#[derive(Debug, Clone, Copy, PartialEq, Eq, Structural)]
pub enum Mode {
    Normal,
    QuitConfirm,
    Help,
    AddForm,
}

/// A state transition requested by the user.
#[derive(Debug, Clone, Copy, PartialEq, Eq, Structural)]
pub enum KeyAction {
    Ignore,
    SaveDraft,
    DiscardDraft,
    SwitchField,
    DeleteChar,
    InsertChar(char),
    ConfirmQuit,
    CancelQuit,
    CloseHelp,
    AskQuit,
    SelectPrevious,
    SelectNext,
    OpenHelp,
    ToggleSelected,
    OpenDraft,
    DeleteSelected,
}

/// All mutable state of the dashboard that the library owns.
pub struct App {
    pub running: bool,
    pub ip: String,
    pub weather_data: Option<WeatherInfo>,
    pub show_quit_modal: bool,
    pub animation_frame: usize,
    pub list_state: ListState,
    pub show_item: bool,
    pub show_help: bool,
    pub database: DatabaseManager,
    pub show_add_modal: bool,
    pub input_title: String,
    pub input_message: String,
    pub input_cursor_pos: usize,
    pub input_current_field: InputField,
}

/// The state of an `App` as values.
pub struct AppView {
    pub running: bool,
    pub ip: Seq<char>,
    pub weather: Option<WeatherInfo>,
    pub show_quit_modal: bool,
    pub animation_frame: usize,
    pub selected: Option<usize>,
    pub items: Seq<TODOData>,
    pub show_item: bool,
    pub show_help: bool,
    pub connected: bool,
    pub show_add_modal: bool,
    pub title: Seq<char>,
    pub message: Seq<char>,
    pub cursor: usize,
    pub field: InputField,
}

impl View for App {
    type V = AppView;

    open spec fn view(&self) -> AppView {
        AppView {
            running: self.running,
            ip: self.ip@,
            weather: self.weather_data,
            show_quit_modal: self.show_quit_modal,
            animation_frame: self.animation_frame,
            selected: self.list_state.selected,
            items: self.list_state.items@,
            show_item: self.show_item,
            show_help: self.show_help,
            connected: self.database.connected(),
            show_add_modal: self.show_add_modal,
            title: self.input_title@,
            message: self.input_message@,
            cursor: self.input_cursor_pos,
            field: self.input_current_field,
        }
    }
}

/// The layer that interprets keys in a state.
pub open spec fn mode_of(v: AppView) -> Mode {
    if v.show_add_modal {
        Mode::AddForm
    } else if v.show_quit_modal {
        Mode::QuitConfirm
    } else if v.show_help {
        Mode::Help
    } else {
        Mode::Normal
    }
}

/// Well-formed state: the selection points at an item, the animation
/// counter is below 4, and the draft fields are within their limits.
pub open spec fn app_wf(v: AppView) -> bool {
    &&& (v.selected matches Some(i) ==> i < v.items.len())
    &&& v.animation_frame < 4
    &&& v.title.len() <= TITLE_LIMIT
    &&& v.message.len() <= MESSAGE_LIMIT
}

/// The list right after a successful reload: the store's rows in display
/// order, each interpreted, with the first item selected, or nothing selected when there is none.
pub open spec fn freshly_loaded(v: AppView) -> bool {
    &&& exists|rows: Seq<StoredRow>| #[trigger] listed_items(v.items, rows)
    &&& v.selected == if v.items.len() == 0 {
        None::<usize>
    } else {
        Some(0usize)
    }
}

/// The list after a delete and reload: like a fresh load, but the
/// selection stays at index `at`, moved back into range.
pub open spec fn reloaded_after_delete(v: AppView, at: usize) -> bool {
    &&& exists|rows: Seq<StoredRow>| #[trigger] listed_items(v.items, rows)
    &&& v.selected == if v.items.len() == 0 {
        None::<usize>
    } else if at < v.items.len() {
        Some(at)
    } else {
        Some((v.items.len() - 1) as usize)
    }
}

/// `new` differs from `old` at most in its list.
pub open spec fn same_but_list(old: AppView, new: AppView) -> bool {
    new == AppView { selected: new.selected, items: new.items, ..old }
}

/// The draft after it is closed: form hidden, both fields empty, focus on
/// the title.
pub open spec fn draft_closed(v: AppView) -> AppView {
    AppView {
        show_add_modal: false,
        title: Seq::empty(),
        message: Seq::empty(),
        field: InputField::Title,
        ..v
    }
}

/// Length of the focused draft field.
pub open spec fn focused_len(v: AppView) -> nat {
    match v.field {
        InputField::Title => v.title.len(),
        InputField::Message => v.message.len(),
    }
}

/// The state after an action that involves no store, or the part of a
/// store action that does not depend on the store.
pub open spec fn after_local_action(old: AppView, action: KeyAction) -> AppView {
    match action {
        KeyAction::DiscardDraft => draft_closed(old),
        KeyAction::SwitchField => match old.field {
            InputField::Title => AppView {
                field: InputField::Message,
                cursor: old.message.len() as usize,
                ..old
            },
            InputField::Message => AppView {
                field: InputField::Title,
                cursor: old.title.len() as usize,
                ..old
            },
        },
        KeyAction::DeleteChar => match old.field {
            InputField::Title => if old.title.len() == 0 {
                old
            } else {
                AppView {
                    title: old.title.drop_last(),
                    cursor: (old.title.len() - 1) as usize,
                    ..old
                }
            },
            InputField::Message => if old.message.len() == 0 {
                old
            } else {
                AppView {
                    message: old.message.drop_last(),
                    cursor: (old.message.len() - 1) as usize,
                    ..old
                }
            },
        },
        KeyAction::InsertChar(c) => match old.field {
            InputField::Title => if old.title.len() >= TITLE_LIMIT {
                old
            } else {
                AppView {
                    title: old.title.push(c),
                    cursor: (old.title.len() + 1) as usize,
                    ..old
                }
            },
            InputField::Message => if old.message.len() >= MESSAGE_LIMIT {
                old
            } else {
                AppView {
                    message: old.message.push(c),
                    cursor: (old.message.len() + 1) as usize,
                    ..old
                }
            },
        },
        KeyAction::ConfirmQuit => AppView { running: false, ..old },
        KeyAction::CancelQuit => AppView { show_quit_modal: false, ..old },
        KeyAction::CloseHelp => AppView { show_help: false, ..old },
        KeyAction::AskQuit => AppView { show_quit_modal: true, ..old },
        KeyAction::SelectPrevious => AppView {
            selected: crate::types::previous_index(old.selected, old.items.len()),
            ..old
        },
        KeyAction::SelectNext => AppView {
            selected: crate::types::next_index(old.selected, old.items.len()),
            ..old
        },
        KeyAction::OpenHelp => AppView { show_help: true, ..old },
        KeyAction::OpenDraft => AppView {
            show_add_modal: true,
            title: Seq::empty(),
            message: Seq::empty(),
            cursor: 0,
            field: InputField::Title,
            ..old
        },
        _ => old,
    }
}

/// Whether an action calls the store in a state: saving a draft with a
/// title, toggling or deleting with an item selected.
pub open spec fn reaches_store(old: AppView, action: KeyAction) -> bool {
    match action {
        KeyAction::SaveDraft => old.title.len() > 0,
        KeyAction::ToggleSelected => old.selected is Some,
        KeyAction::DeleteSelected => old.selected is Some,
        _ => false,
    }
}

/// How an action changes the state, given whether it succeeded (`ok`).
/// Actions that do not reach the store always succeed. A store action that
/// succeeds replaces the list by a reload; one that fails leaves the list
/// as it was.
pub open spec fn action_outcome(old: AppView, action: KeyAction, new: AppView, ok: bool) -> bool {
    match action {
        KeyAction::SaveDraft => {
            let closed = draft_closed(old);
            if old.title.len() == 0 {
                new == closed && ok
            } else if ok {
                same_but_list(closed, new) && freshly_loaded(new)
            } else {
                new == closed
            }
        },
        KeyAction::ToggleSelected => match old.selected {
            None => new == old && ok,
            Some(_) => if ok {
                same_but_list(old, new) && freshly_loaded(new)
            } else {
                new == old
            },
        },
        KeyAction::DeleteSelected => match old.selected {
            None => new == old && ok,
            Some(i) => if ok {
                same_but_list(old, new) && reloaded_after_delete(new, i)
            } else {
                new == old
            },
        },
        _ => new == after_local_action(old, action) && ok,
    }
}

impl App {
    /// A fresh state over a store, with the list loaded from it (empty when
    /// loading fails).
    pub fn new(database: DatabaseManager) -> (r: App)
        ensures
            app_wf(r@),
            r@.running,
            r@.ip.len() == 0,
            r@.weather is None,
            !r@.show_quit_modal && !r@.show_help && !r@.show_add_modal && !r@.show_item,
            r@.animation_frame == 0,
            r@.title.len() == 0 && r@.message.len() == 0,
            r@.cursor == 0,
            r@.field == InputField::Title,
            r@.connected == database.connected(),
            r@.items.len() == 0 || freshly_loaded(r@),
            r@.items.len() == 0 ==> r@.selected is None,
            !database.connected() ==> r@.items.len() == 0,
    {
        let mut app = App {
            running: true,
            ip: String::new(),
            weather_data: None,
            show_quit_modal: false,
            animation_frame: 0,
            list_state: ListState::new(),
            show_item: false,
            show_help: false,
            database,
            show_add_modal: false,
            input_title: String::new(),
            input_message: String::new(),
            input_cursor_pos: 0,
            input_current_field: InputField::Title,
        };
        let _ = app.load_todos_from_db();
        app
    }

    /// Whether the state is well formed, as every transition requires.
    pub fn is_well_formed(&self) -> (r: bool)
        ensures
            r == app_wf(self@),
    {
        let selection_ok = match self.list_state.selected {
            Some(i) => i < self.list_state.items.len(),
            None => true,
        };
        selection_ok && self.animation_frame < 4 && self.input_title.unicode_len() <= TITLE_LIMIT
            && self.input_message.unicode_len() <= MESSAGE_LIMIT
    }

    /// The layer that interprets keys now.
    pub fn mode(&self) -> (r: Mode)
        ensures
            r == mode_of(self@),
    {
        if self.show_add_modal {
            Mode::AddForm
        } else if self.show_quit_modal {
            Mode::QuitConfirm
        } else if self.show_help {
            Mode::Help
        } else {
            Mode::Normal
        }
    }

    /// Column of the text cursor within the focused draft field: the cursor
    /// position, kept within the field's text.
    pub fn cursor_offset(&self) -> (r: usize)
        ensures
            r == if (self@.cursor as nat) < focused_len(self@) {
                self@.cursor as nat
            } else {
                focused_len(self@)
            },
    {
        let len = match self.input_current_field {
            InputField::Title => self.input_title.unicode_len(),
            InputField::Message => self.input_message.unicode_len(),
        };
        if self.input_cursor_pos < len {
            self.input_cursor_pos
        } else {
            len
        }
    }

    /// Whether the main loop should go on.
    pub fn is_running(&self) -> (r: bool)
        ensures
            r == self@.running,
    {
        self.running
    }

    /// Stops the main loop.
    pub fn request_quit(&mut self)
        ensures
            final(self)@ == (AppView { running: false, ..old(self)@ }),
    {
        self.running = false;
    }

    /// The resolved weather, once known.
    pub fn weather_info(&self) -> (r: Option<&WeatherInfo>)
        ensures
            match self.weather_data {
                Some(w) => r matches Some(x) && *x == w,
                None => r is None,
            },
    {
        match &self.weather_data {
            Some(w) => Some(w),
            None => None,
        }
    }

    /// Applies one result of the startup lookups: an address or a weather
    /// report is recorded, an error changes nothing.
    pub fn handle_update(&mut self, update: AsyncUpdate)
        ensures
            final(self)@ == match update {
                AsyncUpdate::Ip(ip) => AppView { ip: ip@, ..old(self)@ },
                AsyncUpdate::Weather(w) => AppView { weather: Some(w), ..old(self)@ },
                AsyncUpdate::Error(_) => old(self)@,
            },
    {
        match update {
            AsyncUpdate::Ip(ip) => {
                self.ip = ip;
            },
            AsyncUpdate::Weather(w) => {
                self.weather_data = Some(w);
            },
            AsyncUpdate::Error(_) => {},
        }
    }

    /// Advances the loading animation, which counts modulo 4.
    pub fn advance_animation(&mut self)
        requires
            old(self).animation_frame < 4,
        ensures
            final(self)@ == (AppView {
                animation_frame: ((old(self).animation_frame + 1) % 4) as usize,
                ..old(self)@
            }),
    {
        self.animation_frame = (self.animation_frame + 1) % 4;
    }

    /// Replaces the list by the store's items and selects the first one.
    /// On failure nothing changes.
    pub fn load_todos_from_db(&mut self) -> (r: Result<(), DatabaseError>)
        requires
            app_wf(old(self)@),
        ensures
            app_wf(final(self)@),
            r is Err ==> final(self)@ == old(self)@,
            r is Ok ==> same_but_list(old(self)@, final(self)@) && freshly_loaded(final(self)@),
            !old(self)@.connected ==> crate::database::reports_unavailable(r),
            old(self)@.connected ==> (r matches Err(e) ==> e is QueryError),
    {
        match self.database.load_todos() {
            Ok(items) => {
                let empty = items.len() == 0;
                self.list_state.items = items;
                if empty {
                    self.list_state.selected = None;
                } else {
                    self.list_state.selected = Some(0);
                }
                Ok(())
            },
            Err(e) => Err(e),
        }
    }

    /// Stores a new item; see `DatabaseManager::add_todo`.
    pub fn add_todo_to_db(&self, title: &str, message: &str, status: Status) -> (r: Result<
        i64,
        DatabaseError,
    >)
        ensures
            !self@.connected ==> crate::database::reports_unavailable(r),
            self@.connected ==> (r matches Err(e) ==> e is UpdateError),
    {
        self.database.add_todo(title, message, status)
    }

    /// Stores a new status for an item; see
    /// `DatabaseManager::update_todo_status`.
    pub fn update_todo_status_in_db(&mut self, id: i64, status: Status) -> (r: Result<
        (),
        DatabaseError,
    >)
        ensures
            final(self)@ == old(self)@,
            !old(self)@.connected ==> crate::database::reports_unavailable(r),
            old(self)@.connected ==> (r matches Err(e) ==> e is UpdateError),
    {
        self.database.update_todo_status(id, status)
    }

    /// Removes an item from the store; see `DatabaseManager::delete_todo`.
    pub fn delete_todo_from_db(&self, id: i64) -> (r: Result<(), DatabaseError>)
        ensures
            !self@.connected ==> crate::database::reports_unavailable(r),
            self@.connected ==> (r matches Err(e) ==> e is UpdateError),
    {
        self.database.delete_todo(id)
    }
}

impl App {
    /// Hides the draft form and empties both fields.
    fn close_draft(&mut self)
        ensures
            final(self)@ == draft_closed(old(self)@),
    {
        self.show_add_modal = false;
        self.input_title = String::new();
        self.input_message = String::new();
        self.input_current_field = InputField::Title;
    }

    /// What saving the draft hands to the store: its title, its message
    /// and the Todo status; nothing when the title is empty.
    pub fn save_request(&self) -> (r: Option<(String, String, Status)>)
        ensures
            r is None <==> self@.title.len() == 0,
            r matches Some(q) ==> q.0@ == self@.title && q.1@ == self@.message && q.2
                == Status::Todo,
    {
        if self.input_title.unicode_len() == 0 {
            None
        } else {
            Some((self.input_title.clone(), self.input_message.clone(), Status::Todo))
        }
    }

    /// What toggling hands to the store: the selected item's id and the
    /// next status in the cycle; nothing without a selection.
    pub fn toggle_request(&self) -> (r: Option<(i64, Status)>)
        requires
            self.list_state.wf(),
        ensures
            match self@.selected {
                Some(i) => r == Some(
                    (self@.items[i as int].id, next_status(self@.items[i as int].status)),
                ),
                None => r is None,
            },
    {
        match self.list_state.selected {
            Some(i) => {
                let item = &self.list_state.items[i];
                Some((item.id, item.status.next()))
            },
            None => None,
        }
    }

    /// What deleting hands to the store: the selected item's id; nothing
    /// without a selection.
    pub fn delete_request(&self) -> (r: Option<i64>)
        requires
            self.list_state.wf(),
        ensures
            match self@.selected {
                Some(i) => r == Some(self@.items[i as int].id),
                None => r is None,
            },
    {
        match self.list_state.selected {
            Some(i) => Some(self.list_state.items[i].id),
            None => None,
        }
    }

    /// Saves the draft as a new Todo item when its title is not empty,
    /// reloads the list, and closes the draft either way.
    fn save_draft(&mut self) -> (r: Result<(), DatabaseError>)
        requires
            app_wf(old(self)@),
        ensures
            app_wf(final(self)@),
            action_outcome(old(self)@, KeyAction::SaveDraft, final(self)@, r is Ok),
            reaches_store(old(self)@, KeyAction::SaveDraft) && !old(self)@.connected
                ==> crate::database::reports_unavailable(r),
    {
        let mut outcome: Result<(), DatabaseError> = Ok(());
        match self.save_request() {
            Some((title, message, status)) => {
                match self.add_todo_to_db(title.as_str(), message.as_str(), status) {
                    Ok(_) => {
                        outcome = self.load_todos_from_db();
                    },
                    Err(e) => {
                        outcome = Err(e);
                    },
                }
            },
            None => {},
        }
        self.close_draft();
        outcome
    }

    /// Moves the selected item one step along the status cycle in the store
    /// and reloads the list.
    fn toggle_selected(&mut self) -> (r: Result<(), DatabaseError>)
        requires
            app_wf(old(self)@),
        ensures
            app_wf(final(self)@),
            action_outcome(old(self)@, KeyAction::ToggleSelected, final(self)@, r is Ok),
            reaches_store(old(self)@, KeyAction::ToggleSelected) && !old(self)@.connected
                ==> crate::database::reports_unavailable(r),
    {
        match self.toggle_request() {
            Some((id, status)) => match self.update_todo_status_in_db(id, status) {
                Ok(()) => self.load_todos_from_db(),
                Err(e) => Err(e),
            },
            None => Ok(()),
        }
    }

    /// Deletes the selected item from the store, reloads the list and keeps
    /// the selection at the same index, moved back into range.
    fn delete_selected(&mut self) -> (r: Result<(), DatabaseError>)
        requires
            app_wf(old(self)@),
        ensures
            app_wf(final(self)@),
            action_outcome(old(self)@, KeyAction::DeleteSelected, final(self)@, r is Ok),
            reaches_store(old(self)@, KeyAction::DeleteSelected) && !old(self)@.connected
                ==> crate::database::reports_unavailable(r),
    {
        match self.delete_request() {
            Some(id) => match self.delete_todo_from_db(id) {
                Ok(()) => {
                    let i = self.list_state.selected.unwrap();
                    let loaded = self.load_todos_from_db();
                    if loaded.is_ok() {
                        let len = self.list_state.items.len();
                        if len > 0 {
                            if i < len {
                                self.list_state.selected = Some(i);
                            } else {
                                self.list_state.selected = Some(len - 1);
                            }
                        }
                    }
                    loaded
                },
                Err(e) => Err(e),
            },
            None => Ok(()),
        }
    }

    /// Types one character into the focused field, unless it is full.
    fn insert_char(&mut self, c: char)
        requires
            app_wf(old(self)@),
        ensures
            app_wf(final(self)@),
            final(self)@ == after_local_action(old(self)@, KeyAction::InsertChar(c)),
    {
        match self.input_current_field {
            InputField::Title => {
                let len = self.input_title.unicode_len();
                if len < TITLE_LIMIT {
                    push_char(&mut self.input_title, c);
                    self.input_cursor_pos = len + 1;
                }
            },
            InputField::Message => {
                let len = self.input_message.unicode_len();
                if len < MESSAGE_LIMIT {
                    push_char(&mut self.input_message, c);
                    self.input_cursor_pos = len + 1;
                }
            },
        }
    }

    /// Removes the last character of the focused field, if any.
    fn delete_char(&mut self)
        requires
            app_wf(old(self)@),
        ensures
            app_wf(final(self)@),
            final(self)@ == after_local_action(old(self)@, KeyAction::DeleteChar),
    {
        match self.input_current_field {
            InputField::Title => {
                let len = self.input_title.unicode_len();
                if len > 0 {
                    let _ = pop_char(&mut self.input_title);
                    self.input_cursor_pos = len - 1;
                }
            },
            InputField::Message => {
                let len = self.input_message.unicode_len();
                if len > 0 {
                    let _ = pop_char(&mut self.input_message);
                    self.input_cursor_pos = len - 1;
                }
            },
        }
    }

    /// Moves the focus to the other draft field, with the cursor at the end
    /// of its text.
    fn switch_field(&mut self)
        requires
            app_wf(old(self)@),
        ensures
            final(self)@ == after_local_action(old(self)@, KeyAction::SwitchField),
    {
        match self.input_current_field {
            InputField::Title => {
                self.input_cursor_pos = self.input_message.unicode_len();
                self.input_current_field = InputField::Message;
            },
            InputField::Message => {
                self.input_cursor_pos = self.input_title.unicode_len();
                self.input_current_field = InputField::Title;
            },
        }
    }

    /// Performs one user action. A store failure is handed back, for the
    /// caller to report; the state then stays as the action's outcome
    /// describes.
    pub fn apply_action(&mut self, action: KeyAction) -> (r: Result<(), DatabaseError>)
        requires
            app_wf(old(self)@),
        ensures
            app_wf(final(self)@),
            action_outcome(old(self)@, action, final(self)@, r is Ok),
            reaches_store(old(self)@, action) && !old(self)@.connected
                ==> crate::database::reports_unavailable(r),
    {
        match action {
            KeyAction::Ignore => Ok(()),
            KeyAction::SaveDraft => self.save_draft(),
            KeyAction::DiscardDraft => {
                self.close_draft();
                Ok(())
            },
            KeyAction::SwitchField => {
                self.switch_field();
                Ok(())
            },
            KeyAction::DeleteChar => {
                self.delete_char();
                Ok(())
            },
            KeyAction::InsertChar(c) => {
                self.insert_char(c);
                Ok(())
            },
            KeyAction::ConfirmQuit => {
                self.request_quit();
                Ok(())
            },
            KeyAction::CancelQuit => {
                self.show_quit_modal = false;
                Ok(())
            },
            KeyAction::CloseHelp => {
                self.show_help = false;
                Ok(())
            },
            KeyAction::AskQuit => {
                self.show_quit_modal = true;
                Ok(())
            },
            KeyAction::SelectPrevious => {
                self.list_state.previous();
                Ok(())
            },
            KeyAction::SelectNext => {
                self.list_state.next();
                Ok(())
            },
            KeyAction::OpenHelp => {
                self.show_help = true;
                Ok(())
            },
            KeyAction::ToggleSelected => self.toggle_selected(),
            KeyAction::OpenDraft => {
                self.show_add_modal = true;
                self.input_title = String::new();
                self.input_message = String::new();
                self.input_cursor_pos = 0;
                self.input_current_field = InputField::Title;
                Ok(())
            },
            KeyAction::DeleteSelected => self.delete_selected(),
        }
    }
}

} // verus!
