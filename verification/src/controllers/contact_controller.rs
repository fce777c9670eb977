//! The contacts screen: a list of people, and a form to add, change, show
//! and delete one of them.
//!
//! The screen is a state machine. `ContactCtrlView` is its state as a plain
//! value, and the spec functions on it say what each key does. A step that
//! asks the storage takes the storage's answer as an argument there, so the
//! step itself is exact; the function that makes the call promises that the
//! state it leaves is that step for the answer it got.

use crate::app::AppState;
use crate::controllers::next_index;
use crate::controllers::previous_index;
use crate::controllers::spec_next;
use crate::controllers::spec_next_field;
use crate::controllers::spec_previous;
use crate::controllers::next_field;
use crate::controllers::CtrObj;
use crate::controllers::CtrlActions;
use crate::controllers::Key;
use crate::error::DbError;
use crate::models::answer_view;
use crate::models::answers_view;
use crate::models::person::Person;
use crate::models::person::PersonView;
use crate::models::DbObj;
use crate::text::pop_char;
use crate::text::push_char;
use rusqlite::Connection;
use vstd::prelude::*;

verus! {

/// The number of fields that the contact form edits.
pub const CONTACT_FORM_FIELDS: u32 = 3;

/// The state of the contacts screen.
#[derive(Debug)]
pub struct ContactCtrl {
    /// The working copy: the contact that is edited, shown or about to go.
    pub table: Person,
    pub action: CtrlActions,
    pub active_item: usize,
    /// The form field that typing goes to, counted from 0.
    pub field_idx: u32,
    /// The text typed so far into that field.
    pub input: String,
    /// The selected row of the list, if one is selected.
    pub t_state: Option<usize>,
    /// How many rows the list had when it was last read.
    pub record_count: usize,
    /// Why the last key could not do its work, if it could not.
    pub notice: Option<DbError>,
}

/// The state of the contacts screen as a plain value.
pub struct ContactCtrlView {
    pub table: PersonView,
    pub action: CtrlActions,
    pub active_item: usize,
    pub field_idx: u32,
    pub input: Seq<char>,
    pub t_state: Option<usize>,
    pub record_count: usize,
    pub notice: Option<DbError>,
}

impl View for ContactCtrl {
    type V = ContactCtrlView;

    open spec fn view(&self) -> ContactCtrlView {
        ContactCtrlView {
            table: self.table@,
            action: self.action,
            active_item: self.active_item,
            field_idx: self.field_idx,
            input: self.input@,
            t_state: self.t_state,
            record_count: self.record_count,
            notice: self.notice,
        }
    }
}

impl ContactCtrlView {
    /// The contact that is not stored yet.
    pub open spec fn blank() -> PersonView {
        PersonView { id: 0, first_name: Seq::empty(), last_name: Seq::empty(), email: Seq::empty() }
    }

    /// The screen as it starts: the list, nothing selected, nothing typed.
    pub open spec fn initial() -> Self {
        ContactCtrlView {
            table: Self::blank(),
            action: CtrlActions::List,
            active_item: 0,
            field_idx: 0,
            input: Seq::empty(),
            t_state: None,
            record_count: 0,
            notice: None,
        }
    }

    /// Back to the list, dropping what was typed.
    pub open spec fn go_back(self) -> Self {
        ContactCtrlView { input: Seq::empty(), field_idx: 0, action: CtrlActions::List, ..self }
    }

    /// The typed text written into the field that `field_idx` addresses.
    pub open spec fn update_field(self) -> Self {
        if self.field_idx == 0 {
            ContactCtrlView { table: PersonView { first_name: self.input, ..self.table }, ..self }
        } else if self.field_idx == 1 {
            ContactCtrlView { table: PersonView { last_name: self.input, ..self.table }, ..self }
        } else if self.field_idx == 2 {
            ContactCtrlView { table: PersonView { email: self.input, ..self.table }, ..self }
        } else {
            self
        }
    }

    /// What the field at `idx` holds.
    pub open spec fn field_text(self, idx: u32) -> Seq<char> {
        if idx == 0 {
            self.table.first_name
        } else if idx == 1 {
            self.table.last_name
        } else if idx == 2 {
            self.table.email
        } else {
            Seq::empty()
        }
    }

    /// While editing: on to the next field, the first one after the last,
    /// with that field's text as the typed text. Elsewhere: nothing.
    pub open spec fn set_next_active(self) -> Self {
        if self.action == CtrlActions::Edit {
            let idx = spec_next_field(self.field_idx, CONTACT_FORM_FIELDS);
            ContactCtrlView { field_idx: idx, input: self.field_text(idx), ..self }
        } else {
            self
        }
    }

    pub open spec fn previous_row(self) -> Self {
        ContactCtrlView { t_state: spec_previous(self.t_state, self.record_count), ..self }
    }

    pub open spec fn next_row(self) -> Self {
        ContactCtrlView { t_state: spec_next(self.t_state, self.record_count), ..self }
    }

    /// The state after the storage was asked for the list: the number of rows
    /// is taken from an answer that has rows, a failure changes nothing.
    pub open spec fn listed(self, found: Result<Seq<PersonView>, DbError>) -> Self {
        match found {
            Ok(rows) => ContactCtrlView { record_count: rows.len() as usize, ..self },
            Err(_) => self,
        }
    }

    /// The state after the selected row was loaded from a fresh list. With no
    /// row selected the storage is not asked and `InvalidSelection` is noted.
    /// A failed listing is noted. A selection behind the last row is noted as
    /// `InvalidSelection`. Otherwise the row becomes the working copy.
    pub open spec fn selected_from(self, found: Result<Seq<PersonView>, DbError>) -> Self {
        match self.t_state {
            None => ContactCtrlView { notice: Some(DbError::InvalidSelection), ..self },
            Some(idx) => match found {
                Err(e) => ContactCtrlView { notice: Some(e), ..self },
                Ok(rows) => if idx < rows.len() {
                    ContactCtrlView {
                        table: rows[idx as int],
                        record_count: rows.len() as usize,
                        ..self
                    }
                } else {
                    ContactCtrlView {
                        record_count: rows.len() as usize,
                        notice: Some(DbError::InvalidSelection),
                        ..self
                    }
                },
            },
        }
    }

    /// The state after the working copy was saved: what the storage gave
    /// back replaces it and the list is shown, or the failure is noted and
    /// the form stays.
    pub open spec fn saved(self, outcome: Result<PersonView, DbError>) -> Self {
        match outcome {
            Ok(stored) => ContactCtrlView { table: stored, ..self }.go_back(),
            Err(e) => ContactCtrlView { notice: Some(e), ..self },
        }
    }

    /// The state after the delete was confirmed. A working copy that was
    /// never stored (`id < 1`) is left alone and the storage is not asked.
    /// Else a done delete blanks the working copy and shows the list, and a
    /// failure is noted.
    pub open spec fn deleted(self, outcome: Result<(), DbError>) -> Self {
        if self.table.id > 0 {
            match outcome {
                Ok(_) => ContactCtrlView { table: Self::blank(), ..self }.go_back(),
                Err(e) => ContactCtrlView { notice: Some(e), ..self },
            }
        } else {
            self
        }
    }

    /// What a key does to the list.
    pub open spec fn list_key(self, key: Key, found: Result<Seq<PersonView>, DbError>) -> Self {
        match key {
            Key::Char(c) => if c == 'n' {
                ContactCtrlView {
                    action: CtrlActions::Edit,
                    table: Self::blank(),
                    field_idx: 0,
                    ..self
                }
            } else if c == 'e' {
                ContactCtrlView { action: CtrlActions::Edit, ..self.selected_from(found) }
            } else if c == 'd' {
                ContactCtrlView { action: CtrlActions::Del, ..self.selected_from(found) }
            } else if c == 's' {
                ContactCtrlView { action: CtrlActions::Detail, ..self.selected_from(found) }
            } else {
                self
            },
            Key::Up => self.previous_row(),
            Key::Down => self.next_row(),
            _ => self,
        }
    }

    /// Whether the list takes a key.
    pub open spec fn list_takes(key: Key) -> bool {
        match key {
            Key::Char(c) => c == 'n' || c == 'e' || c == 'd' || c == 's',
            Key::Up => true,
            Key::Down => true,
            _ => false,
        }
    }

    /// What a key does to the form.
    pub open spec fn edit_key(self, key: Key, outcome: Result<PersonView, DbError>) -> Self {
        match key {
            Key::Tab => self.set_next_active(),
            Key::Esc => self.go_back(),
            Key::Backspace => ContactCtrlView {
                input: if self.input.len() > 0 {
                    self.input.drop_last()
                } else {
                    self.input
                },
                ..self
            }.update_field(),
            Key::Enter => self.saved(outcome),
            Key::Char(c) => ContactCtrlView { input: self.input.push(c), ..self }.update_field(),
            _ => self,
        }
    }

    /// What a key does to the question before a delete.
    pub open spec fn del_key(self, key: Key, outcome: Result<(), DbError>) -> Self {
        match key {
            Key::Esc => self.go_back(),
            Key::Enter => self.deleted(outcome),
            _ => self,
        }
    }

    /// What a key does to the detail view.
    pub open spec fn detail_key(self, key: Key) -> Self {
        match key {
            Key::Esc => self.go_back(),
            Key::Enter => ContactCtrlView { action: CtrlActions::Edit, ..self },
            _ => self,
        }
    }

    /// What a key does to the screen, whatever it shows. The notice of the
    /// key before is dropped first. Of the three answers of the storage, the
    /// step reads the one that its action asks for.
    pub open spec fn key_pressed(
        self,
        key: Key,
        found: Result<Seq<PersonView>, DbError>,
        stored: Result<PersonView, DbError>,
        gone: Result<(), DbError>,
    ) -> Self {
        let fresh = ContactCtrlView { notice: None, ..self };
        match self.action {
            CtrlActions::List => fresh.list_key(key, found),
            CtrlActions::Edit => fresh.edit_key(key, stored),
            CtrlActions::Detail => fresh.detail_key(key),
            CtrlActions::Del => fresh.del_key(key, gone),
        }
    }

    /// What the screen answers to a key: only the list lets keys through.
    pub open spec fn answer(self, key: Key) -> AppState {
        if self.action == CtrlActions::List && !Self::list_takes(key) {
            AppState::Running
        } else {
            AppState::MoveOn
        }
    }
}

impl Default for ContactCtrl {
    fn default() -> (r: ContactCtrl)
        ensures
            r@ == ContactCtrlView::initial(),
    {
        ContactCtrl {
            table: Person::default(),
            action: CtrlActions::List,
            active_item: 0,
            field_idx: 0,
            input: String::new(),
            t_state: None,
            record_count: 0,
            notice: None,
        }
    }
}

impl CtrObj for ContactCtrl {
    fn init_data(&mut self, conn: Option<&Connection>)
        ensures
            *final(self) == *old(self),
    {
    }

    fn key_event_handler(&mut self, conn: Option<&Connection>, key: &Key) -> (r: AppState)
        ensures
            r == old(self)@.answer(*key),
            exists|
                found: Result<Seq<PersonView>, DbError>,
                stored: Result<PersonView, DbError>,
                gone: Result<(), DbError>,
            |
                final(self)@ == #[trigger] old(self)@.key_pressed(*key, found, stored, gone),
            conn is None ==> final(self)@ == old(self)@.key_pressed(
                *key,
                Err::<Seq<PersonView>, DbError>(DbError::Connection),
                Err::<PersonView, DbError>(DbError::Connection),
                Err::<(), DbError>(DbError::Connection),
            ),
    {
        self.notice = None;
        let ghost fresh = self@;
        let ghost no_rows: Result<Seq<PersonView>, DbError> = Err(DbError::Query);
        let ghost no_entity: Result<PersonView, DbError> = Err(DbError::Query);
        let ghost no_delete: Result<(), DbError> = Err(DbError::Query);
        match self.action {
            CtrlActions::List => {
                let r = self.list_key_event(conn, key);
                proof {
                    let found = choose|found: Result<Seq<PersonView>, DbError>|
                        self@ == #[trigger] fresh.list_key(*key, found);
                    assert(self@ == old(self)@.key_pressed(*key, found, no_entity, no_delete));
                }
                r
            },
            CtrlActions::Edit => {
                let r = self.edit_key_event(conn, key);
                proof {
                    let stored = choose|stored: Result<PersonView, DbError>|
                        self@ == #[trigger] fresh.edit_key(*key, stored);
                    assert(self@ == old(self)@.key_pressed(*key, no_rows, stored, no_delete));
                }
                r
            },
            CtrlActions::Detail => {
                let r = self.detail_key_event(key);
                assert(self@ == old(self)@.key_pressed(*key, no_rows, no_entity, no_delete));
                r
            },
            CtrlActions::Del => {
                let r = self.del_key_event(conn, key);
                proof {
                    let gone = choose|gone: Result<(), DbError>|
                        self@ == #[trigger] fresh.del_key(*key, gone);
                    assert(self@ == old(self)@.key_pressed(*key, no_rows, no_entity, gone));
                }
                r
            },
        }
    }
}

impl ContactCtrl {
    /// Reads the contacts from the storage and notes how many there are.
    /// Without a connection the answer is `Connection`.
    pub fn list(&mut self, conn: Option<&Connection>) -> (r: Result<Vec<Person>, DbError>)
        ensures
            final(self)@ == old(self)@.listed(answers_view(r)),
            conn is None ==> r == Err::<Vec<Person>, DbError>(DbError::Connection),
    {
        match conn {
            Some(conn) => match Person::list(conn, String::new()) {
                Ok(list) => {
                    self.record_count = list.len();
                    Ok(list)
                },
                Err(e) => Err(e),
            },
            None => Err(DbError::Connection),
        }
    }

    /// Writes the typed text into the field that `field_idx` addresses.
    pub fn update_field(&mut self)
        ensures
            final(self)@ == old(self)@.update_field(),
    {
        if self.field_idx == 0 {
            self.table.first_name = self.input.clone();
        } else if self.field_idx == 1 {
            self.table.last_name = self.input.clone();
        } else if self.field_idx == 2 {
            self.table.email = self.input.clone();
        }
    }

    /// Takes the answer of a delete.
    pub fn apply_deleted(&mut self, outcome: Result<(), DbError>)
        ensures
            final(self)@ == old(self)@.deleted(outcome),
    {
        if self.table.id <= 0 {
            return;
        }
        match outcome {
            Ok(()) => {
                self.table = Person::default();
                self.go_back();
            },
            Err(e) => {
                self.notice = Some(e);
            },
        }
    }

    /// Deletes the working copy from the storage, if it was ever stored.
    pub fn del_record(&mut self, conn: Option<&Connection>)
        ensures
            exists|gone: Result<(), DbError>| final(self)@ == #[trigger] old(self)@.deleted(gone),
            conn is None ==> final(self)@ == old(self)@.deleted(
                Err::<(), DbError>(DbError::Connection),
            ),
    {
        if self.table.id > 0 {
            let outcome = match conn {
                Some(conn) => self.table.del(conn),
                None => Err(DbError::Connection),
            };
            self.apply_deleted(outcome);
            assert(self@ == old(self)@.deleted(outcome));
        } else {
            assert(self@ == old(self)@.deleted(Err::<(), DbError>(DbError::Connection)));
        }
    }

    /// Takes the answer of a save.
    pub fn apply_saved(&mut self, outcome: Result<Person, DbError>)
        ensures
            final(self)@ == old(self)@.saved(answer_view(outcome)),
    {
        match outcome {
            Ok(record) => {
                self.table = record;
                self.go_back();
            },
            Err(e) => {
                self.notice = Some(e);
            },
        }
    }

    /// Saves the working copy and takes what the storage gives back for it.
    pub fn save_record(&mut self, conn: Option<&Connection>)
        ensures
            exists|stored: Result<PersonView, DbError>|
                final(self)@ == #[trigger] old(self)@.saved(stored),
            conn is None ==> final(self)@ == old(self)@.saved(
                Err::<PersonView, DbError>(DbError::Connection),
            ),
    {
        let outcome = match conn {
            Some(conn) => self.table.save(conn),
            None => Err(DbError::Connection),
        };
        self.apply_saved(outcome);
        assert(self@ == old(self)@.saved(answer_view(outcome)));
    }

    pub fn previous_row(&mut self)
        ensures
            final(self)@ == old(self)@.previous_row(),
    {
        self.t_state = previous_index(self.t_state, self.record_count);
    }

    pub fn next_row(&mut self)
        ensures
            final(self)@ == old(self)@.next_row(),
    {
        self.t_state = next_index(self.t_state, self.record_count);
    }

    /// Takes the answer of the listing that a selection is loaded from.
    pub fn apply_selected(&mut self, found: Result<Vec<Person>, DbError>)
        ensures
            final(self)@ == old(self)@.selected_from(answers_view(found)),
    {
        match self.t_state {
            Some(idx) => match found {
                Ok(record_list) => {
                    let mut record_list = record_list;
                    self.record_count = record_list.len();
                    if idx < record_list.len() {
                        self.table = record_list.swap_remove(idx);
                    } else {
                        self.notice = Some(DbError::InvalidSelection);
                    }
                },
                Err(e) => {
                    self.notice = Some(e);
                },
            },
            None => {
                self.notice = Some(DbError::InvalidSelection);
            },
        }
    }

    /// Loads the selected row of a fresh list as the working copy.
    pub fn set_selected_record(&mut self, conn: Option<&Connection>)
        ensures
            exists|found: Result<Seq<PersonView>, DbError>|
                final(self)@ == #[trigger] old(self)@.selected_from(found),
            conn is None ==> final(self)@ == old(self)@.selected_from(
                Err::<Seq<PersonView>, DbError>(DbError::Connection),
            ),
    {
        match self.t_state {
            Some(_) => {
                let found = match conn {
                    Some(conn) => Person::list(conn, String::new()),
                    None => Err(DbError::Connection),
                };
                self.apply_selected(found);
                assert(self@ == old(self)@.selected_from(answers_view(found)));
            },
            None => {
                self.notice = Some(DbError::InvalidSelection);
                assert(self@ == old(self)@.selected_from(
                    Err::<Seq<PersonView>, DbError>(DbError::Connection),
                ));
            },
        }
    }

    pub fn list_key_event(&mut self, conn: Option<&Connection>, key: &Key) -> (r: AppState)
        ensures
            r == if ContactCtrlView::list_takes(*key) {
                AppState::MoveOn
            } else {
                AppState::Running
            },
            exists|found: Result<Seq<PersonView>, DbError>|
                final(self)@ == #[trigger] old(self)@.list_key(*key, found),
            conn is None ==> final(self)@ == old(self)@.list_key(
                *key,
                Err::<Seq<PersonView>, DbError>(DbError::Connection),
            ),
    {
        let ghost unread: Result<Seq<PersonView>, DbError> = Err(DbError::Connection);
        match key {
            Key::Char(c) => {
                if *c == 'n' {
                    self.action = CtrlActions::Edit;
                    self.table = Person::default();
                    self.field_idx = 0;
                    assert(self@ == old(self)@.list_key(*key, unread));
                    AppState::MoveOn
                } else if *c == 'e' || *c == 'd' || *c == 's' {
                    self.set_selected_record(conn);
                    let ghost loaded = self@;
                    self.action = if *c == 'e' {
                        CtrlActions::Edit
                    } else if *c == 'd' {
                        CtrlActions::Del
                    } else {
                        CtrlActions::Detail
                    };
                    proof {
                        let found = choose|found: Result<Seq<PersonView>, DbError>|
                            loaded == #[trigger] old(self)@.selected_from(found);
                        assert(self@ == old(self)@.list_key(*key, found));
                    }
                    AppState::MoveOn
                } else {
                    assert(self@ == old(self)@.list_key(*key, unread));
                    AppState::Running
                }
            },
            Key::Up => {
                self.previous_row();
                assert(self@ == old(self)@.list_key(*key, unread));
                AppState::MoveOn
            },
            Key::Down => {
                self.next_row();
                assert(self@ == old(self)@.list_key(*key, unread));
                AppState::MoveOn
            },
            _ => {
                assert(self@ == old(self)@.list_key(*key, unread));
                AppState::Running
            },
        }
    }

    /// Back to the list, dropping what was typed.
    pub fn go_back(&mut self)
        ensures
            final(self)@ == old(self)@.go_back(),
    {
        self.input = String::new();
        self.field_idx = 0;
        self.action = CtrlActions::List;
    }

    pub fn del_key_event(&mut self, conn: Option<&Connection>, key: &Key) -> (r: AppState)
        ensures
            r == AppState::MoveOn,
            exists|gone: Result<(), DbError>|
                final(self)@ == #[trigger] old(self)@.del_key(*key, gone),
            conn is None ==> final(self)@ == old(self)@.del_key(
                *key,
                Err::<(), DbError>(DbError::Connection),
            ),
    {
        let ghost unasked: Result<(), DbError> = Err(DbError::Connection);
        match key {
            Key::Esc => {
                self.go_back();
                assert(self@ == old(self)@.del_key(*key, unasked));
            },
            Key::Enter => {
                self.del_record(conn);
                proof {
                    let gone = choose|gone: Result<(), DbError>|
                        self@ == #[trigger] old(self)@.deleted(gone);
                    assert(self@ == old(self)@.del_key(*key, gone));
                }
            },
            _ => {
                assert(self@ == old(self)@.del_key(*key, unasked));
            },
        }
        AppState::MoveOn
    }

    pub fn detail_key_event(&mut self, key: &Key) -> (r: AppState)
        ensures
            r == AppState::MoveOn,
            final(self)@ == old(self)@.detail_key(*key),
    {
        match key {
            Key::Esc => {
                self.go_back();
            },
            Key::Enter => {
                self.action = CtrlActions::Edit;
            },
            _ => {},
        }
        AppState::MoveOn
    }

    pub fn edit_key_event(&mut self, conn: Option<&Connection>, key: &Key) -> (r: AppState)
        ensures
            r == AppState::MoveOn,
            exists|stored: Result<PersonView, DbError>|
                final(self)@ == #[trigger] old(self)@.edit_key(*key, stored),
            conn is None ==> final(self)@ == old(self)@.edit_key(
                *key,
                Err::<PersonView, DbError>(DbError::Connection),
            ),
    {
        let ghost unasked: Result<PersonView, DbError> = Err(DbError::Connection);
        match key {
            Key::Tab => {
                self.set_next_active();
                assert(self@ == old(self)@.edit_key(*key, unasked));
            },
            Key::Esc => {
                self.go_back();
                assert(self@ == old(self)@.edit_key(*key, unasked));
            },
            Key::Backspace => {
                pop_char(&mut self.input);
                self.update_field();
                assert(self@ == old(self)@.edit_key(*key, unasked));
            },
            Key::Enter => {
                self.save_record(conn);
                proof {
                    let stored = choose|stored: Result<PersonView, DbError>|
                        self@ == #[trigger] old(self)@.saved(stored);
                    assert(self@ == old(self)@.edit_key(*key, stored));
                }
            },
            Key::Char(c) => {
                push_char(&mut self.input, *c);
                self.update_field();
                assert(self@ == old(self)@.edit_key(*key, unasked));
            },
            _ => {
                assert(self@ == old(self)@.edit_key(*key, unasked));
            },
        }
        AppState::MoveOn
    }

    /// While editing: on to the next field of the form.
    pub fn set_next_active(&mut self)
        ensures
            final(self)@ == old(self)@.set_next_active(),
    {
        match self.action {
            CtrlActions::Edit => {
                self.field_idx = next_field(self.field_idx, CONTACT_FORM_FIELDS);
                self.input = if self.field_idx == 0 {
                    self.table.first_name.clone()
                } else if self.field_idx == 1 {
                    self.table.last_name.clone()
                } else if self.field_idx == 2 {
                    self.table.email.clone()
                } else {
                    String::new()
                };
            },
            _ => {},
        }
    }
}

} // verus!
