//! The tasks screen: a list of tasks, a form to add, change, show and delete
//! one of them, and inside the form two pickers, one for the project and one
//! for the status.
//!
//! `TaskCtrlView` is the state of the screen as a plain value, and the spec
//! functions on it say what each key does. A step that asks the storage takes
//! the storage's answer as an argument there; the function that makes the call
//! promises that the state it leaves is that step for the answer it got.

use crate::app::AppState;
use crate::controllers::ask_named;
use crate::controllers::id_name_columns;
use crate::controllers::next_field;
use crate::controllers::project_list_command;
use crate::controllers::next_index;
use crate::controllers::number_or_zero;
use crate::controllers::previous_index;
use crate::controllers::selected_key;
use crate::controllers::spec_next;
use crate::controllers::spec_next_field;
use crate::controllers::spec_number_or_zero;
use crate::controllers::spec_previous;
use crate::controllers::spec_selected_key;
use crate::controllers::CtrObj;
use crate::controllers::CtrlActions;
use crate::controllers::Key;
use crate::error::DbError;
use crate::models::answer_view;
use crate::models::records_answer;
use crate::models::records_view;
use crate::models::task::Task;
use crate::models::task::TaskView;
use crate::models::DbObj;
use crate::record::Record;
use crate::store::SqlCommand;
use crate::text::texts;
use crate::text::i32_text;
use crate::text::int_text;
use crate::text::pop_char;
use crate::text::push_char;
use rusqlite::Connection;
use vstd::prelude::*;

verus! {

/// The number of fields that the task form edits.
pub const TASK_FORM_FIELDS: u32 = 5;

/// The picker that the task form has open, if any.
#[derive(Clone, Copy, Debug, PartialEq, Eq, Structural)]
pub enum PopupTaskType {
    NoPopup,
    ProjectList,
    TaskStatusList,
}

/// What the storage answers when asked for rows as generic records.
pub type Rows = Result<Seq<Map<Seq<char>, Seq<char>>>, DbError>;

/// The state of the tasks screen.
#[derive(Debug)]
pub struct TaskCtrl {
    /// The working copy: the task that is edited, shown or about to go.
    pub task_table: Task,
    pub action: CtrlActions,
    pub active_item: usize,
    /// The form field that typing goes to, counted from 0.
    pub field_idx: u32,
    /// The text typed so far into that field.
    pub input: String,
    /// The selected row of the list, if one is selected.
    pub t_state: Option<usize>,
    /// The selected row of the open picker, if one is selected.
    pub l_state: Option<usize>,
    /// How many rows the list, or the picker, had when it was last read.
    pub record_count: usize,
    pub show_popup: bool,
    pub popup_type: PopupTaskType,
    /// Why the last key could not do its work, if it could not.
    pub notice: Option<DbError>,
}

/// The state of the tasks screen as a plain value.
pub struct TaskCtrlView {
    pub task_table: TaskView,
    pub action: CtrlActions,
    pub active_item: usize,
    pub field_idx: u32,
    pub input: Seq<char>,
    pub t_state: Option<usize>,
    pub l_state: Option<usize>,
    pub record_count: usize,
    pub show_popup: bool,
    pub popup_type: PopupTaskType,
    pub notice: Option<DbError>,
}

impl View for TaskCtrl {
    type V = TaskCtrlView;

    open spec fn view(&self) -> TaskCtrlView {
        TaskCtrlView {
            task_table: self.task_table@,
            action: self.action,
            active_item: self.active_item,
            field_idx: self.field_idx,
            input: self.input@,
            t_state: self.t_state,
            l_state: self.l_state,
            record_count: self.record_count,
            show_popup: self.show_popup,
            popup_type: self.popup_type,
            notice: self.notice,
        }
    }
}

impl TaskCtrlView {
    /// The task that is not stored yet.
    pub open spec fn blank() -> TaskView {
        TaskView {
            id: 0,
            project_id: 0,
            parent_id: 0,
            name: Seq::empty(),
            description: Seq::empty(),
            weight: 0,
            status: 0,
            created_by: 0,
            created_at: 0,
            updated_at: 0,
        }
    }

    /// The screen as it starts: the list, nothing selected, nothing typed.
    pub open spec fn initial() -> Self {
        TaskCtrlView {
            task_table: Self::blank(),
            action: CtrlActions::List,
            active_item: 0,
            field_idx: 0,
            input: Seq::empty(),
            t_state: None,
            l_state: None,
            record_count: 0,
            show_popup: false,
            popup_type: PopupTaskType::NoPopup,
            notice: None,
        }
    }

    /// Back to the list, dropping what was typed.
    pub open spec fn go_back(self) -> Self {
        TaskCtrlView { input: Seq::empty(), field_idx: 0, action: CtrlActions::List, ..self }
    }

    /// The typed text written into the field that `field_idx` addresses. The
    /// weight takes the number that the text writes, and 0 where it writes
    /// none. The project and the status are left alone: only their pickers
    /// write them.
    pub open spec fn update_field(self) -> Self {
        let t = self.task_table;
        if self.field_idx == 1 {
            TaskCtrlView { task_table: TaskView { name: self.input, ..t }, ..self }
        } else if self.field_idx == 2 {
            TaskCtrlView { task_table: TaskView { description: self.input, ..t }, ..self }
        } else if self.field_idx == 3 {
            TaskCtrlView {
                task_table: TaskView { weight: spec_number_or_zero(self.input), ..t },
                ..self
            }
        } else {
            self
        }
    }

    /// What typing into the field at `idx` starts from: the field's text,
    /// and nothing for the two fields that a picker fills.
    pub open spec fn field_text(self, idx: u32) -> Seq<char> {
        if idx == 1 {
            self.task_table.name
        } else if idx == 2 {
            self.task_table.description
        } else if idx == 3 {
            int_text(self.task_table.weight as int)
        } else {
            Seq::empty()
        }
    }

    /// While editing: on to the next field, the first one after the last.
    pub open spec fn set_next_active(self) -> Self {
        if self.action == CtrlActions::Edit {
            let idx = spec_next_field(self.field_idx, TASK_FORM_FIELDS);
            TaskCtrlView { field_idx: idx, input: self.field_text(idx), ..self }
        } else {
            self
        }
    }

    pub open spec fn previous_row(self) -> Self {
        TaskCtrlView { t_state: spec_previous(self.t_state, self.record_count), ..self }
    }

    pub open spec fn next_row(self) -> Self {
        TaskCtrlView { t_state: spec_next(self.t_state, self.record_count), ..self }
    }

    pub open spec fn previous_item(self) -> Self {
        TaskCtrlView { l_state: spec_previous(self.l_state, self.record_count), ..self }
    }

    pub open spec fn next_item(self) -> Self {
        TaskCtrlView { l_state: spec_next(self.l_state, self.record_count), ..self }
    }

    /// The state after the storage was asked for the list.
    pub open spec fn listed(self, found: Rows) -> Self {
        match found {
            Ok(rows) => TaskCtrlView { record_count: rows.len() as usize, ..self },
            Err(_) => self,
        }
    }

    /// The state after the selected row was loaded from a fresh list. With no
    /// row selected the storage is not asked and `InvalidSelection` is noted.
    /// A failed listing is noted, a selection behind the last row is noted as
    /// `InvalidSelection`, and a row that holds no task is noted with the
    /// reason. Otherwise the row's task becomes the working copy.
    pub open spec fn selected_from(self, found: Rows) -> Self {
        match self.t_state {
            None => TaskCtrlView { notice: Some(DbError::InvalidSelection), ..self },
            Some(idx) => match found {
                Err(e) => TaskCtrlView { notice: Some(e), ..self },
                Ok(rows) => {
                    let counted = TaskCtrlView { record_count: rows.len() as usize, ..self };
                    if idx < rows.len() {
                        match Task::spec_from_record(rows[idx as int]) {
                            Ok(task) => TaskCtrlView { task_table: task, ..counted },
                            Err(e) => TaskCtrlView { notice: Some(e), ..counted },
                        }
                    } else {
                        TaskCtrlView { notice: Some(DbError::InvalidSelection), ..counted }
                    }
                },
            },
        }
    }

    /// The state after the working copy was saved.
    pub open spec fn saved(self, outcome: Result<TaskView, DbError>) -> Self {
        match outcome {
            Ok(stored) => TaskCtrlView { task_table: stored, ..self }.go_back(),
            Err(e) => TaskCtrlView { notice: Some(e), ..self },
        }
    }

    /// The state after the delete was confirmed. A working copy that was
    /// never stored (`id < 1`) is left alone and the storage is not asked.
    pub open spec fn deleted(self, outcome: Result<(), DbError>) -> Self {
        if self.task_table.id > 0 {
            match outcome {
                Ok(_) => TaskCtrlView { task_table: Self::blank(), ..self }.go_back(),
                Err(e) => TaskCtrlView { notice: Some(e), ..self },
            }
        } else {
            self
        }
    }

    /// The state after a picker was opened over the rows that the storage
    /// gave for it: their number is noted, 0 for a failure.
    pub open spec fn popup_opened(self, kind: PopupTaskType, found: Rows) -> Self {
        TaskCtrlView {
            record_count: match found {
                Ok(rows) => rows.len() as usize,
                Err(_) => 0,
            },
            popup_type: kind,
            show_popup: true,
            ..self
        }
    }

    /// The state after the picker's choice was confirmed. With no picker
    /// open nothing happens. With no row selected the storage is not asked
    /// and `InvalidSelection` is noted. A failed listing is noted, and so is a
    /// row without a usable key. Otherwise the key of the selected row goes
    /// into the field that the picker is for, and the picker closes.
    pub open spec fn popup_committed(self, found: Rows) -> Self {
        if self.popup_type == PopupTaskType::NoPopup {
            self
        } else if self.l_state is None {
            TaskCtrlView { notice: Some(DbError::InvalidSelection), ..self }
        } else {
            match found {
                Err(e) => TaskCtrlView { notice: Some(e), ..self },
                Ok(rows) => match spec_selected_key(rows, self.l_state) {
                    Err(e) => TaskCtrlView { notice: Some(e), ..self },
                    Ok(id) => TaskCtrlView {
                        task_table: if self.popup_type == PopupTaskType::ProjectList {
                            TaskView { project_id: id, ..self.task_table }
                        } else {
                            TaskView { status: id, ..self.task_table }
                        },
                        show_popup: false,
                        popup_type: PopupTaskType::NoPopup,
                        ..self
                    },
                },
            }
        }
    }

    /// What a key does to an open picker.
    pub open spec fn popup_key(self, key: Key, found: Rows) -> Self {
        match key {
            Key::Up => self.previous_item(),
            Key::Down => self.next_item(),
            Key::Esc => TaskCtrlView { show_popup: false, ..self },
            Key::Enter => self.popup_committed(found),
            _ => self,
        }
    }

    /// What a key does to the list.
    pub open spec fn list_key(self, key: Key, found: Rows) -> Self {
        match key {
            Key::Char(c) => if c == 'n' {
                TaskCtrlView {
                    action: CtrlActions::Edit,
                    task_table: Self::blank(),
                    field_idx: 0,
                    ..self
                }
            } else if c == 'e' {
                TaskCtrlView { action: CtrlActions::Edit, ..self.selected_from(found) }
            } else if c == 'd' {
                TaskCtrlView { action: CtrlActions::Del, ..self.selected_from(found) }
            } else if c == 's' {
                TaskCtrlView { action: CtrlActions::Detail, ..self.selected_from(found) }
            } else {
                self
            },
            Key::Up => self.previous_row(),
            Key::Down => self.next_row(),
            _ => self,
        }
    }

    /// Whether the list takes a key.
    pub open spec fn list_takes(key: Key) -> bool {
        match key {
            Key::Char(c) => c == 'n' || c == 'e' || c == 'd' || c == 's',
            Key::Up => true,
            Key::Down => true,
            _ => false,
        }
    }

    /// What a typed character does to the form: on the project field and on
    /// the status field a space opens the picker and anything else is
    /// dropped; on the other fields the character is typed.
    pub open spec fn typed(self, c: char, found: Rows) -> Self {
        if self.field_idx == 0 {
            if c == ' ' {
                self.popup_opened(PopupTaskType::ProjectList, found)
            } else {
                self
            }
        } else if self.field_idx == 4 {
            if c == ' ' {
                self.popup_opened(PopupTaskType::TaskStatusList, found)
            } else {
                self
            }
        } else {
            TaskCtrlView { input: self.input.push(c), ..self }.update_field()
        }
    }

    /// What a key does to the form. While a picker is open, the picker gets
    /// every key.
    pub open spec fn edit_key(self, key: Key, stored: Result<TaskView, DbError>, found: Rows) -> Self {
        if self.show_popup {
            self.popup_key(key, found)
        } else {
            match key {
                Key::Tab => self.set_next_active(),
                Key::Esc => self.go_back(),
                Key::Backspace => TaskCtrlView {
                    input: if self.input.len() > 0 {
                        self.input.drop_last()
                    } else {
                        self.input
                    },
                    ..self
                }.update_field(),
                Key::Enter => self.saved(stored),
                Key::Char(c) => self.typed(c, found),
                _ => self,
            }
        }
    }

    /// What a key does to the question before a delete.
    pub open spec fn del_key(self, key: Key, outcome: Result<(), DbError>) -> Self {
        match key {
            Key::Esc => self.go_back(),
            Key::Enter => self.deleted(outcome),
            _ => self,
        }
    }

    /// What a key does to the detail view.
    pub open spec fn detail_key(self, key: Key) -> Self {
        match key {
            Key::Esc => self.go_back(),
            Key::Enter => TaskCtrlView { action: CtrlActions::Edit, ..self },
            _ => self,
        }
    }

    /// What a key does to the screen, whatever it shows. The notice of the
    /// key before is dropped first. Of the answers of the storage, the step
    /// reads the one that its action asks for: `found` are the rows of the
    /// list or of a picker, `stored` answers a save and `gone` a delete.
    pub open spec fn key_pressed(
        self,
        key: Key,
        found: Rows,
        stored: Result<TaskView, DbError>,
        gone: Result<(), DbError>,
    ) -> Self {
        let fresh = TaskCtrlView { notice: None, ..self };
        match self.action {
            CtrlActions::List => fresh.list_key(key, found),
            CtrlActions::Edit => fresh.edit_key(key, stored, found),
            CtrlActions::Detail => fresh.detail_key(key),
            CtrlActions::Del => fresh.del_key(key, gone),
        }
    }

    /// What the screen answers to a key: only the list lets keys through.
    pub open spec fn answer(self, key: Key) -> AppState {
        if self.action == CtrlActions::List && !Self::list_takes(key) {
            AppState::Running
        } else {
            AppState::MoveOn
        }
    }
}

impl Default for TaskCtrl {
    fn default() -> (r: TaskCtrl)
        ensures
            r@ == TaskCtrlView::initial(),
    {
        TaskCtrl {
            task_table: Task::default(),
            action: CtrlActions::List,
            active_item: 0,
            field_idx: 0,
            input: String::new(),
            t_state: None,
            l_state: None,
            record_count: 0,
            show_popup: false,
            popup_type: PopupTaskType::NoPopup,
            notice: None,
        }
    }
}

/// The text of the statement that reads every task with the names of its
/// project and its status.
pub open spec fn task_list_sql() -> Seq<char> {
    "select t.id as id, t.project_id as project_id, t.parent_id as parent_id, t.name as name, t.description as description, t.weight as weight, t.status as status, t.created_by as created_by, t.created_at as created_at, t.updated_at as updated_at, p.name as project_name, ts.name as status_name from task as t left join project as p on (t.project_id = p.id) left join task_status as ts on (t.status = ts.id)"@
}

/// The statement that reads every task with the names of its project and
/// its status. It binds no parameter.
pub fn task_list_command() -> (c: SqlCommand)
    ensures
        c.sql@ == task_list_sql(),
        c.params@.len() == 0,
{
    SqlCommand {
        sql: String::from_str(
            "select t.id as id, t.project_id as project_id, t.parent_id as parent_id, t.name as name, t.description as description, t.weight as weight, t.status as status, t.created_by as created_by, t.created_at as created_at, t.updated_at as updated_at, p.name as project_name, ts.name as status_name from task as t left join project as p on (t.project_id = p.id) left join task_status as ts on (t.status = ts.id)",
        ),
        params: Vec::new(),
    }
}

/// The names of the columns of `task_list_command`: the fields of a task,
/// then the name of its project and the name of its status.
pub fn task_list_columns() -> (r: Vec<String>)
    ensures
        texts(r@) == Task::spec_fields().push("project_name"@).push("status_name"@),
{
    let mut names = Task::fields();
    let ghost fields = texts(names@);
    names.push(String::from_str("project_name"));
    names.push(String::from_str("status_name"));
    assert(texts(names@) =~= fields.push("project_name"@).push("status_name"@));
    names
}

/// The text of the statement that reads key and name of every status.
pub open spec fn task_status_list_sql() -> Seq<char> {
    "select id as id, name as name from task_status"@
}

/// The statement that reads key and name of every status. It binds no
/// parameter.
pub fn task_status_list_command() -> (c: SqlCommand)
    ensures
        c.sql@ == task_status_list_sql(),
        c.params@.len() == 0,
{
    SqlCommand {
        sql: String::from_str("select id as id, name as name from task_status"),
        params: Vec::new(),
    }
}

/// The name to show for a looked-up row: its own, or two dashes where the
/// row was not found.
pub fn name_or_dashes(found: Option<String>) -> (r: String)
    ensures
        r@ == match found {
            Some(name) => name@,
            None => "--"@,
        },
{
    match found {
        Some(name) => name,
        None => String::from_str("--"),
    }
}

impl CtrObj for TaskCtrl {
    fn init_data(&mut self, conn: Option<&Connection>)
        ensures
            *final(self) == *old(self),
    {
    }

    fn key_event_handler(&mut self, conn: Option<&Connection>, key: &Key) -> (r: AppState)
        ensures
            r == old(self)@.answer(*key),
            exists|found: Rows, stored: Result<TaskView, DbError>, gone: Result<(), DbError>|
                final(self)@ == #[trigger] old(self)@.key_pressed(*key, found, stored, gone),
            conn is None ==> final(self)@ == old(self)@.key_pressed(
                *key,
                Err::<Seq<Map<Seq<char>, Seq<char>>>, DbError>(DbError::Connection),
                Err::<TaskView, DbError>(DbError::Connection),
                Err::<(), DbError>(DbError::Connection),
            ),
    {
        self.notice = None;
        let ghost fresh = self@;
        let ghost no_rows: Rows = Err(DbError::Query);
        let ghost no_entity: Result<TaskView, DbError> = Err(DbError::Query);
        let ghost no_delete: Result<(), DbError> = Err(DbError::Query);
        match self.action {
            CtrlActions::List => {
                let r = self.list_key_event(conn, key);
                proof {
                    let found = choose|found: Rows| self@ == #[trigger] fresh.list_key(*key, found);
                    assert(self@ == old(self)@.key_pressed(*key, found, no_entity, no_delete));
                }
                r
            },
            CtrlActions::Edit => {
                let r = self.edit_key_event(conn, key);
                proof {
                    let (stored, found) = choose|stored: Result<TaskView, DbError>, found: Rows|
                        self@ == #[trigger] fresh.edit_key(*key, stored, found);
                    assert(self@ == old(self)@.key_pressed(*key, found, stored, no_delete));
                }
                r
            },
            CtrlActions::Detail => {
                let r = self.detail_key_event(key);
                assert(self@ == old(self)@.key_pressed(*key, no_rows, no_entity, no_delete));
                r
            },
            CtrlActions::Del => {
                let r = self.del_key_event(conn, key);
                proof {
                    let gone = choose|gone: Result<(), DbError>|
                        self@ == #[trigger] fresh.del_key(*key, gone);
                    assert(self@ == old(self)@.key_pressed(*key, no_rows, no_entity, gone));
                }
                r
            },
        }
    }
}

impl TaskCtrl {
    /// Reads the tasks, each with the names of its project and its status,
    /// and notes how many there are.
    pub fn task_list(&mut self, conn: Option<&Connection>) -> (r: Result<Vec<Record>, DbError>)
        ensures
            final(self)@ == old(self)@.listed(records_answer(r)),
            conn is None ==> r == Err::<Vec<Record>, DbError>(DbError::Connection),
            r matches Err(e) ==> e == DbError::Connection || e == DbError::Query,
    {
        let found = ask_named(conn, &task_list_command(), &task_list_columns());
        match found {
            Ok(list) => {
                self.record_count = list.len();
                Ok(list)
            },
            Err(e) => Err(e),
        }
    }

    /// Reads key and name of every project, by name.
    pub fn project_list(&mut self, conn: Option<&Connection>) -> (r: Result<Vec<Record>, DbError>)
        ensures
            *final(self) == *old(self),
            conn is None ==> r == Err::<Vec<Record>, DbError>(DbError::Connection),
            r matches Err(e) ==> e == DbError::Connection || e == DbError::Query,
    {
        ask_named(conn, &project_list_command(), &id_name_columns())
    }

    /// Reads key and name of every status.
    pub fn task_status_list(&mut self, conn: Option<&Connection>) -> (r: Result<
        Vec<Record>,
        DbError,
    >)
        ensures
            *final(self) == *old(self),
            conn is None ==> r == Err::<Vec<Record>, DbError>(DbError::Connection),
            r matches Err(e) ==> e == DbError::Connection || e == DbError::Query,
    {
        ask_named(conn, &task_status_list_command(), &id_name_columns())
    }

    /// Writes the typed text into the field that `field_idx` addresses.
    pub fn update_field(&mut self)
        ensures
            final(self)@ == old(self)@.update_field(),
    {
        if self.field_idx == 1 {
            self.task_table.name = self.input.clone();
        } else if self.field_idx == 2 {
            self.task_table.description = self.input.clone();
        } else if self.field_idx == 3 {
            self.task_table.weight = number_or_zero(self.input.as_str());
        }
    }

    /// The name of the status of the working copy, two dashes where the
    /// storage has none for it.
    pub fn get_status_name(&self, conn: Option<&Connection>) -> (r: String)
        ensures
            conn is None ==> r@ == "--"@,
    {
        match conn {
            Some(conn) => match self.task_table.get_status(conn) {
                Some(status) => name_or_dashes(Some(status.name)),
                None => name_or_dashes(None),
            },
            None => name_or_dashes(None),
        }
    }

    /// The name of the project of the working copy, two dashes where the
    /// storage has none for it.
    pub fn get_project_name(&self, conn: Option<&Connection>) -> (r: String)
        ensures
            conn is None ==> r@ == "--"@,
    {
        match conn {
            Some(conn) => match self.task_table.get_project(conn) {
                Some(project) => name_or_dashes(Some(project.name)),
                None => name_or_dashes(None),
            },
            None => name_or_dashes(None),
        }
    }

    /// Takes the answer of a delete.
    pub fn apply_deleted(&mut self, outcome: Result<(), DbError>)
        ensures
            final(self)@ == old(self)@.deleted(outcome),
    {
        if self.task_table.id <= 0 {
            return;
        }
        match outcome {
            Ok(()) => {
                self.task_table = Task::default();
                self.go_back();
            },
            Err(e) => {
                self.notice = Some(e);
            },
        }
    }

    /// Deletes the working copy from the storage, if it was ever stored.
    pub fn del_task(&mut self, conn: Option<&Connection>)
        ensures
            exists|gone: Result<(), DbError>| final(self)@ == #[trigger] old(self)@.deleted(gone),
            conn is None ==> final(self)@ == old(self)@.deleted(
                Err::<(), DbError>(DbError::Connection),
            ),
    {
        if self.task_table.id > 0 {
            let outcome = match conn {
                Some(conn) => self.task_table.del(conn),
                None => Err(DbError::Connection),
            };
            self.apply_deleted(outcome);
            assert(self@ == old(self)@.deleted(outcome));
        } else {
            assert(self@ == old(self)@.deleted(Err::<(), DbError>(DbError::Connection)));
        }
    }

    /// Takes the answer of a save.
    pub fn apply_saved(&mut self, outcome: Result<Task, DbError>)
        ensures
            final(self)@ == old(self)@.saved(answer_view(outcome)),
    {
        match outcome {
            Ok(task) => {
                self.task_table = task;
                self.go_back();
            },
            Err(e) => {
                self.notice = Some(e);
            },
        }
    }

    /// Saves the working copy and takes what the storage gives back for it.
    pub fn save_task(&mut self, conn: Option<&Connection>)
        ensures
            exists|stored: Result<TaskView, DbError>|
                final(self)@ == #[trigger] old(self)@.saved(stored),
            conn is None ==> final(self)@ == old(self)@.saved(
                Err::<TaskView, DbError>(DbError::Connection),
            ),
    {
        let outcome = match conn {
            Some(conn) => self.task_table.save(conn),
            None => Err(DbError::Connection),
        };
        self.apply_saved(outcome);
        assert(self@ == old(self)@.saved(answer_view(outcome)));
    }

    pub fn previous_row(&mut self)
        ensures
            final(self)@ == old(self)@.previous_row(),
    {
        self.t_state = previous_index(self.t_state, self.record_count);
    }

    pub fn next_row(&mut self)
        ensures
            final(self)@ == old(self)@.next_row(),
    {
        self.t_state = next_index(self.t_state, self.record_count);
    }

    pub fn previous_item(&mut self)
        ensures
            final(self)@ == old(self)@.previous_item(),
    {
        self.l_state = previous_index(self.l_state, self.record_count);
    }

    pub fn next_item(&mut self)
        ensures
            final(self)@ == old(self)@.next_item(),
    {
        self.l_state = next_index(self.l_state, self.record_count);
    }

    /// Takes the answer of the listing that a selection is loaded from.
    pub fn apply_selected(&mut self, found: Result<Vec<Record>, DbError>)
        ensures
            final(self)@ == old(self)@.selected_from(records_answer(found)),
    {
        match self.t_state {
            Some(idx) => match found {
                Ok(tasks) => {
                    self.record_count = tasks.len();
                    if idx < tasks.len() {
                        match Task::from_hashmap(&tasks[idx]) {
                            Ok(task) => {
                                self.task_table = task;
                            },
                            Err(e) => {
                                self.notice = Some(e);
                            },
                        }
                    } else {
                        self.notice = Some(DbError::InvalidSelection);
                    }
                },
                Err(e) => {
                    self.notice = Some(e);
                },
            },
            None => {
                self.notice = Some(DbError::InvalidSelection);
            },
        }
    }

    /// Loads the selected row of a fresh list as the working copy.
    pub fn set_selected_record(&mut self, conn: Option<&Connection>)
        ensures
            exists|found: Rows| final(self)@ == #[trigger] old(self)@.selected_from(found),
            conn is None ==> final(self)@ == old(self)@.selected_from(
                Err::<Seq<Map<Seq<char>, Seq<char>>>, DbError>(DbError::Connection),
            ),
    {
        let ghost unread: Rows = Err(DbError::Connection);
        match self.t_state {
            Some(_) => {
                let ghost before = self@;
                let found = self.task_list(conn);
                let ghost answer = records_answer(found);
                self.apply_selected(found);
                assert(self@ == before.selected_from(answer));
            },
            None => {
                self.notice = Some(DbError::InvalidSelection);
                assert(self@ == old(self)@.selected_from(unread));
            },
        }
    }
}

impl TaskCtrl {
    pub fn list_key_event(&mut self, conn: Option<&Connection>, key: &Key) -> (r: AppState)
        ensures
            r == if TaskCtrlView::list_takes(*key) {
                AppState::MoveOn
            } else {
                AppState::Running
            },
            exists|found: Rows| final(self)@ == #[trigger] old(self)@.list_key(*key, found),
            conn is None ==> final(self)@ == old(self)@.list_key(
                *key,
                Err::<Seq<Map<Seq<char>, Seq<char>>>, DbError>(DbError::Connection),
            ),
    {
        let ghost unread: Rows = Err(DbError::Connection);
        match key {
            Key::Char(c) => {
                if *c == 'n' {
                    self.action = CtrlActions::Edit;
                    self.task_table = Task::default();
                    self.field_idx = 0;
                    assert(self@ == old(self)@.list_key(*key, unread));
                    AppState::MoveOn
                } else if *c == 'e' || *c == 'd' || *c == 's' {
                    self.set_selected_record(conn);
                    let ghost loaded = self@;
                    self.action = if *c == 'e' {
                        CtrlActions::Edit
                    } else if *c == 'd' {
                        CtrlActions::Del
                    } else {
                        CtrlActions::Detail
                    };
                    proof {
                        let found = choose|found: Rows|
                            loaded == #[trigger] old(self)@.selected_from(found);
                        assert(self@ == old(self)@.list_key(*key, found));
                        if conn is None {
                            assert(self@ == old(self)@.list_key(*key, unread));
                        }
                    }
                    AppState::MoveOn
                } else {
                    assert(self@ == old(self)@.list_key(*key, unread));
                    AppState::Running
                }
            },
            Key::Up => {
                self.previous_row();
                assert(self@ == old(self)@.list_key(*key, unread));
                AppState::MoveOn
            },
            Key::Down => {
                self.next_row();
                assert(self@ == old(self)@.list_key(*key, unread));
                AppState::MoveOn
            },
            _ => {
                assert(self@ == old(self)@.list_key(*key, unread));
                AppState::Running
            },
        }
    }

    /// Back to the list, dropping what was typed.
    pub fn go_back(&mut self)
        ensures
            final(self)@ == old(self)@.go_back(),
    {
        self.input = String::new();
        self.field_idx = 0;
        self.action = CtrlActions::List;
    }

    pub fn del_key_event(&mut self, conn: Option<&Connection>, key: &Key) -> (r: AppState)
        ensures
            r == AppState::MoveOn,
            exists|gone: Result<(), DbError>|
                final(self)@ == #[trigger] old(self)@.del_key(*key, gone),
            conn is None ==> final(self)@ == old(self)@.del_key(*key, Err::<(), DbError>(DbError::Connection)),
    {
        let ghost unasked: Result<(), DbError> = Err(DbError::Connection);
        match key {
            Key::Esc => {
                self.go_back();
                assert(self@ == old(self)@.del_key(*key, unasked));
            },
            Key::Enter => {
                self.del_task(conn);
                proof {
                    let gone = choose|gone: Result<(), DbError>|
                        self@ == #[trigger] old(self)@.deleted(gone);
                    assert(self@ == old(self)@.del_key(*key, gone));
                    if conn is None {
                        assert(self@ == old(self)@.del_key(*key, unasked));
                    }
                }
            },
            _ => {
                assert(self@ == old(self)@.del_key(*key, unasked));
            },
        }
        AppState::MoveOn
    }

    pub fn detail_key_event(&mut self, key: &Key) -> (r: AppState)
        ensures
            r == AppState::MoveOn,
            final(self)@ == old(self)@.detail_key(*key),
    {
        match key {
            Key::Esc => {
                self.go_back();
            },
            Key::Enter => {
                self.action = CtrlActions::Edit;
            },
            _ => {},
        }
        AppState::MoveOn
    }

    /// Takes the rows that the storage gave for the picker's choice.
    pub fn apply_popup_committed(&mut self, found: Result<Vec<Record>, DbError>)
        ensures
            final(self)@ == old(self)@.popup_committed(records_answer(found)),
    {
        match self.popup_type {
            PopupTaskType::NoPopup => {
                return;
            },
            _ => {},
        }
        if self.l_state.is_none() {
            self.notice = Some(DbError::InvalidSelection);
            return;
        }
        match found {
            Err(e) => {
                self.notice = Some(e);
            },
            Ok(results) => match selected_key(&results, self.l_state) {
                Err(e) => {
                    self.notice = Some(e);
                },
                Ok(id) => {
                    match self.popup_type {
                        PopupTaskType::ProjectList => {
                            self.task_table.project_id = id;
                        },
                        _ => {
                            self.task_table.status = id;
                        },
                    }
                    self.show_popup = false;
                    self.popup_type = PopupTaskType::NoPopup;
                },
            },
        }
    }

    pub fn popup_key_event(&mut self, conn: Option<&Connection>, key: &Key) -> (r: AppState)
        ensures
            r == AppState::MoveOn,
            exists|found: Rows| final(self)@ == #[trigger] old(self)@.popup_key(*key, found),
            conn is None ==> final(self)@ == old(self)@.popup_key(
                *key,
                Err::<Seq<Map<Seq<char>, Seq<char>>>, DbError>(DbError::Connection),
            ),
    {
        let ghost unread: Rows = Err(DbError::Connection);
        match key {
            Key::Up => {
                self.previous_item();
                assert(self@ == old(self)@.popup_key(*key, unread));
            },
            Key::Down => {
                self.next_item();
                assert(self@ == old(self)@.popup_key(*key, unread));
            },
            Key::Esc => {
                self.show_popup = false;
                assert(self@ == old(self)@.popup_key(*key, unread));
            },
            Key::Enter => {
                match self.popup_type {
                    PopupTaskType::NoPopup => {
                        assert(self@ == old(self)@.popup_key(*key, unread));
                    },
                    kind => {
                        if self.l_state.is_none() {
                            self.notice = Some(DbError::InvalidSelection);
                            assert(self@ == old(self)@.popup_key(*key, unread));
                        } else {
                            let found = match kind {
                                PopupTaskType::ProjectList => self.project_list(conn),
                                _ => self.task_status_list(conn),
                            };
                            let ghost answer = records_answer(found);
                            self.apply_popup_committed(found);
                            assert(self@ == old(self)@.popup_key(*key, answer));
                        }
                    },
                }
            },
            _ => {
                assert(self@ == old(self)@.popup_key(*key, unread));
            },
        }
        AppState::MoveOn
    }

    /// Opens a picker over the rows that the storage gave for it.
    pub fn open_popup(&mut self, kind: PopupTaskType, found: Result<Vec<Record>, DbError>)
        ensures
            final(self)@ == old(self)@.popup_opened(kind, records_answer(found)),
    {
        match found {
            Ok(results) => {
                self.record_count = results.len();
            },
            Err(_) => {
                self.record_count = 0;
            },
        }
        self.popup_type = kind;
        self.show_popup = true;
    }

    pub fn edit_key_event(&mut self, conn: Option<&Connection>, key: &Key) -> (r: AppState)
        ensures
            r == AppState::MoveOn,
            exists|stored: Result<TaskView, DbError>, found: Rows|
                final(self)@ == #[trigger] old(self)@.edit_key(*key, stored, found),
            conn is None ==> final(self)@ == old(self)@.edit_key(
                *key,
                Err::<TaskView, DbError>(DbError::Connection),
                Err::<Seq<Map<Seq<char>, Seq<char>>>, DbError>(DbError::Connection),
            ),
    {
        let ghost unasked: Result<TaskView, DbError> = Err(DbError::Connection);
        let ghost unread: Rows = Err(DbError::Connection);
        if self.show_popup {
            let r = self.popup_key_event(conn, key);
            proof {
                let found = choose|found: Rows| self@ == #[trigger] old(self)@.popup_key(*key, found);
                assert(self@ == old(self)@.edit_key(*key, unasked, found));
                if conn is None {
                    assert(self@ == old(self)@.edit_key(*key, unasked, unread));
                }
            }
            return r;
        }
        match key {
            Key::Tab => {
                self.set_next_active();
                assert(self@ == old(self)@.edit_key(*key, unasked, unread));
            },
            Key::Esc => {
                self.go_back();
                assert(self@ == old(self)@.edit_key(*key, unasked, unread));
            },
            Key::Backspace => {
                pop_char(&mut self.input);
                self.update_field();
                assert(self@ == old(self)@.edit_key(*key, unasked, unread));
            },
            Key::Enter => {
                self.save_task(conn);
                proof {
                    let stored = choose|stored: Result<TaskView, DbError>|
                        self@ == #[trigger] old(self)@.saved(stored);
                    assert(self@ == old(self)@.edit_key(*key, stored, unread));
                    if conn is None {
                        assert(self@ == old(self)@.edit_key(*key, unasked, unread));
                    }
                }
            },
            Key::Char(c) => {
                if self.field_idx == 0 {
                    if *c == ' ' {
                        let found = self.project_list(conn);
                        let ghost answer = records_answer(found);
                        self.open_popup(PopupTaskType::ProjectList, found);
                        assert(self@ == old(self)@.edit_key(*key, unasked, answer));
                    } else {
                        assert(self@ == old(self)@.edit_key(*key, unasked, unread));
                    }
                } else if self.field_idx == 4 {
                    if *c == ' ' {
                        let found = self.task_status_list(conn);
                        let ghost answer = records_answer(found);
                        self.open_popup(PopupTaskType::TaskStatusList, found);
                        assert(self@ == old(self)@.edit_key(*key, unasked, answer));
                    } else {
                        assert(self@ == old(self)@.edit_key(*key, unasked, unread));
                    }
                } else {
                    push_char(&mut self.input, *c);
                    self.update_field();
                    assert(self@ == old(self)@.edit_key(*key, unasked, unread));
                }
            },
            _ => {
                assert(self@ == old(self)@.edit_key(*key, unasked, unread));
            },
        }
        AppState::MoveOn
    }

    /// While editing: on to the next field of the form.
    pub fn set_next_active(&mut self)
        ensures
            final(self)@ == old(self)@.set_next_active(),
    {
        match self.action {
            CtrlActions::Edit => {
                self.field_idx = next_field(self.field_idx, TASK_FORM_FIELDS);
                self.input = if self.field_idx == 1 {
                    self.task_table.name.clone()
                } else if self.field_idx == 2 {
                    self.task_table.description.clone()
                } else if self.field_idx == 3 {
                    i32_text(self.task_table.weight)
                } else {
                    String::new()
                };
            },
            _ => {},
        }
    }
}

} // verus!
