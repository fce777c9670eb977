//! The dashboard: the projects in a sidebar, and beside it the tasks of the
//! selected project on a board with one column for each status.
//!
//! Focus 0 is the sidebar, focus `k` with `k >= 1` is the `k`-th column of
//! the board. `DashboardCtrlView` is the state as a plain value and the spec
//! functions on it say what each key does, taking the storage's answers as
//! arguments.

use crate::app::AppState;
use crate::controllers::ask_named;
use crate::controllers::id_name_columns;
use crate::controllers::next_field;
use crate::controllers::project_list_command;
use crate::controllers::next_index;
use crate::controllers::previous_index;
use crate::controllers::selected_key;
use crate::controllers::spec_next;
use crate::controllers::spec_next_field;
use crate::controllers::spec_previous;
use crate::controllers::spec_selected_key;
use crate::controllers::task_controller::Rows;
use crate::controllers::CtrObj;
use crate::controllers::CtrlActions;
use crate::controllers::Key;
use crate::error::DbError;
use crate::models::answer_view;
use crate::models::project::Project;
use crate::models::project::ProjectView;
use crate::models::records_answer;
use crate::models::records_view;
use crate::models::task::Task;
use crate::models::task::TaskView;
use crate::models::DbObj;
use crate::record::Record;
use crate::store::SqlCommand;
use crate::text::texts;
use crate::text::i32_text;
use crate::text::int_text;
use crate::text::parse_i32;
use crate::text::parse_i32_spec;
use crate::text::pop_char;
use crate::text::push_char;
use rusqlite::Connection;
use vstd::prelude::*;

verus! {

/// The number of fields that the dashboard's form steps through.
pub const DASHBOARD_FORM_FIELDS: u32 = 5;

/// The picker that the dashboard's form has open, if any.
#[derive(Clone, Copy, Debug, PartialEq, Eq, Structural)]
pub enum PopupDashboardType {
    NoPopup,
    ProjectList,
}

/// The state of the dashboard.
#[derive(Debug)]
pub struct DashboardCtrl {
    /// The selected project.
    pub projects: Project,
    pub action: CtrlActions,
    pub active_item: usize,
    pub field_idx: u32,
    /// 0 for the sidebar, `k` for the `k`-th column of the board.
    pub scrum_col_focus: usize,
    /// How many tasks the focused column holds.
    pub scrum_col_count: usize,
    /// The tasks of the focused column.
    pub scrum_col_list: Vec<Record>,
    pub input: String,
    /// The selected row of the sidebar.
    pub l_state: Option<usize>,
    /// The selected row of the focused column.
    pub l_scrum_state: Option<usize>,
    /// How many projects the sidebar holds.
    pub record_count: usize,
    pub projects_vec: Vec<Record>,
    /// The tasks of the selected project, in the order of the board.
    pub tasks_vec: Vec<Record>,
    /// The statuses, one for each column of the board, in its order.
    pub task_status_vec: Vec<Record>,
    pub show_popup: bool,
    pub popup_type: PopupDashboardType,
    /// Why the last key could not do its work, if it could not.
    pub notice: Option<DbError>,
}

/// Rows as plain values.
pub type RowSeq = Seq<Map<Seq<char>, Seq<char>>>;

/// The state of the dashboard as a plain value.
pub struct DashboardCtrlView {
    pub projects: ProjectView,
    pub action: CtrlActions,
    pub active_item: usize,
    pub field_idx: u32,
    pub scrum_col_focus: usize,
    pub scrum_col_count: usize,
    pub scrum_col_list: RowSeq,
    pub input: Seq<char>,
    pub l_state: Option<usize>,
    pub l_scrum_state: Option<usize>,
    pub record_count: usize,
    pub projects_vec: RowSeq,
    pub tasks_vec: RowSeq,
    pub task_status_vec: RowSeq,
    pub show_popup: bool,
    pub popup_type: PopupDashboardType,
    pub notice: Option<DbError>,
}

impl View for DashboardCtrl {
    type V = DashboardCtrlView;

    open spec fn view(&self) -> DashboardCtrlView {
        DashboardCtrlView {
            projects: self.projects@,
            action: self.action,
            active_item: self.active_item,
            field_idx: self.field_idx,
            scrum_col_focus: self.scrum_col_focus,
            scrum_col_count: self.scrum_col_count,
            scrum_col_list: records_view(self.scrum_col_list@),
            input: self.input@,
            l_state: self.l_state,
            l_scrum_state: self.l_scrum_state,
            record_count: self.record_count,
            projects_vec: records_view(self.projects_vec@),
            tasks_vec: records_view(self.tasks_vec@),
            task_status_vec: records_view(self.task_status_vec@),
            show_popup: self.show_popup,
            popup_type: self.popup_type,
            notice: self.notice,
        }
    }
}

/// Whether a row names `status` in its field `status`.
pub open spec fn has_status(row: Map<Seq<char>, Seq<char>>, status: i32) -> bool {
    row.dom().contains("status"@) && parse_i32_spec(row["status"@]) == Some(status)
}

/// The rows that name `status`, in the order they come in.
pub open spec fn rows_with_status(rows: RowSeq, status: i32) -> RowSeq
    decreases rows.len(),
{
    if rows.len() == 0 {
        Seq::empty()
    } else if has_status(rows.last(), status) {
        rows_with_status(rows.drop_last(), status).push(rows.last())
    } else {
        rows_with_status(rows.drop_last(), status)
    }
}

/// The tasks of one column of the board: those among `tasks` that name the
/// status of that column. A column whose status row carries no usable key
/// holds nothing, and so does a column that the board does not have.
pub open spec fn column_rows(tasks: RowSeq, statuses: RowSeq, column: usize) -> RowSeq {
    match spec_selected_key(statuses, Some(column)) {
        Ok(status) => rows_with_status(tasks, status),
        Err(_) => Seq::empty(),
    }
}

/// A task and the status it is to move to.
pub struct Move {
    pub task: i32,
    pub status: i32,
}

impl DashboardCtrlView {
    /// The project that is not stored yet.
    pub open spec fn blank() -> ProjectView {
        ProjectView {
            id: 0,
            reference: Seq::empty(),
            name: Seq::empty(),
            description: Seq::empty(),
            created_by: 0,
            start_date: Seq::empty(),
            end_date: Seq::empty(),
            created_at: 0,
            updated_at: 0,
        }
    }

    /// The dashboard as it starts: nothing read, the sidebar in focus.
    pub open spec fn initial() -> Self {
        DashboardCtrlView {
            projects: Self::blank(),
            action: CtrlActions::List,
            active_item: 0,
            field_idx: 0,
            scrum_col_focus: 0,
            scrum_col_count: 0,
            scrum_col_list: Seq::empty(),
            input: Seq::empty(),
            l_state: None,
            l_scrum_state: None,
            record_count: 0,
            projects_vec: Seq::empty(),
            tasks_vec: Seq::empty(),
            task_status_vec: Seq::empty(),
            show_popup: false,
            popup_type: PopupDashboardType::NoPopup,
            notice: None,
        }
    }

    /// The number of columns of the board: one for each status.
    pub open spec fn columns(self) -> usize {
        self.task_status_vec.len() as usize
    }

    /// The focused column filled from the tasks at hand. With the sidebar in
    /// focus nothing changes.
    pub open spec fn synced(self) -> Self {
        if self.scrum_col_focus > 0 {
            let rows = column_rows(
                self.tasks_vec,
                self.task_status_vec,
                (self.scrum_col_focus - 1) as usize,
            );
            DashboardCtrlView {
                scrum_col_list: rows,
                scrum_col_count: rows.len() as usize,
                ..self
            }
        } else {
            self
        }
    }

    /// The state after a project was asked for by key, and then its tasks. A
    /// project that the storage gives becomes the selected one, a failure is
    /// noted. Where the selected project is a stored one after that, its
    /// tasks are taken from `tasks`, none for a failure.
    pub open spec fn loaded(self, project: Result<ProjectView, DbError>, tasks: Rows) -> Self {
        let picked = match project {
            Ok(p) => DashboardCtrlView { projects: p, ..self },
            Err(e) => DashboardCtrlView { notice: Some(e), ..self },
        };
        if picked.projects.id > 0 {
            DashboardCtrlView {
                tasks_vec: match tasks {
                    Ok(rows) => rows,
                    Err(_) => Seq::empty(),
                },
                ..picked
            }
        } else {
            picked
        }
    }

    /// The state after the project of the sidebar's selected row was loaded:
    /// `loaded` for the key of that row, or the reason noted why the row has
    /// no usable key.
    pub open spec fn loaded_selection(
        self,
        project: Result<ProjectView, DbError>,
        tasks: Rows,
    ) -> Self {
        match spec_selected_key(self.projects_vec, self.l_state) {
            Ok(_) => self.loaded(project, tasks),
            Err(e) => DashboardCtrlView { notice: Some(e), ..self },
        }
    }

    /// One row up in the sidebar, and the project of the new row loaded.
    /// With no projects nothing happens.
    pub open spec fn previous_item(
        self,
        project: Result<ProjectView, DbError>,
        tasks: Rows,
    ) -> Self {
        if self.record_count > 0 {
            DashboardCtrlView {
                l_state: spec_previous(self.l_state, self.record_count),
                ..self
            }.loaded_selection(project, tasks)
        } else {
            self
        }
    }

    /// One row down in the sidebar, and the project of the new row loaded.
    pub open spec fn next_item(self, project: Result<ProjectView, DbError>, tasks: Rows) -> Self {
        if self.record_count > 0 {
            DashboardCtrlView {
                l_state: spec_next(self.l_state, self.record_count),
                ..self
            }.loaded_selection(project, tasks)
        } else {
            self
        }
    }

    pub open spec fn previous_task(self) -> Self {
        DashboardCtrlView {
            l_scrum_state: spec_previous(self.l_scrum_state, self.scrum_col_count),
            ..self
        }
    }

    pub open spec fn next_task(self) -> Self {
        DashboardCtrlView {
            l_scrum_state: spec_next(self.l_scrum_state, self.scrum_col_count),
            ..self
        }
    }

    /// The focus one step to the left, from the sidebar round to the last
    /// column. On the board the first row of the column is selected, on the
    /// sidebar no row of the board is.
    pub open spec fn focus_left(self) -> Self {
        let focus = if self.scrum_col_focus == 0 || self.scrum_col_focus > self.columns() {
            self.columns()
        } else {
            (self.scrum_col_focus - 1) as usize
        };
        DashboardCtrlView {
            scrum_col_focus: focus,
            l_scrum_state: if focus > 0 {
                Some(0usize)
            } else {
                None
            },
            ..self
        }
    }

    /// The focus one step to the right, from the last column round to the
    /// sidebar.
    pub open spec fn focus_right(self) -> Self {
        let focus = if self.scrum_col_focus >= self.columns() {
            0
        } else {
            (self.scrum_col_focus + 1) as usize
        };
        DashboardCtrlView {
            scrum_col_focus: focus,
            l_scrum_state: if focus > 0 {
                Some(0usize)
            } else {
                None
            },
            ..self
        }
    }

    /// What `P` or `N` asks for: nothing where the key is another, the focus
    /// is on the sidebar, or the focused column has no neighbour on that
    /// side; else the selected task of the focused column and the status of
    /// the neighbouring column, or the reason why one of the two has no
    /// usable key.
    pub open spec fn move_target(self, key: Key) -> Option<Result<Move, DbError>> {
        let to = if key == Key::Char('P') && self.scrum_col_focus > 1 && self.scrum_col_focus
            <= self.columns() {
            Some((self.scrum_col_focus - 2) as usize)
        } else if key == Key::Char('N') && self.scrum_col_focus > 0 && self.scrum_col_focus
            < self.columns() {
            Some(self.scrum_col_focus)
        } else {
            None
        };
        match to {
            None => None,
            Some(column) => Some(
                match spec_selected_key(self.scrum_col_list, self.l_scrum_state) {
                    Err(e) => Err(e),
                    Ok(task) => match spec_selected_key(self.task_status_vec, Some(column)) {
                        Err(e) => Err(e),
                        Ok(status) => Ok(Move { task, status }),
                    },
                },
            ),
        }
    }

    /// The state after a task was moved: it was fetched, saved with its new
    /// status, and the tasks of its project were read again. The first
    /// failure on that way is noted and ends it.
    pub open spec fn moved(
        self,
        fetched: Result<TaskView, DbError>,
        stored: Result<TaskView, DbError>,
        tasks: Rows,
    ) -> Self {
        match fetched {
            Err(e) => DashboardCtrlView { notice: Some(e), ..self },
            Ok(_) => match stored {
                Err(e) => DashboardCtrlView { notice: Some(e), ..self },
                Ok(_) => match tasks {
                    Err(e) => DashboardCtrlView { notice: Some(e), ..self },
                    Ok(rows) => DashboardCtrlView { tasks_vec: rows, ..self },
                },
            },
        }
    }

    /// What `P` or `N` does: nothing at all where `move_target` asks for
    /// nothing, the reason noted where it gives one, and else the move.
    pub open spec fn move_key(
        self,
        key: Key,
        fetched: Result<TaskView, DbError>,
        stored: Result<TaskView, DbError>,
        tasks: Rows,
    ) -> Self {
        match self.move_target(key) {
            None => self,
            Some(Err(e)) => DashboardCtrlView { notice: Some(e), ..self },
            Some(Ok(_)) => self.moved(fetched, stored, tasks),
        }
    }

    /// Back to the board, dropping what was typed.
    pub open spec fn go_back(self) -> Self {
        DashboardCtrlView { input: Seq::empty(), field_idx: 0, action: CtrlActions::List, ..self }
    }

    /// The typed text written into the field that `field_idx` addresses.
    pub open spec fn update_field(self) -> Self {
        if self.field_idx == 1 {
            DashboardCtrlView {
                projects: ProjectView { name: self.input, ..self.projects },
                ..self
            }
        } else if self.field_idx == 2 {
            DashboardCtrlView {
                projects: ProjectView { description: self.input, ..self.projects },
                ..self
            }
        } else {
            self
        }
    }

    /// What typing into the field at `idx` starts from: the text of the
    /// field that `update_field` writes at `idx`.
    pub open spec fn field_text(self, idx: u32) -> Seq<char> {
        if idx == 1 {
            self.projects.name
        } else if idx == 2 {
            self.projects.description
        } else {
            Seq::empty()
        }
    }

    /// While editing: on to the next field, the first one after the last.
    pub open spec fn set_next_active(self) -> Self {
        if self.action == CtrlActions::Edit {
            let idx = spec_next_field(self.field_idx, DASHBOARD_FORM_FIELDS);
            DashboardCtrlView { field_idx: idx, input: self.field_text(idx), ..self }
        } else {
            self
        }
    }

    /// What a key does to the board. Of the answers of the storage, the step
    /// reads those that its key asks for.
    pub open spec fn list_key(
        self,
        key: Key,
        project: Result<ProjectView, DbError>,
        tasks: Rows,
        fetched: Result<TaskView, DbError>,
        stored: Result<TaskView, DbError>,
    ) -> Self {
        match key {
            Key::Char(c) => if c == 'n' {
                DashboardCtrlView { action: CtrlActions::Edit, projects: Self::blank(), ..self }
            } else if c == 'P' || c == 'N' {
                self.move_key(key, fetched, stored, tasks)
            } else {
                self
            },
            Key::Left => self.focus_left(),
            Key::Right => self.focus_right(),
            Key::Up => if self.scrum_col_focus == 0 {
                self.previous_item(project, tasks)
            } else {
                self.previous_task()
            },
            Key::Down => if self.scrum_col_focus == 0 {
                self.next_item(project, tasks)
            } else {
                self.next_task()
            },
            _ => self,
        }
    }

    /// What the board answers to a key. `Tab` is let through only while the
    /// sidebar is in focus, so that it moves the menu on from there and
    /// nowhere else.
    pub open spec fn list_answer(self, key: Key) -> AppState {
        match key {
            Key::Char(c) => if c == 'n' || c == 'P' || c == 'N' {
                AppState::MoveOn
            } else {
                AppState::Running
            },
            Key::Tab => if self.scrum_col_focus == 0 {
                AppState::Running
            } else {
                AppState::MoveOn
            },
            Key::Left => AppState::MoveOn,
            Key::Right => AppState::MoveOn,
            Key::Up => AppState::MoveOn,
            Key::Down => AppState::MoveOn,
            _ => AppState::Running,
        }
    }
}

impl DashboardCtrlView {
    /// The state after the form's picker was opened over the projects that
    /// the storage gave: their number is noted, 0 for a failure.
    pub open spec fn popup_opened(self, found: Rows) -> Self {
        DashboardCtrlView {
            record_count: match found {
                Ok(rows) => rows.len() as usize,
                Err(_) => 0,
            },
            popup_type: PopupDashboardType::ProjectList,
            show_popup: true,
            ..self
        }
    }

    /// The state after the picker's choice was confirmed. With no row
    /// selected the storage is not asked and `InvalidSelection` is noted. A
    /// failed listing is noted, and so is a row without a usable key.
    /// Otherwise the key of the selected row becomes the key of the project
    /// at hand, and the picker closes.
    pub open spec fn popup_committed(self, found: Rows) -> Self {
        if self.l_state is None {
            DashboardCtrlView { notice: Some(DbError::InvalidSelection), ..self }
        } else {
            match found {
                Err(e) => DashboardCtrlView { notice: Some(e), ..self },
                Ok(rows) => match spec_selected_key(rows, self.l_state) {
                    Err(e) => DashboardCtrlView { notice: Some(e), ..self },
                    Ok(id) => DashboardCtrlView {
                        projects: ProjectView { id, ..self.projects },
                        show_popup: false,
                        popup_type: PopupDashboardType::NoPopup,
                        ..self
                    },
                },
            }
        }
    }

    /// What a key does to the open picker.
    pub open spec fn popup_key(
        self,
        key: Key,
        project: Result<ProjectView, DbError>,
        tasks: Rows,
        found: Rows,
    ) -> Self {
        match key {
            Key::Up => self.previous_item(project, tasks),
            Key::Down => self.next_item(project, tasks),
            Key::Esc => DashboardCtrlView { show_popup: false, ..self },
            Key::Enter => self.popup_committed(found),
            _ => self,
        }
    }

    /// What a typed character does to the form: on the first field a space
    /// opens the picker and anything else is dropped; on the other fields the
    /// character is typed.
    pub open spec fn typed(self, c: char, found: Rows) -> Self {
        if self.field_idx == 0 {
            if c == ' ' {
                self.popup_opened(found)
            } else {
                self
            }
        } else {
            DashboardCtrlView { input: self.input.push(c), ..self }.update_field()
        }
    }

    /// What a key does to the form. While the picker is open, it gets every
    /// key. The form saves nothing: `Enter` does nothing.
    pub open spec fn edit_key(
        self,
        key: Key,
        project: Result<ProjectView, DbError>,
        tasks: Rows,
        found: Rows,
    ) -> Self {
        if self.show_popup {
            self.popup_key(key, project, tasks, found)
        } else {
            match key {
                Key::Tab => self.set_next_active(),
                Key::Esc => self.go_back(),
                Key::Backspace => DashboardCtrlView {
                    input: if self.input.len() > 0 {
                        self.input.drop_last()
                    } else {
                        self.input
                    },
                    ..self
                }.update_field(),
                Key::Char(c) => self.typed(c, found),
                _ => self,
            }
        }
    }

    /// What a key does to the question before a delete. Nothing is deleted
    /// from here: only `Esc` does something.
    pub open spec fn del_key(self, key: Key) -> Self {
        match key {
            Key::Esc => self.go_back(),
            _ => self,
        }
    }

    /// What a key does to the detail view.
    pub open spec fn detail_key(self, key: Key) -> Self {
        match key {
            Key::Esc => self.go_back(),
            Key::Enter => DashboardCtrlView { action: CtrlActions::Edit, ..self },
            _ => self,
        }
    }

    /// What a key does to the dashboard, whatever it shows. The notice of the
    /// key before is dropped first.
    pub open spec fn key_pressed(
        self,
        key: Key,
        project: Result<ProjectView, DbError>,
        tasks: Rows,
        fetched: Result<TaskView, DbError>,
        stored: Result<TaskView, DbError>,
        found: Rows,
    ) -> Self {
        let fresh = DashboardCtrlView { notice: None, ..self };
        match self.action {
            CtrlActions::List => fresh.list_key(key, project, tasks, fetched, stored),
            CtrlActions::Edit => fresh.edit_key(key, project, tasks, found),
            CtrlActions::Detail => fresh.detail_key(key),
            CtrlActions::Del => fresh.del_key(key),
        }
    }

    /// What the dashboard answers to a key.
    pub open spec fn answer(self, key: Key) -> AppState {
        if self.action == CtrlActions::List {
            self.list_answer(key)
        } else {
            AppState::MoveOn
        }
    }

    /// The state after the projects and the statuses were read: the rows
    /// that the storage gave, none of either for a failure, and the number
    /// of the projects.
    pub open spec fn listed(self, projects: Rows, statuses: Rows) -> Self {
        let rows = match projects {
            Ok(rows) => rows,
            Err(_) => Seq::empty(),
        };
        DashboardCtrlView {
            projects_vec: rows,
            task_status_vec: match statuses {
                Ok(rows) => rows,
                Err(_) => Seq::empty(),
            },
            record_count: rows.len() as usize,
            ..self
        }
    }

    /// The state with a failure noted and nothing else changed.
    pub open spec fn noted(self, failure: DbError) -> Self {
        DashboardCtrlView { notice: Some(failure), ..self }
    }

    /// The state after the tasks were read again behind a move: the rows
    /// that the storage gave become the tasks at hand, a failure is noted.
    pub open spec fn tasks_reread(self, tasks: Rows) -> Self {
        match tasks {
            Ok(rows) => DashboardCtrlView { tasks_vec: rows, ..self },
            Err(e) => self.noted(e),
        }
    }

    /// The state after the dashboard read what it shows: the projects and the
    /// statuses, none of either for a failure. Where there are projects and
    /// none is selected, the first is selected and loaded. Last the focused
    /// column is filled.
    pub open spec fn initialized(
        self,
        projects: Rows,
        statuses: Rows,
        project: Result<ProjectView, DbError>,
        tasks: Rows,
    ) -> Self {
        let read = self.listed(projects, statuses);
        if read.projects_vec.len() > 0 && self.l_state is None {
            DashboardCtrlView { l_state: Some(0usize), ..read }.loaded_selection(
                project,
                tasks,
            ).synced()
        } else {
            read.synced()
        }
    }
}

impl Default for DashboardCtrl {
    fn default() -> (r: DashboardCtrl)
        ensures
            r@ == DashboardCtrlView::initial(),
    {
        let r = DashboardCtrl {
            projects: Project::default(),
            action: CtrlActions::List,
            active_item: 0,
            field_idx: 0,
            scrum_col_focus: 0,
            scrum_col_count: 0,
            scrum_col_list: Vec::new(),
            input: String::new(),
            l_state: None,
            l_scrum_state: None,
            record_count: 0,
            projects_vec: Vec::new(),
            tasks_vec: Vec::new(),
            task_status_vec: Vec::new(),
            show_popup: false,
            popup_type: PopupDashboardType::NoPopup,
            notice: None,
        };
        assert(r@.scrum_col_list =~= Seq::empty());
        assert(r@.projects_vec =~= Seq::empty());
        assert(r@.tasks_vec =~= Seq::empty());
        assert(r@.task_status_vec =~= Seq::empty());
        r
    }
}

/// The text of the statement that reads the tasks of one project in the
/// order of the board: by status, then the heavier first, then by name.
pub open spec fn project_tasks_sql() -> Seq<char> {
    "select id as id, name as name, status as status from task where project_id=? order by status asc, weight desc, name asc"@
}

/// The statement that reads key, name and status of the tasks of the project
/// with the key `project_id`, in the order of the board.
pub fn project_tasks_command(project_id: i32) -> (c: SqlCommand)
    ensures
        c.sql@ == project_tasks_sql(),
        texts(c.params@) == seq![int_text(project_id as int)],
{
    let mut params: Vec<String> = Vec::new();
    params.push(i32_text(project_id));
    assert(texts(params@) =~= seq![int_text(project_id as int)]);
    SqlCommand {
        sql: String::from_str(
            "select id as id, name as name, status as status from task where project_id=? order by status asc, weight desc, name asc",
        ),
        params,
    }
}

/// The names of the columns of `project_tasks_command`.
pub fn project_tasks_columns() -> (r: Vec<String>)
    ensures
        texts(r@) == seq!["id"@, "name"@, "status"@],
{
    let mut names: Vec<String> = Vec::new();
    names.push(String::from_str("id"));
    names.push(String::from_str("name"));
    names.push(String::from_str("status"));
    assert(texts(names@) =~= seq!["id"@, "name"@, "status"@]);
    names
}

/// The text of the statement that reads every task with the name of its
/// project, in the order of the board.
pub open spec fn board_tasks_sql() -> Seq<char> {
    "select t.id as id, t.project_id as project_id, t.parent_id as parent_id, t.name as name, t.description as description, t.weight as weight, t.status as status, t.created_by as created_by, t.created_at as created_at, t.updated_at as updated_at, p.name as project_name from task as t left join project as p on (t.project_id = p.id) order by t.status asc, t.weight desc, t.name asc"@
}

/// The statement that reads every task with the name of its project, in the
/// order of the board. It binds no parameter.
pub fn board_tasks_command() -> (c: SqlCommand)
    ensures
        c.sql@ == board_tasks_sql(),
        c.params@.len() == 0,
{
    SqlCommand {
        sql: String::from_str(
            "select t.id as id, t.project_id as project_id, t.parent_id as parent_id, t.name as name, t.description as description, t.weight as weight, t.status as status, t.created_by as created_by, t.created_at as created_at, t.updated_at as updated_at, p.name as project_name from task as t left join project as p on (t.project_id = p.id) order by t.status asc, t.weight desc, t.name asc",
        ),
        params: Vec::new(),
    }
}

/// The names of the columns of `board_tasks_command`: the fields of a task,
/// then the name of its project.
pub fn board_tasks_columns() -> (r: Vec<String>)
    ensures
        texts(r@) == Task::spec_fields().push("project_name"@),
{
    let mut names = Task::fields();
    let ghost fields = texts(names@);
    names.push(String::from_str("project_name"));
    assert(texts(names@) =~= fields.push("project_name"@));
    names
}

/// The text of the statement that reads key and name of every status, by
/// key.
pub open spec fn task_status_sql() -> Seq<char> {
    "select id as id, name as name from task_status order by id"@
}

/// The statement that reads key and name of every status, by key. It binds
/// no parameter.
pub fn task_status_command() -> (c: SqlCommand)
    ensures
        c.sql@ == task_status_sql(),
        c.params@.len() == 0,
{
    SqlCommand {
        sql: String::from_str("select id as id, name as name from task_status order by id"),
        params: Vec::new(),
    }
}

/// The task with another status and everything else as it was.
pub fn with_status(task: Task, status: i32) -> (r: Task)
    ensures
        r@ == (TaskView { status, ..task@ }),
{
    let mut moved = task;
    moved.status = status;
    moved
}

/// The rows that name `status`, in the order they come in.
pub fn tasks_with_status(rows: &Vec<Record>, status: i32) -> (r: Vec<Record>)
    ensures
        records_view(r@) == rows_with_status(records_view(rows@), status),
{
    let mut out: Vec<Record> = Vec::new();
    let mut i: usize = 0;
    let ghost all = records_view(rows@);
    assert(all.subrange(0, 0) =~= Seq::empty());
    assert(records_view(out@) =~= Seq::empty());
    while i < rows.len()
        invariant
            i <= rows.len(),
            all == records_view(rows@),
            records_view(out@) == rows_with_status(all.subrange(0, i as int), status),
        decreases rows.len() - i,
    {
        let ghost before = all.subrange(0, i as int);
        let ghost after = all.subrange(0, i + 1);
        assert(after.drop_last() =~= before);
        assert(after.last() == rows@[i as int]@);
        let named = match rows[i].get("status") {
            Some(text) => match parse_i32(text.as_str()) {
                Some(v) => v == status,
                None => false,
            },
            None => false,
        };
        assert(named == has_status(rows@[i as int]@, status));
        if named {
            let ghost kept = records_view(out@);
            out.push(rows[i].clone());
            assert(records_view(out@) =~= kept.push(rows@[i as int]@));
        }
        i = i + 1;
    }
    assert(all.subrange(0, i as int) =~= all);
    out
}

impl DashboardCtrl {
    /// The tasks of one column of the board.
    pub fn board_column(&self, column: usize) -> (r: Vec<Record>)
        ensures
            records_view(r@) == column_rows(self@.tasks_vec, self@.task_status_vec, column),
    {
        match selected_key(&self.task_status_vec, Some(column)) {
            Ok(status) => tasks_with_status(&self.tasks_vec, status),
            Err(_) => {
                let none: Vec<Record> = Vec::new();
                assert(records_view(none@) =~= Seq::empty());
                none
            },
        }
    }

    /// Fills the focused column from the tasks at hand.
    pub fn sync_board(&mut self)
        ensures
            final(self)@ == old(self)@.synced(),
    {
        if self.scrum_col_focus > 0 {
            let rows = self.board_column(self.scrum_col_focus - 1);
            self.scrum_col_count = rows.len();
            self.scrum_col_list = rows;
        }
    }

    /// Reads every task with the name of its project, in the order of the
    /// board, and notes how many there are.
    pub fn task_list(&mut self, conn: Option<&Connection>) -> (r: Result<Vec<Record>, DbError>)
        ensures
            match r {
                Ok(found) => final(self)@ == (DashboardCtrlView {
                    record_count: found@.len() as usize,
                    ..old(self)@
                }),
                Err(_) => final(self)@ == old(self)@,
            },
            conn is None ==> r == Err::<Vec<Record>, DbError>(DbError::Connection),
            r matches Err(e) ==> e == DbError::Connection || e == DbError::Query,
    {
        let found = ask_named(conn, &board_tasks_command(), &board_tasks_columns());
        match found {
            Ok(list) => {
                self.record_count = list.len();
                Ok(list)
            },
            Err(e) => Err(e),
        }
    }

    /// Reads key and name of every project, by name.
    pub fn project_list(&mut self, conn: Option<&Connection>) -> (r: Result<Vec<Record>, DbError>)
        ensures
            *final(self) == *old(self),
            conn is None ==> r == Err::<Vec<Record>, DbError>(DbError::Connection),
            r matches Err(e) ==> e == DbError::Connection || e == DbError::Query,
    {
        ask_named(conn, &project_list_command(), &id_name_columns())
    }

    /// Reads key and name of every status, by key.
    pub fn task_status(&mut self, conn: Option<&Connection>) -> (r: Result<Vec<Record>, DbError>)
        ensures
            *final(self) == *old(self),
            conn is None ==> r == Err::<Vec<Record>, DbError>(DbError::Connection),
            r matches Err(e) ==> e == DbError::Connection || e == DbError::Query,
    {
        ask_named(conn, &task_status_command(), &id_name_columns())
    }

    /// Reads key, name and status of the tasks of one project, in the order
    /// of the board: by status, then the heavier first, then by name.
    pub fn project_tasks(&mut self, conn: Option<&Connection>, project_id: i32) -> (r: Result<
        Vec<Record>,
        DbError,
    >)
        ensures
            *final(self) == *old(self),
            conn is None ==> r == Err::<Vec<Record>, DbError>(DbError::Connection),
            r matches Err(e) ==> e == DbError::Connection || e == DbError::Query,
    {
        ask_named(conn, &project_tasks_command(project_id), &project_tasks_columns())
    }

    /// Writes the typed text into the field that `field_idx` addresses.
    pub fn update_field(&mut self)
        ensures
            final(self)@ == old(self)@.update_field(),
    {
        if self.field_idx == 1 {
            self.projects.name = self.input.clone();
        } else if self.field_idx == 2 {
            self.projects.description = self.input.clone();
        }
    }

    /// Takes the answers of the two readings that load a project.
    fn take_project(&mut self, project: Result<Project, DbError>)
        ensures
            final(self)@ == match project {
                Ok(p) => DashboardCtrlView { projects: p@, ..old(self)@ },
                Err(e) => DashboardCtrlView { notice: Some(e), ..old(self)@ },
            },
    {
        match project {
            Ok(p) => {
                self.projects = p;
            },
            Err(e) => {
                self.notice = Some(e);
            },
        }
    }

    fn take_tasks(&mut self, tasks: Result<Vec<Record>, DbError>)
        ensures
            final(self)@ == (DashboardCtrlView {
                tasks_vec: match records_answer(tasks) {
                    Ok(rows) => rows,
                    Err(_) => Seq::empty(),
                },
                ..old(self)@
            }),
    {
        match tasks {
            Ok(list) => {
                self.tasks_vec = list;
            },
            Err(_) => {
                self.tasks_vec = Vec::new();
                assert(records_view(self.tasks_vec@) =~= Seq::empty());
            },
        }
    }

    /// Loads the project with the key `id`, and the tasks of the project
    /// that is selected after that.
    pub fn load_selected_project(&mut self, conn: Option<&Connection>, id: i32)
        ensures
            exists|project: Result<ProjectView, DbError>, tasks: Rows|
                final(self)@ == #[trigger] old(self)@.loaded(project, tasks),
            conn is None ==> final(self)@ == old(self)@.loaded(Err::<ProjectView, DbError>(DbError::Connection), Err::<RowSeq, DbError>(DbError::Connection)),
    {
        let ghost unread: Rows = Err(DbError::Connection);
        let project = match conn {
            Some(conn) => Project::get_by_id(conn, id),
            None => Err(DbError::Connection),
        };
        let ghost answer = answer_view(project);
        self.take_project(project);
        if self.projects.id > 0 {
            let tasks = self.project_tasks(conn, self.projects.id);
            let ghost rows = records_answer(tasks);
            self.take_tasks(tasks);
            assert(self@ == old(self)@.loaded(answer, rows));
        } else {
            assert(self@ == old(self)@.loaded(answer, unread));
        }
    }

    /// Loads the project of the sidebar's selected row.
    pub fn load_selection(&mut self, conn: Option<&Connection>)
        ensures
            exists|project: Result<ProjectView, DbError>, tasks: Rows|
                final(self)@ == #[trigger] old(self)@.loaded_selection(project, tasks),
            conn is None ==> final(self)@ == old(self)@.loaded_selection(Err::<ProjectView, DbError>(DbError::Connection), Err::<RowSeq, DbError>(DbError::Connection)),
    {
        let ghost unasked: Result<ProjectView, DbError> = Err(DbError::Connection);
        let ghost unread: Rows = Err(DbError::Connection);
        match selected_key(&self.projects_vec, self.l_state) {
            Ok(id) => {
                self.load_selected_project(conn, id);
                proof {
                    let (project, tasks) = choose|project: Result<ProjectView, DbError>, tasks: Rows|
                        self@ == #[trigger] old(self)@.loaded(project, tasks);
                    assert(self@ == old(self)@.loaded_selection(project, tasks));
                    if conn is None {
                        assert(self@ == old(self)@.loaded_selection(unasked, unread));
                    }
                }
            },
            Err(e) => {
                self.notice = Some(e);
                assert(self@ == old(self)@.loaded_selection(unasked, unread));
            },
        }
    }

    /// Takes the projects and the statuses that the storage gave.
    pub fn apply_listed(
        &mut self,
        projects: Result<Vec<Record>, DbError>,
        statuses: Result<Vec<Record>, DbError>,
    )
        ensures
            final(self)@ == old(self)@.listed(records_answer(projects), records_answer(statuses)),
    {
        match projects {
            Ok(list) => {
                self.projects_vec = list;
            },
            Err(_) => {
                self.projects_vec = Vec::new();
                assert(records_view(self.projects_vec@) =~= Seq::empty());
            },
        }
        match statuses {
            Ok(list) => {
                self.task_status_vec = list;
            },
            Err(_) => {
                self.task_status_vec = Vec::new();
                assert(records_view(self.task_status_vec@) =~= Seq::empty());
            },
        }
        self.record_count = self.projects_vec.len();
    }

    /// Nothing: the dashboard has no table of its own.
    pub fn previous_row(&mut self)
        ensures
            *final(self) == *old(self),
    {
    }

    /// Nothing: the dashboard has no table of its own.
    pub fn next_row(&mut self)
        ensures
            *final(self) == *old(self),
    {
    }

    pub fn previous_task(&mut self)
        ensures
            final(self)@ == old(self)@.previous_task(),
    {
        self.l_scrum_state = previous_index(self.l_scrum_state, self.scrum_col_count);
    }

    pub fn next_task(&mut self)
        ensures
            final(self)@ == old(self)@.next_task(),
    {
        self.l_scrum_state = next_index(self.l_scrum_state, self.scrum_col_count);
    }

    pub fn previous_item(&mut self, conn: Option<&Connection>)
        ensures
            exists|project: Result<ProjectView, DbError>, tasks: Rows|
                final(self)@ == #[trigger] old(self)@.previous_item(project, tasks),
            conn is None ==> final(self)@ == old(self)@.previous_item(Err::<ProjectView, DbError>(DbError::Connection), Err::<RowSeq, DbError>(DbError::Connection)),
    {
        let ghost unasked: Result<ProjectView, DbError> = Err(DbError::Connection);
        let ghost unread: Rows = Err(DbError::Connection);
        if self.record_count > 0 {
            self.l_state = previous_index(self.l_state, self.record_count);
            let ghost stepped = self@;
            self.load_selection(conn);
            proof {
                let (project, tasks) = choose|project: Result<ProjectView, DbError>, tasks: Rows|
                    self@ == #[trigger] stepped.loaded_selection(project, tasks);
                assert(self@ == old(self)@.previous_item(project, tasks));
                if conn is None {
                    assert(self@ == old(self)@.previous_item(unasked, unread));
                }
            }
        } else {
            assert(self@ == old(self)@.previous_item(unasked, unread));
        }
    }

    pub fn next_item(&mut self, conn: Option<&Connection>)
        ensures
            exists|project: Result<ProjectView, DbError>, tasks: Rows|
                final(self)@ == #[trigger] old(self)@.next_item(project, tasks),
            conn is None ==> final(self)@ == old(self)@.next_item(Err::<ProjectView, DbError>(DbError::Connection), Err::<RowSeq, DbError>(DbError::Connection)),
    {
        let ghost unasked: Result<ProjectView, DbError> = Err(DbError::Connection);
        let ghost unread: Rows = Err(DbError::Connection);
        if self.record_count > 0 {
            self.l_state = next_index(self.l_state, self.record_count);
            let ghost stepped = self@;
            self.load_selection(conn);
            proof {
                let (project, tasks) = choose|project: Result<ProjectView, DbError>, tasks: Rows|
                    self@ == #[trigger] stepped.loaded_selection(project, tasks);
                assert(self@ == old(self)@.next_item(project, tasks));
                if conn is None {
                    assert(self@ == old(self)@.next_item(unasked, unread));
                }
            }
        } else {
            assert(self@ == old(self)@.next_item(unasked, unread));
        }
    }

    /// Notes a failure.
    pub fn note(&mut self, failure: DbError)
        ensures
            final(self)@ == old(self)@.noted(failure),
    {
        self.notice = Some(failure);
    }

    /// Takes the tasks that were read again behind a move.
    pub fn apply_moved(&mut self, tasks: Result<Vec<Record>, DbError>)
        ensures
            final(self)@ == old(self)@.tasks_reread(records_answer(tasks)),
    {
        match tasks {
            Ok(list) => {
                self.tasks_vec = list;
            },
            Err(e) => {
                self.note(e);
            },
        }
    }

    /// Gives one task another status and reads the tasks of its project
    /// again: the task is fetched by its key, saved as `with_status` makes
    /// it, and the tasks of the saved task's project are read by
    /// `project_tasks`. The first failure on that way is noted and ends it.
    /// Without a connection the storage is not asked.
    pub fn update_scrum_task(&mut self, conn: Option<&Connection>, task_id: i32, task_status: i32)
        ensures
            exists|
                fetched: Result<TaskView, DbError>,
                stored: Result<TaskView, DbError>,
                tasks: Rows,
            |
                final(self)@ == #[trigger] old(self)@.moved(fetched, stored, tasks),
            conn is None ==> final(self)@ == old(self)@.noted(DbError::Connection),
    {
        let ghost no_task: Result<TaskView, DbError> = Err(DbError::Connection);
        let ghost unread: Rows = Err(DbError::Connection);
        match conn {
            None => {
                self.note(DbError::Connection);
                assert(self@ == old(self)@.moved(no_task, no_task, unread));
            },
            Some(open) => match Task::get_by_id(open, task_id) {
                Err(e) => {
                    self.note(e);
                    assert(self@ == old(self)@.moved(
                        Err::<TaskView, DbError>(e),
                        no_task,
                        unread,
                    ));
                },
                Ok(found) => {
                    let ghost fetched: Result<TaskView, DbError> = Ok(found@);
                    let task = with_status(found, task_status);
                    match task.save(open) {
                        Err(e) => {
                            self.note(e);
                            assert(self@ == old(self)@.moved(
                                fetched,
                                Err::<TaskView, DbError>(e),
                                unread,
                            ));
                        },
                        Ok(updated) => {
                            let ghost stored: Result<TaskView, DbError> = Ok(updated@);
                            let tasks = self.project_tasks(conn, updated.project_id);
                            let ghost rows = records_answer(tasks);
                            self.apply_moved(tasks);
                            assert(self@ == old(self)@.moved(fetched, stored, rows));
                        },
                    }
                },
            },
        }
    }

    /// What `P` or `N` asks for.
    pub fn move_target(&self, key: &Key) -> (r: Option<Result<Move, DbError>>)
        ensures
            r == self@.move_target(*key),
    {
        let columns = self.task_status_vec.len();
        let to = match key {
            Key::Char(c) => {
                if *c == 'P' && self.scrum_col_focus > 1 && self.scrum_col_focus <= columns {
                    Some(self.scrum_col_focus - 2)
                } else if *c == 'N' && self.scrum_col_focus > 0 && self.scrum_col_focus < columns {
                    Some(self.scrum_col_focus)
                } else {
                    None
                }
            },
            _ => None,
        };
        match to {
            None => None,
            Some(column) => Some(
                match selected_key(&self.scrum_col_list, self.l_scrum_state) {
                    Err(e) => Err(e),
                    Ok(task) => match selected_key(&self.task_status_vec, Some(column)) {
                        Err(e) => Err(e),
                        Ok(status) => Ok(Move { task, status }),
                    },
                },
            ),
        }
    }
}

impl DashboardCtrl {
    /// Moves the focus one step to the left.
    pub fn focus_left(&mut self)
        ensures
            final(self)@ == old(self)@.focus_left(),
    {
        let columns = self.task_status_vec.len();
        if self.scrum_col_focus == 0 || self.scrum_col_focus > columns {
            self.scrum_col_focus = columns;
        } else {
            self.scrum_col_focus = self.scrum_col_focus - 1;
        }
        self.l_scrum_state = if self.scrum_col_focus > 0 {
            Some(0)
        } else {
            None
        };
    }

    /// Moves the focus one step to the right.
    pub fn focus_right(&mut self)
        ensures
            final(self)@ == old(self)@.focus_right(),
    {
        let columns = self.task_status_vec.len();
        if self.scrum_col_focus >= columns {
            self.scrum_col_focus = 0;
        } else {
            self.scrum_col_focus = self.scrum_col_focus + 1;
        }
        self.l_scrum_state = if self.scrum_col_focus > 0 {
            Some(0)
        } else {
            None
        };
    }

    /// Does what `P` or `N` asks for.
    pub fn move_key_event(&mut self, conn: Option<&Connection>, key: &Key)
        ensures
            old(self)@.move_target(*key) is None ==> *final(self) == *old(self),
            exists|
                fetched: Result<TaskView, DbError>,
                stored: Result<TaskView, DbError>,
                tasks: Rows,
            |
                final(self)@ == #[trigger] old(self)@.move_key(*key, fetched, stored, tasks),
            conn is None ==> final(self)@ == old(self)@.move_key(*key, Err::<TaskView, DbError>(DbError::Connection), Err::<TaskView, DbError>(DbError::Connection), Err::<RowSeq, DbError>(DbError::Connection)),
    {
        let ghost no_task: Result<TaskView, DbError> = Err(DbError::Connection);
        let ghost unread: Rows = Err(DbError::Connection);
        match self.move_target(key) {
            None => {
                assert(self@ == old(self)@.move_key(*key, no_task, no_task, unread));
            },
            Some(Err(e)) => {
                self.notice = Some(e);
                assert(self@ == old(self)@.move_key(*key, no_task, no_task, unread));
            },
            Some(Ok(target)) => {
                self.update_scrum_task(conn, target.task, target.status);
                proof {
                    let (fetched, stored, tasks) = choose|
                        fetched: Result<TaskView, DbError>,
                        stored: Result<TaskView, DbError>,
                        tasks: Rows,
                    |
                        self@ == #[trigger] old(self)@.moved(fetched, stored, tasks);
                    assert(self@ == old(self)@.move_key(*key, fetched, stored, tasks));
                    if conn is None {
                        assert(self@ == old(self)@.move_key(*key, no_task, no_task, unread));
                    }
                }
            },
        }
    }

    pub fn list_key_event(&mut self, conn: Option<&Connection>, key: &Key) -> (r: AppState)
        ensures
            r == old(self)@.list_answer(*key),
            exists|
                project: Result<ProjectView, DbError>,
                tasks: Rows,
                fetched: Result<TaskView, DbError>,
                stored: Result<TaskView, DbError>,
            |
                final(self)@ == #[trigger] old(self)@.list_key(
                    *key,
                    project,
                    tasks,
                    fetched,
                    stored,
                ),
            (*key == Key::Char('P') || *key == Key::Char('N')) && old(self)@.move_target(*key)
                is None ==> *final(self) == *old(self),
            conn is None ==> final(self)@ == old(self)@.list_key(
                *key,
                Err::<ProjectView, DbError>(DbError::Connection),
                Err::<RowSeq, DbError>(DbError::Connection),
                Err::<TaskView, DbError>(DbError::Connection),
                Err::<TaskView, DbError>(DbError::Connection),
            ),
    {
        let ghost no_project: Result<ProjectView, DbError> = Err(DbError::Connection);
        let ghost no_task: Result<TaskView, DbError> = Err(DbError::Connection);
        let ghost unread: Rows = Err(DbError::Connection);
        match key {
            Key::Char(c) => {
                if *c == 'n' {
                    self.action = CtrlActions::Edit;
                    self.projects = Project::default();
                    assert(self@ == old(self)@.list_key(*key, no_project, unread, no_task, no_task));
                    AppState::MoveOn
                } else if *c == 'P' || *c == 'N' {
                    self.move_key_event(conn, key);
                    proof {
                        let (fetched, stored, tasks) = choose|
                            fetched: Result<TaskView, DbError>,
                            stored: Result<TaskView, DbError>,
                            tasks: Rows,
                        |
                            self@ == #[trigger] old(self)@.move_key(*key, fetched, stored, tasks);
                        assert(self@ == old(self)@.list_key(
                            *key,
                            no_project,
                            tasks,
                            fetched,
                            stored,
                        ));
                        if conn is None {
                            assert(self@ == old(self)@.list_key(
                                *key,
                                no_project,
                                unread,
                                no_task,
                                no_task,
                            ));
                        }
                    }
                    AppState::MoveOn
                } else {
                    assert(self@ == old(self)@.list_key(*key, no_project, unread, no_task, no_task));
                    AppState::Running
                }
            },
            Key::Tab => {
                assert(self@ == old(self)@.list_key(*key, no_project, unread, no_task, no_task));
                if self.scrum_col_focus == 0 {
                    AppState::Running
                } else {
                    AppState::MoveOn
                }
            },
            Key::Left => {
                self.focus_left();
                assert(self@ == old(self)@.list_key(*key, no_project, unread, no_task, no_task));
                AppState::MoveOn
            },
            Key::Right => {
                self.focus_right();
                assert(self@ == old(self)@.list_key(*key, no_project, unread, no_task, no_task));
                AppState::MoveOn
            },
            Key::Up => {
                if self.scrum_col_focus == 0 {
                    self.previous_item(conn);
                    proof {
                        let (project, tasks) = choose|
                            project: Result<ProjectView, DbError>,
                            tasks: Rows,
                        |
                            self@ == #[trigger] old(self)@.previous_item(project, tasks);
                        assert(self@ == old(self)@.list_key(*key, project, tasks, no_task, no_task));
                        if conn is None {
                            assert(self@ == old(self)@.list_key(
                                *key,
                                no_project,
                                unread,
                                no_task,
                                no_task,
                            ));
                        }
                    }
                } else {
                    self.previous_task();
                    assert(self@ == old(self)@.list_key(*key, no_project, unread, no_task, no_task));
                }
                AppState::MoveOn
            },
            Key::Down => {
                if self.scrum_col_focus == 0 {
                    self.next_item(conn);
                    proof {
                        let (project, tasks) = choose|
                            project: Result<ProjectView, DbError>,
                            tasks: Rows,
                        |
                            self@ == #[trigger] old(self)@.next_item(project, tasks);
                        assert(self@ == old(self)@.list_key(*key, project, tasks, no_task, no_task));
                        if conn is None {
                            assert(self@ == old(self)@.list_key(
                                *key,
                                no_project,
                                unread,
                                no_task,
                                no_task,
                            ));
                        }
                    }
                } else {
                    self.next_task();
                    assert(self@ == old(self)@.list_key(*key, no_project, unread, no_task, no_task));
                }
                AppState::MoveOn
            },
            _ => {
                assert(self@ == old(self)@.list_key(*key, no_project, unread, no_task, no_task));
                AppState::Running
            },
        }
    }

    /// Back to the board, dropping what was typed.
    pub fn go_back(&mut self)
        ensures
            final(self)@ == old(self)@.go_back(),
    {
        self.input = String::new();
        self.field_idx = 0;
        self.action = CtrlActions::List;
    }

    pub fn del_key_event(&mut self, key: &Key) -> (r: AppState)
        ensures
            r == AppState::MoveOn,
            final(self)@ == old(self)@.del_key(*key),
    {
        match key {
            Key::Esc => {
                self.go_back();
            },
            _ => {},
        }
        AppState::MoveOn
    }

    pub fn detail_key_event(&mut self, key: &Key) -> (r: AppState)
        ensures
            r == AppState::MoveOn,
            final(self)@ == old(self)@.detail_key(*key),
    {
        match key {
            Key::Esc => {
                self.go_back();
            },
            Key::Enter => {
                self.action = CtrlActions::Edit;
            },
            _ => {},
        }
        AppState::MoveOn
    }

    /// Takes the rows that the storage gave for the picker's choice.
    pub fn apply_popup_committed(&mut self, found: Result<Vec<Record>, DbError>)
        ensures
            final(self)@ == old(self)@.popup_committed(records_answer(found)),
    {
        if self.l_state.is_none() {
            self.notice = Some(DbError::InvalidSelection);
            return;
        }
        match found {
            Err(e) => {
                self.notice = Some(e);
            },
            Ok(results) => match selected_key(&results, self.l_state) {
                Err(e) => {
                    self.notice = Some(e);
                },
                Ok(id) => {
                    self.projects.id = id;
                    self.show_popup = false;
                    self.popup_type = PopupDashboardType::NoPopup;
                },
            },
        }
    }

    pub fn popup_key_event(&mut self, conn: Option<&Connection>, key: &Key) -> (r: AppState)
        ensures
            r == AppState::MoveOn,
            exists|project: Result<ProjectView, DbError>, tasks: Rows, found: Rows|
                final(self)@ == #[trigger] old(self)@.popup_key(*key, project, tasks, found),
            conn is None ==> final(self)@ == old(self)@.popup_key(*key, Err::<ProjectView, DbError>(DbError::Connection), Err::<RowSeq, DbError>(DbError::Connection), Err::<RowSeq, DbError>(DbError::Connection)),
    {
        let ghost no_project: Result<ProjectView, DbError> = Err(DbError::Connection);
        let ghost unread: Rows = Err(DbError::Connection);
        match key {
            Key::Up => {
                self.previous_item(conn);
                proof {
                    let (project, tasks) = choose|project: Result<ProjectView, DbError>, tasks: Rows|
                        self@ == #[trigger] old(self)@.previous_item(project, tasks);
                    assert(self@ == old(self)@.popup_key(*key, project, tasks, unread));
                    if conn is None {
                        assert(self@ == old(self)@.popup_key(*key, no_project, unread, unread));
                    }
                }
            },
            Key::Down => {
                self.next_item(conn);
                proof {
                    let (project, tasks) = choose|project: Result<ProjectView, DbError>, tasks: Rows|
                        self@ == #[trigger] old(self)@.next_item(project, tasks);
                    assert(self@ == old(self)@.popup_key(*key, project, tasks, unread));
                    if conn is None {
                        assert(self@ == old(self)@.popup_key(*key, no_project, unread, unread));
                    }
                }
            },
            Key::Esc => {
                self.show_popup = false;
                assert(self@ == old(self)@.popup_key(*key, no_project, unread, unread));
            },
            Key::Enter => {
                if self.l_state.is_none() {
                    self.notice = Some(DbError::InvalidSelection);
                    assert(self@ == old(self)@.popup_key(*key, no_project, unread, unread));
                } else {
                    let found = self.project_list(conn);
                    let ghost answer = records_answer(found);
                    self.apply_popup_committed(found);
                    assert(self@ == old(self)@.popup_key(*key, no_project, unread, answer));
                }
            },
            _ => {
                assert(self@ == old(self)@.popup_key(*key, no_project, unread, unread));
            },
        }
        AppState::MoveOn
    }

    /// Opens the picker over the projects that the storage gave for it.
    pub fn open_popup(&mut self, found: Result<Vec<Record>, DbError>)
        ensures
            final(self)@ == old(self)@.popup_opened(records_answer(found)),
    {
        match found {
            Ok(results) => {
                self.record_count = results.len();
            },
            Err(_) => {
                self.record_count = 0;
            },
        }
        self.popup_type = PopupDashboardType::ProjectList;
        self.show_popup = true;
    }

    pub fn edit_key_event(&mut self, conn: Option<&Connection>, key: &Key) -> (r: AppState)
        ensures
            r == AppState::MoveOn,
            exists|project: Result<ProjectView, DbError>, tasks: Rows, found: Rows|
                final(self)@ == #[trigger] old(self)@.edit_key(*key, project, tasks, found),
            conn is None ==> final(self)@ == old(self)@.edit_key(*key, Err::<ProjectView, DbError>(DbError::Connection), Err::<RowSeq, DbError>(DbError::Connection), Err::<RowSeq, DbError>(DbError::Connection)),
    {
        let ghost no_project: Result<ProjectView, DbError> = Err(DbError::Connection);
        let ghost unread: Rows = Err(DbError::Connection);
        if self.show_popup {
            let r = self.popup_key_event(conn, key);
            proof {
                let (project, tasks, found) = choose|
                    project: Result<ProjectView, DbError>,
                    tasks: Rows,
                    found: Rows,
                |
                    self@ == #[trigger] old(self)@.popup_key(*key, project, tasks, found);
                assert(self@ == old(self)@.edit_key(*key, project, tasks, found));
                if conn is None {
                    assert(self@ == old(self)@.edit_key(*key, no_project, unread, unread));
                }
            }
            return r;
        }
        match key {
            Key::Tab => {
                self.set_next_active();
                assert(self@ == old(self)@.edit_key(*key, no_project, unread, unread));
            },
            Key::Esc => {
                self.go_back();
                assert(self@ == old(self)@.edit_key(*key, no_project, unread, unread));
            },
            Key::Backspace => {
                pop_char(&mut self.input);
                self.update_field();
                assert(self@ == old(self)@.edit_key(*key, no_project, unread, unread));
            },
            Key::Char(c) => {
                if self.field_idx == 0 {
                    if *c == ' ' {
                        let found = self.project_list(conn);
                        let ghost answer = records_answer(found);
                        self.open_popup(found);
                        assert(self@ == old(self)@.edit_key(*key, no_project, unread, answer));
                    } else {
                        assert(self@ == old(self)@.edit_key(*key, no_project, unread, unread));
                    }
                } else {
                    push_char(&mut self.input, *c);
                    self.update_field();
                    assert(self@ == old(self)@.edit_key(*key, no_project, unread, unread));
                }
            },
            _ => {
                assert(self@ == old(self)@.edit_key(*key, no_project, unread, unread));
            },
        }
        AppState::MoveOn
    }

    /// While editing: on to the next field of the form.
    pub fn set_next_active(&mut self)
        ensures
            final(self)@ == old(self)@.set_next_active(),
    {
        match self.action {
            CtrlActions::Edit => {
                self.field_idx = next_field(self.field_idx, DASHBOARD_FORM_FIELDS);
                self.input = if self.field_idx == 1 {
                    self.projects.name.clone()
                } else if self.field_idx == 2 {
                    self.projects.description.clone()
                } else {
                    String::new()
                };
            },
            _ => {},
        }
    }
}

impl CtrObj for DashboardCtrl {
    /// Reads the projects and the statuses, selects and loads the first
    /// project where none is selected, and fills the focused column.
    /// Without a connection the storage is not asked, and the dashboard
    /// shows no project and no status.
    fn init_data(&mut self, conn: Option<&Connection>)
        ensures
            exists|
                projects: Rows,
                statuses: Rows,
                project: Result<ProjectView, DbError>,
                tasks: Rows,
            |
                final(self)@ == #[trigger] old(self)@.initialized(
                    projects,
                    statuses,
                    project,
                    tasks,
                ),
            conn is None ==> final(self)@ == old(self)@.initialized(
                Err::<RowSeq, DbError>(DbError::Connection),
                Err::<RowSeq, DbError>(DbError::Connection),
                Err::<ProjectView, DbError>(DbError::Connection),
                Err::<RowSeq, DbError>(DbError::Connection),
            ),
    {
        let ghost no_project: Result<ProjectView, DbError> = Err(DbError::Connection);
        let ghost unread: Rows = Err(DbError::Connection);
        let projects = self.project_list(conn);
        let ghost projects_answer = records_answer(projects);
        let statuses = self.task_status(conn);
        let ghost statuses_answer = records_answer(statuses);
        self.apply_listed(projects, statuses);
        if self.projects_vec.len() > 0 && self.l_state.is_none() {
            self.l_state = Some(0);
            let ghost selected = self@;
            self.load_selection(conn);
            let ghost loaded = self@;
            self.sync_board();
            proof {
                let (project, tasks) = choose|project: Result<ProjectView, DbError>, tasks: Rows|
                    loaded == #[trigger] selected.loaded_selection(project, tasks);
                assert(self@ == old(self)@.initialized(
                    projects_answer,
                    statuses_answer,
                    project,
                    tasks,
                ));
            }
        } else {
            self.sync_board();
            assert(self@ == old(self)@.initialized(
                projects_answer,
                statuses_answer,
                no_project,
                unread,
            ));
        }
    }

    fn key_event_handler(&mut self, conn: Option<&Connection>, key: &Key) -> (r: AppState)
        ensures
            r == old(self)@.answer(*key),
            exists|
                project: Result<ProjectView, DbError>,
                tasks: Rows,
                fetched: Result<TaskView, DbError>,
                stored: Result<TaskView, DbError>,
                found: Rows,
            |
                final(self)@ == #[trigger] old(self)@.key_pressed(
                    *key,
                    project,
                    tasks,
                    fetched,
                    stored,
                    found,
                ),
            conn is None ==> final(self)@ == old(self)@.key_pressed(
                *key,
                Err::<ProjectView, DbError>(DbError::Connection),
                Err::<RowSeq, DbError>(DbError::Connection),
                Err::<TaskView, DbError>(DbError::Connection),
                Err::<TaskView, DbError>(DbError::Connection),
                Err::<RowSeq, DbError>(DbError::Connection),
            ),
    {
        self.notice = None;
        let ghost fresh = self@;
        let ghost no_project: Result<ProjectView, DbError> = Err(DbError::Connection);
        let ghost no_task: Result<TaskView, DbError> = Err(DbError::Connection);
        let ghost unread: Rows = Err(DbError::Connection);
        match self.action {
            CtrlActions::List => {
                let r = self.list_key_event(conn, key);
                proof {
                    let (project, tasks, fetched, stored) = choose|
                        project: Result<ProjectView, DbError>,
                        tasks: Rows,
                        fetched: Result<TaskView, DbError>,
                        stored: Result<TaskView, DbError>,
                    |
                        self@ == #[trigger] fresh.list_key(*key, project, tasks, fetched, stored);
                    assert(self@ == old(self)@.key_pressed(
                        *key,
                        project,
                        tasks,
                        fetched,
                        stored,
                        unread,
                    ));
                }
                r
            },
            CtrlActions::Edit => {
                let r = self.edit_key_event(conn, key);
                proof {
                    let (project, tasks, found) = choose|
                        project: Result<ProjectView, DbError>,
                        tasks: Rows,
                        found: Rows,
                    |
                        self@ == #[trigger] fresh.edit_key(*key, project, tasks, found);
                    assert(self@ == old(self)@.key_pressed(
                        *key,
                        project,
                        tasks,
                        no_task,
                        no_task,
                        found,
                    ));
                }
                r
            },
            CtrlActions::Detail => {
                let r = self.detail_key_event(key);
                assert(self@ == old(self)@.key_pressed(
                    *key,
                    no_project,
                    unread,
                    no_task,
                    no_task,
                    unread,
                ));
                r
            },
            CtrlActions::Del => {
                let r = self.del_key_event(key);
                assert(self@ == old(self)@.key_pressed(
                    *key,
                    no_project,
                    unread,
                    no_task,
                    no_task,
                    unread,
                ));
                r
            },
        }
    }
}

/// On the leftmost column of the board `P` does nothing, and on the
/// rightmost `N` does nothing: the state stays as it is whatever the storage
/// would answer, and no move is asked for.
pub proof fn lemma_move_at_the_edge(
    s: DashboardCtrlView,
    project: Result<ProjectView, DbError>,
    tasks: Rows,
    fetched: Result<TaskView, DbError>,
    stored: Result<TaskView, DbError>,
)
    ensures
        s.scrum_col_focus == 1 ==> s.move_target(Key::Char('P')) is None && s.list_key(
            Key::Char('P'),
            project,
            tasks,
            fetched,
            stored,
        ) == s,
        s.scrum_col_focus == s.columns() ==> s.move_target(Key::Char('N')) is None && s.list_key(
            Key::Char('N'),
            project,
            tasks,
            fetched,
            stored,
        ) == s,
        s.scrum_col_focus == 0 ==> s.move_target(Key::Char('P')) is None && s.move_target(
            Key::Char('N'),
        ) is None,
{
}

/// The focus stays on the sidebar or on a column that the board has, and
/// going left and then right, or right and then left, brings it back.
pub proof fn lemma_focus_cycles(s: DashboardCtrlView)
    requires
        s.scrum_col_focus <= s.columns(),
    ensures
        s.focus_left().scrum_col_focus <= s.columns(),
        s.focus_right().scrum_col_focus <= s.columns(),
        s.focus_left().focus_right().scrum_col_focus == s.scrum_col_focus,
        s.focus_right().focus_left().scrum_col_focus == s.scrum_col_focus,
{
}

} // verus!
