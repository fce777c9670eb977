//! The screens and what keys do to them.

use crate::app::AppState;
use crate::controllers::contact_controller::ContactCtrl;
use crate::controllers::contact_controller::ContactCtrlView;
use crate::controllers::dashboard_controller::DashboardCtrl;
use crate::controllers::dashboard_controller::DashboardCtrlView;
use crate::controllers::project_controller::ProjectCtrl;
use crate::controllers::project_controller::ProjectCtrlView;
use crate::controllers::task_controller::Rows;
use crate::controllers::task_controller::TaskCtrl;
use crate::controllers::task_controller::TaskCtrlView;
use crate::error::DbError;
use crate::models::query_named;
use crate::models::person::PersonView;
use crate::models::project::ProjectView;
use crate::models::task::TaskView;
use crate::record::Record;
use crate::store::SqlCommand;
use crate::text::texts;
use crate::models::records_view;
use crate::text::parse_i32;
use crate::text::parse_i32_spec;
use rusqlite::Connection;
use vstd::prelude::*;

pub mod contact_controller;
pub mod dashboard_controller;
pub mod footer_controller;
pub mod header_controller;
pub mod project_controller;
pub mod task_controller;

verus! {

/// What every screen offers to the event loop.
pub trait CtrObj {
    /// Takes a key and says whether anything else may still take it. `conn`
    /// is the open storage, or `None` where it could not be opened.
    fn key_event_handler(&mut self, conn: Option<&Connection>, key: &Key) -> AppState;

    /// Reads what the screen keeps from the storage, before it is drawn.
    fn init_data(&mut self, conn: Option<&Connection>);
}

/// The form field after `idx` among `count` fields, the first one after the
/// last.
pub open spec fn spec_next_field(idx: u32, count: u32) -> u32 {
    if idx + 1 >= count {
        0
    } else {
        (idx + 1) as u32
    }
}

/// The form field after `idx` among `count` fields.
pub fn next_field(idx: u32, count: u32) -> (r: u32)
    ensures
        r == spec_next_field(idx, count),
{
    if idx >= count || idx + 1 >= count {
        0
    } else {
        idx + 1
    }
}

/// A key press, as far as the screens tell keys apart.
#[derive(Clone, Copy, Debug, PartialEq, Eq, Structural)]
pub enum Key {
    Char(char),
    Tab,
    Esc,
    Enter,
    Backspace,
    Up,
    Down,
    Left,
    Right,
    /// Any other key. No screen reacts to it.
    Other,
}

/// What a screen over one kind of entity is doing.
#[derive(Clone, Copy, Debug, PartialEq, Eq, Structural)]
pub enum CtrlActions {
    List,
    Edit,
    Del,
    Detail,
}

/// The kinds of screen that the menu can open.
#[derive(Clone, Copy, Debug, PartialEq, Eq, Structural)]
pub enum ControllerRegistry {
    Project,
    Contact,
    Task,
    Dashboard,
}

/// The row before the selected one among `count` rows, coming round from the
/// first row to the last. With nothing selected the first row is taken, and
/// with no rows the selection stays as it is.
pub open spec fn spec_previous(selected: Option<usize>, count: usize) -> Option<usize> {
    if count == 0 {
        selected
    } else {
        match selected {
            Some(idx) => if idx == 0 {
                Some((count - 1) as usize)
            } else {
                Some((idx - 1) as usize)
            },
            None => Some(0),
        }
    }
}

/// The row after the selected one among `count` rows, coming round from the
/// last row (or any row behind it) to the first. With nothing selected the
/// first row is taken, and with no rows the selection stays as it is.
pub open spec fn spec_next(selected: Option<usize>, count: usize) -> Option<usize> {
    if count == 0 {
        selected
    } else {
        match selected {
            Some(idx) => if idx >= count - 1 {
                Some(0)
            } else {
                Some((idx + 1) as usize)
            },
            None => Some(0),
        }
    }
}

/// Moves a selection one row up.
pub fn previous_index(selected: Option<usize>, count: usize) -> (r: Option<usize>)
    ensures
        r == spec_previous(selected, count),
{
    if count > 0 {
        match selected {
            Some(idx) => {
                if idx == 0 {
                    Some(count - 1)
                } else {
                    Some(idx - 1)
                }
            },
            None => Some(0),
        }
    } else {
        selected
    }
}

/// Moves a selection one row down.
pub fn next_index(selected: Option<usize>, count: usize) -> (r: Option<usize>)
    ensures
        r == spec_next(selected, count),
{
    if count > 0 {
        match selected {
            Some(idx) => {
                if idx >= count - 1 {
                    Some(0)
                } else {
                    Some(idx + 1)
                }
            },
            None => Some(0),
        }
    } else {
        selected
    }
}

/// Moving up from the first of `count > 0` rows lands on the last, moving
/// down from the last lands on the first, and a selection inside the rows
/// stays inside them either way.
pub proof fn lemma_selection_wraps(count: usize)
    requires
        count > 0,
    ensures
        spec_previous(Some(0), count) == Some((count - 1) as usize),
        spec_next(Some((count - 1) as usize), count) == Some(0usize),
        forall|idx: usize|
            idx < count ==> (#[trigger] spec_previous(Some(idx), count))->0 < count && (
            #[trigger] spec_next(Some(idx), count))->0 < count,
{
}

/// The number that a text writes, 0 where it writes none that 32 bits hold.
pub open spec fn spec_number_or_zero(s: Seq<char>) -> i32 {
    match parse_i32_spec(s) {
        Some(v) => v,
        None => 0,
    }
}

/// The number that a text writes, 0 where it writes none that 32 bits hold.
pub fn number_or_zero(s: &str) -> (r: i32)
    ensures
        r == spec_number_or_zero(s@),
{
    match parse_i32(s) {
        Some(v) => v,
        None => 0,
    }
}

/// The key that the selected one of `rows` carries in its field `id`:
/// `InvalidSelection` where nothing is selected or the selection lies behind
/// the last row, `MissingField` where the row has no such field, and
/// `InvalidValue` where the field does not write a key.
pub open spec fn spec_selected_key(
    rows: Seq<Map<Seq<char>, Seq<char>>>,
    selected: Option<usize>,
) -> Result<i32, DbError> {
    match selected {
        None => Err(DbError::InvalidSelection),
        Some(idx) => if idx >= rows.len() {
            Err(DbError::InvalidSelection)
        } else if !rows[idx as int].dom().contains("id"@) {
            Err(DbError::MissingField)
        } else {
            match parse_i32_spec(rows[idx as int]["id"@]) {
                Some(id) => Ok(id),
                None => Err(DbError::InvalidValue),
            }
        },
    }
}

/// The key that the selected one of `rows` carries in its field `id`.
pub fn selected_key(rows: &Vec<Record>, selected: Option<usize>) -> (r: Result<i32, DbError>)
    ensures
        r == spec_selected_key(records_view(rows@), selected),
{
    match selected {
        None => Err(DbError::InvalidSelection),
        Some(idx) => {
            if idx >= rows.len() {
                Err(DbError::InvalidSelection)
            } else {
                match rows[idx].get("id") {
                    None => Err(DbError::MissingField),
                    Some(text) => match parse_i32(text.as_str()) {
                        Some(id) => Ok(id),
                        None => Err(DbError::InvalidValue),
                    },
                }
            }
        },
    }
}

/// The text of the statement that reads key and name of every project, by
/// name.
pub open spec fn project_list_sql() -> Seq<char> {
    "select id as id, name as name from project order by name"@
}

/// The statement that reads key and name of every project, by name. It binds
/// no parameter.
pub fn project_list_command() -> (c: SqlCommand)
    ensures
        c.sql@ == project_list_sql(),
        c.params@.len() == 0,
{
    SqlCommand {
        sql: String::from_str("select id as id, name as name from project order by name"),
        params: Vec::new(),
    }
}

/// The names of the two columns of a statement that reads key and name.
pub fn id_name_columns() -> (r: Vec<String>)
    ensures
        texts(r@) == seq!["id"@, "name"@],
{
    let mut names: Vec<String> = Vec::new();
    names.push(String::from_str("id"));
    names.push(String::from_str("name"));
    assert(texts(names@) =~= seq!["id"@, "name"@]);
    names
}

/// Sends a statement of the library's own to the storage and returns its
/// rows as generic records under `names`. Without a connection the storage
/// is not asked and the answer is `Connection`.
pub fn ask_named(conn: Option<&Connection>, command: &SqlCommand, names: &Vec<String>) -> (r:
    Result<Vec<Record>, DbError>)
    ensures
        conn is None ==> r == Err::<Vec<Record>, DbError>(DbError::Connection),
        r matches Err(e) ==> e == DbError::Connection || e == DbError::Query,
{
    match conn {
        Some(conn) => query_named(conn, command, names),
        None => Err(DbError::Connection),
    }
}

/// A screen of any kind.
#[derive(Debug)]
pub enum Controller {
    Dashboard(DashboardCtrl),
    Task(TaskCtrl),
    Project(ProjectCtrl),
    Contact(ContactCtrl),
}

impl Controller {
    /// The kind of the screen.
    pub open spec fn kind(&self) -> ControllerRegistry {
        match self {
            Controller::Dashboard(_) => ControllerRegistry::Dashboard,
            Controller::Task(_) => ControllerRegistry::Task,
            Controller::Project(_) => ControllerRegistry::Project,
            Controller::Contact(_) => ControllerRegistry::Contact,
        }
    }

    /// Whether the screen is as its kind starts.
    pub open spec fn is_fresh(&self) -> bool {
        match self {
            Controller::Dashboard(c) => c@ == DashboardCtrlView::initial(),
            Controller::Task(c) => c@ == TaskCtrlView::initial(),
            Controller::Project(c) => c@ == ProjectCtrlView::initial(),
            Controller::Contact(c) => c@ == ContactCtrlView::initial(),
        }
    }

    /// What the screen answers to a key.
    pub open spec fn answer(&self, key: Key) -> AppState {
        match self {
            Controller::Dashboard(c) => c@.answer(key),
            Controller::Task(c) => c@.answer(key),
            Controller::Project(c) => c@.answer(key),
            Controller::Contact(c) => c@.answer(key),
        }
    }

    /// Whether the screen is what `before` is after it read from the
    /// storage: a dashboard is `initialized` for some answers of the storage,
    /// and any other screen is unchanged.
    pub open spec fn initialized_from(&self, before: Controller) -> bool {
        match (before, *self) {
            (Controller::Dashboard(b), Controller::Dashboard(a)) => exists|
                projects: Rows,
                statuses: Rows,
                project: Result<ProjectView, DbError>,
                tasks: Rows,
            |
                a@ == #[trigger] b@.initialized(projects, statuses, project, tasks),
            _ => *self == before,
        }
    }

    /// Whether the screen is what `before` is after the key `key`: the step
    /// that the screen's own `key_pressed` says, for some answers of the
    /// storage.
    pub open spec fn pressed_from(&self, before: Controller, key: Key) -> bool {
        match (before, *self) {
            (Controller::Dashboard(b), Controller::Dashboard(a)) => exists|
                project: Result<ProjectView, DbError>,
                tasks: Rows,
                fetched: Result<TaskView, DbError>,
                stored: Result<TaskView, DbError>,
                found: Rows,
            |
                a@ == #[trigger] b@.key_pressed(key, project, tasks, fetched, stored, found),
            (Controller::Task(b), Controller::Task(a)) => exists|
                found: Rows,
                stored: Result<TaskView, DbError>,
                gone: Result<(), DbError>,
            |
                a@ == #[trigger] b@.key_pressed(key, found, stored, gone),
            (Controller::Project(b), Controller::Project(a)) => exists|
                found: Result<Seq<ProjectView>, DbError>,
                stored: Result<ProjectView, DbError>,
                gone: Result<(), DbError>,
            |
                a@ == #[trigger] b@.key_pressed(key, found, stored, gone),
            (Controller::Contact(b), Controller::Contact(a)) => exists|
                found: Result<Seq<PersonView>, DbError>,
                stored: Result<PersonView, DbError>,
                gone: Result<(), DbError>,
            |
                a@ == #[trigger] b@.key_pressed(key, found, stored, gone),
            _ => false,
        }
    }

    /// The kind of the screen.
    pub fn get_kind(&self) -> (r: ControllerRegistry)
        ensures
            r == self.kind(),
    {
        match self {
            Controller::Dashboard(_) => ControllerRegistry::Dashboard,
            Controller::Task(_) => ControllerRegistry::Task,
            Controller::Project(_) => ControllerRegistry::Project,
            Controller::Contact(_) => ControllerRegistry::Contact,
        }
    }
}

impl CtrObj for Controller {
    /// Hands the key to the screen: the screen takes the step that its own
    /// `key_pressed` says, and answers as its own `answer` says.
    fn key_event_handler(&mut self, conn: Option<&Connection>, key: &Key) -> (r: AppState)
        ensures
            r == old(self).answer(*key),
            final(self).kind() == old(self).kind(),
            final(self).pressed_from(*old(self), *key),
    {
        match self {
            Controller::Dashboard(c) => c.key_event_handler(conn, key),
            Controller::Task(c) => c.key_event_handler(conn, key),
            Controller::Project(c) => c.key_event_handler(conn, key),
            Controller::Contact(c) => c.key_event_handler(conn, key),
        }
    }

    /// Lets the screen read what it keeps from the storage. Only the
    /// dashboard keeps anything: it is left as `initialized` says for what
    /// the storage answered, and every other screen stays as it is.
    fn init_data(&mut self, conn: Option<&Connection>)
        ensures
            final(self).kind() == old(self).kind(),
            old(self).kind() != ControllerRegistry::Dashboard ==> *final(self) == *old(self),
            final(self).initialized_from(*old(self)),
    {
        match self {
            Controller::Dashboard(c) => c.init_data(conn),
            Controller::Task(c) => c.init_data(conn),
            Controller::Project(c) => c.init_data(conn),
            Controller::Contact(c) => c.init_data(conn),
        }
    }
}

/// A new screen of the given kind.
pub fn get_controller_from_registry(reference: ControllerRegistry) -> (r: Controller)
    ensures
        r.kind() == reference,
        r.is_fresh(),
{
    match reference {
        ControllerRegistry::Dashboard => Controller::Dashboard(DashboardCtrl::default()),
        ControllerRegistry::Task => Controller::Task(TaskCtrl::default()),
        ControllerRegistry::Project => Controller::Project(ProjectCtrl::default()),
        ControllerRegistry::Contact => Controller::Contact(ContactCtrl::default()),
    }
}

} // verus!
