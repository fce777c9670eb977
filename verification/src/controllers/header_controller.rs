//! The menu: the screens that can be opened, which of them is open, and
//! whether the open one has to be made anew.

use crate::app::AppState;
use crate::controllers::get_controller_from_registry;
use crate::controllers::Controller;
use crate::controllers::ControllerRegistry;
use crate::controllers::CtrObj;
use crate::controllers::Key;
use rusqlite::Connection;
use vstd::prelude::*;

verus! {

/// One entry of the menu.
#[derive(Debug)]
pub struct MenuItem {
    pub name: String,
    pub ctrl: ControllerRegistry,
}

/// The state of the menu.
#[derive(Debug)]
pub struct HeaderCtrl {
    pub menu: Vec<MenuItem>,
    pub title: String,
    /// The position of the open screen in the menu.
    pub active_item: usize,
    /// Whether the menu has moved on since the open screen was made.
    pub item_changed: bool,
}

/// The entry after `active` among `count` entries, the first one after the
/// last.
pub open spec fn spec_next_entry(active: usize, count: usize) -> usize {
    if active + 1 >= count {
        0
    } else {
        (active + 1) as usize
    }
}

impl HeaderCtrl {
    /// The open screen is one of the menu's entries.
    pub open spec fn wf(&self) -> bool {
        self.active_item < self.menu@.len()
    }

    /// The kinds of screen in the menu, in its order.
    pub open spec fn kinds(&self) -> Seq<ControllerRegistry> {
        Seq::new(self.menu@.len(), |i: int| self.menu@[i].ctrl)
    }

    /// The labels of the menu, in its order.
    pub open spec fn labels(&self) -> Seq<Seq<char>> {
        Seq::new(self.menu@.len(), |i: int| self.menu@[i].name@)
    }

    /// Whether a key ends the application.
    pub open spec fn closes(key: Key) -> bool {
        key == Key::Char('q')
    }
}

impl Default for HeaderCtrl {
    /// The menu as it starts: dashboard, tasks and projects, the dashboard
    /// open.
    fn default() -> (r: HeaderCtrl)
        ensures
            r.wf(),
            r.kinds() == seq![
                ControllerRegistry::Dashboard,
                ControllerRegistry::Task,
                ControllerRegistry::Project,
            ],
            r.labels() == seq!["Dashboard"@, "Tasks"@, "Projects"@],
            r.title@ == "Rask, your task list manager"@,
            r.active_item == 0,
            !r.item_changed,
    {
        let mut menu: Vec<MenuItem> = Vec::new();
        menu.push(
            MenuItem { name: String::from_str("Dashboard"), ctrl: ControllerRegistry::Dashboard },
        );
        menu.push(MenuItem { name: String::from_str("Tasks"), ctrl: ControllerRegistry::Task });
        menu.push(
            MenuItem { name: String::from_str("Projects"), ctrl: ControllerRegistry::Project },
        );
        let r = HeaderCtrl {
            menu,
            title: String::from_str("Rask, your task list manager"),
            active_item: 0,
            item_changed: false,
        };
        assert(r.kinds() =~= seq![
            ControllerRegistry::Dashboard,
            ControllerRegistry::Task,
            ControllerRegistry::Project,
        ]);
        assert(r.labels() =~= seq!["Dashboard"@, "Tasks"@, "Projects"@]);
        r
    }
}

impl CtrObj for HeaderCtrl {
    fn init_data(&mut self, conn: Option<&Connection>)
        ensures
            *final(self) == *old(self),
    {
    }

    /// `q` ends the application, `Tab` moves the menu on, and no other key
    /// does anything. The menu never keeps a key from others.
    fn key_event_handler(&mut self, conn: Option<&Connection>, key: &Key) -> (r: AppState)
        ensures
            r == if HeaderCtrl::closes(*key) {
                AppState::Closing
            } else {
                AppState::Running
            },
            final(self).menu == old(self).menu,
            final(self).title == old(self).title,
            *key == Key::Tab ==> final(self).active_item == spec_next_entry(
                old(self).active_item,
                old(self).menu@.len() as usize,
            ) && final(self).item_changed,
            *key != Key::Tab ==> *final(self) == *old(self),
    {
        match key {
            Key::Char(c) => {
                if *c == 'q' {
                    AppState::Closing
                } else {
                    AppState::Running
                }
            },
            Key::Tab => {
                self.set_next_active();
                AppState::Running
            },
            _ => AppState::Running,
        }
    }
}

impl HeaderCtrl {
    /// Moves the menu on to its next entry, the first one after the last,
    /// and notes that the open screen has to be made anew.
    pub fn set_next_active(&mut self)
        ensures
            final(self).menu == old(self).menu,
            final(self).title == old(self).title,
            final(self).active_item == spec_next_entry(
                old(self).active_item,
                old(self).menu@.len() as usize,
            ),
            final(self).item_changed,
            old(self).menu@.len() > 0 ==> final(self).wf(),
    {
        let count = self.menu.len();
        if self.active_item >= count || self.active_item + 1 >= count {
            self.active_item = 0;
        } else {
            self.active_item = self.active_item + 1;
        }
        self.item_changed = true;
    }

    pub fn controller_has_changed(&mut self) -> (r: bool)
        ensures
            r == old(self).item_changed,
            *final(self) == *old(self),
    {
        self.item_changed
    }

    /// The kind of the open screen.
    pub fn get_active_type(&mut self) -> (r: ControllerRegistry)
        requires
            old(self).wf(),
        ensures
            r == old(self).menu@[old(self).active_item as int].ctrl,
            *final(self) == *old(self),
    {
        self.menu[self.active_item].ctrl
    }

    /// A new screen of the kind that is open in the menu. The menu notes
    /// that the open screen is up to date from here on.
    pub fn get_main_controller(&mut self) -> (r: Controller)
        requires
            old(self).wf(),
        ensures
            r.kind() == old(self).menu@[old(self).active_item as int].ctrl,
            r.is_fresh(),
            !final(self).item_changed,
            final(self).menu == old(self).menu,
            final(self).title == old(self).title,
            final(self).active_item == old(self).active_item,
    {
        self.item_changed = false;
        let kind = self.get_active_type();
        get_controller_from_registry(kind)
    }
}

} // verus!
