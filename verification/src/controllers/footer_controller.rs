//! The footer: it shows the keys of the screen that is open.

use crate::app::AppState;
use crate::controllers::ControllerRegistry;
use crate::controllers::CtrObj;
use crate::controllers::Key;
use rusqlite::Connection;
use vstd::prelude::*;

verus! {

/// The state of the footer: the kind of screen whose keys it shows.
#[derive(Clone, Copy, Debug, PartialEq, Eq, Structural)]
pub struct FooterCtrl {
    pub active_item: ControllerRegistry,
}

impl Default for FooterCtrl {
    fn default() -> (r: FooterCtrl)
        ensures
            r.active_item == ControllerRegistry::Dashboard,
    {
        FooterCtrl { active_item: ControllerRegistry::Dashboard }
    }
}

impl CtrObj for FooterCtrl {
    fn init_data(&mut self, conn: Option<&Connection>)
        ensures
            *final(self) == *old(self),
    {
    }

    /// The footer takes no key.
    fn key_event_handler(&mut self, conn: Option<&Connection>, key: &Key) -> (r: AppState)
        ensures
            r == AppState::Running,
            *final(self) == *old(self),
    {
        AppState::Running
    }
}

impl FooterCtrl {
    pub fn set_active_item(&mut self, item: ControllerRegistry)
        ensures
            final(self).active_item == item,
    {
        self.active_item = item;
    }
}

} // verus!
