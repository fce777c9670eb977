//! The application: the menu, the footer, and what one turn of the event
//! loop decides.
//!
//! The loop itself, which draws and waits for keys, is not here. It calls
//! `begin_cycle` before it draws, and `key_event` with each key it reads.

use crate::controllers::footer_controller::FooterCtrl;
use crate::controllers::header_controller::spec_next_entry;
use crate::controllers::header_controller::HeaderCtrl;
use crate::controllers::Controller;
use crate::controllers::CtrObj;
use crate::controllers::Key;
use rusqlite::Connection;
use vstd::prelude::*;

verus! {

/// The answer of a screen to a key.
#[derive(Clone, Copy, Debug, PartialEq, Eq, Structural)]
pub enum AppState {
    /// The key was not for this screen: the next handler gets it.
    Running,
    /// The application ends.
    Closing,
    /// The key was taken: nothing else gets it.
    MoveOn,
}

/// The parts of the application that outlive every screen.
#[derive(Debug)]
pub struct App {
    pub header: HeaderCtrl,
    pub footer: FooterCtrl,
}

impl Default for App {
    fn default() -> (r: App)
        ensures
            r.wf(),
            r.header.active_item == 0,
            !r.header.item_changed,
    {
        App { header: HeaderCtrl::default(), footer: FooterCtrl::default() }
    }
}

impl App {
    /// The menu points at one of its entries.
    pub open spec fn wf(&self) -> bool {
        self.header.wf()
    }

    /// Nothing to prepare: the storage is handed in with every call.
    pub fn init(&mut self)
        ensures
            *final(self) == *old(self),
    {
    }

    /// The screen to start with: a new one of the kind that is open in the
    /// menu.
    pub fn first_controller(&mut self) -> (r: Controller)
        requires
            old(self).wf(),
        ensures
            final(self).wf(),
            r.kind() == old(self).header.menu@[old(self).header.active_item as int].ctrl,
            r.is_fresh(),
            !final(self).header.item_changed,
    {
        self.header.get_main_controller()
    }

    /// What is done before each drawing: where the menu has moved on, the
    /// screen is replaced by a new one of the menu's kind, whatever it held;
    /// the footer is told the kind of the open screen; and the screen reads
    /// what it keeps from the storage.
    pub fn begin_cycle(&mut self, main_controller: &mut Controller, conn: Option<&Connection>)
        requires
            old(self).wf(),
        ensures
            final(self).wf(),
            !final(self).header.item_changed,
            final(self).header.menu == old(self).header.menu,
            final(self).header.active_item == old(self).header.active_item,
            final(self).footer.active_item == old(self).header.menu@[old(self).header.active_item as int].ctrl,
            old(self).header.item_changed ==> final(main_controller).kind() == final(self).footer.active_item,
            !old(self).header.item_changed ==> final(main_controller).kind() == old(main_controller).kind(),
            old(self).header.item_changed ==> exists|c: Controller|
                c.is_fresh() && c.kind() == final(self).footer.active_item && #[trigger] final(main_controller).initialized_from(c),
            !old(self).header.item_changed ==> final(main_controller).initialized_from(*old(main_controller)),
    {
        if self.header.controller_has_changed() {
            *main_controller = self.header.get_main_controller();
        }
        let ghost shown = *main_controller;
        let kind = self.header.get_active_type();
        self.footer.set_active_item(kind);
        main_controller.init_data(conn);
        assert(main_controller.initialized_from(shown));
    }

    /// Hands a key to the screen and, where the screen does not take it, to
    /// the menu. The screen takes the step that its own `key_pressed` says.
    /// The answer is `Closing` where the menu got `q`, and `Running`
    /// otherwise.
    pub fn key_event(
        &mut self,
        main_controller: &mut Controller,
        conn: Option<&Connection>,
        key: &Key,
    ) -> (r: AppState)
        ensures
            old(self).wf() ==> final(self).wf(),
            final(main_controller).kind() == old(main_controller).kind(),
            final(main_controller).pressed_from(*old(main_controller), *key),
            r == if old(main_controller).answer(*key) != AppState::MoveOn && HeaderCtrl::closes(*key) {
                AppState::Closing
            } else {
                AppState::Running
            },
            final(self).footer == old(self).footer,
            final(self).header.menu == old(self).header.menu,
            old(main_controller).answer(*key) != AppState::MoveOn && *key == Key::Tab ==> final(self).header.item_changed && final(self).header.active_item == spec_next_entry(
                old(self).header.active_item,
                old(self).header.menu@.len() as usize,
            ),
            old(main_controller).answer(*key) == AppState::MoveOn || *key != Key::Tab ==> final(self).header == old(self).header,
    {
        match main_controller.key_event_handler(conn, key) {
            AppState::MoveOn => AppState::Running,
            _ => match self.header.key_event_handler(conn, key) {
                AppState::Closing => AppState::Closing,
                _ => AppState::Running,
            },
        }
    }
}

} // verus!
