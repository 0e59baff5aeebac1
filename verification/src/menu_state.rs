//! The root of everything a menu owns.
use crate::navigation_menu::NavigationMenu;
use crate::traits::ScreenTrait;
use vstd::prelude::*;

verus! {

/// The primary state of the menu: the open screens, the application's state,
/// and whether the menu was drawn at all yet.
pub struct MenuState<S> where S: ScreenTrait {
    pub menu: NavigationMenu<S>,
    pub initial_render_done: bool,
}

impl<S: ScreenTrait> MenuState<S> {
    /// A menu that shows `screen` and was not drawn yet.
    pub fn new(state: S::State, screen: S) -> (menu_state: Self)
        ensures
            menu_state.menu.frames() == seq![screen],
            menu_state.menu.state() == state,
            !menu_state.initial_render_done,
    {
        MenuState { menu: NavigationMenu::new(state, screen), initial_render_done: false }
    }

    /// Get a mutable reference to the state in order to change it. The
    /// open screens stay as they are.
    pub fn state_mut(&mut self) -> (state: &mut S::State)
        ensures
            *state == old(self).menu.state(),
            final(self).menu.state() == *final(state),
            final(self).menu.frames() == old(self).menu.frames(),
            final(self).initial_render_done == old(self).initial_render_done,
    {
        self.menu.state_mut()
    }

    /// The application's state.
    pub fn state(&self) -> (state: &S::State)
        ensures
            *state == self.menu.state(),
    {
        self.menu.state_ref()
    }
}

} // verus!
