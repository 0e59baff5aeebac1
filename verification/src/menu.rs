//! The menu in its immediate-mode form: the host draws every open menu anew
//! on each frame, button by button, and asks between the buttons what to
//! draw next and what a click means.
//!
//! Here a menu remembers the selection under its cursor, not an index, and
//! every entry is a button.
use crate::text::{IntoWidgetLabel, LabelModel, WidgetLabel};
use std::fmt::Debug;
use std::hash::Hash;
use vstd::laws_eq::obeys_concrete_eq;
use vstd::prelude::*;
use vstd::std_specs::cmp::PartialEqSpec;

verus! {

/// A user intent that a menu entry can carry.
pub trait ActionTrait: Debug + PartialEq + Eq + Clone + Copy + Hash + Send + Sync {
    type State;

    /// Carries the action out on the application's state.
    fn handle(&self, state: &mut Self::State);
}

/// Where the user has moved the cursor since the last frame.
#[derive(Debug, Clone, Copy, PartialEq, Eq, Structural)]
pub enum CursorDirection {
    Up,
    Down,
    Select,
    Back,
}

/// What choosing a menu entry yields: an action to carry out or a screen to
/// open.
#[derive(Debug)]
pub enum MenuSelection<A, S> {
    Action(A),
    Screen(S),
}

impl<A: Copy, S: Copy> Clone for MenuSelection<A, S> {
    fn clone(&self) -> (copy: Self)
        ensures
            copy == *self,
    {
        match self {
            MenuSelection::Action(action) => MenuSelection::Action(*action),
            MenuSelection::Screen(screen) => MenuSelection::Screen(*screen),
        }
    }
}

impl<A: PartialEq, S: PartialEq> PartialEq for MenuSelection<A, S> {
    fn eq(&self, other: &Self) -> (same: bool) {
        match (self, other) {
            (MenuSelection::Action(a1), MenuSelection::Action(a2)) => a1 == a2,
            (MenuSelection::Screen(s1), MenuSelection::Screen(s2)) => s1 == s2,
            _ => false,
        }
    }
}

impl<A: PartialEq, S: PartialEq> vstd::std_specs::cmp::PartialEqSpecImpl for MenuSelection<A, S> {
    open spec fn obeys_eq_spec() -> bool {
        A::obeys_eq_spec() && S::obeys_eq_spec()
    }

    open spec fn eq_spec(&self, other: &Self) -> bool {
        match (*self, *other) {
            (MenuSelection::Action(a1), MenuSelection::Action(a2)) => a1.eq_spec(&a2),
            (MenuSelection::Screen(s1), MenuSelection::Screen(s2)) => s1.eq_spec(&s2),
            _ => false,
        }
    }
}

/// Whether `==` on actions and on screens tells exactly whether two values
/// are the same. Contracts that depend on a comparison speak under this
/// condition.
pub open spec fn lawful_eq<A: PartialEq, S: PartialEq>() -> bool {
    &&& obeys_concrete_eq::<A>()
    &&& obeys_concrete_eq::<S>()
}

/// Where actions and screens compare lawfully, so do selections.
pub proof fn lemma_selection_eq<A: PartialEq, S: PartialEq>(
    a: MenuSelection<A, S>,
    b: MenuSelection<A, S>,
)
    requires
        lawful_eq::<A, S>(),
    ensures
        MenuSelection::<A, S>::obeys_eq_spec(),
        a.eq_spec(&b) == (a == b),
{
    reveal(obeys_concrete_eq);
}

/// One entry of a menu: a button that opens a screen or carries out an
/// action.
#[derive(Debug)]
pub enum MenuItem<A, S> {
    Screen(WidgetLabel, S),
    Action(WidgetLabel, A),
}

impl<A: Copy, S: Copy> MenuItem<A, S> {
    /// What choosing this entry yields.
    pub open spec fn selection(self) -> MenuSelection<A, S> {
        match self {
            MenuItem::Screen(_, screen) => MenuSelection::Screen(screen),
            MenuItem::Action(_, action) => MenuSelection::Action(action),
        }
    }

    /// The text on the button.
    pub open spec fn label(self) -> LabelModel {
        match self {
            MenuItem::Screen(text, _) => text@,
            MenuItem::Action(text, _) => text@,
        }
    }

    /// An entry that opens `screen`.
    pub fn screen(s: impl IntoWidgetLabel, screen: S) -> (item: Self)
        ensures
            item.label() == s.label(),
            item.selection() == MenuSelection::<A, S>::Screen(screen),
    {
        MenuItem::Screen(s.into_widget_label(), screen)
    }

    /// An entry that carries out `action`.
    pub fn action(s: impl IntoWidgetLabel, action: A) -> (item: Self)
        ensures
            item.label() == s.label(),
            item.selection() == MenuSelection::<A, S>::Action(action),
    {
        MenuItem::Action(s.into_widget_label(), action)
    }

    /// What choosing this entry yields.
    pub fn as_selection(&self) -> (selection: MenuSelection<A, S>)
        ensures
            selection == self.selection(),
    {
        match self {
            MenuItem::Screen(_, a) => MenuSelection::Screen(*a),
            MenuItem::Action(_, a) => MenuSelection::Action(*a),
        }
    }

    /// The text on the button.
    pub fn text(&self) -> (text: &WidgetLabel)
        ensures
            text@ == self.label(),
    {
        match self {
            MenuItem::Screen(t, _) => t,
            MenuItem::Action(t, _) => t,
        }
    }
}

/// What the entries of a menu yield, entry by entry.
pub open spec fn selections_of<A: Copy, S: Copy>(items: Seq<MenuItem<A, S>>) -> Seq<
    MenuSelection<A, S>,
> {
    Seq::new(items.len(), |i: int| items[i].selection())
}

/// The position of the first of `selections` from `from` on that is
/// `selected`, if there is one.
pub open spec fn position_of<A, S>(
    selections: Seq<MenuSelection<A, S>>,
    selected: MenuSelection<A, S>,
    from: int,
) -> Option<int>
    decreases selections.len() - from,
{
    if from < 0 || from >= selections.len() {
        None
    } else if selections[from] == selected {
        Some(from)
    } else {
        position_of(selections, selected, from + 1)
    }
}

/// A position that was found lies in the menu, at or behind `from`, and
/// holds what was looked for.
pub proof fn lemma_position_of<A, S>(
    selections: Seq<MenuSelection<A, S>>,
    selected: MenuSelection<A, S>,
    from: int,
)
    requires
        0 <= from,
    ensures
        position_of(selections, selected, from) matches Some(index) ==> from <= index
            < selections.len() && selections[index] == selected,
    decreases selections.len() - from,
{
    if from < selections.len() && selections[from] != selected {
        lemma_position_of(selections, selected, from + 1);
    }
}

/// Where a cursor at `index` in a menu of `count` entries stands after the
/// user has moved it: one up unless it is at the top, one down unless it is
/// at the bottom, and where it was otherwise.
pub open spec fn moved(direction: CursorDirection, index: int, count: int) -> int {
    match direction {
        CursorDirection::Up => if index > 0 {
            index - 1
        } else {
            index
        },
        CursorDirection::Down => if index < count - 1 {
            index + 1
        } else {
            index
        },
        CursorDirection::Select => index,
        CursorDirection::Back => index,
    }
}

/// The cursor of one menu while the menu is drawn.
#[derive(Debug)]
pub struct Cursor<A, S> {
    /// What the entry under the cursor yields.
    pub selected: MenuSelection<A, S>,
    /// Whether the user has asked for the entry under the cursor.
    pub select_navigation: bool,
}

/// The cursor with which a menu is drawn.
///
/// The cursor starts on the entry that yields what the menu remembers, and
/// on the first entry of a menu that remembers nothing. Where the user has
/// moved it and such an entry is there, it goes by one entry and stops at
/// the ends of the menu.
pub open spec fn cursor_at_start<A, S>(
    selections: Seq<MenuSelection<A, S>>,
    remembered: Option<MenuSelection<A, S>>,
    cursor_direction: Option<CursorDirection>,
) -> Cursor<A, S> {
    let start = match remembered {
        Some(selected) => selected,
        None => selections[0],
    };
    match (cursor_direction, position_of(selections, start, 0)) {
        (Some(direction), Some(index)) => Cursor {
            selected: selections[moved(direction, index, selections.len() as int)],
            select_navigation: direction == CursorDirection::Select,
        },
        _ => Cursor { selected: start, select_navigation: false },
    }
}

/// Finds the first entry of `items` that yields `selected`.
fn find_position<A: Copy + PartialEq, S: Copy + PartialEq>(
    items: &[MenuItem<A, S>],
    selected: &MenuSelection<A, S>,
) -> (position: Option<usize>)
    ensures
        position matches Some(index) ==> index < items@.len(),
        lawful_eq::<A, S>() ==> match position_of(selections_of(items@), *selected, 0) {
            Some(index) => position == Some(index as usize),
            None => position is None,
        },
{
    let ghost selections = selections_of(items@);
    let mut i: usize = 0;
    while i < items.len()
        invariant
            i <= items@.len(),
            selections == selections_of(items@),
            lawful_eq::<A, S>() ==> position_of(selections, *selected, 0) == position_of(
                selections,
                *selected,
                i as int,
            ),
        decreases items@.len() - i,
    {
        let item_selection = items[i].as_selection();
        proof {
            if lawful_eq::<A, S>() {
                lemma_selection_eq::<A, S>(item_selection, *selected);
            }
        }
        if &item_selection == selected {
            return Some(i);
        }
        i += 1;
    }
    None
}

/// A menu that is drawn as a vertical list of buttons.
pub struct VerticalMenu<A, S> {
    /// The entries of the menu.
    pub items: Vec<MenuItem<A, S>>,
    /// What the user has done with the cursor since the last frame.
    pub cursor_direction: Option<CursorDirection>,
}

impl<A: Copy + PartialEq, S: Copy + PartialEq> VerticalMenu<A, S> {
    /// The cursor with which the menu is drawn, given what the menu
    /// remembers from the last frame.
    pub fn start(&self, remembered: Option<MenuSelection<A, S>>) -> (cursor: Cursor<A, S>)
        requires
            self.items@.len() > 0,
        ensures
            lawful_eq::<A, S>() ==> cursor == cursor_at_start(
                selections_of(self.items@),
                remembered,
                self.cursor_direction,
            ),
    {
        let mut selected = match remembered {
            Some(selected) => selected,
            None => self.items[0].as_selection(),
        };
        let mut select_navigation = false;
        let position = find_position(self.items.as_slice(), &selected);
        let ghost start = selected;
        let ghost selections = selections_of(self.items@);
        let count = self.items.len();
        proof {
            lemma_position_of(selections, selected, 0);
            assert(selections[0] == self.items@[0].selection());
        }
        match (self.cursor_direction, position) {
            (Some(cursor_direction), Some(found)) => {
                let mut index = found;
                match cursor_direction {
                    CursorDirection::Up => {
                        if index > 0 {
                            index -= 1;
                        }
                    },
                    CursorDirection::Down => {
                        if index < count - 1 {
                            index += 1;
                        }
                    },
                    CursorDirection::Select => {
                        select_navigation = true;
                    },
                    CursorDirection::Back => {},
                }
                // change selection
                selected = self.items[index].as_selection();
                proof {
                    assert(selections[index as int] == self.items@[index as int].selection());
                    if lawful_eq::<A, S>() {
                        assert(position_of(selections, start, 0) == Some(found as int));
                        assert(index == moved(cursor_direction, found as int, selections.len() as int));
                    }
                }
            },
            _ => {},
        }
        Cursor { selected, select_navigation }
    }
}

impl<A: Copy + PartialEq, S: Copy + PartialEq> Cursor<A, S> {
    /// Whether the cursor is on `item`, so that its button is drawn with
    /// the focus.
    pub fn is_on(&self, item: &MenuItem<A, S>) -> (focussed: bool)
        ensures
            lawful_eq::<A, S>() ==> focussed == (self.selected == item.selection()),
    {
        let item_selection = item.as_selection();
        proof {
            if lawful_eq::<A, S>() {
                lemma_selection_eq::<A, S>(self.selected, item_selection);
            }
        }
        self.selected == item_selection
    }

    /// Takes in what happened to the button of `item`: a click on it, or a
    /// request for the entry under the cursor while the button has the
    /// focus, puts the cursor on the entry and yields its selection.
    pub fn after_button(&mut self, item: &MenuItem<A, S>, focussed: bool, clicked: bool) -> (chosen:
        Option<MenuSelection<A, S>>)
        ensures
            final(self).select_navigation == old(self).select_navigation,
            clicked || (old(self).select_navigation && focussed) ==> {
                &&& chosen == Some(item.selection())
                &&& final(self).selected == item.selection()
            },
            !(clicked || (old(self).select_navigation && focussed)) ==> {
                &&& chosen is None
                &&& final(self).selected == old(self).selected
            },
    {
        if clicked || (self.select_navigation && focussed) {
            let item_selection = item.as_selection();
            self.selected = item_selection.clone();
            Some(item_selection)
        } else {
            None
        }
    }
}

/// The stack as a frame finds it: a pending `Back` closes the topmost
/// screen, unless it is the root.
pub open spec fn after_direction<S>(frames: Seq<S>, direction: Option<CursorDirection>) -> Seq<S> {
    if direction == Some(CursorDirection::Back) && frames.len() > 1 {
        frames.drop_last()
    } else {
        frames
    }
}

/// The screens that are open, the root first and the one in use last,
/// together with the application's state and the cursor movement that
/// waits for the next frame. The root is kept apart from the screens
/// opened above it, so the stack is never empty.
#[derive(Debug)]
pub struct NavigationMenu<State, A, S> {
    /// The screen that was opened first and stays open
    root: S,
    /// The screens opened above the root, the latest last
    above: Vec<S>,
    /// Any user input (cursor keys, gamepad) is set here
    next_direction: Option<CursorDirection>,
    /// The custom state
    state: State,
    /// The actions that the entries of the screens carry
    action: core::marker::PhantomData<A>,
}

impl<State, A: ActionTrait<State = State>, S: Copy> NavigationMenu<State, A, S> {
    /// The open screens, the root first.
    pub closed spec fn frames(&self) -> Seq<S> {
        seq![self.root] + self.above@
    }

    /// The application's state.
    pub closed spec fn state(&self) -> State {
        self.state
    }

    /// The cursor movement that waits for the next frame.
    pub closed spec fn pending(&self) -> Option<CursorDirection> {
        self.next_direction
    }

    /// Whatever was done to the stack, the root is still open.
    pub proof fn lemma_never_empty(&self)
        ensures
            self.frames().len() >= 1,
    {
    }

    /// A stack that holds the root screen alone.
    pub fn new(state: State, root: S) -> (menu: Self)
        ensures
            menu.frames() == seq![root],
            menu.state() == state,
            menu.pending() is None,
    {
        NavigationMenu {
            root,
            above: Vec::new(),
            next_direction: None,
            state,
            action: core::marker::PhantomData,
        }
    }

    /// Notes a cursor movement for the next frame. A movement that was
    /// noted before and not drawn yet is forgotten.
    pub fn next(&mut self, direction: CursorDirection)
        ensures
            final(self).pending() == Some(direction),
            final(self).frames() == old(self).frames(),
            final(self).state() == old(self).state(),
    {
        self.next_direction = Some(direction);
    }

    /// Begins a frame: hands out the pending cursor movement and, where it
    /// is `Back`, closes the topmost screen unless that is the root.
    pub fn begin(&mut self) -> (direction: Option<CursorDirection>)
        ensures
            direction == old(self).pending(),
            final(self).pending() is None,
            final(self).frames() == after_direction(old(self).frames(), old(self).pending()),
            final(self).frames().len() >= 1,
            final(self).state() == old(self).state(),
    {
        let next_direction = self.next_direction.take();
        if let Some(CursorDirection::Back) = next_direction {
            if self.above.len() > 0 {
                self.above.pop();
            }
        }
        next_direction
    }

    /// How many screens are open above the root.
    pub fn depth(&self) -> (n: usize)
        ensures
            n + 1 == self.frames().len(),
    {
        self.above.len()
    }

    /// The screen at `position`, counted from the root.
    pub fn frame(&self, position: usize) -> (screen: S)
        requires
            position < self.frames().len(),
        ensures
            screen == self.frames()[position as int],
    {
        if position == 0 {
            self.root
        } else {
            self.above[position - 1]
        }
    }

    /// The cursor movement that the screen at `position` gets to see: the
    /// topmost screen sees what the user did, the others see nothing.
    pub fn direction_for(&self, position: usize, direction: Option<CursorDirection>) -> (seen:
        Option<CursorDirection>)
        ensures
            seen == if position + 1 == self.frames().len() {
                direction
            } else {
                None
            },
    {
        if position == self.above.len() {
            direction
        } else {
            None
        }
    }

    /// The application's state, for the screens to draw from and to change.
    pub fn state_mut(&mut self) -> (state: &mut State)
        ensures
            *state == old(self).state(),
            final(self).state() == *final(state),
            final(self).frames() == old(self).frames(),
            final(self).pending() == old(self).pending(),
    {
        &mut self.state
    }

    /// Ends a frame: acts on what the topmost screen has yielded. An action
    /// is carried out on the application's state, which is then what the
    /// action's handler has made of it; a screen is opened on top of the
    /// stack.
    pub fn finish(&mut self, next_menu: Option<MenuSelection<A, S>>)
        ensures
            final(self).pending() == old(self).pending(),
            final(self).frames().len() >= 1,
            match next_menu {
                Some(MenuSelection::Action(action)) => {
                    &&& final(self).frames() == old(self).frames()
                    &&& exists|state: &mut State|
                        #![trigger call_ensures(A::handle, (&action, state), ())]
                        {
                            &&& call_ensures(A::handle, (&action, state), ())
                            &&& mut_ref_current(state) == old(self).state()
                            &&& mut_ref_future(state) == final(self).state()
                        }
                },
                Some(MenuSelection::Screen(screen)) => {
                    &&& final(self).frames() == old(self).frames().push(screen)
                    &&& final(self).state() == old(self).state()
                },
                None => {
                    &&& final(self).frames() == old(self).frames()
                    &&& final(self).state() == old(self).state()
                },
            },
    {
        if let Some(n) = next_menu {
            match n {
                MenuSelection::Action(a) => a.handle(&mut self.state),
                MenuSelection::Screen(s) => self.above.push(s),
            }
        }
    }
}

} // verus!
