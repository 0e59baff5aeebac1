//! The stack of open screens, root first, and the rules by which navigation
//! events and selections change it.
use crate::selections::{resolved_index, selectable_count, Selections};
use crate::traits::{
    lawful_eq, lemma_resolved, menu_of, resolves_purely, ActionTrait, EventSink, ScreenTrait,
};
use crate::types::{
    item_models, lemma_selection_eq, Menu, MenuModel, MenuSelection, NavigationEvent,
};
use crate::widgets::vertical_menu::{laid_out, MenuRow, VerticalMenu};
use vstd::prelude::*;

verus! {

/// The stack after the first step of a navigation event: `Back` closes the
/// topmost screen unless it is the root, and no other event changes the
/// stack.
pub open spec fn after_back<S>(frames: Seq<S>, event: NavigationEvent) -> Seq<S> {
    if event == NavigationEvent::Back && frames.len() > 1 {
        frames.drop_last()
    } else {
        frames
    }
}

/// The stack once what was chosen has had its effect: a chosen screen is
/// opened on top, and nothing else changes the stack.
pub open spec fn opened<S, A>(frames: Seq<S>, chosen: Option<MenuSelection<S, A>>) -> Seq<S> {
    match chosen {
        Some(MenuSelection::Screen(screen)) => frames.push(screen),
        _ => frames,
    }
}

/// Whether one of the entries of `menu` yields `selection`.
pub open spec fn offers<S, A>(menu: MenuModel<S, A>, selection: MenuSelection<S, A>) -> bool {
    exists|i: int| 0 <= i < menu.entries.len() && #[trigger] menu.entries[i].selection() == selection
}

/// The position of the first frame from `from` on whose menu offers
/// `selection`, and the length of the stack where there is none.
pub open spec fn first_offering<S: ScreenTrait>(
    frames: Seq<S>,
    state: S::State,
    selection: MenuSelection<S, S::Action>,
    from: int,
) -> int
    decreases frames.len() - from,
{
    if from < 0 || from >= frames.len() {
        frames.len() as int
    } else if offers(menu_of(frames[from], state), selection) {
        from
    } else {
        first_offering(frames, state, selection, from + 1)
    }
}

/// The stack after it was cut back to the first frame that offers
/// `selection`. A stack in which no frame offers it stays whole.
pub open spec fn cut_to<S: ScreenTrait>(
    frames: Seq<S>,
    state: S::State,
    selection: MenuSelection<S, S::Action>,
) -> Seq<S> {
    frames.take(
        if first_offering(frames, state, selection, 0) < frames.len() {
            first_offering(frames, state, selection, 0) + 1
        } else {
            frames.len() as int
        },
    )
}

/// The first offering frame lies in the stack or is its length.
pub proof fn lemma_first_offering<S: ScreenTrait>(
    frames: Seq<S>,
    state: S::State,
    selection: MenuSelection<S, S::Action>,
    from: int,
)
    requires
        0 <= from <= frames.len(),
    ensures
        from <= first_offering(frames, state, selection, from) <= frames.len(),
        first_offering(frames, state, selection, from) < frames.len() ==> offers(
            menu_of(frames[first_offering(frames, state, selection, from)], state),
            selection,
        ),
        forall|k: int|
            from <= k < first_offering(frames, state, selection, from) ==> !offers(
                menu_of(#[trigger] frames[k], state),
                selection,
            ),
    decreases frames.len() - from,
{
    if from < frames.len() && !offers(menu_of(frames[from], state), selection) {
        lemma_first_offering(frames, state, selection, from + 1);
    }
}

/// One open screen as the renderer draws it: its menu and the rows of that
/// menu.
#[derive(Debug)]
pub struct MenuFrame<S> where S: ScreenTrait {
    pub menu: Menu<S, S::Action>,
    pub rows: Vec<MenuRow<S>>,
}

/// The screens that are open, the root first and the one in use last,
/// together with the application's state. The root is kept apart from the
/// screens opened above it, so the stack is never empty.
#[derive(Debug)]
pub struct NavigationMenu<S> where S: ScreenTrait {
    /// The screen that was opened first and stays open
    root: S,
    /// The screens opened above the root, the latest last
    above: Vec<S>,
    /// The custom state
    pub(crate) state: S::State,
}

impl<S: ScreenTrait> NavigationMenu<S> {
    /// The open screens, the root first.
    pub closed spec fn frames(&self) -> Seq<S> {
        seq![self.root] + self.above@
    }

    /// The application's state.
    pub closed spec fn state(&self) -> S::State {
        self.state
    }

    /// Whatever was done to the stack, the root is still open.
    pub proof fn lemma_never_empty(&self)
        ensures
            self.frames().len() >= 1,
    {
    }

    /// The menu of the topmost screen once `event` has taken its effect on
    /// the stack.
    pub open spec fn menu_under(&self, event: NavigationEvent) -> MenuModel<S, S::Action> {
        menu_of(after_back(self.frames(), event).last(), self.state())
    }

    /// What `event` chooses: on `Select` the selection of the entry under
    /// the cursor of the topmost menu, and nothing otherwise. Nothing can be
    /// chosen in a menu without a selectable entry.
    pub open spec fn chosen_by(&self, event: NavigationEvent, entries: Map<Seq<char>, usize>) -> Option<
        MenuSelection<S, S::Action>,
    > {
        VerticalMenu::<S>::chosen_by(
            entries,
            self.menu_under(event).id,
            self.menu_under(event).entries,
            event,
        )
    }

    /// The registry once `event` was applied: the index to which the event
    /// has moved the cursor of the menu that it reaches is written under
    /// that menu's identifier. Where that menu has no selectable entry the
    /// registry stays as it is.
    pub open spec fn entries_after(
        &self,
        event: NavigationEvent,
        entries: Map<Seq<char>, usize>,
    ) -> Map<Seq<char>, usize> {
        VerticalMenu::<S>::entries_after(
            entries,
            self.menu_under(event).id,
            self.menu_under(event).entries,
            event,
        )
    }

    /// Whether `event` can be applied: the menu that the event reaches has
    /// no selectable entry, or its cursor rests on one of its entries.
    pub open spec fn can_apply(&self, event: NavigationEvent, entries: Map<Seq<char>, usize>) -> bool {
        VerticalMenu::<S>::cursor_fits(
            entries,
            self.menu_under(event).id,
            self.menu_under(event).entries,
        )
    }

    /// Whether every open screen can be drawn: each menu has no selectable
    /// entry, or its cursor rests on one of its entries.
    pub open spec fn can_show(&self, entries: Map<Seq<char>, usize>) -> bool {
        forall|i: int|
            0 <= i < self.frames().len() ==> VerticalMenu::<S>::cursor_fits(
                entries,
                menu_of(#[trigger] self.frames()[i], self.state()).id,
                menu_of(self.frames()[i], self.state()).entries,
            )
    }

    /// A stack that holds the root screen alone.
    pub fn new(state: S::State, root: S) -> (menu: Self)
        ensures
            menu.frames() == seq![root],
            menu.state() == state,
    {
        NavigationMenu { root, above: Vec::new(), state }
    }

    /// The application's state.
    pub fn state_ref(&self) -> (state: &S::State)
        ensures
            *state == self.state(),
    {
        &self.state
    }

    /// The application's state, to change it. The stack stays as it is.
    pub fn state_mut(&mut self) -> (state: &mut S::State)
        ensures
            *state == old(self).state(),
            final(self).state() == *final(state),
            final(self).frames() == old(self).frames(),
    {
        &mut self.state
    }

    /// How many screens are open above the root.
    pub fn depth(&self) -> (n: usize)
        ensures
            n + 1 == self.frames().len(),
    {
        self.above.len()
    }

    /// The screen at `position`, counted from the root.
    pub fn frame(&self, position: usize) -> (screen: S)
        requires
            position < self.frames().len(),
        ensures
            screen == self.frames()[position as int],
    {
        if position == 0 {
            self.root
        } else {
            self.above[position - 1]
        }
    }

    /// The open screens, the root first.
    pub fn stack(&self) -> (frames: Vec<S>)
        ensures
            frames@ == self.frames(),
    {
        let mut frames: Vec<S> = Vec::new();
        frames.push(self.root);
        let mut i: usize = 0;
        while i < self.above.len()
            invariant
                i <= self.above@.len(),
                frames@ == seq![self.root] + self.above@.take(i as int),
            decreases self.above@.len() - i,
        {
            frames.push(self.above[i]);
            proof {
                assert(self.above@.take(i + 1) == self.above@.take(i as int).push(
                    self.above@[i as int],
                ));
            }
            i += 1;
        }
        proof {
            assert(self.above@.take(self.above@.len() as int) == self.above@);
        }
        frames
    }

    /// The screen in use: the topmost one.
    pub fn current(&self) -> (screen: S)
        ensures
            screen == self.frames().last(),
    {
        if self.above.len() == 0 {
            self.root
        } else {
            self.above[self.above.len() - 1]
        }
    }

    /// Opens `screen` on top of the others, also where it is open already.
    pub fn push(&mut self, screen: S)
        ensures
            final(self).frames() == old(self).frames().push(screen),
            final(self).state() == old(self).state(),
    {
        self.above.push(screen);
    }

    /// Closes the topmost screen. The root is never closed: on a stack that
    /// holds it alone this does nothing.
    pub fn pop(&mut self)
        ensures
            final(self).frames() == if old(self).frames().len() > 1 {
                old(self).frames().drop_last()
            } else {
                old(self).frames()
            },
            final(self).frames().len() >= 1,
            final(self).state() == old(self).state(),
    {
        if self.above.len() > 0 {
            self.above.pop();
        }
    }

    /// Tests [`Self::can_apply`].
    pub fn is_ready(&self, event: &NavigationEvent, selections: &Selections) -> (ready: bool)
        requires
            resolves_purely::<S>(),
        ensures
            ready == self.can_apply(*event, selections@),
    {
        let above = self.above.len();
        let top = if above > 0 && *event == NavigationEvent::Back {
            above - 1
        } else {
            above
        };
        proof {
            assert(after_back(self.frames(), *event).last() == self.frames()[top as int]);
        }
        let menu_desc = self.frame(top).resolve(&self.state);
        proof {
            lemma_resolved::<S>(self.frames()[top as int], self.state, menu_desc);
        }
        VerticalMenu::<S>::can_navigate(&menu_desc.id, menu_desc.entries.as_slice(), selections)
    }

    /// Whether the menu of `screen` can be drawn.
    fn screen_showable(&self, screen: S, selections: &Selections) -> (showable: bool)
        requires
            resolves_purely::<S>(),
        ensures
            showable == VerticalMenu::<S>::cursor_fits(
                selections@,
                menu_of(screen, self.state()).id,
                menu_of(screen, self.state()).entries,
            ),
    {
        let menu_desc = screen.resolve(&self.state);
        proof {
            lemma_resolved::<S>(screen, self.state, menu_desc);
        }
        VerticalMenu::<S>::can_navigate(&menu_desc.id, menu_desc.entries.as_slice(), selections)
    }

    /// Tests [`Self::can_show`].
    pub fn is_showable(&self, selections: &Selections) -> (showable: bool)
        requires
            resolves_purely::<S>(),
        ensures
            showable == self.can_show(selections@),
    {
        if !self.screen_showable(self.root, selections) {
            proof {
                assert(self.frames()[0] == self.root);
            }
            return false;
        }
        let mut i: usize = 0;
        while i < self.above.len()
            invariant
                i <= self.above@.len(),
                resolves_purely::<S>(),
                forall|j: int|
                    0 <= j < i + 1 ==> VerticalMenu::<S>::cursor_fits(
                        selections@,
                        menu_of(#[trigger] self.frames()[j], self.state()).id,
                        menu_of(self.frames()[j], self.state()).entries,
                    ),
            decreases self.above@.len() - i,
        {
            if !self.screen_showable(self.above[i], selections) {
                proof {
                    assert(self.frames()[i + 1] == self.above@[i as int]);
                }
                return false;
            }
            proof {
                assert(self.frames()[i + 1] == self.above@[i as int]);
            }
            i += 1;
        }
        true
    }

    /// Lays out the menu of one screen.
    fn lay_out(&self, screen: S, selections: &Selections) -> (frame: MenuFrame<S>)
        requires
            resolves_purely::<S>(),
            VerticalMenu::<S>::cursor_fits(
                selections@,
                menu_of(screen, self.state()).id,
                menu_of(screen, self.state()).entries,
            ),
        ensures
            call_ensures(S::resolve, (&screen, &self.state()), frame.menu),
            frame.menu@ == menu_of(screen, self.state()),
            laid_out(
                frame.rows@,
                frame.menu@.entries,
                resolved_index(selections@, frame.menu@.id, frame.menu@.entries) as int,
            ),
    {
        let menu_desc = screen.resolve(&self.state);
        proof {
            lemma_resolved::<S>(screen, self.state, menu_desc);
        }
        let rows = VerticalMenu::<S> {
            id: menu_desc.id.clone(),
            items: menu_desc.entries.as_slice(),
            style: menu_desc.style,
            background: menu_desc.background,
        }.build(selections);
        MenuFrame { menu: menu_desc, rows }
    }

    /// Lays out every open screen, the root first, so that the renderer can
    /// draw them side by side. Each frame holds the menu as its screen has
    /// built it, labels, icons, layout and background included.
    pub fn show(&self, selections: &Selections) -> (frames: Vec<MenuFrame<S>>)
        requires
            resolves_purely::<S>(),
            self.can_show(selections@),
        ensures
            frames@.len() == self.frames().len(),
            forall|i: int|
                0 <= i < frames@.len() ==> {
                    &&& call_ensures(
                        S::resolve,
                        (&self.frames()[i], &self.state()),
                        (#[trigger] frames@[i]).menu,
                    )
                    &&& frames@[i].menu@ == menu_of(self.frames()[i], self.state())
                    &&& laid_out(
                        frames@[i].rows@,
                        frames@[i].menu@.entries,
                        resolved_index(selections@, frames@[i].menu@.id, frames@[i].menu@.entries) as int,
                    )
                },
    {
        let mut frames: Vec<MenuFrame<S>> = Vec::new();
        proof {
            assert(self.frames()[0] == self.root);
        }
        frames.push(self.lay_out(self.root, selections));
        let mut i: usize = 0;
        while i < self.above.len()
            invariant
                i <= self.above@.len(),
                resolves_purely::<S>(),
                self.can_show(selections@),
                frames@.len() == i + 1,
                forall|j: int|
                    0 <= j < i + 1 ==> {
                        &&& call_ensures(
                            S::resolve,
                            (&self.frames()[j], &self.state()),
                            (#[trigger] frames@[j]).menu,
                        )
                        &&& frames@[j].menu@ == menu_of(self.frames()[j], self.state())
                        &&& laid_out(
                            frames@[j].rows@,
                            frames@[j].menu@.entries,
                            resolved_index(
                                selections@,
                                frames@[j].menu@.id,
                                frames@[j].menu@.entries,
                            ) as int,
                        )
                    },
            decreases self.above@.len() - i,
        {
            proof {
                assert(self.frames()[i + 1] == self.above@[i as int]);
            }
            frames.push(self.lay_out(self.above[i], selections));
            i += 1;
        }
        frames
    }

    /// Applies a navigation event.
    ///
    /// `Back` first closes the topmost screen, unless it is the root. The
    /// event then goes to the menu of the screen that is topmost now: `Up`
    /// and `Down` move its cursor, `Select` yields the selection of the
    /// entry under the cursor, and the index of the cursor is written to the
    /// registry. A menu without a selectable entry takes the event in
    /// silence: nothing is chosen and the registry stays as it is. The
    /// application's state is not touched, and the stack is never left
    /// empty.
    pub fn apply_event(&mut self, event: &NavigationEvent, selections: &mut Selections) -> (chosen:
        Option<MenuSelection<S, S::Action>>)
        requires
            resolves_purely::<S>(),
            old(self).can_apply(*event, old(selections)@),
        ensures
            final(self).frames() == after_back(old(self).frames(), *event),
            final(self).frames().len() >= 1,
            final(self).state() == old(self).state(),
            final(selections)@ == old(self).entries_after(*event, old(selections)@),
            VerticalMenu::<S>::cursor_fits(
                final(selections)@,
                old(self).menu_under(*event).id,
                old(self).menu_under(*event).entries,
            ),
            selectable_count(old(self).menu_under(*event).entries) == 0 ==> {
                &&& chosen is None
                &&& final(selections)@ == old(selections)@
            },
            *event != NavigationEvent::Select ==> chosen is None,
            lawful_eq::<S>() ==> chosen == old(self).chosen_by(*event, old(selections)@),
    {
        if self.above.len() > 0 && *event == NavigationEvent::Back {
            self.above.pop();
        }
        proof {
            assert(self.frames() == after_back(old(self).frames(), *event));
        }
        let menu_desc = self.current().resolve(&self.state);
        proof {
            lemma_resolved::<S>(self.frames().last(), self.state, menu_desc);
        }
        VerticalMenu::<S>::apply_event(
            event,
            menu_desc.id.clone(),
            menu_desc.entries.as_slice(),
            selections,
        )
    }

    /// Acts on what was chosen: an action is carried out on the
    /// application's state and may report events, a screen is opened on
    /// top of the stack, and nothing is done for no selection. An action
    /// never changes the stack. Its handler is called once, on the state as
    /// it was and with an empty sink of its own; the state is then what the
    /// handler has made of it, and what the handler has sent is added
    /// behind the events that `event_writer` holds already.
    pub fn handle_selection(
        &mut self,
        selection: &MenuSelection<S, S::Action>,
        event_writer: &mut EventSink<<S::Action as ActionTrait>::Event>,
    )
        ensures
            final(self).frames().len() >= 1,
            match *selection {
                MenuSelection::Action(action) => {
                    &&& final(self).frames() == old(self).frames()
                    &&& old(event_writer)@.is_prefix_of(final(event_writer)@)
                    &&& exists|
                        state: &mut S::State,
                        sent: &mut EventSink<<S::Action as ActionTrait>::Event>,
                    |
                        #![trigger call_ensures(<S::Action as ActionTrait>::handle, (&action, state, sent), ())]
                        {
                            &&& call_ensures(
                                <S::Action as ActionTrait>::handle,
                                (&action, state, sent),
                                (),
                            )
                            &&& mut_ref_current(state) == old(self).state()
                            &&& mut_ref_future(state) == final(self).state()
                            &&& mut_ref_current(sent)@.len() == 0
                            &&& final(event_writer)@ == old(event_writer)@ + mut_ref_future(sent)@
                        }
                },
                MenuSelection::Screen(screen) => {
                    &&& final(self).frames() == old(self).frames().push(screen)
                    &&& final(self).state() == old(self).state()
                    &&& final(event_writer)@ == old(event_writer)@
                },
                MenuSelection::Nothing => {
                    &&& final(self).frames() == old(self).frames()
                    &&& final(self).state() == old(self).state()
                    &&& final(event_writer)@ == old(event_writer)@
                },
            },
    {
        match selection {
            MenuSelection::Action(a) => {
                let mut sent = EventSink::new();
                a.handle(&mut self.state, &mut sent);
                event_writer.append(sent);
            },
            MenuSelection::Screen(s) => self.above.push(*s),
            MenuSelection::Nothing => (),
        }
    }

    /// Whether one of the entries of the menu of `screen` yields
    /// `selection`, as far as comparing selections can tell.
    fn screen_offers(&self, screen: S, selection: &MenuSelection<S, S::Action>) -> (found: bool)
        ensures
            lawful_eq::<S>() && resolves_purely::<S>() ==> found == offers(
                menu_of(screen, self.state()),
                *selection,
            ),
    {
        let menu_desc = screen.resolve(&self.state);
        proof {
            if resolves_purely::<S>() {
                lemma_resolved::<S>(screen, self.state, menu_desc);
            }
        }
        let ghost entries = menu_desc@.entries;
        let mut found = false;
        let mut j: usize = 0;
        while j < menu_desc.entries.len()
            invariant
                j <= menu_desc.entries@.len(),
                entries == item_models(menu_desc.entries@),
                lawful_eq::<S>() ==> (found <==> exists|k: int|
                    0 <= k < j && #[trigger] entries[k].selection() == *selection),
            decreases menu_desc.entries@.len() - j,
        {
            let entry_selection = menu_desc.entries[j].as_selection();
            proof {
                if lawful_eq::<S>() {
                    lemma_selection_eq::<S>(entry_selection, *selection);
                }
                assert(entries[j as int] == menu_desc.entries@[j as int]@);
            }
            if &entry_selection == selection {
                found = true;
            }
            j += 1;
        }
        found
    }

    /// How many screens stay open above the root when the stack is cut
    /// back to the first screen whose menu offers `selection`: all of them
    /// where none offers it.
    pub fn cut_depth(&self, selection: &MenuSelection<S, S::Action>) -> (kept: usize)
        ensures
            kept + 1 <= self.frames().len(),
            lawful_eq::<S>() && resolves_purely::<S>() ==> kept + 1 == cut_to(
                self.frames(),
                self.state(),
                *selection,
            ).len(),
    {
        let ghost frames = self.frames();
        let ghost state = self.state;
        let ghost at = first_offering(frames, state, *selection, 0);
        proof {
            lemma_first_offering(frames, state, *selection, 0);
            assert(frames[0] == self.root);
        }
        let mut found = self.screen_offers(self.root, selection);
        let mut items: usize = 0;
        let mut i: usize = 0;
        while i < self.above.len()
            invariant
                i <= self.above@.len(),
                self.frames() == frames,
                self.state == state,
                frames.len() == self.above@.len() + 1,
                at == first_offering(frames, state, *selection, 0),
                0 <= at <= frames.len(),
                items <= i,
                !found ==> items == 0,
                lawful_eq::<S>() && resolves_purely::<S>() && found ==> at <= i && items == i - at,
                lawful_eq::<S>() && resolves_purely::<S>() && !found ==> at > i,
                at < frames.len() ==> offers(menu_of(frames[at], state), *selection),
                forall|k: int|
                    0 <= k < at ==> !offers(menu_of(#[trigger] frames[k], state), *selection),
            decreases self.above@.len() - i,
        {
            proof {
                assert(frames[i + 1] == self.above@[i as int]);
            }
            if found {
                items += 1;
            } else {
                found = self.screen_offers(self.above[i], selection);
            }
            i += 1;
        }
        self.above.len() - items
    }

    /// Closes every screen above the first one whose menu offers
    /// `selection`, so that a click on an entry of a screen further down
    /// lands on that screen. Where no open screen offers it, nothing is
    /// closed.
    pub fn pop_to_selection(&mut self, selection: &MenuSelection<S, S::Action>)
        ensures
            final(self).frames().len() >= 1,
            final(self).frames().is_prefix_of(old(self).frames()),
            final(self).state() == old(self).state(),
            lawful_eq::<S>() && resolves_purely::<S>() ==> final(self).frames() == cut_to(
                old(self).frames(),
                old(self).state(),
                *selection,
            ),
    {
        let ghost frames = self.frames();
        let kept = self.cut_depth(selection);
        proof {
            lemma_first_offering(frames, self.state(), *selection, 0);
        }
        while self.above.len() > kept
            invariant
                kept + 1 <= frames.len(),
                frames == old(self).frames(),
                lawful_eq::<S>() && resolves_purely::<S>() ==> frames.take(kept + 1) == cut_to(
                    frames,
                    old(self).state(),
                    *selection,
                ),
                self.above@.len() + 1 <= frames.len(),
                self.above@.len() >= kept,
                self.frames() == frames.take(self.above@.len() as int + 1),
                self.state == old(self).state,
            decreases self.above@.len(),
        {
            let ghost before = self.above@.len() as int;
            self.above.pop();
            proof {
                assert(frames.take(before + 1).drop_last() == frames.take(before));
                assert(self.frames() == frames.take(before + 1).drop_last());
            }
        }
        proof {
            assert(frames.take(frames.len() as int) == frames);
        }
    }
}

} // verus!
