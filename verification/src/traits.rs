//! What an application supplies: its screens, its actions, and the sink
//! through which an action reports to the host.
use crate::types::{Menu, MenuModel};
use std::fmt::Debug;
use std::hash::Hash;
use vstd::laws_eq::obeys_concrete_eq;
use vstd::prelude::*;

verus! {

/// Collects the domain events that actions emit, oldest first. Events can
/// only be added.
pub struct EventSink<E> {
    events: Vec<E>,
}

impl<E> View for EventSink<E> {
    type V = Seq<E>;

    closed spec fn view(&self) -> Seq<E> {
        self.events@
    }
}

impl<E> EventSink<E> {
    /// A sink that holds nothing.
    pub fn new() -> (sink: Self)
        ensures
            sink@ == Seq::<E>::empty(),
    {
        EventSink { events: Vec::new() }
    }

    /// Adds `event` behind the events already sent.
    pub fn send(&mut self, event: E)
        ensures
            final(self)@ == old(self)@.push(event),
    {
        self.events.push(event);
    }

    /// Adds everything that `other` holds behind the events already sent.
    pub fn append(&mut self, other: EventSink<E>)
        ensures
            final(self)@ == old(self)@ + other@,
    {
        let mut other = other;
        self.events.append(&mut other.events);
    }

    /// The number of events sent so far.
    pub fn len(&self) -> (n: usize)
        ensures
            n == self@.len(),
    {
        self.events.len()
    }

    /// Whether nothing was sent so far.
    pub fn is_empty(&self) -> (empty: bool)
        ensures
            empty == (self@.len() == 0),
    {
        self.events.len() == 0
    }

    /// Hands the events out, oldest first.
    pub fn into_events(self) -> (events: Vec<E>)
        ensures
            events@ == self@,
    {
        self.events
    }
}

/// A user intent that a menu item can carry. The application says what it
/// does to the application's state and which events it reports.
pub trait ActionTrait: Debug + PartialEq + Eq + Clone + Copy + Hash + Send + Sync {
    type State;

    type Event: Send + Sync + 'static;

    /// Carries the action out. It receives a sink of its own; what it sends
    /// there is passed on to the host.
    fn handle(&self, state: &mut Self::State, event_writer: &mut EventSink<Self::Event>);
}

/// A screen of the application: a value that stands for one menu. Which menu
/// that is may depend on the screen and the application's state and on
/// nothing else.
pub trait ScreenTrait: Debug + PartialEq + Eq + Clone + Copy + Hash + Send + Sync {
    type Action: ActionTrait<State = Self::State>;

    type State: Send + Sync + 'static;

    /// Builds the menu that this screen shows in `state`.
    fn resolve(&self, state: &Self::State) -> Menu<Self, Self::Action>;
}

/// Whether `resolve` may hand out a menu with the identifier and the entries
/// of `menu` for `screen` in `state`.
pub open spec fn resolves_to<S: ScreenTrait>(
    screen: S,
    state: S::State,
    menu: MenuModel<S, S::Action>,
) -> bool {
    exists|built: Menu<S, S::Action>| #[trigger]
        call_ensures(S::resolve, (&screen, &state), built) && built@ == menu
}

/// The menu that `screen` shows in `state`: the identifier and the entries
/// of what `resolve` hands out for them.
pub open spec fn menu_of<S: ScreenTrait>(screen: S, state: S::State) -> MenuModel<S, S::Action> {
    choose|menu: MenuModel<S, S::Action>| resolves_to(screen, state, menu)
}

/// Whether the screens of `S` resolve purely: for one screen in one state
/// `resolve` always hands out the same identifier and the same entries.
/// The navigation rules resolve a screen whenever they need its menu, and
/// rely on finding the menu that they found before.
pub open spec fn resolves_purely<S: ScreenTrait>() -> bool {
    forall|screen: S, state: S::State, first: Menu<S, S::Action>, second: Menu<S, S::Action>|
        #[trigger] call_ensures(S::resolve, (&screen, &state), first) && #[trigger] call_ensures(
            S::resolve,
            (&screen, &state),
            second,
        ) ==> first@ == second@
}

/// What a purely resolving screen has handed out is its menu.
pub proof fn lemma_resolved<S: ScreenTrait>(screen: S, state: S::State, built: Menu<S, S::Action>)
    requires
        resolves_purely::<S>(),
        call_ensures(S::resolve, (&screen, &state), built),
    ensures
        built@ == menu_of(screen, state),
{
    assert(resolves_to(screen, state, built@));
    let other = choose|other: Menu<S, S::Action>| #[trigger]
        call_ensures(S::resolve, (&screen, &state), other) && other@ == menu_of(screen, state);
}

/// Whether `==` on screens and on actions of `S` tells exactly whether two
/// values are the same. Contracts that depend on a comparison speak under
/// this condition.
pub open spec fn lawful_eq<S: ScreenTrait>() -> bool {
    &&& obeys_concrete_eq::<S>()
    &&& obeys_concrete_eq::<S::Action>()
}

} // verus!
