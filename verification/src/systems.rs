//! One tick of the menu: input becomes navigation events, the first queued
//! event is applied, a click is followed, and the menu is laid out again
//! where something changed.
//!
//! The host reads its devices and hands over plain values; it gets back what
//! it has to send, draw or recolour.
use crate::menu_state::MenuState;
use crate::navigation_menu::{after_back, cut_to, opened, MenuFrame, NavigationMenu};
use crate::selections::{resolved_index, selectable_count, Selections};
use crate::traits::{
    lawful_eq, lemma_resolved, menu_of, resolves_purely, ActionTrait, EventSink, ScreenTrait,
};
use crate::types::{MenuSelection, NavigationEvent, RedrawEvent};
use crate::widget_id::WidgetId;
use crate::widgets::vertical_menu::{laid_out, MenuRow, RowKind, VerticalMenu};
use vstd::prelude::*;

verus! {

/// Which of the navigation keys went down since the last tick.
#[derive(Debug, Clone, Copy, PartialEq, Eq, Structural)]
pub struct KeyboardInput {
    pub arrow_down: bool,
    pub arrow_up: bool,
    pub enter: bool,
    pub backspace: bool,
}

/// Where a stick stands on one axis, against the dead zone round its centre.
#[derive(Debug, Clone, Copy, PartialEq, Eq, Structural)]
pub enum Deflection {
    /// The axis reports no value.
    Absent,
    /// Beyond the dead zone on the negative side.
    Negative,
    /// Inside the dead zone.
    Neutral,
    /// Beyond the dead zone on the positive side.
    Positive,
}

/// Which buttons of one gamepad went down since the last tick, and where
/// its sticks stand.
#[derive(Debug, Clone, Copy, PartialEq, Eq, Structural)]
pub struct GamepadInput {
    pub dpad_down: bool,
    pub dpad_up: bool,
    pub dpad_right: bool,
    pub south: bool,
    pub west: bool,
    pub east: bool,
    pub north: bool,
    pub left_stick_x: Deflection,
    pub left_stick_y: Deflection,
    pub right_stick_x: Deflection,
    pub right_stick_y: Deflection,
}

/// The event that the keyboard gives in one tick: at most one, and the
/// first of down, up, enter and backspace that was pressed.
pub open spec fn keyboard_event(keyboard: KeyboardInput) -> Option<NavigationEvent> {
    if keyboard.arrow_down {
        Some(NavigationEvent::Down)
    } else if keyboard.arrow_up {
        Some(NavigationEvent::Up)
    } else if keyboard.enter {
        Some(NavigationEvent::Select)
    } else if keyboard.backspace {
        Some(NavigationEvent::Back)
    } else {
        None
    }
}

/// The event that the buttons of a gamepad give in one tick: at most one.
/// The directional pad goes first, then the buttons that confirm, then
/// those that cancel.
pub open spec fn button_event(gamepad: GamepadInput) -> Option<NavigationEvent> {
    if gamepad.dpad_down {
        Some(NavigationEvent::Down)
    } else if gamepad.dpad_up {
        Some(NavigationEvent::Up)
    } else if gamepad.dpad_right {
        Some(NavigationEvent::Back)
    } else if gamepad.south || gamepad.west {
        Some(NavigationEvent::Select)
    } else if gamepad.east || gamepad.north {
        Some(NavigationEvent::Back)
    } else {
        None
    }
}

/// `event` alone where `holds`, and nothing otherwise.
pub open spec fn when(holds: bool, event: NavigationEvent) -> Seq<NavigationEvent> {
    if holds {
        seq![event]
    } else {
        Seq::<NavigationEvent>::empty()
    }
}

/// The event of `event` alone, and nothing for none.
pub open spec fn optional(event: Option<NavigationEvent>) -> Seq<NavigationEvent> {
    match event {
        Some(event) => seq![event],
        None => Seq::<NavigationEvent>::empty(),
    }
}

/// The events that the sticks of a gamepad give: each stick goes back when
/// pushed to the negative side of its horizontal axis, down when pushed to
/// the negative side of its vertical axis and up when pushed to the
/// positive side of it. The left stick comes first; every deflection gives
/// an event of its own.
pub open spec fn stick_events(gamepad: GamepadInput) -> Seq<NavigationEvent> {
    when(gamepad.left_stick_x is Negative, NavigationEvent::Back) + when(
        gamepad.left_stick_y is Negative,
        NavigationEvent::Down,
    ) + when(gamepad.left_stick_y is Positive, NavigationEvent::Up) + when(
        gamepad.right_stick_x is Negative,
        NavigationEvent::Back,
    ) + when(gamepad.right_stick_y is Negative, NavigationEvent::Down) + when(
        gamepad.right_stick_y is Positive,
        NavigationEvent::Up,
    )
}

/// The events of one gamepad: that of its buttons, then those of its sticks
/// where a stick has moved since the last tick.
pub open spec fn gamepad_events(gamepad: GamepadInput, axes_changed: bool) -> Seq<NavigationEvent> {
    optional(button_event(gamepad)) + if axes_changed {
        stick_events(gamepad)
    } else {
        Seq::<NavigationEvent>::empty()
    }
}

/// The events of all gamepads, gamepad by gamepad.
pub open spec fn all_gamepad_events(gamepads: Seq<GamepadInput>, axes_changed: bool) -> Seq<
    NavigationEvent,
>
    decreases gamepads.len(),
{
    if gamepads.len() == 0 {
        Seq::<NavigationEvent>::empty()
    } else {
        all_gamepad_events(gamepads.drop_last(), axes_changed) + gamepad_events(
            gamepads.last(),
            axes_changed,
        )
    }
}

/// Everything that one tick of input gives: the event of the keyboard, then
/// the events of the gamepads.
pub open spec fn navigation_events(
    keyboard: KeyboardInput,
    gamepads: Seq<GamepadInput>,
    axes_changed: bool,
) -> Seq<NavigationEvent> {
    optional(keyboard_event(keyboard)) + all_gamepad_events(gamepads, axes_changed)
}

/// Sends `event` where `holds`.
fn send_when(writer: &mut EventSink<NavigationEvent>, holds: bool, event: NavigationEvent)
    ensures
        final(writer)@ == old(writer)@ + when(holds, event),
{
    if holds {
        writer.send(event);
    }
}

/// Sends the event of the buttons of `gamepad`, if there is one.
fn send_button_event(writer: &mut EventSink<NavigationEvent>, gamepad: &GamepadInput)
    ensures
        final(writer)@ == old(writer)@ + optional(button_event(*gamepad)),
{
    if gamepad.dpad_down {
        writer.send(NavigationEvent::Down);
    } else if gamepad.dpad_up {
        writer.send(NavigationEvent::Up);
    } else if gamepad.dpad_right {
        writer.send(NavigationEvent::Back);
    } else if gamepad.south || gamepad.west {
        writer.send(NavigationEvent::Select);
    } else if gamepad.east || gamepad.north {
        writer.send(NavigationEvent::Back);
    }
}

/// Sends the events of the sticks of `gamepad`.
fn send_stick_events(writer: &mut EventSink<NavigationEvent>, gamepad: &GamepadInput)
    ensures
        final(writer)@ == old(writer)@ + stick_events(*gamepad),
{
    send_when(writer, matches!(gamepad.left_stick_x, Deflection::Negative), NavigationEvent::Back);
    send_when(writer, matches!(gamepad.left_stick_y, Deflection::Negative), NavigationEvent::Down);
    send_when(writer, matches!(gamepad.left_stick_y, Deflection::Positive), NavigationEvent::Up);
    let ghost left = when(gamepad.left_stick_x is Negative, NavigationEvent::Back) + when(
        gamepad.left_stick_y is Negative,
        NavigationEvent::Down,
    ) + when(gamepad.left_stick_y is Positive, NavigationEvent::Up);
    assert(writer@ =~= old(writer)@ + left);
    send_when(writer, matches!(gamepad.right_stick_x, Deflection::Negative), NavigationEvent::Back);
    send_when(writer, matches!(gamepad.right_stick_y, Deflection::Negative), NavigationEvent::Down);
    send_when(writer, matches!(gamepad.right_stick_y, Deflection::Positive), NavigationEvent::Up);
    assert(writer@ =~= old(writer)@ + stick_events(*gamepad));
}

/// Turns one tick of keyboard and gamepad input into navigation events and
/// sends them to `writer`.
pub fn keyboard_input_system(
    keyboard_input: &KeyboardInput,
    writer: &mut EventSink<NavigationEvent>,
    gamepads: &[GamepadInput],
    axes_changed: bool,
)
    ensures
        final(writer)@ == old(writer)@ + navigation_events(*keyboard_input, gamepads@, axes_changed),
{
    if keyboard_input.arrow_down {
        writer.send(NavigationEvent::Down);
    } else if keyboard_input.arrow_up {
        writer.send(NavigationEvent::Up);
    } else if keyboard_input.enter {
        writer.send(NavigationEvent::Select);
    } else if keyboard_input.backspace {
        writer.send(NavigationEvent::Back);
    }
    let ghost start = old(writer)@ + optional(keyboard_event(*keyboard_input));
    let mut i: usize = 0;
    while i < gamepads.len()
        invariant
            i <= gamepads@.len(),
            writer@ == start + all_gamepad_events(gamepads@.take(i as int), axes_changed),
        decreases gamepads@.len() - i,
    {
        let gamepad = &gamepads[i];
        let ghost before = writer@;
        let ghost earlier = all_gamepad_events(gamepads@.take(i as int), axes_changed);
        send_button_event(writer, gamepad);
        if axes_changed {
            send_stick_events(writer, gamepad);
        }
        proof {
            assert(gamepads@.take(i + 1).drop_last() == gamepads@.take(i as int));
            assert(gamepads@.take(i + 1).last() == *gamepad);
            assert(writer@ =~= before + gamepad_events(*gamepad, axes_changed));
            assert(writer@ =~= start + (earlier + gamepad_events(*gamepad, axes_changed)));
        }
        i += 1;
    }
    proof {
        assert(gamepads@.take(gamepads@.len() as int) == gamepads@);
        assert(writer@ =~= old(writer)@ + navigation_events(*keyboard_input, gamepads@, axes_changed));
    }
}

/// Applies the first queued navigation event, if there is one, acts on what
/// it chose, and asks for a redraw. The events behind the first stay queued
/// for the ticks to come, so that one tick changes the stack at most once:
/// it closes one screen, or opens one, or leaves the stack as it is. An
/// event that reaches a menu without a selectable entry is consumed like any
/// other and chooses nothing.
pub fn input_system<S: ScreenTrait>(
    reader: &mut Vec<NavigationEvent>,
    menu_state: &mut MenuState<S>,
    redraw_writer: &mut EventSink<RedrawEvent>,
    selections: &mut Selections,
    event_writer: &mut EventSink<<S::Action as ActionTrait>::Event>,
)
    requires
        resolves_purely::<S>(),
        old(reader)@.len() > 0 ==> old(menu_state).menu.can_apply(
            old(reader)@[0],
            old(selections)@,
        ),
    ensures
        final(menu_state).initial_render_done == old(menu_state).initial_render_done,
        final(menu_state).menu.frames().len() >= 1,
        old(event_writer)@.is_prefix_of(final(event_writer)@),
        old(reader)@.len() == 0 ==> {
            &&& final(reader)@ == old(reader)@
            &&& final(menu_state).menu.frames() == old(menu_state).menu.frames()
            &&& final(menu_state).menu.state() == old(menu_state).menu.state()
            &&& final(selections)@ == old(selections)@
            &&& final(redraw_writer)@ == old(redraw_writer)@
            &&& final(event_writer)@ == old(event_writer)@
        },
        old(reader)@.len() > 0 ==> {
            &&& final(reader)@ == old(reader)@.drop_first()
            &&& final(redraw_writer)@ == old(redraw_writer)@.push(RedrawEvent)
            &&& final(selections)@ == old(menu_state).menu.entries_after(
                old(reader)@[0],
                old(selections)@,
            )
            &&& {
                ||| final(menu_state).menu.frames() == after_back(
                    old(menu_state).menu.frames(),
                    old(reader)@[0],
                )
                ||| old(reader)@[0] == NavigationEvent::Select && exists|screen: S|
                    final(menu_state).menu.frames() == #[trigger] old(
                        menu_state,
                    ).menu.frames().push(screen)
            }
        },
        old(reader)@.len() > 0 && (old(reader)@[0] != NavigationEvent::Select || selectable_count(
            old(menu_state).menu.menu_under(old(reader)@[0]).entries,
        ) == 0) ==> {
            &&& final(menu_state).menu.frames() == after_back(
                old(menu_state).menu.frames(),
                old(reader)@[0],
            )
            &&& final(menu_state).menu.state() == old(menu_state).menu.state()
            &&& final(event_writer)@ == old(event_writer)@
        },
        old(reader)@.len() > 0 && lawful_eq::<S>() ==> {
            let chosen = old(menu_state).menu.chosen_by(old(reader)@[0], old(selections)@);
            &&& final(menu_state).menu.frames() == opened(
                after_back(old(menu_state).menu.frames(), old(reader)@[0]),
                chosen,
            )
            &&& !(chosen matches Some(MenuSelection::Action(_))) ==> {
                &&& final(menu_state).menu.state() == old(menu_state).menu.state()
                &&& final(event_writer)@ == old(event_writer)@
            }
            &&& chosen matches Some(MenuSelection::Action(action)) ==> exists|
                state: &mut S::State,
                sent: &mut EventSink<<S::Action as ActionTrait>::Event>,
            |
                #![trigger call_ensures(<S::Action as ActionTrait>::handle, (&action, state, sent), ())]
                {
                    &&& call_ensures(<S::Action as ActionTrait>::handle, (&action, state, sent), ())
                    &&& mut_ref_current(state) == old(menu_state).menu.state()
                    &&& mut_ref_future(state) == final(menu_state).menu.state()
                    &&& mut_ref_current(sent)@.len() == 0
                    &&& final(event_writer)@ == old(event_writer)@ + mut_ref_future(sent)@
                }
        },
{
    proof {
        menu_state.menu.lemma_never_empty();
    }
    if reader.len() == 0 {
        return ;
    }
    let event = reader.remove(0);
    if let Some(selection) = menu_state.menu.apply_event(&event, selections) {
        let ghost reached = menu_state.menu.frames();
        menu_state.menu.handle_selection(&selection, event_writer);
        proof {
            if let MenuSelection::Screen(screen) = selection {
                assert(menu_state.menu.frames() == reached.push(screen));
            }
        }
    }
    redraw_writer.send(RedrawEvent);
}

/// What the pointer does to a button.
#[derive(Debug, Clone, Copy, PartialEq, Eq, Structural)]
pub enum Interaction {
    /// The button was pressed.
    Pressed,
    /// The pointer is over the button.
    Hovered,
    /// The pointer has left the button.
    Idle,
}

/// What the renderer remembers of each button that it drew.
pub struct ButtonComponent<S> where S: ScreenTrait {
    /// What choosing the button yields.
    pub selection: MenuSelection<S, S::Action>,
    /// The menu of the button and the index under which the registry knows
    /// the button.
    pub menu_identifier: (WidgetId, usize),
    /// Whether the cursor was on the button when it was drawn.
    pub selected: bool,
}

impl<S: ScreenTrait> ButtonComponent<S> {
    /// What the renderer has to remember of the button of `row` in the menu
    /// `id`. A row that is no button has nothing to remember.
    pub fn of_row(id: &WidgetId, row: &MenuRow<S>) -> (button: Option<Self>)
        ensures
            row.kind != RowKind::Button ==> button is None,
            row.kind == RowKind::Button ==> ({
                &&& button matches Some(button)
                &&& button.selection == row.selection
                &&& button.menu_identifier.0@ == id@
                &&& button.menu_identifier.1 == row.index
                &&& button.selected == row.focussed
            }),
    {
        match row.kind {
            RowKind::Button => Some(
                ButtonComponent {
                    selection: row.selection.clone(),
                    menu_identifier: (id.clone(), row.index),
                    selected: row.focussed,
                },
            ),
            _ => None,
        }
    }
}

/// Which of its backgrounds a button takes.
#[derive(Debug, Clone, Copy, PartialEq, Eq, Structural)]
pub enum Highlight {
    /// The background of a button under the pointer.
    Hover,
    /// The background of a button at rest.
    Normal,
}

/// What the host has to do after a pointer interaction.
#[derive(Debug, Clone, Copy, PartialEq, Eq, Structural)]
pub struct MouseOutcome {
    /// Whether the menu has to be drawn again.
    pub redraw: bool,
    /// The background that the button takes, where it changes.
    pub background: Option<Highlight>,
}

/// The background that a button takes under `interaction`: none for a press
/// and for the button under the cursor, which keeps its own.
pub open spec fn highlight(interaction: Interaction, selected: bool) -> Option<Highlight> {
    match interaction {
        Interaction::Pressed => None,
        Interaction::Hovered => if selected {
            None
        } else {
            Some(Highlight::Hover)
        },
        Interaction::Idle => if selected {
            None
        } else {
            Some(Highlight::Normal)
        },
    }
}

/// The registry once the click on `button` was written into it.
pub open spec fn clicked_entries<S: ScreenTrait>(
    entries: Map<Seq<char>, usize>,
    button: ButtonComponent<S>,
) -> Map<Seq<char>, usize> {
    entries.insert(button.menu_identifier.0@, button.menu_identifier.1)
}

/// Whether `button` can be pressed: once the stack is cut back to the
/// screen that offers the button's selection and the click is written into
/// the registry, the topmost menu has no selectable entry or its cursor
/// rests on one of its entries. Where selections do not compare lawfully the
/// stack may be cut back to any of its screens, and this has to hold of
/// each.
pub open spec fn can_press<S: ScreenTrait>(
    menu: NavigationMenu<S>,
    button: ButtonComponent<S>,
    entries: Map<Seq<char>, usize>,
) -> bool {
    forall|n: int|
        1 <= n <= menu.frames().len() && (lawful_eq::<S>() ==> n == cut_to(
            menu.frames(),
            menu.state(),
            button.selection,
        ).len()) ==> VerticalMenu::<S>::cursor_fits(
            clicked_entries(entries, button),
            menu_of(#[trigger] menu.frames()[n - 1], menu.state()).id,
            menu_of(menu.frames()[n - 1], menu.state()).entries,
        )
}

/// Tests [`can_press`], as far as comparing selections can tell.
pub fn is_pressable<S: ScreenTrait>(
    menu_state: &MenuState<S>,
    button: &ButtonComponent<S>,
    selections: &Selections,
) -> (pressable: bool)
    requires
        resolves_purely::<S>(),
    ensures
        lawful_eq::<S>() ==> pressable == can_press(menu_state.menu, *button, selections@),
{
    let kept = menu_state.menu.cut_depth(&button.selection);
    let top = menu_state.menu.frame(kept).resolve(menu_state.menu.state_ref());
    proof {
        lemma_resolved::<S>(menu_state.menu.frames()[kept as int], menu_state.menu.state(), top);
    }
    let pressable = if top.id == button.menu_identifier.0 {
        !VerticalMenu::<S>::has_entry(top.entries.as_slice(), 0) || VerticalMenu::<S>::has_entry(
            top.entries.as_slice(),
            button.menu_identifier.1,
        )
    } else {
        VerticalMenu::<S>::can_navigate(&top.id, top.entries.as_slice(), selections)
    };
    proof {
        if lawful_eq::<S>() {
            let frames = menu_state.menu.frames();
            let state = menu_state.menu.state();
            let reached = VerticalMenu::<S>::cursor_fits(
                clicked_entries(selections@, *button),
                menu_of(frames[kept as int], state).id,
                menu_of(frames[kept as int], state).entries,
            );
            assert(pressable == reached);
            if can_press(menu_state.menu, *button, selections@) {
                assert(frames[kept + 1 - 1] == frames[kept as int]);
            }
        }
    }
    pressable
}

/// Follows a pointer interaction with a button.
///
/// A press closes the screens above the one that offers the button's
/// selection, puts the cursor of the button's menu on the button, and then
/// selects as the keyboard would; a redraw is asked for where that has
/// chosen something. Hovering and leaving only change the background of a
/// button that the cursor is not on.
pub fn mouse_system<S: ScreenTrait>(
    menu_state: &mut MenuState<S>,
    interaction: Interaction,
    button: &ButtonComponent<S>,
    event_writer: &mut EventSink<<S::Action as ActionTrait>::Event>,
    selections: &mut Selections,
    redraw_writer: &mut EventSink<RedrawEvent>,
) -> (outcome: MouseOutcome)
    requires
        resolves_purely::<S>(),
        interaction is Pressed ==> can_press(old(menu_state).menu, *button, old(selections)@),
    ensures
        outcome.background == highlight(interaction, button.selected),
        final(menu_state).initial_render_done == old(menu_state).initial_render_done,
        final(menu_state).menu.frames().len() >= 1,
        old(event_writer)@.is_prefix_of(final(event_writer)@),
        final(redraw_writer)@ == old(redraw_writer)@ + if outcome.redraw {
            seq![RedrawEvent]
        } else {
            Seq::<RedrawEvent>::empty()
        },
        !(interaction is Pressed) ==> {
            &&& !outcome.redraw
            &&& final(menu_state).menu.frames() == old(menu_state).menu.frames()
            &&& final(menu_state).menu.state() == old(menu_state).menu.state()
            &&& final(selections)@ == old(selections)@
            &&& final(event_writer)@ == old(event_writer)@
        },
        interaction is Pressed && lawful_eq::<S>() ==> {
            let cut = cut_to(
                old(menu_state).menu.frames(),
                old(menu_state).menu.state(),
                button.selection,
            );
            let top = menu_of(cut.last(), old(menu_state).menu.state());
            let clicked = clicked_entries(old(selections)@, *button);
            let chosen = VerticalMenu::<S>::chosen_by(
                clicked,
                top.id,
                top.entries,
                NavigationEvent::Select,
            );
            &&& outcome.redraw == (chosen is Some)
            &&& final(menu_state).menu.frames() == opened(cut, chosen)
            &&& final(selections)@ == VerticalMenu::<S>::entries_after(
                clicked,
                top.id,
                top.entries,
                NavigationEvent::Select,
            )
            &&& !(chosen matches Some(MenuSelection::Action(_))) ==> {
                &&& final(menu_state).menu.state() == old(menu_state).menu.state()
                &&& final(event_writer)@ == old(event_writer)@
            }
            &&& chosen matches Some(MenuSelection::Action(action)) ==> exists|
                state: &mut S::State,
                sent: &mut EventSink<<S::Action as ActionTrait>::Event>,
            |
                #![trigger call_ensures(<S::Action as ActionTrait>::handle, (&action, state, sent), ())]
                {
                    &&& call_ensures(<S::Action as ActionTrait>::handle, (&action, state, sent), ())
                    &&& mut_ref_current(state) == old(menu_state).menu.state()
                    &&& mut_ref_future(state) == final(menu_state).menu.state()
                    &&& mut_ref_current(sent)@.len() == 0
                    &&& final(event_writer)@ == old(event_writer)@ + mut_ref_future(sent)@
                }
        },
{
    proof {
        menu_state.menu.lemma_never_empty();
    }
    match interaction {
        Interaction::Pressed => {
            let ghost frames = menu_state.menu.frames();
            // pop to the chosen selection stack entry
            menu_state.menu.pop_to_selection(&button.selection);
            proof {
                let n = menu_state.menu.frames().len() as int;
                assert(menu_state.menu.frames() == frames.take(n));
                assert(menu_state.menu.frames().last() == frames[n - 1]);
                assert(frames.take(frames.len() as int) == frames);
            }
            // pre-select the correct row
            selections.set(button.menu_identifier.0.clone(), button.menu_identifier.1);
            let mut redraw = false;
            if let Some(current) = menu_state.menu.apply_event(
                &NavigationEvent::Select,
                selections,
            ) {
                menu_state.menu.handle_selection(&current, event_writer);
                redraw_writer.send(RedrawEvent);
                redraw = true;
            }
            MouseOutcome { redraw, background: None }
        },
        Interaction::Hovered => {
            let background = if !button.selected {
                Some(Highlight::Hover)
            } else {
                None
            };
            MouseOutcome { redraw: false, background }
        },
        Interaction::Idle => {
            let background = if !button.selected {
                Some(Highlight::Normal)
            } else {
                None
            };
            MouseOutcome { redraw: false, background }
        },
    }
}

/// Lays the menu out again where that is due: once at the start, whether or
/// not anything asked for it, and afterwards whenever a redraw was asked for
/// since the last tick. However often it was asked for, the menu is laid out
/// once.
pub fn redraw_system<S: ScreenTrait>(
    menu_state: &mut MenuState<S>,
    selections: &Selections,
    redraw_reader: Vec<RedrawEvent>,
) -> (frames: Option<Vec<MenuFrame<S>>>)
    requires
        resolves_purely::<S>(),
        redraw_reader@.len() > 0 || !old(menu_state).initial_render_done ==> old(
            menu_state,
        ).menu.can_show(selections@),
    ensures
        final(menu_state).initial_render_done,
        final(menu_state).menu == old(menu_state).menu,
        frames is Some <==> redraw_reader@.len() > 0 || !old(menu_state).initial_render_done,
        frames matches Some(frames) ==> {
            &&& frames@.len() == old(menu_state).menu.frames().len()
            &&& forall|i: int|
                0 <= i < frames@.len() ==> {
                    &&& call_ensures(
                        S::resolve,
                        (&old(menu_state).menu.frames()[i], &old(menu_state).menu.state()),
                        (#[trigger] frames@[i]).menu,
                    )
                    &&& frames@[i].menu@ == menu_of(
                        old(menu_state).menu.frames()[i],
                        old(menu_state).menu.state(),
                    )
                    &&& laid_out(
                        frames@[i].rows@,
                        frames@[i].menu@.entries,
                        resolved_index(selections@, frames@[i].menu@.id, frames@[i].menu@.entries) as int,
                    )
                }
        },
{
    let mut can_redraw = redraw_reader.len() > 0;
    if !menu_state.initial_render_done {
        menu_state.initial_render_done = true;
        can_redraw = true;
    }
    if can_redraw {
        Some(menu_state.menu.show(selections))
    } else {
        None
    }
}

} // verus!
