//! What holds of the navigation rules whatever the menus and the input are.
use crate::navigation_menu::after_back;
use crate::selections::{
    default_index, lemma_default_index_in_range, lemma_selectable_positions, moved_index,
    resolved_index, selectable_count,
};
use crate::traits::ScreenTrait;
use crate::types::{ItemModel, NavigationEvent};
use crate::widgets::vertical_menu::VerticalMenu;
use vstd::prelude::*;

verus! {

/// No navigation event empties the stack: whatever the event, the stack that
/// it leaves has a screen, given that the stack it found had one.
pub proof fn lemma_stack_stays_inhabited<S>(frames: Seq<S>, event: NavigationEvent)
    requires
        frames.len() >= 1,
    ensures
        after_back(frames, event).len() >= 1,
        after_back(frames, event)[0] == frames[0],
{
}

/// `Back` on a stack that holds the root alone leaves the stack as it is.
pub proof fn lemma_back_at_root<S>(frames: Seq<S>)
    requires
        frames.len() == 1,
    ensures
        after_back(frames, NavigationEvent::Back) == frames,
{
}

/// Opening a screen and going back at once restores the stack.
pub proof fn lemma_open_then_back<S>(frames: Seq<S>, screen: S)
    requires
        frames.len() >= 1,
    ensures
        after_back(frames.push(screen), NavigationEvent::Back) == frames,
{
    assert(frames.push(screen).drop_last() == frames);
}

/// A cursor at the top stays there on `Up`, and one at the bottom stays
/// there on `Down`.
pub proof fn lemma_cursor_stops_at_ends(count: nat)
    requires
        count >= 1,
    ensures
        moved_index(NavigationEvent::Up, 0, count) == 0,
        moved_index(NavigationEvent::Down, (count - 1) as nat, count) == count - 1,
{
}

/// The cursor of a menu that the registry does not know yet is at 0: every
/// entry on which a cursor can rest yields a selection, so the first of them
/// is where the cursor starts.
pub proof fn lemma_default_index_is_zero<S, A>(items: Seq<ItemModel<S, A>>)
    ensures
        default_index(items) == 0,
{
    lemma_selectable_positions(items);
}

/// The cursor of a menu that the registry does not know yet rests on one of
/// the menu's entries, provided the menu has a selectable entry at all.
pub proof fn lemma_fresh_cursor_on_entry<S, A>(
    entries: Map<Seq<char>, usize>,
    id: Seq<char>,
    items: Seq<ItemModel<S, A>>,
)
    requires
        !entries.contains_key(id),
        selectable_count(items) >= 1,
    ensures
        resolved_index(entries, id, items) < selectable_count(items),
{
    lemma_default_index_in_range(items);
}

/// A cursor that rests on an entry of its menu still does once an event was
/// applied and its index was written to the registry, and no other menu's
/// cursor has moved.
pub proof fn lemma_cursor_stays_on_entry<S, A>(
    entries: Map<Seq<char>, usize>,
    id: Seq<char>,
    items: Seq<ItemModel<S, A>>,
    event: NavigationEvent,
)
    requires
        resolved_index(entries, id, items) < selectable_count(items),
        selectable_count(items) <= usize::MAX,
    ensures
        resolved_index(
            entries.insert(
                id,
                moved_index(event, resolved_index(entries, id, items), selectable_count(items)) as usize,
            ),
            id,
            items,
        ) < selectable_count(items),
        forall|other: Seq<char>, others: Seq<ItemModel<S, A>>|
            other != id ==> #[trigger] resolved_index(
                entries.insert(
                    id,
                    moved_index(event, resolved_index(entries, id, items), selectable_count(items)) as usize,
                ),
                other,
                others,
            ) == resolved_index(entries, other, others),
{
}

/// A menu without a selectable entry, such as a menu without entries, takes
/// every event in silence: nothing is chosen and the registry stays as it
/// is.
pub proof fn lemma_nothing_to_select<S: ScreenTrait>(
    entries: Map<Seq<char>, usize>,
    id: Seq<char>,
    items: Seq<ItemModel<S, S::Action>>,
    event: NavigationEvent,
)
    requires
        selectable_count(items) == 0,
    ensures
        VerticalMenu::<S>::cursor_fits(entries, id, items),
        VerticalMenu::<S>::chosen_by(entries, id, items, event) is None,
        VerticalMenu::<S>::entries_after(entries, id, items, event) == entries,
{
}

/// A menu that could be navigated before an event can be navigated after
/// it, and the event touches the index of no other menu: whatever the
/// registry held under another identifier it still holds, and no other
/// identifier has come or gone.
pub proof fn lemma_event_keeps_registry_fit<S: ScreenTrait>(
    entries: Map<Seq<char>, usize>,
    id: Seq<char>,
    items: Seq<ItemModel<S, S::Action>>,
    event: NavigationEvent,
)
    requires
        VerticalMenu::<S>::cursor_fits(entries, id, items),
        selectable_count(items) <= usize::MAX,
    ensures
        VerticalMenu::<S>::cursor_fits(
            VerticalMenu::<S>::entries_after(entries, id, items, event),
            id,
            items,
        ),
        VerticalMenu::<S>::entries_after(entries, id, items, event).remove(id) == entries.remove(
            id,
        ),
{
    let after = VerticalMenu::<S>::entries_after(entries, id, items, event);
    assert(after.remove(id) =~= entries.remove(id));
}

} // verus!
