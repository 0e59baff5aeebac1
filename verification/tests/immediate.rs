use bevy_quickmenu::menu::{
    ActionTrait, Cursor, CursorDirection, MenuItem, MenuSelection, NavigationMenu, VerticalMenu,
};

#[derive(Debug, PartialEq, Eq, Clone, Copy, Hash)]
enum Actions {
    SoundOn,
    SoundOff,
}

#[derive(Debug, PartialEq, Eq, Clone, Copy, Hash)]
enum Screens {
    Root,
    Sound,
    Controls,
}

#[derive(Debug, Default, PartialEq)]
struct State {
    sound: bool,
}

impl ActionTrait for Actions {
    type State = State;

    fn handle(&self, state: &mut State) {
        state.sound = matches!(self, Actions::SoundOn);
    }
}

type Menu = NavigationMenu<State, Actions, Screens>;

fn root_menu(cursor_direction: Option<CursorDirection>) -> VerticalMenu<Actions, Screens> {
    VerticalMenu {
        items: vec![
            MenuItem::action("On", Actions::SoundOn),
            MenuItem::screen("Sound", Screens::Sound),
            MenuItem::screen("Controls", Screens::Controls),
        ],
        cursor_direction,
    }
}

fn draw(
    menu: &VerticalMenu<Actions, Screens>,
    remembered: Option<MenuSelection<Actions, Screens>>,
    clicked: Option<usize>,
) -> (
    Vec<bool>,
    MenuSelection<Actions, Screens>,
    Option<MenuSelection<Actions, Screens>>,
) {
    let mut cursor = menu.start(remembered);
    let mut focus = Vec::new();
    let mut chosen = None;
    for (position, item) in menu.items.iter().enumerate() {
        let focussed = cursor.is_on(item);
        focus.push(focussed);
        if let Some(selection) = cursor.after_button(item, focussed, clicked == Some(position)) {
            chosen = Some(selection);
        }
    }
    (focus, cursor.selected, chosen)
}

#[test]
fn a_menu_that_remembers_nothing_starts_on_its_first_entry() {
    let (focus, remembered, chosen) = draw(&root_menu(None), None, None);
    assert_eq!(focus, vec![true, false, false]);
    assert_eq!(remembered, MenuSelection::Action(Actions::SoundOn));
    assert_eq!(chosen, None);
}

#[test]
fn the_remembered_cursor_moves_and_stops_at_the_ends() {
    let down = root_menu(Some(CursorDirection::Down));
    let (focus, remembered, chosen) = draw(&down, None, None);
    assert_eq!(focus, vec![false, true, false]);
    assert_eq!(remembered, MenuSelection::Screen(Screens::Sound));
    assert_eq!(chosen, None);
    let (focus, remembered, _) = draw(&down, Some(remembered), None);
    assert_eq!(focus, vec![false, false, true]);
    let (focus, remembered, _) = draw(&down, Some(remembered), None);
    assert_eq!(focus, vec![false, false, true]);
    let up = root_menu(Some(CursorDirection::Up));
    let (focus, remembered, _) = draw(&up, Some(remembered), None);
    assert_eq!(focus, vec![false, true, false]);
    let (focus, remembered, _) = draw(&up, Some(remembered), None);
    assert_eq!(focus, vec![true, false, false]);
    let (focus, remembered, _) = draw(&up, Some(remembered), None);
    assert_eq!(focus, vec![true, false, false]);
    assert_eq!(remembered, MenuSelection::Action(Actions::SoundOn));
}

#[test]
fn select_yields_the_entry_under_the_cursor() {
    let select = root_menu(Some(CursorDirection::Select));
    let (focus, remembered, chosen) = draw(
        &select,
        Some(MenuSelection::Screen(Screens::Controls)),
        None,
    );
    assert_eq!(focus, vec![false, false, true]);
    assert_eq!(remembered, MenuSelection::Screen(Screens::Controls));
    assert_eq!(chosen, Some(MenuSelection::Screen(Screens::Controls)));
}

#[test]
fn a_click_moves_the_cursor_and_yields_the_entry() {
    let (focus, remembered, chosen) = draw(&root_menu(None), None, Some(1));
    // The first button was drawn before the click was known.
    assert_eq!(focus, vec![true, false, false]);
    assert_eq!(remembered, MenuSelection::Screen(Screens::Sound));
    assert_eq!(chosen, Some(MenuSelection::Screen(Screens::Sound)));
}

#[test]
fn a_remembered_selection_that_the_menu_has_lost_stays_remembered() {
    let down = root_menu(Some(CursorDirection::Down));
    let (focus, remembered, chosen) =
        draw(&down, Some(MenuSelection::Action(Actions::SoundOff)), None);
    assert_eq!(focus, vec![false, false, false]);
    assert_eq!(remembered, MenuSelection::Action(Actions::SoundOff));
    assert_eq!(chosen, None);
}

#[test]
fn a_button_step_by_step() {
    let item: MenuItem<Actions, Screens> = MenuItem::action("Off", Actions::SoundOff);
    assert_eq!(item.as_selection(), MenuSelection::Action(Actions::SoundOff));
    assert_eq!(item.text().debug_text(), "Off");
    let mut cursor = Cursor {
        selected: MenuSelection::Screen(Screens::Root),
        select_navigation: true,
    };
    assert!(!cursor.is_on(&item));
    assert_eq!(cursor.after_button(&item, false, false), None);
    assert_eq!(cursor.selected, MenuSelection::Screen(Screens::Root));
    assert_eq!(
        cursor.after_button(&item, true, false),
        Some(MenuSelection::Action(Actions::SoundOff))
    );
    assert_eq!(cursor.selected, MenuSelection::Action(Actions::SoundOff));
    assert!(cursor.is_on(&item));
    assert!(cursor.select_navigation);
    let mut idle = Cursor {
        selected: MenuSelection::Screen(Screens::Root),
        select_navigation: false,
    };
    assert_eq!(idle.after_button(&item, true, false), None);
    assert_eq!(
        idle.after_button(&item, false, true),
        Some(MenuSelection::Action(Actions::SoundOff))
    );
}

#[test]
fn a_frame_of_the_stack() {
    let mut menu: Menu = NavigationMenu::new(State::default(), Screens::Root);
    assert_eq!(menu.begin(), None);
    menu.finish(Some(MenuSelection::Screen(Screens::Sound)));
    assert_eq!(menu.depth(), 1);
    assert_eq!(menu.frame(0), Screens::Root);
    assert_eq!(menu.frame(1), Screens::Sound);

    menu.next(CursorDirection::Up);
    menu.next(CursorDirection::Down);
    let direction = menu.begin();
    assert_eq!(direction, Some(CursorDirection::Down));
    assert_eq!(menu.direction_for(0, direction), None);
    assert_eq!(menu.direction_for(1, direction), Some(CursorDirection::Down));
    menu.finish(Some(MenuSelection::Action(Actions::SoundOn)));
    assert!(menu.state_mut().sound);
    assert_eq!(menu.depth(), 1);
    assert_eq!(menu.begin(), None);
    menu.finish(None);
    assert_eq!(menu.depth(), 1);
}

#[test]
fn back_closes_the_topmost_screen_but_never_the_root() {
    let mut menu: Menu = NavigationMenu::new(State::default(), Screens::Root);
    menu.finish(Some(MenuSelection::Screen(Screens::Controls)));
    menu.next(CursorDirection::Back);
    assert_eq!(menu.begin(), Some(CursorDirection::Back));
    assert_eq!(menu.depth(), 0);
    assert_eq!(menu.frame(0), Screens::Root);
    menu.next(CursorDirection::Back);
    assert_eq!(menu.begin(), Some(CursorDirection::Back));
    assert_eq!(menu.depth(), 0);
    assert_eq!(menu.frame(0), Screens::Root);
    assert_eq!(menu.direction_for(0, Some(CursorDirection::Back)), Some(CursorDirection::Back));
}
