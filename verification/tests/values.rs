use bevy_quickmenu::helpers::{ControlDevice, Key};
use bevy_quickmenu::{
    keyboard_input_system, AssetSlot, AssetSource, Deflection, EventSink, GamepadInput, HostKey,
    IntoWidgetId, IntoWidgetLabel, KeyboardInput, Menu, MenuAssets, MenuIcon, MenuItem,
    MenuOptions, MenuSelection, NavigationEvent, RichTextEntry, Selections, WidgetId, WidgetLabel,
};

type Item = MenuItem<u8, u16>;

fn keys(arrow_down: bool, arrow_up: bool, enter: bool, backspace: bool) -> KeyboardInput {
    KeyboardInput {
        arrow_down,
        arrow_up,
        enter,
        backspace,
    }
}

fn quiet_pad() -> GamepadInput {
    GamepadInput {
        dpad_down: false,
        dpad_up: false,
        dpad_right: false,
        south: false,
        west: false,
        east: false,
        north: false,
        left_stick_x: Deflection::Neutral,
        left_stick_y: Deflection::Neutral,
        right_stick_x: Deflection::Neutral,
        right_stick_y: Deflection::Neutral,
    }
}

fn events_of(
    keyboard: KeyboardInput,
    gamepads: &[GamepadInput],
    axes_changed: bool,
) -> Vec<NavigationEvent> {
    let mut writer = EventSink::new();
    keyboard_input_system(&keyboard, &mut writer, gamepads, axes_changed);
    writer.into_events()
}

fn plain(label: &WidgetLabel) -> String {
    match label {
        WidgetLabel::PlainText(text) => text.clone(),
        WidgetLabel::RichText(_) => panic!("a plain text was expected"),
    }
}

#[test]
fn identifiers_are_equal_when_their_texts_are() {
    let a = WidgetId::new("root");
    let b = WidgetId::new(String::from("root"));
    let c = WidgetId::new("sound");
    assert_eq!(a, b);
    assert_ne!(a, c);
    assert_eq!(a.as_str(), "root");
    assert_eq!(a.clone(), a);
    assert_eq!(WidgetId::new(&a), a);
    assert_eq!((&String::from("sound")).into_widget_id(), c);
    assert_eq!(WidgetId::new(""), WidgetId::new(String::new()));
    assert_ne!(WidgetId::new(""), WidgetId::new(" "));
}

#[test]
fn an_identifier_can_be_renamed() {
    let mut id = WidgetId::new("root");
    id.set("sound");
    assert_eq!(id, WidgetId::new("sound"));
    assert_eq!(id.as_str(), "sound");
    id.mutate(|text| text + "s");
    assert_eq!(id.as_str(), "sounds");
    assert_eq!(id, WidgetId::new("sounds"));
    assert_ne!(id, WidgetId::new("sound"));
}

#[test]
fn a_new_registry_knows_no_menu() {
    let selections = Selections::new();
    assert_eq!(selections.get(&WidgetId::new("root")), None);
    assert_eq!(Selections::default().get(&WidgetId::new("")), None);
}

#[test]
fn the_registry_keeps_an_index_per_menu() {
    let mut selections = Selections::new();
    selections.set(WidgetId::new("root"), 3);
    assert_eq!(selections.get(&WidgetId::new("root")), Some(3));
    assert_eq!(selections.get(&WidgetId::new("sound")), None);
    selections.set(WidgetId::new("sound"), 1);
    assert_eq!(selections.get(&WidgetId::new("root")), Some(3));
    assert_eq!(selections.get(&WidgetId::new("sound")), Some(1));
    selections.set(WidgetId::new("root"), 0);
    assert_eq!(selections.get(&WidgetId::new("root")), Some(0));
    assert_eq!(selections.get(&WidgetId::new("sound")), Some(1));
}

#[test]
fn a_lookup_with_a_default_stores_nothing() {
    let mut selections = Selections::new();
    let items: Vec<Item> = vec![
        MenuItem::headline("Menu"),
        MenuItem::label("about"),
        MenuItem::action("Start", 1),
        MenuItem::screen("More", 2),
    ];
    let id = WidgetId::new("menu");
    assert_eq!(selections.get_or_default(&id, &items), 0);
    assert_eq!(selections.get(&id), None);
    selections.set(id.clone(), 1);
    assert_eq!(selections.get_or_default(&id, &items), 1);
    // What is stored is handed out as it is, also where it fits no entry.
    selections.set(id.clone(), 9);
    assert_eq!(selections.get_or_default(&id, &items), 9);
    let none: Vec<Item> = vec![MenuItem::label("nothing to choose")];
    assert_eq!(selections.get_or_default(&WidgetId::new("none"), &none), 0);
    let empty: Vec<Item> = Vec::new();
    assert_eq!(selections.get_or_default(&WidgetId::new("empty"), &empty), 0);
}

#[test]
fn the_debug_text_of_a_label() {
    assert_eq!("Start".into_widget_label().debug_text(), "Start");
    assert_eq!(String::from("Go").into_widget_label().debug_text(), "Go");
    assert_eq!((&String::from("Go")).into_widget_label().debug_text(), "Go");
    let rich = [
        RichTextEntry::new("Player"),
        RichTextEntry::new_color("one", HostKey(7)),
    ]
    .into_widget_label();
    assert_eq!(rich.debug_text(), "Player one ");
    assert_eq!(rich.clone().debug_text(), "Player one ");
    let none: Vec<RichTextEntry> = Vec::new();
    assert_eq!(none.into_widget_label().debug_text(), "");
    assert_eq!(WidgetLabel::default().debug_text(), "");
    let same = WidgetLabel::PlainText(String::from("x")).into_widget_label();
    assert_eq!(plain(&same), "x");
}

#[test]
fn rich_text_entries() {
    let entry = RichTextEntry::new("plain");
    assert_eq!(entry.text, "plain");
    assert_eq!((entry.color, entry.size, entry.font), (None, None, None));
    let tinted = RichTextEntry::new_color("red", HostKey(3));
    assert_eq!(tinted.text, "red");
    assert_eq!(tinted.color, Some(HostKey(3)));
    assert_eq!((tinted.size, tinted.font), (None, None));
    let empty = RichTextEntry::default();
    assert_eq!(empty.text, "");
    assert_eq!((empty.color, empty.size, empty.font), (None, None, None));
    let copy = tinted.clone();
    assert_eq!(copy.text, "red");
    assert_eq!(copy.color, Some(HostKey(3)));
}

#[test]
fn what_a_menu_item_yields() {
    let screen: Item = MenuItem::screen("More", 2);
    let action: Item = MenuItem::action("Start", 1);
    let label: Item = MenuItem::label("about");
    let headline: Item = MenuItem::headline("Menu");
    let image: Item = MenuItem::image(HostKey(5));
    assert_eq!(screen.as_selection(), MenuSelection::Screen(2));
    assert_eq!(action.as_selection(), MenuSelection::Action(1));
    assert_eq!(label.as_selection(), MenuSelection::Nothing);
    assert_eq!(headline.as_selection(), MenuSelection::Nothing);
    assert_eq!(image.as_selection(), MenuSelection::Nothing);
    assert!(screen.is_selectable() && action.is_selectable());
    assert!(!label.is_selectable() && !headline.is_selectable() && !image.is_selectable());
    assert!(label.is_label());
    assert!(!headline.is_label() && !image.is_label() && !action.is_label());
    assert!(MenuSelection::<u8, u16>::Nothing.is_none());
    assert!(!action.as_selection().is_none());
    assert_ne!(
        MenuSelection::<u8, u8>::Action(1),
        MenuSelection::<u8, u8>::Screen(1)
    );
    assert_eq!(action.as_selection().clone(), MenuSelection::Action(1));
}

#[test]
fn the_icon_of_a_menu_item() {
    let action: Item = MenuItem::action("Start", 1);
    match &action {
        MenuItem::Action(label, icon, target) => {
            assert_eq!(plain(label), "Start");
            assert_eq!(*icon, MenuIcon::NoIcon);
            assert_eq!(*target, 1);
        }
        _ => panic!("an action was expected"),
    }
    match action.with_icon(MenuIcon::Back) {
        MenuItem::Action(label, icon, target) => {
            assert_eq!(plain(&label), "Start");
            assert_eq!(icon, MenuIcon::Back);
            assert_eq!(target, 1);
        }
        _ => panic!("an action was expected"),
    }
    let screen: Item = MenuItem::screen("More", 2).checked(true);
    assert!(matches!(screen, MenuItem::Screen(_, MenuIcon::Checked, 2)));
    let label: Item = MenuItem::label("about").checked(false);
    assert!(matches!(label, MenuItem::Label(_, MenuIcon::Unchecked)));
    let headline: Item = MenuItem::headline("Menu").with_icon(MenuIcon::Other(HostKey(9)));
    assert!(matches!(
        headline,
        MenuItem::Headline(_, MenuIcon::Other(HostKey(9)))
    ));
    let image: Item = MenuItem::image(HostKey(5)).with_icon(MenuIcon::Sound);
    assert!(matches!(image, MenuItem::Image(HostKey(5), None)));
}

#[test]
fn a_menu_and_its_looks() {
    let menu: Menu<u8, u16> = Menu::new("root", vec![MenuItem::action("Start", 1)]);
    assert_eq!(menu.id, WidgetId::new("root"));
    assert_eq!(menu.entries.len(), 1);
    assert_eq!((menu.style, menu.background), (None, None));
    let menu = menu.with_background(HostKey(1));
    assert_eq!((menu.style, menu.background), (None, Some(HostKey(1))));
    let menu = menu.with_style(HostKey(2));
    assert_eq!(
        (menu.style, menu.background),
        (Some(HostKey(2)), Some(HostKey(1)))
    );
    assert_eq!(menu.id.as_str(), "root");
    assert_eq!(menu.entries.len(), 1);
    let named: Menu<u8, u16> = Menu::new(WidgetId::new("named"), Vec::new());
    assert_eq!(named.id.as_str(), "named");
}

#[test]
fn the_image_of_an_icon() {
    let assets = MenuAssets {
        font: HostKey(10),
        icon_checked: HostKey(11),
        icon_unchecked: HostKey(12),
        icon_back: HostKey(13),
        icon_controls: HostKey(14),
        icon_sound: HostKey(15),
        icon_players: HostKey(16),
        icon_settings: HostKey(17),
    };
    assert_eq!(MenuIcon::NoIcon.resolve_icon(&assets), None);
    assert_eq!(MenuIcon::Checked.resolve_icon(&assets), Some(HostKey(11)));
    assert_eq!(MenuIcon::Unchecked.resolve_icon(&assets), Some(HostKey(12)));
    assert_eq!(MenuIcon::Back.resolve_icon(&assets), Some(HostKey(13)));
    assert_eq!(MenuIcon::Controls.resolve_icon(&assets), Some(HostKey(14)));
    assert_eq!(MenuIcon::Sound.resolve_icon(&assets), Some(HostKey(15)));
    assert_eq!(MenuIcon::Players.resolve_icon(&assets), Some(HostKey(16)));
    assert_eq!(MenuIcon::Settings.resolve_icon(&assets), Some(HostKey(17)));
    assert_eq!(
        MenuIcon::Other(HostKey(99)).resolve_icon(&assets),
        Some(HostKey(99))
    );
    let keys = [
        HostKey(10),
        HostKey(12),
        HostKey(11),
        HostKey(13),
        HostKey(14),
        HostKey(15),
        HostKey(16),
        HostKey(17),
    ];
    let loaded = MenuAssets::from_loaded(keys);
    assert_eq!(loaded, assets);
    for (position, slot) in MenuAssets::load_order().into_iter().enumerate() {
        assert_eq!(loaded.asset(slot), keys[position]);
    }
    assert_eq!(assets.asset(AssetSlot::Font), HostKey(10));
    assert_eq!(assets.asset(AssetSlot::Checked), HostKey(11));
    assert_eq!(assets.asset(AssetSlot::Settings), HostKey(17));
}

#[test]
fn where_the_assets_come_from() {
    let options = MenuOptions::default();
    for slot in MenuAssets::load_order() {
        assert!(matches!(options.source(slot), AssetSource::BuiltIn));
    }
    let options = MenuOptions {
        font: Some("fonts/menu.ttf"),
        icon_back: Some("icons/back.png"),
        ..MenuOptions::default()
    };
    assert!(matches!(
        options.source(AssetSlot::Font),
        AssetSource::File("fonts/menu.ttf")
    ));
    assert!(matches!(
        options.source(AssetSlot::Back),
        AssetSource::File("icons/back.png")
    ));
    assert!(matches!(
        options.source(AssetSlot::Checked),
        AssetSource::BuiltIn
    ));
    assert_eq!(
        MenuAssets::load_order(),
        [
            AssetSlot::Font,
            AssetSlot::Unchecked,
            AssetSlot::Checked,
            AssetSlot::Back,
            AssetSlot::Controls,
            AssetSlot::Sound,
            AssetSlot::Players,
            AssetSlot::Settings,
        ]
    );
}

#[test]
fn the_keyboard_gives_one_event_per_tick() {
    assert_eq!(events_of(keys(false, false, false, false), &[], false), vec![]);
    assert_eq!(
        events_of(keys(true, true, true, true), &[], false),
        vec![NavigationEvent::Down]
    );
    assert_eq!(
        events_of(keys(false, true, true, true), &[], false),
        vec![NavigationEvent::Up]
    );
    assert_eq!(
        events_of(keys(false, false, true, true), &[], false),
        vec![NavigationEvent::Select]
    );
    assert_eq!(
        events_of(keys(false, false, false, true), &[], false),
        vec![NavigationEvent::Back]
    );
}

#[test]
fn the_buttons_of_a_gamepad_give_one_event_per_tick() {
    let quiet = keys(false, false, false, false);
    let all = GamepadInput {
        dpad_down: true,
        dpad_up: true,
        dpad_right: true,
        south: true,
        west: true,
        east: true,
        north: true,
        ..quiet_pad()
    };
    assert_eq!(events_of(quiet, &[all], false), vec![NavigationEvent::Down]);
    let pad = GamepadInput { dpad_down: false, ..all };
    assert_eq!(events_of(quiet, &[pad], false), vec![NavigationEvent::Up]);
    let pad = GamepadInput { dpad_up: false, ..pad };
    assert_eq!(events_of(quiet, &[pad], false), vec![NavigationEvent::Back]);
    let pad = GamepadInput { dpad_right: false, ..pad };
    assert_eq!(events_of(quiet, &[pad], false), vec![NavigationEvent::Select]);
    let pad = GamepadInput { south: false, ..pad };
    assert_eq!(events_of(quiet, &[pad], false), vec![NavigationEvent::Select]);
    let pad = GamepadInput { west: false, ..pad };
    assert_eq!(events_of(quiet, &[pad], false), vec![NavigationEvent::Back]);
    let pad = GamepadInput { east: false, ..pad };
    assert_eq!(events_of(quiet, &[pad], false), vec![NavigationEvent::Back]);
    let pad = GamepadInput { north: false, ..pad };
    assert_eq!(events_of(quiet, &[pad], false), vec![]);
}

#[test]
fn every_deflected_stick_gives_an_event_of_its_own() {
    let quiet = keys(false, false, false, false);
    let pad = GamepadInput {
        left_stick_x: Deflection::Negative,
        left_stick_y: Deflection::Negative,
        right_stick_x: Deflection::Positive,
        right_stick_y: Deflection::Positive,
        ..quiet_pad()
    };
    assert_eq!(
        events_of(quiet, &[pad], true),
        vec![
            NavigationEvent::Back,
            NavigationEvent::Down,
            NavigationEvent::Up
        ]
    );
    // Sticks that have not moved since the last tick are not read.
    assert_eq!(events_of(quiet, &[pad], false), vec![]);
    let pad = GamepadInput {
        left_stick_x: Deflection::Positive,
        left_stick_y: Deflection::Positive,
        right_stick_x: Deflection::Negative,
        right_stick_y: Deflection::Negative,
        ..quiet_pad()
    };
    assert_eq!(
        events_of(quiet, &[pad], true),
        vec![
            NavigationEvent::Up,
            NavigationEvent::Back,
            NavigationEvent::Down
        ]
    );
    let pad = GamepadInput {
        left_stick_x: Deflection::Absent,
        left_stick_y: Deflection::Absent,
        right_stick_x: Deflection::Neutral,
        right_stick_y: Deflection::Absent,
        ..quiet_pad()
    };
    assert_eq!(events_of(quiet, &[pad], true), vec![]);
}

#[test]
fn the_keyboard_comes_first_and_the_gamepads_follow_in_order() {
    let first = GamepadInput {
        south: true,
        left_stick_y: Deflection::Positive,
        ..quiet_pad()
    };
    let second = GamepadInput {
        dpad_right: true,
        ..quiet_pad()
    };
    let mut writer = EventSink::new();
    writer.send(NavigationEvent::Up);
    keyboard_input_system(
        &keys(false, false, false, true),
        &mut writer,
        &[first, second],
        true,
    );
    assert_eq!(
        writer.into_events(),
        vec![
            NavigationEvent::Up,
            NavigationEvent::Back,
            NavigationEvent::Select,
            NavigationEvent::Up,
            NavigationEvent::Back,
        ]
    );
}

#[test]
fn an_event_sink_keeps_what_was_sent_in_order() {
    let mut sink = EventSink::new();
    assert!(sink.is_empty());
    assert_eq!(sink.len(), 0);
    sink.send(1);
    sink.send(2);
    let mut other = EventSink::new();
    other.send(3);
    other.send(4);
    sink.append(other);
    sink.append(EventSink::new());
    assert_eq!(sink.len(), 4);
    assert!(!sink.is_empty());
    assert_eq!(sink.into_events(), vec![1, 2, 3, 4]);
}

#[test]
fn control_devices() {
    let pad = ControlDevice::Gamepad { gamepad_id: 12 };
    assert_eq!(pad.id(), 12);
    assert_eq!(pad.to_string(), "Gamepad 12");
    assert_eq!(
        ControlDevice::Gamepad { gamepad_id: 0 }.to_string(),
        "Gamepad 0"
    );
    assert_eq!(
        ControlDevice::Gamepad { gamepad_id: 9 }.to_string(),
        "Gamepad 9"
    );
    assert_eq!(
        ControlDevice::Gamepad { gamepad_id: 1070 }.to_string(),
        "Gamepad 1070"
    );
    assert_eq!(
        ControlDevice::Gamepad {
            gamepad_id: usize::MAX
        }
        .to_string(),
        format!("Gamepad {}", usize::MAX)
    );
    assert_eq!(ControlDevice::keyboard1().id(), usize::MAX - 32);
    assert_eq!(ControlDevice::keyboard2().id(), usize::MAX - 31);
    assert_eq!(ControlDevice::keyboard3().id(), usize::MAX - 30);
    assert_eq!(ControlDevice::keyboard4().id(), usize::MAX - 29);
    assert_eq!(ControlDevice::keyboard1().to_string(), "Keyboard 1");
    assert_eq!(ControlDevice::keyboard2().to_string(), "Keyboard 2");
    assert_eq!(ControlDevice::keyboard3().to_string(), "Keyboard 3");
    assert_eq!(ControlDevice::keyboard4().to_string(), "Keyboard 4");
    assert_eq!(
        ControlDevice::keyboard1(),
        ControlDevice::Keyboard {
            title: "Keyboard 1",
            description: "Cursor Keys + N + M",
            keyboard_id: usize::MAX - 32,
            left: Key::Left,
            right: Key::Right,
            top: Key::Up,
            bottom: Key::Down,
            action1: Key::Space,
            action2: Key::G,
            start: Key::Return,
            cancel: Key::Escape,
        }
    );
    assert_eq!(
        ControlDevice::keyboard2(),
        ControlDevice::Keyboard {
            title: "Keyboard 2",
            description: "WASD + B + V",
            keyboard_id: usize::MAX - 31,
            left: Key::A,
            right: Key::D,
            top: Key::W,
            bottom: Key::S,
            action1: Key::B,
            action2: Key::V,
            start: Key::Return,
            cancel: Key::Escape,
        }
    );
    assert_ne!(ControlDevice::keyboard3(), ControlDevice::keyboard4());
}
