use cosmos_client::menu::{
    close_topmost_menus, on_pause_pressed, pause_menu_buttons, some_menu_open, CloseAction, CloseMethod, MenuEntry,
    OpenMenu, PauseButton, PauseResponse,
};

fn entry(entity: u64, level: u32, method: CloseMethod, hidden: bool) -> MenuEntry {
    MenuEntry { entity, menu: OpenMenu::with_close_method(level, method), hidden }
}

#[test]
fn open_menu_keeps_level_and_method() {
    let mut m = OpenMenu::new(3);
    assert_eq!(m.level(), 3);
    assert_eq!(*m.close_method(), CloseMethod::Despawn);
    m.set_level(7);
    assert_eq!(m.level(), 7);
    let v = OpenMenu::with_close_method(1, CloseMethod::Visibility);
    assert_eq!(*v.close_method(), CloseMethod::Visibility);
    assert_eq!(CloseMethod::default(), CloseMethod::Despawn);
}

#[test]
fn only_the_top_level_group_closes() {
    let menus = vec![
        entry(1, 0, CloseMethod::Despawn, false),
        entry(2, 10, CloseMethod::Despawn, false),
        entry(3, 10, CloseMethod::Custom, false),
    ];
    let out = close_topmost_menus(&menus);
    assert_eq!(
        out.actions,
        vec![
            CloseAction { entity: 2, method: CloseMethod::Despawn },
            CloseAction { entity: 3, method: CloseMethod::Custom },
        ]
    );
    assert!(!out.all_closed);
}

#[test]
fn hidden_menus_do_not_count() {
    let menus = vec![
        entry(1, 5, CloseMethod::Visibility, true),
        entry(2, 1, CloseMethod::Visibility, false),
    ];
    let out = close_topmost_menus(&menus);
    assert_eq!(out.actions, vec![CloseAction { entity: 2, method: CloseMethod::Visibility }]);
    assert!(out.all_closed);
}

#[test]
fn a_disabled_menu_stops_the_closing() {
    let menus = vec![
        entry(1, 2, CloseMethod::Despawn, false),
        entry(2, 2, CloseMethod::Disabled, false),
        entry(3, 2, CloseMethod::Despawn, false),
    ];
    let out = close_topmost_menus(&menus);
    assert_eq!(out.actions, vec![CloseAction { entity: 1, method: CloseMethod::Despawn }]);
    assert!(!out.all_closed);
}

#[test]
fn pause_key_opens_or_closes() {
    assert_eq!(on_pause_pressed(false, &vec![], true), PauseResponse::Nothing);
    assert_eq!(on_pause_pressed(true, &vec![], false), PauseResponse::OpenPauseMenu);
    let menus = vec![entry(4, 1, CloseMethod::Despawn, false)];
    match on_pause_pressed(true, &menus, true) {
        PauseResponse::CloseMenus { outcome, show_pause_menu } => {
            assert_eq!(outcome.actions, vec![CloseAction { entity: 4, method: CloseMethod::Despawn }]);
            assert!(outcome.all_closed);
            assert!(show_pause_menu);
        }
        other => panic!("unexpected {other:?}"),
    }
}

#[test]
fn pause_key_opens_pause_menu_when_only_hidden_menus_remain() {
    let menus = vec![entry(2, 3, CloseMethod::Visibility, true), entry(5, 0, CloseMethod::Visibility, true)];
    assert!(!some_menu_open(&menus));
    assert_eq!(on_pause_pressed(true, &menus, true), PauseResponse::OpenPauseMenu);
    let shown = vec![entry(2, 3, CloseMethod::Visibility, false)];
    assert!(some_menu_open(&shown));
}

#[test]
fn pause_menu_has_four_buttons() {
    assert_eq!(
        pause_menu_buttons(),
        vec![
            ("RESUME", PauseButton::Resume),
            ("SETTINGS", PauseButton::Settings),
            ("DISCONNECT", PauseButton::Disconnect),
            ("QUIT GAME", PauseButton::QuitGame),
        ]
    );
}

#[test]
fn despawn_close_method_is_new() {
    for level in [0u32, 1, 10, u32::MAX] {
        assert_eq!(OpenMenu::with_close_method(level, CloseMethod::Despawn), OpenMenu::new(level));
    }
    assert_ne!(OpenMenu::with_close_method(2, CloseMethod::Custom), OpenMenu::new(2));
}
