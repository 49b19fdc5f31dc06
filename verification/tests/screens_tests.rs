use cosmos_client::main_menu::{
    entering_substate, in_main_menu_state, is_client_disconnected, menu_action, reason_text, screen_after_disconnect,
    title_buttons, DisconnectReason, MainMenuSubState, MenuAction, MenuEvent, TitleButton,
};
use cosmos_client::multiplayer::{
    connect_target, player_count_text, shown_players, sort_by_players, ConnectTarget, ServerEntry, ServerList,
};
use cosmos_client::singleplayer::{
    delete_prompt, error_message, find_invalid_char, local_address, longer_than_bytes, port_message, seed_argument,
    server_arguments, validate_world_name, world_display_name, world_path, PortMessage, WorldStartError,
};

#[test]
fn world_names_are_checked() {
    assert_eq!(validate_world_name("My World"), Ok("My_World".to_string()));
    assert_eq!(validate_world_name(""), Err(WorldStartError::EmptyWorldName));
    assert_eq!(validate_world_name("a/b"), Err(WorldStartError::InvalidName('/')));
    assert_eq!(validate_world_name("x.y!"), Err(WorldStartError::InvalidName('.')));
    assert_eq!(validate_world_name("My World!"), Err(WorldStartError::InvalidName('!')));
    assert_eq!(find_invalid_char("My_World!"), Some('!'));
    assert_eq!(validate_world_name(&"a".repeat(40)), Ok("a".repeat(40)));
    assert_eq!(validate_world_name(&"a".repeat(41)), Err(WorldStartError::WorldNameTooLong));
    // 20 two-byte letters are 40 bytes; 21 are too many.
    assert_eq!(validate_world_name(&"é".repeat(20)), Ok("é".repeat(20)));
    assert_eq!(validate_world_name(&"é".repeat(21)), Err(WorldStartError::WorldNameTooLong));
    assert_eq!(validate_world_name("日本"), Ok("日本".to_string()));
    assert_eq!(find_invalid_char("ok-name_1"), None);
    assert!(longer_than_bytes("ab", 1));
    assert!(!longer_than_bytes("ab", 2));
}

#[test]
fn world_errors_have_messages() {
    assert_eq!(error_message(WorldStartError::EmptyWorldName), "World name cannot be empty");
    assert_eq!(error_message(WorldStartError::WorldNameTooLong), "World name cannot exceed 40 characters");
    assert_eq!(error_message(WorldStartError::InvalidName('?')), "World name cannot contain '?'");
    assert_eq!(
        error_message(WorldStartError::CouldNotFindPort),
        "Error starting server (port error). Please try again"
    );
    assert_eq!(
        error_message(WorldStartError::MissingServerExecutable),
        "Could not find server executable file. Please verify your installation"
    );
}

#[test]
fn world_list_texts() {
    assert_eq!(world_display_name("my_cool_world"), "my cool world");
    assert_eq!(delete_prompt("a_b"), "Are you sure you want to delete a b?");
    assert_eq!(world_path("w"), "worlds/w");
    assert_eq!(seed_argument(""), None);
    assert_eq!(seed_argument("42"), Some("42".to_string()));
    assert_eq!(server_arguments("p", &None), vec!["--world", "p", "--local"]);
    assert_eq!(
        server_arguments("p", &Some("9".to_string())),
        vec!["--world", "p", "--local", "--seed", "9"]
    );
    assert_eq!(local_address(1337), "127.0.0.1:1337");
}

#[test]
fn reads_the_server_port() {
    assert_eq!(port_message("Port: 1234"), PortMessage::Port(1234));
    assert_eq!(port_message("[info] Port:  8080  "), PortMessage::Port(8080));
    assert_eq!(port_message("Port: 70000"), PortMessage::BadPort);
    assert_eq!(port_message("Port: x"), PortMessage::BadPort);
    assert_eq!(port_message("listening"), PortMessage::NotAPortLine);
}

#[test]
fn reads_connection_strings() {
    assert_eq!(connect_target(""), ConnectTarget::LocalDefault);
    assert_eq!(connect_target("   "), ConnectTarget::LocalDefault);
    assert_eq!(connect_target("76561198000000000"), ConnectTarget::SteamId(76561198000000000));
    assert_eq!(connect_target("localhost"), ConnectTarget::Address("127.0.0.1:1337".to_string()));
    assert_eq!(connect_target(" 10.0.0.2:99 "), ConnectTarget::Address("10.0.0.2:99".to_string()));
}

#[test]
fn server_lists() {
    let e = ServerEntry { server_name: "s".to_string(), players: 2, max_players: 8, ip: 0x7f000001, port: 1337 };
    let mut l = ServerList::new();
    assert_eq!(l.first_unshown(0), None);
    l.done();
    assert!(matches!(l, ServerList::NoneFound));
    l.add(e.clone());
    assert_eq!(l.first_unshown(0), Some(0));
    assert_eq!(l.first_unshown(1), None);
    l.done();
    assert!(matches!(l, ServerList::Found(ref v) if v.len() == 1));
    assert_eq!(shown_players(-3), 0);
    assert_eq!(shown_players(5), 5);
    assert_eq!(player_count_text(2, 8), "2/8");
}

#[test]
fn fullest_servers_first_keeping_order() {
    let v = vec![(1u64, 3u32), (2, 7), (3, 3), (4, 0), (5, 7)];
    assert_eq!(sort_by_players(&v), vec![(2, 7), (5, 7), (1, 3), (3, 3), (4, 0)]);
    assert_eq!(sort_by_players(&vec![]), vec![]);
}

#[test]
fn main_menu_moves_between_screens() {
    assert_eq!(menu_action(MenuEvent::Title(TitleButton::Singleplayer)), MenuAction::Show(MainMenuSubState::Singleplayer));
    assert_eq!(menu_action(MenuEvent::Title(TitleButton::Quit)), MenuAction::Quit);
    assert_eq!(menu_action(MenuEvent::Back), MenuAction::Show(MainMenuSubState::TitleScreen));
    assert!(in_main_menu_state(Some(MainMenuSubState::Settings), MainMenuSubState::Settings));
    assert!(!in_main_menu_state(None, MainMenuSubState::TitleScreen));
    assert_eq!(entering_substate(None), MainMenuSubState::TitleScreen);
    assert_eq!(entering_substate(Some(MainMenuSubState::Disconnect)), MainMenuSubState::Disconnect);
    let b = title_buttons();
    assert_eq!(b.iter().map(|x| x.0).collect::<Vec<_>>(), vec!["Singleplayer", "Multiplayer", "Settings", "Quit"]);
}

#[test]
fn disconnect_screen() {
    assert_eq!(screen_after_disconnect(&Some(DisconnectReason::DisconnectedByClient)), None);
    assert_eq!(screen_after_disconnect(&None), Some(MainMenuSubState::Disconnect));
    assert_eq!(screen_after_disconnect(&Some(DisconnectReason::Transport)), Some(MainMenuSubState::Disconnect));
    assert!(is_client_disconnected(None));
    assert!(!is_client_disconnected(Some(false)));
    assert_eq!(reason_text(&None), "Unknown Reason");
    assert_eq!(reason_text(&Some(DisconnectReason::DisconnectedByServer)), "Disconneced by Server");
    assert_eq!(
        reason_text(&Some(DisconnectReason::ReceiveChannelError { channel_id: 3, error: "Boom".to_string() })),
        "Recieve Channel Error (channel: 3, error: Boom)"
    );
    assert_eq!(
        reason_text(&Some(DisconnectReason::SendChannelError { channel_id: 12, error: "E".to_string() })),
        "Send Channel Error (channel: 12, error: E"
    );
    assert_eq!(reason_text(&Some(DisconnectReason::ReceivedInvalidChannelId(255))), "Got invalid channel id: 255");
    assert_eq!(
        reason_text(&Some(DisconnectReason::PacketDeserialization("X".to_string()))),
        "Deserialization Error: X"
    );
}
