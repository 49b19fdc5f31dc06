//! The main menu: which screen it shows, how its buttons move between
//! screens, and what the disconnect screen says.

use vstd::prelude::*;
use crate::text::{owned, push_decimal, push_str, decimal};

verus! {

/// The "substate" of the menu we are in.
#[derive(Debug, Clone, Copy, PartialEq, Eq, Structural)]
pub enum MainMenuSubState {
    /// The landing screen that shows the title
    TitleScreen,
    /// Settings menu
    Settings,
    /// When the player is disconnected from a server, this will display the latest disconnect message.
    Disconnect,
    /// The singleplayer menu
    Singleplayer,
    /// The multiplayer menu
    Multiplayer,
}

impl Default for MainMenuSubState {
    fn default() -> (s: Self)
        ensures
            s == MainMenuSubState::TitleScreen,
    {
        MainMenuSubState::TitleScreen
    }
}

/// Checks if we are in the main menu state `state` (a run condition: false
/// when there is no menu).
pub fn in_main_menu_state(current: Option<MainMenuSubState>, state: MainMenuSubState) -> (r: bool)
    ensures
        r == (current == Some(state)),
{
    match current {
        Some(s) => s == state,
        None => false,
    }
}

/// The screen shown on entering the main menu: the one already chosen (the
/// disconnect screen, say), else the title screen.
pub fn entering_substate(existing: Option<MainMenuSubState>) -> (s: MainMenuSubState)
    ensures
        s == (match existing {
            Some(e) => e,
            None => MainMenuSubState::TitleScreen,
        }),
{
    match existing {
        Some(e) => e,
        None => MainMenuSubState::TitleScreen,
    }
}

/// A button of the title screen.
#[derive(Debug, Clone, Copy, PartialEq, Eq, Structural)]
pub enum TitleButton {
    /// Opens the singleplayer screen.
    Singleplayer,
    /// Opens the multiplayer screen.
    Multiplayer,
    /// Opens the settings.
    Settings,
    /// Quits the game.
    Quit,
}

/// The title screen's buttons, top to bottom, with their labels.
pub fn title_buttons() -> (r: Vec<(&'static str, TitleButton)>)
    ensures
        r@.len() == 4,
        r@[0].0@ == "Singleplayer"@ && r@[0].1 == TitleButton::Singleplayer,
        r@[1].0@ == "Multiplayer"@ && r@[1].1 == TitleButton::Multiplayer,
        r@[2].0@ == "Settings"@ && r@[2].1 == TitleButton::Settings,
        r@[3].0@ == "Quit"@ && r@[3].1 == TitleButton::Quit,
{
    let mut r: Vec<(&'static str, TitleButton)> = Vec::new();
    r.push(("Singleplayer", TitleButton::Singleplayer));
    r.push(("Multiplayer", TitleButton::Multiplayer));
    r.push(("Settings", TitleButton::Settings));
    r.push(("Quit", TitleButton::Quit));
    r
}

/// Something the player does in the main menu.
#[derive(Debug, Clone, Copy, PartialEq, Eq, Structural)]
pub enum MenuEvent {
    /// A title screen button.
    Title(TitleButton),
    /// Cancel or Done in the settings, OK on the disconnect screen, or
    /// Cancel on the singleplayer screen.
    Back,
}

/// What the menu does next.
#[derive(Debug, Clone, Copy, PartialEq, Eq, Structural)]
pub enum MenuAction {
    /// Show this screen.
    Show(MainMenuSubState),
    /// Quit the game.
    Quit,
}

/// What an event in the main menu leads to.
pub open spec fn spec_menu_action(event: MenuEvent) -> MenuAction {
    match event {
        MenuEvent::Title(TitleButton::Singleplayer) => MenuAction::Show(MainMenuSubState::Singleplayer),
        MenuEvent::Title(TitleButton::Multiplayer) => MenuAction::Show(MainMenuSubState::Multiplayer),
        MenuEvent::Title(TitleButton::Settings) => MenuAction::Show(MainMenuSubState::Settings),
        MenuEvent::Title(TitleButton::Quit) => MenuAction::Quit,
        MenuEvent::Back => MenuAction::Show(MainMenuSubState::TitleScreen),
    }
}

/// What an event in the main menu leads to: the title screen's buttons open
/// their screens or quit, and going back returns to the title screen.
pub fn menu_action(event: MenuEvent) -> (a: MenuAction)
    ensures
        a == spec_menu_action(event),
{
    match event {
        MenuEvent::Title(TitleButton::Singleplayer) => MenuAction::Show(MainMenuSubState::Singleplayer),
        MenuEvent::Title(TitleButton::Multiplayer) => MenuAction::Show(MainMenuSubState::Multiplayer),
        MenuEvent::Title(TitleButton::Settings) => MenuAction::Show(MainMenuSubState::Settings),
        MenuEvent::Title(TitleButton::Quit) => MenuAction::Quit,
        MenuEvent::Back => MenuAction::Show(MainMenuSubState::TitleScreen),
    }
}

/// Each title-screen button but Quit opens the screen of its own name, and
/// Quit quits.
pub proof fn law_title_buttons_open_their_screens(b: TitleButton)
    ensures
        b == TitleButton::Singleplayer ==> spec_menu_action(MenuEvent::Title(b)) == MenuAction::Show(
            MainMenuSubState::Singleplayer,
        ),
        b == TitleButton::Multiplayer ==> spec_menu_action(MenuEvent::Title(b)) == MenuAction::Show(
            MainMenuSubState::Multiplayer,
        ),
        b == TitleButton::Settings ==> spec_menu_action(MenuEvent::Title(b)) == MenuAction::Show(
            MainMenuSubState::Settings,
        ),
        b == TitleButton::Quit ==> spec_menu_action(MenuEvent::Title(b)) == MenuAction::Quit,
{
}

/// Two different title-screen buttons never lead to the same place.
pub proof fn law_title_buttons_differ(b1: TitleButton, b2: TitleButton)
    requires
        b1 != b2,
    ensures
        spec_menu_action(MenuEvent::Title(b1)) != spec_menu_action(MenuEvent::Title(b2)),
{
}

/// Going into a screen from the title screen and back returns to the title
/// screen.
pub proof fn law_there_and_back(b: TitleButton)
    requires
        b != TitleButton::Quit,
    ensures
        spec_menu_action(MenuEvent::Title(b)) != MenuAction::Show(MainMenuSubState::TitleScreen),
        spec_menu_action(MenuEvent::Back) == MenuAction::Show(MainMenuSubState::TitleScreen),
{
}

// ---------------------------------------------------------------------------
// Disconnection
// ---------------------------------------------------------------------------

/// Why the connection to the server ended.
#[derive(Debug, Clone, PartialEq, Eq)]
pub enum DisconnectReason {
    /// The player left.
    DisconnectedByClient,
    /// The server ended the connection.
    DisconnectedByServer,
    /// A packet could not be read; the error as it is debug-printed.
    PacketDeserialization(String),
    /// A packet could not be written; the error as it is debug-printed.
    PacketSerialization(String),
    /// A channel could not receive.
    ReceiveChannelError {
        /// The channel.
        channel_id: u8,
        /// The error as it is debug-printed.
        error: String,
    },
    /// A packet named a channel that does not exist.
    ReceivedInvalidChannelId(u8),
    /// A channel could not send.
    SendChannelError {
        /// The channel.
        channel_id: u8,
        /// The error as it is debug-printed.
        error: String,
    },
    /// The transport failed.
    Transport,
}

/// Whether the player left on their own.
pub open spec fn left_by_choice(reason: Option<DisconnectReason>) -> bool {
    reason matches Some(DisconnectReason::DisconnectedByClient)
}

/// The screen to show on returning to the main menu after the connection
/// ended: the disconnect screen unless the player left on their own (then
/// the screen is left as it was).
pub fn screen_after_disconnect(reason: &Option<DisconnectReason>) -> (s: Option<MainMenuSubState>)
    ensures
        left_by_choice(*reason) ==> s is None,
        !left_by_choice(*reason) ==> s == Some(MainMenuSubState::Disconnect),
{
    match reason {
        Some(DisconnectReason::DisconnectedByClient) => None,
        _ => Some(MainMenuSubState::Disconnect),
    }
}

/// Whether the client counts as disconnected: when there is none, or it
/// reports so.
pub fn is_client_disconnected(client_disconnected: Option<bool>) -> (r: bool)
    ensures
        r == (match client_disconnected {
            Some(d) => d,
            None => true,
        }),
{
    match client_disconnected {
        Some(d) => d,
        None => true,
    }
}

/// The text the disconnect screen gives for a reason.
pub open spec fn spec_reason_text(reason: Option<DisconnectReason>) -> Seq<char> {
    match reason {
        None => "Unknown Reason"@,
        Some(DisconnectReason::DisconnectedByClient) => "You Quit"@,
        Some(DisconnectReason::DisconnectedByServer) => "Disconneced by Server"@,
        Some(DisconnectReason::PacketDeserialization(e)) => "Deserialization Error: "@ + e@,
        Some(DisconnectReason::PacketSerialization(e)) => "Serialization Error: "@ + e@,
        Some(DisconnectReason::ReceiveChannelError { channel_id, error }) => "Recieve Channel Error (channel: "@
            + decimal(channel_id as nat) + ", error: "@ + error@ + ")"@,
        Some(DisconnectReason::ReceivedInvalidChannelId(c)) => "Got invalid channel id: "@ + decimal(c as nat),
        Some(DisconnectReason::SendChannelError { channel_id, error }) => "Send Channel Error (channel: "@
            + decimal(channel_id as nat) + ", error: "@ + error@,
        Some(DisconnectReason::Transport) => "Unable to Establish Connection"@,
    }
}

/// The text the disconnect screen gives for a reason.
pub fn reason_text(reason: &Option<DisconnectReason>) -> (t: String)
    ensures
        t@ == spec_reason_text(*reason),
{
    match reason {
        None => owned("Unknown Reason"),
        Some(DisconnectReason::DisconnectedByClient) => owned("You Quit"),
        Some(DisconnectReason::DisconnectedByServer) => owned("Disconneced by Server"),
        Some(DisconnectReason::PacketDeserialization(e)) => {
            let mut t = owned("Deserialization Error: ");
            push_str(&mut t, e.as_str());
            t
        },
        Some(DisconnectReason::PacketSerialization(e)) => {
            let mut t = owned("Serialization Error: ");
            push_str(&mut t, e.as_str());
            t
        },
        Some(DisconnectReason::ReceiveChannelError { channel_id, error }) => {
            let mut t = owned("Recieve Channel Error (channel: ");
            push_decimal(&mut t, *channel_id as u64);
            push_str(&mut t, ", error: ");
            push_str(&mut t, error.as_str());
            push_str(&mut t, ")");
            t
        },
        Some(DisconnectReason::ReceivedInvalidChannelId(c)) => {
            let mut t = owned("Got invalid channel id: ");
            push_decimal(&mut t, *c as u64);
            t
        },
        Some(DisconnectReason::SendChannelError { channel_id, error }) => {
            let mut t = owned("Send Channel Error (channel: ");
            push_decimal(&mut t, *channel_id as u64);
            push_str(&mut t, ", error: ");
            push_str(&mut t, error.as_str());
            t
        },
        Some(DisconnectReason::Transport) => owned("Unable to Establish Connection"),
    }
}

} // verus!
