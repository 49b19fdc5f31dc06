//! The logic of the game client's user interface: menus, the hotbar, the
//! crosshair, text entry, and the screens of the main menu.

pub mod button;
pub mod checkbox;
pub mod crosshair;
pub mod focus_cam;
pub mod friends;
pub mod galaxy_map;
pub mod hotbar;
pub mod hud;
pub mod item_renderer;
pub mod main_menu;
pub mod master_menu;
pub mod menu;
pub mod modal;
pub mod multiplayer;
pub mod priority_queue;
pub mod reactivity;
pub mod reasons;
pub mod settings;
pub mod ship_flight;
pub mod show_cursor;
pub mod singleplayer;
pub mod slider;
pub mod tabbed_view;
pub mod text;
pub mod text_input;
pub mod window;
