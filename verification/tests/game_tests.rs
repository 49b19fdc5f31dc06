use cosmos_client::friends::{
    friend_display_name, friend_visible, friends_in_group, group_title, is_offline, FriendGroup, FriendInfo, FriendState,
};
use cosmos_client::galaxy_map::{
    map_markers, map_toggle, marker_color, marker_shape, movement_controls_text, sector_text, waypoint_text,
    waypoint_toggle, DestinationKind, GalaxyMapDisplay, MapToggle, MarkerColor, MarkerShape, Sector, WaypointToggle,
    control_hint,
};
use cosmos_client::hud::{
    alignment_notice, line_text, railgun_line, shown_message_fate, tooltip_change, warp_drive_line, AlignedTo,
    AlignmentNotice, HudMessage, HudMessages, InvalidRailgunReason, LookingAtTooltip, Mark, NamedColor, RichText, ShowInfoPopup,
    ShownMessageFate, TooltipChange, WarpDriveState,
};
use cosmos_client::item_renderer::{atlas_dimensions, expand_2d, item_rect, tooltip_actions, HoverChange, TooltipAction};
use cosmos_client::master_menu::{
    active_after_click, create_faction_outcome, datapad_toggle, faction_view, payout_text, CreateFactionOutcome,
    CreateFactionResponse, DatapadToggle, FactionView,
};
use cosmos_client::settings::{
    applied_setting, category_name, control_text, display_debug_name, initial_input_value, listing_order,
    listening_text, SettingCategory, SettingData, ControlType,
};
use cosmos_client::ship_flight::{color_key, focus_after_press};

#[test]
fn maps_arrive_in_any_order() {
    let d: GalaxyMapDisplay<u8, u16> = GalaxyMapDisplay::Loading;
    let d = d.with_system_map(2).with_galaxy_map(1);
    assert!(d.is_ready());
    assert!(matches!(d, GalaxyMapDisplay::Ready { galaxy_map: 1, system_map: 2 }));
    let e: GalaxyMapDisplay<u8, u16> = GalaxyMapDisplay::Loading;
    let e = e.with_galaxy_map(1);
    assert!(!e.is_ready());
    let e = e.with_system_map(2).with_galaxy_map(9);
    assert!(matches!(e, GalaxyMapDisplay::Ready { galaxy_map: 9, system_map: 2 }));
}

#[test]
fn map_key_and_markers() {
    assert_eq!(map_toggle(true, true, true, true, true), MapToggle::Close);
    assert_eq!(map_toggle(true, true, false, true, true), MapToggle::Ignore);
    assert_eq!(map_toggle(true, true, false, false, true), MapToggle::Open);
    assert_eq!(map_toggle(false, true, false, false, true), MapToggle::Ignore);
    let s = Sector { x: 1, y: -2, z: 3 };
    assert_eq!(waypoint_toggle(true, true, false, Some(s)), WaypointToggle::Place(s));
    assert_eq!(waypoint_toggle(true, true, true, Some(s)), WaypointToggle::Remove);
    assert_eq!(marker_color(DestinationKind::Station { shop_count: 2, enemy: false }), MarkerColor::Purple);
    assert_eq!(marker_color(DestinationKind::Station { shop_count: 0, enemy: false }), MarkerColor::Blue);
    assert_eq!(marker_color(DestinationKind::Station { shop_count: 2, enemy: true }), MarkerColor::Red);
    assert_eq!(marker_shape(DestinationKind::Ship), MarkerShape::SmallCube);
    let system = vec![(Sector { x: 0, y: 0, z: 0 }, DestinationKind::Star), (Sector { x: 1, y: 1, z: 1 }, DestinationKind::Planet)];
    let galaxy = vec![(Sector { x: 5, y: 5, z: 5 }, DestinationKind::Star)];
    let m = map_markers(&system, Sector { x: 10, y: 20, z: 30 }, &galaxy);
    assert_eq!(m.len(), 2);
    assert_eq!(m[0].sector, Sector { x: 11, y: 21, z: 31 });
    assert_eq!(m[0].index, 1);
    assert!(!m[0].from_galaxy);
    assert!(m[1].from_galaxy && m[1].scale_with_zoom);
}

#[test]
fn map_texts() {
    assert_eq!(sector_text(Sector { x: 1, y: -20, z: 300 }), "1, -20, 300");
    assert_eq!(waypoint_text(Some(Sector { x: 0, y: 0, z: 0 }), &None), "Waypoint: 0, 0, 0");
    assert_eq!(waypoint_text(None, &Some("KeyX".to_string())), "Waypoint: <KeyX to set>");
    assert_eq!(waypoint_text(None, &None), "Waypoint: <[None] to set>");
    let controls = vec![Some("W".to_string()), Some("A".to_string()), None, Some("D".to_string()), Some("E".to_string()), Some("Q".to_string())];
    assert_eq!(movement_controls_text(&controls), "WA[None]DEQ to Move");
    assert_eq!(control_hint(&Some("R".to_string()), " to Reset to Your Sector"), "R to Reset to Your Sector");
}

#[test]
fn friends_are_grouped_and_searched() {
    let fs = vec![
        FriendInfo { id: 1, state: FriendState::Online, in_this_game: true },
        FriendInfo { id: 2, state: FriendState::Online, in_this_game: false },
        FriendInfo { id: 3, state: FriendState::Away, in_this_game: false },
        FriendInfo { id: 4, state: FriendState::LookingToPlay, in_this_game: false },
    ];
    assert_eq!(friends_in_group(&fs, FriendGroup::InGame), vec![0]);
    assert_eq!(friends_in_group(&fs, FriendGroup::Online), vec![1, 3]);
    assert_eq!(friends_in_group(&fs, FriendGroup::Offline), vec![2]);
    assert!(is_offline(FriendState::Snooze));
    assert!(!is_offline(FriendState::LookingToTrade));
    assert_eq!(group_title(FriendGroup::InGame), "In-Game");
    assert!(friend_visible("AnnaBelle", &None, "  anna "));
    assert!(!friend_visible("Bob", &Some("Bobby".to_string()), "anna"));
    assert!(friend_visible("Bob", &Some("the anna".to_string()), "anna"));
    assert_eq!(friend_display_name("Bob", &Some("B".to_string())), "B");
    assert_eq!(friend_display_name("Bob", &None), "Bob");
}

#[test]
fn hud_messages_and_tooltips() {
    let mut h = HudMessages::new();
    assert!(h.take_pending().is_none());
    h.display_message(HudMessage::with_string("one"));
    h.display_message(HudMessage::with_colored_string("two", NamedColor::Red));
    h.display_message(HudMessage::with_colored_string("one", NamedColor::Green));
    let m = h.take_pending().unwrap();
    assert_eq!(m.text(), "one");
    assert_eq!(m.iter()[0].color, NamedColor::White);
    let m = h.take_pending().unwrap();
    assert_eq!(m.iter().len(), 1);
    assert_eq!(m.iter()[0].text, "two");
    assert_eq!(m.iter()[0].color, NamedColor::Red);
    assert!(h.take_pending().is_none());
    let parts = HudMessage::new(vec![
        cosmos_client::hud::RichText::new("a".to_string(), NamedColor::Aqua),
        cosmos_client::hud::RichText::from_string("b".to_string()),
    ]);
    assert_eq!(parts.text(), "ab");
    assert_eq!(shown_message_fate(false, 6999), ShownMessageFate::Stays);
    assert_eq!(shown_message_fate(false, 7000), ShownMessageFate::Removed);
    assert_eq!(shown_message_fate(true, 0), ShownMessageFate::Removed);

    let mut t = LookingAtTooltip::new();
    t.add_or_modify_message(HudMessage::with_string("a"), "x");
    t.add_or_modify_message(HudMessage::with_string("b"), "y");
    t.add_or_modify_message(HudMessage::with_string("c"), "x");
    let msgs = t.messages();
    assert_eq!(msgs.len(), 2);
    assert_eq!(msgs[0].label(), "x");
    assert_eq!(msgs[0].message().iter()[0].text, "c");
    assert_eq!(msgs[1].label(), "y");
    t.set_entity(1, 55);
    assert_eq!(t.messages()[1].entity(), Some(55));
    assert_eq!(tooltip_change(false), TooltipChange::Remove);

    let p = ShowInfoPopup::error("bad");
    assert_eq!(p.text, "bad");
    let l = railgun_line(Some(InvalidRailgunReason::NoCooling));
    assert_eq!(l.mark, Some(Mark::Cross));
    assert_eq!(line_text(l, "X"), "X This railgun has no cooling mechanism");
    assert_eq!(line_text(warp_drive_line(WarpDriveState::Charging), "X"), "Warp Drive Charging");
    assert_eq!(line_text(railgun_line(None), "V"), "V Railgun Ready");
    assert!(matches!(alignment_notice(false, Some(AlignedTo::Ship)), AlignmentNotice::Show("Aligned to Ship")));
    assert!(matches!(alignment_notice(true, Some(AlignedTo::Ship)), AlignmentNotice::Hide));
    assert!(matches!(alignment_notice(false, Some(AlignedTo::Planet)), AlignmentNotice::Hide));
    assert!(matches!(alignment_notice(false, Some(AlignedTo::Other)), AlignmentNotice::Unchanged));
}

#[test]
fn atlas_layout_and_item_tooltips() {
    assert_eq!(atlas_dimensions(0), (0, 0));
    assert_eq!(atlas_dimensions(1), (1, 1));
    assert_eq!(atlas_dimensions(10), (4, 3));
    assert_eq!(atlas_dimensions(16), (4, 4));
    assert_eq!(atlas_dimensions(17), (5, 4));
    assert_eq!(expand_2d(7, 3), (1, 2));
    assert_eq!(item_rect(5, 4), (100, 100, 200, 200));
    let changes = vec![
        HoverChange { left: true, has_tooltip: true },
        HoverChange { left: false, has_tooltip: false },
        HoverChange { left: false, has_tooltip: false },
    ];
    assert_eq!(tooltip_actions(&changes, false), vec![TooltipAction::Remove, TooltipAction::Show, TooltipAction::Keep]);
    assert_eq!(tooltip_actions(&changes, true), vec![TooltipAction::Remove, TooltipAction::Keep, TooltipAction::Keep]);
}

#[test]
fn datapad_and_factions() {
    assert_eq!(datapad_toggle(true, false, false), DatapadToggle::Open);
    assert_eq!(datapad_toggle(true, true, false), DatapadToggle::Ignore);
    assert_eq!(datapad_toggle(true, false, true), DatapadToggle::Close);
    assert_eq!(faction_view(true, false), FactionView::NoFaction);
    assert_eq!(faction_view(true, true), FactionView::WithFaction);
    assert_eq!(create_faction_outcome(CreateFactionResponse::Success), CreateFactionOutcome::CloseNameBox);
    assert_eq!(
        create_faction_outcome(CreateFactionResponse::NameTaken),
        CreateFactionOutcome::ShowError("Faction name already taken.".to_string())
    );
    assert_eq!(active_after_click(None, 3), Some(3));
    assert_eq!(active_after_click(Some(3), 3), None);
    assert_eq!(active_after_click(Some(2), 3), Some(3));
    assert_eq!(payout_text(250), "+$250");
}

#[test]
fn settings_screen() {
    assert_eq!(category_name(SettingCategory::Audio), "Audio");
    assert_eq!(initial_input_value(&SettingData::I32(-5)), "-5");
    assert_eq!(initial_input_value(&SettingData::String("hi".to_string())), "hi");
    assert_eq!(applied_setting(&SettingData::I32(0), "12"), Some(SettingData::I32(12)));
    assert_eq!(applied_setting(&SettingData::I32(0), "3000000000"), None);
    assert_eq!(applied_setting(&SettingData::String(String::new()), "x"), Some(SettingData::String("x".to_string())));
    assert_eq!(listening_text("KeyW"), "> KeyW <");
    assert_eq!(display_debug_name("ArrowUp"), "Up Arrow");
    assert_eq!(display_debug_name("ShiftLeft"), "Left Shift");
    assert_eq!(display_debug_name("A"), "A");
    assert_eq!(display_debug_name(""), "");
    assert_eq!(control_text(&None), "None");
    assert_eq!(control_text(&Some(ControlType::Mouse("Left".to_string()))), "Left Mouse");
    assert_eq!(control_text(&Some(ControlType::Key("KeyW".to_string()))), "W");
    assert_eq!(control_text(&Some(ControlType::Key("Digit1".to_string()))), "1");
    assert_eq!(control_text(&Some(ControlType::Key("ControlLeft".to_string()))), "Left Control");
    let entries = vec![
        (SettingCategory::Mouse, "sensitivity".to_string()),
        (SettingCategory::Graphics, "Zoom".to_string()),
        (SettingCategory::Graphics, "fov".to_string()),
        (SettingCategory::Graphics, "FOV".to_string()),
    ];
    assert_eq!(listing_order(&entries), vec![2, 3, 1, 0]);
}

#[test]
fn waypoint_focus_and_colors() {
    assert_eq!(focus_after_press(None, Some(4)), Some(4));
    assert_eq!(focus_after_press(Some(4), Some(4)), None);
    assert_eq!(focus_after_press(Some(4), Some(5)), Some(5));
    assert_eq!(focus_after_press(Some(4), None), None);
    assert_eq!(color_key(0xFF, 0x57, 0x33), u32::from_be_bytes([0xFF, 0x57, 0x33, 0]));
}

#[test]
fn strings_convert_to_white_messages() {
    let r = RichText::from("hello".to_string());
    assert_eq!(r.text, "hello");
    assert_eq!(r.color, NamedColor::White);
    let m = HudMessage::from("hi there".to_string());
    assert_eq!(m.iter().len(), 1);
    assert_eq!(m.iter()[0].text, "hi there");
    assert_eq!(m.iter()[0].color, NamedColor::White);
    let w = HudMessage::with_string("hi there");
    assert_eq!(w.iter().len(), 1);
    assert_eq!(w.iter()[0].text, m.iter()[0].text);
}
