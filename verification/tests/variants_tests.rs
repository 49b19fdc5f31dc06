use cosmos_client::main_menu::{reason_text, DisconnectReason};
use cosmos_client::master_menu::{create_faction_outcome, CreateFactionOutcome, CreateFactionResponse};
use cosmos_client::galaxy_map::{marker_color, marker_shape, DestinationKind, MarkerColor, MarkerShape};
use cosmos_client::hud::{railgun_line, warp_drive_line, InvalidRailgunReason, Mark, NamedColor, WarpDriveState};
use cosmos_client::settings::{category_name, input_type_for, setting_widget, SettingCategory, SettingConstraint, SettingData, SettingWidget};
use cosmos_client::slider::{Slider, SliderValue};
use cosmos_client::text_input::InputType;

#[test]
fn every_faction_refusal_has_its_message() {
    let cases = [
        (CreateFactionResponse::NameTaken, "Faction name already taken."),
        (CreateFactionResponse::ServerError, "Something bad happened - check server logs."),
        (CreateFactionResponse::NameTooLong, "Faction name too long."),
        (CreateFactionResponse::AlreadyInFaction, "You cannot create a faction while being in one."),
    ];
    for (r, m) in cases {
        assert_eq!(create_faction_outcome(r), CreateFactionOutcome::ShowError(m.to_string()));
    }
}

#[test]
fn every_disconnect_reason_has_its_text() {
    assert_eq!(reason_text(&Some(DisconnectReason::DisconnectedByClient)), "You Quit");
    assert_eq!(reason_text(&Some(DisconnectReason::Transport)), "Unable to Establish Connection");
    assert_eq!(reason_text(&Some(DisconnectReason::PacketSerialization("S".to_string()))), "Serialization Error: S");
}

#[test]
fn every_destination_has_a_look() {
    assert_eq!(marker_color(DestinationKind::Star), MarkerColor::StarColor);
    assert_eq!(marker_color(DestinationKind::Planet), MarkerColor::BiosphereColor);
    assert_eq!(marker_color(DestinationKind::Player), MarkerColor::Green);
    assert_eq!(marker_color(DestinationKind::Asteroid), MarkerColor::Grey);
    assert_eq!(marker_color(DestinationKind::Unknown), MarkerColor::White);
    assert_eq!(marker_color(DestinationKind::Ship), MarkerColor::Orange);
    assert_eq!(marker_shape(DestinationKind::Star), MarkerShape::LargeSphere);
    assert_eq!(marker_shape(DestinationKind::Planet), MarkerShape::LargeCube);
    assert_eq!(marker_shape(DestinationKind::Player), MarkerShape::Capsule);
    assert_eq!(marker_shape(DestinationKind::Unknown), MarkerShape::SmallSphere);
    assert_eq!(marker_shape(DestinationKind::Station { shop_count: 0, enemy: true }), MarkerShape::MediumCube);
}

#[test]
fn every_railgun_problem_and_warp_state_has_a_line() {
    let r = [
        (InvalidRailgunReason::NoMagnets, "Railgun needs more magnets"),
        (InvalidRailgunReason::Obstruction, "Something is obstructing the barrel"),
        (InvalidRailgunReason::TouchingAnother, "This railgun is sharing blocks with another railgun"),
        (InvalidRailgunReason::NoCapacitors, "This railgun has no capacitors to charge"),
        (InvalidRailgunReason::NoCooling, "This railgun has no cooling mechanism"),
    ];
    for (reason, text) in r {
        let l = railgun_line(Some(reason));
        assert_eq!(l.text, text);
        assert_eq!(l.color, NamedColor::Red);
        assert_eq!(l.mark, Some(Mark::Cross));
    }
    let ready = warp_drive_line(WarpDriveState::ReadyToWarp);
    assert_eq!((ready.text, ready.mark, ready.color), ("Ready to Jump", Some(Mark::Check), NamedColor::Green));
    let big = warp_drive_line(WarpDriveState::StructureTooBig);
    assert_eq!(big.text, "Structure too Massive! Place more warp drives");
    assert_eq!(big.mark, Some(Mark::Cross));
}

#[test]
fn settings_categories_and_boxes() {
    assert_eq!(category_name(SettingCategory::Graphics), "Graphics");
    assert_eq!(category_name(SettingCategory::Mouse), "Mouse");
    assert_eq!(input_type_for(&SettingData::I32(1)), InputType::Integer { min: i32::MIN as i64, max: i32::MAX as i64 });
    assert_eq!(input_type_for(&SettingData::String(String::new())), InputType::Text { max_length: None });
}

#[test]
fn constrained_number_setting_gets_a_slider() {
    let w = setting_widget(&SettingData::I32(70), &Some(SettingConstraint::I32 { min: 30, max: 120 }));
    assert_eq!(
        w,
        SettingWidget::Slider { slider: Slider { min: 30, max: 120 }, value: SliderValue::new(70), label: "70".to_string() }
    );
    let w = setting_widget(&SettingData::I32(-5), &Some(SettingConstraint::I32 { min: -10, max: 0 }));
    assert_eq!(
        w,
        SettingWidget::Slider { slider: Slider { min: -10, max: 0 }, value: SliderValue::new(-5), label: "-5".to_string() }
    );
}

#[test]
fn unconstrained_settings_get_text_boxes() {
    assert_eq!(
        setting_widget(&SettingData::I32(12), &None),
        SettingWidget::TextBox { input_type: InputType::Integer { min: i32::MIN as i64, max: i32::MAX as i64 }, text: "12".to_string() }
    );
    assert_eq!(
        setting_widget(&SettingData::String("abc".to_string()), &None),
        SettingWidget::TextBox { input_type: InputType::Text { max_length: None }, text: "abc".to_string() }
    );
}
