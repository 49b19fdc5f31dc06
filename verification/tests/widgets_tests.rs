use cosmos_client::button::{button_colors, colors_after_pointer, label_change, sends_event, ButtonStyles, LabelChange, PointerInteraction};
use cosmos_client::checkbox::{checkbox_color, Checkbox, CheckboxColor};
use cosmos_client::modal::{
    confirm_modal_buttons, confirm_modal_result, shows_prompt, text_modal_buttons, text_modal_result, ConfirmModalButtons,
    ModalAnswer, TextModalButtons,
};
use cosmos_client::reactivity::{
    input_needs_value, integer_bound_from_value, listeners_to_notify, slider_from_binding, slider_from_value, sync_from_input, sync_from_slider,
    text_section_update, BindValue, BindValues, ReactableFields, ReactableValue,
};
use cosmos_client::multiplayer::ConnectionString;
use cosmos_client::show_cursor::{cursor_change, no_open_menus, CursorChange};
use cosmos_client::slider::{Slider, SliderValue};
use cosmos_client::tabbed_view::{is_shown, shown_tabs, SelectedTab, Tab};
use cosmos_client::text_input::{integer_input_accepted, max_chars, InputType, InputValue};
use cosmos_client::window::split_window_children;

#[test]
fn slider_value_reads_back() {
    let mut v = SliderValue::default();
    assert_eq!(v.value(), 0);
    v.set_value(-17);
    assert_eq!(v.value(), -17);
}

#[test]
fn checkbox_toggles() {
    let mut c = Checkbox::default();
    assert!(!c.get());
    c.toggle();
    assert!(c.get());
    assert_eq!(checkbox_color(c), CheckboxColor::Aqua);
    c.toggle();
    assert_eq!(c, Checkbox::Disabled);
    assert_eq!(checkbox_color(c), CheckboxColor::DarkGrey);
}

#[test]
fn cursor_follows_show_cursor() {
    assert_eq!(cursor_change(0, true), Some(CursorChange::Hide));
    assert_eq!(cursor_change(2, false), Some(CursorChange::Show));
    assert_eq!(cursor_change(0, false), None);
    assert_eq!(cursor_change(1, true), None);
    assert!(no_open_menus(0));
    assert!(!no_open_menus(3));
}

#[test]
fn tabs_show_the_selection() {
    let tabs = vec![Tab::new("General"), Tab::new("Controls")];
    assert_eq!(shown_tabs(&SelectedTab::Default, &tabs), vec![true, false]);
    let sel = tabs[1].select();
    assert_eq!(shown_tabs(&sel, &tabs), vec![false, true]);
    assert!(is_shown(&SelectedTab::Tab("General".to_string()), 5, &tabs[0]));
    assert_eq!(tabs[1].header(), "Controls");
    assert!(matches!(SelectedTab::default(), SelectedTab::Default));
}

#[test]
fn text_boxes() {
    let mut v = InputValue::new("12");
    assert_eq!(v.value(), "12");
    v.set_value("");
    assert_eq!(v.value(), "");
    assert!(integer_input_accepted("-", -5, 5));
    assert!(!integer_input_accepted("-", 0, 5));
    assert!(integer_input_accepted("5", -5, 5));
    assert!(!integer_input_accepted("6", -5, 5));
    assert!(!integer_input_accepted("", -5, 5));
    assert!(!integer_input_accepted("1.5", -5, 5));
    assert_eq!(max_chars(InputType::Text { max_length: Some(30) }), Some(30));
    assert_eq!(max_chars(InputType::Integer { min: 0, max: 1 }), None);
}

#[test]
fn reactive_bindings() {
    let a: BindValues<ConnectionString> = BindValues::new(vec![BindValue::new(7, ReactableFields::Value)]);
    let b: BindValues<ConnectionString> = BindValues::single(BindValue::new(8, ReactableFields::Text { section: 1 }));
    assert!(a.binds_to(7));
    assert!(!a.binds_to(8));
    let listeners = vec![(100u64, a), (200u64, b)];
    assert_eq!(listeners_to_notify(&listeners, 8), vec![200]);
    assert_eq!(listeners_to_notify(&listeners, 9), Vec::<u64>::new());

    let mut value = ConnectionString("abc".to_string());
    assert_eq!(text_section_update(ReactableFields::Text { section: 2 }, &value), Some((2, "abc".to_string())));
    assert_eq!(text_section_update(ReactableFields::Value, &value), None);
    sync_from_input(&mut value, "xyz");
    assert_eq!(value.as_value(), "xyz");
    let mut s = SliderValue::default();
    s.set_value(-4);
    sync_from_slider(&mut value, &s);
    assert_eq!(value.0, "-4");
    let mut t = SliderValue::default();
    assert!(slider_from_value(&mut t, &value));
    assert_eq!(t.value(), -4);
    assert!(!slider_from_value(&mut t, &ConnectionString("nope".to_string())));
    assert_eq!(t.value(), -4);
    assert!(input_needs_value("1", "2"));
    assert!(!input_needs_value("", "0"));
    assert!(!input_needs_value("3", "3"));
    let mut it = InputType::Integer { min: 0, max: 10 };
    assert!(integer_bound_from_value(&mut it, ReactableFields::Max, &ConnectionString("99".to_string())));
    assert_eq!(it, InputType::Integer { min: 0, max: 99 });
    assert!(!integer_bound_from_value(&mut it, ReactableFields::Min, &ConnectionString("x".to_string())));
    assert_eq!(it, InputType::Integer { min: 0, max: 99 });
    let mut txt = InputType::Text { max_length: None };
    assert!(!integer_bound_from_value(&mut txt, ReactableFields::Min, &ConnectionString("1".to_string())));
}

#[test]
fn modals_answer() {
    let t = text_modal_buttons(TextModalButtons::OkCancel);
    assert_eq!(t, vec![("Cancel", ModalAnswer::Decline), ("Ok", ModalAnswer::Accept)]);
    let c = confirm_modal_buttons(ConfirmModalButtons::YesNo);
    assert_eq!(c, vec![("No", ModalAnswer::Decline), ("Yes", ModalAnswer::Accept)]);
    assert_eq!(text_modal_result(ModalAnswer::Accept, "name"), Some("name".to_string()));
    assert_eq!(text_modal_result(ModalAnswer::Decline, "name"), None);
    assert!(confirm_modal_result(ModalAnswer::Accept));
    assert!(!shows_prompt(""));
}

#[test]
fn buttons_color_by_interaction() {
    let s = ButtonStyles {
        background_color: 1u8,
        foreground_color: 2,
        hover_background_color: 3,
        hover_foreground_color: 4,
        press_background_color: 5,
        press_foreground_color: 6,
    };
    assert_eq!(button_colors(&s, PointerInteraction::Idle), (1, 2));
    assert_eq!(button_colors(&s, PointerInteraction::Hovered), (3, 4));
    assert_eq!(button_colors(&s, PointerInteraction::Pressed), (5, 6));
    assert_eq!(colors_after_pointer::<u8>(&None, PointerInteraction::Pressed), None);
    assert_eq!(label_change(true, false), LabelChange::Remove);
    assert_eq!(label_change(false, true), LabelChange::Create);
    assert!(sends_event(false, true, false));
    assert!(!sends_event(true, true, true));
}

#[test]
fn window_children_split() {
    let (bar, body) = split_window_children(&vec![false, true, false, true]);
    assert_eq!(bar, vec![1, 3]);
    assert_eq!(body, vec![0, 2]);
}

#[test]
fn slider_takes_value_min_and_max_from_bindings() {
    let mut value = SliderValue::new(5);
    let mut slider = Slider::default();
    assert_eq!(slider, Slider { min: 0, max: 100 });
    assert!(slider_from_binding(&mut value, &mut slider, ReactableFields::Value, &ConnectionString("42".to_string())));
    assert_eq!(value.value(), 42);
    assert!(slider_from_binding(&mut value, &mut slider, ReactableFields::Value, &ConnectionString("500".to_string())));
    assert_eq!(value.value(), 500);
    assert_eq!(slider, Slider { min: 0, max: 100 });
    assert!(slider_from_binding(&mut value, &mut slider, ReactableFields::Min, &ConnectionString("-3".to_string())));
    assert!(slider_from_binding(&mut value, &mut slider, ReactableFields::Max, &ConnectionString("7".to_string())));
    assert_eq!(slider, Slider { min: -3, max: 7 });
    assert_eq!(value.value(), 500);
    assert!(!slider_from_binding(&mut value, &mut slider, ReactableFields::Max, &ConnectionString("seven".to_string())));
    assert!(!slider_from_binding(&mut value, &mut slider, ReactableFields::Text { section: 0 }, &ConnectionString("1".to_string())));
    assert_eq!(slider, Slider { min: -3, max: 7 });
    assert_eq!(value.value(), 500);
}

#[test]
fn slider_values_are_ordered_by_number() {
    assert!(SliderValue::new(-1) < SliderValue::new(3));
    assert_eq!(SliderValue::new(4).max(SliderValue::new(2)), SliderValue::new(4));
}
