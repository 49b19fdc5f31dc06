use cosmos_client::crosshair::{CrosshairState, State};
use cosmos_client::focus_cam::{toggle_view, update_focus_view, NOT_FOCUSED_REASON, TOGGLED_REASON};
use cosmos_client::priority_queue::PriorityQueue;
use cosmos_client::reasons::HiddenReasons;

#[test]
fn hidden_while_a_reason_remains() {
    let mut r = HiddenReasons::new();
    assert!(!r.is_hidden());
    r.add_reason("a");
    r.add_reason("b");
    r.add_reason("a");
    assert!(r.is_hidden());
    r.remove_reason("a");
    assert!(r.is_hidden());
    assert!(!r.has_reason("a"));
    r.remove_reason("b");
    assert!(!r.is_hidden());
}

#[test]
fn crosshair_indicates_while_requested() {
    let mut c = CrosshairState::new();
    assert_eq!(c.state(), State::Normal);
    c.request_indicating("x");
    c.request_indicating("y");
    assert_eq!(c.state(), State::Indicating);
    assert_eq!(c.take_state_change(), Some(State::Indicating));
    assert_eq!(c.take_state_change(), None);
    c.remove_indicating("x");
    assert_eq!(c.state(), State::Indicating);
    c.remove_indicating("y");
    assert_eq!(c.state(), State::Normal);
    c.apply_looking_at("cosmos:indicating", true);
    assert_eq!(c.state(), State::Indicating);
    c.apply_looking_at("cosmos:indicating", false);
    assert_eq!(c.state(), State::Normal);
}

#[test]
fn priority_queue_gives_the_highest() {
    let mut q: PriorityQueue<u8> = PriorityQueue::new();
    assert_eq!(q.active(), None);
    q.add("low", 1);
    q.add("high", 5);
    q.add("high2", 5);
    assert_eq!(q.active(), Some("high"));
    assert!(q.remove("high"));
    assert_eq!(q.active(), Some("high2"));
    assert!(!q.remove("missing"));
    assert!(q.remove("high2"));
    assert_eq!(q.active(), Some("low"));
}

#[test]
fn focus_view_toggles() {
    let mut r = HiddenReasons::new();
    assert!(toggle_view(&mut r));
    assert!(r.has_reason(TOGGLED_REASON));
    assert!(!toggle_view(&mut r));
    assert!(!r.is_hidden());
    assert!(!update_focus_view(&mut r, false, false));
    assert!(r.has_reason(NOT_FOCUSED_REASON));
    assert!(update_focus_view(&mut r, true, true));
    assert!(!r.has_reason(NOT_FOCUSED_REASON));
    assert!(r.has_reason(TOGGLED_REASON));
}
