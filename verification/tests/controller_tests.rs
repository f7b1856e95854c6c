use sway_scratchpad::action::ActionTypes;
use sway_scratchpad::controller::{handle_local_options, InstanceController, RoutingError};

fn ready_controller() -> InstanceController {
    let mut c = InstanceController::new();
    c.arm();
    c.activate();
    c
}

#[test]
fn as_str_spellings() {
    assert_eq!(ActionTypes::Invalid.as_str(), "NONE");
    assert_eq!(ActionTypes::Show.as_str(), "SHOW");
    assert_eq!(ActionTypes::Hide.as_str(), "HIDE");
    assert_eq!(ActionTypes::Toggle.as_str(), "TOGGLE");
}

#[test]
fn parse_known_and_unknown() {
    assert_eq!(ActionTypes::parse("SHOW"), ActionTypes::Show);
    assert_eq!(ActionTypes::parse("HIDE"), ActionTypes::Hide);
    assert_eq!(ActionTypes::parse("TOGGLE"), ActionTypes::Toggle);
    assert_eq!(ActionTypes::parse("NONE"), ActionTypes::Invalid);
    assert_eq!(ActionTypes::parse(""), ActionTypes::Invalid);
    assert_eq!(ActionTypes::parse("show"), ActionTypes::Invalid);
    assert_eq!(ActionTypes::parse("SHOWX"), ActionTypes::Invalid);
}

#[test]
fn parse_as_str_roundtrip() {
    for a in [
        ActionTypes::Invalid,
        ActionTypes::Show,
        ActionTypes::Hide,
        ActionTypes::Toggle,
    ] {
        assert_eq!(ActionTypes::parse(a.as_str()), a);
    }
}

#[test]
fn ready_single_action_applies_and_rearms() {
    let mut c = ready_controller();
    assert_eq!(c.submit(ActionTypes::Show), Ok(()));
    assert!(c.window.visible);
    // a second immediate delivery must also succeed: the handler was re-armed
    assert_eq!(c.submit(ActionTypes::Show), Ok(()));
    assert!(c.window.visible);
    assert_eq!(c.submit(ActionTypes::Hide), Ok(()));
    assert!(!c.window.visible);
    assert_eq!(c.submit(ActionTypes::Hide), Ok(()));
    assert!(!c.window.visible);
    assert_eq!(c.submit(ActionTypes::Toggle), Ok(()));
    assert!(c.window.visible);
    assert_eq!(c.submit(ActionTypes::Toggle), Ok(()));
    assert!(!c.window.visible);
}

#[test]
fn handler_is_replaced_each_delivery() {
    let mut c = ready_controller();
    let before = c.current_handler;
    assert_eq!(c.submit(ActionTypes::Show), Ok(()));
    let after = c.current_handler;
    assert!(after.is_some());
    assert_ne!(before, after);
    assert_eq!(c.submit(ActionTypes::Invalid), Err(RoutingError::ParseFailure));
    assert_ne!(after, c.current_handler);
    assert!(c.current_handler.is_some());
}

#[test]
fn two_action_arguments_are_malformed() {
    let args = vec!["show".to_string(), "hide".to_string()];
    assert_eq!(handle_local_options(&args), Err(RoutingError::MalformedInput));
    let args = vec!["toggle".to_string(), "toggle".to_string(), "show".to_string()];
    assert_eq!(handle_local_options(&args), Err(RoutingError::MalformedInput));
}

#[test]
fn unknown_argument_is_malformed() {
    let args = vec!["raise".to_string()];
    assert_eq!(handle_local_options(&args), Err(RoutingError::MalformedInput));
}

#[test]
fn zero_arguments_confirm_instance() {
    let args: Vec<String> = vec![];
    assert_eq!(handle_local_options(&args), Ok(None));
}

#[test]
fn single_argument_routes() {
    assert_eq!(
        handle_local_options(&vec!["show".to_string()]),
        Ok(Some(ActionTypes::Show))
    );
    assert_eq!(
        handle_local_options(&vec!["hide".to_string()]),
        Ok(Some(ActionTypes::Hide))
    );
    assert_eq!(
        handle_local_options(&vec!["toggle".to_string()]),
        Ok(Some(ActionTypes::Toggle))
    );
}

#[test]
fn action_before_ready_is_not_ready() {
    let mut c = InstanceController::new();
    let snapshot = c;
    assert_eq!(c.submit(ActionTypes::Show), Err(RoutingError::NotReady));
    assert_eq!(c, snapshot);
    assert!(!c.window.visible);

    // armed but the UI does not exist yet: still not ready
    let mut c = InstanceController::new();
    c.arm();
    let snapshot = c;
    assert_eq!(c.submit(ActionTypes::Toggle), Err(RoutingError::NotReady));
    assert_eq!(c, snapshot);

    // started but nothing armed: still not ready
    let mut c = InstanceController::new();
    c.activate();
    let snapshot = c;
    assert_eq!(c.submit(ActionTypes::Hide), Err(RoutingError::NotReady));
    assert_eq!(c, snapshot);
}

#[test]
fn invalid_payload_is_parse_failure_without_ui_action() {
    let mut c = ready_controller();
    assert_eq!(c.submit(ActionTypes::Show), Ok(()));
    assert!(c.window.visible);
    assert_eq!(c.submit(ActionTypes::Invalid), Err(RoutingError::ParseFailure));
    // no UI action was taken, and the handler was re-armed
    assert!(c.window.visible);
    assert_eq!(c.submit(ActionTypes::Hide), Ok(()));
    assert!(!c.window.visible);
}

#[test]
fn deliver_decodes_payloads() {
    let mut c = ready_controller();
    assert_eq!(c.deliver("SHOW"), Ok(()));
    assert!(c.window.visible);
    assert_eq!(c.deliver("HIDE"), Ok(()));
    assert!(!c.window.visible);
    assert_eq!(c.deliver("TOGGLE"), Ok(()));
    assert!(c.window.visible);
    assert_eq!(c.deliver("garbage"), Err(RoutingError::ParseFailure));
    assert!(c.window.visible);
}

#[test]
fn toggle_parity_over_sequences() {
    for initial_shows in [0u32, 1u32] {
        let mut c = ready_controller();
        for _ in 0..initial_shows {
            assert_eq!(c.submit(ActionTypes::Show), Ok(()));
        }
        let initial = c.window.visible;
        for n in 1..=7u32 {
            assert_eq!(c.submit(ActionTypes::Toggle), Ok(()));
            let expected = if n % 2 == 0 { initial } else { !initial };
            assert_eq!(c.window.visible, expected);
        }
    }
}

#[test]
fn toggle_equals_hide_when_visible_show_when_hidden() {
    let mut a = ready_controller();
    let mut b = ready_controller();
    assert_eq!(a.submit(ActionTypes::Show), Ok(()));
    assert_eq!(b.submit(ActionTypes::Show), Ok(()));
    // both visible: toggle must act as hide
    assert_eq!(a.submit(ActionTypes::Toggle), b.submit(ActionTypes::Hide));
    assert_eq!(a.window.visible, b.window.visible);
    assert!(!a.window.visible);
    // both hidden: toggle must act as show
    assert_eq!(a.submit(ActionTypes::Toggle), b.submit(ActionTypes::Show));
    assert_eq!(a.window.visible, b.window.visible);
    assert!(a.window.visible);
}

#[test]
fn activate_is_idempotent_and_starts_hidden() {
    let mut c = InstanceController::new();
    assert!(!c.started);
    c.activate();
    assert!(c.started);
    assert!(!c.window.visible);
    c.arm();
    assert_eq!(c.submit(ActionTypes::Show), Ok(()));
    assert!(c.window.visible);
    // a later activation of the running instance changes nothing
    c.activate();
    assert!(c.started);
    assert!(c.window.visible);
}
