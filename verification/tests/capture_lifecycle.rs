use jemclicks::capture::{CaptureAction, CaptureController};

#[test]
fn capture_starts_released() {
    let c = CaptureController::new();
    assert!(!c.grabbed());
}

#[test]
fn capture_grabs_on_enable_edge() {
    let mut c = CaptureController::new();
    assert_eq!(c.update(true), Some(CaptureAction::Grab));
    assert!(c.grabbed());
}

#[test]
fn capture_repeated_enable_is_noop() {
    let mut c = CaptureController::new();
    assert_eq!(c.update(true), Some(CaptureAction::Grab));
    assert_eq!(c.update(true), None);
    assert_eq!(c.update(true), None);
    assert!(c.grabbed());
}

#[test]
fn capture_repeated_disable_is_noop() {
    let mut c = CaptureController::new();
    assert_eq!(c.update(false), None);
    assert_eq!(c.update(true), Some(CaptureAction::Grab));
    assert_eq!(c.update(false), Some(CaptureAction::Ungrab));
    assert_eq!(c.update(false), None);
    assert!(!c.grabbed());
}

#[test]
fn capture_actions_alternate_over_any_toggle_sequence() {
    let gates = [
        true, true, false, true, true, true, false, false, true, false, true, true, false,
    ];
    let mut c = CaptureController::new();
    let mut actions: Vec<CaptureAction> = Vec::new();
    for g in gates {
        if let Some(a) = c.update(g) {
            actions.push(a);
        }
    }
    // never two identical capture requests in a row
    assert!(!actions.is_empty());
    assert_eq!(actions[0], CaptureAction::Grab);
    for w in actions.windows(2) {
        assert_ne!(w[0], w[1]);
    }
    // the controller's state always ends equal to the last gate value
    assert!(c.grabbed() == *gates.last().unwrap());
}
