//! End-to-end walks through the control flow: probe, construct,
//! transition or reconcile, render.

use display_switch_tray::probe::current_unit_state;
use display_switch_tray::render::render;
use display_switch_tray::render::IconChoice;
use display_switch_tray::render::VisualMode;
use display_switch_tray::state::ActiveStateEnum;
use display_switch_tray::state::FailedStateEnum;
use display_switch_tray::state::ServiceState;

#[test]
fn startup_with_a_stopped_healthy_unit() {
    // The initial probe reports a non-zero is-active check and a
    // non-zero is-failed check: the unit is stopped and healthy.
    let (a, f) = current_unit_state(Some(3), Some(1));
    assert_eq!(a, ActiveStateEnum::Inactive);
    assert_eq!(f, FailedStateEnum::Normal);

    let s = ServiceState::new(a, f);
    let d = render(&s);
    assert_eq!(d.mode, VisualMode::Active);
    assert_eq!(d.icon, IconChoice::InactiveIcon);
    assert!(!d.control_checked);
}

#[test]
fn user_starts_the_unit_and_the_request_succeeds() {
    let mut s = ServiceState::new(ActiveStateEnum::Inactive, FailedStateEnum::Normal);

    // The user checks the control; the privileged start succeeds.
    let outcome = s.change_state(ActiveStateEnum::Active, true);
    assert_eq!(outcome, FailedStateEnum::Normal);
    assert_eq!(s, ServiceState { active: ActiveStateEnum::Active, failed: FailedStateEnum::Normal });

    // The control stays checked: the directive mirrors the new state.
    let d = render(&s);
    assert_eq!(d.mode, VisualMode::Active);
    assert_eq!(d.icon, IconChoice::ActiveIcon);
    assert!(d.control_checked);
}

#[test]
fn user_starts_the_unit_and_the_request_fails() {
    let mut s = ServiceState::new(ActiveStateEnum::Inactive, FailedStateEnum::Normal);

    // The user checks the control; the privileged start fails.
    let outcome = s.change_state(ActiveStateEnum::Active, false);
    assert_eq!(outcome, FailedStateEnum::Failed);
    assert_eq!(
        s,
        ServiceState { active: ActiveStateEnum::Inactive, failed: FailedStateEnum::Failed }
    );

    // Attention mode is shown, and the control is forced back to the
    // unchecked state that the unchanged `active` field dictates.
    let d = render(&s);
    assert_eq!(d.mode, VisualMode::Attention);
    assert!(!d.control_checked);
    assert!(!s.active.is_active());
}

#[test]
fn periodic_tick_picks_up_an_external_failure() {
    let mut s = ServiceState::new(ActiveStateEnum::Inactive, FailedStateEnum::Normal);

    // A periodic probe reports the unit active and failed.
    let (a, f) = current_unit_state(Some(0), Some(0));
    s.sync_state(a, f);
    assert_eq!(s, ServiceState { active: ActiveStateEnum::Active, failed: FailedStateEnum::Failed });

    let d = render(&s);
    assert_eq!(d.mode, VisualMode::Attention);
}
