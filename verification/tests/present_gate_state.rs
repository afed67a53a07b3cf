use gpui_windows::permit::{enabled, swap_chain_flags, wait_millis, PermitState, FRAME_LATENCY_WAITABLE_OBJECT};

#[test]
fn no_frame_can_start_before_readiness() {
    let mut state = PermitState::default();
    assert!(state.needs_wait());
    assert!(!state.begin(false));
    state.ready();
    assert!(state.begin(false));
}

#[test]
fn nested_frames_cannot_share_a_permit() {
    let mut state = PermitState::default();
    state.ready();
    assert!(state.begin(false));
    assert!(!state.begin(false));
    assert!(!state.begin(true));
    state.presented();
    assert!(!state.begin(false));
    state.finish();
    assert!(state.needs_wait());
}

#[test]
fn unchanged_or_skipped_frames_return_credit_without_an_active_permit() {
    let mut state = PermitState::default();
    state.ready();
    for _ in 0..3 {
        assert!(state.begin(false));
        assert!(state.finish());
    }
    assert!(state.begin(false));
    state.presented();
    assert!(!state.finish());
    assert!(!state.begin(false));
    assert!(state.needs_wait());
}

#[test]
fn draw_or_present_failure_cannot_leave_a_permissive_gate() {
    let mut state = PermitState::default();
    state.ready();
    assert!(state.begin(false));
    state.failed();
    assert!(!state.finish());
    state.ready();
    assert!(!state.begin(false));
    assert!(!state.begin(true));
    assert!(!state.needs_wait());
    let recovered = PermitState::default();
    assert!(recovered.needs_wait());
}

#[test]
fn resize_discards_readiness_from_old_buffers() {
    let mut state = PermitState::default();
    state.ready();
    state.resized();
    assert!(!state.begin(false));
    assert!(state.needs_wait());
}

#[test]
fn modal_bypass_does_not_leave_a_permit_after_exit() {
    let mut state = PermitState::default();
    assert!(state.begin(true));
    state.presented();
    state.finish();
    assert!(!state.begin(false));
    assert!(state.needs_wait());
}

#[test]
fn only_explicit_one_enables_waitable_flags() {
    for value in [None, Some(""), Some("0"), Some("true"), Some(" 1")] {
        assert!(!enabled(value));
    }
    assert!(enabled(Some("1")));
}

#[test]
fn timeout_tracks_refresh_and_unknown_timing_never_blocks() {
    assert_eq!(wait_millis(60), 16);
    assert_eq!(wait_millis(120), 8);
    assert_eq!(wait_millis(175), 5);
    assert_eq!(wait_millis(240), 4);
    assert_eq!(wait_millis(0), 0);
    assert_eq!(wait_millis(1), 0);
}

#[test]
fn failed_state_reports_fault_and_keeps_it_after_resize() {
    let mut state = PermitState::default();
    assert!(!state.is_faulted());
    state.failed();
    assert!(state.is_faulted());
    state.resized();
    state.ready();
    assert!(state.is_faulted());
    assert!(!state.begin(true));
}

#[test]
fn modal_frame_starts_without_readiness_but_not_during_another_frame() {
    let mut state = PermitState::default();
    assert!(state.begin(true));
    assert!(!state.begin(true));
    assert!(!state.finish());
    assert!(state.begin(true));
}

#[test]
fn skipped_frame_keeps_readiness_for_the_next_one() {
    let mut state = PermitState::default();
    state.ready();
    assert!(state.begin(false));
    assert!(state.finish());
    assert!(!state.needs_wait());
    assert!(state.begin(false));
}

#[test]
fn wait_never_exceeds_one_display_period() {
    for hz in [2u32, 3, 7, 59, 60, 61, 144, 1000, 1001, u32::MAX] {
        let ms = wait_millis(hz);
        assert!(u64::from(ms) * u64::from(hz) <= 1000);
        assert!((u64::from(ms) + 1) * u64::from(hz) > 1000);
    }
    assert_eq!(wait_millis(1000), 1);
    assert_eq!(wait_millis(1001), 0);
}

#[test]
fn swap_chain_is_waitable_only_when_enabled() {
    assert_eq!(swap_chain_flags(Some("1")), FRAME_LATENCY_WAITABLE_OBJECT);
    assert_eq!(swap_chain_flags(Some("1 ")), 0);
    assert_eq!(swap_chain_flags(Some("yes")), 0);
    assert_eq!(swap_chain_flags(None), 0);
    assert_eq!(FRAME_LATENCY_WAITABLE_OBJECT, 64);
}
