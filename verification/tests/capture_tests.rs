use hook_relay::capture::{
    classify_host_call, start_report_status_code, start_status_code, stop_report_status_code,
    stop_status_code, write_loaded_message, CaptureContext, HostCall, Operation, Phase,
    StartDecision, StartReport, StopDecision, StopReport, PROCESS_ATTACH, PROCESS_DETACH,
    STATUS_OK, STATUS_POINTER_FAILED, STATUS_REFUSED, STATUS_WINDOW_FAILED,
};
use hook_relay::endpoint::{PIPE_NAME, SELF_TEST_VALUE};

fn attached() -> CaptureContext {
    let mut context = CaptureContext::new();
    context.record_attach(0x4000, Some("target.exe".to_string()));
    context
}

fn hooked(pointer: Option<u64>, window: Option<u64>) -> CaptureContext {
    let mut context = attached();
    assert_eq!(context.start_capture(), StartDecision::Install { module: 0x4000 });
    context.complete_start(pointer, window);
    context
}

#[test]
fn agreed_constants() {
    assert_eq!(PIPE_NAME, r"\\.\pipe\named-pipe-for-dll-hook-message");
    assert_eq!(SELF_TEST_VALUE, 334);
    assert_eq!(PROCESS_ATTACH, 1);
    assert_eq!(PROCESS_DETACH, 0);
}

#[test]
fn host_calls() {
    assert_eq!(classify_host_call(1), HostCall::Attach);
    assert_eq!(classify_host_call(0), HostCall::Detach);
    assert_eq!(classify_host_call(2), HostCall::Other);
    assert_eq!(classify_host_call(3), HostCall::Other);
}

#[test]
fn a_new_context_is_detached_and_empty() {
    let context = CaptureContext::new();
    assert_eq!(context.phase(), Phase::Detached);
    assert_eq!(context.module(), None);
    assert_eq!(context.label(), None);
    assert_eq!(context.pointer_handle(), None);
    assert_eq!(context.window_handle(), None);
    assert_eq!(context.pending(), None);
}

#[test]
fn attach_records_module_and_label() {
    let context = attached();
    assert_eq!(context.phase(), Phase::Attached);
    assert_eq!(context.module(), Some(0x4000));
    assert_eq!(context.label(), Some("target.exe"));
}

#[test]
fn the_first_attach_wins() {
    let mut context = attached();
    context.record_attach(0x5000, Some("other.exe".to_string()));
    assert_eq!(context.module(), Some(0x4000));
    assert_eq!(context.label(), Some("target.exe"));
    let mut unlabelled = CaptureContext::new();
    unlabelled.record_attach(7, None);
    unlabelled.record_attach(8, Some("late.exe".to_string()));
    assert_eq!(unlabelled.module(), Some(7));
    assert_eq!(unlabelled.label(), None);
}

#[test]
fn attach_takes_the_file_name_as_label() {
    let mut context = CaptureContext::new();
    let message = context.attach(4194304, 1234, Some("/opt/target/app"));
    assert_eq!(
        message,
        "We've loaded the library. as instance 4194304 (pid: 1234) from \"/opt/target/app\""
    );
    assert_eq!(context.phase(), Phase::Attached);
    assert_eq!(context.module(), Some(4194304));
    assert_eq!(context.label(), Some("app"));
}

#[test]
fn attach_without_a_path_has_no_label() {
    let mut context = CaptureContext::new();
    let message = context.attach(99, 7, None);
    assert_eq!(message, "We've loaded the library. as instance 99 (pid: 7)");
    assert_eq!(context.phase(), Phase::Attached);
    assert_eq!(context.module(), Some(99));
    assert_eq!(context.label(), None);
}

#[test]
fn a_later_attach_still_returns_its_line() {
    let mut context = attached();
    let message = context.attach(1, 2, None);
    assert_eq!(message, "We've loaded the library. as instance 1 (pid: 2)");
    assert_eq!(context.module(), Some(0x4000));
    assert_eq!(context.label(), Some("target.exe"));
}

#[test]
fn loaded_message_texts() {
    assert_eq!(
        write_loaded_message(0, 0, None),
        "We've loaded the library. as instance 0 (pid: 0)"
    );
    assert_eq!(
        write_loaded_message(u64::MAX, u32::MAX, Some("C:\\Windows\\notepad.exe")),
        "We've loaded the library. as instance 18446744073709551615 (pid: 4294967295) from \"C:\\Windows\\notepad.exe\""
    );
}

#[test]
fn start_before_attach_is_refused() {
    let mut context = CaptureContext::new();
    assert_eq!(context.start_capture(), StartDecision::NotAttached);
    assert_eq!(context.phase(), Phase::Detached);
    assert_eq!(context.pending(), None);
}

#[test]
fn start_installs_both_registrations() {
    let mut context = attached();
    assert_eq!(context.start_capture(), StartDecision::Install { module: 0x4000 });
    assert_eq!(context.pending(), Some(Operation::Starting));
    assert_eq!(context.phase(), Phase::Attached);
    let report = context.complete_start(Some(11), Some(22));
    assert_eq!(report, StartReport::Installed { pointer: true, window: true });
    assert_eq!(context.phase(), Phase::Hooked);
    assert_eq!(context.pointer_handle(), Some(11));
    assert_eq!(context.window_handle(), Some(22));
    assert_eq!(context.pending(), None);
}

#[test]
fn a_failed_registration_leaves_the_other_in_place() {
    let mut context = attached();
    context.start_capture();
    let report = context.complete_start(None, Some(22));
    assert_eq!(report, StartReport::Installed { pointer: false, window: true });
    assert_eq!(context.phase(), Phase::Hooked);
    assert_eq!(context.pointer_handle(), None);
    assert_eq!(context.window_handle(), Some(22));
    let mut other = attached();
    other.start_capture();
    let report = other.complete_start(Some(11), None);
    assert_eq!(report, StartReport::Installed { pointer: true, window: false });
    assert_eq!(other.pointer_handle(), Some(11));
    assert_eq!(other.window_handle(), None);
}

#[test]
fn a_second_start_installs_nothing() {
    let mut context = hooked(Some(11), Some(22));
    assert_eq!(context.start_capture(), StartDecision::AlreadyHooked);
    assert_eq!(context.pending(), None);
    assert_eq!(context.pointer_handle(), Some(11));
    assert_eq!(context.window_handle(), Some(22));
    assert_eq!(context.complete_start(Some(33), Some(44)), StartReport::NotStarting);
    assert_eq!(context.pointer_handle(), Some(11));
    assert_eq!(context.window_handle(), Some(22));
}

#[test]
fn a_start_during_a_start_is_busy() {
    let mut context = attached();
    assert_eq!(context.start_capture(), StartDecision::Install { module: 0x4000 });
    assert_eq!(context.start_capture(), StartDecision::Busy);
    assert_eq!(context.stop_capture(), StopDecision::Busy);
    assert_eq!(context.pending(), Some(Operation::Starting));
    context.complete_start(Some(1), Some(2));
    assert_eq!(context.start_capture(), StartDecision::AlreadyHooked);
}

#[test]
fn stop_without_registration_is_a_successful_no_op() {
    let mut fresh = CaptureContext::new();
    let decision = fresh.stop_capture();
    assert_eq!(decision, StopDecision::Nothing);
    assert_eq!(stop_status_code(decision), 0);
    assert_eq!(fresh.phase(), Phase::Detached);
    let mut context = attached();
    let decision = context.stop_capture();
    assert_eq!(decision, StopDecision::Nothing);
    assert_eq!(stop_status_code(decision), 0);
    assert_eq!(context.phase(), Phase::Attached);
    assert_eq!(context.pending(), None);
    assert_eq!(context.start_capture(), StartDecision::Install { module: 0x4000 });
}

#[test]
fn stop_after_a_start_that_installed_nothing_succeeds() {
    let mut context = hooked(None, None);
    let decision = context.stop_capture();
    assert_eq!(decision, StopDecision::Release { pointer: None, window: None });
    let report = context.complete_stop(false, false);
    assert_eq!(report, StopReport::Released { pointer_failed: false, window_failed: false });
    assert_eq!(stop_report_status_code(report), 0);
    assert_eq!(context.phase(), Phase::Final);
}

#[test]
fn stop_releases_what_is_installed() {
    let mut context = hooked(Some(11), Some(22));
    let decision = context.stop_capture();
    assert_eq!(decision, StopDecision::Release { pointer: Some(11), window: Some(22) });
    assert_eq!(context.pending(), Some(Operation::Stopping));
    let report = context.complete_stop(true, true);
    assert_eq!(report, StopReport::Released { pointer_failed: false, window_failed: false });
    assert_eq!(stop_report_status_code(report), 0);
    assert_eq!(context.phase(), Phase::Final);
    assert_eq!(context.pointer_handle(), None);
    assert_eq!(context.window_handle(), None);
    assert_eq!(context.pending(), None);
    assert_eq!(context.module(), Some(0x4000));
    assert_eq!(context.label(), Some("target.exe"));
}

#[test]
fn a_failed_release_is_reported_and_the_other_still_counts() {
    let mut context = hooked(Some(11), Some(22));
    context.stop_capture();
    let report = context.complete_stop(false, true);
    assert_eq!(report, StopReport::Released { pointer_failed: true, window_failed: false });
    assert_eq!(stop_report_status_code(report), 2);
    assert_eq!(context.phase(), Phase::Final);
    assert_eq!(context.pointer_handle(), None);
    let mut partial = hooked(None, Some(22));
    assert_eq!(partial.stop_capture(), StopDecision::Release { pointer: None, window: Some(22) });
    let report = partial.complete_stop(false, false);
    assert_eq!(report, StopReport::Released { pointer_failed: false, window_failed: true });
    assert_eq!(stop_report_status_code(report), 4);
}

#[test]
fn handles_are_released_once() {
    let mut context = hooked(Some(11), Some(22));
    context.stop_capture();
    context.complete_stop(true, true);
    assert_eq!(context.stop_capture(), StopDecision::Nothing);
    assert_eq!(context.complete_stop(true, true), StopReport::NotStopping);
    assert_eq!(context.start_capture(), StartDecision::NotAttached);
    assert_eq!(context.phase(), Phase::Final);
}

#[test]
fn a_stop_during_a_stop_is_busy() {
    let mut context = hooked(Some(11), Some(22));
    context.stop_capture();
    assert_eq!(context.stop_capture(), StopDecision::Busy);
    assert_eq!(context.start_capture(), StartDecision::Busy);
    assert_eq!(stop_status_code(StopDecision::Busy), 1);
    assert_eq!(start_status_code(StartDecision::Busy), 1);
}

#[test]
fn completing_what_was_not_begun_changes_nothing() {
    let mut context = attached();
    assert_eq!(context.complete_start(Some(1), Some(2)), StartReport::NotStarting);
    assert_eq!(context.complete_stop(true, true), StopReport::NotStopping);
    assert_eq!(stop_report_status_code(StopReport::NotStopping), 1);
    assert_eq!(context.phase(), Phase::Attached);
    assert_eq!(context.pointer_handle(), None);
    assert_eq!(context.window_handle(), None);
    let mut starting = attached();
    starting.start_capture();
    assert_eq!(starting.complete_stop(true, true), StopReport::NotStopping);
    assert_eq!(starting.pending(), Some(Operation::Starting));
}

#[test]
fn detach_touches_nothing_that_was_recorded() {
    let mut context = hooked(Some(11), Some(22));
    context.detach();
    assert_eq!(context.module(), Some(0x4000));
    assert_eq!(context.label(), Some("target.exe"));
    assert_eq!(context.pointer_handle(), Some(11));
    assert_eq!(context.window_handle(), Some(22));
    assert_eq!(context.phase(), Phase::Final);
    let mut partial = hooked(None, Some(22));
    partial.detach();
    assert_eq!(partial.pointer_handle(), None);
    assert_eq!(partial.window_handle(), Some(22));
    let mut attached_only = attached();
    attached_only.detach();
    assert_eq!(attached_only.module(), Some(0x4000));
    assert_eq!(attached_only.label(), Some("target.exe"));
    assert_eq!(attached_only.pointer_handle(), None);
    assert_eq!(attached_only.window_handle(), None);
}

#[test]
fn nothing_is_handed_out_after_detach() {
    let mut context = hooked(Some(11), Some(22));
    context.detach();
    assert_eq!(context.stop_capture(), StopDecision::Nothing);
    assert_eq!(context.start_capture(), StartDecision::NotAttached);
    assert_eq!(context.pointer_handle(), Some(11));
    assert_eq!(context.window_handle(), Some(22));
    context.detach();
    assert_eq!(context.phase(), Phase::Final);
    assert_eq!(context.pointer_handle(), Some(11));
    let mut fresh = CaptureContext::new();
    fresh.detach();
    assert_eq!(fresh.phase(), Phase::Final);
    fresh.record_attach(5, None);
    assert_eq!(fresh.module(), None);
    assert_eq!(fresh.phase(), Phase::Final);
}

#[test]
fn detach_ends_an_operation_that_is_under_way() {
    let mut starting = attached();
    starting.start_capture();
    starting.detach();
    assert_eq!(starting.pending(), None);
    assert_eq!(starting.complete_start(Some(1), Some(2)), StartReport::NotStarting);
    assert_eq!(starting.pointer_handle(), None);
    assert_eq!(starting.phase(), Phase::Final);
    let mut stopping = hooked(Some(11), Some(22));
    stopping.stop_capture();
    stopping.detach();
    assert_eq!(stopping.complete_stop(true, true), StopReport::NotStopping);
    assert_eq!(stopping.pointer_handle(), Some(11));
    assert_eq!(stopping.window_handle(), Some(22));
}

#[test]
fn a_failed_registration_has_a_status_of_its_own() {
    let busy = start_status_code(StartDecision::Busy);
    let mut both_failed = attached();
    both_failed.start_capture();
    let report = both_failed.complete_start(None, None);
    assert_eq!(report, StartReport::Installed { pointer: false, window: false });
    assert_eq!(both_failed.phase(), Phase::Hooked);
    let failed = start_report_status_code(report);
    assert_eq!(failed, 6);
    assert_ne!(failed, 0);
    assert_ne!(busy, 0);
    assert_ne!(failed, busy);
    assert_eq!(
        start_report_status_code(StartReport::Installed { pointer: true, window: true }),
        0
    );
    assert_eq!(
        start_report_status_code(StartReport::Installed { pointer: false, window: true }),
        2
    );
    assert_eq!(
        start_report_status_code(StartReport::Installed { pointer: true, window: false }),
        4
    );
    assert_eq!(start_report_status_code(StartReport::NotStarting), 1);
}

#[test]
fn status_constants() {
    assert_eq!(STATUS_OK, 0);
    assert_eq!(STATUS_REFUSED, 1);
    assert_eq!(STATUS_POINTER_FAILED, 2);
    assert_eq!(STATUS_WINDOW_FAILED, 4);
}

#[test]
fn the_label_is_a_part_of_the_path() {
    for path in ["/opt/target/app", "app.exe", "dir/sub/tool.bin", "/trailing/dir/", "a/b/../c"] {
        let mut context = CaptureContext::new();
        context.attach(1, 2, Some(path));
        if let Some(label) = context.label() {
            assert!(path.contains(label));
            assert!(!label.contains('\0'));
        }
    }
}

#[test]
fn status_codes() {
    assert_eq!(start_status_code(StartDecision::Install { module: 1 }), 0);
    assert_eq!(start_status_code(StartDecision::AlreadyHooked), 0);
    assert_eq!(start_status_code(StartDecision::NotAttached), 1);
    assert_eq!(start_status_code(StartDecision::Busy), 1);
    assert_eq!(stop_status_code(StopDecision::Nothing), 0);
    assert_eq!(stop_status_code(StopDecision::Release { pointer: Some(1), window: None }), 0);
    assert_eq!(
        stop_report_status_code(StopReport::Released { pointer_failed: false, window_failed: true }),
        4
    );
    assert_eq!(
        stop_report_status_code(StopReport::Released { pointer_failed: true, window_failed: true }),
        6
    );
}
