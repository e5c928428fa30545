use shortcuts::event::InputEvent;
use shortcuts::multiplexer::{
    classify_read, dispatch_order, readiness_bound, session_exit_code, DeviceRead, EngineRun,
    LoopFlags, ReadAction, RunAction, SessionEnd, EXIT_CODE_FATAL, EXIT_CODE_OK,
};

#[test]
fn fresh_flags_request_nothing() {
    let flags = LoopFlags::new();
    assert!(!flags.exit_requested);
    assert!(!flags.reload_requested);
    assert_eq!(flags.poll_control(), None);
}

#[test]
fn exit_request_ends_the_session() {
    let mut flags = LoopFlags::new();
    flags.request_exit();
    assert_eq!(flags.poll_control(), Some(SessionEnd::ExitRequested));
}

#[test]
fn reload_request_ends_the_session() {
    let mut flags = LoopFlags::new();
    flags.request_reload();
    assert_eq!(flags.poll_control(), Some(SessionEnd::ReloadRequested));
}

#[test]
fn exit_takes_priority_over_reload() {
    let mut flags = LoopFlags::new();
    flags.request_reload();
    flags.request_exit();
    assert_eq!(flags.poll_control(), Some(SessionEnd::ExitRequested));
}

#[test]
fn ready_devices_are_serviced_in_ascending_order() {
    let ready = vec![false, true, true, false, true];
    assert_eq!(dispatch_order(&ready), vec![1, 2, 4]);
}

#[test]
fn no_ready_device_dispatches_nothing() {
    assert_eq!(dispatch_order(&vec![false, false, false]), Vec::<usize>::new());
    assert_eq!(dispatch_order(&vec![]), Vec::<usize>::new());
}

#[test]
fn every_ready_device_is_serviced_exactly_once() {
    let ready = vec![true; 6];
    assert_eq!(dispatch_order(&ready), vec![0, 1, 2, 3, 4, 5]);
}

#[test]
fn failed_read_is_fatal() {
    assert_eq!(classify_read(&DeviceRead::Failed(5)), ReadAction::Fatal(5));
}

#[test]
fn short_read_invokes_no_callback() {
    for n in 0..24usize {
        let read = DeviceRead::Data(vec![1u8; n]);
        assert_eq!(classify_read(&read), ReadAction::Skip);
    }
}

#[test]
fn full_read_dispatches_its_event() {
    let mut data = vec![0u8; 16];
    data.extend_from_slice(&[1, 0, 30, 0, 1, 0, 0, 0]);
    let expected = InputEvent { ty: 1, code: 30, value: 1 };
    assert_eq!(classify_read(&DeviceRead::Data(data)), ReadAction::Dispatch(expected));
}

#[test]
fn reload_keeps_devices_and_virtual_device() {
    let mut run = EngineRun::new(vec![4, 5]);
    let action = run.on_session_end(SessionEnd::ReloadRequested);
    assert_eq!(action, RunAction::Restart);
    assert_eq!(run.devices, vec![4, 5]);
    assert!(!run.virtual_device_destroyed);
    let again = run.on_session_end(SessionEnd::ReloadRequested);
    assert_eq!(again, RunAction::Restart);
    assert_eq!(run.devices, vec![4, 5]);
    assert!(!run.virtual_device_destroyed);
}

#[test]
fn requested_exit_tears_down_once_and_exits_zero() {
    let mut run = EngineRun::new(vec![4]);
    let action = run.on_session_end(SessionEnd::ExitRequested);
    assert_eq!(action, RunAction::DestroyAndExit);
    assert!(run.virtual_device_destroyed);
    assert_eq!(session_exit_code(&SessionEnd::ExitRequested), EXIT_CODE_OK);
}

#[test]
fn failure_tears_down_and_exits_one() {
    let mut run = EngineRun::new(vec![]);
    let action = run.on_session_end(SessionEnd::Failed);
    assert_eq!(action, RunAction::DestroyAndFail);
    assert!(run.virtual_device_destroyed);
    assert_eq!(session_exit_code(&SessionEnd::Failed), EXIT_CODE_FATAL);
}

#[test]
fn readiness_bound_is_one_past_largest_descriptor() {
    assert_eq!(readiness_bound(&vec![]), 1);
    assert_eq!(readiness_bound(&vec![3]), 4);
    assert_eq!(readiness_bound(&vec![7, 3, 5]), 8);
}
