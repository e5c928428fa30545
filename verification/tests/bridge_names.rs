use shortcuts::bridge::{
    capability_name, entry_point_name, startup_entry_check, Capability, EntryPoint,
};

#[test]
fn capability_globals_are_stable() {
    assert_eq!(capability_name(&Capability::SendEvent), "__send_event");
    assert_eq!(capability_name(&Capability::Execute), "__async_execute");
    assert_eq!(capability_name(&Capability::WriteStdin), "__process_write_stdin");
    assert_eq!(capability_name(&Capability::Reload), "__reload");
    assert_eq!(capability_name(&Capability::Exit), "__exit");
}

#[test]
fn entry_point_globals_are_stable() {
    assert_eq!(entry_point_name(&EntryPoint::OnEvent), "__on_event");
    assert_eq!(entry_point_name(&EntryPoint::ExecCallback), "__exec_callback");
}

#[test]
fn both_entry_points_present_passes_startup() {
    assert_eq!(startup_entry_check(true, true), Ok(()));
}

#[test]
fn missing_event_callback_is_named_first() {
    assert_eq!(startup_entry_check(false, true), Err(EntryPoint::OnEvent));
    assert_eq!(startup_entry_check(false, false), Err(EntryPoint::OnEvent));
}

#[test]
fn missing_completion_callback_is_named() {
    assert_eq!(startup_entry_check(true, false), Err(EntryPoint::ExecCallback));
}
