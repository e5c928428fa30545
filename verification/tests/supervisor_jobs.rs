use shortcuts::supervisor::{
    chunk_prefix, message_kind, spawn_failure_messages, stream_step, JobMessage, JobRegistry,
    JobStream, PipeRead, StreamStep, KIND_EXIT, KIND_STDERR, KIND_STDOUT,
};

#[test]
fn message_kinds_match_callback_tags() {
    assert_eq!(message_kind(&JobMessage::Exit(0)), KIND_EXIT);
    assert_eq!(message_kind(&JobMessage::Stdout(vec![1])), KIND_STDOUT);
    assert_eq!(message_kind(&JobMessage::Stderr(vec![2])), KIND_STDERR);
    assert_eq!(KIND_EXIT, 0);
    assert_eq!(KIND_STDOUT, 1);
    assert_eq!(KIND_STDERR, 2);
}

#[test]
fn spawn_failure_synthesizes_stderr_then_exit() {
    let description = b"No such file or directory (os error 2)".to_vec();
    let messages = spawn_failure_messages(2, description.clone(), Some(2));
    assert_eq!(messages.len(), 2);
    match &messages[0] {
        (JobMessage::Stderr(d), ident) => {
            assert_eq!(*ident, 2);
            assert_eq!(d, &description);
        }
        other => panic!("expected a stderr message first, got {:?}", other),
    }
    match &messages[1] {
        (JobMessage::Exit(code), ident) => {
            assert_eq!(*ident, 2);
            assert_eq!(*code, 2);
        }
        other => panic!("expected an exit message second, got {:?}", other),
    }
}

#[test]
fn spawn_failure_without_os_code_exits_one() {
    let messages = spawn_failure_messages(9, b"denied".to_vec(), None);
    match &messages[1] {
        (JobMessage::Exit(code), ident) => {
            assert_eq!(*ident, 9);
            assert_eq!(*code, 1);
        }
        other => panic!("expected an exit message second, got {:?}", other),
    }
}

#[test]
fn registry_starts_empty() {
    let registry: JobRegistry<i32> = JobRegistry::new();
    assert!(registry.lookup(1).is_none());
}

#[test]
fn registered_channel_is_found_under_its_ident() {
    let mut registry: JobRegistry<i32> = JobRegistry::new();
    registry.register(1, 101);
    registry.register(2, 202);
    assert_eq!(registry.lookup(1), Some(&101));
    assert_eq!(registry.lookup(2), Some(&202));
    assert_eq!(registry.lookup(3), None);
}

#[test]
fn respawn_under_same_ident_keeps_latest_channel() {
    let mut registry: JobRegistry<i32> = JobRegistry::new();
    registry.register(7, 100);
    registry.register(7, 200);
    assert_eq!(registry.lookup(7), Some(&200));
    assert_eq!(registry.deregister(7), Some(200));
    assert_eq!(registry.lookup(7), None);
}

#[test]
fn write_to_unknown_ident_finds_no_channel() {
    let mut registry: JobRegistry<i32> = JobRegistry::new();
    registry.register(1, 11);
    assert!(registry.lookup(42).is_none());
    assert_eq!(registry.deregister(42), None);
    assert_eq!(registry.lookup(1), Some(&11));
}

#[test]
fn deregister_hands_back_the_channel() {
    let mut registry: JobRegistry<i32> = JobRegistry::new();
    registry.register(3, 33);
    assert_eq!(registry.deregister(3), Some(33));
    assert_eq!(registry.deregister(3), None);
}

#[test]
fn stdout_chunk_is_forwarded_under_its_ident() {
    let step = stream_step(JobStream::Stdout, 1, PipeRead::Data(b"hi\n".to_vec()));
    match step {
        StreamStep::Emit((JobMessage::Stdout(d), ident)) => {
            assert_eq!(ident, 1);
            assert_eq!(d, b"hi\n".to_vec());
        }
        other => panic!("expected a stdout emission, got {:?}", other),
    }
}

#[test]
fn stderr_chunk_is_forwarded_under_its_ident() {
    let step = stream_step(JobStream::Stderr, 4, PipeRead::Data(b"oops".to_vec()));
    match step {
        StreamStep::Emit((JobMessage::Stderr(d), ident)) => {
            assert_eq!(ident, 4);
            assert_eq!(d, b"oops".to_vec());
        }
        other => panic!("expected a stderr emission, got {:?}", other),
    }
}

#[test]
fn zero_byte_read_pauses_interrupt_retries_failure_stops() {
    assert!(matches!(stream_step(JobStream::Stdout, 1, PipeRead::Empty), StreamStep::Pause));
    assert!(matches!(
        stream_step(JobStream::Stdout, 1, PipeRead::Interrupted),
        StreamStep::Retry
    ));
    assert!(matches!(stream_step(JobStream::Stdout, 1, PipeRead::Failed), StreamStep::Stop));
}

#[test]
fn chunk_prefix_takes_exactly_the_read_bytes() {
    let buf = vec![10u8, 20, 30, 40, 50];
    assert_eq!(chunk_prefix(&buf, 3), vec![10, 20, 30]);
    assert_eq!(chunk_prefix(&buf, 0), Vec::<u8>::new());
    assert_eq!(chunk_prefix(&buf, 5), buf);
}

#[test]
fn echo_job_reports_stdout_then_exit_zero() {
    // The supervised run of `/bin/echo hi` produces, in order, a stdout
    // chunk "hi\n" and an exit message with code zero; the callback sees
    // them under the job's ident with the stdout and exit tags.
    let ident = 1;
    let step = stream_step(JobStream::Stdout, ident, PipeRead::Data(b"hi\n".to_vec()));
    let first = match step {
        StreamStep::Emit(m) => m,
        other => panic!("expected an emission, got {:?}", other),
    };
    let second = (JobMessage::Exit(0), ident);
    assert_eq!(message_kind(&first.0), KIND_STDOUT);
    assert_eq!(first.1, ident);
    match &first.0 {
        JobMessage::Stdout(d) => assert_eq!(d, &b"hi\n".to_vec()),
        other => panic!("expected stdout payload, got {:?}", other),
    }
    assert_eq!(message_kind(&second.0), KIND_EXIT);
    match second.0 {
        JobMessage::Exit(code) => assert_eq!(code, 0),
        other => panic!("expected exit payload, got {:?}", other),
    }
}
