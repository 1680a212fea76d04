use pty_terminal::events::{decimal_text, ExitOutcome, ReadOutcome, READ_CHUNK_SIZE};
use pty_terminal::log::{CommandStream, TerminalLog};
use pty_terminal::session::TaskSlots;

#[test]
fn read_bytes_are_appended_as_output() {
    let mut log = TerminalLog::new();
    let more = log.record_read(&ReadOutcome::Bytes(b"hello\n".to_vec()));
    assert!(more);
    assert_eq!(log.as_str(), "hello\n");
}

#[test]
fn zero_byte_read_ends_reader_without_output() {
    let mut log = TerminalLog::new();
    log.push_output(CommandStream::Stdout, "before");
    let more = log.record_read(&ReadOutcome::Bytes(Vec::new()));
    assert!(!more);
    assert_eq!(log.as_str(), "before");
}

#[test]
fn invalid_bytes_are_replaced_not_rejected() {
    let mut log = TerminalLog::new();
    let more = log.record_read(&ReadOutcome::Bytes(vec![0x61, 0xff, 0x62, 0xfe]));
    assert!(more);
    assert_eq!(log.as_str(), "a\u{FFFD}b\u{FFFD}");
}

#[test]
fn multibyte_text_is_decoded() {
    let mut log = TerminalLog::new();
    let more = log.record_read(&ReadOutcome::Bytes("é✓".as_bytes().to_vec()));
    assert!(more);
    assert_eq!(log.as_str(), "é✓");
}

#[test]
fn full_chunk_is_appended() {
    let mut log = TerminalLog::new();
    let more = log.record_read(&ReadOutcome::Bytes(vec![b'z'; READ_CHUNK_SIZE]));
    assert!(more);
    assert_eq!(log.as_str().len(), 4096);
}

#[test]
fn read_failure_is_reported_and_ends_reader() {
    let mut log = TerminalLog::new();
    log.push_output(CommandStream::Stdout, "partial");
    let more = log.record_read(&ReadOutcome::Failed(String::from("Input/output error")));
    assert!(!more);
    assert_eq!(log.as_str(), "partial\n[stderr]\nreader error: Input/output error\n");
}

#[test]
fn successful_exit_is_recorded_as_output() {
    let mut log = TerminalLog::new();
    log.record_exit(&ExitOutcome::Exited { success: true, code: 0 });
    assert_eq!(log.as_str(), "Command completed successfully.\n");
}

#[test]
fn exit_code_two_is_recorded_as_diagnostic() {
    let mut log = TerminalLog::new();
    log.push_output(CommandStream::Stdout, "ffmpeg output\n");
    log.record_exit(&ExitOutcome::Exited { success: false, code: 2 });
    assert_eq!(
        log.as_str(),
        "ffmpeg output\n[stderr]\nCommand exited with status 2.\n"
    );
}

#[test]
fn large_exit_code_is_written_in_full() {
    let mut log = TerminalLog::new();
    log.record_exit(&ExitOutcome::Exited { success: false, code: 4294967295 });
    assert_eq!(log.as_str(), "\n[stderr]\nCommand exited with status 4294967295.\n");
}

#[test]
fn failed_wait_is_recorded_as_diagnostic() {
    let mut log = TerminalLog::new();
    log.record_exit(&ExitOutcome::WaitFailed(String::from("no child")));
    assert_eq!(log.as_str(), "\n[stderr]\nFailed to wait on command: no child\n");
}

#[test]
fn decimal_text_values() {
    assert_eq!(decimal_text(0), "0");
    assert_eq!(decimal_text(7), "7");
    assert_eq!(decimal_text(10), "10");
    assert_eq!(decimal_text(105), "105");
    assert_eq!(decimal_text(4294967295), "4294967295");
}

#[test]
fn lifecycle_notices() {
    let mut log = TerminalLog::new();
    log.record_ready();
    log.record_launch();
    log.record_spawn_failure("No such file or directory");
    assert_eq!(
        log.as_str(),
        "PTY initialized. Ready to attach commands.\nLaunching command...\n\
         [stderr]\nFailed to spawn command: No such file or directory\n"
    );
}

#[test]
fn slots_start_clear() {
    let slots: TaskSlots<u32> = TaskSlots::new();
    assert!(slots.clear());
}

#[test]
fn retire_hands_out_reader_then_waiter() {
    let mut slots: TaskSlots<&str> = TaskSlots::new();
    slots.install("reader", "waiter");
    assert!(!slots.clear());
    let handles = slots.retire();
    assert_eq!(handles, vec!["reader", "waiter"]);
    assert!(slots.clear());
    assert!(slots.retire().is_empty());
}

#[test]
fn second_launch_follows_first_completion() {
    let mut log = TerminalLog::new();
    let mut slots: TaskSlots<u32> = TaskSlots::new();
    log.record_launch();
    slots.install(1, 2);
    let more = log.record_read(&ReadOutcome::Bytes(b"first\n".to_vec()));
    assert!(more);
    log.record_read(&ReadOutcome::Bytes(Vec::new()));
    log.record_exit(&ExitOutcome::Exited { success: true, code: 0 });
    assert_eq!(slots.retire(), vec![1, 2]);
    assert!(slots.clear());
    log.record_launch();
    slots.install(3, 4);
    log.record_read(&ReadOutcome::Bytes(b"second\n".to_vec()));
    let text = log.as_str();
    let done = text.find("Command completed successfully.\n").unwrap();
    let second = text.find("second\n").unwrap();
    assert!(done < second);
    assert_eq!(
        text,
        "Launching command...\nfirst\nCommand completed successfully.\nLaunching command...\nsecond\n"
    );
}
