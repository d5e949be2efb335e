use xerve::status::{ServiceState, Status};
use xerve::text::{decimal_text, join2, join3, join4, same_text};

#[test]
fn numbers_are_written_in_base_ten() {
    assert_eq!(decimal_text(0), "0");
    assert_eq!(decimal_text(7), "7");
    assert_eq!(decimal_text(10), "10");
    assert_eq!(decimal_text(4242), "4242");
    assert_eq!(decimal_text(1_000_000), "1000000");
    assert_eq!(decimal_text(u32::MAX as u64), "4294967295");
    assert_eq!(decimal_text(u64::MAX), "18446744073709551615");
}

#[test]
fn decimal_text_agrees_with_the_standard_library() {
    for n in [1u64, 9, 11, 99, 100, 101, 65535, 123456789, 9_999_999_999] {
        assert_eq!(decimal_text(n), n.to_string());
    }
}

#[test]
fn texts_are_joined_in_order() {
    assert_eq!(join2("a", "b"), "ab");
    assert_eq!(join3("a", "", "c"), "ac");
    assert_eq!(join4("[", "Nginx", "] ", "ready"), "[Nginx] ready");
}

#[test]
fn same_text_compares_characters() {
    assert!(same_text("Nginx", "Nginx"));
    assert!(!same_text("Nginx", "nginx"));
    assert!(!same_text("Nginx", "Nginx "));
    assert!(same_text("", ""));
}

#[test]
fn status_words_read_back() {
    for status in [Status::Stopped, Status::Running, Status::Error] {
        assert_eq!(Status::parse(status.as_str()), status);
    }
    assert_eq!(Status::Running.as_str(), "Running");
    assert_eq!(Status::Stopped.as_str(), "Stopped");
    assert_eq!(Status::Error.as_str(), "Error");
}

#[test]
fn unknown_status_words_mean_error() {
    assert_eq!(Status::parse("running"), Status::Error);
    assert_eq!(Status::parse(""), Status::Error);
    assert_eq!(Status::parse("Starting"), Status::Error);
}

#[test]
fn a_record_keeps_a_process_only_while_running() {
    let mut state = ServiceState::new(Status::Stopped);
    assert_eq!(state.get_status(), Status::Stopped);
    assert_eq!(state.get_pid(), None);
    state.set_pid(Some(7));
    assert_eq!(state.get_pid(), None);
    state.set_status(Status::Running);
    state.set_pid(Some(7));
    assert_eq!(state.get_pid(), Some(7));
    state.set_status(Status::Running);
    assert_eq!(state.get_pid(), Some(7));
    state.set_status(Status::Error);
    assert_eq!(state.get_status(), Status::Error);
    assert_eq!(state.get_pid(), None);
    state.set_status(Status::Running);
    assert_eq!(state.get_pid(), None);
}

#[test]
fn a_record_that_cannot_be_read_counts_as_error() {
    let unread = ServiceState::fail_safe(None);
    assert_eq!(unread.get_status(), Status::Error);
    assert_eq!(unread.get_pid(), None);
    let mut running = ServiceState::new(Status::Running);
    running.set_pid(Some(12));
    let read = ServiceState::fail_safe(Some(running));
    assert_eq!(read.get_status(), Status::Running);
    assert_eq!(read.get_pid(), Some(12));
}
