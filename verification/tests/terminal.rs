use xerve::terminal::{Terminal, MAX_LOGS};

#[test]
fn new_terminal_is_empty() {
    let terminal = Terminal::new();
    assert_eq!(terminal.len(), 0);
    assert!(terminal.get_logs().is_empty());
}

#[test]
fn lines_come_back_in_order() {
    let mut terminal = Terminal::new();
    terminal.add_log("first".to_string());
    terminal.add_log("second".to_string());
    terminal.add_log("third".to_string());
    assert_eq!(terminal.get_logs(), vec!["first", "second", "third"]);
}

#[test]
fn cap_is_one_thousand() {
    assert_eq!(MAX_LOGS, 1000);
}

#[test]
fn exactly_the_cap_is_kept_whole() {
    let mut terminal = Terminal::new();
    for i in 0..1000 {
        terminal.add_log(format!("line {}", i));
    }
    let logs = terminal.get_logs();
    assert_eq!(logs.len(), 1000);
    assert_eq!(logs[0], "line 0");
    assert_eq!(logs[999], "line 999");
}

#[test]
fn one_over_the_cap_drops_the_oldest() {
    let mut terminal = Terminal::new();
    for i in 0..1001 {
        terminal.add_log(format!("line {}", i));
    }
    let logs = terminal.get_logs();
    assert_eq!(logs.len(), 1000);
    assert_eq!(logs[0], "line 1");
    assert_eq!(logs[999], "line 1000");
}

#[test]
fn fifteen_hundred_messages_leave_the_last_thousand() {
    let mut terminal = Terminal::new();
    for i in 0..1500 {
        terminal.add_log(format!("message {}", i));
    }
    let logs = terminal.get_logs();
    assert_eq!(logs.len(), 1000);
    for (k, line) in logs.iter().enumerate() {
        assert_eq!(line, &format!("message {}", k + 500));
    }
}

#[test]
fn a_batch_is_logged_like_its_lines_in_turn() {
    let batch: Vec<String> = (0..1500).map(|i| format!("message {}", i)).collect();
    let mut one_by_one = Terminal::new();
    for line in &batch {
        one_by_one.add_log(line.clone());
    }
    let mut at_once = Terminal::new();
    at_once.add_log("before".to_string());
    at_once.add_logs(batch);
    assert_eq!(at_once.get_logs(), one_by_one.get_logs());
    assert_eq!(at_once.len(), 1000);
}

#[test]
fn a_short_batch_keeps_what_was_there() {
    let mut terminal = Terminal::new();
    terminal.add_log("a".to_string());
    terminal.add_logs(vec!["b".to_string(), "c".to_string()]);
    terminal.add_logs(Vec::new());
    assert_eq!(terminal.get_logs(), vec!["a", "b", "c"]);
}

#[test]
fn get_logs_is_a_snapshot() {
    let mut terminal = Terminal::new();
    terminal.add_log("kept".to_string());
    let snapshot = terminal.get_logs();
    terminal.add_log("later".to_string());
    assert_eq!(snapshot, vec!["kept"]);
    assert_eq!(terminal.len(), 2);
}
