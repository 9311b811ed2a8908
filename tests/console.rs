use weave_manager::console::{
    log_record_of, multiplex, read_log_lines, route_line, should_forward, SelectionRegister,
    NO_SELECTION,
};

fn strings(v: &[&str]) -> Vec<String> {
    v.iter().map(|s| s.to_string()).collect()
}

#[test]
fn register_starts_empty_and_last_selection_wins() {
    let mut reg = SelectionRegister::new();
    assert_eq!(reg.current(), NO_SELECTION);
    reg.select(5);
    reg.select(9);
    assert_eq!(reg.current(), 9);
}

#[test]
fn forward_only_selected() {
    assert!(should_forward(3, 3));
    assert!(!should_forward(3, 4));
}

#[test]
fn route_of_selected_line() {
    let r = route_line(7, 7, "hello".to_string());
    assert_eq!(r.record, "hello\n");
    let p = r.forward.expect("forwarded");
    assert_eq!(p.line, "hello");
    assert_eq!(p.pid, 7);
}

#[test]
fn route_of_unselected_line_is_only_logged() {
    let r = route_line(7, 8, "hello".to_string());
    assert_eq!(r.record, "hello\n");
    assert!(r.forward.is_none());
}

#[test]
fn log_record_text() {
    assert_eq!(log_record_of(""), "\n");
    assert_eq!(log_record_of("[12:00] Loading"), "[12:00] Loading\n");
}

#[test]
fn unselected_stream_is_logged_not_forwarded() {
    let lines = strings(&["a", "b", "c"]);
    let r = multiplex(100, &lines, &vec![200, 200, 200]);
    assert!(r.emitted.is_empty());
    assert_eq!(r.log, "a\nb\nc\n");
    assert_eq!(read_log_lines(&r.log), lines);
}

#[test]
fn switching_selection_mid_stream() {
    let lines = strings(&["one", "two", "three", "four"]);
    let r = multiplex(9, &lines, &vec![4, 4, 9, 9]);
    let got: Vec<String> = r.emitted.iter().map(|p| p.line.clone()).collect();
    assert_eq!(got, strings(&["three", "four"]));
    assert!(r.emitted.iter().all(|p| p.pid == 9));
    assert_eq!(r.log, "one\ntwo\nthree\nfour\n");
}

#[test]
fn switching_selection_away() {
    let lines = strings(&["x", "y", "z"]);
    let r = multiplex(3, &lines, &vec![3, 0, 3]);
    let got: Vec<String> = r.emitted.iter().map(|p| p.line.clone()).collect();
    assert_eq!(got, strings(&["x", "z"]));
}

#[test]
fn log_round_trip() {
    let lines = strings(&["[main/INFO]: Setting user: Steve", "", "  indented", "ünïcödé ✓"]);
    let r = multiplex(1, &lines, &vec![0, 0, 0, 0]);
    assert_eq!(read_log_lines(&r.log), lines);
}

#[test]
fn reading_text_without_final_terminator() {
    assert_eq!(read_log_lines("a\nb"), strings(&["a", "b"]));
    assert_eq!(read_log_lines(""), Vec::<String>::new());
    assert_eq!(read_log_lines("\n\n"), strings(&["", ""]));
}
