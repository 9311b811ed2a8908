use weave_manager::paths::{
    get_weave_directory, get_weave_logs_path, join_path, log_file_path, timestamp_text,
    LocalTime,
};

fn time(year: i32, month: u32, day: u32, hour: u32, minute: u32, second: u32) -> LocalTime {
    LocalTime { year, month, day, hour, minute, second }
}

#[test]
fn weave_directories() {
    assert_eq!(get_weave_directory("/home/u"), "/home/u/.weave");
    assert_eq!(get_weave_directory("/home/u/"), "/home/u/.weave");
    assert_eq!(get_weave_logs_path("/home/u"), "/home/u/.weave/logs");
}

#[test]
fn join_of_empty_base() {
    assert_eq!(join_path("", "logs"), "logs");
    assert_eq!(join_path("/", "logs"), "/logs");
}

#[test]
fn timestamp_is_zero_padded() {
    assert_eq!(timestamp_text(&time(2023, 7, 4, 9, 5, 3)), "2023-07-04-090503");
    assert_eq!(timestamp_text(&time(2024, 12, 31, 23, 59, 59)), "2024-12-31-235959");
}

#[test]
fn timestamp_of_unusual_years() {
    assert_eq!(timestamp_text(&time(987, 1, 1, 0, 0, 0)), "0987-01-01-000000");
    assert_eq!(timestamp_text(&time(12345, 1, 1, 0, 0, 0)), "+12345-01-01-000000");
    assert_eq!(timestamp_text(&time(-44, 3, 15, 12, 0, 0)), "-0044-03-15-120000");
}

#[test]
fn log_path_of_session() {
    let p = log_file_path("/home/u/.weave/logs", &time(2023, 11, 2, 18, 30, 7));
    assert_eq!(p, "/home/u/.weave/logs/2023-11-02-183007.log");
}
