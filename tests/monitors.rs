use obsidian::board::MonitorBoard;
use obsidian::monitor::DisplayLocation;
use obsidian::usage::{meminfo_amount, memory_usage, percent_text, usage_color, volume_percent};

#[test]
fn meminfo_lines() {
    assert_eq!(meminfo_amount("MemTotal:       16318404 kB"), Some(16318404));
    assert_eq!(meminfo_amount("MemAvailable:\t 8000 kB"), Some(8000));
    assert_eq!(meminfo_amount("MemTotal:"), None);
    assert_eq!(meminfo_amount("MemTotal: lots kB"), None);
}

#[test]
fn memory_and_volume_percentages() {
    assert_eq!(memory_usage(16318404, 8000000), 51);
    assert_eq!(memory_usage(100, 100), 0);
    assert_eq!(memory_usage(3, 1), 67);
    assert_eq!(volume_percent(64, 0, 127), 50);
    assert_eq!(volume_percent(-10, -20, 0), 50);
    assert_eq!(volume_percent(0, 0, 87), 0);
}

#[test]
fn usage_bands_and_text() {
    assert_eq!(usage_color(0), "blue");
    assert_eq!(usage_color(20), "blue");
    assert_eq!(usage_color(21), "green");
    assert_eq!(usage_color(41), "yellow");
    assert_eq!(usage_color(85), "yellow");
    assert_eq!(usage_color(86), "red");
    assert_eq!(usage_color(-1), "red");
    assert_eq!(percent_text(42), "42%");
    assert_eq!(percent_text(0), "0%");
    assert_eq!(percent_text(-3), "-3%");
    assert_eq!(percent_text(i64::MIN), "-9223372036854775808%");
}

#[test]
fn board_shows_and_hides() {
    let mut board = MonitorBoard::new();
    board.recv_update(1, DisplayLocation::Bar);
    assert_eq!(board.locations, vec![None, Some(DisplayLocation::Bar)]);
    assert_eq!(board.displayed, vec![1]);
    board.recv_update(0, DisplayLocation::Popup);
    assert_eq!(board.displayed, vec![1]);
    board.recv_update(0, DisplayLocation::Bar);
    assert_eq!(board.displayed, vec![0, 1]);
    board.recv_update(1, DisplayLocation::Bar);
    assert_eq!(board.displayed, vec![0, 1]);
    board.recv_update(1, DisplayLocation::Popup);
    assert_eq!(board.displayed, vec![0]);
    board.recv_update(1, DisplayLocation::Hidden);
    assert_eq!(board.displayed, vec![0]);
    assert_eq!(
        board.locations,
        vec![Some(DisplayLocation::Bar), Some(DisplayLocation::Hidden)]
    );
}
