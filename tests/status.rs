use obsidian::battery::{
    capacity_from_text, capacity_from_trimmed, charging_from_text, charging_from_trimmed, AcpiError,
    Battery,
};
use obsidian::clock::Clock;
use obsidian::config::MpdConfig;
use obsidian::decimal::parse_usize;
use obsidian::monitor::{DisplayLocation, Relevance};
use obsidian::music::{player_color, song_text, PlayerState};

#[test]
fn decimal_numbers() {
    assert_eq!(parse_usize("0"), Some(0));
    assert_eq!(parse_usize("+42"), Some(42));
    assert_eq!(parse_usize(""), None);
    assert_eq!(parse_usize("+"), None);
    assert_eq!(parse_usize("-1"), None);
    assert_eq!(parse_usize("4 2"), None);
    assert_eq!(parse_usize("18446744073709551615"), Some(usize::MAX));
    assert_eq!(parse_usize("18446744073709551616"), None);
}

#[test]
fn battery_capacity_text() {
    assert_eq!(capacity_from_text("57\n"), Some(57));
    assert_eq!(capacity_from_text("  100 "), Some(100));
    assert_eq!(capacity_from_text("256\n"), None);
    assert_eq!(capacity_from_text("full\n"), None);
    assert_eq!(capacity_from_trimmed("7"), Some(7));
    assert_eq!(capacity_from_trimmed("7\n"), None);
}

#[test]
fn battery_status_text() {
    assert!(charging_from_text("Charging\n"));
    assert!(charging_from_text("Full\n"));
    assert!(!charging_from_text("Discharging\n"));
    assert!(charging_from_trimmed("Full"));
    assert!(!charging_from_trimmed("Full\n"));
}

#[test]
fn battery_display() {
    let mut b = Battery::new("/sys/class/power_supply/BAT0".to_string());
    assert_eq!(b.capacity, 0);
    assert!(!b.charging);
    b.capacity = 15;
    assert_eq!(b.color_name(), "red");
    assert_eq!(b.relevance(), Relevance::Urgent);
    b.capacity = 40;
    assert_eq!(b.color_name(), "yellow");
    assert_eq!(b.relevance(), Relevance::Background);
    b.capacity = 41;
    assert_eq!(b.color_name(), "green");
    assert_eq!(b.text(), "false 41");
    b.charging = true;
    assert_eq!(b.color_name(), "blue");
    assert_eq!(b.text(), "true 41");
}

#[test]
fn battery_acpi_events() {
    let mut b = Battery::new("/sys/class/power_supply/BAT0".to_string());
    assert_eq!(b.apply_acpi_line("ac_adapter ACPI0003:00 00000080 00000001"), Ok(()));
    assert!(b.charging);
    assert_eq!(b.apply_acpi_line("button/lid LID close 00000000"), Ok(()));
    assert!(b.charging);
    assert_eq!(b.apply_acpi_line("ac_adapter ACPI0003:00 00000080 00000000"), Ok(()));
    assert!(!b.charging);
    assert_eq!(b.apply_acpi_line("ac_adapter ACPI0003:00 00000080"), Err(AcpiError::Malformed));
    assert_eq!(b.apply_acpi_line("ac_adapter a b c d"), Err(AcpiError::Malformed));
    assert_eq!(b.apply_acpi_line("ac_adapter  00000080 0"), Ok(()));
    assert_eq!(b.apply_acpi_line("ac_adapter ACPI0003:00 00000080 on"), Err(AcpiError::BadValue));
    assert!(!b.charging);
}

#[test]
fn clock_display() {
    assert_eq!(Clock::text(0, 5, 9, 7), "Sun 5 09:07");
    assert_eq!(Clock::text(6, 31, 23, 59), "Sat 31 23:59");
    assert_eq!(Clock::weekday_name(3), "Wed");
    assert_eq!(Clock::color_name(0), "cyan");
    assert_eq!(Clock::color_name(6), "blue");
    assert_eq!(Clock::color_name(17), "green");
    assert_eq!(Clock::color_name(23), "yellow");
    assert_eq!(Clock::delay_to_next_minute(30, 250_000_000), (29, 750_000_000));
    assert_eq!(Clock::default(), Clock);
}

#[test]
fn relevance_decides_location() {
    assert_eq!(DisplayLocation::for_relevance(Relevance::Urgent), DisplayLocation::Bar);
    assert_eq!(DisplayLocation::for_relevance(Relevance::Background), DisplayLocation::Popup);
}

#[test]
fn mpd_settings() {
    let c = MpdConfig::new("localhost".to_string(), 6600);
    assert_eq!(c.host, "localhost");
    assert_eq!(c.port, 6600);
}

#[test]
fn music_display() {
    assert_eq!(song_text(Some("Boards of Canada"), Some("Roygbiv"), "boc/roygbiv.flac"), "Boards of Canada - Roygbiv");
    assert_eq!(song_text(Some("Unknown"), None, "x.ogg"), "Unknown - <no title>");
    assert_eq!(song_text(None, Some("Roygbiv"), "boc/roygbiv.flac"), "boc/roygbiv.flac");
    assert_eq!(player_color(PlayerState::Stop), None);
    assert_eq!(player_color(PlayerState::Play), Some("green"));
    assert_eq!(player_color(PlayerState::Pause), Some("yellow"));
}
