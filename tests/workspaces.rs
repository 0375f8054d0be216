use obsidian::hit::{click, hit_test, switch_command};
use obsidian::ident::{parse_workspace_name, ParseError, WorkspaceId};
use obsidian::layout::{layout, required_width, Item, LayoutConstants};
use obsidian::reconcile::{reconcile, rejected_records, Entry, EntryState, WorkspaceRecord};
use obsidian::screens::{ConfigError, ScreenConfig};
use obsidian::snapshot::build_snapshot;

fn record(name: &str, focused: bool, visible: bool, urgent: bool) -> WorkspaceRecord {
    WorkspaceRecord { name: name.to_string(), focused, visible, urgent }
}

fn scenario_config() -> ScreenConfig {
    ScreenConfig::from_tables(&vec![1, 0, 2], &vec![4, 2, 1]).unwrap()
}

fn scenario_records() -> Vec<WorkspaceRecord> {
    vec![
        record("1-1", true, false, false),
        record("1-3", false, false, false),
        record("2-1", false, true, false),
    ]
}

fn constants() -> LayoutConstants {
    LayoutConstants { item_width: 35, item_padding: 6, screen_padding: 15, scale: 1 }
}

fn id(screen: usize, index: usize) -> WorkspaceId {
    WorkspaceId { screen, index }
}

fn item(screen: usize, index: usize, state: EntryState, start: u64, end: u64) -> Item {
    Item { workspace: id(screen, index), state, start, end }
}

fn scenario_snapshot() -> Vec<Item> {
    build_snapshot(&scenario_records(), &scenario_config(), constants()).unwrap()
}

#[test]
fn scenario_snapshot_matches() {
    let expected = vec![
        item(2, 1, EntryState::Visible, 0, 35),
        item(2, 2, EntryState::Phantom, 41, 76),
        item(1, 1, EntryState::Active, 97, 132),
        item(1, 2, EntryState::Phantom, 138, 173),
        item(1, 3, EntryState::Inhibited, 179, 214),
        item(1, 4, EntryState::Phantom, 220, 255),
        item(3, 1, EntryState::Phantom, 276, 311),
    ];
    let items = scenario_snapshot();
    assert_eq!(items, expected);
    assert_eq!(required_width(&items), 311);
}

#[test]
fn scenario_click_switches_workspace() {
    let items = scenario_snapshot();
    assert_eq!(hit_test(&items, 150), Some(id(1, 2)));
    assert_eq!(click(&items, 150), Some("workspace 1-2".to_string()));
}

#[test]
fn malformed_name_is_dropped() {
    let mut records = scenario_records();
    records.insert(1, record("x", false, true, true));
    assert_eq!(parse_workspace_name("x"), Err(ParseError::TooShort));
    let items = build_snapshot(&records, &scenario_config(), constants()).unwrap();
    assert_eq!(items, scenario_snapshot());
    assert_eq!(rejected_records(&records), vec![(1, ParseError::TooShort)]);
}

#[test]
fn parse_reads_screen_and_index() {
    assert_eq!(parse_workspace_name("1-2"), Ok(id(1, 2)));
    assert_eq!(parse_workspace_name("3:12"), Ok(id(3, 12)));
    assert_eq!(parse_workspace_name("2-+7"), Ok(id(2, 7)));
}

#[test]
fn parse_errors() {
    assert_eq!(parse_workspace_name(""), Err(ParseError::TooShort));
    assert_eq!(parse_workspace_name("12"), Err(ParseError::TooShort));
    assert_eq!(parse_workspace_name("é"), Err(ParseError::TooShort));
    assert_eq!(parse_workspace_name("é1"), Err(ParseError::NotSingleByte));
    assert_eq!(parse_workspace_name("1-é"), Err(ParseError::NotSingleByte));
    assert_eq!(parse_workspace_name("0-1"), Err(ParseError::InvalidScreen));
    assert_eq!(parse_workspace_name("a-1"), Err(ParseError::InvalidScreen));
    assert_eq!(parse_workspace_name("1-0"), Err(ParseError::InvalidIndex));
    assert_eq!(parse_workspace_name("1-x"), Err(ParseError::InvalidIndex));
    assert_eq!(parse_workspace_name("1--3"), Err(ParseError::InvalidIndex));
    assert_eq!(parse_workspace_name("1-99999999999999999999999"), Err(ParseError::InvalidIndex));
}

#[test]
fn config_errors() {
    assert!(matches!(
        ScreenConfig::from_tables(&vec![0, 1], &vec![1]),
        Err(ConfigError::LengthMismatch)
    ));
    assert!(matches!(
        ScreenConfig::from_tables(&vec![0, 1], &vec![1, 0]),
        Err(ConfigError::ZeroMinimum)
    ));
    assert!(matches!(
        ScreenConfig::from_tables(&vec![0, 0], &vec![1, 1]),
        Err(ConfigError::NotPermutation)
    ));
    assert!(matches!(
        ScreenConfig::from_tables(&vec![0, 2], &vec![1, 1]),
        Err(ConfigError::NotPermutation)
    ));
}

#[test]
fn config_orders_screens_by_rank() {
    let config = scenario_config();
    let screens: Vec<(usize, usize)> = config.slots.iter().map(|s| (s.screen, s.minimum)).collect();
    assert_eq!(screens, vec![(2, 2), (1, 4), (3, 1)]);
}

#[test]
fn empty_config_gives_empty_snapshot() {
    let config = ScreenConfig::from_tables(&vec![], &vec![]).unwrap();
    let items = build_snapshot(&scenario_records(), &config, constants()).unwrap();
    assert!(items.is_empty());
    assert_eq!(required_width(&items), 0);
    assert_eq!(hit_test(&items, 0), None);
    assert_eq!(click(&items, 10), None);
}

#[test]
fn screen_without_records_gets_placeholders() {
    let entries = reconcile(&vec![], &scenario_config());
    let ids: Vec<(usize, usize)> = entries.iter().map(|e| (e.id.screen, e.id.index)).collect();
    assert_eq!(ids, vec![(2, 1), (2, 2), (1, 1), (1, 2), (1, 3), (1, 4), (3, 1)]);
    assert!(entries.iter().all(|e| e.state == EntryState::Phantom));
}

#[test]
fn records_beyond_minimum_extend_the_screen() {
    let records = vec![record("3-3", false, false, true), record("9-1", true, false, false)];
    let entries = reconcile(&records, &scenario_config());
    let tail: Vec<Entry> = entries[6..].to_vec();
    assert_eq!(
        tail,
        vec![
            Entry { id: id(3, 1), state: EntryState::Phantom },
            Entry { id: id(3, 2), state: EntryState::Phantom },
            Entry { id: id(3, 3), state: EntryState::Urgent },
        ]
    );
    assert_eq!(entries.len(), 9);
}

#[test]
fn state_precedence() {
    let records = vec![
        record("1-1", true, true, true),
        record("1-2", true, true, false),
        record("1-3", false, true, false),
        record("1-4", false, false, false),
    ];
    let config = ScreenConfig::from_tables(&vec![0], &vec![5]).unwrap();
    let states: Vec<EntryState> = reconcile(&records, &config).iter().map(|e| e.state).collect();
    assert_eq!(
        states,
        vec![
            EntryState::Urgent,
            EntryState::Active,
            EntryState::Visible,
            EntryState::Inhibited,
            EntryState::Phantom
        ]
    );
}

#[test]
fn duplicate_reports_keep_strongest_state() {
    let records = vec![record("1-1", false, true, false), record("1-1", false, false, false)];
    let config = ScreenConfig::from_tables(&vec![0], &vec![1]).unwrap();
    let entries = reconcile(&records, &config);
    assert_eq!(entries, vec![Entry { id: id(1, 1), state: EntryState::Visible }]);
}

#[test]
fn snapshot_is_repeatable() {
    assert_eq!(scenario_snapshot(), scenario_snapshot());
}

#[test]
fn intervals_are_disjoint_and_spaced() {
    let items = scenario_snapshot();
    for pair in items.windows(2) {
        assert_eq!(pair[0].end - pair[0].start, 35);
        let space = pair[1].start - pair[0].end;
        if pair[0].workspace.screen == pair[1].workspace.screen {
            assert_eq!(space, 6);
        } else {
            assert_eq!(space, 21);
        }
    }
}

#[test]
fn scaled_layout() {
    let entries = reconcile(&scenario_records(), &scenario_config());
    let c = LayoutConstants { item_width: 35, item_padding: 6, screen_padding: 15, scale: 2 };
    let items = layout(&entries, c);
    assert_eq!((items[0].start, items[0].end), (0, 70));
    assert_eq!((items[2].start, items[2].end), (194, 264));
    assert_eq!(required_width(&items), 622);
}

#[test]
fn hits_inside_and_between_intervals() {
    let items = scenario_snapshot();
    assert_eq!(hit_test(&items, 0), Some(id(2, 1)));
    assert_eq!(hit_test(&items, 34), Some(id(2, 1)));
    assert_eq!(hit_test(&items, 35), None);
    assert_eq!(hit_test(&items, 40), None);
    assert_eq!(hit_test(&items, 41), Some(id(2, 2)));
    assert_eq!(hit_test(&items, 90), None);
    assert_eq!(hit_test(&items, 310), Some(id(3, 1)));
    assert_eq!(hit_test(&items, 311), None);
}

#[test]
fn layout_that_does_not_fit_is_refused() {
    let c = LayoutConstants { item_width: u64::MAX, item_padding: 1, screen_padding: 0, scale: 1 };
    assert!(!c.fits(1));
    assert!(c.fits(0));
    assert!(build_snapshot(&scenario_records(), &scenario_config(), c).is_none());
}

#[test]
fn switch_command_text() {
    assert_eq!(switch_command(id(1, 2)), "workspace 1-2");
    assert_eq!(switch_command(id(9, 105)), "workspace 9-105");
}
