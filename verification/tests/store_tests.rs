use dmbot::campaign::Campaign;
use dmbot::player::STARTING_HEALTH;
use dmbot::store::{AdvanceOutcome, CreateOutcome, JoinOutcome, SessionStore, StartOutcome};

fn store_with_roster(channel: &str, users: &[(&str, &str)]) -> SessionStore {
    let mut store = SessionStore::new();
    assert_eq!(store.create_if_absent(channel), CreateOutcome::Created);
    for (id, name) in users {
        match store.join(channel, id, name) {
            JoinOutcome::Joined(_) => {},
            other => panic!("expected a join, got {:?}", other),
        }
    }
    store
}

fn campaign<'a>(store: &'a SessionStore, channel: &str) -> &'a Campaign {
    store.find_by_channel(channel).expect("campaign must exist")
}

#[test]
fn create_then_create_again_is_already_exists() {
    let mut store = SessionStore::new();
    assert_eq!(store.create_if_absent("c1"), CreateOutcome::Created);
    assert_eq!(store.create_if_absent("c1"), CreateOutcome::AlreadyExists(false));
    assert_eq!(store.create_if_absent("c1"), CreateOutcome::AlreadyExists(false));
    let with_channel = store
        .campaigns
        .iter()
        .filter(|c| c.channel_id == "c1")
        .count();
    assert_eq!(with_channel, 1);
    assert_eq!(store.campaigns.len(), 1);
}

#[test]
fn repeated_creates_leave_one_created_outcome() {
    let mut store = SessionStore::new();
    let mut created = 0;
    let mut already = 0;
    for _ in 0..5 {
        match store.create_if_absent("c1") {
            CreateOutcome::Created => created += 1,
            CreateOutcome::AlreadyExists(active) => {
                assert!(!active);
                already += 1;
            },
        }
    }
    assert_eq!(created, 1);
    assert_eq!(already, 4);
    assert_eq!(store.campaigns.len(), 1);
}

#[test]
fn already_exists_reports_active_flag() {
    let mut store = store_with_roster("c1", &[("u1", "Alice")]);
    assert_eq!(store.start("c1"), StartOutcome::Started);
    assert_eq!(store.create_if_absent("c1"), CreateOutcome::AlreadyExists(true));
}

#[test]
fn new_campaign_is_inactive_and_empty() {
    let mut store = SessionStore::new();
    store.create_if_absent("c1");
    let c = campaign(&store, "c1");
    assert!(!c.active);
    assert!(c.players.is_empty());
    assert_eq!(c.channel_id, "c1");
    assert!(c.current_player.is_none());
}

#[test]
fn creates_for_distinct_channels_are_independent() {
    let mut store = SessionStore::new();
    assert_eq!(store.create_if_absent("c1"), CreateOutcome::Created);
    assert_eq!(store.create_if_absent("c2"), CreateOutcome::Created);
    assert_eq!(store.campaigns.len(), 2);
}

#[test]
fn join_appends_in_order_with_default_health() {
    let mut store = SessionStore::new();
    store.create_if_absent("c1");
    match store.join("c1", "u1", "Alice") {
        JoinOutcome::Joined(roster) => {
            assert_eq!(roster.len(), 1);
            assert_eq!(roster[0].id, "u1");
            assert_eq!(roster[0].display_name, "Alice");
            assert_eq!(roster[0].health, STARTING_HEALTH);
        },
        other => panic!("expected a join, got {:?}", other),
    }
    match store.join("c1", "u2", "Bob") {
        JoinOutcome::Joined(roster) => {
            assert_eq!(roster.len(), 2);
            assert_eq!(roster[0].display_name, "Alice");
            assert_eq!(roster[1].display_name, "Bob");
        },
        other => panic!("expected a join, got {:?}", other),
    }
}

#[test]
fn duplicate_join_is_rejected_and_roster_unchanged() {
    let mut store = store_with_roster("c1", &[("u1", "P1")]);
    match store.join("c1", "u1", "SomeoneElse") {
        JoinOutcome::AlreadyJoined(name) => assert_eq!(name, "P1"),
        other => panic!("expected AlreadyJoined, got {:?}", other),
    }
    let c = campaign(&store, "c1");
    assert_eq!(c.players.len(), 1);
    assert_eq!(c.players[0].id, "u1");
    assert_eq!(c.players[0].display_name, "P1");
}

#[test]
fn join_without_campaign_is_no_campaign() {
    let mut store = SessionStore::new();
    match store.join("c1", "u1", "Alice") {
        JoinOutcome::NoCampaign => {},
        other => panic!("expected NoCampaign, got {:?}", other),
    }
    assert!(store.campaigns.is_empty());
}

#[test]
fn start_activates_and_hands_turn_to_first_player() {
    let mut store = store_with_roster("c1", &[("u1", "Alice"), ("u2", "Bob")]);
    assert_eq!(store.start("c1"), StartOutcome::Started);
    let c = campaign(&store, "c1");
    assert!(c.active);
    assert_eq!(c.current_player, Some(0));
    assert_eq!(c.players[0].id, "u1");
}

#[test]
fn start_with_empty_roster_leaves_turn_unset() {
    let mut store = SessionStore::new();
    store.create_if_absent("c1");
    assert_eq!(store.start("c1"), StartOutcome::Started);
    let c = campaign(&store, "c1");
    assert!(c.active);
    assert!(c.current_player.is_none());
}

#[test]
fn second_start_changes_nothing() {
    let mut store = store_with_roster("c1", &[("u1", "Alice")]);
    assert_eq!(store.start("c1"), StartOutcome::Started);
    assert_eq!(store.start("c1"), StartOutcome::AlreadyActive);
    let c = campaign(&store, "c1");
    assert!(c.active);
    assert_eq!(c.current_player, Some(0));
}

#[test]
fn start_without_campaign_is_no_campaign() {
    let mut store = SessionStore::new();
    assert_eq!(store.start("c1"), StartOutcome::NoCampaign);
}

#[test]
fn turn_advances_in_join_order() {
    let mut store = store_with_roster("c1", &[("a", "A"), ("b", "B"), ("c", "C")]);
    store.start("c1");
    assert_eq!(campaign(&store, "c1").current_player, Some(0));
    assert_eq!(store.advance_turn("c1"), AdvanceOutcome::Advanced);
    assert_eq!(campaign(&store, "c1").current_player, Some(1));
    assert_eq!(store.advance_turn("c1"), AdvanceOutcome::Advanced);
    assert_eq!(campaign(&store, "c1").current_player, Some(2));
}

#[test]
fn turn_wraps_from_last_to_first() {
    let mut store = store_with_roster("c1", &[("a", "A"), ("b", "B"), ("c", "C")]);
    store.start("c1");
    store.advance_turn("c1");
    store.advance_turn("c1");
    // Roster [A, B, C], current player C.
    assert_eq!(campaign(&store, "c1").current_player, Some(2));
    store.advance_turn("c1");
    assert_eq!(campaign(&store, "c1").current_player, Some(0));
}

#[test]
fn advance_without_turn_defaults_to_first_player() {
    let mut store = store_with_roster("c1", &[("a", "A"), ("b", "B")]);
    assert_eq!(store.advance_turn("c1"), AdvanceOutcome::Advanced);
    assert_eq!(campaign(&store, "c1").current_player, Some(0));
}

#[test]
fn advance_with_empty_roster_leaves_turn_unset() {
    let mut store = SessionStore::new();
    store.create_if_absent("c1");
    assert_eq!(store.advance_turn("c1"), AdvanceOutcome::Advanced);
    assert!(campaign(&store, "c1").current_player.is_none());
}

#[test]
fn advance_without_campaign_is_no_campaign() {
    let mut store = SessionStore::new();
    assert_eq!(store.advance_turn("c1"), AdvanceOutcome::NoCampaign);
}

#[test]
fn find_by_channel_distinguishes_channels() {
    let mut store = SessionStore::new();
    store.create_if_absent("c1");
    assert!(store.find_by_channel("c1").is_some());
    assert!(store.find_by_channel("c2").is_none());
}
