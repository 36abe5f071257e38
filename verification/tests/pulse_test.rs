use velmora_desktop::json::Json;
use velmora_desktop::pulse::{
    pending_construction_ids, pulse_tick, read_seen_construction_ids,
    write_seen_construction_ids, Notification, PulseSummary, PulseTick, PULSE_CURSOR_KEY,
    PULSE_INTERVAL_SECS, PULSE_LAST_QUESTS_DATE_KEY, PULSE_SEEN_CONSTRUCTIONS_KEY,
};
use velmora_desktop::store::{read_string_setting, Edit};

fn read(text: &str) -> Json {
    Json::from_value(serde_json::from_str::<serde_json::Value>(text).unwrap())
}

fn notice(title: &str, body: &str) -> Notification {
    Notification { title: title.to_string(), body: body.to_string() }
}

fn written(tick: &PulseTick, key: &str) -> Option<serde_json::Value> {
    let mut found = None;
    for plan in &tick.plans {
        assert_eq!(plan.file, "velmora.json");
        assert!(!plan.strict);
        for edit in &plan.edits {
            match edit {
                Edit::Put { key: k, value } if k == key => found = Some(value.clone()),
                _ => {}
            }
        }
    }
    found
}

const SNAPSHOT: &str = r#"{
    "missives_recent": [{"sender": "Aldric", "subject": "Paix"}, {}],
    "battles_received": [{"attacker": "Morgane", "result": "victoire"}, {"attacker": 3}],
    "pending_constructions": [{"id": 4, "label": "Tour"}, {"id": 4}, {"id": "x"}, {"id": -9}],
    "quests_today_pending": 2,
    "quests_today_date": "2026-06-01",
    "snapshot_at": "2026-06-01T12:00:00Z",
    "missives_unread": 5,
    "queued_construction_jobs": 7,
    "server_ok": false
}"#;

#[test]
fn a_tick_notifies_in_order() {
    let payload = read(SNAPSHOT);
    let seen = read("[1, 4, 1, \"z\", 2]");
    let tick = pulse_tick(
        &Some("2026-05-31T12:00:00Z".to_string()),
        Some(&seen),
        &Some("2026-05-31".to_string()),
        &payload,
    );
    assert_eq!(
        tick.notifications,
        vec![
            notice("Velmora — Paix", "De : Aldric"),
            notice("Velmora — Nouvelle missive", "De : Un seigneur"),
            notice("Velmora — Forteresse attaquée", "Morgane vous a assailli (victoire)"),
            notice("Velmora — Forteresse attaquée", "Un assaillant vous a assailli ()"),
            notice("Velmora — Chantier terminé", "Chantier"),
            notice("Velmora — Chantier terminé", "Chantier"),
            notice("Velmora — Quêtes du jour", "2 quête(s) disponible(s) au royaume"),
        ]
    );
}

#[test]
fn a_tick_keeps_what_the_next_one_needs() {
    let tick = pulse_tick(&None, None, &None, &read(SNAPSHOT));
    assert_eq!(tick.plans.len(), 3);
    assert_eq!(
        written(&tick, PULSE_SEEN_CONSTRUCTIONS_KEY).unwrap().to_string(),
        "[4,-9]"
    );
    assert_eq!(
        written(&tick, PULSE_LAST_QUESTS_DATE_KEY),
        Some(serde_json::Value::String("2026-06-01".to_string()))
    );
    assert_eq!(
        written(&tick, PULSE_CURSOR_KEY),
        Some(serde_json::Value::String("2026-06-01T12:00:00Z".to_string()))
    );
}

#[test]
fn a_tick_sums_up_the_snapshot() {
    let tick = pulse_tick(&None, None, &None, &read(SNAPSHOT));
    assert_eq!(
        tick.summary,
        PulseSummary {
            missives_unread: 5,
            pending_constructions: 2,
            queued_construction_jobs: 7,
            incoming_battles: 2,
            quests_pending: 2,
            server_ok: false,
        }
    );
}

#[test]
fn a_cold_start_is_silent() {
    let seen = read("[1, 2]");
    let tick = pulse_tick(&None, Some(&seen), &None, &read(SNAPSHOT));
    assert!(tick.notifications.is_empty());
}

#[test]
fn an_empty_snapshot_changes_little() {
    let tick = pulse_tick(&Some("c".to_string()), None, &None, &read("{}"));
    assert!(tick.notifications.is_empty());
    assert_eq!(tick.plans.len(), 1);
    assert_eq!(written(&tick, PULSE_SEEN_CONSTRUCTIONS_KEY).unwrap().to_string(), "[]");
    assert_eq!(tick.summary, PulseSummary::initial());
}

#[test]
fn quests_are_announced_once_a_day_and_only_if_there_are_any() {
    let cursor = Some("c".to_string());
    let day = read(r#"{"quests_today_pending": 1, "quests_today_date": "2026-06-01"}"#);
    let tick = pulse_tick(&cursor, None, &None, &day);
    assert_eq!(
        tick.notifications,
        vec![notice("Velmora — Quêtes du jour", "1 quête(s) disponible(s) au royaume")]
    );
    let tick = pulse_tick(&cursor, None, &Some("2026-06-01".to_string()), &day);
    assert!(tick.notifications.is_empty());
    let none = read(r#"{"quests_today_pending": 0, "quests_today_date": "2026-06-02"}"#);
    let tick = pulse_tick(&cursor, None, &Some("2026-06-01".to_string()), &none);
    assert!(tick.notifications.is_empty());
    assert_eq!(
        written(&tick, PULSE_LAST_QUESTS_DATE_KEY),
        Some(serde_json::Value::String("2026-06-02".to_string()))
    );
}

#[test]
fn quests_of_no_day_are_announced_again() {
    let payload = read(r#"{"quests_today_pending": 3}"#);
    let tick = pulse_tick(&Some("c".to_string()), None, &None, &payload);
    assert_eq!(tick.notifications.len(), 1);
    assert_eq!(written(&tick, PULSE_LAST_QUESTS_DATE_KEY), None);
}

#[test]
fn the_same_snapshot_after_a_restart_announces_no_construction_and_no_quest() {
    let payload = read(SNAPSHOT);
    let first = pulse_tick(&Some("c".to_string()), None, &None, &payload);
    let seen = Json::from_value(written(&first, PULSE_SEEN_CONSTRUCTIONS_KEY).unwrap());
    let date = Json::from_value(written(&first, PULSE_LAST_QUESTS_DATE_KEY).unwrap());
    let cursor = Json::from_value(written(&first, PULSE_CURSOR_KEY).unwrap());
    let second = pulse_tick(
        &read_string_setting(Some(&cursor)),
        Some(&seen),
        &read_string_setting(Some(&date)),
        &payload,
    );
    assert_eq!(second.notifications.len(), 4);
    assert!(second.notifications.iter().all(|n| n.body != "Chantier"));
}

#[test]
fn a_construction_that_disappears_is_notified() {
    let before = read(r#"{"pending_constructions": [{"id": 1}, {"id": 2}]}"#);
    let after = read(r#"{"pending_constructions": [{"id": 2}]}"#);
    let first = pulse_tick(&Some("c".to_string()), None, &None, &before);
    let seen = Json::from_value(written(&first, PULSE_SEEN_CONSTRUCTIONS_KEY).unwrap());
    let second = pulse_tick(&Some("c".to_string()), Some(&seen), &None, &after);
    assert_eq!(
        second.notifications,
        vec![notice("Velmora — Chantier terminé", "Chantier")]
    );
}

#[test]
fn seen_constructions_that_are_no_list_count_for_none() {
    assert!(read_seen_construction_ids(None).is_empty());
    assert!(read_seen_construction_ids(Some(&read("{\"a\": 1}"))).is_empty());
    assert_eq!(read_seen_construction_ids(Some(&read("[3, 3.5, 3, -1, null]"))), vec![3, -1]);
    assert!(pending_construction_ids(&read("{\"pending_constructions\": 4}")).is_empty());
    let plan = write_seen_construction_ids(&vec![8, -8]);
    assert_eq!(plan.edits.len(), 1);
}

#[test]
fn counts_are_reduced_to_32_bits() {
    let payload = read(r#"{"missives_unread": 4294967297, "quests_today_pending": 4294967298}"#);
    let tick = pulse_tick(&Some("c".to_string()), None, &None, &payload);
    assert_eq!(tick.summary.missives_unread, 1);
    assert_eq!(tick.summary.quests_pending, 2);
    assert_eq!(
        tick.notifications,
        vec![notice(
            "Velmora — Quêtes du jour",
            "4294967298 quête(s) disponible(s) au royaume"
        )]
    );
}

#[test]
fn badge_counts_missives_and_battles() {
    let mut summary = PulseSummary::default();
    assert_eq!(summary.badge_count(), 0);
    assert_eq!(summary.badge_value(), None);
    summary.missives_unread = 2;
    summary.incoming_battles = 3;
    summary.quests_pending = 9;
    assert_eq!(summary.badge_count(), 5);
    assert_eq!(summary.badge_value(), Some(5));
    summary.missives_unread = u32::MAX;
    assert_eq!(summary.badge_count(), u32::MAX);
    assert_eq!(summary.badge_value(), Some(4_294_967_295));
}

#[test]
fn summaries_before_the_first_tick() {
    assert!(!PulseSummary::default().server_ok);
    assert!(PulseSummary::initial().server_ok);
    assert_eq!(PulseSummary::initial().missives_unread, 0);
    assert_eq!(PULSE_INTERVAL_SECS, 60);
}
