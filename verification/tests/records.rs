use igt_records::{
    Error, FileMeta, Record, TimelineEvent, collect_records, filter_record_files, parse_period,
    parse_record, period_includes, project_record, records_dir, records_pattern,
    unescape_cli_text, Period,
};

const NOW: u64 = 1_000_000_000_000;
const HOUR: u64 = 3_600_000;
const DAY: u64 = 86_400_000;

fn valid_record_json() -> String {
    r#"{
        "mc_version": "1.16.1",
        "category": "ANY",
        "run_type": "random_seed",
        "is_completed": true,
        "is_coop": false,
        "is_hardcore": false,
        "world_name": "New World",
        "is_cheat_allowed": false,
        "date": 1700000000000,
        "retimed_igt": 45000,
        "final_igt": 45000,
        "final_rta": 50000,
        "timelines": [
            {"name": "enter_nether", "igt": 12000, "rta": 12050},
            {"name": "enter_end", "igt": 40000, "rta": 41000}
        ]
    }"#
    .to_string()
}

#[test]
fn period_keywords() {
    assert_eq!(parse_period("all"), Some(Period::All));
    assert_eq!(parse_period("today"), Some(Period::Today));
    assert_eq!(parse_period("week"), Some(Period::Week));
    assert_eq!(parse_period("month"), Some(Period::Month));
    assert_eq!(parse_period("yesterday"), Some(Period::Yesterday));
    assert_eq!(parse_period(""), None);
    assert_eq!(parse_period("fortnight"), None);
    assert_eq!(parse_period("Today"), None);
}

#[test]
fn period_all_includes_everything() {
    assert!(period_includes(Period::All, 0, NOW));
    assert!(period_includes(Period::All, NOW, NOW));
    assert!(period_includes(Period::All, NOW + DAY, NOW));
}

#[test]
fn period_today_boundary() {
    assert!(period_includes(Period::Today, NOW - DAY + 1, NOW));
    assert!(!period_includes(Period::Today, NOW - DAY, NOW));
    assert!(!period_includes(Period::Today, NOW - DAY - 1, NOW));
    assert!(period_includes(Period::Today, NOW - 2 * HOUR, NOW));
}

#[test]
fn period_week_boundary() {
    assert!(period_includes(Period::Week, NOW - 7 * DAY + 1, NOW));
    assert!(!period_includes(Period::Week, NOW - 7 * DAY, NOW));
}

#[test]
fn period_month_boundary() {
    assert!(period_includes(Period::Month, NOW - 30 * DAY + 1, NOW));
    assert!(!period_includes(Period::Month, NOW - 30 * DAY, NOW));
}

#[test]
fn period_yesterday_boundaries() {
    assert!(!period_includes(Period::Yesterday, NOW - DAY, NOW));
    assert!(period_includes(Period::Yesterday, NOW - DAY - 1, NOW));
    assert!(period_includes(Period::Yesterday, NOW - 2 * DAY + 1, NOW));
    assert!(!period_includes(Period::Yesterday, NOW - 2 * DAY, NOW));
    assert!(!period_includes(Period::Yesterday, NOW - HOUR, NOW));
}

#[test]
fn filter_keeps_matching_files_in_order() {
    let files = vec![
        FileMeta { path: "a.json".to_string(), mtime_ms: NOW - 2 * HOUR },
        FileMeta { path: "b.json".to_string(), mtime_ms: NOW - 10 * DAY },
        FileMeta { path: "c.json".to_string(), mtime_ms: NOW - HOUR },
    ];
    let kept = filter_record_files(&files, "today", NOW).unwrap();
    assert_eq!(kept, vec!["a.json".to_string(), "c.json".to_string()]);
    let all = filter_record_files(&files, "all", NOW).unwrap();
    assert_eq!(all.len(), 3);
}

#[test]
fn filter_rejects_unknown_period() {
    let files = vec![FileMeta { path: "a.json".to_string(), mtime_ms: NOW }];
    let err = filter_record_files(&files, "sometime", NOW).unwrap_err();
    assert_eq!(err.code(), "Other");
    assert_eq!(err.description(), "Invalid period!".to_string());
}

#[test]
fn parse_valid_record() {
    let r = parse_record(&valid_record_json(), 3, "runs/1.json").unwrap();
    assert_eq!(r.key, 3);
    assert_eq!(r.file, "runs/1.json".to_string());
    assert_eq!(r.mc_version, "1.16.1".to_string());
    assert_eq!(r.category, "ANY".to_string());
    assert_eq!(r.run_type, "random_seed".to_string());
    assert!(r.is_completed);
    assert!(!r.is_coop);
    assert!(!r.is_hardcore);
    assert_eq!(r.world_name, "New World".to_string());
    assert!(!r.is_cheat_allowed);
    assert_eq!(r.date, 1700000000000);
    assert_eq!(r.retimed_igt, 45000);
    assert_eq!(r.final_igt, 45000);
    assert_eq!(r.final_rta, 50000);
    assert_eq!(r.timelines.len(), 2);
    assert_eq!(r.enter_nether, 12000);
    assert_eq!(r.enter_end, 40000);
    assert_eq!(r.enter_bastion, 0);
    assert_eq!(r.enter_fortress, 0);
    assert_eq!(r.nether_travel, 0);
    assert_eq!(r.enter_stronghold, 0);
}

#[test]
fn parse_repeated_timeline_name_last_wins() {
    let json = r#"{
        "mc_version": "1.16.1", "category": "ANY", "run_type": "set_seed",
        "is_completed": false, "is_coop": false, "is_hardcore": false,
        "world_name": "w", "date": 1, "retimed_igt": 2, "final_igt": 3, "final_rta": 4,
        "timelines": [
            {"name": "enter_nether", "igt": 1000, "rta": 1000},
            {"name": "enter_nether", "igt": 2500, "rta": 2600}
        ]
    }"#;
    let r = parse_record(json, 1, "f.json").unwrap();
    assert_eq!(r.enter_nether, 2500);
}

#[test]
fn parse_missing_checkpoint_defaults_to_zero() {
    let json = r#"{
        "mc_version": "1.16.1", "category": "ANY", "run_type": "set_seed",
        "is_completed": false, "is_coop": false, "is_hardcore": false,
        "world_name": "w", "date": 1, "retimed_igt": 2, "final_igt": 3, "final_rta": 4,
        "timelines": [{"name": "enter_nether", "igt": 1000, "rta": 1000}]
    }"#;
    let r = parse_record(json, 1, "f.json").unwrap();
    assert_eq!(r.enter_end, 0);
}

#[test]
fn parse_ignores_unrecognized_timeline_names() {
    let json = r#"{
        "mc_version": "1.16.1", "category": "ANY", "run_type": "set_seed",
        "is_completed": false, "is_coop": false, "is_hardcore": false,
        "world_name": "w", "date": 1, "retimed_igt": 2, "final_igt": 3, "final_rta": 4,
        "timelines": [
            {"name": "trade_with_villager", "igt": 500, "rta": 500},
            {"name": "enter_bastion", "igt": 7000, "rta": 7100}
        ]
    }"#;
    let r = parse_record(json, 1, "f.json").unwrap();
    assert_eq!(r.enter_bastion, 7000);
    assert_eq!(r.enter_nether, 0);
}

#[test]
fn parse_defaults_cheat_flag_to_false() {
    let json = r#"{
        "mc_version": "1.16.1", "category": "ANY", "run_type": "set_seed",
        "is_completed": false, "is_coop": false, "is_hardcore": false,
        "world_name": "w", "date": 1, "retimed_igt": 2, "final_igt": 3, "final_rta": 4,
        "timelines": []
    }"#;
    let r = parse_record(json, 1, "f.json").unwrap();
    assert!(!r.is_cheat_allowed);
}

#[test]
fn parse_stamps_key_and_file_over_content() {
    let json = r#"{
        "key": 99, "file": "spoofed",
        "mc_version": "1.16.1", "category": "ANY", "run_type": "set_seed",
        "is_completed": false, "is_coop": false, "is_hardcore": false,
        "world_name": "w", "date": 1, "retimed_igt": 2, "final_igt": 3, "final_rta": 4,
        "timelines": []
    }"#;
    let r = parse_record(json, 12, "real.json").unwrap();
    assert_eq!(r.key, 12);
    assert_eq!(r.file, "real.json".to_string());
}

#[test]
fn parse_malformed_json_fails_softly() {
    let err = parse_record("{not json", 1, "f.json").unwrap_err();
    assert_eq!(err.code(), "Other");
    assert_eq!(err.description(), "Can't open record file".to_string());
}

#[test]
fn parse_missing_required_field_fails() {
    let json = r#"{
        "category": "ANY", "run_type": "set_seed",
        "is_completed": false, "is_coop": false, "is_hardcore": false,
        "world_name": "w", "date": 1, "retimed_igt": 2, "final_igt": 3, "final_rta": 4,
        "timelines": []
    }"#;
    assert!(parse_record(json, 1, "f.json").is_err());
}

#[test]
fn parse_wrong_field_type_fails() {
    let json = r#"{
        "mc_version": 7, "category": "ANY", "run_type": "set_seed",
        "is_completed": false, "is_coop": false, "is_hardcore": false,
        "world_name": "w", "date": 1, "retimed_igt": 2, "final_igt": 3, "final_rta": 4,
        "timelines": []
    }"#;
    assert!(parse_record(json, 1, "f.json").is_err());
}

#[test]
fn parse_timing_out_of_range_fails() {
    let json = r#"{
        "mc_version": "1.16.1", "category": "ANY", "run_type": "set_seed",
        "is_completed": false, "is_coop": false, "is_hardcore": false,
        "world_name": "w", "date": 1, "retimed_igt": 2, "final_igt": 3000000000, "final_rta": 4,
        "timelines": []
    }"#;
    assert!(parse_record(json, 1, "f.json").is_err());
}

#[test]
fn project_overwrites_in_sequence_order() {
    let mut r = parse_record(&valid_record_json(), 1, "f.json").unwrap();
    r.timelines = vec![
        TimelineEvent { name: "enter_end".to_string(), igt: 100, rta: 100 },
        TimelineEvent { name: "enter_end".to_string(), igt: 900, rta: 950 },
    ];
    project_record(&mut r, 8, "g.json".to_string());
    assert_eq!(r.enter_end, 900);
    assert_eq!(r.enter_nether, 0);
    assert_eq!(r.key, 8);
    assert_eq!(r.file, "g.json".to_string());
}

#[test]
fn collect_drops_failures_keeps_order() {
    let a = parse_record(&valid_record_json(), 1, "a.json").unwrap();
    let b = parse_record(&valid_record_json(), 2, "b.json").unwrap();
    let outcomes: Vec<Result<Record, Error>> = vec![
        Ok(a),
        Err(Error::Other("Can't open record file".to_string())),
        Ok(b),
        Err(Error::IoError("denied".to_string())),
    ];
    let records = collect_records(outcomes);
    assert_eq!(records.len(), 2);
    assert_eq!(records[0].file, "a.json".to_string());
    assert_eq!(records[1].file, "b.json".to_string());
}

#[test]
fn missing_home_directory_is_fatal() {
    let err = records_dir(None).unwrap_err();
    assert_eq!(err.code(), "Other");
    assert_eq!(err.description(), "Home dir not found!".to_string());
}

#[test]
fn records_dir_and_pattern() {
    let dir = records_dir(Some("/home/runner".to_string())).unwrap();
    assert_eq!(dir, "/home/runner/speedrunigt/records/".to_string());
    assert_eq!(
        records_pattern(&dir),
        "/home/runner/speedrunigt/records/*.json".to_string()
    );
}

#[test]
fn error_codes() {
    assert_eq!(Error::IoError("x".to_string()).code(), "IoError");
    assert_eq!(Error::Other("x".to_string()).code(), "Other");
    assert_eq!(Error::IoError("broken pipe".to_string()).description(), "broken pipe".to_string());
}

#[test]
fn error_from_message() {
    let e = Error::from_message("bad pattern");
    assert_eq!(e.code(), "Other");
    assert_eq!(e.description(), "bad pattern".to_string());
}

#[test]
fn parse_same_content_gives_same_record() {
    let a = parse_record(&valid_record_json(), 1, "x.json").unwrap();
    let b = parse_record(&valid_record_json(), 1, "y.json").unwrap();
    assert_eq!(a.mc_version, b.mc_version);
    assert_eq!(a.date, b.date);
    assert_eq!(a.final_igt, b.final_igt);
    assert_eq!(a.enter_nether, b.enter_nether);
    assert_eq!(a.enter_end, b.enter_end);
    assert_eq!(a.timelines.len(), b.timelines.len());
    assert_eq!(a.key, b.key);
    assert_ne!(a.file, b.file);
}

#[test]
fn unescape_replaces_escape_sequences() {
    let out = unescape_cli_text(b"a\\nb\\tc");
    assert_eq!(out, b"a\nb\tc".to_vec());
    let lone = unescape_cli_text(b"end\\");
    assert_eq!(lone, b"end\\".to_vec());
    let double = unescape_cli_text(b"\\\\n");
    assert_eq!(double, b"\\\n".to_vec());
}

fn record_to_json(r: &Record) -> String {
    let mut m = serde_json::Map::new();
    m.insert("mc_version".to_string(), serde_json::Value::String(r.mc_version.clone()));
    m.insert("category".to_string(), serde_json::Value::String(r.category.clone()));
    m.insert("run_type".to_string(), serde_json::Value::String(r.run_type.clone()));
    m.insert("is_completed".to_string(), serde_json::Value::Bool(r.is_completed));
    m.insert("is_coop".to_string(), serde_json::Value::Bool(r.is_coop));
    m.insert("is_hardcore".to_string(), serde_json::Value::Bool(r.is_hardcore));
    m.insert("world_name".to_string(), serde_json::Value::String(r.world_name.clone()));
    m.insert("is_cheat_allowed".to_string(), serde_json::Value::Bool(r.is_cheat_allowed));
    m.insert("date".to_string(), serde_json::Value::from(r.date));
    m.insert("retimed_igt".to_string(), serde_json::Value::from(r.retimed_igt));
    m.insert("final_igt".to_string(), serde_json::Value::from(r.final_igt));
    m.insert("final_rta".to_string(), serde_json::Value::from(r.final_rta));
    let events: Vec<serde_json::Value> = r
        .timelines
        .iter()
        .map(|ev| {
            let mut e = serde_json::Map::new();
            e.insert("name".to_string(), serde_json::Value::String(ev.name.clone()));
            e.insert("igt".to_string(), serde_json::Value::from(ev.igt));
            e.insert("rta".to_string(), serde_json::Value::from(ev.rta));
            serde_json::Value::Object(e)
        })
        .collect();
    m.insert("timelines".to_string(), serde_json::Value::Array(events));
    m.insert("enter_nether".to_string(), serde_json::Value::from(r.enter_nether));
    m.insert("enter_bastion".to_string(), serde_json::Value::from(r.enter_bastion));
    m.insert("enter_fortress".to_string(), serde_json::Value::from(r.enter_fortress));
    m.insert("nether_travel".to_string(), serde_json::Value::from(r.nether_travel));
    m.insert("enter_stronghold".to_string(), serde_json::Value::from(r.enter_stronghold));
    m.insert("enter_end".to_string(), serde_json::Value::from(r.enter_end));
    serde_json::Value::Object(m).to_string()
}

#[test]
fn serialized_record_reparses_equal() {
    let first = parse_record(&valid_record_json(), 5, "orig.json").unwrap();
    let second = parse_record(&record_to_json(&first), 9, "copy.json").unwrap();
    assert_eq!(second.mc_version, first.mc_version);
    assert_eq!(second.category, first.category);
    assert_eq!(second.run_type, first.run_type);
    assert_eq!(second.is_completed, first.is_completed);
    assert_eq!(second.is_coop, first.is_coop);
    assert_eq!(second.is_hardcore, first.is_hardcore);
    assert_eq!(second.world_name, first.world_name);
    assert_eq!(second.is_cheat_allowed, first.is_cheat_allowed);
    assert_eq!(second.date, first.date);
    assert_eq!(second.retimed_igt, first.retimed_igt);
    assert_eq!(second.final_igt, first.final_igt);
    assert_eq!(second.final_rta, first.final_rta);
    assert_eq!(second.timelines.len(), first.timelines.len());
    for (s, f) in second.timelines.iter().zip(first.timelines.iter()) {
        assert_eq!(s.name, f.name);
        assert_eq!(s.igt, f.igt);
        assert_eq!(s.rta, f.rta);
    }
    assert_eq!(second.enter_nether, first.enter_nether);
    assert_eq!(second.enter_bastion, first.enter_bastion);
    assert_eq!(second.enter_fortress, first.enter_fortress);
    assert_eq!(second.nether_travel, first.nether_travel);
    assert_eq!(second.enter_stronghold, first.enter_stronghold);
    assert_eq!(second.enter_end, first.enter_end);
}

#[test]
fn end_to_end_today_batch() {
    let files = vec![
        FileMeta { path: "fresh.json".to_string(), mtime_ms: NOW - 2 * HOUR },
        FileMeta { path: "old.json".to_string(), mtime_ms: NOW - 10 * DAY },
        FileMeta { path: "broken.json".to_string(), mtime_ms: NOW - HOUR },
    ];
    let kept = filter_record_files(&files, "today", NOW).unwrap();
    assert_eq!(kept, vec!["fresh.json".to_string(), "broken.json".to_string()]);

    let contents = |path: &str| -> String {
        if path == "fresh.json" {
            r#"{
                "mc_version": "1.16.1", "category": "ANY", "run_type": "set_seed",
                "is_completed": true, "is_coop": false, "is_hardcore": false,
                "world_name": "w", "date": 1, "retimed_igt": 45000,
                "final_igt": 45000, "final_rta": 46000,
                "timelines": [{"name": "enter_nether", "igt": 12000, "rta": 12050}]
            }"#
            .to_string()
        } else {
            "{broken".to_string()
        }
    };
    let mut outcomes: Vec<Result<Record, Error>> = Vec::new();
    let mut key = 1;
    for path in &kept {
        outcomes.push(parse_record(&contents(path), key, path));
        key += 1;
    }
    let records = collect_records(outcomes);
    assert_eq!(records.len(), 1);
    assert_eq!(records[0].file, "fresh.json".to_string());
    assert_eq!(records[0].enter_nether, 12000);
    assert_eq!(records[0].final_igt, 45000);
    assert_eq!(records[0].key, 1);
}
