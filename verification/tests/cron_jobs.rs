use rockbot_tui::cron_jobs::{cron_jobs_from_records, schedule_of, CronJobRecord};

fn record(id: Option<&str>) -> CronJobRecord {
    CronJobRecord {
        id: id.map(String::from),
        name: None,
        enabled: None,
        agent_id: None,
        schedule_type: None,
        expression: None,
        interval_ms: None,
        at_ms: None,
        last_run_at_ms: None,
        last_run_status: None,
        next_run_at_ms: None,
    }
}

fn every(ms: Option<u64>) -> CronJobRecord {
    CronJobRecord { schedule_type: Some("every".to_string()), interval_ms: ms, ..record(Some("j")) }
}

#[test]
fn schedules_are_written_out() {
    let cron = CronJobRecord {
        schedule_type: Some("cron".to_string()),
        expression: Some("0 9 * * *".to_string()),
        ..record(Some("j"))
    };
    assert_eq!(schedule_of(&cron), "0 9 * * *");
    let bare_cron = CronJobRecord { schedule_type: Some("cron".to_string()), ..record(Some("j")) };
    assert_eq!(schedule_of(&bare_cron), "?");
    assert_eq!(schedule_of(&every(Some(7_200_000))), "every 2h");
    assert_eq!(schedule_of(&every(Some(3_599_999))), "every 59m");
    assert_eq!(schedule_of(&every(Some(60_000))), "every 1m");
    assert_eq!(schedule_of(&every(Some(59_999))), "every 59s");
    assert_eq!(schedule_of(&every(None)), "every 0s");
    let at = CronJobRecord { schedule_type: Some("at".to_string()), at_ms: Some(1234), ..record(Some("j")) };
    assert_eq!(schedule_of(&at), "once @1234");
    let other = CronJobRecord { schedule_type: Some("weekly".to_string()), ..record(Some("j")) };
    assert_eq!(schedule_of(&other), "unknown");
    assert_eq!(schedule_of(&record(Some("j"))), "unknown");
}

#[test]
fn entries_without_id_are_skipped() {
    let rows = cron_jobs_from_records(&vec![record(None), record(Some("")), record(Some("a")), record(Some("b"))]);
    let ids: Vec<&str> = rows.iter().map(|r| r.id.as_str()).collect();
    assert_eq!(ids, vec!["a", "b"]);
    assert_eq!(rows[0].name, "");
    assert!(!rows[0].enabled);
    assert_eq!(rows[0].last_run, None);
    assert_eq!(rows[0].next_run, None);
}

#[test]
fn run_times_are_shown_in_utc() {
    let r = CronJobRecord {
        name: Some("digest".to_string()),
        enabled: Some(true),
        agent_id: Some("main".to_string()),
        last_run_at_ms: Some(947_638_923_004),
        last_run_status: Some("ok".to_string()),
        next_run_at_ms: Some(947_638_923_004),
        ..record(Some("j1"))
    };
    let rows = cron_jobs_from_records(&vec![r]);
    assert_eq!(rows.len(), 1);
    assert_eq!(rows[0].name, "digest");
    assert!(rows[0].enabled);
    assert_eq!(rows[0].agent_id.as_deref(), Some("main"));
    assert_eq!(rows[0].last_run.as_deref(), Some("01:02:03"));
    assert_eq!(rows[0].last_status.as_deref(), Some("ok"));
    assert_eq!(rows[0].next_run.as_deref(), Some("2000-01-12 01:02:03"));
}

#[test]
fn unrepresentable_run_time_falls_back_to_milliseconds() {
    let r = CronJobRecord { last_run_at_ms: Some(u64::MAX / 2), ..record(Some("j")) };
    let rows = cron_jobs_from_records(&vec![r]);
    assert_eq!(rows[0].last_run, Some((u64::MAX / 2).to_string()));
}

#[test]
fn largest_millisecond_count_reads_as_one_before_the_epoch() {
    let r = CronJobRecord { last_run_at_ms: Some(u64::MAX), ..record(Some("j")) };
    let rows = cron_jobs_from_records(&vec![r]);
    assert_eq!(rows[0].last_run.as_deref(), Some("23:59:59"));
}
