//! Cron jobs as the gateway lists them, turned into rows for the cron
//! panels.

use vstd::prelude::*;
use crate::schemas::opt_view;
use crate::app_state::AppState;
use crate::model::CronJobInfo;
use crate::text::{chars_of, decimal, digit_char, push_decimal_u64, str_eq, string_of};

verus! {

broadcast use vstd::string::group_string_axioms;

/// One entry of the gateway's cron job list, each field as found there:
/// `None` when absent or of another JSON type.
#[derive(Debug, Clone, PartialEq, Eq)]
pub struct CronJobRecord {
    pub id: Option<String>,
    pub name: Option<String>,
    pub enabled: Option<bool>,
    pub agent_id: Option<String>,
    /// `schedule.type`: `cron`, `every` or `at`
    pub schedule_type: Option<String>,
    /// `schedule.expression`
    pub expression: Option<String>,
    /// `schedule.interval_ms`
    pub interval_ms: Option<u64>,
    /// `schedule.at_ms`
    pub at_ms: Option<u64>,
    /// `state.last_run_at_ms`
    pub last_run_at_ms: Option<u64>,
    /// `state.last_run_status`
    pub last_run_status: Option<String>,
    /// `state.next_run_at_ms`
    pub next_run_at_ms: Option<u64>,
}

/// The UTC time of day `ms` milliseconds after the Unix epoch, written by
/// `chrono` as `%H:%M:%S`, or `None` when `chrono` cannot represent it.
pub uninterp spec fn utc_clock_text(ms: u64) -> Option<Seq<char>>;

/// The UTC date and time `ms` milliseconds after the Unix epoch, written by
/// `chrono` as `%Y-%m-%d %H:%M:%S`, or `None` when `chrono` cannot
/// represent it.
pub uninterp spec fn utc_datetime_text(ms: u64) -> Option<Seq<char>>;

/// Two decimal digits, zero-padded, of `n < 100`.
pub open spec fn two_digits(n: int) -> Seq<char> {
    seq![digit_char((n / 10) as nat), digit_char((n % 10) as nat)]
}

/// The UTC time of day, `HH:MM:SS`, `ms` milliseconds after the epoch
/// (the number read as a signed 64-bit count, as `chrono` takes it): the
/// whole seconds, floored, within their day.
pub open spec fn clock_text_of(ms: u64) -> Seq<char> {
    let secs = (ms as i64) as int / 1000;
    let day_secs = secs % 86400;
    two_digits(day_secs / 3600) + ":"@ + two_digits((day_secs % 3600) / 60) + ":"@ + two_digits(day_secs % 60)
}

/// Trusted: `chrono::DateTime::from_timestamp_millis` on `ms` (as `i64`),
/// then `format("%H:%M:%S")` to a string; the outcome is named
/// `utc_clock_text`. When chrono can represent the time, the text is the
/// time of day of `clock_text_of`: `from_timestamp` splits the seconds
/// with `div_euclid`/`rem_euclid` by 86400, the milliseconds leave no leap
/// second, and `%H`, `%M`, `%S` write two zero-padded digits. Which times
/// chrono can represent (its calendar range) is left to the name.
#[verifier::external_body]
fn utc_clock(ms: u64) -> (r: Option<String>)
    ensures
        opt_view(r) == utc_clock_text(ms),
        r matches Some(t) ==> t@ == clock_text_of(ms),
{
    match chrono::DateTime::from_timestamp_millis(ms as i64) {
        Some(dt) => Some(dt.format("%H:%M:%S").to_string()),
        None => None,
    }
}

/// Trusted: `chrono::DateTime::from_timestamp_millis` on `ms` (as `i64`),
/// then `format("%Y-%m-%d %H:%M:%S")` to a string; the outcome is named
/// `utc_datetime_text`.
#[verifier::external_body]
fn utc_datetime(ms: u64) -> (r: Option<String>)
    ensures
        opt_view(r) == utc_datetime_text(ms),
{
    match chrono::DateTime::from_timestamp_millis(ms as i64) {
        Some(dt) => Some(dt.format("%Y-%m-%d %H:%M:%S").to_string()),
        None => None,
    }
}

/// A run time shown as a time of day (or, with `with_date`, as date and
/// time), or as its number of milliseconds when it cannot be shown so.
pub open spec fn run_text(ms: Option<u64>, with_date: bool) -> Option<Seq<char>> {
    match ms {
        Some(m) => Some(
            if with_date {
                match utc_datetime_text(m) {
                    Some(t) => t,
                    None => decimal(m as nat),
                }
            } else {
                match utc_clock_text(m) {
                    Some(_) => clock_text_of(m),
                    None => decimal(m as nat),
                }
            },
        ),
        None => None,
    }
}

/// The schedule as shown: a cron expression (`?` when missing), an
/// interval in whole hours, minutes or seconds, or a one-off time.
pub open spec fn schedule_text(kind: Option<Seq<char>>, expression: Option<Seq<char>>, interval_ms: Option<u64>, at_ms: Option<u64>) -> Seq<char> {
    if kind == Some("cron"@) {
        match expression {
            Some(e) => e,
            None => "?"@,
        }
    } else if kind == Some("every"@) {
        let ms: nat = match interval_ms {
            Some(m) => m as nat,
            None => 0,
        };
        if ms >= 3_600_000 {
            "every "@ + decimal(ms / 3_600_000) + "h"@
        } else if ms >= 60_000 {
            "every "@ + decimal(ms / 60_000) + "m"@
        } else {
            "every "@ + decimal(ms / 1000) + "s"@
        }
    } else if kind == Some("at"@) {
        "once @"@ + decimal(match at_ms {
            Some(m) => m as nat,
            None => 0,
        })
    } else {
        "unknown"@
    }
}

/// Entries without an id are skipped.
pub open spec fn has_id(r: CronJobRecord) -> bool {
    r.id is Some && r.id->0@.len() > 0
}

/// The entries that are shown, in order.
pub open spec fn kept_records(s: Seq<CronJobRecord>) -> Seq<CronJobRecord>
    decreases s.len(),
{
    if s.len() == 0 {
        Seq::empty()
    } else if has_id(s.last()) {
        kept_records(s.drop_last()).push(s.last())
    } else {
        kept_records(s.drop_last())
    }
}

/// The row for an entry: missing name empty, missing flag off, last run
/// as a time of day, next run as date and time.
pub open spec fn job_row(r: CronJobRecord, j: CronJobInfo) -> bool {
    &&& j.id@ == r.id->0@
    &&& j.name@ == match r.name {
        Some(n) => n@,
        None => Seq::empty(),
    }
    &&& j.enabled == match r.enabled {
        Some(e) => e,
        None => false,
    }
    &&& opt_view(j.agent_id) == opt_view(r.agent_id)
    &&& j.schedule@ == schedule_text(opt_view(r.schedule_type), opt_view(r.expression), r.interval_ms, r.at_ms)
    &&& opt_view(j.last_run) == run_text(r.last_run_at_ms, false)
    &&& opt_view(j.last_status) == opt_view(r.last_run_status)
    &&& opt_view(j.next_run) == run_text(r.next_run_at_ms, true)
}

fn opt_clone(o: &Option<String>) -> (r: Option<String>)
    ensures
        opt_view(r) == opt_view(*o),
{
    match o {
        Some(s) => Some(s.clone()),
        None => None,
    }
}

fn run_time(ms: Option<u64>, with_date: bool) -> (r: Option<String>)
    ensures
        opt_view(r) == run_text(ms, with_date),
{
    match ms {
        Some(m) => match if with_date { utc_datetime(m) } else { utc_clock(m) } {
            Some(t) => Some(t),
            None => {
                let mut s = String::new();
                push_decimal_u64(&mut s, m);
                assert(Seq::<char>::empty() + decimal(m as nat) == decimal(m as nat));
                Some(s)
            },
        },
        None => None,
    }
}

fn is_kind(kind: &Option<String>, name: &str) -> (r: bool)
    ensures
        r == (opt_view(*kind) == Some(name@)),
{
    match kind {
        Some(k) => str_eq(k.as_str(), name),
        None => false,
    }
}

fn every_text(n: u64, unit: &str) -> (r: String)
    ensures
        r@ == "every "@ + decimal(n as nat) + unit@,
{
    let mut s = string_of("every ");
    push_decimal_u64(&mut s, n);
    s.append(unit);
    s
}

/// The schedule of an entry as shown (see `schedule_text`).
pub fn schedule_of(r: &CronJobRecord) -> (s: String)
    ensures
        s@ == schedule_text(opt_view(r.schedule_type), opt_view(r.expression), r.interval_ms, r.at_ms),
{
    if is_kind(&r.schedule_type, "cron") {
        match &r.expression {
            Some(e) => e.clone(),
            None => string_of("?"),
        }
    } else if is_kind(&r.schedule_type, "every") {
        let ms: u64 = match r.interval_ms {
            Some(m) => m,
            None => 0,
        };
        if ms >= 3_600_000 {
            every_text(ms / 3_600_000, "h")
        } else if ms >= 60_000 {
            every_text(ms / 60_000, "m")
        } else {
            every_text(ms / 1000, "s")
        }
    } else if is_kind(&r.schedule_type, "at") {
        let at: u64 = match r.at_ms {
            Some(m) => m,
            None => 0,
        };
        let mut s = string_of("once @");
        push_decimal_u64(&mut s, at);
        s
    } else {
        string_of("unknown")
    }
}

/// The rows of the cron panels for the gateway's job list: entries
/// without an id are skipped, the others kept in order (see `job_row`).
pub fn cron_jobs_from_records(records: &Vec<CronJobRecord>) -> (jobs: Vec<CronJobInfo>)
    ensures
        jobs@.len() == kept_records(records@).len(),
        forall|i: int| 0 <= i < jobs@.len() ==> job_row(kept_records(records@)[i], #[trigger] jobs@[i]),
{
    let mut jobs: Vec<CronJobInfo> = Vec::new();
    let mut i: usize = 0;
    while i < records.len()
        invariant
            i <= records@.len(),
            jobs@.len() == kept_records(records@.take(i as int)).len(),
            forall|k: int| 0 <= k < jobs@.len() ==> job_row(kept_records(records@.take(i as int))[k], #[trigger] jobs@[k]),
        decreases records@.len() - i,
    {
        let r = &records[i];
        proof {
            assert(records@.take(i + 1).drop_last() == records@.take(i as int));
            assert(records@.take(i + 1).last() == records@[i as int]);
        }
        let keep = match &r.id {
            Some(id) => chars_of(id.as_str()).len() > 0,
            None => false,
        };
        if keep {
            let id = match &r.id {
                Some(id) => id.clone(),
                None => String::new(),
            };
            let name = match &r.name {
                Some(n) => n.clone(),
                None => String::new(),
            };
            let enabled = match r.enabled {
                Some(e) => e,
                None => false,
            };
            let job = CronJobInfo {
                id,
                name,
                enabled,
                agent_id: opt_clone(&r.agent_id),
                schedule: schedule_of(r),
                last_run: run_time(r.last_run_at_ms, false),
                last_status: opt_clone(&r.last_run_status),
                next_run: run_time(r.next_run_at_ms, true),
            };
            jobs.push(job);
        }
        i = i + 1;
    }
    assert(records@.take(i as int) == records@);
    jobs
}

/// One row of the cron job table.
#[derive(Debug, Clone, PartialEq, Eq)]
pub struct CronRow {
    pub name: String,
    /// The agent, `-` when none
    pub agent: String,
    pub schedule: String,
    /// `Active` or `Disabled`, with the last run's status (`-` when none)
    pub status: String,
    /// The last run, `Never` when none
    pub last_run: String,
    pub enabled: bool,
    /// Whether this is the selected row
    pub selected: bool,
}

/// What the cron detail panel shows.
#[derive(Debug, Clone, PartialEq, Eq)]
pub enum CronDetail {
    /// The job list is loading.
    Loading,
    /// There are no jobs at all: a note on how to create one.
    NoJobs,
    /// The selected card has no jobs: this note.
    NoneInCard(String),
    /// The table, and the next run of the selected job when it has one.
    Table { rows: Vec<CronRow>, next_run: Option<String> },
}

/// Whether a job belongs on a card: 1 the enabled ones, 2 the disabled
/// ones, any other all.
pub open spec fn in_card(j: CronJobInfo, card: nat) -> bool {
    if card == 1 {
        j.enabled
    } else if card == 2 {
        !j.enabled
    } else {
        true
    }
}

/// The jobs shown on a card, in order.
pub open spec fn card_jobs(s: Seq<CronJobInfo>, card: nat) -> Seq<CronJobInfo>
    decreases s.len(),
{
    if s.len() == 0 {
        Seq::empty()
    } else if in_card(s.last(), card) {
        card_jobs(s.drop_last(), card).push(s.last())
    } else {
        card_jobs(s.drop_last(), card)
    }
}

/// The table row of a job at position `i`.
pub open spec fn cron_row(j: CronJobInfo, i: int, selected: nat, r: CronRow) -> bool {
    &&& r.name@ == j.name@
    &&& r.agent@ == match j.agent_id {
        Some(a) => a@,
        None => "-"@,
    }
    &&& r.schedule@ == j.schedule@
    &&& r.status@ == (if j.enabled { "Active"@ } else { "Disabled"@ }) + " ("@ + match j.last_status {
        Some(t) => t@,
        None => "-"@,
    } + ")"@
    &&& r.last_run@ == match j.last_run {
        Some(t) => t@,
        None => "Never"@,
    }
    &&& r.enabled == j.enabled
    &&& r.selected == (i == selected)
}

/// What the cron panel shows for a state: loading, no jobs, no jobs on the
/// selected card (named for card 1 as active, else disabled), or a row per
/// job on the card with the selected job's next run.
pub open spec fn cron_detail_shown(s: AppState, d: CronDetail) -> bool {
    let jobs = card_jobs(s.cron_jobs@, s.selected_cron_card as nat);
    if s.cron_loading {
        d == CronDetail::Loading
    } else if s.cron_jobs@.len() == 0 {
        d == CronDetail::NoJobs
    } else if jobs.len() == 0 {
        d matches CronDetail::NoneInCard(t)
            && t@ == if s.selected_cron_card == 1 { "No active cron jobs"@ } else { "No disabled cron jobs"@ }
    } else {
        &&& d matches CronDetail::Table { rows, next_run }
        &&& rows@.len() == jobs.len()
        &&& forall|i: int| 0 <= i < rows@.len() ==> cron_row(jobs[i], i, s.selected_cron_job as nat, #[trigger] rows@[i])
        &&& opt_view(next_run) == if s.selected_cron_job < jobs.len() {
            opt_view(jobs[s.selected_cron_job as int].next_run)
        } else {
            None
        }
    }
}

fn or_text(o: &Option<String>, fallback: &str) -> (r: String)
    ensures
        r@ == match *o {
            Some(t) => t@,
            None => fallback@,
        },
{
    match o {
        Some(t) => t.clone(),
        None => string_of(fallback),
    }
}

fn row_of(j: &CronJobInfo, i: usize, selected: usize) -> (r: CronRow)
    ensures
        cron_row(*j, i as int, selected as nat, r),
{
    let mut status = if j.enabled { string_of("Active") } else { string_of("Disabled") };
    status.append(" (");
    let last = or_text(&j.last_status, "-");
    status.append(last.as_str());
    status.append(")");
    CronRow {
        name: j.name.clone(),
        agent: or_text(&j.agent_id, "-"),
        schedule: j.schedule.clone(),
        status,
        last_run: or_text(&j.last_run, "Never"),
        enabled: j.enabled,
        selected: i == selected,
    }
}

fn jobs_on_card(jobs: &Vec<CronJobInfo>, card: usize) -> (r: Vec<CronJobInfo>)
    ensures
        r@ == card_jobs(jobs@, card as nat),
{
    let mut r: Vec<CronJobInfo> = Vec::new();
    let mut i: usize = 0;
    while i < jobs.len()
        invariant
            i <= jobs@.len(),
            r@ == card_jobs(jobs@.take(i as int), card as nat),
        decreases jobs@.len() - i,
    {
        proof {
            assert(jobs@.take(i + 1).drop_last() == jobs@.take(i as int));
            assert(jobs@.take(i + 1).last() == jobs@[i as int]);
        }
        let keep = if card == 1 {
            jobs[i].enabled
        } else if card == 2 {
            !jobs[i].enabled
        } else {
            true
        };
        if keep {
            r.push(jobs[i].clone());
        }
        i = i + 1;
    }
    assert(jobs@.take(i as int) == jobs@);
    r
}

impl AppState {
    /// What the cron detail panel shows (see `cron_detail_shown`).
    pub fn cron_detail(&self) -> (d: CronDetail)
        ensures
            cron_detail_shown(*self, d),
    {
        if self.cron_loading {
            return CronDetail::Loading;
        }
        if self.cron_jobs.len() == 0 {
            return CronDetail::NoJobs;
        }
        let jobs = jobs_on_card(&self.cron_jobs, self.selected_cron_card);
        if jobs.len() == 0 {
            let t = if self.selected_cron_card == 1 {
                string_of("No active cron jobs")
            } else {
                string_of("No disabled cron jobs")
            };
            return CronDetail::NoneInCard(t);
        }
        let mut rows: Vec<CronRow> = Vec::new();
        let mut i: usize = 0;
        while i < jobs.len()
            invariant
                i <= jobs@.len(),
                jobs@ == card_jobs(self.cron_jobs@, self.selected_cron_card as nat),
                rows@.len() == i,
                forall|k: int| 0 <= k < i ==> cron_row(jobs@[k], k, self.selected_cron_job as nat, #[trigger] rows@[k]),
            decreases jobs@.len() - i,
        {
            rows.push(row_of(&jobs[i], i, self.selected_cron_job));
            i = i + 1;
        }
        let next_run = if self.selected_cron_job < jobs.len() {
            opt_clone(&jobs[self.selected_cron_job].next_run)
        } else {
            None
        };
        CronDetail::Table { rows, next_run }
    }
}

} // verus!
