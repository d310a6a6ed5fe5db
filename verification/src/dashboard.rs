//! The dashboard: one summary of all four domains, assembled from the
//! figures that the domains' stores answer, and the rule that decides
//! whether a stored summary may still be served.

use vstd::prelude::*;
use vstd::string::*;

use crate::calendar::{unix_now, Date};
use crate::fraction::Fraction;
use crate::ids::fresh_id;

verus! {

/// How long a snapshot may be served after it was generated, in seconds.
pub const CACHE_VALIDITY_SECONDS: i64 = 3600;

/// The version of the snapshot's layout.
pub const DASHBOARD_VERSION: i32 = 1;

/// A figure of the snapshot: known, or pending where nothing computes it yet.
/// A pending figure holds no number, so that it cannot be taken for one.
#[derive(Clone, Copy, Debug, PartialEq, Eq)]
pub enum Reading<T> {
    Pending,
    Known(T),
}

/// The overall state of the tracked domains.
#[derive(Clone, Copy, Debug, PartialEq, Eq, Structural)]
pub enum HealthStatus {
    Excellent,
    Good,
    Warning,
    Critical,
}

/// What the four domains' stores answered when asked for their figures.
#[derive(Clone, Copy, Debug, PartialEq, Eq, Structural)]
pub struct DomainCounts {
    /// Journal entries dated today.
    pub journal_entries_today: i32,
    /// All habits.
    pub habits_total: i32,
    /// Habits flagged active.
    pub habits_active: i32,
    /// Active goals.
    pub goals_active: i32,
    /// Active goals whose status is completed.
    pub goals_completed: i32,
    /// Active job applications.
    pub jobs_active: i32,
    /// Active job applications in the interviewing stage.
    pub jobs_interviewing: i32,
    /// Active job applications with an offer.
    pub jobs_offer: i32,
}

/// One summary of all four domains at one moment. It is never changed after
/// it was made; a later one takes its place.
#[derive(Clone, Debug, PartialEq, Eq)]
pub struct DashboardSnapshot {
    pub dashboard_id: String,
    pub dashboard_date: Date,
    pub dashboard_timezone: Option<String>,
    pub dashboard_version: i32,
    pub overall_productivity_score: Reading<Fraction>,
    pub overall_consistency_index: Reading<Fraction>,
    pub overall_momentum_score: Reading<Fraction>,
    pub burnout_risk_global: Reading<Fraction>,
    pub stress_load_global: Reading<Fraction>,
    pub confidence_global: Reading<Fraction>,
    pub system_health_status: Reading<HealthStatus>,
    pub today_diary_exists: bool,
    pub today_diary_word_count: Reading<i32>,
    pub habits_total: i32,
    pub habits_total_active: i32,
    pub today_habits_completed: Reading<i32>,
    pub today_habit_completion_rate: Reading<Fraction>,
    pub goals_total_active: i32,
    pub goals_completed_total: i32,
    pub goals_on_track_count: Reading<i32>,
    pub goals_at_risk_count: Reading<i32>,
    pub goals_avg_progress_percentage: Reading<Fraction>,
    pub jobs_total_active: i32,
    pub jobs_interviewing_count: i32,
    pub jobs_offer_count: i32,
    pub jobs_rejected_count: Reading<i32>,
    pub jobs_pipeline_velocity: Reading<Fraction>,
    pub overdue_goals_flag: Reading<bool>,
    pub habit_streak_break_risk_flag: Reading<bool>,
    pub diary_gap_warning_flag: Reading<bool>,
    pub job_pipeline_stall_flag: Reading<bool>,
    pub critical_alert_count: Reading<i32>,
    pub warning_alert_count: Reading<i32>,
    pub cache_generated_at: i64,
    pub cache_valid_until: i64,
    pub data_sources_version: String,
    pub analytics_computation_duration_ms: i32,
}

/// A stored summary together with the time until which it may be served.
pub struct CachedSnapshot<S> {
    pub snapshot: S,
    pub valid_until: Option<i64>,
}

/// What a request for the dashboard comes to: the stored summary is served,
/// or a new one has to be made and stored.
pub enum CacheOutcome<S> {
    Hit(S),
    Miss,
}

impl DashboardSnapshot {
    /// The snapshot's deadline lies one validity window after its generation,
    /// hence strictly after it.
    pub open spec fn wf(&self) -> bool {
        self.cache_valid_until == self.cache_generated_at + CACHE_VALIDITY_SECONDS
    }

    /// The figures that nothing computes yet are all pending.
    pub open spec fn unwired_are_pending(&self) -> bool {
        &&& self.overall_productivity_score is Pending
        &&& self.overall_consistency_index is Pending
        &&& self.overall_momentum_score is Pending
        &&& self.burnout_risk_global is Pending
        &&& self.stress_load_global is Pending
        &&& self.confidence_global is Pending
        &&& self.system_health_status is Pending
        &&& self.today_diary_word_count is Pending
        &&& self.today_habits_completed is Pending
        &&& self.today_habit_completion_rate is Pending
        &&& self.goals_on_track_count is Pending
        &&& self.goals_at_risk_count is Pending
        &&& self.goals_avg_progress_percentage is Pending
        &&& self.jobs_rejected_count is Pending
        &&& self.jobs_pipeline_velocity is Pending
        &&& self.overdue_goals_flag is Pending
        &&& self.habit_streak_break_risk_flag is Pending
        &&& self.diary_gap_warning_flag is Pending
        &&& self.job_pipeline_stall_flag is Pending
        &&& self.critical_alert_count is Pending
        &&& self.warning_alert_count is Pending
    }

    /// The snapshot is the one made at time `now`, for the day `today`, under
    /// the identifier `id`, from what the domains answered.
    pub open spec fn is_made_of(
        &self,
        id: Seq<char>,
        today: Date,
        timezone: Option<String>,
        now: i64,
        duration_ms: i32,
        counts: DomainCounts,
    ) -> bool {
        &&& self.dashboard_id@ == id
        &&& self.dashboard_date == today
        &&& self.dashboard_timezone == timezone
        &&& self.dashboard_version == DASHBOARD_VERSION
        &&& self.today_diary_exists == (counts.journal_entries_today > 0)
        &&& self.habits_total == counts.habits_total
        &&& self.habits_total_active == counts.habits_active
        &&& self.goals_total_active == counts.goals_active
        &&& self.goals_completed_total == counts.goals_completed
        &&& self.jobs_total_active == counts.jobs_active
        &&& self.jobs_interviewing_count == counts.jobs_interviewing
        &&& self.jobs_offer_count == counts.jobs_offer
        &&& self.unwired_are_pending()
        &&& self.cache_generated_at == now
        &&& self.cache_valid_until == now + CACHE_VALIDITY_SECONDS
        &&& self.data_sources_version@ == "1.0"@
        &&& self.analytics_computation_duration_ms == duration_ms
    }

    /// The snapshot with the time until which it may be served.
    pub fn into_cached(self) -> (cached: CachedSnapshot<DashboardSnapshot>)
        ensures
            cached.snapshot == self,
            cached.valid_until == Some(self.cache_valid_until),
    {
        let valid_until: i64 = self.cache_valid_until;
        CachedSnapshot { snapshot: self, valid_until: Some(valid_until) }
    }
}

/// What a request comes to at time `now`: the stored summary where the
/// request does not force a refresh, a summary is stored, and `now` lies
/// before its deadline; else a miss.
pub open spec fn cache_outcome<S>(
    force_refresh: bool,
    latest: Option<CachedSnapshot<S>>,
    now: i64,
) -> CacheOutcome<S> {
    match latest {
        Some(cached) => match cached.valid_until {
            Some(deadline) => if !force_refresh && now < deadline {
                CacheOutcome::Hit(cached.snapshot)
            } else {
                CacheOutcome::Miss
            },
            None => CacheOutcome::Miss,
        },
        None => CacheOutcome::Miss,
    }
}

/// Assembles the snapshot of one moment. The figures that the domains
/// answered are taken as they are; every figure that nothing computes yet is
/// pending; the deadline lies one validity window after `now`.
pub fn assemble_snapshot(
    id: String,
    today: Date,
    timezone: Option<String>,
    now: i64,
    duration_ms: i32,
    counts: DomainCounts,
) -> (snapshot: DashboardSnapshot)
    requires
        now + CACHE_VALIDITY_SECONDS <= i64::MAX,
    ensures
        snapshot.is_made_of(id@, today, timezone, now, duration_ms, counts),
        snapshot.wf(),
{
    DashboardSnapshot {
        dashboard_id: id,
        dashboard_date: today,
        dashboard_timezone: timezone,
        dashboard_version: DASHBOARD_VERSION,
        overall_productivity_score: Reading::Pending,
        overall_consistency_index: Reading::Pending,
        overall_momentum_score: Reading::Pending,
        burnout_risk_global: Reading::Pending,
        stress_load_global: Reading::Pending,
        confidence_global: Reading::Pending,
        system_health_status: Reading::Pending,
        today_diary_exists: counts.journal_entries_today > 0,
        today_diary_word_count: Reading::Pending,
        habits_total: counts.habits_total,
        habits_total_active: counts.habits_active,
        today_habits_completed: Reading::Pending,
        today_habit_completion_rate: Reading::Pending,
        goals_total_active: counts.goals_active,
        goals_completed_total: counts.goals_completed,
        goals_on_track_count: Reading::Pending,
        goals_at_risk_count: Reading::Pending,
        goals_avg_progress_percentage: Reading::Pending,
        jobs_total_active: counts.jobs_active,
        jobs_interviewing_count: counts.jobs_interviewing,
        jobs_offer_count: counts.jobs_offer,
        jobs_rejected_count: Reading::Pending,
        jobs_pipeline_velocity: Reading::Pending,
        overdue_goals_flag: Reading::Pending,
        habit_streak_break_risk_flag: Reading::Pending,
        diary_gap_warning_flag: Reading::Pending,
        job_pipeline_stall_flag: Reading::Pending,
        critical_alert_count: Reading::Pending,
        warning_alert_count: Reading::Pending,
        cache_generated_at: now,
        cache_valid_until: now + CACHE_VALIDITY_SECONDS,
        data_sources_version: String::from_str("1.0"),
        analytics_computation_duration_ms: duration_ms,
    }
}

/// Makes a new snapshot under a fresh identifier. Which identifier that is,
/// is left to chance; everything else is as `assemble_snapshot` says.
pub fn compute_dashboard(
    today: Date,
    timezone: Option<String>,
    now: i64,
    duration_ms: i32,
    counts: DomainCounts,
) -> (snapshot: DashboardSnapshot)
    requires
        now + CACHE_VALIDITY_SECONDS <= i64::MAX,
    ensures
        snapshot.is_made_of(snapshot.dashboard_id@, today, timezone, now, duration_ms, counts),
        snapshot.wf(),
{
    assemble_snapshot(fresh_id(), today, timezone, now, duration_ms, counts)
}

/// Decides at time `now` whether the stored summary is served.
pub fn lookup_cached<S>(force_refresh: bool, latest: Option<CachedSnapshot<S>>, now: i64) -> (outcome:
    CacheOutcome<S>)
    ensures
        outcome == cache_outcome(force_refresh, latest, now),
{
    if force_refresh {
        return CacheOutcome::Miss;
    }
    match latest {
        Some(cached) => match cached.valid_until {
            Some(deadline) => if now < deadline {
                CacheOutcome::Hit(cached.snapshot)
            } else {
                CacheOutcome::Miss
            },
            None => CacheOutcome::Miss,
        },
        None => CacheOutcome::Miss,
    }
}

/// Decides by the clock whether the stored summary is served. A forced
/// request, a missing summary and one without a deadline are a miss whatever
/// the clock shows; a summary that is served is the stored one, unchanged.
pub fn get_dashboard<S>(force_refresh: bool, latest: Option<CachedSnapshot<S>>) -> (outcome:
    CacheOutcome<S>)
    ensures
        exists|now: i64| outcome == #[trigger] cache_outcome(force_refresh, latest, now),
        force_refresh ==> outcome is Miss,
        latest is None ==> outcome is Miss,
        outcome matches CacheOutcome::Hit(served) ==> latest matches Some(cached)
            && cached.snapshot == served,
{
    if force_refresh {
        proof {
            assert(CacheOutcome::<S>::Miss == cache_outcome(force_refresh, latest, 0i64));
        }
        return CacheOutcome::Miss;
    }
    let now: i64 = unix_now();
    lookup_cached(force_refresh, latest, now)
}

/// A snapshot is served unchanged at every moment from its generation up to,
/// but not including, its deadline one validity window later.
pub proof fn valid_snapshot_is_served(snapshot: DashboardSnapshot, now: i64)
    requires
        snapshot.wf(),
        snapshot.cache_generated_at <= now < snapshot.cache_generated_at + CACHE_VALIDITY_SECONDS,
    ensures
        cache_outcome(
            false,
            Some(
                CachedSnapshot { snapshot, valid_until: Some(snapshot.cache_valid_until) },
            ),
            now,
        ) == CacheOutcome::Hit(snapshot),
{
}

/// From its deadline on a snapshot is no longer served, and the snapshot made
/// in its place at that moment has a strictly later generation time.
pub proof fn expired_snapshot_is_replaced(
    snapshot: DashboardSnapshot,
    now: i64,
    fresh: DashboardSnapshot,
    id: Seq<char>,
    today: Date,
    timezone: Option<String>,
    duration_ms: i32,
    counts: DomainCounts,
)
    requires
        snapshot.wf(),
        now >= snapshot.cache_generated_at + CACHE_VALIDITY_SECONDS,
        fresh.is_made_of(id, today, timezone, now, duration_ms, counts),
    ensures
        cache_outcome(
            false,
            Some(
                CachedSnapshot { snapshot, valid_until: Some(snapshot.cache_valid_until) },
            ),
            now,
        ) is Miss,
        fresh.cache_generated_at > snapshot.cache_generated_at,
        fresh.wf(),
{
}

/// A forced request is never served from the store, whatever is stored and
/// whatever the time.
pub proof fn forced_refresh_recomputes<S>(latest: Option<CachedSnapshot<S>>, now: i64)
    ensures
        cache_outcome(true, latest, now) is Miss,
{
}

/// Two snapshots made one after the other carry the identifiers and the
/// times they were made with: distinct where the identifiers are, and in the
/// order of the times.
pub proof fn successive_snapshots_differ(
    first: DashboardSnapshot,
    second: DashboardSnapshot,
    first_id: Seq<char>,
    second_id: Seq<char>,
    first_now: i64,
    second_now: i64,
    today: Date,
    timezone: Option<String>,
    duration_ms: i32,
    counts: DomainCounts,
)
    requires
        first.is_made_of(first_id, today, timezone, first_now, duration_ms, counts),
        second.is_made_of(second_id, today, timezone, second_now, duration_ms, counts),
        first_id != second_id,
        first_now <= second_now,
    ensures
        first.dashboard_id@ != second.dashboard_id@,
        first.cache_generated_at <= second.cache_generated_at,
{
}

} // verus!
