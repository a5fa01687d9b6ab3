use vstd::prelude::*;
use crate::model::{
    blocked_for, lessons_after, sum_xp, DailyProgress, Lesson, RemoteProgress, SharedState, Status,
    DAILY_XP_REQUIREMENT,
};

verus! {

/// The cutoff between yesterday and today. Where the remote midnight lies
/// after the local one, the remote service has already rolled over and its
/// midnight is taken as it is; otherwise the local midnight counts.
pub open spec fn cutoff_spec(reported_midnight: i64, local_midnight: i64) -> i64 {
    if local_midnight - reported_midnight < 0 {
        reported_midnight
    } else {
        local_midnight
    }
}

/// The cutoff for a fetch: without a readable remote midnight, the current
/// instant, so that no lesson counts as today's.
pub open spec fn fetch_cutoff(reported_midnight: Option<i64>, local_midnight: i64, now: i64) -> i64 {
    match reported_midnight {
        Some(t) => cutoff_spec(t, local_midnight),
        None => now,
    }
}

/// Reconciles the remote service's reported midnight with the local one.
pub fn day_cutoff(reported_midnight: i64, local_midnight: i64) -> (r: i64)
    ensures
        r == cutoff_spec(reported_midnight, local_midnight),
{
    if local_midnight < reported_midnight {
        reported_midnight
    } else {
        local_midnight
    }
}

/// The reconciler on aligned clocks gives the common midnight; with the local
/// midnight an hour after the remote one, the local midnight; with it an hour
/// before, the remote midnight unadjusted.
pub proof fn lemma_day_cutoff_alignment(t: i64)
    requires
        i64::MIN + 3600 <= t <= i64::MAX - 3600,
    ensures
        cutoff_spec(t, t) == t,
        cutoff_spec(t, (t + 3600) as i64) == t + 3600,
        cutoff_spec(t, (t - 3600) as i64) == t,
{
}

/// Whether a day with `xp_today` XP stays blocked.
pub fn is_blocked(xp_today: i64) -> (r: bool)
    ensures
        r == blocked_for(xp_today as int),
        r <==> xp_today < 100,
{
    xp_today < DAILY_XP_REQUIREMENT
}

/// The lessons strictly after `cutoff`, in the order given.
pub fn lessons_after_cutoff(lessons: &Vec<Lesson>, cutoff: i64) -> (r: Vec<Lesson>)
    ensures
        r@ == lessons_after(lessons@, cutoff),
{
    let mut out: Vec<Lesson> = Vec::new();
    let mut i: usize = 0;
    while i < lessons.len()
        invariant
            i <= lessons@.len(),
            out@ == lessons_after(lessons@.subrange(0, i as int), cutoff),
        decreases lessons@.len() - i,
    {
        let l = lessons[i];
        assert(lessons@.subrange(0, i as int + 1).drop_last() =~= lessons@.subrange(0, i as int));
        if l.time > cutoff {
            out.push(l);
        }
        i = i + 1;
    }
    assert(lessons@.subrange(0, lessons@.len() as int) =~= lessons@);
    out
}

proof fn lemma_sum_nonneg(s: Seq<Lesson>)
    ensures
        sum_xp(s) >= 0,
    decreases s.len(),
{
    if s.len() > 0 {
        lemma_sum_nonneg(s.drop_last());
    }
}

proof fn lemma_sum_prefix_le(s: Seq<Lesson>, j: int)
    requires
        0 <= j <= s.len(),
    ensures
        sum_xp(s.subrange(0, j)) <= sum_xp(s),
    decreases s.len(),
{
    if j == s.len() {
        assert(s.subrange(0, j) =~= s);
    } else {
        assert(s.drop_last().subrange(0, j) =~= s.subrange(0, j));
        lemma_sum_prefix_le(s.drop_last(), j);
    }
}

/// The total XP of `lessons`, or `None` where it exceeds `i64::MAX`.
pub fn total_xp(lessons: &Vec<Lesson>) -> (r: Option<i64>)
    ensures
        r is Some <==> sum_xp(lessons@) <= i64::MAX,
        r matches Some(t) ==> t == sum_xp(lessons@),
{
    let mut total: i64 = 0;
    let mut i: usize = 0;
    while i < lessons.len()
        invariant
            i <= lessons@.len(),
            total == sum_xp(lessons@.subrange(0, i as int)),
        decreases lessons@.len() - i,
    {
        let xp = lessons[i].xp;
        assert(lessons@.subrange(0, i as int + 1).drop_last() =~= lessons@.subrange(0, i as int));
        proof {
            lemma_sum_nonneg(lessons@.subrange(0, i as int));
        }
        if total > i64::MAX - xp as i64 {
            proof {
                lemma_sum_prefix_le(lessons@, i as int + 1);
            }
            return None;
        }
        total = total + xp as i64;
        i = i + 1;
    }
    assert(lessons@.subrange(0, lessons@.len() as int) =~= lessons@);
    Some(total)
}

/// Today's snapshot from one fetch: the lessons after the reconciled cutoff
/// and their total. `None` where that total exceeds `i64::MAX`.
pub fn daily_progress(remote: RemoteProgress, local_midnight: i64, now: i64) -> (r: Option<
    DailyProgress,
>)
    ensures
        ({
            let today = lessons_after(remote.xp_gains@, fetch_cutoff(remote.reported_midnight, local_midnight, now));
            &&& r is Some <==> sum_xp(today) <= i64::MAX
            &&& r matches Some(p) ==> {
                &&& p.xp_goal == remote.xp_goal
                &&& p.lessons_today@ == today
                &&& p.xp_today == sum_xp(today)
                &&& p.consistent()
            }
        }),
{
    let cutoff = match remote.reported_midnight {
        Some(t) => day_cutoff(t, local_midnight),
        None => now,
    };
    let lessons_today = lessons_after_cutoff(&remote.xp_gains, cutoff);
    match total_xp(&lessons_today) {
        Some(xp_today) => Some(DailyProgress { xp_goal: remote.xp_goal, lessons_today, xp_today }),
        None => None,
    }
}

impl Status {
    /// The status answer for a snapshot: its goal, its lessons and total,
    /// and the verdict against the fixed requirement.
    pub fn from_progress(progress: DailyProgress) -> (r: Status)
        ensures
            r.xp_goal == progress.xp_goal,
            r.xp_today == progress.xp_today,
            r.lessons_today@ == progress.lessons_today@,
            r.blocked == blocked_for(progress.xp_today as int),
    {
        let blocked = is_blocked(progress.xp_today);
        Status {
            xp_goal: progress.xp_goal,
            xp_today: progress.xp_today,
            lessons_today: progress.lessons_today,
            blocked,
        }
    }

    /// The status answer for the shared status: the same figures and
    /// verdict, without the message.
    pub fn from_shared(state: SharedState) -> (r: Status)
        ensures
            r.xp_goal == state.xp_goal,
            r.xp_today == state.xp_today,
            r.lessons_today@ == state.lessons@,
            r.blocked == state.blocked,
    {
        Status {
            xp_goal: state.xp_goal,
            xp_today: state.xp_today,
            lessons_today: state.lessons,
            blocked: state.blocked,
        }
    }
}

} // verus!
