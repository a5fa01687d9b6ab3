use vstd::prelude::*;

verus! {

/// The fixed number of XP that unblocks the day.
pub const DAILY_XP_REQUIREMENT: i64 = 100;

/// One XP-earning event, as the remote service reports it.
#[derive(Clone, Copy, Debug, PartialEq, Eq)]
pub struct Lesson {
    /// Seconds since the unix epoch, on the remote service's clock.
    pub time: i64,
    pub xp: u32,
}

/// The total XP of a list of lessons.
pub open spec fn sum_xp(s: Seq<Lesson>) -> int
    decreases s.len(),
{
    if s.len() == 0 {
        0
    } else {
        sum_xp(s.drop_last()) + s.last().xp
    }
}

/// The lessons of `s` that lie strictly after `cutoff`, in their order.
pub open spec fn lessons_after(s: Seq<Lesson>, cutoff: i64) -> Seq<Lesson>
    decreases s.len(),
{
    if s.len() == 0 {
        Seq::empty()
    } else if s.last().time > cutoff {
        lessons_after(s.drop_last(), cutoff).push(s.last())
    } else {
        lessons_after(s.drop_last(), cutoff)
    }
}

/// Whether a day with `xp_today` XP is still blocked.
pub open spec fn blocked_for(xp_today: int) -> bool {
    xp_today < DAILY_XP_REQUIREMENT
}

/// What one successful fetch from the remote service hands over.
#[derive(Debug)]
pub struct RemoteProgress {
    /// The remote service's configured daily goal.
    pub xp_goal: i64,
    /// Recent lessons, of this day and earlier ones.
    pub xp_gains: Vec<Lesson>,
    /// The remote service's last reported midnight, if it could be read.
    pub reported_midnight: Option<i64>,
}

/// One day's snapshot: the goal, and the lessons of today with their total.
#[derive(Clone, Debug)]
pub struct DailyProgress {
    pub xp_goal: i64,
    pub lessons_today: Vec<Lesson>,
    pub xp_today: i64,
}

/// The snapshot under the name the actor's client uses.
pub type DailyXPProgress = DailyProgress;

impl DailyProgress {
    /// The total equals the XP of the lessons it was taken from.
    pub open spec fn consistent(&self) -> bool {
        self.xp_today == sum_xp(self.lessons_today@)
    }
}

/// The status that readers see.
#[derive(Clone, Debug)]
pub struct SharedState {
    pub blocked: bool,
    pub xp_today: i64,
    pub xp_goal: i64,
    pub lessons: Vec<Lesson>,
    pub last_error: Option<String>,
}

/// The text of an optional message.
pub open spec fn message_view(m: Option<String>) -> Option<Seq<char>> {
    match m {
        Some(s) => Some(s@),
        None => None,
    }
}

impl SharedState {
    /// `xp_today` is the total of `lessons`, and `blocked` follows from it.
    pub open spec fn consistent(&self) -> bool {
        &&& self.xp_today == sum_xp(self.lessons@)
        &&& self.blocked == blocked_for(self.xp_today as int)
    }

    /// The status before any successful poll.
    pub open spec fn is_initial(&self) -> bool {
        &&& self.blocked
        &&& self.xp_today == 0
        &&& self.xp_goal == 0
        &&& self.lessons@.len() == 0
    }

    /// The same figures as `other`; the message may differ.
    pub open spec fn same_figures(&self, other: &SharedState) -> bool {
        &&& self.blocked == other.blocked
        &&& self.xp_today == other.xp_today
        &&& self.xp_goal == other.xp_goal
        &&& self.lessons@ == other.lessons@
    }

    pub open spec fn error_view(&self) -> Option<Seq<char>> {
        message_view(self.last_error)
    }
}

impl Default for SharedState {
    fn default() -> (r: SharedState)
        ensures
            r.is_initial(),
            r.consistent(),
            r.last_error is None,
    {
        SharedState { blocked: true, xp_today: 0, xp_goal: 0, lessons: Vec::new(), last_error: None }
    }
}

/// The body of a status answer.
#[derive(Clone, Debug)]
pub struct Status {
    pub xp_goal: i64,
    pub xp_today: i64,
    pub lessons_today: Vec<Lesson>,
    pub blocked: bool,
}

/// A request to the polling actor.
#[derive(Clone, Debug)]
pub enum ActorCommand {
    UpdateJWT(String),
    ForcePoll,
    Shutdown,
}

} // verus!
