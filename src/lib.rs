//! Daily XP quota enforcement: the day-boundary reconciler, the snapshot
//! computation and the polling actor's state machine, with their contracts.

pub mod model;
pub mod progress;
pub mod credential;
pub mod actor;

pub use model::{
    ActorCommand, DailyProgress, DailyXPProgress, Lesson, RemoteProgress, SharedState, Status,
    DAILY_XP_REQUIREMENT,
};
pub use progress::{daily_progress, day_cutoff, is_blocked, lessons_after_cutoff, total_xp};
pub use credential::DuolingoApi;
pub use actor::{ActorAction, ActorState, MarkerAction, PollingActor};
