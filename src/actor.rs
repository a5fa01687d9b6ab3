use vstd::prelude::*;
use crate::credential::DuolingoApi;
use crate::model::{
    blocked_for, lessons_after, sum_xp, ActorCommand, RemoteProgress, SharedState,
};
use crate::progress::{daily_progress, fetch_cutoff, is_blocked};

verus! {

/// Where the actor stands.
#[derive(Clone, Copy, Debug, PartialEq, Eq)]
pub enum ActorState {
    /// No working client yet.
    Uninitialized,
    /// A client is at hand.
    Ready,
    /// Finished; no further work.
    Stopped,
}

/// What the loop around the actor performs next.
#[derive(Clone, Debug)]
pub enum ActorAction {
    /// Nothing; wait for the next command or the timer.
    Idle,
    /// Build and confirm a client for this token, then report the outcome
    /// with `on_credential_update`.
    BuildClient(String),
    /// Fetch today's progress with the current client, then report the
    /// outcome with `on_poll_success` or `on_poll_failure`.
    Fetch,
    /// Leave the loop.
    Exit,
}

/// What becomes of the done marker after a successful poll.
#[derive(Clone, Copy, Debug, PartialEq, Eq)]
pub enum MarkerAction {
    /// The quota is met: write the marker.
    Write,
    /// The quota is not met: remove the marker.
    Remove,
    /// The poll brought no usable snapshot: leave the marker alone.
    Leave,
}

/// The polling actor: the only writer of the shared status.
#[derive(Debug)]
pub struct PollingActor {
    pub client: Option<DuolingoApi>,
    pub status: SharedState,
    pub stopped: bool,
}

/// The status with its figures kept and the message replaced.
pub open spec fn only_message_changed(
    before: &SharedState,
    after: &SharedState,
    msg: Seq<char>,
) -> bool {
    &&& after.same_figures(before)
    &&& after.error_view() == Some(msg)
}

impl PollingActor {
    /// The status is consistent at every step.
    pub open spec fn inv(&self) -> bool {
        self.status.consistent()
    }

    pub open spec fn state_spec(&self) -> ActorState {
        if self.stopped {
            ActorState::Stopped
        } else if self.client is Some {
            ActorState::Ready
        } else {
            ActorState::Uninitialized
        }
    }

    /// A fresh actor: no client, the initial status.
    pub fn new() -> (r: PollingActor)
        ensures
            r.inv(),
            r.client is None,
            !r.stopped,
            r.status.is_initial(),
            r.status.last_error is None,
    {
        PollingActor { client: None, status: SharedState::default(), stopped: false }
    }

    pub fn state(&self) -> (r: ActorState)
        ensures
            r == self.state_spec(),
    {
        if self.stopped {
            ActorState::Stopped
        } else if self.client.is_some() {
            ActorState::Ready
        } else {
            ActorState::Uninitialized
        }
    }

    fn set_text(&mut self, text: &str)
        ensures
            final(self).client == old(self).client,
            final(self).stopped == old(self).stopped,
            only_message_changed(&old(self).status, &final(self).status, text@),
            old(self).inv() ==> final(self).inv(),
    {
        self.status.last_error = Some(String::from_str(text));
    }

    fn set_message(&mut self, prefix: &str, detail: &str)
        ensures
            final(self).client == old(self).client,
            final(self).stopped == old(self).stopped,
            only_message_changed(&old(self).status, &final(self).status, prefix@ + detail@),
            old(self).inv() ==> final(self).inv(),
    {
        let mut msg = String::from_str(prefix);
        msg.append(detail);
        self.status.last_error = Some(msg);
    }

    /// The outcome of building the first client. On failure the status keeps
    /// its figures and says why.
    pub fn on_startup(&mut self, built: Result<DuolingoApi, String>)
        requires
            old(self).inv(),
        ensures
            final(self).inv(),
            final(self).stopped == old(self).stopped,
            match built {
                Ok(c) => final(self).client == Some(c) && final(self).status == old(self).status,
                Err(e) => final(self).client == old(self).client && only_message_changed(
                    &old(self).status,
                    &final(self).status,
                    "init error: "@ + e@,
                ),
            },
    {
        match built {
            Ok(c) => {
                self.client = Some(c);
            },
            Err(e) => {
                self.set_message("init error: ", e.as_str());
            },
        }
    }

    /// The outcome of building a client for a new token. A new client
    /// replaces the old one wholesale; a failure keeps the old one, and the
    /// figures stay as they were either way.
    pub fn on_credential_update(&mut self, built: Result<DuolingoApi, String>)
        requires
            old(self).inv(),
        ensures
            final(self).inv(),
            final(self).stopped == old(self).stopped,
            match built {
                Ok(c) => final(self).client == Some(c) && only_message_changed(
                    &old(self).status,
                    &final(self).status,
                    "JWT updated OK"@,
                ),
                Err(e) => final(self).client == old(self).client && only_message_changed(
                    &old(self).status,
                    &final(self).status,
                    "JWT update failed: "@ + e@,
                ),
            },
    {
        match built {
            Ok(c) => {
                self.client = Some(c);
                self.set_text("JWT updated OK");
            },
            Err(e) => {
                self.set_message("JWT update failed: ", e.as_str());
            },
        }
    }

    /// Starts a poll: a fetch where there is a client; otherwise the status
    /// keeps its figures and says that no client is available.
    pub fn poll(&mut self) -> (r: ActorAction)
        requires
            old(self).inv(),
        ensures
            final(self).inv(),
            final(self).client == old(self).client,
            final(self).stopped == old(self).stopped,
            old(self).client is Some ==> r is Fetch && final(self).status == old(self).status,
            old(self).client is None ==> r is Idle && only_message_changed(
                &old(self).status,
                &final(self).status,
                "no client available"@,
            ),
    {
        if self.client.is_some() {
            ActorAction::Fetch
        } else {
            self.set_text("no client available");
            ActorAction::Idle
        }
    }

    /// A command from outside. A new token asks for a client to be built,
    /// a forced poll polls at once, and shutdown stops the actor.
    pub fn handle_command(&mut self, cmd: ActorCommand) -> (r: ActorAction)
        requires
            old(self).inv(),
        ensures
            final(self).inv(),
            final(self).client == old(self).client,
            old(self).stopped ==> r is Exit && *final(self) == *old(self),
            !old(self).stopped ==> match cmd {
                ActorCommand::UpdateJWT(t) => r == ActorAction::BuildClient(t) && *final(self)
                    == *old(self),
                ActorCommand::ForcePoll => !final(self).stopped && (if old(self).client is Some {
                    r is Fetch && final(self).status == old(self).status
                } else {
                    r is Idle && only_message_changed(
                        &old(self).status,
                        &final(self).status,
                        "no client available"@,
                    )
                }),
                ActorCommand::Shutdown => r is Exit && final(self).stopped && final(self).status
                    == old(self).status,
            },
    {
        if self.stopped {
            return ActorAction::Exit;
        }
        match cmd {
            ActorCommand::UpdateJWT(t) => ActorAction::BuildClient(t),
            ActorCommand::ForcePoll => self.poll(),
            ActorCommand::Shutdown => {
                self.stopped = true;
                ActorAction::Exit
            },
        }
    }

    /// The timer fired with no command pending.
    pub fn on_timer(&mut self) -> (r: ActorAction)
        requires
            old(self).inv(),
        ensures
            final(self).inv(),
            final(self).client == old(self).client,
            final(self).stopped == old(self).stopped,
            old(self).stopped ==> r is Exit && *final(self) == *old(self),
            !old(self).stopped && old(self).client is Some ==> r is Fetch && final(self).status
                == old(self).status,
            !old(self).stopped && old(self).client is None ==> r is Idle && only_message_changed(
                &old(self).status,
                &final(self).status,
                "no client available"@,
            ),
    {
        if self.stopped {
            ActorAction::Exit
        } else {
            self.poll()
        }
    }

    /// The command channel was closed: stop, as on shutdown.
    pub fn on_disconnect(&mut self)
        requires
            old(self).inv(),
        ensures
            final(self).inv(),
            final(self).stopped,
            final(self).client == old(self).client,
            final(self).status == old(self).status,
    {
        self.stopped = true;
    }

    /// A fetch succeeded. The snapshot replaces the figures wholesale, the
    /// message is cleared and the marker follows the verdict. Where today's
    /// total does not fit an `i64` the figures stay and the status says so.
    pub fn on_poll_success(&mut self, remote: RemoteProgress, local_midnight: i64, now: i64) -> (r:
        MarkerAction)
        requires
            old(self).inv(),
        ensures
            final(self).inv(),
            final(self).client == old(self).client,
            final(self).stopped == old(self).stopped,
            ({
                let today = lessons_after(remote.xp_gains@, fetch_cutoff(remote.reported_midnight, local_midnight, now));
                if sum_xp(today) <= i64::MAX {
                    &&& final(self).status.xp_goal == remote.xp_goal
                    &&& final(self).status.lessons@ == today
                    &&& final(self).status.xp_today == sum_xp(today)
                    &&& final(self).status.blocked == blocked_for(sum_xp(today))
                    &&& final(self).status.last_error is None
                    &&& r == (if blocked_for(sum_xp(today)) {
                        MarkerAction::Remove
                    } else {
                        MarkerAction::Write
                    })
                } else {
                    &&& r == MarkerAction::Leave
                    &&& only_message_changed(
                        &old(self).status,
                        &final(self).status,
                        "Poll error: XP total out of range"@,
                    )
                }
            }),
    {
        match daily_progress(remote, local_midnight, now) {
            Some(p) => {
                let blocked = is_blocked(p.xp_today);
                self.status.xp_goal = p.xp_goal;
                self.status.xp_today = p.xp_today;
                self.status.lessons = p.lessons_today;
                self.status.last_error = None;
                self.status.blocked = blocked;
                if blocked {
                    MarkerAction::Remove
                } else {
                    MarkerAction::Write
                }
            },
            None => {
                self.set_text("Poll error: XP total out of range");
                MarkerAction::Leave
            },
        }
    }

    /// A fetch failed: the last figures stay and the status says why.
    pub fn on_poll_failure(&mut self, reason: String)
        requires
            old(self).inv(),
        ensures
            final(self).inv(),
            final(self).client == old(self).client,
            final(self).stopped == old(self).stopped,
            only_message_changed(&old(self).status, &final(self).status, "Poll error: "@ + reason@),
    {
        self.set_message("Poll error: ", reason.as_str());
    }

    /// Writing the done marker failed: the verdict stays and the status says
    /// why.
    pub fn on_marker_failure(&mut self, reason: String)
        requires
            old(self).inv(),
        ensures
            final(self).inv(),
            final(self).client == old(self).client,
            final(self).stopped == old(self).stopped,
            only_message_changed(
                &old(self).status,
                &final(self).status,
                "Failed to write done file: "@ + reason@,
            ),
    {
        self.set_message("Failed to write done file: ", reason.as_str());
    }
}

} // verus!
