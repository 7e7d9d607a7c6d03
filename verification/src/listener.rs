//! Watching the judge pod: which signals the controller raises for each event of
//! the pod watch, and the guarantee that each signal is raised at most once.

use vstd::prelude::*;
use crate::pod::{
    image_pull_failing, is_pull_image_error, phase, pod_phase, solver_exit, solver_exit_reason,
    ListenStopReason, PodInfo, SolverStopReason,
};
use crate::text::eq_str;

verus! {

/// One event of a watch on the judge pod.
pub enum PodWatchEvent {
    Added(PodInfo),
    Modified(PodInfo),
    Deleted(PodInfo),
    Bookmark,
    Error(String),
}

/// What the listener has done so far: whether it already reported the pod as
/// running, and whether it stopped watching.
#[derive(PartialEq, Eq, Structural, Clone, Copy)]
pub struct PodListener {
    pub running_delivered: bool,
    pub stopped: bool,
}

/// The signals raised for one event: the pod that is now running, why the pod
/// ended, or why watching failed.
pub struct ListenSignals {
    pub running: Option<PodInfo>,
    pub ended: Option<Option<SolverStopReason>>,
    pub error: Option<ListenStopReason>,
}

pub open spec fn no_signals() -> ListenSignals {
    ListenSignals { running: None, ended: None, error: None }
}

pub open spec fn stopped_state(s: PodListener) -> PodListener {
    PodListener { stopped: true, ..s }
}

/// The listener's reaction to a `Modified` event for pod `p`.
pub open spec fn modified_step(s: PodListener, p: PodInfo) -> (PodListener, ListenSignals) {
    let ph = pod_phase(p);
    let is_running = ph == "Running"@;
    let run = if is_running && !s.running_delivered { Some(p) } else { None };
    let s1 = PodListener { running_delivered: s.running_delivered || is_running, ..s };
    if ph == "Failed"@ || ph == "Succeeded"@ {
        (stopped_state(s1), ListenSignals { running: None, ended: Some(solver_exit(p)), error: None })
    } else if solver_exit(p) is Some && solver_exit(p)->0 != SolverStopReason::Completed {
        (stopped_state(s1), ListenSignals { running: run, ended: Some(solver_exit(p)), error: None })
    } else if p.status is None {
        // A pod without status ends the watch: nothing more is reported.
        (stopped_state(s1), ListenSignals { running: run, ended: None, error: None })
    } else if image_pull_failing(p) {
        (
            stopped_state(s1),
            ListenSignals { running: run, ended: None, error: Some(ListenStopReason::ImagePullBackOff) },
        )
    } else {
        (s1, ListenSignals { running: run, ended: None, error: None })
    }
}

/// The listener's reaction to one watch event.
pub open spec fn listen_step(s: PodListener, ev: PodWatchEvent) -> (PodListener, ListenSignals) {
    if s.stopped {
        (s, no_signals())
    } else {
        match ev {
            PodWatchEvent::Modified(p) => modified_step(s, p),
            PodWatchEvent::Deleted(p) => (
                stopped_state(s),
                ListenSignals { running: None, ended: Some(solver_exit(p)), error: None },
            ),
            PodWatchEvent::Error(_) => (
                stopped_state(s),
                ListenSignals { running: None, ended: None, error: Some(ListenStopReason::Error) },
            ),
            _ => (s, no_signals()),
        }
    }
}

/// The number of terminal signals (pod ended, or watching failed) in `sig`.
pub open spec fn terminal_count(sig: ListenSignals) -> nat {
    (if sig.ended is Some { 1nat } else { 0nat }) + (if sig.error is Some { 1nat } else { 0nat })
}

/// Feeds `evs` to the listener in order: the final state, how many times the pod
/// was reported running, and how many terminal signals were raised.
pub open spec fn listen_run(s: PodListener, evs: Seq<PodWatchEvent>) -> (PodListener, nat, nat)
    decreases evs.len(),
{
    if evs.len() == 0 {
        (s, 0, 0)
    } else {
        let (s1, sig) = listen_step(s, evs[0]);
        let (s2, r, t) = listen_run(s1, evs.drop_first());
        (s2, r + (if sig.running is Some { 1nat } else { 0nat }), t + terminal_count(sig))
    }
}

impl PodListener {
    /// A listener that has reported nothing yet.
    pub fn new() -> (l: PodListener)
        ensures
            l == (PodListener { running_delivered: false, stopped: false }),
    {
        PodListener { running_delivered: false, stopped: false }
    }

    /// Handles one event of the watch and says which signals to raise.
    pub fn on_event(&mut self, ev: PodWatchEvent) -> (sig: ListenSignals)
        ensures
            (*final(self), sig) == listen_step(*old(self), ev),
    {
        if self.stopped {
            return ListenSignals { running: None, ended: None, error: None };
        }
        match ev {
            PodWatchEvent::Modified(p) => self.on_modified(p),
            PodWatchEvent::Deleted(p) => {
                let reason = solver_exit_reason(&p);
                self.stopped = true;
                ListenSignals { running: None, ended: Some(reason), error: None }
            },
            PodWatchEvent::Error(_) => {
                self.stopped = true;
                ListenSignals { running: None, ended: None, error: Some(ListenStopReason::Error) }
            },
            PodWatchEvent::Added(_) => ListenSignals { running: None, ended: None, error: None },
            PodWatchEvent::Bookmark => ListenSignals { running: None, ended: None, error: None },
        }
    }

    /// The watch ended or failed without an event: nothing more is reported.
    pub fn close(&mut self)
        ensures
            *final(self) == stopped_state(*old(self)),
    {
        self.stopped = true;
    }

    fn on_modified(&mut self, p: PodInfo) -> (sig: ListenSignals)
        requires
            !old(self).stopped,
        ensures
            (*final(self), sig) == modified_step(*old(self), p),
    {
        let ph = phase(&p);
        let is_running = eq_str(&ph, "Running");
        let first_running = is_running && !self.running_delivered;
        self.running_delivered = self.running_delivered || is_running;
        if eq_str(&ph, "Failed") || eq_str(&ph, "Succeeded") {
            let reason = solver_exit_reason(&p);
            self.stopped = true;
            return ListenSignals { running: None, ended: Some(reason), error: None };
        }
        let reason = solver_exit_reason(&p);
        let abnormal = match reason {
            Some(r) => r != SolverStopReason::Completed,
            None => false,
        };
        if abnormal {
            self.stopped = true;
            let run = if first_running { Some(p) } else { None };
            return ListenSignals { running: run, ended: Some(reason), error: None };
        }
        if p.status.is_none() {
            self.stopped = true;
            let run = if first_running { Some(p) } else { None };
            return ListenSignals { running: run, ended: None, error: None };
        }
        let pull_failing = is_pull_image_error(&p);
        let run = if first_running { Some(p) } else { None };
        if pull_failing {
            self.stopped = true;
            ListenSignals { running: run, ended: None, error: Some(ListenStopReason::ImagePullBackOff) }
        } else {
            ListenSignals { running: run, ended: None, error: None }
        }
    }
}

/// A stopped listener stays stopped and raises nothing, whatever the event.
pub proof fn lemma_stopped_listener_is_silent(s: PodListener, ev: PodWatchEvent)
    requires
        s.stopped,
    ensures
        listen_step(s, ev).0 == s,
        listen_step(s, ev).1 == no_signals(),
{
}

proof fn lemma_listen_run_bounds(s: PodListener, evs: Seq<PodWatchEvent>)
    ensures
        listen_run(s, evs).1 <= (if s.running_delivered { 0nat } else { 1nat }),
        listen_run(s, evs).2 <= (if s.stopped { 0nat } else { 1nat }),
        s.stopped ==> listen_run(s, evs).0 == s,
        s.running_delivered ==> listen_run(s, evs).0.running_delivered,
    decreases evs.len(),
{
    if evs.len() > 0 {
        let (s1, sig) = listen_step(s, evs[0]);
        lemma_listen_run_bounds(s1, evs.drop_first());
        assert(sig.running is Some ==> !s.running_delivered && s1.running_delivered);
        assert(terminal_count(sig) > 0 ==> !s.stopped && s1.stopped);
        assert(terminal_count(sig) <= 1);
    }
}

/// While the pod runs, a solver that completed normally does not end the watch:
/// the judger may still be reading its output.
pub proof fn lemma_completed_solver_keeps_watching(s: PodListener, p: PodInfo)
    requires
        !s.stopped,
        pod_phase(p) == "Running"@,
        solver_exit(p) == Some(SolverStopReason::Completed),
        !image_pull_failing(p),
    ensures
        !listen_step(s, PodWatchEvent::Modified(p)).0.stopped,
        listen_step(s, PodWatchEvent::Modified(p)).1.ended is None,
        listen_step(s, PodWatchEvent::Modified(p)).1.error is None,
{
    reveal_strlit("Running");
    reveal_strlit("Failed");
    reveal_strlit("Succeeded");
    assert("Running"@.len() == 7 && "Failed"@.len() == 6 && "Succeeded"@.len() == 9);
    assert(pod_phase(p) != "Failed"@ && pod_phase(p) != "Succeeded"@);
    assert(p.status is Some);
}

/// A solver that stopped in any other way than completing (an error, out of
/// memory, or another reason) ends the watch, and the reason is reported, unless
/// the pod as a whole already failed or succeeded.
pub proof fn lemma_abnormal_solver_exit_ends_watch(s: PodListener, p: PodInfo, r: SolverStopReason)
    requires
        !s.stopped,
        pod_phase(p) != "Failed"@,
        pod_phase(p) != "Succeeded"@,
        solver_exit(p) == Some(r),
        r != SolverStopReason::Completed,
    ensures
        listen_step(s, PodWatchEvent::Modified(p)).0.stopped,
        listen_step(s, PodWatchEvent::Modified(p)).1.ended == Some(Some(r)),
        listen_step(s, PodWatchEvent::Modified(p)).1.error is None,
{
}

/// A pod that failed or succeeded ends the watch, with the solver's stop reason.
pub proof fn lemma_finished_pod_ends_watch(s: PodListener, p: PodInfo)
    requires
        !s.stopped,
        pod_phase(p) == "Failed"@ || pod_phase(p) == "Succeeded"@,
    ensures
        listen_step(s, PodWatchEvent::Modified(p)).0.stopped,
        listen_step(s, PodWatchEvent::Modified(p)).1.ended == Some(solver_exit(p)),
        listen_step(s, PodWatchEvent::Modified(p)).1.running is None,
        listen_step(s, PodWatchEvent::Modified(p)).1.error is None,
{
}

/// The first time the pod is seen running, that pod is reported running; the
/// listener remembers it, so later `Running` events report nothing more.
pub proof fn lemma_first_running_is_reported(s: PodListener, p: PodInfo)
    requires
        !s.stopped,
        pod_phase(p) == "Running"@,
    ensures
        listen_step(s, PodWatchEvent::Modified(p)).1.running == (if s.running_delivered {
            None
        } else {
            Some(p)
        }),
        listen_step(s, PodWatchEvent::Modified(p)).0.running_delivered,
{
    reveal_strlit("Running");
    reveal_strlit("Failed");
    reveal_strlit("Succeeded");
    assert("Running"@.len() == 7 && "Failed"@.len() == 6 && "Succeeded"@.len() == 9);
    assert(pod_phase(p) != "Failed"@ && pod_phase(p) != "Succeeded"@);
}

/// A pod whose image cannot be pulled ends the watch with that reason, unless it
/// already finished or its solver stopped abnormally.
pub proof fn lemma_image_pull_failure_ends_watch(s: PodListener, p: PodInfo)
    requires
        !s.stopped,
        pod_phase(p) != "Failed"@,
        pod_phase(p) != "Succeeded"@,
        solver_exit(p) is None || solver_exit(p) == Some(SolverStopReason::Completed),
        image_pull_failing(p),
    ensures
        listen_step(s, PodWatchEvent::Modified(p)).0.stopped,
        listen_step(s, PodWatchEvent::Modified(p)).1.error == Some(ListenStopReason::ImagePullBackOff),
        listen_step(s, PodWatchEvent::Modified(p)).1.ended is None,
{
}

/// A deleted pod ends the watch with the solver's stop reason; an error of the
/// watch ends it as failed.
pub proof fn lemma_deletion_and_errors_end_watch(s: PodListener, p: PodInfo, m: String)
    requires
        !s.stopped,
    ensures
        listen_step(s, PodWatchEvent::Deleted(p)).0.stopped,
        listen_step(s, PodWatchEvent::Deleted(p)).1.ended == Some(solver_exit(p)),
        listen_step(s, PodWatchEvent::Error(m)).0.stopped,
        listen_step(s, PodWatchEvent::Error(m)).1.error == Some(ListenStopReason::Error),
{
}

/// Over any sequence of watch events, a fresh listener reports the pod running
/// at most once, and raises at most one terminal signal (the pod ended, or
/// watching failed).
pub proof fn lemma_listener_signals_at_most_once(evs: Seq<PodWatchEvent>)
    ensures
        listen_run(PodListener { running_delivered: false, stopped: false }, evs).1 <= 1,
        listen_run(PodListener { running_delivered: false, stopped: false }, evs).2 <= 1,
{
    lemma_listen_run_bounds(PodListener { running_delivered: false, stopped: false }, evs);
}

} // verus!
