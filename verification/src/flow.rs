//! The life of one judge as a state machine: which phase it is in, how each
//! outcome of the outside work moves it on, and what it does in return. The
//! outside work (watching, creating the pod, binding its streams, waiting) is done
//! by the caller, which feeds the outcomes back as events.

use vstd::prelude::*;

verus! {

/// What the judger reported for the solution.
pub struct TestResult {
    pub code: i32,
    pub other_msg: Option<String>,
}

/// How a judge ended.
pub enum ExitCode {
    TimeLimitExceeded,
    RuntimeError,
    /// The code the judger reported.
    Reported(i32),
}

/// The end of a judge, with an optional explanation.
pub struct ExitMsg {
    pub judge_code: ExitCode,
    pub other_msg: Option<String>,
}

/// What the controller tells the client about a judge.
pub enum JudgeEvent {
    /// The pod or job was created; its uid as text.
    Created { job_uid: String },
    /// The job was created; its uid as UUID bytes.
    CreatedUuid { job_uuid: [u8; 16] },
    /// The judge ended.
    Exit(ExitMsg),
    /// Something failed along the way.
    Error { msg: String },
}

/// Where a judge is in its life.
#[derive(PartialEq, Eq, Structural, Clone, Copy, Debug)]
pub enum JudgePhase {
    /// Starting to watch the judge pod.
    Listening,
    /// Creating the judge pod.
    Creating,
    /// Waiting for the pod to run.
    AwaitRunning,
    /// The pod runs; waiting for the judger's report or the time limit.
    Running,
    /// Finished.
    Done,
}

/// The outcome of a piece of outside work.
pub enum FlowEvent {
    ListenerStarted,
    ListenerFailed(String),
    /// The pod was created; its uid where the cluster gave one.
    PodCreated(Option<String>),
    PodCreateFailed,
    PodRunning,
    PodEnded,
    /// Binding the streams or registering with the judge server failed.
    IoFailed(String),
    TimedOut,
    ResultReceived(TestResult),
}

/// What the caller has to do next.
pub enum FlowAction {
    CreatePod,
    /// Bind the pod's streams and register the judge with the judge server.
    StartIo,
    /// Start the time limit of the judge: `TimedOut` is due once it has passed.
    ArmDeadline,
    /// Withdraw the registration from the judge server.
    CancelRegistration,
    Send(JudgeEvent),
    /// Stop the pending work, and delete the pod where it was created.
    Cleanup { delete_pod: bool },
}

/// The transition of a judge on one event: the next phase and the actions, in
/// order. Events that do not fit the phase change nothing.
pub open spec fn flow_step(phase: JudgePhase, ev: FlowEvent) -> (JudgePhase, Seq<FlowAction>) {
    match phase {
        JudgePhase::Listening => match ev {
            FlowEvent::ListenerStarted => (JudgePhase::Creating, seq![FlowAction::CreatePod]),
            FlowEvent::ListenerFailed(m) => (
                JudgePhase::Done,
                seq![FlowAction::Send(JudgeEvent::Error { msg: m }), FlowAction::Cleanup { delete_pod: false }],
            ),
            _ => (phase, Seq::empty()),
        },
        JudgePhase::Creating => match ev {
            FlowEvent::PodCreated(uid) => (
                JudgePhase::AwaitRunning,
                match uid {
                    Some(u) => seq![FlowAction::Send(JudgeEvent::Created { job_uid: u })],
                    None => Seq::empty(),
                },
            ),
            FlowEvent::PodCreateFailed => (JudgePhase::Done, seq![FlowAction::Cleanup { delete_pod: false }]),
            _ => (phase, Seq::empty()),
        },
        JudgePhase::AwaitRunning => match ev {
            FlowEvent::PodRunning => (JudgePhase::Running, seq![FlowAction::StartIo, FlowAction::ArmDeadline]),
            FlowEvent::PodEnded => (JudgePhase::Done, seq![FlowAction::Cleanup { delete_pod: true }]),
            _ => (phase, Seq::empty()),
        },
        JudgePhase::Running => match ev {
            FlowEvent::IoFailed(m) => (JudgePhase::Running, seq![FlowAction::Send(JudgeEvent::Error { msg: m })]),
            FlowEvent::TimedOut => (
                JudgePhase::Done,
                seq![
                    FlowAction::CancelRegistration,
                    FlowAction::Send(
                        JudgeEvent::Exit(ExitMsg { judge_code: ExitCode::TimeLimitExceeded, other_msg: None }),
                    ),
                    FlowAction::Cleanup { delete_pod: true },
                ],
            ),
            FlowEvent::ResultReceived(r) => (
                JudgePhase::Done,
                seq![
                    FlowAction::Send(
                        JudgeEvent::Exit(ExitMsg { judge_code: ExitCode::Reported(r.code), other_msg: r.other_msg }),
                    ),
                    FlowAction::Cleanup { delete_pod: true },
                ],
            ),
            _ => (phase, Seq::empty()),
        },
        JudgePhase::Done => (phase, Seq::empty()),
    }
}

/// Feeds `evs` in order: the final phase and all actions, in order.
pub open spec fn flow_run(phase: JudgePhase, evs: Seq<FlowEvent>) -> (JudgePhase, Seq<FlowAction>)
    decreases evs.len(),
{
    if evs.len() == 0 {
        (phase, Seq::empty())
    } else {
        let (p1, a) = flow_step(phase, evs[0]);
        let (p2, b) = flow_run(p1, evs.drop_first());
        (p2, a + b)
    }
}

pub open spec fn is_cleanup(a: FlowAction) -> bool {
    a is Cleanup
}

pub open spec fn is_exit(a: FlowAction) -> bool {
    a matches FlowAction::Send(JudgeEvent::Exit(_))
}

/// How many actions of `acts` satisfy `p`.
pub open spec fn count_actions(acts: Seq<FlowAction>, p: spec_fn(FlowAction) -> bool) -> nat
    decreases acts.len(),
{
    if acts.len() == 0 {
        0
    } else {
        (if p(acts[0]) { 1nat } else { 0nat }) + count_actions(acts.drop_first(), p)
    }
}

pub open spec fn is_arm(a: FlowAction) -> bool {
    a is ArmDeadline
}

/// The end of a judge that ran out of time.
pub open spec fn is_timeout_exit(a: FlowAction) -> bool {
    a matches FlowAction::Send(JudgeEvent::Exit(m)) && m.judge_code is TimeLimitExceeded
}

/// Every time-out end in `acts` comes after the time limit was started.
pub open spec fn armed_before_timeouts(acts: Seq<FlowAction>) -> bool {
    forall|i: int|
        0 <= i < acts.len() && #[trigger] is_timeout_exit(acts[i]) ==> exists|j: int| 0 <= j < i && is_arm(acts[j])
}

/// The phases before the pod runs.
pub open spec fn before_running(p: JudgePhase) -> bool {
    p == JudgePhase::Listening || p == JudgePhase::Creating || p == JudgePhase::AwaitRunning
}

/// A judge about to start watching its pod.
pub struct JudgeFlow {
    pub phase: JudgePhase,
}

impl JudgeFlow {
    pub fn new() -> (f: JudgeFlow)
        ensures
            f.phase == JudgePhase::Listening,
    {
        JudgeFlow { phase: JudgePhase::Listening }
    }

    /// Moves the judge on by one event and returns what to do, in order.
    pub fn step(&mut self, ev: FlowEvent) -> (acts: Vec<FlowAction>)
        ensures
            (final(self).phase, acts@) == flow_step(old(self).phase, ev),
    {
        let mut acts: Vec<FlowAction> = Vec::new();
        match self.phase {
            JudgePhase::Listening => match ev {
                FlowEvent::ListenerStarted => {
                    acts.push(FlowAction::CreatePod);
                    self.phase = JudgePhase::Creating;
                },
                FlowEvent::ListenerFailed(m) => {
                    acts.push(FlowAction::Send(JudgeEvent::Error { msg: m }));
                    acts.push(FlowAction::Cleanup { delete_pod: false });
                    self.phase = JudgePhase::Done;
                },
                _ => {},
            },
            JudgePhase::Creating => match ev {
                FlowEvent::PodCreated(uid) => {
                    match uid {
                        Some(u) => acts.push(FlowAction::Send(JudgeEvent::Created { job_uid: u })),
                        None => {},
                    }
                    self.phase = JudgePhase::AwaitRunning;
                },
                FlowEvent::PodCreateFailed => {
                    acts.push(FlowAction::Cleanup { delete_pod: false });
                    self.phase = JudgePhase::Done;
                },
                _ => {},
            },
            JudgePhase::AwaitRunning => match ev {
                FlowEvent::PodRunning => {
                    acts.push(FlowAction::StartIo);
                    acts.push(FlowAction::ArmDeadline);
                    self.phase = JudgePhase::Running;
                },
                FlowEvent::PodEnded => {
                    acts.push(FlowAction::Cleanup { delete_pod: true });
                    self.phase = JudgePhase::Done;
                },
                _ => {},
            },
            JudgePhase::Running => match ev {
                FlowEvent::IoFailed(m) => {
                    acts.push(FlowAction::Send(JudgeEvent::Error { msg: m }));
                },
                FlowEvent::TimedOut => {
                    acts.push(FlowAction::CancelRegistration);
                    acts.push(
                        FlowAction::Send(
                            JudgeEvent::Exit(ExitMsg { judge_code: ExitCode::TimeLimitExceeded, other_msg: None }),
                        ),
                    );
                    acts.push(FlowAction::Cleanup { delete_pod: true });
                    self.phase = JudgePhase::Done;
                },
                FlowEvent::ResultReceived(r) => {
                    acts.push(
                        FlowAction::Send(
                            JudgeEvent::Exit(ExitMsg { judge_code: ExitCode::Reported(r.code), other_msg: r.other_msg }),
                        ),
                    );
                    acts.push(FlowAction::Cleanup { delete_pod: true });
                    self.phase = JudgePhase::Done;
                },
                _ => {},
            },
            JudgePhase::Done => {},
        }
        proof {
            let (_, expected) = flow_step(old(self).phase, ev);
            assert(acts@ =~= expected);
        }
        acts
    }
}

proof fn lemma_count_add(a: Seq<FlowAction>, b: Seq<FlowAction>, p: spec_fn(FlowAction) -> bool)
    ensures
        count_actions(a + b, p) == count_actions(a, p) + count_actions(b, p),
    decreases a.len(),
{
    if a.len() > 0 {
        assert((a + b).drop_first() =~= a.drop_first() + b);
        lemma_count_add(a.drop_first(), b, p);
    } else {
        assert(a + b =~= b);
    }
}

proof fn lemma_step_counts(phase: JudgePhase, ev: FlowEvent)
    ensures
        ({
            let (p1, a) = flow_step(phase, ev);
            &&& phase == JudgePhase::Done ==> p1 == JudgePhase::Done && a.len() == 0
            &&& count_actions(a, |x: FlowAction| is_cleanup(x))
                == (if phase != JudgePhase::Done && p1 == JudgePhase::Done { 1nat } else { 0nat })
            &&& count_actions(a, |x: FlowAction| is_exit(x)) <= count_actions(a, |x: FlowAction| is_cleanup(x))
        }),
{
    reveal_with_fuel(count_actions, 4);
}

proof fn lemma_run_counts(phase: JudgePhase, evs: Seq<FlowEvent>)
    ensures
        ({
            let (p2, acts) = flow_run(phase, evs);
            &&& phase == JudgePhase::Done ==> p2 == JudgePhase::Done && acts.len() == 0
            &&& count_actions(acts, |x: FlowAction| is_cleanup(x))
                == (if phase != JudgePhase::Done && p2 == JudgePhase::Done { 1nat } else { 0nat })
            &&& count_actions(acts, |x: FlowAction| is_exit(x)) <= count_actions(acts, |x: FlowAction| is_cleanup(x))
        }),
    decreases evs.len(),
{
    if evs.len() > 0 {
        let (p1, a) = flow_step(phase, evs[0]);
        let (p2, b) = flow_run(p1, evs.drop_first());
        lemma_step_counts(phase, evs[0]);
        lemma_run_counts(p1, evs.drop_first());
        lemma_count_add(a, b, |x: FlowAction| is_cleanup(x));
        lemma_count_add(a, b, |x: FlowAction| is_exit(x));
    }
}

proof fn lemma_step_arm(phase: JudgePhase, ev: FlowEvent)
    ensures
        ({
            let (p1, a) = flow_step(phase, ev);
            &&& count_actions(a, |x: FlowAction| is_arm(x))
                == (if before_running(phase) && p1 == JudgePhase::Running { 1nat } else { 0nat })
            &&& before_running(phase) && p1 == JudgePhase::Running ==> a == seq![
                FlowAction::StartIo,
                FlowAction::ArmDeadline,
            ]
            &&& before_running(phase) ==> (p1 == JudgePhase::Running || p1 == JudgePhase::Done || before_running(p1))
            &&& before_running(phase) ==> forall|i: int| 0 <= i < a.len() ==> !is_timeout_exit(a[i])
            &&& phase == JudgePhase::Running ==> p1 == JudgePhase::Running || p1 == JudgePhase::Done
        }),
{
    reveal_with_fuel(count_actions, 4);
}

proof fn lemma_run_arm(phase: JudgePhase, evs: Seq<FlowEvent>)
    ensures
        count_actions(flow_run(phase, evs).1, |x: FlowAction| is_arm(x)) <= (if before_running(phase) {
            1nat
        } else {
            0nat
        }),
        before_running(phase) ==> armed_before_timeouts(flow_run(phase, evs).1),
    decreases evs.len(),
{
    if evs.len() > 0 {
        let (p1, a) = flow_step(phase, evs[0]);
        let (p2, b) = flow_run(p1, evs.drop_first());
        let c = a + b;
        lemma_step_arm(phase, evs[0]);
        lemma_run_arm(p1, evs.drop_first());
        lemma_run_counts(p1, evs.drop_first());
        lemma_count_add(a, b, |x: FlowAction| is_arm(x));
        if before_running(phase) {
            assert forall|i: int| 0 <= i < c.len() && #[trigger] is_timeout_exit(c[i]) implies exists|j: int|
                0 <= j < i && is_arm(c[j]) by {
                if i < a.len() {
                    assert(c[i] == a[i]);
                } else {
                    assert(c[i] == b[i - a.len()]);
                    if p1 == JudgePhase::Running {
                        assert(c[1] == FlowAction::ArmDeadline);
                        assert(is_arm(c[1]));
                    } else if p1 == JudgePhase::Done {
                        assert(b.len() == 0);
                    } else {
                        assert(is_timeout_exit(b[i - a.len()]));
                        let j = choose|j: int| 0 <= j < i - a.len() && is_arm(b[j]);
                        assert(c[j + a.len()] == b[j]);
                        assert(is_arm(c[j + a.len()]));
                    }
                }
            }
        }
    } else {
        assert(flow_run(phase, evs).1 =~= Seq::<FlowAction>::empty());
    }
}

/// The time limit of a judge is started at most once, and only a judge whose
/// limit was started can run out of time: every time-out end comes after it.
pub proof fn lemma_deadline_armed_once(evs: Seq<FlowEvent>)
    ensures
        count_actions(flow_run(JudgePhase::Listening, evs).1, |x: FlowAction| is_arm(x)) <= 1,
        armed_before_timeouts(flow_run(JudgePhase::Listening, evs).1),
{
    lemma_run_arm(JudgePhase::Listening, evs);
}

/// A finished judge ignores every further event and does nothing.
pub proof fn lemma_done_is_final(evs: Seq<FlowEvent>)
    ensures
        flow_run(JudgePhase::Done, evs) == (JudgePhase::Done, Seq::<FlowAction>::empty()),
{
    lemma_run_counts(JudgePhase::Done, evs);
    assert(flow_run(JudgePhase::Done, evs).1 =~= Seq::<FlowAction>::empty());
}

/// Whatever the outcomes of the outside work, a judge cleans up exactly once if it
/// finishes and never before, and tells the client at most once how it ended.
pub proof fn lemma_judge_ends_once(evs: Seq<FlowEvent>)
    ensures
        count_actions(flow_run(JudgePhase::Listening, evs).1, |x: FlowAction| is_cleanup(x))
            == (if flow_run(JudgePhase::Listening, evs).0 == JudgePhase::Done { 1nat } else { 0nat }),
        count_actions(flow_run(JudgePhase::Listening, evs).1, |x: FlowAction| is_exit(x)) <= 1,
{
    lemma_run_counts(JudgePhase::Listening, evs);
}

} // verus!
