//! What the controller reads of a pod: its phase, the state of its containers and
//! why the solver container stopped.

use vstd::prelude::*;
use crate::text::eq_str;

verus! {

/// Name of the container that runs the submitted solution.
pub const SOLVER_CONTAINER_NAME: &'static str = "judged";

/// Name of the container that runs the judge program.
pub const JUDGER_CONTAINER_NAME: &'static str = "judger";

/// Why the solver container stopped.
#[derive(PartialEq, Eq, Structural, Debug, Clone, Copy)]
pub enum SolverStopReason {
    Completed,
    OOMKilled,
    Error,
    Other,
}

/// Why watching the judge pod stopped before it ended.
#[derive(PartialEq, Eq, Structural, Debug, Clone, Copy)]
pub enum ListenStopReason {
    ImagePullBackOff,
    Error,
}

/// A container that waits to start.
pub struct WaitingState {
    pub reason: Option<String>,
}

/// A container that has terminated.
pub struct TerminatedState {
    pub reason: Option<String>,
}

/// The state of a container: waiting, terminated, or neither (running).
pub struct ContainerState {
    pub waiting: Option<WaitingState>,
    pub terminated: Option<TerminatedState>,
}

/// The status of one container of a pod.
pub struct ContainerStatus {
    pub name: String,
    pub state: Option<ContainerState>,
}

/// The status of a pod.
pub struct PodStatus {
    pub phase: Option<String>,
    pub container_statuses: Option<Vec<ContainerStatus>>,
}

/// A pod as the controller sees it.
pub struct PodInfo {
    pub name: String,
    pub uid: Option<String>,
    pub status: Option<PodStatus>,
}

/// The phase of a pod; empty where the pod reports none.
pub open spec fn pod_phase(p: PodInfo) -> Seq<char> {
    match p.status {
        Some(st) => match st.phase {
            Some(ph) => ph@,
            None => Seq::empty(),
        },
        None => Seq::empty(),
    }
}

/// The last status in `cs` that belongs to the solver container.
pub open spec fn last_solver_status(cs: Seq<ContainerStatus>) -> Option<ContainerStatus>
    decreases cs.len(),
{
    if cs.len() == 0 {
        None
    } else if cs.last().name@ == SOLVER_CONTAINER_NAME@ {
        Some(cs.last())
    } else {
        last_solver_status(cs.drop_last())
    }
}

/// The stop reason named by a terminated container's reason text.
pub open spec fn stop_reason_of(reason: Option<String>) -> SolverStopReason {
    match reason {
        Some(r) => if r@ == "Completed"@ {
            SolverStopReason::Completed
        } else if r@ == "OOMKilled"@ {
            SolverStopReason::OOMKilled
        } else if r@ == "Error"@ {
            SolverStopReason::Error
        } else {
            SolverStopReason::Other
        },
        None => SolverStopReason::Other,
    }
}

/// Why the solver container of `p` terminated, where its last status says it did.
pub open spec fn solver_exit(p: PodInfo) -> Option<SolverStopReason> {
    match p.status {
        Some(st) => match st.container_statuses {
            Some(cs) => match last_solver_status(cs@) {
                Some(c) => match c.state {
                    Some(state) => match state.terminated {
                        Some(t) => Some(stop_reason_of(t.reason)),
                        None => None,
                    },
                    None => None,
                },
                None => None,
            },
            None => None,
        },
        None => None,
    }
}

/// A container status that waits because its image cannot be pulled.
pub open spec fn waits_on_image_pull(c: ContainerStatus) -> bool {
    &&& c.state is Some
    &&& c.state->0.waiting is Some
    &&& c.state->0.waiting->0.reason is Some
    &&& c.state->0.waiting->0.reason->0@ == "ImagePullBackOff"@
}

/// Some container of `p` waits because its image cannot be pulled.
pub open spec fn image_pull_failing(p: PodInfo) -> bool {
    &&& p.status is Some
    &&& p.status->0.container_statuses is Some
    &&& exists|i: int|
        0 <= i < p.status->0.container_statuses->0@.len()
            && waits_on_image_pull(#[trigger] p.status->0.container_statuses->0@[i])
}

/// The phase of a pod; empty where it reports none.
pub fn phase(pod: &PodInfo) -> (s: String)
    ensures
        s@ == pod_phase(*pod),
{
    match &pod.status {
        Some(st) => match &st.phase {
            Some(ph) => ph.clone(),
            None => String::new(),
        },
        None => String::new(),
    }
}

fn stop_reason(reason: &Option<String>) -> (r: SolverStopReason)
    ensures
        r == stop_reason_of(*reason),
{
    match reason {
        Some(text) => if eq_str(text, "Completed") {
            SolverStopReason::Completed
        } else if eq_str(text, "OOMKilled") {
            SolverStopReason::OOMKilled
        } else if eq_str(text, "Error") {
            SolverStopReason::Error
        } else {
            SolverStopReason::Other
        },
        None => SolverStopReason::Other,
    }
}

/// Why the solver container terminated: taken from the last status of the
/// container named `judged`; `None` where that container has not terminated or
/// the pod reports no such status.
pub fn solver_exit_reason(pod: &PodInfo) -> (r: Option<SolverStopReason>)
    ensures
        r == solver_exit(*pod),
{
    let statuses = match &pod.status {
        Some(st) => match &st.container_statuses {
            Some(cs) => cs,
            None => return None,
        },
        None => return None,
    };
    let ghost all = statuses@;
    let mut i: usize = statuses.len();
    assert(all.subrange(0, i as int) =~= all);
    while i > 0
        invariant
            i <= statuses@.len(),
            all == statuses@,
            pod.status is Some,
            pod.status->0.container_statuses == Some(*statuses),
            last_solver_status(all) == last_solver_status(all.subrange(0, i as int)),
        decreases i,
    {
        let c = &statuses[i - 1];
        let ghost pre = all.subrange(0, i as int);
        assert(pre.last() == *c);
        assert(pre.drop_last() =~= all.subrange(0, i - 1));
        if eq_str(&c.name, SOLVER_CONTAINER_NAME) {
            return match &c.state {
                Some(state) => match &state.terminated {
                    Some(t) => Some(stop_reason(&t.reason)),
                    None => None,
                },
                None => None,
            };
        }
        i = i - 1;
    }
    None
}

fn waits_on_pull(c: &ContainerStatus) -> (r: bool)
    ensures
        r == waits_on_image_pull(*c),
{
    match &c.state {
        Some(state) => match &state.waiting {
            Some(w) => match &w.reason {
                Some(reason) => eq_str(reason, "ImagePullBackOff"),
                None => false,
            },
            None => false,
        },
        None => false,
    }
}

/// Whether some container of the pod waits because its image cannot be pulled.
/// The pod must report a status.
pub fn is_pull_image_error(pod: &PodInfo) -> (r: bool)
    requires
        pod.status is Some,
    ensures
        r == image_pull_failing(*pod),
{
    let st = pod.status.as_ref().unwrap();
    match &st.container_statuses {
        Some(cs) => {
            let mut i: usize = 0;
            while i < cs.len()
                invariant
                    i <= cs@.len(),
                    pod.status is Some,
                    pod.status->0.container_statuses == Some(*cs),
                    forall|j: int| 0 <= j < i ==> !waits_on_image_pull(#[trigger] cs@[j]),
                decreases cs.len() - i,
            {
                if waits_on_pull(&cs[i]) {
                    assert(waits_on_image_pull(pod.status->0.container_statuses->0@[i as int]));
                    return true;
                }
                i = i + 1;
            }
            false
        },
        None => false,
    }
}

/// A container status waits on an image pull exactly when it is waiting with the
/// reason `ImagePullBackOff`.
pub open spec fn status_waits_on_pull(c: ContainerStatus) -> bool {
    c.state matches Some(st) && st.waiting matches Some(w) && w.reason matches Some(r) && r@ == "ImagePullBackOff"@
}

/// Whatever its position among the pod's container statuses, one container that
/// waits with `ImagePullBackOff` makes the pod's image pull fail.
pub proof fn lemma_any_container_pull_failure(p: PodInfo, i: int)
    requires
        p.status matches Some(st) && st.container_statuses matches Some(cs) && 0 <= i < cs@.len()
            && status_waits_on_pull(cs@[i]),
    ensures
        image_pull_failing(p),
{
    assert(waits_on_image_pull(p.status->0.container_statuses->0@[i]));
}

/// The image pull of a pod fails only where one of its container statuses waits
/// with `ImagePullBackOff`.
pub proof fn lemma_pull_failure_has_a_witness(p: PodInfo)
    requires
        image_pull_failing(p),
    ensures
        p.status matches Some(st) && st.container_statuses matches Some(cs) && exists|i: int|
            0 <= i < cs@.len() && #[trigger] status_waits_on_pull(cs@[i]),
{
    let cs = p.status->0.container_statuses->0@;
    let i = choose|i: int| 0 <= i < cs.len() && waits_on_image_pull(#[trigger] cs[i]);
    assert(status_waits_on_pull(cs[i]));
}

proof fn lemma_last_solver_status(cs: Seq<ContainerStatus>, i: int)
    requires
        0 <= i < cs.len(),
        cs[i].name@ == "judged"@,
        forall|j: int| i < j < cs.len() ==> (#[trigger] cs[j]).name@ != "judged"@,
    ensures
        last_solver_status(cs) == Some(cs[i]),
    decreases cs.len(),
{
    if i < cs.len() - 1 {
        let d = cs.drop_last();
        assert(cs.last().name@ != "judged"@);
        assert forall|j: int| i < j < d.len() implies (#[trigger] d[j]).name@ != "judged"@ by {
            assert(d[j] == cs[j]);
        }
        assert(d[i] == cs[i]);
        lemma_last_solver_status(d, i);
    }
}

proof fn lemma_no_solver_status(cs: Seq<ContainerStatus>)
    requires
        forall|j: int| 0 <= j < cs.len() ==> (#[trigger] cs[j]).name@ != "judged"@,
    ensures
        last_solver_status(cs) is None,
    decreases cs.len(),
{
    if cs.len() > 0 {
        let d = cs.drop_last();
        assert(cs.last().name@ != "judged"@);
        assert forall|j: int| 0 <= j < d.len() implies (#[trigger] d[j]).name@ != "judged"@ by {
            assert(d[j] == cs[j]);
        }
        lemma_no_solver_status(d);
    }
}

/// Why the solver stopped is read from the last status of the container named
/// `judged`, whatever other containers report: terminated with `Completed`,
/// `OOMKilled` or `Error` gives that reason, any other or no reason gives `Other`;
/// not terminated gives no reason.
pub proof fn lemma_solver_exit_reads_last_solver_status(p: PodInfo, i: int)
    requires
        p.status matches Some(st) && st.container_statuses matches Some(cs) && 0 <= i < cs@.len()
            && cs@[i].name@ == "judged"@ && forall|j: int| i < j < cs@.len() ==> (#[trigger] cs@[j]).name@ != "judged"@,
    ensures
        ({
            let c = p.status->0.container_statuses->0@[i];
            &&& (c.state is Some && c.state->0.terminated is Some) ==> solver_exit(p) == Some(
                match c.state->0.terminated->0.reason {
                    Some(r) => if r@ == "Completed"@ {
                        SolverStopReason::Completed
                    } else if r@ == "OOMKilled"@ {
                        SolverStopReason::OOMKilled
                    } else if r@ == "Error"@ {
                        SolverStopReason::Error
                    } else {
                        SolverStopReason::Other
                    },
                    None => SolverStopReason::Other,
                },
            )
            &&& !(c.state is Some && c.state->0.terminated is Some) ==> solver_exit(p) is None
        }),
{
    reveal_strlit("judged");
    lemma_last_solver_status(p.status->0.container_statuses->0@, i);
}

/// A pod whose statuses name no `judged` container gives no stop reason.
pub proof fn lemma_no_solver_no_exit(p: PodInfo)
    requires
        p.status matches Some(st) && st.container_statuses matches Some(cs) && forall|j: int|
            0 <= j < cs@.len() ==> (#[trigger] cs@[j]).name@ != "judged"@,
    ensures
        solver_exit(p) is None,
{
    reveal_strlit("judged");
    lemma_no_solver_status(p.status->0.container_statuses->0@);
}

/// The phase is what the pod's status reports, or empty where it reports none.
pub proof fn lemma_phase_reads_status(p: PodInfo)
    ensures
        (p.status is Some && p.status->0.phase is Some) ==> pod_phase(p) == p.status->0.phase->0@,
        !(p.status is Some && p.status->0.phase is Some) ==> pod_phase(p).len() == 0,
{
}

} // verus!
