//! Binding the streams of the judger and the solver to each other, and finding
//! the pod to bind.

use vstd::prelude::*;
use vstd::string::*;
use crate::error::JudgeError;
use crate::listener::PodWatchEvent;
use crate::pod::{PodInfo, JUDGER_CONTAINER_NAME, SOLVER_CONTAINER_NAME};

verus! {

/// How to attach to a container's streams.
pub struct AttachSpec {
    pub container: Option<String>,
    pub stdin: bool,
    pub stdout: bool,
    pub stderr: bool,
    pub tty: bool,
}

/// How to follow a container's output.
pub struct LogSpec {
    pub container: Option<String>,
    pub follow: bool,
    pub pretty: bool,
}

/// Attach to both stdin and stdout of `container_name` (and stderr, as by
/// default), without a terminal.
pub fn attach_param(container_name: &str) -> (a: AttachSpec)
    ensures
        a.container.deep_view() == Some(container_name@),
        a.stdin && a.stdout && a.stderr && !a.tty,
{
    AttachSpec { container: Some(container_name.to_owned()), stdin: true, stdout: true, stderr: true, tty: false }
}

/// Forwarding the output of container `from` into the input of container `to`:
/// follow the plain output of `from`, and attach to the stdin of `to` only.
pub fn log_binder_params(from: &str, to: &str) -> (p: (LogSpec, AttachSpec))
    ensures
        p.0.container.deep_view() == Some(from@),
        p.0.follow && !p.0.pretty,
        p.1.container.deep_view() == Some(to@),
        p.1.stdin && !p.1.stdout && !p.1.stderr && !p.1.tty,
{
    (
        LogSpec { container: Some(from.to_owned()), follow: true, pretty: false },
        AttachSpec { container: Some(to.to_owned()), stdin: true, stdout: false, stderr: false, tty: false },
    )
}

/// The two forwardings that connect the containers: the judger's output into the
/// solver, and the solver's output into the judger.
pub fn bind_routes() -> (r: Vec<(String, String)>)
    ensures
        r@.map_values(|p: (String, String)| (p.0@, p.1@)) == seq![
            (JUDGER_CONTAINER_NAME@, SOLVER_CONTAINER_NAME@),
            (SOLVER_CONTAINER_NAME@, JUDGER_CONTAINER_NAME@),
        ],
{
    let mut r: Vec<(String, String)> = Vec::new();
    r.push((JUDGER_CONTAINER_NAME.to_owned(), SOLVER_CONTAINER_NAME.to_owned()));
    r.push((SOLVER_CONTAINER_NAME.to_owned(), JUDGER_CONTAINER_NAME.to_owned()));
    assert(r@.map_values(|p: (String, String)| (p.0@, p.1@)) =~= seq![
        (r@[0].0@, r@[0].1@),
        (r@[1].0@, r@[1].1@),
    ]);
    r
}

/// The error of a forwarding from `from` to `to`: attaching or following failed
/// (`closed` false), or the copy stopped (`closed` true).
pub fn forward_error(from: &str, to: &str, cause: &str, closed: bool) -> (e: JudgeError)
    ensures
        (e matches JudgeError::Log(m) && m@ == from@ + " -> "@ + to@ + (if closed {
            " closed: "@
        } else {
            " attach/log error: "@
        }) + cause@),
{
    let mut m = from.to_owned();
    m.append(" -> ");
    m.append(to);
    if closed {
        m.append(" closed: ");
    } else {
        m.append(" attach/log error: ");
    }
    m.append(cause);
    JudgeError::Log(m)
}

/// The first pod that a watch of job `job_name`'s pods reports as added; where
/// none is, the job's pod is not found.
pub fn wait_for_pod(events: Vec<PodWatchEvent>, job_name: &str) -> (r: Result<PodInfo, JudgeError>)
    ensures
        match r {
            Ok(p) => exists|i: int|
                0 <= i < events@.len() && events@[i] == PodWatchEvent::Added(p) && forall|j: int|
                    0 <= j < i ==> !(#[trigger] events@[j] is Added),
            Err(e) => (forall|j: int| 0 <= j < events@.len() ==> !(#[trigger] events@[j] is Added))
                && (e matches JudgeError::PodJobNotFoundError { job_name: n } && n@ == job_name@),
        },
{
    let ghost all = events@;
    let n: usize = events.len();
    let mut rest = events;
    let mut k: usize = 0;
    while rest.len() > 0
        invariant
            rest@ =~= all.subrange(k as int, all.len() as int),
            k <= all.len(),
            all.len() == n,
            all == events@,
            forall|j: int| 0 <= j < k ==> !(#[trigger] all[j] is Added),
        decreases rest@.len(),
    {
        assert(rest@.len() == all.len() - k);
        let ev = rest.remove(0);
        assert(ev == all[k as int]);
        match ev {
            PodWatchEvent::Added(p) => {
                assert(all[k as int] == PodWatchEvent::Added(p));
                assert(0 <= k < all.len());
                return Ok(p);
            },
            _ => {},
        }
        k = k + 1;
    }
    Err(JudgeError::PodJobNotFoundError { job_name: job_name.to_owned() })
}

/// Checks that the solver and the judger both offer stdin and stdout to bind.
pub fn check_streams(
    judged_in: bool,
    judged_out: bool,
    judger_in: bool,
    judger_out: bool,
    job_name: String,
    pod_name: String,
) -> (r: Result<(), JudgeError>)
    ensures
        r is Ok <==> (judged_in && judged_out && judger_in && judger_out),
        r is Err ==> r == Err::<(), JudgeError>(JudgeError::IOBindingFail { job_name, pod_name }),
{
    if judged_in && judged_out && judger_in && judger_out {
        Ok(())
    } else {
        Err(JudgeError::IOBindingFail { job_name, pod_name })
    }
}

} // verus!
