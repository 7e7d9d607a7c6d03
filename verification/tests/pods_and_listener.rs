use dualoj_judge::listener::{PodListener, PodWatchEvent};
use dualoj_judge::pod::{
    is_pull_image_error, phase, solver_exit_reason, ContainerState, ContainerStatus, ListenStopReason,
    PodInfo, PodStatus, SolverStopReason, TerminatedState, WaitingState,
};

fn status(name: &str, waiting: Option<&str>, terminated: Option<Option<&str>>) -> ContainerStatus {
    let state = if waiting.is_none() && terminated.is_none() {
        None
    } else {
        Some(ContainerState {
            waiting: waiting.map(|r| WaitingState { reason: Some(r.to_string()) }),
            terminated: terminated.map(|r| TerminatedState { reason: r.map(|x| x.to_string()) }),
        })
    };
    ContainerStatus { name: name.to_string(), state }
}

fn pod(phase: Option<&str>, statuses: Option<Vec<ContainerStatus>>) -> PodInfo {
    PodInfo {
        name: String::from("judged-abc"),
        uid: Some(String::from("uid-1")),
        status: Some(PodStatus { phase: phase.map(|p| p.to_string()), container_statuses: statuses }),
    }
}

fn bare_pod() -> PodInfo {
    PodInfo { name: String::from("judged-abc"), uid: None, status: None }
}

#[test]
fn phase_of_pods() {
    assert_eq!(phase(&pod(Some("Running"), None)), "Running");
    assert_eq!(phase(&pod(None, None)), "");
    assert_eq!(phase(&bare_pod()), "");
}

#[test]
fn solver_exit_reasons() {
    let p = pod(Some("Running"), Some(vec![status("judged", None, Some(Some("OOMKilled")))]));
    assert_eq!(solver_exit_reason(&p), Some(SolverStopReason::OOMKilled));
    let p = pod(Some("Running"), Some(vec![status("judged", None, Some(Some("Completed")))]));
    assert_eq!(solver_exit_reason(&p), Some(SolverStopReason::Completed));
    let p = pod(Some("Running"), Some(vec![status("judged", None, Some(Some("Error")))]));
    assert_eq!(solver_exit_reason(&p), Some(SolverStopReason::Error));
    let p = pod(Some("Running"), Some(vec![status("judged", None, Some(Some("DeadlineExceeded")))]));
    assert_eq!(solver_exit_reason(&p), Some(SolverStopReason::Other));
    let p = pod(Some("Running"), Some(vec![status("judged", None, Some(None))]));
    assert_eq!(solver_exit_reason(&p), Some(SolverStopReason::Other));
    // Only the solver container counts, and of its statuses the last one.
    let p = pod(
        Some("Running"),
        Some(vec![
            status("judged", None, Some(Some("Error"))),
            status("judger", None, Some(Some("OOMKilled"))),
            status("judged", None, None),
        ]),
    );
    assert_eq!(solver_exit_reason(&p), None);
    let p = pod(Some("Running"), Some(vec![status("judger", None, Some(Some("Error")))]));
    assert_eq!(solver_exit_reason(&p), None);
    assert_eq!(solver_exit_reason(&pod(Some("Pending"), None)), None);
    assert_eq!(solver_exit_reason(&bare_pod()), None);
}

#[test]
fn image_pull_errors() {
    let p = pod(
        Some("Pending"),
        Some(vec![status("judged", None, None), status("judger", Some("ImagePullBackOff"), None)]),
    );
    assert!(is_pull_image_error(&p));
    let p = pod(Some("Pending"), Some(vec![status("judger", Some("ContainerCreating"), None)]));
    assert!(!is_pull_image_error(&p));
    assert!(!is_pull_image_error(&pod(Some("Pending"), None)));
}

#[test]
fn listener_reports_running_once_then_end() {
    let mut l = PodListener::new();
    let s = l.on_event(PodWatchEvent::Added(pod(Some("Pending"), None)));
    assert!(s.running.is_none() && s.ended.is_none() && s.error.is_none());
    let s = l.on_event(PodWatchEvent::Modified(pod(Some("Running"), None)));
    assert_eq!(s.running.map(|p| p.name), Some(String::from("judged-abc")));
    assert!(s.ended.is_none() && s.error.is_none());
    // A second "Running" is not reported again.
    let s = l.on_event(PodWatchEvent::Modified(pod(Some("Running"), None)));
    assert!(s.running.is_none() && s.ended.is_none() && s.error.is_none());
    let s = l.on_event(PodWatchEvent::Modified(pod(
        Some("Succeeded"),
        Some(vec![status("judged", None, Some(Some("Completed")))]),
    )));
    assert!(s.running.is_none());
    assert_eq!(s.ended, Some(Some(SolverStopReason::Completed)));
    assert!(l.stopped);
    // Nothing after the end.
    let s = l.on_event(PodWatchEvent::Deleted(pod(Some("Succeeded"), None)));
    assert!(s.running.is_none() && s.ended.is_none() && s.error.is_none());
}

#[test]
fn listener_stops_on_abnormal_solver_exit() {
    let mut l = PodListener::new();
    let s = l.on_event(PodWatchEvent::Modified(pod(
        Some("Running"),
        Some(vec![status("judged", None, Some(Some("OOMKilled")))]),
    )));
    assert!(s.running.is_some());
    assert_eq!(s.ended, Some(Some(SolverStopReason::OOMKilled)));
    assert!(l.stopped);
}

#[test]
fn listener_keeps_watching_when_solver_completed() {
    let mut l = PodListener::new();
    let s = l.on_event(PodWatchEvent::Modified(pod(
        Some("Running"),
        Some(vec![status("judged", None, Some(Some("Completed")))]),
    )));
    assert!(s.running.is_some() && s.ended.is_none());
    assert!(!l.stopped);
}

#[test]
fn listener_reports_image_pull_failure() {
    let mut l = PodListener::new();
    let s = l.on_event(PodWatchEvent::Modified(pod(
        Some("Pending"),
        Some(vec![status("judged", Some("ImagePullBackOff"), None)]),
    )));
    assert_eq!(s.error, Some(ListenStopReason::ImagePullBackOff));
    assert!(s.running.is_none() && s.ended.is_none());
    assert!(l.stopped);
}

#[test]
fn listener_on_failed_deleted_and_error() {
    let mut l = PodListener::new();
    let s = l.on_event(PodWatchEvent::Modified(pod(Some("Failed"), None)));
    assert_eq!(s.ended, Some(None));
    let mut l = PodListener::new();
    let s = l.on_event(PodWatchEvent::Deleted(pod(
        Some("Running"),
        Some(vec![status("judged", None, Some(Some("Error")))]),
    )));
    assert_eq!(s.ended, Some(Some(SolverStopReason::Error)));
    let mut l = PodListener::new();
    let s = l.on_event(PodWatchEvent::Error(String::from("gone")));
    assert_eq!(s.error, Some(ListenStopReason::Error));
    assert!(l.stopped);
    let mut l = PodListener::new();
    let s = l.on_event(PodWatchEvent::Bookmark);
    assert!(s.running.is_none() && s.ended.is_none() && s.error.is_none());
    assert!(!l.stopped);
    // A pod without status ends the watch without a signal.
    let s = l.on_event(PodWatchEvent::Modified(bare_pod()));
    assert!(s.running.is_none() && s.ended.is_none() && s.error.is_none());
    assert!(l.stopped);
    let mut l = PodListener::new();
    l.close();
    let s = l.on_event(PodWatchEvent::Error(String::from("late")));
    assert!(s.error.is_none());
}
