use dualoj_judge::error::{wrap_error, JudgeError, ResultInspectErr};
use dualoj_judge::flow::{ExitCode, FlowAction, FlowEvent, JudgeEvent, JudgeFlow, JudgePhase, TestResult};
use dualoj_judge::judge_server::{JudgeRegistry, JudgerStatus};

fn is_exit(a: &FlowAction) -> bool {
    matches!(a, FlowAction::Send(JudgeEvent::Exit(_)))
}

fn is_cleanup(a: &FlowAction) -> bool {
    matches!(a, FlowAction::Cleanup { .. })
}

#[test]
fn judge_flow_reports_result() {
    let mut f = JudgeFlow::new();
    let a = f.step(FlowEvent::ListenerStarted);
    assert!(matches!(a.as_slice(), [FlowAction::CreatePod]));
    let a = f.step(FlowEvent::PodCreated(Some(String::from("uid-9"))));
    assert!(matches!(a.as_slice(), [FlowAction::Send(JudgeEvent::Created { job_uid })] if job_uid == "uid-9"));
    assert_eq!(f.phase, JudgePhase::AwaitRunning);
    let a = f.step(FlowEvent::PodRunning);
    assert!(matches!(a.as_slice(), [FlowAction::StartIo, FlowAction::ArmDeadline]));
    let a = f.step(FlowEvent::IoFailed(String::from("attach failed")));
    assert!(matches!(a.as_slice(), [FlowAction::Send(JudgeEvent::Error { msg })] if msg == "attach failed"));
    assert_eq!(f.phase, JudgePhase::Running);
    let a = f.step(FlowEvent::ResultReceived(TestResult { code: 3, other_msg: Some(String::from("WA")) }));
    assert_eq!(a.len(), 2);
    match &a[0] {
        FlowAction::Send(JudgeEvent::Exit(m)) => {
            assert!(matches!(m.judge_code, ExitCode::Reported(3)));
            assert_eq!(m.other_msg.as_deref(), Some("WA"));
        },
        _ => panic!("exit expected"),
    }
    assert!(matches!(a[1], FlowAction::Cleanup { delete_pod: true }));
    assert_eq!(f.phase, JudgePhase::Done);
    assert!(f.step(FlowEvent::TimedOut).is_empty());
}

#[test]
fn judge_flow_times_out() {
    let mut f = JudgeFlow::new();
    f.step(FlowEvent::ListenerStarted);
    // A created pod without uid is not announced.
    assert!(f.step(FlowEvent::PodCreated(None)).is_empty());
    f.step(FlowEvent::PodRunning);
    let a = f.step(FlowEvent::TimedOut);
    assert_eq!(a.len(), 3);
    assert!(matches!(a[0], FlowAction::CancelRegistration));
    match &a[1] {
        FlowAction::Send(JudgeEvent::Exit(m)) => {
            assert!(matches!(m.judge_code, ExitCode::TimeLimitExceeded));
            assert!(m.other_msg.is_none());
        },
        _ => panic!("exit expected"),
    }
    assert!(matches!(a[2], FlowAction::Cleanup { delete_pod: true }));
}

#[test]
fn judge_flow_failures() {
    let mut f = JudgeFlow::new();
    let a = f.step(FlowEvent::ListenerFailed(String::from("watch refused")));
    assert!(matches!(a.as_slice(), [FlowAction::Send(JudgeEvent::Error { msg }), FlowAction::Cleanup { delete_pod: false }] if msg == "watch refused"));
    let mut f = JudgeFlow::new();
    f.step(FlowEvent::ListenerStarted);
    let a = f.step(FlowEvent::PodCreateFailed);
    assert!(matches!(a.as_slice(), [FlowAction::Cleanup { delete_pod: false }]));
    let mut f = JudgeFlow::new();
    f.step(FlowEvent::ListenerStarted);
    f.step(FlowEvent::PodCreated(None));
    let a = f.step(FlowEvent::PodEnded);
    assert!(matches!(a.as_slice(), [FlowAction::Cleanup { delete_pod: true }]));
    // Out-of-order events change nothing.
    let mut f = JudgeFlow::new();
    assert!(f.step(FlowEvent::TimedOut).is_empty());
    assert_eq!(f.phase, JudgePhase::Listening);
}

#[test]
fn judge_flow_ends_once_whatever_happens() {
    let events = || {
        vec![
            FlowEvent::PodRunning,
            FlowEvent::ListenerStarted,
            FlowEvent::PodCreated(Some(String::from("u"))),
            FlowEvent::PodRunning,
            FlowEvent::TimedOut,
            FlowEvent::ResultReceived(TestResult { code: 0, other_msg: None }),
            FlowEvent::PodEnded,
            FlowEvent::TimedOut,
        ]
    };
    let mut f = JudgeFlow::new();
    let mut all = Vec::new();
    for e in events() {
        all.extend(f.step(e));
    }
    assert_eq!(all.iter().filter(|a| is_cleanup(a)).count(), 1);
    assert_eq!(all.iter().filter(|a| is_exit(a)).count(), 1);
    // The time limit is started once, before the judge runs out of it.
    let arm = all.iter().position(|a| matches!(a, FlowAction::ArmDeadline)).unwrap();
    let exit = all.iter().position(is_exit).unwrap();
    assert!(arm < exit);
    assert_eq!(all.iter().filter(|a| matches!(a, FlowAction::ArmDeadline)).count(), 1);
}

#[test]
fn registry_delivers_once() {
    let mut r: JudgeRegistry<u32> = JudgeRegistry::new();
    r.register(String::from("key-a"), String::from("judge-a"), 1);
    r.register(String::from("key-b"), String::from("judge-b"), 2);
    let (status, delivery) = r.post_test_result(&String::from("key-a"), TestResult { code: 0, other_msg: None });
    assert_eq!(status, JudgerStatus::Accepted);
    let (judge_id, signal, result) = delivery.unwrap();
    assert_eq!((judge_id.as_str(), signal, result.code), ("judge-a", 1, 0));
    // The key is used up.
    let (status, delivery) = r.post_test_result(&String::from("key-a"), TestResult { code: 0, other_msg: None });
    assert_eq!(status, JudgerStatus::InvalidAuth);
    assert!(delivery.is_none());
    // An unknown key is refused.
    let (status, _) = r.post_test_result(&String::from("key-x"), TestResult { code: 1, other_msg: None });
    assert_eq!(status, JudgerStatus::InvalidAuth);
    // A withdrawn registration is gone; the other one stays.
    r.cancel(&String::from("key-b"));
    let (status, _) = r.post_test_result(&String::from("key-b"), TestResult { code: 1, other_msg: None });
    assert_eq!(status, JudgerStatus::InvalidAuth);
}

#[test]
fn registry_replaces_same_key() {
    let mut r: JudgeRegistry<&str> = JudgeRegistry::new();
    r.register(String::from("k"), String::from("first"), "old");
    r.register(String::from("k"), String::from("second"), "new");
    r.register(String::from("other"), String::from("third"), "x");
    let (status, delivery) = r.post_test_result(&String::from("k"), TestResult { code: 5, other_msg: None });
    assert_eq!(status, JudgerStatus::Accepted);
    let (judge_id, signal, _) = delivery.unwrap();
    assert_eq!((judge_id.as_str(), signal), ("second", "new"));
    let (status, delivery) = r.post_test_result(&String::from("other"), TestResult { code: 5, other_msg: None });
    assert_eq!(status, JudgerStatus::Accepted);
    assert_eq!(delivery.unwrap().1, "x");
}

#[test]
fn judge_error_messages() {
    assert_eq!(
        JudgeError::PodJobNotFoundError { job_name: String::from("j1") }.message(),
        "Pod of job j1 not found"
    );
    assert_eq!(JudgeError::KubeError(String::from("forbidden")).message(), "forbidden");
    assert_eq!(JudgeError::Timeout.message(), "deadline has elapsed");
    assert_eq!(JudgeError::Log(String::from("x -> y closed: eof")).message(), "x -> y closed: eof");
    assert_eq!(
        JudgeError::IOBindingFail { job_name: String::from("j"), pod_name: String::from("p") }.message(),
        "Pod p of job j offers no stdin/stdout to bind"
    );
}

#[test]
fn wrap_error_sends_the_error() {
    let (v, ev) = wrap_error::<u8>(Ok(7));
    assert_eq!(v, Some(7));
    assert!(ev.is_none());
    let (v, ev) = wrap_error::<u8>(Err(String::from("no pod")));
    assert_eq!(v, None);
    assert!(matches!(ev, Some(JudgeEvent::Error { msg }) if msg == "no pod"));
}

#[test]
fn inspect_err_passes_the_value_through() {
    let mut seen = Vec::new();
    let r: Result<u8, String> = Err(String::from("bad"));
    let r = ResultInspectErr::inspect_err(r, |e: &String| seen.push(e.clone()));
    assert_eq!(r, Err(String::from("bad")));
    assert_eq!(seen, vec![String::from("bad")]);
    let r: Result<u8, String> = Ok(1);
    let r = ResultInspectErr::inspect_err(r, |_: &String| panic!("not called on Ok"));
    assert_eq!(r, Ok(1));
}
