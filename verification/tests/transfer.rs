use dualoj_judge::buildctl::{build_exit_messages, buildctl_args, render_upbuild, upbuild_args, UpbuildMsg};
use dualoj_judge::error::JudgeError;
use dualoj_judge::flow::{ExitCode, JudgeEvent};
use dualoj_judge::id::ID;
use dualoj_judge::io_bind::{attach_param, bind_routes, check_streams, forward_error, log_binder_params, wait_for_pod};
use dualoj_judge::listener::PodWatchEvent;
use dualoj_judge::pod::PodInfo;
use dualoj_judge::registry::Param;
use dualoj_judge::upload::{split_chunks, ArchiveReceiver, UploadError, CHUNK_LEN};
use dualoj_judge::watch::{created_event, job_event, judge_pod_selector, launch_result, name_selector, JobWatchEvent};

#[test]
fn chunks_of_an_archive() {
    assert!(split_chunks(&Vec::new()).is_empty());
    let small = vec![1u8, 2, 3];
    assert_eq!(split_chunks(&small), vec![vec![1u8, 2, 3]]);
    let data: Vec<u8> = (0..(2 * CHUNK_LEN + 5)).map(|i| (i % 251) as u8).collect();
    let chunks = split_chunks(&data);
    assert_eq!(chunks.len(), 3);
    assert_eq!(chunks[0].len(), CHUNK_LEN);
    assert_eq!(chunks[1].len(), CHUNK_LEN);
    assert_eq!(chunks[2].len(), 5);
    assert_eq!(chunks.concat(), data);
    let exact: Vec<u8> = vec![9u8; CHUNK_LEN];
    assert_eq!(split_chunks(&exact).len(), 1);
}

#[test]
fn upload_round_trip_and_name() {
    let data: Vec<u8> = (0..(CHUNK_LEN + 10)).map(|i| (i % 7) as u8).collect();
    let mut r = ArchiveReceiver::new(data.len());
    for c in split_chunks(&data) {
        assert!(r.push_chunk(c).is_ok());
    }
    let (raw, id) = r.finish();
    assert_eq!(raw, data);
    assert_eq!(ID::from_bytes(id).content, ID::roll_hash(&data).content);
    let mut r = ArchiveReceiver::new(5);
    assert!(r.push_chunk(b"hello".to_vec()).is_ok());
    let (raw, id) = r.finish();
    assert_eq!(raw, b"hello".to_vec());
    assert_eq!(ID::from_bytes(id).content, "074171de-bc84-5ea4-b636-1135477620e1");
}

#[test]
fn upload_too_large() {
    let mut r = ArchiveReceiver::new(4);
    assert!(r.push_chunk(vec![1, 2, 3]).is_ok());
    let e = r.push_chunk(vec![4, 5]).unwrap_err();
    assert_eq!(e, UploadError::TooLarge { limit: 4 });
    assert_eq!(e.message(), "too large archive, max size is 4 Byte");
    assert!(r.push_chunk(vec![4]).is_ok());
    assert_eq!(r.finish().0, vec![1, 2, 3, 4]);
}

#[test]
fn buildctl_arguments() {
    let args = buildctl_args("buildkitd:1234", "/tmp/ctx", None);
    assert_eq!(
        args,
        vec![
            "--addr=tcp://buildkitd:1234",
            "--tlsdir=/certs",
            "build",
            "--frontend=dockerfile.v0",
            "--local=context=/tmp/ctx",
            "--local=dockerfile=/tmp/ctx",
        ]
    );
    let reg = Param {
        push_url: String::from("registry:5000"),
        pull_url: String::from("localhost:5000"),
        username: String::from("build"),
    };
    let id = ID::from(String::from("abc"));
    let args = upbuild_args("buildkitd:1234", &reg, "/tmp/ctx", &id);
    assert_eq!(args.len(), 7);
    assert_eq!(args[6], "--output=type=image,name=registry:5000/build/abc,registry.insecure=true,push=true");
}

#[test]
fn build_exit() {
    let m = build_exit_messages(Some(0), ID::from(String::from("abc")));
    assert!(matches!(m.as_slice(), [UpbuildMsg::Complete(id), UpbuildMsg::Code(0)] if id.content == "abc"));
    let m = build_exit_messages(Some(2), ID::from(String::from("abc")));
    assert!(matches!(m.as_slice(), [UpbuildMsg::Code(2)]));
    assert!(build_exit_messages(None, ID::from(String::from("abc"))).is_empty());
}

#[test]
fn client_output_of_builds() {
    let o = render_upbuild(None, false);
    assert_eq!(o.stdout.as_deref(), Some("None MSG"));
    let o = render_upbuild(None, true);
    assert!(o.stdout.is_none() && o.stderr.is_none() && o.exit.is_none());
    let o = render_upbuild(Some(UpbuildMsg::Code(-1)), false);
    assert_eq!(o.stdout.as_deref(), Some("`buildctl` exited, code: -1"));
    assert_eq!(o.exit, Some(-1));
    let o = render_upbuild(Some(UpbuildMsg::Code(0)), true);
    assert!(o.stdout.is_none());
    assert_eq!(o.exit, Some(0));
    let o = render_upbuild(Some(UpbuildMsg::Stdout(String::from("step 1"))), true);
    assert!(o.stdout.is_none() && o.stderr.is_none());
    let o = render_upbuild(Some(UpbuildMsg::Stdout(String::from("step 1"))), false);
    assert_eq!(o.stdout.as_deref(), Some("step 1"));
    let o = render_upbuild(Some(UpbuildMsg::Stderr(String::from("warn"))), true);
    assert_eq!(o.stderr.as_deref(), Some("warn"));
    let o = render_upbuild(Some(UpbuildMsg::Complete(ID::from(String::from("abc")))), true);
    assert_eq!(o.stdout.as_deref(), Some("abc"));
    let o = render_upbuild(Some(UpbuildMsg::Complete(ID::from(String::from("abc")))), false);
    assert_eq!(o.stdout.as_deref(), Some("complete: abc"));
}

#[test]
fn stream_binding_parameters() {
    let a = attach_param("judged");
    assert_eq!(a.container.as_deref(), Some("judged"));
    assert!(a.stdin && a.stdout && a.stderr && !a.tty);
    let (log, attach) = log_binder_params("judger", "judged");
    assert_eq!(log.container.as_deref(), Some("judger"));
    assert!(log.follow && !log.pretty);
    assert_eq!(attach.container.as_deref(), Some("judged"));
    assert!(attach.stdin && !attach.stdout && !attach.stderr && !attach.tty);
    assert_eq!(
        bind_routes(),
        vec![
            (String::from("judger"), String::from("judged")),
            (String::from("judged"), String::from("judger")),
        ]
    );
    let e = forward_error("judger", "judged", "eof", true);
    assert_eq!(e.message(), "judger -> judged closed: eof");
    let e = forward_error("judged", "judger", "refused", false);
    assert_eq!(e.message(), "judged -> judger attach/log error: refused");
    assert!(check_streams(true, true, true, true, String::from("j"), String::from("p")).is_ok());
    assert!(matches!(
        check_streams(true, false, true, true, String::from("j"), String::from("p")),
        Err(JudgeError::IOBindingFail { .. })
    ));
}

#[test]
fn waiting_for_the_job_pod() {
    let p = |n: &str| PodInfo { name: n.to_string(), uid: None, status: None };
    let r = wait_for_pod(
        vec![PodWatchEvent::Bookmark, PodWatchEvent::Modified(p("m")), PodWatchEvent::Added(p("a")), PodWatchEvent::Added(p("b"))],
        "job",
    );
    assert_eq!(r.ok().map(|x| x.name), Some(String::from("a")));
    let r = wait_for_pod(vec![PodWatchEvent::Deleted(p("d"))], "job-7");
    match r {
        Err(e) => assert_eq!(e.message(), "Pod of job job-7 not found"),
        Ok(_) => panic!("no pod was added"),
    }
}

#[test]
fn job_watch_events() {
    let ev = job_event(JobWatchEvent::Added { uid: Some(String::from("550e8400-e29b-41d4-a716-446655440000")) });
    assert!(matches!(ev, Some(JudgeEvent::CreatedUuid { job_uuid }) if job_uuid[0] == 0x55 && job_uuid[15] == 0));
    assert!(job_event(JobWatchEvent::Added { uid: Some(String::from("nope")) }).is_none());
    assert!(job_event(JobWatchEvent::Added { uid: None }).is_none());
    assert!(job_event(JobWatchEvent::Modified).is_none());
    let ev = job_event(JobWatchEvent::Error { message: String::from("too old") });
    match ev {
        Some(JudgeEvent::Exit(m)) => {
            assert!(matches!(m.judge_code, ExitCode::RuntimeError));
            assert_eq!(m.other_msg.as_deref(), Some("too old"));
        },
        _ => panic!("exit expected"),
    }
    assert!(created_event(None).is_none());
    assert!(created_event(Some(String::from("550e8400-e29b-41d4-a716-446655440000"))).is_some());
    assert_eq!(name_selector("abc"), "metadata.name=abc");
    assert_eq!(judge_pod_selector("j1"), "judge-id=j1");
}

#[test]
fn launch_outcomes() {
    let (ev, r) = launch_result(None);
    assert!(r.is_ok());
    assert!(matches!(ev, Some(JudgeEvent::Exit(ref m)) if matches!(m.judge_code, ExitCode::TimeLimitExceeded)));
    let (ev, r) = launch_result(Some(Err(JudgeError::Timeout)));
    assert!(ev.is_none());
    assert!(matches!(r, Err(JudgeError::Timeout)));
    let (ev, r) = launch_result(Some(Ok(())));
    assert!(ev.is_none() && r.is_ok());
}
