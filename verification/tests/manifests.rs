use dualoj_judge::jobs::{
    attach_param, control_judge_job, generate_judge_job, job_pod_from_list, job_pods_selector, judge_job,
    new_job_response, trial_job, JobLimit, NewJobResult,
};
use dualoj_judge::judge::{judge_pod, JudgeEnv, JudgeLimit, JudgePlan, JudgePodParam, JudgeSecure};
use dualoj_judge::flow::JudgePhase;
use dualoj_judge::manifest::{ContainerSpec, JobManifest, PodEnv};
use dualoj_judge::pod::PodInfo;
use dualoj_judge::registry::RegistryParam;

fn pod_env() -> PodEnv {
    PodEnv { namespace: String::from("dualoj"), uid: String::from("uid-ctl"), name: String::from("judge-ctl") }
}

fn registry() -> RegistryParam {
    RegistryParam { url: String::from("localhost"), username: String::from("build") }
}

const JUDGED: [u8; 16] = [0x11; 16];
const JUDGER: [u8; 16] = [0x22; 16];
const APIKEY: [u8; 16] = [0x33; 16];
const JUDGED_TEXT: &str = "11111111-1111-1111-1111-111111111111";
const JUDGER_TEXT: &str = "22222222-2222-2222-2222-222222222222";

fn labels_of(l: &Option<Vec<(String, String)>>) -> Vec<(String, String)> {
    l.clone().unwrap()
}

fn env_of(c: &ContainerSpec) -> Vec<(String, Option<String>)> {
    c.env.as_ref().map(|v| v.iter().map(|e| (e.name.clone(), e.value.clone())).collect()).unwrap_or_default()
}

fn check_limits(c: &ContainerSpec, cpu: &str, memory: &str) {
    let l = c.limits.as_ref().unwrap();
    assert_eq!(l.cpu, cpu);
    assert_eq!(l.memory, memory);
}

fn check_owner(j_owner: &Option<Vec<dualoj_judge::manifest::OwnerRef>>) {
    let o = j_owner.as_ref().unwrap();
    assert_eq!(o.len(), 1);
    assert_eq!(o[0].api_version, "v1");
    assert_eq!(o[0].controller, Some(true));
    assert_eq!(o[0].kind, "Pod");
    assert_eq!(o[0].name, "judge-ctl");
    assert_eq!(o[0].uid, "uid-ctl");
}

#[test]
fn judge_pod_manifest() {
    let env = JudgeEnv { pod_env: pod_env(), server_addr: String::from("10.0.0.7:80") };
    let secure = JudgeSecure { judge_id: String::from("jid"), apikey: String::from("key") };
    let param = JudgePodParam {
        cpu_limit: 2000,
        mem_limit: 64,
        solver_image: String::from("reg/build/solver"),
        judger_image: String::from("reg/build/judger"),
    };
    let p = judge_pod(&env, &secure, &param);
    assert_eq!(p.metadata.name, None);
    assert_eq!(p.metadata.generate_name.as_deref(), Some("judged"));
    assert_eq!(p.metadata.namespace, None);
    assert_eq!(
        labels_of(&p.metadata.labels),
        vec![(String::from("app"), String::from("judged")), (String::from("judge-id"), String::from("jid"))]
    );
    check_owner(&p.metadata.owner_references);
    let spec = p.spec.unwrap();
    assert_eq!(spec.active_deadline_seconds, None);
    assert_eq!(spec.restart_policy.as_deref(), Some("Never"));
    assert_eq!(spec.share_process_namespace, Some(true));
    assert_eq!(spec.termination_grace_period_seconds, Some(0));
    assert_eq!(spec.containers.len(), 2);
    let (s, j) = (&spec.containers[0], &spec.containers[1]);
    assert_eq!(s.name, "judged");
    assert_eq!(s.image.as_deref(), Some("reg/build/solver"));
    assert_eq!(s.image_pull_policy.as_deref(), Some("Always"));
    assert_eq!((s.stdin, s.stdin_once), (Some(true), Some(true)));
    assert!(s.env.is_none());
    check_limits(s, "2000m", "64Mi");
    assert_eq!(j.name, "judger");
    assert_eq!(j.image.as_deref(), Some("reg/build/judger"));
    check_limits(j, "2000m", "64Mi");
    assert_eq!(
        env_of(j),
        vec![
            (String::from("APIKEY"), Some(String::from("key"))),
            (String::from("JUDGE_ID"), Some(String::from("jid"))),
            (String::from("JUDGER_ADDR"), Some(String::from("10.0.0.7:80"))),
        ]
    );
}

#[test]
fn judge_plan_for_request() {
    let env = JudgeEnv { pod_env: pod_env(), server_addr: String::from("10.0.0.7:80") };
    let limit = JudgeLimit { cpu: 500, memory: 128, time: 7 };
    let plan = JudgePlan::for_request(&env, &registry(), JUDGED_TEXT, JUDGER_TEXT, &limit);
    assert_eq!(plan.ttl_secs, 7);
    assert_eq!(plan.flow.phase, JudgePhase::Listening);
    assert_ne!(plan.secure.judge_id, plan.secure.apikey);
    let spec = plan.pod.spec.unwrap();
    assert_eq!(spec.containers[0].image.as_deref(), Some("localhost/build/11111111-1111-1111-1111-111111111111"));
    assert_eq!(spec.containers[1].image.as_deref(), Some("localhost/build/22222222-2222-2222-2222-222222222222"));
    check_limits(&spec.containers[0], "500m", "128Mi");
    assert_eq!(
        labels_of(&plan.pod.metadata.labels)[1],
        (String::from("judge-id"), plan.secure.judge_id.clone())
    );
}

fn check_job_common(j: &JobManifest) {
    assert_eq!(j.backoff_limit, Some(0));
    check_owner(&j.metadata.owner_references);
    assert_eq!(j.template.restart_policy.as_deref(), Some("Never"));
    assert_eq!(j.template.share_process_namespace, Some(true));
    assert_eq!(j.template.termination_grace_period_seconds, Some(0));
}

#[test]
fn judge_job_manifest() {
    let limit = JudgeLimit { cpu: 1000, memory: 256, time: 5 };
    let j = judge_job(&pod_env(), &registry(), "10.1.1.1:50051", &limit, APIKEY, JUDGED, JUDGER);
    check_job_common(&j);
    assert_eq!(j.metadata.name.as_deref(), Some(JUDGED_TEXT));
    assert_eq!(j.metadata.namespace, None);
    assert_eq!(
        labels_of(&j.metadata.labels),
        vec![(String::from("app"), String::from("judged")), (String::from("judge-id"), String::from(JUDGED_TEXT))]
    );
    assert_eq!(j.template.active_deadline_seconds, None);
    let c = &j.template.containers;
    assert_eq!(c[0].image.as_deref(), Some("localhost/build/11111111-1111-1111-1111-111111111111"));
    assert_eq!(c[1].image.as_deref(), Some("localhost/build/22222222-2222-2222-2222-222222222222"));
    assert_eq!(c[1].stdin, Some(true));
    check_limits(&c[1], "1000m", "256Mi");
    assert_eq!(
        env_of(&c[1]),
        vec![
            (String::from("APIKEY"), Some(String::from("33333333-3333-3333-3333-333333333333"))),
            (String::from("JOB_ID"), Some(String::from(JUDGED_TEXT))),
            (String::from("JUDGER_ADDR"), Some(String::from("10.1.1.1:50051"))),
        ]
    );
}

#[test]
fn control_and_file_service_jobs() {
    let limit = JobLimit { cpu: 2000, memory: 512, time: 9 };
    let j = control_judge_job(&pod_env(), &registry(), &limit, JUDGED, JUDGER);
    check_job_common(&j);
    assert_eq!(j.metadata.namespace.as_deref(), Some("dualoj"));
    assert_eq!(labels_of(&j.metadata.labels), vec![(String::from("app"), String::from("judged"))]);
    assert_eq!(j.template.active_deadline_seconds, Some(9));
    assert_eq!(j.template.containers[0].name, "judged");
    assert_eq!(j.template.containers[1].name, "judger");
    assert_eq!(
        j.template.containers[1].image.as_deref(),
        Some("localhost/build/22222222-2222-2222-2222-222222222222")
    );
    assert_eq!(j.template.containers[0].stdin, None);
    assert!(j.template.containers[0].env.is_none());
    let g = generate_judge_job(&pod_env(), &registry(), &limit, JUDGED, JUDGER);
    assert_eq!(
        g.template.containers[0].image.as_deref(),
        Some("localhost/build/11111111-1111-1111-1111-111111111111:latest")
    );
    check_limits(&g.template.containers[0], "2000m", "512Mi");
}

#[test]
fn trial_job_manifest() {
    let j = trial_job(&pod_env(), &registry(), JUDGED);
    check_job_common(&j);
    assert_eq!(j.metadata.name.as_deref(), Some(JUDGED_TEXT));
    assert_eq!(j.template.active_deadline_seconds, Some(5));
    assert_eq!(j.template.containers.len(), 1);
    assert_eq!(
        j.template.containers[0].image.as_deref(),
        Some("localhost/build/11111111-1111-1111-1111-111111111111:latest")
    );
    check_limits(&j.template.containers[0], "2000m", "512Mi");
}

#[test]
fn trial_job_answers() {
    let r = new_job_response(Ok(JUDGED));
    assert_eq!(r.code, 0);
    assert!(matches!(r.result, Some(NewJobResult::JobUid(b)) if b == JUDGED));
    let r = new_job_response(Err(String::from("boom")));
    assert_eq!(r.code, 1);
    assert!(matches!(r.result, Some(NewJobResult::ErrorMsg(ref m)) if m == "boom"));
    assert_eq!(job_pods_selector("abc"), "job-name=abc");
}

#[test]
fn tty_attach_and_job_pod_listing() {
    let a = attach_param("judger");
    assert_eq!(a.container.as_deref(), Some("judger"));
    assert!(a.stdin && a.stdout && a.stderr && a.tty);
    let p = |n: &str| PodInfo { name: n.to_string(), uid: None, status: None };
    assert!(job_pod_from_list(vec![p("a")]).is_none());
    assert_eq!(job_pod_from_list(vec![p("a"), p("b")]).map(|x| x.name), Some(String::from("a")));
}
