//! The batch jobs the controller runs: a judge run as a job, and a trial run of
//! one built image.

use vstd::prelude::*;
use vstd::string::*;
use crate::id::{hyphenated, uuid_text};
use crate::io_bind::AttachSpec;
use crate::pod::PodInfo;
use crate::judge::JudgeLimit;
use crate::manifest::{
    container, container_of, controller_owner, controller_owner_refs, env_of, env_var, env_view,
    labels, limits_of, pod_spec, pod_spec_of, resource_limits, ContainerSpec, EnvVarSpec,
    JobManifest, JobManifestView, ObjectMetaModel, ObjectMetaView, PodEnv,
};
use crate::pod::{JUDGER_CONTAINER_NAME, SOLVER_CONTAINER_NAME};
use crate::registry::{image_path, RegistryParam};
use crate::manifest::{EnvVarView, LimitsView, OwnerRefView};
use crate::text::decimal;

verus! {

/// Limits of a judge job: CPU in milli-cores, memory in MiB, time in seconds.
pub struct JobLimit {
    pub cpu: u64,
    pub memory: u64,
    pub time: i64,
}

/// A job that runs once, without retries, with the pod `template`.
pub open spec fn job_of(meta: ObjectMetaView, template: crate::manifest::PodSpecView) -> JobManifestView {
    JobManifestView { metadata: meta, backoff_limit: Some(0), template }
}

/// Metadata of a judge job named `name`: labelled `app=judged` and owned by the
/// controller's pod.
pub open spec fn judged_meta(env: PodEnv, name: Seq<char>, namespace: Option<Seq<char>>, judge_label: bool) -> ObjectMetaView {
    ObjectMetaView {
        name: Some(name),
        generate_name: None,
        namespace,
        labels: Some(
            if judge_label {
                seq![("app"@, "judged"@), ("judge-id"@, name)]
            } else {
                seq![("app"@, "judged"@)]
            },
        ),
        owner_references: Some(seq![controller_owner(env)]),
    }
}

fn judged_metadata(env: &PodEnv, name: &String, namespace: Option<String>, judge_label: bool) -> (m: ObjectMetaModel)
    ensures
        m@ == judged_meta(*env, name@, namespace.deep_view(), judge_label),
{
    let second = if judge_label {
        Some(("judge-id".to_owned(), name.clone()))
    } else {
        None
    };
    ObjectMetaModel {
        name: Some(name.clone()),
        generate_name: None,
        namespace,
        labels: Some(labels(("app".to_owned(), "judged".to_owned()), second)),
        owner_references: Some(controller_owner_refs(env)),
    }
}

fn two_containers(first: ContainerSpec, second: ContainerSpec) -> (v: Vec<ContainerSpec>)
    ensures
        v@.map_values(|c: ContainerSpec| c@) == seq![first@, second@],
{
    let mut v: Vec<ContainerSpec> = Vec::new();
    v.push(first);
    v.push(second);
    assert(v@.map_values(|c: ContainerSpec| c@) =~= seq![v@[0]@, v@[1]@]);
    v
}

/// The judge run as a job (with the judger and the solver attached to stdin): the
/// job is named after the solution and labelled with it; the judger learns the
/// key, the solution's id and the judge server's address.
pub open spec fn judge_job_view(
    env: PodEnv,
    registry: RegistryParam,
    judger_addr: Seq<char>,
    limit: JudgeLimit,
    apikey: Seq<u8>,
    judged: Seq<u8>,
    judger: Seq<u8>,
) -> JobManifestView {
    let limits = limits_of(limit.cpu as nat, limit.memory as nat);
    job_of(
        judged_meta(env, hyphenated(judged), None, true),
        pod_spec_of(
            None,
            seq![
                container_of(
                    SOLVER_CONTAINER_NAME@,
                    image_path(registry.url@, registry.username@, hyphenated(judged)),
                    limits,
                    Some(true),
                    None,
                ),
                container_of(
                    JUDGER_CONTAINER_NAME@,
                    image_path(registry.url@, registry.username@, hyphenated(judger)),
                    limits,
                    Some(true),
                    Some(
                        seq![
                            env_of("APIKEY"@, hyphenated(apikey)),
                            env_of("JOB_ID"@, hyphenated(judged)),
                            env_of("JUDGER_ADDR"@, judger_addr),
                        ],
                    ),
                ),
            ],
        ),
    )
}

/// Builds the judge job.
pub fn judge_job(
    env: &PodEnv,
    registry: &RegistryParam,
    judger_addr: &str,
    limit: &JudgeLimit,
    apikey: [u8; 16],
    judged: [u8; 16],
    judger: [u8; 16],
) -> (j: JobManifest)
    ensures
        j@ == judge_job_view(*env, *registry, judger_addr@, *limit, apikey@, judged@, judger@),
{
    let judged_id = uuid_text(judged);
    let judger_id = uuid_text(judger);
    let mut judger_env: Vec<EnvVarSpec> = Vec::new();
    judger_env.push(env_var("APIKEY", uuid_text(apikey)));
    judger_env.push(env_var("JOB_ID", judged_id.clone()));
    judger_env.push(env_var("JUDGER_ADDR", judger_addr.to_owned()));
    let ghost env_expected = seq![
        env_of("APIKEY"@, hyphenated(apikey@)),
        env_of("JOB_ID"@, hyphenated(judged@)),
        env_of("JUDGER_ADDR"@, judger_addr@),
    ];
    assert(env_view(Some(judger_env)) == Some(env_expected)) by {
        assert(judger_env@.map_values(|e: EnvVarSpec| e@) =~= env_expected);
    }
    let solver = container(
        SOLVER_CONTAINER_NAME,
        registry.get_image_url(judged_id.as_str()),
        resource_limits(limit.cpu as u64, limit.memory as u64),
        Some(true),
        None,
    );
    let judger_c = container(
        JUDGER_CONTAINER_NAME,
        registry.get_image_url(judger_id.as_str()),
        resource_limits(limit.cpu as u64, limit.memory as u64),
        Some(true),
        Some(judger_env),
    );
    JobManifest {
        metadata: judged_metadata(env, &judged_id, None, true),
        backoff_limit: Some(0),
        template: pod_spec(None, two_containers(solver, judger_c)),
    }
}

/// A judge job without attached streams: solver and judger run under the same
/// limits and the pod is stopped after `limit.time` seconds. `images` selects how
/// the images are named: plainly, or by their `latest` tag.
pub open spec fn control_job_view(
    env: PodEnv,
    judged_name: Seq<char>,
    judged_image: Seq<char>,
    judger_image: Seq<char>,
    limit: JobLimit,
) -> JobManifestView {
    let limits = limits_of(limit.cpu as nat, limit.memory as nat);
    job_of(
        judged_meta(env, judged_name, Some(env.namespace@), false),
        pod_spec_of(
            Some(limit.time),
            seq![
                container_of(SOLVER_CONTAINER_NAME@, judged_image, limits, None, None),
                container_of(JUDGER_CONTAINER_NAME@, judger_image, limits, None, None),
            ],
        ),
    )
}

fn control_job(env: &PodEnv, judged_name: String, judged_image: String, judger_image: String, limit: &JobLimit) -> (j: JobManifest)
    ensures
        j@ == control_job_view(*env, judged_name@, judged_image@, judger_image@, *limit),
{
    let solver = container(SOLVER_CONTAINER_NAME, judged_image, resource_limits(limit.cpu, limit.memory), None, None);
    let judger_c = container(JUDGER_CONTAINER_NAME, judger_image, resource_limits(limit.cpu, limit.memory), None, None);
    JobManifest {
        metadata: judged_metadata(env, &judged_name, Some(env.namespace.clone()), false),
        backoff_limit: Some(0),
        template: pod_spec(Some(limit.time), two_containers(solver, judger_c)),
    }
}

/// The judge job of the controller, with images named plainly.
pub fn control_judge_job(
    env: &PodEnv,
    registry: &RegistryParam,
    limit: &JobLimit,
    judged: [u8; 16],
    judger: [u8; 16],
) -> (j: JobManifest)
    ensures
        j@ == control_job_view(
            *env,
            hyphenated(judged@),
            image_path(registry.url@, registry.username@, hyphenated(judged@)),
            image_path(registry.url@, registry.username@, hyphenated(judger@)),
            *limit,
        ),
{
    let judged_id = uuid_text(judged);
    let judger_id = uuid_text(judger);
    let judged_image = registry.get_image_url(judged_id.as_str());
    let judger_image = registry.get_image_url(judger_id.as_str());
    control_job(env, judged_id, judged_image, judger_image, limit)
}

/// The judge job of the file service, with images named by their `latest` tag.
pub fn generate_judge_job(
    env: &PodEnv,
    registry: &RegistryParam,
    limit: &JobLimit,
    judged: [u8; 16],
    judger: [u8; 16],
) -> (j: JobManifest)
    ensures
        j@ == control_job_view(
            *env,
            hyphenated(judged@),
            image_path(registry.url@, registry.username@, hyphenated(judged@)) + ":latest"@,
            image_path(registry.url@, registry.username@, hyphenated(judger@)) + ":latest"@,
            *limit,
        ),
{
    let judged_id = uuid_text(judged);
    let judger_id = uuid_text(judger);
    let judged_image = registry.get_latest_image_url(judged_id.as_str());
    let judger_image = registry.get_latest_image_url(judger_id.as_str());
    control_job(env, judged_id, judged_image, judger_image, limit)
}

/// A trial run of the built image `id`: one container from the `latest` tag,
/// limited to 2 CPUs and 512 MiB, stopped after 5 seconds.
pub open spec fn trial_job_view(env: PodEnv, registry: RegistryParam, id: Seq<u8>) -> JobManifestView {
    job_of(
        judged_meta(env, hyphenated(id), Some(env.namespace@), false),
        pod_spec_of(
            Some(5),
            seq![
                container_of(
                    SOLVER_CONTAINER_NAME@,
                    image_path(registry.url@, registry.username@, hyphenated(id)) + ":latest"@,
                    limits_of(2000, 512),
                    None,
                    None,
                ),
            ],
        ),
    )
}

/// Builds the trial job of the built image `id`.
pub fn trial_job(env: &PodEnv, registry: &RegistryParam, id: [u8; 16]) -> (j: JobManifest)
    ensures
        j@ == trial_job_view(*env, *registry, id@),
{
    let name = uuid_text(id);
    let image = registry.get_latest_image_url(name.as_str());
    let c = container(SOLVER_CONTAINER_NAME, image, resource_limits(2000, 512), None, None);
    let mut cs: Vec<ContainerSpec> = Vec::new();
    cs.push(c);
    assert(cs@.map_values(|c: ContainerSpec| c@) =~= seq![cs@[0]@]);
    JobManifest {
        metadata: judged_metadata(env, &name, Some(env.namespace.clone()), false),
        backoff_limit: Some(0),
        template: pod_spec(Some(5), cs),
    }
}

/// The judge job runs once (no retries) without deadline. Its solver container
/// (`judged`, the image of the solution) and judger container (`judger`, the image
/// of the judger) are both attached to stdin, always pull, and are limited to the
/// same `<cpu>m` CPU and `<memory>Mi` memory; only the judger has an environment:
/// the key, the solution's id and the judge server's address. The job is named
/// and labelled after the solution and owned by the controller's pod.
pub proof fn lemma_judge_job_shape(
    env: PodEnv,
    registry: RegistryParam,
    judger_addr: Seq<char>,
    limit: JudgeLimit,
    apikey: Seq<u8>,
    judged: Seq<u8>,
    judger: Seq<u8>,
)
    ensures
        ({
            let j = judge_job_view(env, registry, judger_addr, limit, apikey, judged, judger);
            let cs = j.template.containers;
            &&& j.backoff_limit == Some(0i32)
            &&& j.template.active_deadline_seconds is None
            &&& cs.len() == 2
            &&& cs[0].name == "judged"@
            &&& cs[0].image == Some(registry.url@ + "/"@ + registry.username@ + "/"@ + hyphenated(judged))
            &&& cs[1].name == "judger"@
            &&& cs[1].image == Some(registry.url@ + "/"@ + registry.username@ + "/"@ + hyphenated(judger))
            &&& forall|i: int|
                0 <= i < cs.len() ==> {
                    &&& (#[trigger] cs[i]).stdin == Some(true)
                    &&& cs[i].stdin_once == Some(true)
                    &&& cs[i].image_pull_policy == Some("Always"@)
                    &&& cs[i].limits == Some(
                        LimitsView { cpu: decimal(limit.cpu as nat) + "m"@, memory: decimal(limit.memory as nat) + "Mi"@ },
                    )
                }
            &&& cs[0].env is None
            &&& cs[1].env == Some(
                seq![
                    EnvVarView { name: "APIKEY"@, value: Some(hyphenated(apikey)) },
                    EnvVarView { name: "JOB_ID"@, value: Some(hyphenated(judged)) },
                    EnvVarView { name: "JUDGER_ADDR"@, value: Some(judger_addr) },
                ],
            )
            &&& j.metadata.name == Some(hyphenated(judged))
            &&& j.metadata.namespace is None
            &&& j.metadata.labels == Some(seq![("app"@, "judged"@), ("judge-id"@, hyphenated(judged))])
            &&& j.metadata.owner_references == Some(
                seq![OwnerRefView { api_version: "v1"@, controller: Some(true), kind: "Pod"@, name: env.name@, uid: env.uid@ }],
            )
            &&& j.template.restart_policy == Some("Never"@)
            &&& j.template.share_process_namespace == Some(true)
            &&& j.template.termination_grace_period_seconds == Some(0i64)
        }),
{
    reveal_strlit("judged");
    reveal_strlit("judger");
}

/// The judge jobs of the controller and of the file service run once, are stopped
/// after `limit.time` seconds, and hold the solver and the judger container, with
/// the given images, not attached to stdin, without environment, both limited to
/// the same `<cpu>m` CPU and `<memory>Mi` memory. They are named after the
/// solution, labelled `app=judged`, placed in the controller's namespace and owned
/// by its pod.
pub proof fn lemma_control_job_shape(
    env: PodEnv,
    judged_name: Seq<char>,
    judged_image: Seq<char>,
    judger_image: Seq<char>,
    limit: JobLimit,
)
    ensures
        ({
            let j = control_job_view(env, judged_name, judged_image, judger_image, limit);
            let cs = j.template.containers;
            &&& j.backoff_limit == Some(0i32)
            &&& j.template.active_deadline_seconds == Some(limit.time)
            &&& cs.len() == 2
            &&& cs[0].name == "judged"@ && cs[0].image == Some(judged_image)
            &&& cs[1].name == "judger"@ && cs[1].image == Some(judger_image)
            &&& forall|i: int|
                0 <= i < cs.len() ==> {
                    &&& (#[trigger] cs[i]).stdin is None
                    &&& cs[i].stdin_once is None
                    &&& cs[i].env is None
                    &&& cs[i].image_pull_policy == Some("Always"@)
                    &&& cs[i].limits == Some(
                        LimitsView { cpu: decimal(limit.cpu as nat) + "m"@, memory: decimal(limit.memory as nat) + "Mi"@ },
                    )
                }
            &&& j.metadata.name == Some(judged_name)
            &&& j.metadata.namespace == Some(env.namespace@)
            &&& j.metadata.labels == Some(seq![("app"@, "judged"@)])
            &&& j.metadata.owner_references == Some(
                seq![OwnerRefView { api_version: "v1"@, controller: Some(true), kind: "Pod"@, name: env.name@, uid: env.uid@ }],
            )
            &&& j.template.restart_policy == Some("Never"@)
        }),
{
    reveal_strlit("judged");
    reveal_strlit("judger");
}

/// The trial job of a built image runs its `latest` tag once, in one container,
/// limited to 2000 milli-cores and 512 MiB, and stops it after 5 seconds.
pub proof fn lemma_trial_job_shape(env: PodEnv, registry: RegistryParam, id: Seq<u8>)
    ensures
        ({
            let j = trial_job_view(env, registry, id);
            let cs = j.template.containers;
            &&& j.backoff_limit == Some(0i32)
            &&& j.template.active_deadline_seconds == Some(5i64)
            &&& cs.len() == 1
            &&& cs[0].name == "judged"@
            &&& cs[0].image == Some(registry.url@ + "/"@ + registry.username@ + "/"@ + hyphenated(id) + ":latest"@)
            &&& cs[0].limits == Some(LimitsView { cpu: decimal(2000) + "m"@, memory: decimal(512) + "Mi"@ })
            &&& cs[0].env is None
            &&& j.metadata.name == Some(hyphenated(id))
            &&& j.metadata.namespace == Some(env.namespace@)
        }),
{
    reveal_strlit("judged");
}

/// The outcome of a trial job as the client gets it.
pub enum NewJobResult {
    /// The uid of the created job.
    JobUid([u8; 16]),
    ErrorMsg(String),
}

/// The answer to a trial job request: code 0 with the job's uid, or code 1 with
/// the error.
pub struct NewJobResponse {
    pub code: i32,
    pub result: Option<NewJobResult>,
}

/// The answer to a trial job request, from the uid of the created job or the
/// error met.
pub fn new_job_response(outcome: Result<[u8; 16], String>) -> (r: NewJobResponse)
    ensures
        match outcome {
            Ok(uid) => r.code == 0 && r.result == Some(NewJobResult::JobUid(uid)),
            Err(m) => r.code == 1 && r.result == Some(NewJobResult::ErrorMsg(m)),
        },
{
    match outcome {
        Ok(uid) => NewJobResponse { code: 0, result: Some(NewJobResult::JobUid(uid)) },
        Err(m) => NewJobResponse { code: 1, result: Some(NewJobResult::ErrorMsg(m)) },
    }
}

/// The label selector for the pods of job `job_name`.
pub fn job_pods_selector(job_name: &str) -> (s: String)
    ensures
        s@ == "job-name="@ + job_name@,
{
    let mut s = "job-name=".to_owned();
    s.append(job_name);
    s
}

/// Attach to stdin and stdout of `container_name` (and stderr, as by default)
/// through a terminal.
pub fn attach_param(container_name: &str) -> (a: AttachSpec)
    ensures
        a.container.deep_view() == Some(container_name@),
        a.stdin && a.stdout && a.stderr && a.tty,
{
    AttachSpec { container: Some(container_name.to_owned()), stdin: true, stdout: true, stderr: true, tty: true }
}

/// The pod to bind, from a listing of the job's pods limited to one item: a
/// listing of exactly one pod is taken as "not found", otherwise the first pod is
/// used. The listing must not be empty.
pub fn job_pod_from_list(items: Vec<PodInfo>) -> (r: Option<PodInfo>)
    requires
        items@.len() > 0,
    ensures
        items@.len() == 1 ==> r is None,
        items@.len() != 1 ==> r == Some(items@[0]),
{
    let mut items = items;
    if items.len() == 1 {
        None
    } else {
        Some(items.remove(0))
    }
}

} // verus!
