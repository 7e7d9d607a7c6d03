//! One judge: the secrets it runs with, the pod it runs in, and the decisions it
//! takes while the pod runs.

use vstd::prelude::*;
use crate::id::{is_uuid_text, ID};
use crate::manifest::{
    container, container_of, controller_owner, controller_owner_refs, env_of, env_var, env_view,
    labels, limits_of, pod_spec, pod_spec_of, resource_limits, ContainerSpec, EnvVarSpec,
    ObjectMetaModel, ObjectMetaView, PodEnv, PodManifest, PodManifestView,
};
use crate::flow::{JudgeFlow, JudgePhase};
use crate::pod::{JUDGER_CONTAINER_NAME, SOLVER_CONTAINER_NAME};
use crate::registry::{image_path, RegistryParam};
use crate::manifest::{EnvVarView, LimitsView, OwnerRefView};
use crate::text::decimal;

verus! {

/// Limits of one judge: CPU in milli-cores, memory in MiB, time in seconds.
pub struct JudgeLimit {
    pub cpu: u32,
    pub memory: u32,
    pub time: u32,
}

/// Where a judge runs: the controller's pod, and the address of the judge
/// server that the judger reports to.
pub struct JudgeEnv {
    /// For indicating reverse owner relationship.
    pub pod_env: PodEnv,
    /// For injecting judge-server address.
    pub server_addr: String,
}

/// What the judge pod is made of.
pub struct JudgePodParam {
    /// CPU limit (in milli-cpu)
    pub cpu_limit: u32,
    /// Memory limit (in MiB)
    pub mem_limit: u32,
    /// Solver image url
    pub solver_image: String,
    /// Judger image url
    pub judger_image: String,
}

/// The secrets of a judge.
pub struct JudgeSecure {
    /// ID of a judge, generated randomly.
    pub judge_id: String,
    /// Key the judger reports with, so that the solver cannot report a result itself.
    pub apikey: String,
}

impl JudgeSecure {
    /// Fresh random secrets.
    pub fn new() -> (s: JudgeSecure)
        ensures
            is_uuid_text(s.judge_id@, 4),
            is_uuid_text(s.apikey@, 4),
    {
        let judge_id = ID::roll().content;
        let apikey = ID::roll().content;
        JudgeSecure { judge_id, apikey }
    }
}

/// The judge pod: a solver container and a judger container with the same
/// limits, both attached to stdin; the judger learns the key, the judge id and
/// the judge server's address from its environment. The pod is labelled with the
/// judge id and owned by the controller's pod.
pub open spec fn judge_pod_view(
    env: JudgeEnv,
    secure: JudgeSecure,
    cpu_limit: u32,
    mem_limit: u32,
    solver_image: Seq<char>,
    judger_image: Seq<char>,
) -> PodManifestView {
    let limits = limits_of(cpu_limit as nat, mem_limit as nat);
    PodManifestView {
        metadata: ObjectMetaView {
            name: None,
            generate_name: Some("judged"@),
            namespace: None,
            labels: Some(seq![("app"@, "judged"@), ("judge-id"@, secure.judge_id@)]),
            owner_references: Some(seq![controller_owner(env.pod_env)]),
        },
        spec: Some(
            pod_spec_of(
                None,
                seq![
                    container_of(SOLVER_CONTAINER_NAME@, solver_image, limits, Some(true), None),
                    container_of(
                        JUDGER_CONTAINER_NAME@,
                        judger_image,
                        limits,
                        Some(true),
                        Some(
                            seq![
                                env_of("APIKEY"@, secure.apikey@),
                                env_of("JUDGE_ID"@, secure.judge_id@),
                                env_of("JUDGER_ADDR"@, env.server_addr@),
                            ],
                        ),
                    ),
                ],
            ),
        ),
    }
}

/// Builds the judge pod.
pub fn judge_pod(env: &JudgeEnv, secure: &JudgeSecure, param: &JudgePodParam) -> (p: PodManifest)
    ensures
        p@ == judge_pod_view(
            *env,
            *secure,
            param.cpu_limit,
            param.mem_limit,
            param.solver_image@,
            param.judger_image@,
        ),
{
    let mut judger_env: Vec<EnvVarSpec> = Vec::new();
    judger_env.push(env_var("APIKEY", secure.apikey.clone()));
    judger_env.push(env_var("JUDGE_ID", secure.judge_id.clone()));
    judger_env.push(env_var("JUDGER_ADDR", env.server_addr.clone()));
    let ghost judger_env_view = seq![
        env_of("APIKEY"@, secure.apikey@),
        env_of("JUDGE_ID"@, secure.judge_id@),
        env_of("JUDGER_ADDR"@, env.server_addr@),
    ];
    assert(env_view(Some(judger_env)) == Some(judger_env_view)) by {
        assert(judger_env@.map_values(|e: EnvVarSpec| e@) =~= judger_env_view);
    }

    let solver = container(
        SOLVER_CONTAINER_NAME,
        param.solver_image.clone(),
        resource_limits(param.cpu_limit as u64, param.mem_limit as u64),
        Some(true),
        None,
    );
    let judger = container(
        JUDGER_CONTAINER_NAME,
        param.judger_image.clone(),
        resource_limits(param.cpu_limit as u64, param.mem_limit as u64),
        Some(true),
        Some(judger_env),
    );
    let mut containers: Vec<ContainerSpec> = Vec::new();
    containers.push(solver);
    containers.push(judger);
    let ghost cs = containers@;
    assert(cs.map_values(|c: ContainerSpec| c@) =~= seq![cs[0]@, cs[1]@]);

    let p = PodManifest {
        metadata: ObjectMetaModel {
            name: None,
            generate_name: Some("judged".to_owned()),
            namespace: None,
            labels: Some(
                labels(
                    ("app".to_owned(), "judged".to_owned()),
                    Some(("judge-id".to_owned(), secure.judge_id.clone())),
                ),
            ),
            owner_references: Some(controller_owner_refs(&env.pod_env)),
        },
        spec: Some(pod_spec(None, containers)),
    };
    p
}

/// The watch of a judge selects its own pod: the selector `judge-id=<id>` the
/// listener watches with is `key=value` of a label of the judge pod.
pub proof fn lemma_listener_selects_judge_pod(
    env: JudgeEnv,
    secure: JudgeSecure,
    cpu_limit: u32,
    mem_limit: u32,
    solver_image: Seq<char>,
    judger_image: Seq<char>,
)
    ensures
        ({
            let labels = judge_pod_view(env, secure, cpu_limit, mem_limit, solver_image, judger_image).metadata.labels->0;
            exists|i: int|
                0 <= i < labels.len() && #[trigger] labels[i].0 + "="@ + labels[i].1 == "judge-id="@ + secure.judge_id@
        }),
{
    reveal_strlit("judge-id");
    reveal_strlit("=");
    reveal_strlit("judge-id=");
    let labels = judge_pod_view(env, secure, cpu_limit, mem_limit, solver_image, judger_image).metadata.labels->0;
    assert(labels[1].0 + "="@ + labels[1].1 =~= "judge-id="@ + secure.judge_id@);
}

/// The key is given to the judger only: the solver container's environment is
/// empty, so the solution cannot report a result in the judger's name.
pub proof fn lemma_only_judger_gets_the_key(
    env: JudgeEnv,
    secure: JudgeSecure,
    cpu_limit: u32,
    mem_limit: u32,
    solver_image: Seq<char>,
    judger_image: Seq<char>,
)
    ensures
        ({
            let containers = judge_pod_view(env, secure, cpu_limit, mem_limit, solver_image, judger_image).spec->0.containers;
            &&& containers.len() == 2
            &&& containers[0].name == SOLVER_CONTAINER_NAME@
            &&& containers[0].env is None
            &&& containers[1].name == JUDGER_CONTAINER_NAME@
            &&& containers[1].env->0.contains(env_of("APIKEY"@, secure.apikey@))
        }),
{
    let containers = judge_pod_view(env, secure, cpu_limit, mem_limit, solver_image, judger_image).spec->0.containers;
    assert(containers[1].env->0[0] == env_of("APIKEY"@, secure.apikey@));
}

/// The judge pod holds the solver container (`judged`, running the solver image)
/// and then the judger container (`judger`, running the judger image). Both are
/// attached to stdin, always pull their image and are limited to the same CPU
/// (`<cpu>m`) and memory (`<mem>Mi`); only the judger has an environment, made of
/// the key, the judge id and the judge server's address. The pod is named after
/// `judged`, labelled with the judge id, owned by the controller's pod, never
/// restarted, and shares its process namespace.
pub proof fn lemma_judge_pod_shape(
    env: JudgeEnv,
    secure: JudgeSecure,
    cpu_limit: u32,
    mem_limit: u32,
    solver_image: Seq<char>,
    judger_image: Seq<char>,
)
    ensures
        ({
            let pod = judge_pod_view(env, secure, cpu_limit, mem_limit, solver_image, judger_image);
            let cs = pod.spec->0.containers;
            &&& pod.spec is Some
            &&& cs.len() == 2
            &&& cs[0].name == "judged"@ && cs[0].image == Some(solver_image)
            &&& cs[1].name == "judger"@ && cs[1].image == Some(judger_image)
            &&& forall|i: int|
                0 <= i < cs.len() ==> {
                    &&& (#[trigger] cs[i]).stdin == Some(true)
                    &&& cs[i].stdin_once == Some(true)
                    &&& cs[i].image_pull_policy == Some("Always"@)
                    &&& cs[i].limits == Some(
                        LimitsView { cpu: decimal(cpu_limit as nat) + "m"@, memory: decimal(mem_limit as nat) + "Mi"@ },
                    )
                }
            &&& cs[0].env is None
            &&& cs[1].env == Some(
                seq![
                    EnvVarView { name: "APIKEY"@, value: Some(secure.apikey@) },
                    EnvVarView { name: "JUDGE_ID"@, value: Some(secure.judge_id@) },
                    EnvVarView { name: "JUDGER_ADDR"@, value: Some(env.server_addr@) },
                ],
            )
            &&& pod.spec->0.restart_policy == Some("Never"@)
            &&& pod.spec->0.share_process_namespace == Some(true)
            &&& pod.spec->0.termination_grace_period_seconds == Some(0i64)
            &&& pod.spec->0.active_deadline_seconds is None
            &&& pod.metadata.generate_name == Some("judged"@)
            &&& pod.metadata.name is None
            &&& pod.metadata.labels == Some(seq![("app"@, "judged"@), ("judge-id"@, secure.judge_id@)])
            &&& pod.metadata.owner_references == Some(
                seq![
                    OwnerRefView {
                        api_version: "v1"@,
                        controller: Some(true),
                        kind: "Pod"@,
                        name: env.pod_env.name@,
                        uid: env.pod_env.uid@,
                    },
                ],
            )
        }),
{
    reveal_strlit("judged");
    reveal_strlit("judger");
}

/// Everything a judge starts with: fresh secrets, the pod to create, how long the
/// judger may take (in seconds), and its state machine at the start.
pub struct JudgePlan {
    pub secure: JudgeSecure,
    pub pod: PodManifest,
    pub ttl_secs: u64,
    pub flow: JudgeFlow,
}

impl JudgePlan {
    /// Plans a judge of the solution in `solver_image` by the judger in
    /// `judger_image` under `limit`.
    pub fn new(env: &JudgeEnv, solver_image: String, judger_image: String, limit: &JudgeLimit) -> (p: JudgePlan)
        ensures
            is_uuid_text(p.secure.judge_id@, 4),
            is_uuid_text(p.secure.apikey@, 4),
            p.pod@ == judge_pod_view(*env, p.secure, limit.cpu, limit.memory, solver_image@, judger_image@),
            p.ttl_secs == limit.time,
            p.flow.phase == JudgePhase::Listening,
    {
        let secure = JudgeSecure::new();
        let param = JudgePodParam { cpu_limit: limit.cpu, mem_limit: limit.memory, solver_image, judger_image };
        let pod = judge_pod(env, &secure, &param);
        JudgePlan { secure, pod, ttl_secs: limit.time as u64, flow: JudgeFlow::new() }
    }

    /// Plans a judge of the uploaded solution `judged` by the uploaded judger
    /// `judger`, both taken from `registry`.
    pub fn for_request(
        env: &JudgeEnv,
        registry: &RegistryParam,
        judged: &str,
        judger: &str,
        limit: &JudgeLimit,
    ) -> (p: JudgePlan)
        ensures
            is_uuid_text(p.secure.judge_id@, 4),
            is_uuid_text(p.secure.apikey@, 4),
            p.pod@ == judge_pod_view(
                *env,
                p.secure,
                limit.cpu,
                limit.memory,
                image_path(registry.url@, registry.username@, judged@),
                image_path(registry.url@, registry.username@, judger@),
            ),
            p.ttl_secs == limit.time,
            p.flow.phase == JudgePhase::Listening,
    {
        let solver_image = registry.get_image_url(judged);
        let judger_image = registry.get_image_url(judger);
        JudgePlan::new(env, solver_image, judger_image, limit)
    }
}

} // verus!
