//! The Kubernetes objects the controller submits, as plain values: the judge pod
//! and the job variants, built field by field.

use vstd::prelude::*;
use vstd::string::*;
use crate::text::{decimal, push_decimal};

verus! {

/// An environment variable with a literal value.
pub struct EnvVarSpec {
    pub name: String,
    pub value: Option<String>,
}

/// The `limits` of a container's resources: a CPU quantity and a memory quantity.
pub struct ResourceLimits {
    pub cpu: String,
    pub memory: String,
}

/// A container of a pod.
pub struct ContainerSpec {
    pub name: String,
    pub image: Option<String>,
    pub image_pull_policy: Option<String>,
    /// The resource limits; the container asks for no resource requests.
    pub limits: Option<ResourceLimits>,
    pub stdin: Option<bool>,
    pub stdin_once: Option<bool>,
    pub env: Option<Vec<EnvVarSpec>>,
}

/// The specification of a pod.
pub struct PodSpecModel {
    pub active_deadline_seconds: Option<i64>,
    pub containers: Vec<ContainerSpec>,
    pub restart_policy: Option<String>,
    pub share_process_namespace: Option<bool>,
    pub termination_grace_period_seconds: Option<i64>,
}

/// A reference to the object that owns another.
pub struct OwnerRef {
    pub api_version: String,
    pub controller: Option<bool>,
    pub kind: String,
    pub name: String,
    pub uid: String,
}

/// The metadata of an object. Labels are listed in key order.
pub struct ObjectMetaModel {
    pub name: Option<String>,
    pub generate_name: Option<String>,
    pub namespace: Option<String>,
    pub labels: Option<Vec<(String, String)>>,
    pub owner_references: Option<Vec<OwnerRef>>,
}

/// A pod to create.
pub struct PodManifest {
    pub metadata: ObjectMetaModel,
    pub spec: Option<PodSpecModel>,
}

/// A job to create: its metadata, its retry limit and the pod template (which
/// carries no metadata of its own).
pub struct JobManifest {
    pub metadata: ObjectMetaModel,
    pub backoff_limit: Option<i32>,
    pub template: PodSpecModel,
}

/// Where the controller runs: its namespace and its own pod, which owns what it
/// creates.
pub struct PodEnv {
    pub namespace: String,
    pub uid: String,
    pub name: String,
}

// ---------------------------------------------------------------------------
// Abstract values.

pub struct EnvVarView {
    pub name: Seq<char>,
    pub value: Option<Seq<char>>,
}

pub struct LimitsView {
    pub cpu: Seq<char>,
    pub memory: Seq<char>,
}

pub struct ContainerView {
    pub name: Seq<char>,
    pub image: Option<Seq<char>>,
    pub image_pull_policy: Option<Seq<char>>,
    pub limits: Option<LimitsView>,
    pub stdin: Option<bool>,
    pub stdin_once: Option<bool>,
    pub env: Option<Seq<EnvVarView>>,
}

pub struct PodSpecView {
    pub active_deadline_seconds: Option<i64>,
    pub containers: Seq<ContainerView>,
    pub restart_policy: Option<Seq<char>>,
    pub share_process_namespace: Option<bool>,
    pub termination_grace_period_seconds: Option<i64>,
}

pub struct OwnerRefView {
    pub api_version: Seq<char>,
    pub controller: Option<bool>,
    pub kind: Seq<char>,
    pub name: Seq<char>,
    pub uid: Seq<char>,
}

pub struct ObjectMetaView {
    pub name: Option<Seq<char>>,
    pub generate_name: Option<Seq<char>>,
    pub namespace: Option<Seq<char>>,
    pub labels: Option<Seq<(Seq<char>, Seq<char>)>>,
    pub owner_references: Option<Seq<OwnerRefView>>,
}

pub struct PodManifestView {
    pub metadata: ObjectMetaView,
    pub spec: Option<PodSpecView>,
}

pub struct JobManifestView {
    pub metadata: ObjectMetaView,
    pub backoff_limit: Option<i32>,
    pub template: PodSpecView,
}

impl View for EnvVarSpec {
    type V = EnvVarView;

    open spec fn view(&self) -> EnvVarView {
        EnvVarView { name: self.name@, value: self.value.deep_view() }
    }
}

impl View for ResourceLimits {
    type V = LimitsView;

    open spec fn view(&self) -> LimitsView {
        LimitsView { cpu: self.cpu@, memory: self.memory@ }
    }
}

pub open spec fn env_view(env: Option<Vec<EnvVarSpec>>) -> Option<Seq<EnvVarView>> {
    match env {
        Some(v) => Some(v@.map_values(|e: EnvVarSpec| e@)),
        None => None,
    }
}

pub open spec fn limits_view(l: Option<ResourceLimits>) -> Option<LimitsView> {
    match l {
        Some(l) => Some(l@),
        None => None,
    }
}

impl View for ContainerSpec {
    type V = ContainerView;

    open spec fn view(&self) -> ContainerView {
        ContainerView {
            name: self.name@,
            image: self.image.deep_view(),
            image_pull_policy: self.image_pull_policy.deep_view(),
            limits: limits_view(self.limits),
            stdin: self.stdin,
            stdin_once: self.stdin_once,
            env: env_view(self.env),
        }
    }
}

impl View for PodSpecModel {
    type V = PodSpecView;

    open spec fn view(&self) -> PodSpecView {
        PodSpecView {
            active_deadline_seconds: self.active_deadline_seconds,
            containers: self.containers@.map_values(|c: ContainerSpec| c@),
            restart_policy: self.restart_policy.deep_view(),
            share_process_namespace: self.share_process_namespace,
            termination_grace_period_seconds: self.termination_grace_period_seconds,
        }
    }
}

impl View for OwnerRef {
    type V = OwnerRefView;

    open spec fn view(&self) -> OwnerRefView {
        OwnerRefView {
            api_version: self.api_version@,
            controller: self.controller,
            kind: self.kind@,
            name: self.name@,
            uid: self.uid@,
        }
    }
}

pub open spec fn labels_view(l: Option<Vec<(String, String)>>) -> Option<Seq<(Seq<char>, Seq<char>)>> {
    match l {
        Some(v) => Some(v@.map_values(|kv: (String, String)| (kv.0@, kv.1@))),
        None => None,
    }
}

pub open spec fn owners_view(o: Option<Vec<OwnerRef>>) -> Option<Seq<OwnerRefView>> {
    match o {
        Some(v) => Some(v@.map_values(|r: OwnerRef| r@)),
        None => None,
    }
}

impl View for ObjectMetaModel {
    type V = ObjectMetaView;

    open spec fn view(&self) -> ObjectMetaView {
        ObjectMetaView {
            name: self.name.deep_view(),
            generate_name: self.generate_name.deep_view(),
            namespace: self.namespace.deep_view(),
            labels: labels_view(self.labels),
            owner_references: owners_view(self.owner_references),
        }
    }
}

impl View for PodManifest {
    type V = PodManifestView;

    open spec fn view(&self) -> PodManifestView {
        PodManifestView {
            metadata: self.metadata@,
            spec: match self.spec {
                Some(s) => Some(s@),
                None => None,
            },
        }
    }
}

impl View for JobManifest {
    type V = JobManifestView;

    open spec fn view(&self) -> JobManifestView {
        JobManifestView {
            metadata: self.metadata@,
            backoff_limit: self.backoff_limit,
            template: self.template@,
        }
    }
}

// ---------------------------------------------------------------------------
// The values the builders produce.

/// CPU `cpu` milli-cores and `memory` MiB.
pub open spec fn limits_of(cpu: nat, memory: nat) -> LimitsView {
    LimitsView { cpu: decimal(cpu) + "m"@, memory: decimal(memory) + "Mi"@ }
}

/// The controller's own pod, as controlling owner.
pub open spec fn controller_owner(env: PodEnv) -> OwnerRefView {
    OwnerRefView {
        api_version: "v1"@,
        controller: Some(true),
        kind: "Pod"@,
        name: env.name@,
        uid: env.uid@,
    }
}

/// A container that always pulls `image` and is limited to `limits`.
pub open spec fn container_of(
    name: Seq<char>,
    image: Seq<char>,
    limits: LimitsView,
    stdin: Option<bool>,
    env: Option<Seq<EnvVarView>>,
) -> ContainerView {
    ContainerView {
        name,
        image: Some(image),
        image_pull_policy: Some("Always"@),
        limits: Some(limits),
        stdin,
        stdin_once: stdin,
        env,
    }
}

/// A pod that is never restarted, shares its process namespace and stops at once.
pub open spec fn pod_spec_of(deadline: Option<i64>, containers: Seq<ContainerView>) -> PodSpecView {
    PodSpecView {
        active_deadline_seconds: deadline,
        containers,
        restart_policy: Some("Never"@),
        share_process_namespace: Some(true),
        termination_grace_period_seconds: Some(0),
    }
}

/// An environment variable.
pub open spec fn env_of(name: Seq<char>, value: Seq<char>) -> EnvVarView {
    EnvVarView { name, value: Some(value) }
}

// ---------------------------------------------------------------------------
// Builders.

/// The resource limits: `cpu` milli-cores and `memory` MiB.
pub fn resource_limits(cpu: u64, memory: u64) -> (l: ResourceLimits)
    ensures
        l@ == limits_of(cpu as nat, memory as nat),
{
    let mut c = String::new();
    push_decimal(&mut c, cpu);
    c.append("m");
    let mut m = String::new();
    push_decimal(&mut m, memory);
    m.append("Mi");
    ResourceLimits { cpu: c, memory: m }
}

/// The owner references of everything the controller creates: its own pod.
pub fn controller_owner_refs(env: &PodEnv) -> (o: Vec<OwnerRef>)
    ensures
        o@.map_values(|r: OwnerRef| r@) == seq![controller_owner(*env)],
{
    let r = OwnerRef {
        api_version: "v1".to_owned(),
        controller: Some(true),
        kind: "Pod".to_owned(),
        name: env.name.clone(),
        uid: env.uid.clone(),
    };
    let mut o = Vec::new();
    o.push(r);
    assert(o@.map_values(|r: OwnerRef| r@) =~= seq![controller_owner(*env)]);
    o
}

/// An environment variable with a literal value.
pub fn env_var(name: &str, value: String) -> (e: EnvVarSpec)
    ensures
        e@ == env_of(name@, value@),
{
    EnvVarSpec { name: name.to_owned(), value: Some(value) }
}

/// A container that always pulls `image`, limited to `limits`; where `stdin` is
/// given it also sets `stdin_once` to the same value.
pub fn container(
    name: &str,
    image: String,
    limits: ResourceLimits,
    stdin: Option<bool>,
    env: Option<Vec<EnvVarSpec>>,
) -> (c: ContainerSpec)
    ensures
        c@ == container_of(name@, image@, limits@, stdin, env_view(env)),
{
    ContainerSpec {
        name: name.to_owned(),
        image: Some(image),
        image_pull_policy: Some("Always".to_owned()),
        limits: Some(limits),
        stdin,
        stdin_once: stdin,
        env,
    }
}

/// A pod specification that never restarts, shares its process namespace and has
/// no termination grace period.
pub fn pod_spec(deadline: Option<i64>, containers: Vec<ContainerSpec>) -> (s: PodSpecModel)
    ensures
        s@ == pod_spec_of(deadline, containers@.map_values(|c: ContainerSpec| c@)),
{
    PodSpecModel {
        active_deadline_seconds: deadline,
        containers,
        restart_policy: Some("Never".to_owned()),
        share_process_namespace: Some(true),
        termination_grace_period_seconds: Some(0),
    }
}

/// A label list of one or two entries, in the order given.
pub fn labels(first: (String, String), second: Option<(String, String)>) -> (l: Vec<(String, String)>)
    ensures
        l@.map_values(|kv: (String, String)| (kv.0@, kv.1@)) == (match second {
            Some(kv) => seq![(first.0@, first.1@), (kv.0@, kv.1@)],
            None => seq![(first.0@, first.1@)],
        }),
{
    let mut l = Vec::new();
    l.push(first);
    match second {
        Some(kv) => {
            l.push(kv);
            assert(l@.map_values(|kv: (String, String)| (kv.0@, kv.1@)) =~= seq![
                (l@[0].0@, l@[0].1@),
                (l@[1].0@, l@[1].1@),
            ]);
        },
        None => {
            assert(l@.map_values(|kv: (String, String)| (kv.0@, kv.1@)) =~= seq![
                (l@[0].0@, l@[0].1@),
            ]);
        },
    }
    l
}

} // verus!
