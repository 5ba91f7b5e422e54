//! The replica set controller: fanning one source data pod out onto
//! distinct data nodes, with a claim per replica and one synchronization
//! worker pod.
use vstd::prelude::*;

verus! {

use crate::crd::{DataNode, DataPod, DataReplicaSet, MountAccess};
use crate::dict::Dict;
use crate::errors::Error;
use crate::finalizer::Action;
use crate::ids::{is_lower_alnum, random_suffix};
use crate::meta::OwnerReference;
use crate::strings::{spec_dec, str_concat, str_concat3, str_eq, u32_to_string};
use vstd::string::StringExecFns;

/// The finalizer marker of the replica set kind.
pub fn datareplicaset_finalizer() -> (r: String)
    ensures
        r@ == "kubedal.arunaengine.org/datareplicaset"@,
{
    String::from_str("kubedal.arunaengine.org/datareplicaset")
}

/// What one pass of the replica set controller does.
#[derive(Clone, Copy, Debug, PartialEq, Eq, Structural)]
pub enum DrsStep {
    /// The status is set: nothing to do for a long while.
    Idle,
    /// Enough members exist: check back soon.
    Satisfied,
    /// Fewer members than replicas: fan out.
    FanOut,
}

/// The pass decision over the observable facts.
pub open spec fn spec_drs_step(status_set: bool, current: u32, replicas: u32) -> DrsStep {
    if status_set {
        DrsStep::Idle
    } else if current >= replicas {
        DrsStep::Satisfied
    } else {
        DrsStep::FanOut
    }
}

/// Decides the pass: an initialized status idles for thirty minutes; a
/// satisfied member count checks back in five; a shortfall fans out and
/// also checks back in five.
pub fn drs_reconcile_step(drs: &DataReplicaSet, current_count: u32) -> (r: (DrsStep, Action))
    ensures
        r.0 == spec_drs_step(drs.status is Some, current_count, drs.spec.replicas),
        r.0 == DrsStep::Idle ==> r.1 == Action::Requeue(1800),
        r.0 != DrsStep::Idle ==> r.1 == Action::Requeue(300),
{
    if drs.status.is_some() {
        (DrsStep::Idle, Action::Requeue(1800))
    } else if current_count >= drs.spec.replicas {
        (DrsStep::Satisfied, Action::Requeue(300))
    } else {
        (DrsStep::FanOut, Action::Requeue(300))
    }
}

/// Zero declared replicas are satisfied by zero members: the pass creates
/// nothing and the set is steady at once.
pub proof fn lemma_zero_replicas_steady(status_set: bool, current: u32)
    ensures
        !status_set ==> spec_drs_step(status_set, current, 0) == DrsStep::Satisfied,
{
}

/// The status a fan-out pass leaves behind: a full fan-out records the
/// set as available; a degraded one (fewer usable nodes than missing
/// members) records nothing, so the set keeps being revisited until
/// enough distinct nodes exist.
pub fn drs_status_after_fan_out(created: usize, missing: usize) -> (r: Option<
    crate::crd::DataReplicaSetStatus,
>)
    ensures
        created == missing ==> (r matches Some(s) && s.available == true),
        created != missing ==> r is None,
{
    if created == missing {
        Some(crate::crd::DataReplicaSetStatus { available: true })
    } else {
        None
    }
}

/// An owner reference to a replica set.
pub fn drs_owner_ref(drs: &DataReplicaSet) -> (r: Result<OwnerReference, Error>)
    ensures
        match r {
            Ok(o) => drs.metadata.uid matches Some(u) && o.api_version@
                == "kubedal.arunaengine.org/v1alpha1"@ && o.kind@ == "DataReplicaSet"@ && o.name@
                == drs.metadata.name@ && o.uid@ == u@,
            Err(e) => drs.metadata.uid is None && e matches Error::ReconcilerError(_),
        },
{
    match &drs.metadata.uid {
        Some(u) => Ok(
            OwnerReference {
                api_version: String::from_str("kubedal.arunaengine.org/v1alpha1"),
                kind: String::from_str("DataReplicaSet"),
                name: drs.metadata.name.clone(),
                uid: u.clone(),
            },
        ),
        None => Err(Error::ReconcilerError(String::from_str("DataReplicaSet is missing uid"))),
    }
}

/// One replica data pod to be created.
#[derive(Debug)]
pub struct ReplicaPodPlan {
    pub name: String,
    pub namespace: String,
    pub path: String,
    pub labels: Dict<String>,
    pub data_node_name: String,
    pub data_node_namespace: Option<String>,
    pub data_node_uid: String,
}

/// One volume claim to be provisioned.
#[derive(Debug)]
pub struct ClaimPlan {
    pub name: String,
    pub namespace: String,
    pub annotations: Dict<String>,
    pub mount_access: MountAccess,
}

/// One volume mount of the worker pod.
#[derive(Debug)]
pub struct WorkerMount {
    pub claim_name: String,
    pub mount_path: String,
    pub read_only: bool,
}

/// The synchronization worker pod to be created.
#[derive(Debug)]
pub struct WorkerPodPlan {
    pub name: String,
    pub namespace: String,
    pub image: String,
    pub command: Vec<String>,
    pub mounts: Vec<WorkerMount>,
}

/// Everything one fan-out pass creates. All created objects carry the
/// replica set's owner reference.
#[derive(Debug)]
pub struct ReplicaPlan {
    pub owner: OwnerReference,
    pub pods: Vec<ReplicaPodPlan>,
    /// One claim per replica pod, and the source claim last.
    pub claims: Vec<ClaimPlan>,
    pub worker: WorkerPodPlan,
}

/// The identity of one listed node, as the fan-out picks them.
struct NodeSummary {
    name: String,
    namespace: Option<String>,
    uid: String,
}

/// How many listed nodes are usable for replicas: those with a uid other
/// than the source node's.
pub open spec fn spec_available_count(nodes: Seq<DataNode>, source_uid: Seq<char>) -> int
    decreases nodes.len(),
{
    if nodes.len() == 0 {
        0
    } else {
        spec_available_count(nodes.drop_last(), source_uid) + (
        if nodes.last().metadata.uid matches Some(u) && u@ != source_uid {
            1int
        } else {
            0int
        })
    }
}

/// The annotation values a claim carries for its data node and data pod.
pub open spec fn claim_annotations_ok(ann: Map<Seq<char>, String>, node_name: Seq<char>,
    node_ns: Seq<char>, pod_name: Seq<char>, pod_ns: Seq<char>, mount: Seq<char>) -> bool {
    let kn = "kubedal.arunaengine.org/data-node-name"@;
    let kns = "kubedal.arunaengine.org/data-node-namespace"@;
    let kp = "kubedal.arunaengine.org/data-pod-name"@;
    let kps = "kubedal.arunaengine.org/data-pod-namespace"@;
    let km = "kubedal.arunaengine.org/mount"@;
    &&& ann.contains_key(kn) && ann[kn]@ == node_name
    &&& ann.contains_key(kns) && ann[kns]@ == node_ns
    &&& ann.contains_key(kp) && ann[kp]@ == pod_name
    &&& ann.contains_key(kps) && ann[kps]@ == pod_ns
    &&& ann.contains_key(km) && ann[km]@ == mount
}

/// The namespace characters an optional namespace denotes: empty when
/// absent.
pub open spec fn spec_ns(ns: Option<String>) -> Seq<char> {
    match ns {
        Some(s) => s@,
        None => Seq::empty(),
    }
}

/// Whether every selector label occurs in the labels with the same value.
pub open spec fn labels_match(selector: Map<Seq<char>, String>, labels: Map<Seq<char>, String>) -> bool {
    forall|k: Seq<char>|
        #[trigger] selector.contains_key(k) ==> labels.contains_key(k) && labels[k]@
            == selector[k]@
}

/// Every replica pod of a fan-out is matched by the replica set's
/// selector, provided the template labels are a superset of the selector:
/// each created pod carries exactly the template labels.
pub proof fn lemma_replicas_match_selector(selector: Map<Seq<char>, String>, template: Map<
    Seq<char>,
    String,
>, pods: Seq<ReplicaPodPlan>)
    requires
        labels_match(selector, template),
        forall|a: int| 0 <= a < pods.len() ==> (#[trigger] pods[a]).labels@ == template,
    ensures
        forall|a: int| 0 <= a < pods.len() ==> labels_match(selector, (#[trigger] pods[a]).labels@),
{
}

/// The node uids a steady fan-out touches: the source node's uid and
/// each replica's node uid.
pub open spec fn plan_uid_seq(source_uid: Seq<char>, pods: Seq<ReplicaPodPlan>) -> Seq<Seq<char>> {
    seq![source_uid] + pods.map_values(|p: ReplicaPodPlan| p.data_node_uid@)
}

/// With replicas on pairwise distinct nodes, all distinct from the
/// source node, the set of node uids across the source and the replicas
/// has exactly one member per replica plus one for the source.
pub proof fn lemma_distinct_node_cardinality(source_uid: Seq<char>, pods: Seq<ReplicaPodPlan>)
    requires
        forall|a: int, b: int|
            0 <= a < b < pods.len() ==> (#[trigger] pods[a]).data_node_uid@ != (
            #[trigger] pods[b]).data_node_uid@,
        forall|a: int| 0 <= a < pods.len() ==> (#[trigger] pods[a]).data_node_uid@ != source_uid,
    ensures
        plan_uid_seq(source_uid, pods).to_set().len() == pods.len() + 1,
{
    let s = plan_uid_seq(source_uid, pods);
    let mv = pods.map_values(|p: ReplicaPodPlan| p.data_node_uid@);
    assert(s.len() == pods.len() + 1);
    assert forall|i: int, j: int| 0 <= i < j < s.len() implies s[i] != s[j] by {
        if i == 0 {
            assert(s[j] == mv[j - 1]);
            assert(mv[j - 1] == pods[j - 1].data_node_uid@);
        } else {
            assert(s[i] == mv[i - 1] && s[j] == mv[j - 1]);
            assert(mv[i - 1] == pods[i - 1].data_node_uid@);
            assert(mv[j - 1] == pods[j - 1].data_node_uid@);
        }
    }
    assert(s.no_duplicates());
    s.unique_seq_to_set();
}

/// Builds the annotations of one provisioned claim.
fn build_claim_annotations(node_name: &str, node_ns: &str, pod_name: &str, pod_ns: &str,
    mount: MountAccess) -> (r: Dict<String>)
    ensures
        claim_annotations_ok(
            r@,
            node_name@,
            node_ns@,
            pod_name@,
            pod_ns@,
            crate::crd::mount_access_string(mount),
        ),
        r.pairs().len() == 5,
{
    let mut ann: Dict<String> = Dict::new();
    ann.insert(
        String::from_str("kubedal.arunaengine.org/data-node-name"),
        String::from_str(node_name),
    );
    ann.insert(
        String::from_str("kubedal.arunaengine.org/data-node-namespace"),
        String::from_str(node_ns),
    );
    ann.insert(
        String::from_str("kubedal.arunaengine.org/data-pod-name"),
        String::from_str(pod_name),
    );
    ann.insert(
        String::from_str("kubedal.arunaengine.org/data-pod-namespace"),
        String::from_str(pod_ns),
    );
    ann.insert(String::from_str("kubedal.arunaengine.org/mount"), mount.mount_string());
    proof {
        reveal_strlit("kubedal.arunaengine.org/data-node-name");
        reveal_strlit("kubedal.arunaengine.org/data-node-namespace");
        reveal_strlit("kubedal.arunaengine.org/data-pod-name");
        reveal_strlit("kubedal.arunaengine.org/data-pod-namespace");
        reveal_strlit("kubedal.arunaengine.org/mount");
        assert("kubedal.arunaengine.org/data-node-name"@.len() == 38);
        assert("kubedal.arunaengine.org/data-node-namespace"@.len() == 43);
        assert("kubedal.arunaengine.org/data-pod-name"@.len() == 37);
        assert("kubedal.arunaengine.org/data-pod-namespace"@.len() == 42);
        assert("kubedal.arunaengine.org/mount"@.len() == 29);
    }
    ann
}

/// The claim name of one provisioned claim: the `pvc-` prefix, the
/// replica set's uid, and a random eight-character suffix.
fn build_claim_name(drs_uid: &str) -> (r: String)
    ensures
        r@.len() == drs_uid@.len() + 13,
        r@.subrange(0, drs_uid@.len() as int + 5) == "pvc-"@ + drs_uid@ + "-"@,
        forall|i: int|
            drs_uid@.len() + 5 <= i < drs_uid@.len() + 13 ==> is_lower_alnum(#[trigger] r@[i]),
{
    let suffix = random_suffix();
    let head = str_concat3("pvc-", drs_uid, "-");
    let out = str_concat(head.as_str(), suffix.as_str());
    proof {
        reveal_strlit("pvc-");
        reveal_strlit("-");
        assert(out@.subrange(0, drs_uid@.len() as int + 5) =~= "pvc-"@ + drs_uid@ + "-"@);
        assert(forall|i: int|
            drs_uid@.len() + 5 <= i < drs_uid@.len() + 13 ==> out@[i] == suffix@[i - (
            drs_uid@.len() + 5)]);
    }
    out
}

/// Fans a replica set out: picks one distinct usable node per missing
/// member, plans a replica data pod and claim for each, a claim for the
/// source, and the worker pod mounting the source read-only and every
/// replica read-write.
///
/// The listing is what the orchestrator returned: every node carries a
/// uid and no uid occurs twice. When fewer usable nodes exist than
/// members are missing, the fan-out stops at the usable count without an
/// error.
pub fn drs_fan_out(drs: &DataReplicaSet, current_count: u32, source_pod: &DataPod,
    source_node: &DataNode, nodes: &Vec<DataNode>) -> (r: Result<ReplicaPlan, Error>)
    requires
        current_count <= drs.spec.replicas,
        forall|i: int| 0 <= i < nodes@.len() ==> (#[trigger] nodes@[i]).metadata.uid is Some,
        forall|i: int, j: int|
            0 <= i < j < nodes@.len() ==> nodes@[i].metadata.uid->Some_0@
                != nodes@[j].metadata.uid->Some_0@,
    ensures
        match r {
            Ok(plan) => {
                let created = plan.pods@.len();
                let missing = drs.spec.replicas - current_count;
                let avail = spec_available_count(nodes@, source_node.metadata.uid->Some_0@);
                &&& drs.metadata.uid is Some && drs.metadata.namespace is Some
                    && source_node.metadata.uid is Some && source_pod.spec.path is Some
                &&& created == if missing <= avail {
                    missing as int
                } else {
                    avail
                }
                &&& forall|a: int, b: int|
                    0 <= a < b < created ==> (#[trigger] plan.pods@[a]).data_node_uid@ != (
                    #[trigger] plan.pods@[b]).data_node_uid@
                &&& forall|a: int|
                    0 <= a < created ==> (#[trigger] plan.pods@[a]).data_node_uid@
                        != source_node.metadata.uid->Some_0@
                &&& forall|a: int|
                    0 <= a < created ==> exists|j: int|
                        0 <= j < nodes@.len() && (#[trigger] plan.pods@[a]).data_node_uid@ == (
                        #[trigger] nodes@[j]).metadata.uid->Some_0@ && plan.pods@[a].data_node_name@
                            == nodes@[j].metadata.name@ && spec_ns(
                            plan.pods@[a].data_node_namespace,
                        ) == spec_ns(nodes@[j].metadata.namespace)
                &&& forall|a: int|
                    0 <= a < created ==> (#[trigger] plan.pods@[a]).name@
                        == drs.metadata.uid->Some_0@ + "-replica-"@ + spec_dec(current_count + a)
                        && plan.pods@[a].path@ == "/replica-"@ + spec_dec(current_count + a)
                        && plan.pods@[a].labels@ == drs.spec.template.metadata.labels@
                        && plan.pods@[a].namespace@ == drs.metadata.namespace->Some_0@
                &&& plan.claims@.len() == created + 1
                &&& forall|a: int|
                    0 <= a < created + 1 ==> (#[trigger] plan.claims@[a]).name@.len()
                        == drs.metadata.uid->Some_0@.len() + 13
                        && plan.claims@[a].name@.subrange(
                        0,
                        drs.metadata.uid->Some_0@.len() as int + 5,
                    ) == "pvc-"@ + drs.metadata.uid->Some_0@ + "-"@
                &&& forall|a: int|
                    0 <= a < created ==> (#[trigger] plan.claims@[a]).mount_access
                        == MountAccess::FuseReadWrite && claim_annotations_ok(
                        plan.claims@[a].annotations@,
                        plan.pods@[a].data_node_name@,
                        spec_ns(plan.pods@[a].data_node_namespace),
                        plan.pods@[a].name@,
                        plan.pods@[a].namespace@,
                        "fuse-read-write"@,
                    )
                &&& plan.claims@[created as int].mount_access == MountAccess::FuseReadOnly
                    && claim_annotations_ok(
                    plan.claims@[created as int].annotations@,
                    source_node.metadata.name@,
                    spec_ns(source_node.metadata.namespace),
                    source_pod.metadata.name@,
                    spec_ns(source_pod.metadata.namespace),
                    "fuse-read-only"@,
                )
                &&& plan.worker.mounts@.len() == created + 1
                &&& plan.worker.mounts@[0].claim_name@ == plan.claims@[created as int].name@
                    && plan.worker.mounts@[0].mount_path@ == source_pod.spec.path->Some_0@
                    && plan.worker.mounts@[0].read_only == true
                &&& forall|a: int|
                    0 <= a < created ==> (#[trigger] plan.worker.mounts@[a + 1]).claim_name@
                        == plan.claims@[a].name@ && plan.worker.mounts@[a + 1].mount_path@
                        == plan.pods@[a].path@ && plan.worker.mounts@[a + 1].read_only == false
                &&& forall|a: int|
                    0 <= a < created + 1 ==> (#[trigger] plan.claims@[a]).namespace@
                        == drs.metadata.namespace->Some_0@
                &&& plan.worker.namespace@ == drs.metadata.namespace->Some_0@
                &&& plan.worker.name@.len() == drs.metadata.name@.len() + 9
                &&& plan.worker.name@.subrange(0, drs.metadata.name@.len() as int + 1)
                    == drs.metadata.name@ + "-"@
                &&& plan.worker.image@ == "alpine:3.21"@
                &&& plan.worker.command@.len() == 2 && plan.worker.command@[0]@ == "sleep"@
                    && plan.worker.command@[1]@ == "infinity"@
                &&& plan.owner.kind@ == "DataReplicaSet"@ && plan.owner.name@
                    == drs.metadata.name@ && plan.owner.uid@ == drs.metadata.uid->Some_0@
            },
            Err(e) => (drs.metadata.uid is None || drs.metadata.namespace is None
                || source_node.metadata.uid is None || source_pod.spec.path is None)
                && e matches Error::ReconcilerError(_),
        },
{
    let owner = drs_owner_ref(drs)?;
    let drs_uid = match &drs.metadata.uid {
        Some(u) => u.clone(),
        None => {
            return Err(
                Error::ReconcilerError(String::from_str("DataReplicaSet is missing uid")),
            );
        },
    };
    let drs_ns = match &drs.metadata.namespace {
        Some(ns) => ns.clone(),
        None => {
            return Err(
                Error::ReconcilerError(String::from_str("DataReplicaSet is missing namespace")),
            );
        },
    };
    let source_uid = match &source_node.metadata.uid {
        Some(u) => u.clone(),
        None => {
            return Err(
                Error::ReconcilerError(String::from_str("Source DataNode is missing uid")),
            );
        },
    };
    let source_path = match &source_pod.spec.path {
        Some(p) => p.clone(),
        None => {
            return Err(
                Error::ReconcilerError(String::from_str("Source DataPod is missing path")),
            );
        },
    };

    let n_nodes = nodes.len();
    let mut avail: Vec<NodeSummary> = Vec::new();
    let mut i: usize = 0;
    while i < n_nodes
        invariant
            n_nodes == nodes@.len(),
            i <= n_nodes,
            source_uid@ == source_node.metadata.uid->Some_0@,
            forall|x: int| 0 <= x < nodes@.len() ==> (#[trigger] nodes@[x]).metadata.uid is Some,
            forall|x: int, y: int|
                0 <= x < y < nodes@.len() ==> nodes@[x].metadata.uid->Some_0@
                    != nodes@[y].metadata.uid->Some_0@,
            avail@.len() == spec_available_count(nodes@.take(i as int), source_uid@),
            forall|a: int|
                0 <= a < avail@.len() ==> exists|j: int|
                    0 <= j < i && (#[trigger] avail@[a]).uid@ == (
                    #[trigger] nodes@[j]).metadata.uid->Some_0@ && avail@[a].name@
                        == nodes@[j].metadata.name@ && spec_ns(avail@[a].namespace) == spec_ns(
                        nodes@[j].metadata.namespace,
                    ),
            forall|a: int|
                0 <= a < avail@.len() ==> (#[trigger] avail@[a]).uid@ != source_uid@,
            forall|a: int, b: int|
                0 <= a < b < avail@.len() ==> (#[trigger] avail@[a]).uid@ != (
                #[trigger] avail@[b]).uid@,
        decreases n_nodes - i,
    {
        proof {
            assert(nodes@.take(i + 1).drop_last() =~= nodes@.take(i as int));
            assert(nodes@.take(i + 1).last() == nodes@[i as int]);
        }
        let node = &nodes[i];
        match &node.metadata.uid {
            Some(u) => {
                if !str_eq(u.as_str(), source_uid.as_str()) {
                    let summary = NodeSummary {
                        name: node.metadata.name.clone(),
                        namespace: match &node.metadata.namespace {
                            Some(ns) => Some(ns.clone()),
                            None => None,
                        },
                        uid: u.clone(),
                    };
                    proof {
                        assert forall|a: int| 0 <= a < avail@.len() implies (
                        #[trigger] avail@[a]).uid@ != nodes@[i as int].metadata.uid->Some_0@ by {
                            let j = choose|j: int|
                                0 <= j < i && avail@[a].uid@ == (
                                #[trigger] nodes@[j]).metadata.uid->Some_0@ && avail@[a].name@
                                    == nodes@[j].metadata.name@;
                            assert(nodes@[j].metadata.uid->Some_0@
                                != nodes@[i as int].metadata.uid->Some_0@);
                        }
                    }
                    avail.push(summary);
                }
            },
            None => {
                return Err(
                    Error::ReconcilerError(String::from_str("Listed DataNode is missing uid")),
                );
            },
        }
        i = i + 1;
    }
    proof {
        assert(nodes@.take(n_nodes as int) =~= nodes@);
    }

    let ghost avail0: int = avail@.len() as int;
    let replicas = drs.spec.replicas;
    let mut pods: Vec<ReplicaPodPlan> = Vec::new();
    let mut claims: Vec<ClaimPlan> = Vec::new();
    let mut index: u32 = current_count;
    while index < replicas && avail.len() > 0
        invariant
            current_count <= index <= replicas,
            replicas == drs.spec.replicas,
            drs_uid@ == drs.metadata.uid->Some_0@,
            drs_ns@ == drs.metadata.namespace->Some_0@,
            source_uid@ == source_node.metadata.uid->Some_0@,
            pods@.len() == index - current_count,
            claims@.len() == pods@.len(),
            avail@.len() + pods@.len() == avail0,
            avail0 == spec_available_count(nodes@, source_uid@),
            forall|a: int|
                0 <= a < avail@.len() ==> exists|j: int|
                    0 <= j < nodes@.len() && (#[trigger] avail@[a]).uid@ == (
                    #[trigger] nodes@[j]).metadata.uid->Some_0@ && avail@[a].name@
                        == nodes@[j].metadata.name@ && spec_ns(avail@[a].namespace) == spec_ns(
                        nodes@[j].metadata.namespace,
                    ),
            forall|a: int|
                0 <= a < avail@.len() ==> (#[trigger] avail@[a]).uid@ != source_uid@,
            forall|a: int, b: int|
                0 <= a < b < avail@.len() ==> (#[trigger] avail@[a]).uid@ != (
                #[trigger] avail@[b]).uid@,
            forall|a: int|
                0 <= a < pods@.len() ==> exists|j: int|
                    0 <= j < nodes@.len() && (#[trigger] pods@[a]).data_node_uid@ == (
                    #[trigger] nodes@[j]).metadata.uid->Some_0@ && pods@[a].data_node_name@
                        == nodes@[j].metadata.name@ && spec_ns(pods@[a].data_node_namespace)
                        == spec_ns(nodes@[j].metadata.namespace),
            forall|a: int|
                0 <= a < pods@.len() ==> (#[trigger] pods@[a]).data_node_uid@ != source_uid@,
            forall|a: int, b: int|
                0 <= a < b < pods@.len() ==> (#[trigger] pods@[a]).data_node_uid@ != (
                #[trigger] pods@[b]).data_node_uid@,
            forall|a: int, b: int|
                0 <= a < pods@.len() && 0 <= b < avail@.len() ==> (
                #[trigger] pods@[a]).data_node_uid@ != (#[trigger] avail@[b]).uid@,
            forall|a: int|
                0 <= a < pods@.len() ==> (#[trigger] pods@[a]).name@ == drs_uid@ + "-replica-"@
                    + spec_dec(current_count + a) && pods@[a].path@ == "/replica-"@ + spec_dec(
                    current_count + a,
                ) && pods@[a].labels@ == drs.spec.template.metadata.labels@
                    && pods@[a].namespace@ == drs_ns@,
            forall|a: int|
                0 <= a < pods@.len() ==> (#[trigger] claims@[a]).mount_access
                    == MountAccess::FuseReadWrite && claim_annotations_ok(
                    claims@[a].annotations@,
                    pods@[a].data_node_name@,
                    spec_ns(pods@[a].data_node_namespace),
                    pods@[a].name@,
                    pods@[a].namespace@,
                    "fuse-read-write"@,
                ),
            forall|a: int|
                0 <= a < claims@.len() ==> (#[trigger] claims@[a]).name@.len() == drs_uid@.len()
                    + 13 && claims@[a].name@.subrange(0, drs_uid@.len() as int + 5) == "pvc-"@
                    + drs_uid@ + "-"@ && claims@[a].namespace@ == drs_ns@,
        decreases replicas - index,
    {
        let node = avail.pop().unwrap();
        let idx_str = u32_to_string(index);
        let name = str_concat3(drs_uid.as_str(), "-replica-", idx_str.as_str());
        let path = str_concat("/replica-", idx_str.as_str());
        let node_ns_str = match &node.namespace {
            Some(ns) => ns.clone(),
            None => String::new(),
        };
        let annotations = build_claim_annotations(
            node.name.as_str(),
            node_ns_str.as_str(),
            name.as_str(),
            drs_ns.as_str(),
            MountAccess::FuseReadWrite,
        );
        let claim_name = build_claim_name(drs_uid.as_str());
        let pod = ReplicaPodPlan {
            name,
            namespace: drs_ns.clone(),
            path,
            labels: drs.spec.template.metadata.labels.duplicate(),
            data_node_name: node.name,
            data_node_namespace: node.namespace,
            data_node_uid: node.uid,
        };
        let claim = ClaimPlan {
            name: claim_name,
            namespace: drs_ns.clone(),
            annotations,
            mount_access: MountAccess::FuseReadWrite,
        };
        pods.push(pod);
        claims.push(claim);
        index = index + 1;
    }

    let source_node_ns = match &source_node.metadata.namespace {
        Some(ns) => ns.clone(),
        None => String::new(),
    };
    let source_pod_ns = match &source_pod.metadata.namespace {
        Some(ns) => ns.clone(),
        None => String::new(),
    };
    let source_annotations = build_claim_annotations(
        source_node.metadata.name.as_str(),
        source_node_ns.as_str(),
        source_pod.metadata.name.as_str(),
        source_pod_ns.as_str(),
        MountAccess::FuseReadOnly,
    );
    let source_claim = ClaimPlan {
        name: build_claim_name(drs_uid.as_str()),
        namespace: drs_ns.clone(),
        annotations: source_annotations,
        mount_access: MountAccess::FuseReadOnly,
    };

    let mut mounts: Vec<WorkerMount> = Vec::new();
    mounts.push(
        WorkerMount {
            claim_name: source_claim.name.clone(),
            mount_path: source_path,
            read_only: true,
        },
    );
    let n_pods = pods.len();
    let mut m: usize = 0;
    while m < n_pods
        invariant
            n_pods == pods@.len(),
            n_pods == claims@.len(),
            m <= n_pods,
            mounts@.len() == m + 1,
            mounts@[0].claim_name@ == source_claim.name@,
            mounts@[0].mount_path@ == source_pod.spec.path->Some_0@,
            mounts@[0].read_only == true,
            forall|a: int|
                0 <= a < m ==> (#[trigger] mounts@[a + 1]).claim_name@ == claims@[a].name@
                    && mounts@[a + 1].mount_path@ == pods@[a].path@ && mounts@[a + 1].read_only
                    == false,
        decreases n_pods - m,
    {
        mounts.push(
            WorkerMount {
                claim_name: claims[m].name.clone(),
                mount_path: pods[m].path.clone(),
                read_only: false,
            },
        );
        m = m + 1;
    }

    let mut command: Vec<String> = Vec::new();
    command.push(String::from_str("sleep"));
    command.push(String::from_str("infinity"));
    let worker_suffix = random_suffix();
    let mut worker_name = str_concat(drs.metadata.name.as_str(), "-");
    worker_name.append(worker_suffix.as_str());
    proof {
        reveal_strlit("-");
        assert(worker_name@.subrange(0, drs.metadata.name@.len() as int + 1) =~= drs.metadata.name@
            + "-"@);
    }
    let worker = WorkerPodPlan {
        name: worker_name,
        namespace: drs_ns,
        image: String::from_str("alpine:3.21"),
        command,
        mounts,
    };

    let mut all_claims = claims;
    all_claims.push(source_claim);
    Ok(ReplicaPlan { owner, pods, claims: all_claims, worker })
}

} // verus!
