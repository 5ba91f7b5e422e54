//! The node surface: publish argument validation, volume context parsing,
//! and the active mount table with its history laws.
use vstd::prelude::*;

verus! {

use crate::crd::{mount_access_of, MountAccess};
use crate::dict::Dict;
use crate::errors::{RpcCode, RpcStatus};
use crate::mount::Mount;
use vstd::string::StrSliceExecFns;
use vstd::string::StringExecFns;

/// The workload identity carried in the volume context.
#[derive(Debug)]
pub struct PodInfo {
    pub name: String,
    pub namespace: String,
    pub service_account: String,
    pub uid: String,
}

/// Reads the standard pod identity keys out of the volume context.
pub fn get_pod_info(volume_context: &Dict<String>) -> (r: Result<PodInfo, RpcStatus>)
    ensures
        match r {
            Ok(p) => {
                &&& volume_context@.contains_key("csi.storage.k8s.io/pod.name"@) && p.name@
                    == volume_context@["csi.storage.k8s.io/pod.name"@]@
                &&& volume_context@.contains_key("csi.storage.k8s.io/pod.namespace"@)
                    && p.namespace@ == volume_context@["csi.storage.k8s.io/pod.namespace"@]@
                &&& volume_context@.contains_key("csi.storage.k8s.io/serviceAccount.name"@)
                    && p.service_account@ == volume_context@["csi.storage.k8s.io/serviceAccount.name"@]@
                &&& volume_context@.contains_key("csi.storage.k8s.io/pod.uid"@) && p.uid@
                    == volume_context@["csi.storage.k8s.io/pod.uid"@]@
            },
            Err(e) => {
                &&& e.code == RpcCode::InvalidArgument
                &&& !(volume_context@.contains_key("csi.storage.k8s.io/pod.name"@)
                    && volume_context@.contains_key("csi.storage.k8s.io/pod.namespace"@)
                    && volume_context@.contains_key("csi.storage.k8s.io/serviceAccount.name"@)
                    && volume_context@.contains_key("csi.storage.k8s.io/pod.uid"@))
            },
        },
{
    let name = match volume_context.get("csi.storage.k8s.io/pod.name") {
        Some(v) => v.clone(),
        None => {
            return Err(RpcStatus::invalid_argument(String::from_str("Pod name not provided")));
        },
    };
    let namespace = match volume_context.get("csi.storage.k8s.io/pod.namespace") {
        Some(v) => v.clone(),
        None => {
            return Err(
                RpcStatus::invalid_argument(String::from_str("Pod namespace not provided")),
            );
        },
    };
    let service_account = match volume_context.get("csi.storage.k8s.io/serviceAccount.name") {
        Some(v) => v.clone(),
        None => {
            return Err(
                RpcStatus::invalid_argument(String::from_str("Pod service account not provided")),
            );
        },
    };
    let uid = match volume_context.get("csi.storage.k8s.io/pod.uid") {
        Some(v) => v.clone(),
        None => {
            return Err(RpcStatus::invalid_argument(String::from_str("Pod UID not provided")));
        },
    };
    Ok(PodInfo { name, namespace, service_account, uid })
}

/// The data source a volume context names.
#[derive(Debug)]
pub struct VolumeSource {
    pub data_node_name: String,
    pub data_node_namespace: String,
    pub data_pod_name: String,
    pub data_pod_namespace: String,
    pub mount_access: MountAccess,
}

/// Reads the data node, data pod and mount selection out of the volume
/// context.
pub fn parse_volume_source(volume_context: &Dict<String>) -> (r: Result<VolumeSource, RpcStatus>)
    ensures
        match r {
            Ok(v) => {
                &&& volume_context@.contains_key("kubedal.arunaengine.org/data-node-name"@)
                    && v.data_node_name@ == volume_context@["kubedal.arunaengine.org/data-node-name"@]@
                &&& volume_context@.contains_key("kubedal.arunaengine.org/data-node-namespace"@)
                    && v.data_node_namespace@ == volume_context@["kubedal.arunaengine.org/data-node-namespace"@]@
                &&& volume_context@.contains_key("kubedal.arunaengine.org/data-pod-name"@)
                    && v.data_pod_name@ == volume_context@["kubedal.arunaengine.org/data-pod-name"@]@
                &&& volume_context@.contains_key("kubedal.arunaengine.org/data-pod-namespace"@)
                    && v.data_pod_namespace@ == volume_context@["kubedal.arunaengine.org/data-pod-namespace"@]@
                &&& volume_context@.contains_key("kubedal.arunaengine.org/mount"@)
                    && mount_access_of(volume_context@["kubedal.arunaengine.org/mount"@]@)
                    == Some(v.mount_access)
            },
            Err(e) => {
                &&& e.code == RpcCode::InvalidArgument
                &&& !({
                    &&& volume_context@.contains_key("kubedal.arunaengine.org/data-node-name"@)
                    &&& volume_context@.contains_key(
                        "kubedal.arunaengine.org/data-node-namespace"@,
                    )
                    &&& volume_context@.contains_key("kubedal.arunaengine.org/data-pod-name"@)
                    &&& volume_context@.contains_key(
                        "kubedal.arunaengine.org/data-pod-namespace"@,
                    )
                    &&& volume_context@.contains_key("kubedal.arunaengine.org/mount"@)
                        && mount_access_of(volume_context@["kubedal.arunaengine.org/mount"@]@)
                        is Some
                })
            },
        },
{
    let data_node_name = match volume_context.get("kubedal.arunaengine.org/data-node-name") {
        Some(v) => v.clone(),
        None => {
            return Err(
                RpcStatus::invalid_argument(String::from_str("DataNode name not provided")),
            );
        },
    };
    let data_node_namespace = match volume_context.get(
        "kubedal.arunaengine.org/data-node-namespace",
    ) {
        Some(v) => v.clone(),
        None => {
            return Err(
                RpcStatus::invalid_argument(String::from_str("DataNode namespace not provided")),
            );
        },
    };
    let data_pod_name = match volume_context.get("kubedal.arunaengine.org/data-pod-name") {
        Some(v) => v.clone(),
        None => {
            return Err(RpcStatus::invalid_argument(String::from_str("DataPod name not provided")));
        },
    };
    let data_pod_namespace = match volume_context.get(
        "kubedal.arunaengine.org/data-pod-namespace",
    ) {
        Some(v) => v.clone(),
        None => {
            return Err(
                RpcStatus::invalid_argument(String::from_str("DataPod namespace not provided")),
            );
        },
    };
    let mount_access = match volume_context.get("kubedal.arunaengine.org/mount") {
        Some(v) => MountAccess::parse(v.as_str())?,
        None => {
            return Err(
                RpcStatus::invalid_argument(String::from_str("Mount selection not provided")),
            );
        },
    };
    Ok(
        VolumeSource {
            data_node_name,
            data_node_namespace,
            data_pod_name,
            data_pod_namespace,
            mount_access,
        },
    )
}

/// What the node reports about itself.
#[derive(Debug)]
pub struct NodeInfo {
    pub node_id: String,
    pub max_volumes_per_node: i64,
}

/// The capabilities the node can advertise.
#[derive(Clone, Copy, Debug, PartialEq, Eq, Structural)]
pub enum NodeCapability {
    StageUnstageVolume,
}

/// Rejects a publish or unpublish call whose volume id or target path is
/// empty.
pub fn validate_publish_args(volume_id: &str, target_path: &str) -> (r: Result<(), RpcStatus>)
    ensures
        r is Ok <==> volume_id@.len() > 0 && target_path@.len() > 0,
        volume_id@.len() == 0 ==> (r matches Err(e) && e.code == RpcCode::InvalidArgument
            && e.message@ == "Volume ID cannot be empty"@),
        volume_id@.len() > 0 && target_path@.len() == 0 ==> (r matches Err(e) && e.code
            == RpcCode::InvalidArgument && e.message@ == "Target path cannot be empty"@),
{
    if volume_id.unicode_len() == 0 {
        return Err(RpcStatus::invalid_argument(String::from_str("Volume ID cannot be empty")));
    }
    if target_path.unicode_len() == 0 {
        return Err(RpcStatus::invalid_argument(String::from_str("Target path cannot be empty")));
    }
    Ok(())
}

/// The node service: the node's identity and its active mount table,
/// keyed by volume id.
#[derive(Debug)]
pub struct NodeService {
    pub node_id: String,
    pub mounts: Dict<Mount>,
}

impl NodeService {
    pub fn new(node_id: &str) -> (r: Self)
        ensures
            r.node_id@ == node_id@,
            r.mounts@ == Map::<Seq<char>, Mount>::empty(),
    {
        NodeService { node_id: String::from_str(node_id), mounts: Dict::new() }
    }

    /// The node's id and its fixed volume limit.
    pub fn node_get_info(&self) -> (r: NodeInfo)
        ensures
            r.node_id@ == self.node_id@,
            r.max_volumes_per_node == 1000,
    {
        NodeInfo { node_id: self.node_id.clone(), max_volumes_per_node: 1000 }
    }

    /// The node advertises the stage/unstage capability.
    pub fn node_get_capabilities(&self) -> (r: Vec<NodeCapability>)
        ensures
            r@.len() == 1,
            r@[0] == NodeCapability::StageUnstageVolume,
    {
        let mut caps: Vec<NodeCapability> = Vec::new();
        caps.push(NodeCapability::StageUnstageVolume);
        caps
    }

    /// Records a successfully published volume in the active mount table,
    /// keyed by its volume id.
    pub fn record_publish(&mut self, mount: Mount)
        ensures
            final(self).node_id@ == old(self).node_id@,
            final(self).mounts@ == old(self).mounts@.insert(mount.volume_id@, mount),
    {
        let key = mount.volume_id.clone();
        self.mounts.insert(key, mount);
    }

    /// Removes the mount record of a volume from the table, handing it
    /// back for teardown; an absent id removes nothing.
    pub fn take_unpublish(&mut self, volume_id: &str) -> (r: Option<Mount>)
        ensures
            final(self).node_id@ == old(self).node_id@,
            final(self).mounts@ == old(self).mounts@.remove(volume_id@),
            match r {
                Some(m) => old(self).mounts@.contains_key(volume_id@) && m == old(
                    self,
                ).mounts@[volume_id@],
                None => !old(self).mounts@.contains_key(volume_id@),
            },
    {
        self.mounts.remove_key(volume_id)
    }
}

/// One completed operation on the active mount table.
pub enum TableEvent {
    /// A publish of the volume succeeded and stored this record.
    PublishOk(Seq<char>, Mount),
    /// An unpublish of the volume succeeded.
    UnpublishOk(Seq<char>),
}

/// Whether an event is a successful publish of the given volume.
pub open spec fn is_publish_of(e: TableEvent, id: Seq<char>) -> bool {
    match e {
        TableEvent::PublishOk(pid, _) => pid == id,
        _ => false,
    }
}

/// Whether an event is a successful unpublish of the given volume.
pub open spec fn is_unpublish_of(e: TableEvent, id: Seq<char>) -> bool {
    match e {
        TableEvent::UnpublishOk(uid) => uid == id,
        _ => false,
    }
}

/// The table an event history leaves behind, starting from `base`.
pub open spec fn table_after(base: Map<Seq<char>, Mount>, events: Seq<TableEvent>) -> Map<
    Seq<char>,
    Mount,
>
    decreases events.len(),
{
    if events.len() == 0 {
        base
    } else {
        let prev = table_after(base, events.drop_last());
        match events.last() {
            TableEvent::PublishOk(id, m) => prev.insert(id, m),
            TableEvent::UnpublishOk(id) => prev.remove(id),
        }
    }
}

/// Whether the history holds a successful publish of the volume with no
/// later successful unpublish of it.
pub open spec fn live_publish_exists(events: Seq<TableEvent>, id: Seq<char>) -> bool {
    exists|i: int|
        0 <= i < events.len() && is_publish_of(#[trigger] events[i], id) && (forall|j: int|
            i < j < events.len() ==> !is_unpublish_of(#[trigger] events[j], id))
}

/// A volume is in the active mount table exactly when a prior successful
/// publish of its id exists and no later unpublish of it has succeeded.
pub proof fn lemma_mount_table_history(events: Seq<TableEvent>, id: Seq<char>)
    ensures
        table_after(Map::empty(), events).contains_key(id) == live_publish_exists(events, id),
    decreases events.len(),
{
    if events.len() == 0 {
    } else {
        let front = events.drop_last();
        lemma_mount_table_history(front, id);
        let last = events.last();
        if is_publish_of(last, id) {
            assert(is_publish_of(events[events.len() - 1], id));
            assert(live_publish_exists(events, id));
        } else if is_unpublish_of(last, id) {
            if live_publish_exists(events, id) {
                let i = choose|i: int|
                    0 <= i < events.len() && is_publish_of(#[trigger] events[i], id) && (
                    forall|j: int| i < j < events.len() ==> !is_unpublish_of(#[trigger] events[j], id));
                assert(is_unpublish_of(events[events.len() - 1], id));
                assert(i < events.len() - 1);
                assert(false);
            }
        } else {
            if live_publish_exists(front, id) {
                let i = choose|i: int|
                    0 <= i < front.len() && is_publish_of(#[trigger] front[i], id) && (forall|
                        j: int,
                    | i < j < front.len() ==> !is_unpublish_of(#[trigger] front[j], id));
                assert(events[i] == front[i]);
                assert forall|j: int| i < j < events.len() - 1 implies !is_unpublish_of(
                    #[trigger] events[j],
                    id,
                ) by {
                    assert(events[j] == front[j]);
                    assert(!is_unpublish_of(front[j], id));
                }
                assert(!is_unpublish_of(events[events.len() - 1], id));
                assert(is_publish_of(events[i], id) && (forall|j: int|
                    i < j < events.len() ==> !is_unpublish_of(#[trigger] events[j], id)));
                assert(live_publish_exists(events, id));
            }
            if live_publish_exists(events, id) {
                let i = choose|i: int|
                    0 <= i < events.len() && is_publish_of(#[trigger] events[i], id) && (
                    forall|j: int| i < j < events.len() ==> !is_unpublish_of(#[trigger] events[j], id));
                assert(i < events.len() - 1);
                assert(front[i] == events[i]);
                assert(forall|j: int|
                    i < j < front.len() ==> front[j] == events[j] && !is_unpublish_of(
                        #[trigger] front[j],
                        id,
                    ));
                assert(live_publish_exists(front, id));
            }
        }
    }
}

/// Publishing, unpublishing and publishing again with the same record
/// leaves the table exactly as a single publish would.
pub proof fn lemma_republish_equals_single_publish(base: Map<Seq<char>, Mount>, id: Seq<char>,
    m: Mount)
    ensures
        table_after(
            base,
            seq![
                TableEvent::PublishOk(id, m),
                TableEvent::UnpublishOk(id),
                TableEvent::PublishOk(id, m),
            ],
        ) =~= table_after(base, seq![TableEvent::PublishOk(id, m)]),
{
    let s3 = seq![
        TableEvent::PublishOk(id, m),
        TableEvent::UnpublishOk(id),
        TableEvent::PublishOk(id, m),
    ];
    let s2 = seq![TableEvent::PublishOk(id, m), TableEvent::UnpublishOk(id)];
    let s1 = seq![TableEvent::PublishOk(id, m)];
    reveal_with_fuel(table_after, 4);
    assert(s3.drop_last() =~= s2);
    assert(s2.drop_last() =~= s1);
    assert(s1.drop_last() =~= Seq::<TableEvent>::empty());
    assert(s1.last() == TableEvent::PublishOk(id, m));
    assert(s2.last() == TableEvent::UnpublishOk(id));
    assert(s3.last() == TableEvent::PublishOk(id, m));
    let t1 = table_after(base, s1);
    assert(t1 == base.insert(id, m));
    let t2 = table_after(base, s2);
    assert(t2 == t1.remove(id));
    let t3 = table_after(base, s3);
    assert(t3 == t2.insert(id, m));
    assert(t3 =~= t1);
}

} // verus!
