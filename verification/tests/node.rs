use kubedal::auth::{build_datanode_review, build_secret_review, evaluate_review, identity_string};
use kubedal::backend::{merge_secret_config, secret_reference};
use kubedal::crd::{Backend, DataNode, DataNodeSpec, MountAccess, Ref};
use kubedal::dict::Dict;
use kubedal::errors::RpcCode;
use kubedal::mount::{
    access_matrix, mirror_plan, staging_path, AccessMode, EntryKind, ListedEntry, MirrorStep,
    Mount, MountMode, MountState, MountWork,
};
use kubedal::node_svc::{
    get_pod_info, parse_volume_source, validate_publish_args, NodeCapability, NodeService,
};

fn full_context() -> Dict<String> {
    let mut ctx: Dict<String> = Dict::new();
    ctx.insert("kubedal.arunaengine.org/data-node-name".to_string(), "node-1".to_string());
    ctx.insert("kubedal.arunaengine.org/data-node-namespace".to_string(), "ns".to_string());
    ctx.insert("kubedal.arunaengine.org/data-pod-name".to_string(), "pod-1".to_string());
    ctx.insert("kubedal.arunaengine.org/data-pod-namespace".to_string(), "ns".to_string());
    ctx.insert("kubedal.arunaengine.org/mount".to_string(), "cache-read-only".to_string());
    ctx.insert("csi.storage.k8s.io/pod.name".to_string(), "workload".to_string());
    ctx.insert("csi.storage.k8s.io/pod.namespace".to_string(), "apps".to_string());
    ctx.insert("csi.storage.k8s.io/serviceAccount.name".to_string(), "runner".to_string());
    ctx.insert("csi.storage.k8s.io/pod.uid".to_string(), "w-uid".to_string());
    ctx
}

#[test]
fn pod_info_reads_the_identity_keys() {
    let info = get_pod_info(&full_context()).unwrap();
    assert_eq!(info.name, "workload");
    assert_eq!(info.namespace, "apps");
    assert_eq!(info.service_account, "runner");
    assert_eq!(info.uid, "w-uid");
}

#[test]
fn pod_info_missing_key_is_invalid() {
    let mut ctx = full_context();
    ctx.remove_key("csi.storage.k8s.io/pod.uid");
    let err = get_pod_info(&ctx).unwrap_err();
    assert_eq!(err.code, RpcCode::InvalidArgument);
}

#[test]
fn volume_source_reads_the_data_keys() {
    let src = parse_volume_source(&full_context()).unwrap();
    assert_eq!(src.data_node_name, "node-1");
    assert_eq!(src.data_node_namespace, "ns");
    assert_eq!(src.data_pod_name, "pod-1");
    assert_eq!(src.data_pod_namespace, "ns");
    assert_eq!(src.mount_access, MountAccess::CacheReadOnly);
}

#[test]
fn volume_source_bad_mount_is_invalid() {
    let mut ctx = full_context();
    ctx.insert("kubedal.arunaengine.org/mount".to_string(), "nfs".to_string());
    let err = parse_volume_source(&ctx).unwrap_err();
    assert_eq!(err.code, RpcCode::InvalidArgument);
    assert_eq!(err.message, "Unsupported mount type");
}

#[test]
fn publish_args_must_be_nonempty() {
    assert!(validate_publish_args("v1", "/m").is_ok());
    let e1 = validate_publish_args("", "/m").unwrap_err();
    assert_eq!(e1.code, RpcCode::InvalidArgument);
    assert_eq!(e1.message, "Volume ID cannot be empty");
    let e2 = validate_publish_args("v1", "").unwrap_err();
    assert_eq!(e2.code, RpcCode::InvalidArgument);
    assert_eq!(e2.message, "Target path cannot be empty");
}

#[test]
fn node_info_and_capabilities() {
    let svc = NodeService::new("node-7");
    let info = svc.node_get_info();
    assert_eq!(info.node_id, "node-7");
    assert_eq!(info.max_volumes_per_node, 1000);
    let caps = svc.node_get_capabilities();
    assert_eq!(caps.len(), 1);
    assert_eq!(caps[0], NodeCapability::StageUnstageVolume);
}

#[test]
fn mount_access_matrix() {
    assert_eq!(access_matrix(MountAccess::CacheReadWrite), (MountMode::Cached, AccessMode::ReadWrite));
    assert_eq!(access_matrix(MountAccess::CacheReadOnly), (MountMode::Cached, AccessMode::ReadOnly));
    assert_eq!(access_matrix(MountAccess::FuseReadWrite), (MountMode::Fuse, AccessMode::ReadWrite));
    assert_eq!(access_matrix(MountAccess::FuseReadOnly), (MountMode::Fuse, AccessMode::ReadOnly));
}

#[test]
fn read_only_nodes_demote_write_requests() {
    assert_eq!(kubedal::mount::effective_access(true, AccessMode::ReadWrite), AccessMode::ReadOnly);
    assert_eq!(kubedal::mount::effective_access(true, AccessMode::ReadOnly), AccessMode::ReadOnly);
    assert_eq!(kubedal::mount::effective_access(false, AccessMode::ReadWrite), AccessMode::ReadWrite);
    assert_eq!(kubedal::mount::effective_access(false, AccessMode::ReadOnly), AccessMode::ReadOnly);
}

#[test]
fn mount_access_strings_round_trip() {
    for access in [
        MountAccess::CacheReadWrite,
        MountAccess::CacheReadOnly,
        MountAccess::FuseReadWrite,
        MountAccess::FuseReadOnly,
    ] {
        let rendered = access.mount_string();
        assert_eq!(MountAccess::parse(rendered.as_str()).unwrap(), access);
    }
    assert_eq!(MountAccess::parse("cache").unwrap(), MountAccess::CacheReadOnly);
    assert_eq!(MountAccess::parse("fuse").unwrap(), MountAccess::FuseReadOnly);
    let err = MountAccess::parse("iscsi").unwrap_err();
    assert_eq!(err.code, RpcCode::InvalidArgument);
}

#[test]
fn backend_tags() {
    assert_eq!(Backend::parse("S3").unwrap(), Backend::S3);
    assert_eq!(Backend::parse("HTTP").unwrap(), Backend::HTTP);
    assert!(Backend::parse("FTP").is_err());
    assert_eq!(Backend::S3.tag(), "s3");
    assert_eq!(Backend::HTTP.tag(), "http");
}

#[test]
fn repeated_mount_is_a_no_op() {
    let mut mount = Mount::new(
        "v1".to_string(),
        "/m".to_string(),
        MountMode::Cached,
        AccessMode::ReadOnly,
    );
    assert_eq!(mount.state, MountState::Unmounted);
    let work = mount.begin_mount();
    assert_eq!(work, MountWork::BringUp(MountMode::Cached, AccessMode::ReadOnly));
    assert_eq!(mount.state, MountState::Mounting);
    mount.finish_mount(true);
    assert_eq!(mount.state, MountState::Mounted);
    // Mounting again without an unmount does nothing.
    assert_eq!(mount.begin_mount(), MountWork::Nothing);
    assert_eq!(mount.state, MountState::Mounted);
}

#[test]
fn unmount_only_from_mounted() {
    let mut mount = Mount::new(
        "v1".to_string(),
        "/m".to_string(),
        MountMode::Fuse,
        AccessMode::ReadWrite,
    );
    // Unmounting an unmounted record succeeds without work.
    assert_eq!(mount.begin_unmount(), false);
    assert_eq!(mount.state, MountState::Unmounted);
    mount.begin_mount();
    mount.finish_mount(true);
    assert_eq!(mount.begin_unmount(), true);
    assert_eq!(mount.state, MountState::Unmounting);
    mount.finish_unmount(true);
    assert_eq!(mount.state, MountState::Unmounted);
}

#[test]
fn failed_bring_up_falls_back() {
    let mut mount = Mount::new(
        "v1".to_string(),
        "/m".to_string(),
        MountMode::Cached,
        AccessMode::ReadWrite,
    );
    mount.begin_mount();
    mount.finish_mount(false);
    assert_eq!(mount.state, MountState::Unmounted);
}

#[test]
fn publish_unpublish_publish_matches_single_publish() {
    let mut svc = NodeService::new("node-1");
    let make = || {
        let mut m = Mount::new(
            "v1".to_string(),
            "/m".to_string(),
            MountMode::Fuse,
            AccessMode::ReadOnly,
        );
        m.begin_mount();
        m.finish_mount(true);
        m
    };
    svc.record_publish(make());
    let taken = svc.take_unpublish("v1").unwrap();
    assert_eq!(taken.volume_id, "v1");
    assert!(svc.mounts.get("v1").is_none());
    svc.record_publish(make());
    let stored = svc.mounts.get("v1").unwrap();
    assert_eq!(stored.state, MountState::Mounted);
    assert_eq!(stored.target_path, "/m");
    // A second unpublish of a gone volume finds nothing and succeeds.
    assert!(svc.take_unpublish("v2").is_none());
}

#[test]
fn staging_path_is_per_volume() {
    assert_eq!(staging_path("v1"), "/mnt/v1");
}

#[test]
fn mirror_plan_copies_files_and_creates_dirs() {
    let entries = vec![
        ListedEntry { path: "k1".to_string(), kind: EntryKind::File },
        ListedEntry { path: "k2/".to_string(), kind: EntryKind::Dir },
        ListedEntry { path: "k2/sub".to_string(), kind: EntryKind::File },
    ];
    let plan = mirror_plan(&entries).unwrap();
    assert_eq!(plan.len(), 3);
    match &plan[0] {
        MirrorStep::CopyFile(p) => assert_eq!(p, "k1"),
        _ => panic!("expected a file copy"),
    }
    match &plan[1] {
        MirrorStep::EnsureDir(p) => assert_eq!(p, "k2/"),
        _ => panic!("expected a directory"),
    }
    match &plan[2] {
        MirrorStep::CopyFile(p) => assert_eq!(p, "k2/sub"),
        _ => panic!("expected a file copy"),
    }
}

#[test]
fn mirror_plan_rejects_unknown_entries() {
    let entries = vec![
        ListedEntry { path: "k1".to_string(), kind: EntryKind::File },
        ListedEntry { path: "weird".to_string(), kind: EntryKind::Unknown },
    ];
    let err = mirror_plan(&entries).unwrap_err();
    assert_eq!(err.code, RpcCode::Unknown);
    assert_eq!(err.message, "Data source entry type is unknown");
}

#[test]
fn identity_is_rendered_from_namespace_and_account() {
    assert_eq!(identity_string("apps", "runner"), "system:serviceaccount:apps:runner");
}

#[test]
fn datanode_review_names_the_target() {
    let review = build_datanode_review("node-1", "ns", "apps", "runner");
    assert_eq!(review.group.as_deref(), Some("kubedal.arunaengine.org"));
    assert_eq!(review.resource, "datanodes");
    assert_eq!(review.name, "node-1");
    assert_eq!(review.namespace, "ns");
    assert_eq!(review.verb, "get");
    assert_eq!(review.user, "system:serviceaccount:apps:runner");
    assert_eq!(
        review.deny_message,
        "system:serviceaccount:apps:runner, has unsufficient permission to GET \
         datanode.kubedal.arunaengine.org node-1 in namespace ns"
    );
}

#[test]
fn review_denial_is_permission_denied() {
    let review = build_datanode_review("node-1", "ns", "apps", "runner");
    assert!(evaluate_review(Some(true), &review).is_ok());
    let denied = evaluate_review(Some(false), &review).unwrap_err();
    assert_eq!(denied.code, RpcCode::PermissionDenied);
    assert_eq!(denied.message, review.deny_message);
    let no_status = evaluate_review(None, &review).unwrap_err();
    assert_eq!(no_status.code, RpcCode::PermissionDenied);
    assert_eq!(no_status.message, "SubjectAccessReview did not return status");
}

#[test]
fn secret_review_uses_the_core_group() {
    let review = build_secret_review("creds", "secrets-ns", "apps", "runner");
    assert!(review.group.is_none());
    assert_eq!(review.resource, "secrets");
    assert_eq!(
        review.deny_message,
        "system:serviceaccount:apps:runner, has unsufficient permission to GET \
         secret.kubernetes.io/secret creds in namespace secrets-ns"
    );
}

fn node_with_secret(secret_ns: Option<&str>, node_ns: Option<&str>) -> DataNode {
    DataNode {
        metadata: kubedal::meta::ObjectMeta {
            name: "node-1".to_string(),
            namespace: node_ns.map(|s| s.to_string()),
            uid: Some("dn-uid".to_string()),
            labels: Dict::new(),
            annotations: Dict::new(),
            owner_references: Vec::new(),
            finalizers: Vec::new(),
            deletion_requested: false,
        },
        spec: DataNodeSpec {
            backend: Backend::S3,
            read_only: false,
            secret_ref: Some(Ref {
                name: "creds".to_string(),
                namespace: secret_ns.map(|s| s.to_string()),
            }),
            config: Dict::new(),
            limit: None,
        },
        status: None,
    }
}

#[test]
fn secret_reference_resolves_namespaces() {
    let own_ns = secret_reference(&node_with_secret(Some("s-ns"), Some("ns"))).unwrap().unwrap();
    assert_eq!(own_ns, ("creds".to_string(), "s-ns".to_string()));
    let node_ns = secret_reference(&node_with_secret(None, Some("ns"))).unwrap().unwrap();
    assert_eq!(node_ns, ("creds".to_string(), "ns".to_string()));
    let err = secret_reference(&node_with_secret(None, None)).unwrap_err();
    assert_eq!(err.code, RpcCode::InvalidArgument);
    assert_eq!(err.message, "Secret namespace not provided");
}

#[test]
fn secret_merge_overrides_and_decodes() {
    let mut cfg: Dict<String> = Dict::new();
    cfg.insert("bucket".to_string(), "b".to_string());
    cfg.insert("access_key".to_string(), "stale".to_string());
    let data = vec![
        ("access_key".to_string(), b"a".to_vec()),
        ("secret_key".to_string(), b"s".to_vec()),
    ];
    let merged = merge_secret_config(&cfg, &data).unwrap();
    assert_eq!(merged.get("access_key").unwrap().as_str(), "a");
    assert_eq!(merged.get("secret_key").unwrap().as_str(), "s");
    assert_eq!(merged.get("bucket").unwrap().as_str(), "b");
}

#[test]
fn secret_merge_rejects_bad_bytes() {
    let cfg: Dict<String> = Dict::new();
    let data = vec![("access_key".to_string(), vec![0xffu8, 0xfe])];
    let err = merge_secret_config(&cfg, &data).unwrap_err();
    assert_eq!(err.code, RpcCode::Internal);
    assert_eq!(err.message, "Failed to deserialize secret");
}
