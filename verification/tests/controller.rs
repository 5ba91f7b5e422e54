use kubedal::controller_svc::{
    compose_volume_context, find_claim_by_uid, resource_namespace, strip_pvc_prefix,
    ControllerCapability, ControllerService,
};
use kubedal::crd::{Backend, DataNode, DataNodeSpec};
use kubedal::dict::Dict;
use kubedal::errors::{unimplemented_status, RpcCode};
use kubedal::meta::ObjectMeta;

fn context() -> Dict<String> {
    let mut ctx: Dict<String> = Dict::new();
    ctx.insert("bucket".to_string(), "b".to_string());
    ctx
}

#[test]
fn create_volume_mints_prefixed_id() {
    let mut svc = ControllerService::new();
    let vol = svc.create_volume("vol-a", context(), None).unwrap();
    assert_eq!(vol.volume_id.len(), 44);
    assert!(vol.volume_id.starts_with("kubedal-"));
    assert_eq!(vol.capacity_bytes, 5 * 1024 * 1024 * 1024);
}

#[test]
fn create_volume_twice_returns_same_id() {
    let mut svc = ControllerService::new();
    let first = svc.create_volume("vol-a", context(), Some(77)).unwrap();
    let second = svc.create_volume("vol-a", context(), Some(9000)).unwrap();
    assert_eq!(first.volume_id, second.volume_id);
    assert_eq!(second.capacity_bytes, 77);
    assert_eq!(svc.list_volumes().len(), 1);
}

#[test]
fn create_volume_distinct_names_distinct_ids() {
    let mut svc = ControllerService::new();
    let a = svc.create_volume("vol-a", context(), None).unwrap();
    let b = svc.create_volume("vol-b", context(), None).unwrap();
    assert_ne!(a.volume_id, b.volume_id);
    assert_eq!(svc.list_volumes().len(), 2);
}

#[test]
fn create_volume_empty_name_is_invalid() {
    let mut svc = ControllerService::new();
    let err = svc.create_volume("", context(), None).unwrap_err();
    assert_eq!(err.code, RpcCode::InvalidArgument);
    assert_eq!(svc.list_volumes().len(), 0);
}

#[test]
fn delete_volume_removes_by_id() {
    let mut svc = ControllerService::new();
    let vol = svc.create_volume("vol-a", context(), None).unwrap();
    svc.create_volume("vol-b", context(), None).unwrap();
    svc.delete_volume(vol.volume_id.as_str()).unwrap();
    let left = svc.list_volumes();
    assert_eq!(left.len(), 1);
    assert_ne!(left[0].volume_id, vol.volume_id);
}

#[test]
fn delete_volume_absent_id_succeeds() {
    let mut svc = ControllerService::new();
    svc.create_volume("vol-a", context(), None).unwrap();
    svc.delete_volume("kubedal-not-there").unwrap();
    assert_eq!(svc.list_volumes().len(), 1);
}

#[test]
fn delete_volume_empty_id_is_invalid() {
    let mut svc = ControllerService::new();
    let err = svc.delete_volume("").unwrap_err();
    assert_eq!(err.code, RpcCode::InvalidArgument);
    assert_eq!(err.message, "Volume ID cannot be empty");
}

#[test]
fn capacity_and_validation_are_fixed() {
    let svc = ControllerService::new();
    assert_eq!(svc.get_capacity(), 1024i64 * 1024 * 1024 * 1024);
    assert_eq!(svc.validate_volume_capabilities(), "All capabilities are supported");
    let caps = svc.controller_get_capabilities();
    assert_eq!(caps.len(), 1);
    assert_eq!(caps[0], ControllerCapability::CreateDeleteVolume);
}

#[test]
fn unimplemented_operations_name_themselves() {
    let status = unimplemented_status("ControllerPublishVolume");
    assert_eq!(status.code, RpcCode::Unimplemented);
    assert_eq!(status.message, "ControllerPublishVolume is not implemented");
}

#[test]
fn resource_namespace_comes_from_parameters() {
    let mut params: Dict<String> = Dict::new();
    params.insert("resourceNamespace".to_string(), "team-a".to_string());
    assert_eq!(resource_namespace(&params).unwrap(), "team-a");
    let empty: Dict<String> = Dict::new();
    let err = resource_namespace(&empty).unwrap_err();
    assert_eq!(err.code, RpcCode::InvalidArgument);
}

#[test]
fn strip_pvc_prefix_requires_the_prefix() {
    assert_eq!(strip_pvc_prefix("pvc-u-17").unwrap(), "u-17");
    let err = strip_pvc_prefix("vol-u-17").unwrap_err();
    assert_eq!(err.code, RpcCode::InvalidArgument);
}

fn meta_with_uid(name: &str, uid: Option<&str>) -> ObjectMeta {
    ObjectMeta {
        name: name.to_string(),
        namespace: Some("ns".to_string()),
        uid: uid.map(|u| u.to_string()),
        labels: Dict::new(),
        annotations: Dict::new(),
        owner_references: Vec::new(),
        finalizers: Vec::new(),
        deletion_requested: false,
    }
}

#[test]
fn find_claim_matches_uid() {
    let claims = vec![
        meta_with_uid("c0", Some("u-0")),
        meta_with_uid("c1", None),
        meta_with_uid("c2", Some("u-2")),
    ];
    assert_eq!(find_claim_by_uid(&claims, "u-2").unwrap(), 2);
    let err = find_claim_by_uid(&claims, "u-9").unwrap_err();
    assert_eq!(err.code, RpcCode::NotFound);
    assert_eq!(err.message, "PVC not found");
}

fn sample_node(secret: bool) -> DataNode {
    let mut config: Dict<String> = Dict::new();
    config.insert("bucket".to_string(), "b".to_string());
    config.insert("endpoint".to_string(), "http://e".to_string());
    let secret_ref = if secret {
        Some(kubedal::crd::Ref {
            name: "creds".to_string(),
            namespace: Some("secrets-ns".to_string()),
        })
    } else {
        None
    };
    DataNode {
        metadata: meta_with_uid("node-1", Some("dn-uid")),
        spec: DataNodeSpec {
            backend: Backend::S3,
            read_only: false,
            secret_ref,
            config,
            limit: None,
        },
        status: None,
    }
}

fn claim_annotations(mount: Option<&str>) -> Dict<String> {
    let mut ann: Dict<String> = Dict::new();
    ann.insert(
        "kubedal.arunaengine.org/data-node-name".to_string(),
        "node-1".to_string(),
    );
    ann.insert(
        "kubedal.arunaengine.org/data-node-namespace".to_string(),
        "ns".to_string(),
    );
    ann.insert(
        "kubedal.arunaengine.org/data-pod-name".to_string(),
        "pod-1".to_string(),
    );
    ann.insert(
        "kubedal.arunaengine.org/data-pod-namespace".to_string(),
        "ns".to_string(),
    );
    if let Some(m) = mount {
        ann.insert("kubedal.arunaengine.org/mount".to_string(), m.to_string());
    }
    ann
}

#[test]
fn compose_context_carries_identity_backend_and_config() {
    let node = sample_node(false);
    let ann = claim_annotations(Some("fuse-read-write"));
    let ctx = compose_volume_context(&node, &ann, &None).unwrap();
    assert_eq!(
        ctx.get("kubedal.arunaengine.org/data-node-name").unwrap().as_str(),
        "node-1"
    );
    assert_eq!(
        ctx.get("kubedal.arunaengine.org/data-pod-name").unwrap().as_str(),
        "pod-1"
    );
    assert_eq!(ctx.get("backend").unwrap().as_str(), "s3");
    assert_eq!(ctx.get("kubedal.arunaengine.org/mount").unwrap().as_str(), "fuse-read-write");
    assert_eq!(ctx.get("bucket").unwrap().as_str(), "b");
    assert_eq!(ctx.get("endpoint").unwrap().as_str(), "http://e");
    assert!(ctx.get("secret").is_none());
}

#[test]
fn compose_context_mount_override_rules() {
    let node = sample_node(false);
    let cached = compose_volume_context(&node, &claim_annotations(Some("cached")), &None).unwrap();
    assert_eq!(cached.get("kubedal.arunaengine.org/mount").unwrap().as_str(), "cache");
    let junk = compose_volume_context(&node, &claim_annotations(Some("ftp")), &None).unwrap();
    assert_eq!(junk.get("kubedal.arunaengine.org/mount").unwrap().as_str(), "fuse");
    let absent = compose_volume_context(&node, &claim_annotations(None), &None).unwrap();
    assert_eq!(absent.get("kubedal.arunaengine.org/mount").unwrap().as_str(), "fuse");
}

#[test]
fn compose_context_carries_secret_reference() {
    let node = sample_node(true);
    let secret = Some(("creds".to_string(), "secrets-ns".to_string()));
    let ctx = compose_volume_context(&node, &claim_annotations(None), &secret).unwrap();
    assert_eq!(ctx.get("secret").unwrap().as_str(), "creds");
    assert_eq!(ctx.get("secret_ns").unwrap().as_str(), "secrets-ns");
}

#[test]
fn compose_context_missing_annotation_is_invalid() {
    let node = sample_node(false);
    let mut ann: Dict<String> = Dict::new();
    ann.insert(
        "kubedal.arunaengine.org/data-node-name".to_string(),
        "node-1".to_string(),
    );
    let err = compose_volume_context(&node, &ann, &None).unwrap_err();
    assert_eq!(err.code, RpcCode::InvalidArgument);
}
