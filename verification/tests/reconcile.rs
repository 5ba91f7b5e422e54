use kubedal::crd::{
    Backend, DataNode, DataNodeSpec, DataPod, DataPodSpec, DataReplicaSet, DataReplicaSetSpec,
    DataReplicaSetSpecTemplate, LabelsMetadata, MatchLabels, Ref,
};
use kubedal::datanode_ctrl::{datanode_finalizer, dn_after_probe, dn_needs_probe};
use kubedal::datapod_ctrl::{
    datapod_finalizer, dp_patch_plan, dp_sync_event, effective_path, pick_first_node,
    resolve_data_node_plan, selector_string, NodeResolution,
};
use kubedal::dict::Dict;
use kubedal::endpoint::{is_controller_role, parse_endpoint};
use kubedal::errors::Error;
use kubedal::finalizer::{
    add_finalizer, cleanup_outcome, error_policy_action, finalizer_step,
    remove_finalizer_after_cleanup, Action, FinalizerStep,
};
use kubedal::identity_svc::{IdentityService, PluginCapability};
use kubedal::meta::ObjectMeta;
use kubedal::replica_ctrl::{
    datareplicaset_finalizer, drs_fan_out, drs_reconcile_step, DrsStep,
};
use kubedal::resource::{
    create_opendal_operator, default_access_key, default_access_mode, default_secret_key,
    AccessMode, Resource, ResourceMetadata, ResourceSpec, ResourceState, ResourceStatus,
};
use kubedal::strings::u32_to_string;
use kubedal::sync_status::{job_status_to_sync_status, JobStatusSummary, SyncPodStatus};

fn meta(name: &str, ns: &str, uid: Option<&str>) -> ObjectMeta {
    ObjectMeta {
        name: name.to_string(),
        namespace: Some(ns.to_string()),
        uid: uid.map(|u| u.to_string()),
        labels: Dict::new(),
        annotations: Dict::new(),
        owner_references: Vec::new(),
        finalizers: Vec::new(),
        deletion_requested: false,
    }
}

fn node(name: &str, uid: &str) -> DataNode {
    DataNode {
        metadata: meta(name, "ns", Some(uid)),
        spec: DataNodeSpec {
            backend: Backend::S3,
            read_only: false,
            secret_ref: None,
            config: Dict::new(),
            limit: None,
        },
        status: None,
    }
}

fn pod(name: &str, uid: &str, path: Option<&str>) -> DataPod {
    DataPod {
        metadata: meta(name, "ns", Some(uid)),
        spec: DataPodSpec {
            path: path.map(|p| p.to_string()),
            data_node_ref: None,
            data_node_selector: None,
            request: None,
        },
        status: None,
    }
}

#[test]
fn endpoint_scheme_must_be_unix() {
    assert_eq!(parse_endpoint("unix:///tmp/csi.sock").unwrap(), "/tmp/csi.sock");
    let err = parse_endpoint("tcp://127.0.0.1:9000").unwrap_err();
    assert_eq!(err, "Only unix domain sockets are supported");
    assert!(is_controller_role("controller"));
    assert!(!is_controller_role("node-1"));
}

#[test]
fn identity_service_reports_itself() {
    let svc = IdentityService::new("kubedal.arunaengine.org", "0.1.0");
    let info = svc.get_plugin_info();
    assert_eq!(info.name, "kubedal.arunaengine.org");
    assert_eq!(info.vendor_version, "0.1.0");
    assert!(svc.probe());
    let caps = svc.get_plugin_capabilities();
    assert_eq!(caps.len(), 1);
    assert_eq!(caps[0], PluginCapability::ControllerService);
}

#[test]
fn finalizer_markers_are_kind_specific() {
    assert_eq!(datanode_finalizer(), "kubedal.arunaengine.org/datanode");
    assert_eq!(datapod_finalizer(), "kubedal.arunaengine.org/datapod");
    assert_eq!(datareplicaset_finalizer(), "kubedal.arunaengine.org/datareplicaset");
}

#[test]
fn finalizer_lifecycle_marks_before_reconcile() {
    let marker = "kubedal.arunaengine.org/datanode";
    let mut m = meta("dn", "ns", Some("u"));
    assert_eq!(finalizer_step(&m, marker), FinalizerStep::AddFinalizer);
    add_finalizer(&mut m, marker);
    assert_eq!(finalizer_step(&m, marker), FinalizerStep::RunReconcile);
    m.deletion_requested = true;
    assert_eq!(finalizer_step(&m, marker), FinalizerStep::RunCleanup);
}

#[test]
fn deletion_completes_only_after_cleanup_success() {
    let marker = "kubedal.arunaengine.org/datanode";
    let mut m = meta("dn", "ns", Some("u"));
    add_finalizer(&mut m, marker);
    m.deletion_requested = true;
    // A failed cleanup leaves the marker, so deletion stays blocked.
    remove_finalizer_after_cleanup(&mut m, marker, false);
    assert_eq!(m.finalizers.len(), 1);
    assert_eq!(finalizer_step(&m, marker), FinalizerStep::RunCleanup);
    // A successful cleanup removes it.
    remove_finalizer_after_cleanup(&mut m, marker, true);
    assert!(m.finalizers.is_empty());
    assert_eq!(finalizer_step(&m, marker), FinalizerStep::Ignore);
}

#[test]
fn status_patches_share_one_field_manager() {
    assert_eq!(kubedal::finalizer::field_manager(), "cntrlr");
}

#[test]
fn crd_diagnostic_names_the_kind() {
    assert_eq!(
        kubedal::finalizer::crd_missing_diagnostic("DataNode"),
        "CRD DataNode is not queryable. Is the CRD installed?"
    );
}

#[test]
fn cleanup_emits_delete_requested() {
    let (event, action) = cleanup_outcome("dn-1");
    assert_eq!(event.reason, "DeleteRequested");
    assert_eq!(event.action, "Deleting");
    assert_eq!(event.note.unwrap(), "Delete `dn-1`");
    assert_eq!(action, Action::AwaitChange);
    assert_eq!(error_policy_action(), Action::Requeue(300));
}

#[test]
fn datanode_probe_flow() {
    let fresh = node("dn", "u-dn");
    assert!(dn_needs_probe(&fresh).is_ok());
    let mut steady = node("dn", "u-dn");
    steady.status = Some(kubedal::crd::DataNodeStatus { available: true, used: "0".to_string() });
    assert_eq!(dn_needs_probe(&steady).unwrap_err(), Action::Requeue(1800));

    let ok = dn_after_probe("dn", true, String::new()).unwrap();
    assert!(ok.status_patch.available);
    assert_eq!(ok.status_patch.used, "0");
    assert_eq!(ok.event.reason, "Initialized");
    assert_eq!(ok.event.note.unwrap(), "Init `dn`");
    assert_eq!(ok.action, Action::Requeue(1800));

    let err = dn_after_probe("dn", false, "endpoint unreachable".to_string()).unwrap_err();
    match err {
        Error::ReconcilerError(msg) => assert_eq!(msg, "endpoint unreachable"),
        _ => panic!("expected a reconciler error"),
    }
}

#[test]
fn path_generation_boundaries() {
    assert_eq!(effective_path(&None, "u-1"), ("/u-1".to_string(), true));
    assert_eq!(effective_path(&Some(String::new()), "u-1"), ("/u-1".to_string(), true));
    assert_eq!(effective_path(&Some("/".to_string()), "u-1"), ("/u-1".to_string(), true));
    assert_eq!(effective_path(&Some("/data".to_string()), "u-1"), ("/data".to_string(), false));
}

#[test]
fn datapod_patch_has_one_owner_and_generated_path() {
    let dp = pod("dp", "u-1", None);
    let dn = node("dn", "u-dn");
    let patch = dp_patch_plan(&dp, &dn).unwrap();
    assert_eq!(patch.owner_references.len(), 1);
    let owner = &patch.owner_references[0];
    assert_eq!(owner.api_version, "kubedal.arunaengine.org/v1alpha1");
    assert_eq!(owner.kind, "DataNode");
    assert_eq!(owner.name, "dn");
    assert_eq!(owner.uid, "u-dn");
    assert_eq!(patch.path, "/u-1");
    assert!(patch.generated_path);
    assert!(patch.status.available);
    assert!(patch.status.generated_path);

    let explicit = dp_patch_plan(&pod("dp", "u-1", Some("/data")), &dn).unwrap();
    assert_eq!(explicit.path, "/data");
    assert!(!explicit.generated_path);
    assert!(!explicit.status.generated_path);
}

#[test]
fn datapod_patch_requires_node_uid() {
    let dp = pod("dp", "u-1", Some("/data"));
    let mut dn = node("dn", "u-dn");
    dn.metadata.uid = None;
    assert!(dp_patch_plan(&dp, &dn).is_err());
}

#[test]
fn sync_event_names_the_generation() {
    let generated = dp_sync_event(true);
    assert_eq!(generated.reason, "Reconciled: DataPod changed (path generated: true)");
    assert_eq!(generated.action, "ReconciledSync");
    let kept = dp_sync_event(false);
    assert_eq!(kept.reason, "Reconciled: DataPod changed (path generated: false)");
}

#[test]
fn node_resolution_is_an_alternation() {
    let by_ref = DataPodSpec {
        path: None,
        data_node_ref: Some(Ref { name: "dn".to_string(), namespace: None }),
        data_node_selector: None,
        request: None,
    };
    match resolve_data_node_plan(&by_ref).unwrap() {
        NodeResolution::ByRef(name) => assert_eq!(name, "dn"),
        _ => panic!("expected resolution by reference"),
    }

    let mut selector: Dict<String> = Dict::new();
    selector.insert("tier".to_string(), "cold".to_string());
    selector.insert("zone".to_string(), "a".to_string());
    let by_selector = DataPodSpec {
        path: None,
        data_node_ref: None,
        data_node_selector: Some(selector),
        request: None,
    };
    match resolve_data_node_plan(&by_selector).unwrap() {
        NodeResolution::BySelector(s) => assert_eq!(s, "tier=cold,zone=a"),
        _ => panic!("expected resolution by selector"),
    }

    let neither = DataPodSpec {
        path: None,
        data_node_ref: None,
        data_node_selector: None,
        request: None,
    };
    assert!(resolve_data_node_plan(&neither).is_err());

    let mut sel2: Dict<String> = Dict::new();
    sel2.insert("tier".to_string(), "cold".to_string());
    let both = DataPodSpec {
        path: None,
        data_node_ref: Some(Ref { name: "dn".to_string(), namespace: None }),
        data_node_selector: Some(sel2),
        request: None,
    };
    assert!(resolve_data_node_plan(&both).is_err());
}

#[test]
fn first_listed_node_wins() {
    assert!(pick_first_node(&Vec::new()).is_err());
    assert_eq!(pick_first_node(&vec![node("dn", "u")]).unwrap(), 0);
}

#[test]
fn selector_rendering() {
    let mut labels: Dict<String> = Dict::new();
    labels.insert("app".to_string(), "db".to_string());
    assert_eq!(selector_string(&labels), "app=db");
    let empty: Dict<String> = Dict::new();
    assert_eq!(selector_string(&empty), "");
}

fn replica_set(replicas: u32, uid: &str) -> DataReplicaSet {
    let mut selector: Dict<String> = Dict::new();
    selector.insert("replica-of".to_string(), "src".to_string());
    let mut template_labels: Dict<String> = Dict::new();
    template_labels.insert("replica-of".to_string(), "src".to_string());
    template_labels.insert("managed".to_string(), "yes".to_string());
    DataReplicaSet {
        metadata: meta("drs", "ns", Some(uid)),
        spec: DataReplicaSetSpec {
            replicas,
            selector: MatchLabels { labels: selector },
            source_pod: Ref { name: "src".to_string(), namespace: None },
            template: DataReplicaSetSpecTemplate {
                metadata: LabelsMetadata { labels: template_labels },
                spec: DataPodSpec {
                    path: None,
                    data_node_ref: None,
                    data_node_selector: None,
                    request: None,
                },
            },
        },
        status: None,
    }
}

#[test]
fn zero_replicas_are_steady_at_once() {
    let drs = replica_set(0, "u-drs");
    let (step, action) = drs_reconcile_step(&drs, 0);
    assert_eq!(step, DrsStep::Satisfied);
    assert_eq!(action, Action::Requeue(300));
}

#[test]
fn initialized_status_idles() {
    let mut drs = replica_set(3, "u-drs");
    drs.status = Some(kubedal::crd::DataReplicaSetStatus { available: true });
    let (step, action) = drs_reconcile_step(&drs, 0);
    assert_eq!(step, DrsStep::Idle);
    assert_eq!(action, Action::Requeue(1800));
}

#[test]
fn shortfall_fans_out() {
    let drs = replica_set(3, "u-drs");
    assert_eq!(drs_reconcile_step(&drs, 2).0, DrsStep::FanOut);
    assert_eq!(drs_reconcile_step(&drs, 3).0, DrsStep::Satisfied);
}

#[test]
fn fan_out_three_replicas_on_distinct_nodes() {
    let drs = replica_set(3, "u-drs");
    let source_pod = pod("src", "u-src", Some("/src"));
    let source_node = node("dn-0", "u-0");
    let nodes = vec![
        node("dn-0", "u-0"),
        node("dn-1", "u-1"),
        node("dn-2", "u-2"),
        node("dn-3", "u-3"),
        node("dn-4", "u-4"),
    ];
    let plan = drs_fan_out(&drs, 0, &source_pod, &source_node, &nodes).unwrap();

    assert_eq!(plan.pods.len(), 3);
    let mut uids: Vec<&str> = plan.pods.iter().map(|p| p.data_node_uid.as_str()).collect();
    uids.sort();
    uids.dedup();
    assert_eq!(uids.len(), 3);
    assert!(!uids.contains(&"u-0"));

    for (i, p) in plan.pods.iter().enumerate() {
        assert_eq!(p.name, format!("u-drs-replica-{}", i));
        assert_eq!(p.path, format!("/replica-{}", i));
        assert_eq!(p.namespace, "ns");
        assert_eq!(p.labels.get("replica-of").unwrap().as_str(), "src");
        assert_eq!(p.labels.get("managed").unwrap().as_str(), "yes");
    }

    // One claim per replica plus the source claim.
    assert_eq!(plan.claims.len(), 4);
    for claim in plan.claims.iter() {
        assert!(claim.name.starts_with("pvc-u-drs-"));
        assert_eq!(claim.name.len(), "pvc-u-drs-".len() + 8);
        for c in claim.name["pvc-u-drs-".len()..].chars() {
            assert!(c.is_ascii_lowercase() || c.is_ascii_digit());
        }
    }
    let source_claim = &plan.claims[3];
    assert_eq!(
        source_claim
            .annotations
            .get("kubedal.arunaengine.org/mount")
            .unwrap()
            .as_str(),
        "fuse-read-only"
    );
    assert_eq!(
        source_claim
            .annotations
            .get("kubedal.arunaengine.org/data-pod-name")
            .unwrap()
            .as_str(),
        "src"
    );
    let replica_claim = &plan.claims[0];
    assert_eq!(
        replica_claim
            .annotations
            .get("kubedal.arunaengine.org/mount")
            .unwrap()
            .as_str(),
        "fuse-read-write"
    );
    assert_eq!(
        replica_claim
            .annotations
            .get("kubedal.arunaengine.org/data-pod-name")
            .unwrap()
            .as_str(),
        "u-drs-replica-0"
    );

    // The worker mounts the source read-only and each replica read-write.
    assert_eq!(plan.worker.mounts.len(), 4);
    assert_eq!(plan.worker.mounts[0].claim_name, source_claim.name);
    assert_eq!(plan.worker.mounts[0].mount_path, "/src");
    assert!(plan.worker.mounts[0].read_only);
    for (i, m) in plan.worker.mounts.iter().skip(1).enumerate() {
        assert_eq!(m.claim_name, plan.claims[i].name);
        assert_eq!(m.mount_path, plan.pods[i].path);
        assert!(!m.read_only);
    }
    assert_eq!(plan.worker.image, "alpine:3.21");
    assert_eq!(plan.worker.command, vec!["sleep".to_string(), "infinity".to_string()]);
    assert_eq!(plan.owner.kind, "DataReplicaSet");
    assert_eq!(plan.owner.uid, "u-drs");
}

#[test]
fn fan_out_stops_at_the_available_count() {
    let drs = replica_set(5, "u-drs");
    let source_pod = pod("src", "u-src", Some("/src"));
    let source_node = node("dn-0", "u-0");
    let nodes = vec![node("dn-0", "u-0"), node("dn-1", "u-1"), node("dn-2", "u-2")];
    let plan = drs_fan_out(&drs, 0, &source_pod, &source_node, &nodes).unwrap();
    assert_eq!(plan.pods.len(), 2);
    assert_eq!(plan.claims.len(), 3);
    assert_eq!(plan.worker.mounts.len(), 3);
}

#[test]
fn fan_out_requires_source_path() {
    let drs = replica_set(1, "u-drs");
    let source_pod = pod("src", "u-src", None);
    let source_node = node("dn-0", "u-0");
    let nodes = vec![node("dn-1", "u-1")];
    assert!(drs_fan_out(&drs, 0, &source_pod, &source_node, &nodes).is_err());
}

#[test]
fn decimal_rendering() {
    assert_eq!(u32_to_string(0), "0");
    assert_eq!(u32_to_string(7), "7");
    assert_eq!(u32_to_string(42), "42");
    assert_eq!(u32_to_string(1000), "1000");
}

#[test]
fn legacy_resource_validation() {
    let resource = |backend: &str, bucket: Option<&str>| Resource {
        metadata: ResourceMetadata {
            name: "r".to_string(),
            namespace: "ns".to_string(),
            annotations: Dict::new(),
        },
        spec: ResourceSpec {
            backend: backend.to_string(),
            endpoint: None,
            region: None,
            bucket: bucket.map(|b| b.to_string()),
            path: None,
            secret_ref: None,
            access_mode: default_access_mode(),
            options: Dict::new(),
        },
        status: ResourceStatus::default(),
    };
    assert!(create_opendal_operator(&resource("s3", Some("b"))).is_ok());
    assert_eq!(
        create_opendal_operator(&resource("s3", None)).unwrap_err(),
        "S3 backend requires a bucket"
    );
    assert_eq!(
        create_opendal_operator(&resource("azblob", None)).unwrap_err(),
        "Azure Blob backend requires a container"
    );
    assert_eq!(
        create_opendal_operator(&resource("gcs", Some("b"))).unwrap_err(),
        "Unsupported backend: gcs"
    );
}

#[test]
fn legacy_defaults() {
    assert_eq!(default_access_mode(), AccessMode::Cached);
    assert_eq!(default_access_key(), "access_key");
    assert_eq!(default_secret_key(), "secret_key");
    assert_eq!(ResourceState::default(), ResourceState::Pending);
    let status = ResourceStatus::default();
    assert!(status.last_accessed.is_none());
    assert_eq!(status.state, ResourceState::Pending);
    assert!(status.error.is_none());
}

#[test]
fn job_status_mapping() {
    assert_eq!(job_status_to_sync_status(&None), SyncPodStatus::Pending);
    let summary = |active: Option<i32>, succeeded: Option<i32>, failed: Option<i32>, started: bool| {
        Some(JobStatusSummary { active, succeeded, failed, has_start_time: started })
    };
    assert_eq!(job_status_to_sync_status(&summary(None, None, Some(1), true)), SyncPodStatus::Failed);
    assert_eq!(job_status_to_sync_status(&summary(Some(1), Some(1), None, true)), SyncPodStatus::Completed);
    assert_eq!(job_status_to_sync_status(&summary(Some(2), None, Some(0), false)), SyncPodStatus::Running);
    assert_eq!(job_status_to_sync_status(&summary(None, None, None, true)), SyncPodStatus::Running);
    assert_eq!(job_status_to_sync_status(&summary(Some(0), Some(0), None, false)), SyncPodStatus::Pending);
}

#[test]
fn dict_last_insert_wins() {
    let mut d: Dict<String> = Dict::new();
    assert!(d.get("k").is_none());
    assert!(!d.contains_key("k"));
    d.insert("k".to_string(), "v1".to_string());
    d.insert("k".to_string(), "v2".to_string());
    assert_eq!(d.get("k").unwrap().as_str(), "v2");
    assert!(d.contains_key("k"));
}

#[test]
fn dict_remove_key_drops_every_binding() {
    let mut d: Dict<String> = Dict::new();
    d.insert("k".to_string(), "v1".to_string());
    d.insert("other".to_string(), "o".to_string());
    d.insert("k".to_string(), "v2".to_string());
    let removed = d.remove_key("k");
    assert_eq!(removed.unwrap(), "v2");
    assert!(d.get("k").is_none());
    assert_eq!(d.get("other").unwrap().as_str(), "o");
    assert!(d.remove_key("k").is_none());
}

#[test]
fn dict_duplicate_copies_contents() {
    let mut d: Dict<String> = Dict::new();
    d.insert("a".to_string(), "1".to_string());
    d.insert("b".to_string(), "2".to_string());
    let copy = d.duplicate();
    assert_eq!(copy.len(), 2);
    assert_eq!(copy.get("a").unwrap().as_str(), "1");
    assert_eq!(copy.get("b").unwrap().as_str(), "2");
}

#[test]
fn degraded_fan_out_leaves_status_unset() {
    let full = kubedal::replica_ctrl::drs_status_after_fan_out(3, 3).unwrap();
    assert!(full.available);
    assert!(kubedal::replica_ctrl::drs_status_after_fan_out(2, 3).is_none());
}

#[test]
fn fan_out_continues_the_index_sequence() {
    let drs = replica_set(12, "u-drs");
    let source_pod = pod("src", "u-src", Some("/src"));
    let source_node = node("dn-0", "u-0");
    let nodes = vec![
        node("dn-0", "u-0"),
        node("dn-1", "u-1"),
        node("dn-2", "u-2"),
        node("dn-3", "u-3"),
    ];
    let plan = drs_fan_out(&drs, 9, &source_pod, &source_node, &nodes).unwrap();
    assert_eq!(plan.pods.len(), 3);
    assert_eq!(plan.pods[0].name, "u-drs-replica-9");
    assert_eq!(plan.pods[1].name, "u-drs-replica-10");
    assert_eq!(plan.pods[2].name, "u-drs-replica-11");
    assert_eq!(plan.pods[2].path, "/replica-11");
}
