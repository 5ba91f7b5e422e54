//! The custom-resource data model: backends, mount access, and the three
//! declarative kinds the controllers reconcile.
use vstd::prelude::*;

verus! {

use crate::dict::Dict;
use crate::errors::{RpcCode, RpcStatus};
use crate::meta::ObjectMeta;
use crate::strings::str_eq;
use vstd::string::StringExecFns;

/// How a volume is materialized and with which access.
#[derive(Clone, Copy, Debug, PartialEq, Eq, Structural)]
pub enum MountAccess {
    CacheReadWrite,
    CacheReadOnly,
    FuseReadWrite,
    FuseReadOnly,
}

/// The kebab-case rendering of a mount access tag.
pub open spec fn mount_access_string(m: MountAccess) -> Seq<char> {
    match m {
        MountAccess::CacheReadWrite => "cache-read-write"@,
        MountAccess::CacheReadOnly => "cache-read-only"@,
        MountAccess::FuseReadWrite => "fuse-read-write"@,
        MountAccess::FuseReadOnly => "fuse-read-only"@,
    }
}

/// The mount access tag a context string denotes, if any. The short forms
/// `cache` and `fuse` denote the read-only variants.
pub open spec fn mount_access_of(s: Seq<char>) -> Option<MountAccess> {
    if s == "cache"@ || s == "cache-read-only"@ {
        Some(MountAccess::CacheReadOnly)
    } else if s == "cache-read-write"@ {
        Some(MountAccess::CacheReadWrite)
    } else if s == "fuse"@ || s == "fuse-read-only"@ {
        Some(MountAccess::FuseReadOnly)
    } else if s == "fuse-read-write"@ {
        Some(MountAccess::FuseReadWrite)
    } else {
        None
    }
}

impl MountAccess {
    /// Renders the tag in its kebab-case form.
    pub fn mount_string(&self) -> (r: String)
        ensures
            r@ == mount_access_string(*self),
    {
        match self {
            MountAccess::CacheReadWrite => String::from_str("cache-read-write"),
            MountAccess::CacheReadOnly => String::from_str("cache-read-only"),
            MountAccess::FuseReadWrite => String::from_str("fuse-read-write"),
            MountAccess::FuseReadOnly => String::from_str("fuse-read-only"),
        }
    }

    /// Parses a context string into a mount access tag; unknown strings are
    /// rejected as invalid arguments.
    pub fn parse(s: &str) -> (r: Result<MountAccess, RpcStatus>)
        ensures
            match r {
                Ok(m) => mount_access_of(s@) == Some(m),
                Err(e) => mount_access_of(s@) is None && e.code == RpcCode::InvalidArgument,
            },
    {
        if str_eq(s, "cache") || str_eq(s, "cache-read-only") {
            Ok(MountAccess::CacheReadOnly)
        } else if str_eq(s, "cache-read-write") {
            Ok(MountAccess::CacheReadWrite)
        } else if str_eq(s, "fuse") || str_eq(s, "fuse-read-only") {
            Ok(MountAccess::FuseReadOnly)
        } else if str_eq(s, "fuse-read-write") {
            Ok(MountAccess::FuseReadWrite)
        } else {
            Err(RpcStatus::invalid_argument(String::from_str("Unsupported mount type")))
        }
    }
}

/// Rendering a mount access tag and parsing it back yields the same tag.
pub proof fn lemma_mount_string_round_trip(m: MountAccess)
    ensures
        mount_access_of(mount_access_string(m)) == Some(m),
{
    reveal_strlit("cache");
    reveal_strlit("cache-read-only");
    reveal_strlit("cache-read-write");
    reveal_strlit("fuse");
    reveal_strlit("fuse-read-only");
    reveal_strlit("fuse-read-write");
    assert("cache"@.len() == 5);
    assert("cache-read-only"@.len() == 15);
    assert("cache-read-write"@.len() == 16);
    assert("fuse"@.len() == 4);
    assert("fuse-read-only"@.len() == 14);
    assert("fuse-read-write"@.len() == 15);
    assert("fuse-read-write"@[0] == 'f');
    assert("cache-read-only"@[0] == 'c');
    assert("fuse-read-write"@ != "cache-read-only"@);
    match m {
        MountAccess::CacheReadWrite => {
            assert(mount_access_of("cache-read-write"@) == Some(MountAccess::CacheReadWrite));
        },
        MountAccess::CacheReadOnly => {
            assert(mount_access_of("cache-read-only"@) == Some(MountAccess::CacheReadOnly));
        },
        MountAccess::FuseReadWrite => {
            assert(mount_access_of("fuse-read-write"@) == Some(MountAccess::FuseReadWrite));
        },
        MountAccess::FuseReadOnly => {
            assert(mount_access_of("fuse-read-only"@) == Some(MountAccess::FuseReadOnly));
        },
    }
}

/// The storage backend scheme of a data node. The tag set is closed:
/// decoding any other tag is an error.
#[derive(Clone, Copy, Debug, PartialEq, Eq, Structural)]
pub enum Backend {
    /// S3 compatible storage.
    S3,
    /// HTTP storage, read-only.
    HTTP,
}

/// The backend a declaration tag denotes, if any.
pub open spec fn backend_of(s: Seq<char>) -> Option<Backend> {
    if s == "S3"@ {
        Some(Backend::S3)
    } else if s == "HTTP"@ {
        Some(Backend::HTTP)
    } else {
        None
    }
}

/// The lower-case configuration tag of a backend.
pub open spec fn backend_tag(b: Backend) -> Seq<char> {
    match b {
        Backend::S3 => "s3"@,
        Backend::HTTP => "http"@,
    }
}

impl Backend {
    /// Decodes a declaration tag; tags outside the closed set are rejected.
    pub fn parse(s: &str) -> (r: Result<Backend, RpcStatus>)
        ensures
            match r {
                Ok(b) => backend_of(s@) == Some(b),
                Err(e) => backend_of(s@) is None && e.code == RpcCode::InvalidArgument,
            },
    {
        if str_eq(s, "S3") {
            Ok(Backend::S3)
        } else if str_eq(s, "HTTP") {
            Ok(Backend::HTTP)
        } else {
            Err(RpcStatus::invalid_argument(String::from_str("Unknown backend tag")))
        }
    }

    /// The lower-case tag used in operator configuration.
    pub fn tag(&self) -> (r: String)
        ensures
            r@ == backend_tag(*self),
    {
        match self {
            Backend::S3 => String::from_str("s3"),
            Backend::HTTP => String::from_str("http"),
        }
    }
}

/// Reference to another namespaced object.
#[derive(Debug)]
pub struct Ref {
    pub name: String,
    /// Defaults to the referring object's namespace when absent.
    pub namespace: Option<String>,
}

/// Declarative description of an addressable storage backend.
#[derive(Debug)]
pub struct DataNodeSpec {
    pub backend: Backend,
    pub read_only: bool,
    pub secret_ref: Option<Ref>,
    pub config: Dict<String>,
    /// Maximum storage capacity, as a storage quantity string.
    pub limit: Option<String>,
}

#[derive(Debug)]
pub struct DataNodeStatus {
    pub available: bool,
    /// Used storage, as a storage quantity string.
    pub used: String,
}

#[derive(Debug)]
pub struct DataNode {
    pub metadata: ObjectMeta,
    pub spec: DataNodeSpec,
    pub status: Option<DataNodeStatus>,
}

/// Declarative description of a path inside a data node.
#[derive(Debug)]
pub struct DataPodSpec {
    pub path: Option<String>,
    pub data_node_ref: Option<Ref>,
    pub data_node_selector: Option<Dict<String>>,
    /// Requested storage, as a storage quantity string.
    pub request: Option<String>,
}

#[derive(Debug)]
pub struct DataPodStatus {
    pub available: bool,
    pub generated_path: bool,
}

#[derive(Debug)]
pub struct DataPod {
    pub metadata: ObjectMeta,
    pub spec: DataPodSpec,
    pub status: Option<DataPodStatus>,
}

/// Label selector of a replica set.
#[derive(Debug)]
pub struct MatchLabels {
    pub labels: Dict<String>,
}

/// Labels stamped on the replica pods a replica set creates.
#[derive(Debug)]
pub struct LabelsMetadata {
    pub labels: Dict<String>,
}

#[derive(Debug)]
pub struct DataReplicaSetSpecTemplate {
    pub metadata: LabelsMetadata,
    pub spec: DataPodSpec,
}

/// Declarative description of a replication group.
#[derive(Debug)]
pub struct DataReplicaSetSpec {
    pub replicas: u32,
    pub selector: MatchLabels,
    pub source_pod: Ref,
    pub template: DataReplicaSetSpecTemplate,
}

#[derive(Debug)]
pub struct DataReplicaSetStatus {
    pub available: bool,
}

#[derive(Debug)]
pub struct DataReplicaSet {
    pub metadata: ObjectMeta,
    pub spec: DataReplicaSetSpec,
    pub status: Option<DataReplicaSetStatus>,
}

} // verus!
