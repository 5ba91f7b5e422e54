//! The flat resource record of the early driver surface, kept alongside
//! the custom-resource model: a single declarative record naming a
//! backend, its location and its credentials.
use vstd::prelude::*;

verus! {

use crate::dict::Dict;
use crate::strings::{str_concat, str_eq};
use vstd::string::StringExecFns;

/// A declarative storage resource.
#[derive(Debug)]
pub struct Resource {
    pub metadata: ResourceMetadata,
    pub spec: ResourceSpec,
    pub status: ResourceStatus,
}

#[derive(Debug)]
pub struct ResourceMetadata {
    pub name: String,
    pub namespace: String,
    pub annotations: Dict<String>,
}

#[derive(Debug)]
pub struct ResourceSpec {
    /// The storage backend type, as a scheme tag.
    pub backend: String,
    pub endpoint: Option<String>,
    pub region: Option<String>,
    pub bucket: Option<String>,
    pub path: Option<String>,
    pub secret_ref: Option<SecretRef>,
    pub access_mode: AccessMode,
    pub options: Dict<String>,
}

/// Reference to the secret carrying the backend credentials.
#[derive(Debug)]
pub struct SecretRef {
    pub name: String,
    pub namespace: String,
    /// Key in the secret for the access key.
    pub access_key: String,
    /// Key in the secret for the secret key.
    pub secret_key: String,
}

/// How the resource's data is brought to the workload.
#[derive(Clone, Copy, Debug, PartialEq, Eq, Structural)]
pub enum AccessMode {
    /// Download and cache data locally.
    Cached,
    /// Mount directly through a userspace filesystem.
    Direct,
}

#[derive(Debug)]
pub struct ResourceStatus {
    pub last_accessed: Option<String>,
    pub state: ResourceState,
    pub error: Option<String>,
}

#[derive(Clone, Copy, Debug, PartialEq, Eq, Structural)]
pub enum ResourceState {
    Pending,
    Ready,
    Error,
}

impl Default for ResourceState {
    fn default() -> (r: Self)
        ensures
            r == ResourceState::Pending,
    {
        ResourceState::Pending
    }
}

impl Default for ResourceStatus {
    fn default() -> (r: Self)
        ensures
            r.last_accessed is None,
            r.state == ResourceState::Pending,
            r.error is None,
    {
        ResourceStatus { last_accessed: None, state: ResourceState::Pending, error: None }
    }
}

/// The access mode a resource uses when none is declared.
pub fn default_access_mode() -> (r: AccessMode)
    ensures
        r == AccessMode::Cached,
{
    AccessMode::Cached
}

/// The secret key under which the access key is looked up by default.
pub fn default_access_key() -> (r: String)
    ensures
        r@ == "access_key"@,
{
    String::from_str("access_key")
}

/// The secret key under which the secret key is looked up by default.
pub fn default_secret_key() -> (r: String)
    ensures
        r@ == "secret_key"@,
{
    String::from_str("secret_key")
}

/// Validates that a resource declares enough to build a backend client: a
/// known backend tag, and a bucket or container where the backend needs
/// one. Exactly the offending condition is reported.
pub fn create_opendal_operator(resource: &Resource) -> (r: Result<(), String>)
    ensures
        match r {
            Ok(_) => (resource.spec.backend@ == "s3"@ || resource.spec.backend@ == "azblob"@)
                && resource.spec.bucket is Some,
            Err(msg) => {
                if resource.spec.backend@ == "s3"@ {
                    resource.spec.bucket is None && msg@ == "S3 backend requires a bucket"@
                } else if resource.spec.backend@ == "azblob"@ {
                    resource.spec.bucket is None && msg@
                        == "Azure Blob backend requires a container"@
                } else {
                    msg@ == "Unsupported backend: "@ + resource.spec.backend@
                }
            },
        },
{
    if str_eq(resource.spec.backend.as_str(), "s3") {
        if resource.spec.bucket.is_none() {
            return Err(String::from_str("S3 backend requires a bucket"));
        }
        Ok(())
    } else if str_eq(resource.spec.backend.as_str(), "azblob") {
        if resource.spec.bucket.is_none() {
            return Err(String::from_str("Azure Blob backend requires a container"));
        }
        Ok(())
    } else {
        Err(str_concat("Unsupported backend: ", resource.spec.backend.as_str()))
    }
}

} // verus!
