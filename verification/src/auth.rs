//! The authorization gate: subject-access-review requests and the decision
//! over their outcomes.
//!
//! The reviews themselves are orchestrator calls made by the caller; this
//! module pins down what is asked and what each answer means.
use vstd::prelude::*;

verus! {

use crate::errors::{RpcCode, RpcStatus};
use crate::strings::{str_concat, str_concat3};
use vstd::string::StringExecFns;

/// One subject-access-review to be posted to the orchestrator.
#[derive(Debug)]
pub struct ReviewRequest {
    /// API group of the resource; the core group when absent.
    pub group: Option<String>,
    pub resource: String,
    pub name: String,
    pub namespace: String,
    pub verb: String,
    /// The identity under which the review runs.
    pub user: String,
    /// The message a denial of this review surfaces.
    pub deny_message: String,
}

/// The identity of a workload: `system:serviceaccount:<ns>:<sa>`.
pub open spec fn spec_identity(ns: Seq<char>, sa: Seq<char>) -> Seq<char> {
    "system:serviceaccount:"@ + ns + ":"@ + sa
}

/// Renders the service-account identity of a workload.
pub fn identity_string(pod_namespace: &str, service_account: &str) -> (r: String)
    ensures
        r@ == spec_identity(pod_namespace@, service_account@),
{
    let mut out = str_concat("system:serviceaccount:", pod_namespace);
    out.append(":");
    out.append(service_account);
    out
}

/// The denial text for the data node review.
pub open spec fn spec_datanode_deny(user: Seq<char>, name: Seq<char>, ns: Seq<char>) -> Seq<
    char,
> {
    user + ", has unsufficient permission to GET datanode.kubedal.arunaengine.org "@ + name
        + " in namespace "@ + ns
}

/// The review asking whether the workload may `get` the data node.
pub fn build_datanode_review(node_name: &str, node_namespace: &str, pod_namespace: &str,
    service_account: &str) -> (r: ReviewRequest)
    ensures
        r.group matches Some(g) && g@ == "kubedal.arunaengine.org"@,
        r.resource@ == "datanodes"@,
        r.name@ == node_name@,
        r.namespace@ == node_namespace@,
        r.verb@ == "get"@,
        r.user@ == spec_identity(pod_namespace@, service_account@),
        r.deny_message@ == spec_datanode_deny(
            spec_identity(pod_namespace@, service_account@),
            node_name@,
            node_namespace@,
        ),
{
    let user = identity_string(pod_namespace, service_account);
    let mut deny = str_concat(
        user.as_str(),
        ", has unsufficient permission to GET datanode.kubedal.arunaengine.org ",
    );
    deny.append(node_name);
    deny.append(" in namespace ");
    deny.append(node_namespace);
    ReviewRequest {
        group: Some(String::from_str("kubedal.arunaengine.org")),
        resource: String::from_str("datanodes"),
        name: String::from_str(node_name),
        namespace: String::from_str(node_namespace),
        verb: String::from_str("get"),
        user,
        deny_message: deny,
    }
}

/// The denial text for the secret review.
pub open spec fn spec_secret_deny(user: Seq<char>, name: Seq<char>, ns: Seq<char>) -> Seq<char> {
    user + ", has unsufficient permission to GET secret.kubernetes.io/secret "@ + name
        + " in namespace "@ + ns
}

/// The review asking whether the workload may `get` the referenced secret.
pub fn build_secret_review(secret_name: &str, secret_namespace: &str, pod_namespace: &str,
    service_account: &str) -> (r: ReviewRequest)
    ensures
        r.group is None,
        r.resource@ == "secrets"@,
        r.name@ == secret_name@,
        r.namespace@ == secret_namespace@,
        r.verb@ == "get"@,
        r.user@ == spec_identity(pod_namespace@, service_account@),
        r.deny_message@ == spec_secret_deny(
            spec_identity(pod_namespace@, service_account@),
            secret_name@,
            secret_namespace@,
        ),
{
    let user = identity_string(pod_namespace, service_account);
    let mut deny = str_concat(
        user.as_str(),
        ", has unsufficient permission to GET secret.kubernetes.io/secret ",
    );
    deny.append(secret_name);
    deny.append(" in namespace ");
    deny.append(secret_namespace);
    ReviewRequest {
        group: None,
        resource: String::from_str("secrets"),
        name: String::from_str(secret_name),
        namespace: String::from_str(secret_namespace),
        verb: String::from_str("get"),
        user,
        deny_message: deny,
    }
}

/// Decides one review outcome. Only an explicit `allowed=true` passes; a
/// denial or a review without status is a permission error carrying the
/// review's denial text or the fixed no-status text.
pub fn evaluate_review(allowed: Option<bool>, request: &ReviewRequest) -> (r: Result<
    (),
    RpcStatus,
>)
    ensures
        r is Ok <==> allowed == Some(true),
        r matches Err(e) ==> e.code == RpcCode::PermissionDenied,
        allowed == Some(false) ==> (r matches Err(e) && e.message@ == request.deny_message@),
        allowed is None ==> (r matches Err(e) && e.message@
            == "SubjectAccessReview did not return status"@),
{
    match allowed {
        Some(true) => Ok(()),
        Some(false) => Err(
            RpcStatus::permission_denied(request.deny_message.clone()),
        ),
        None => Err(
            RpcStatus::permission_denied(
                String::from_str("SubjectAccessReview did not return status"),
            ),
        ),
    }
}

} // verus!
