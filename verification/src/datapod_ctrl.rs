//! The data pod controller: path generation, data node resolution, and
//! the single patch a reconciliation applies.
use vstd::prelude::*;

verus! {

use crate::crd::{DataNode, DataPod, DataPodSpec, DataPodStatus};
use crate::dict::Dict;
use crate::errors::Error;
use crate::finalizer::{Action, EventNote};
use crate::meta::OwnerReference;
use crate::strings::push_char;
use vstd::string::StrSliceExecFns;
use vstd::string::StringExecFns;

/// The finalizer marker of the data pod kind.
pub fn datapod_finalizer() -> (r: String)
    ensures
        r@ == "kubedal.arunaengine.org/datapod"@,
{
    String::from_str("kubedal.arunaengine.org/datapod")
}

/// A data pod path counts as unset when it is absent, empty, or the bare
/// root `/`; such a path is replaced by a generated one.
pub open spec fn path_is_unset(path: Option<String>) -> bool {
    match path {
        Some(p) => p@.len() == 0 || p@ == seq!['/'],
        None => true,
    }
}

/// Computes the effective mount path for a data pod: an explicitly
/// configured path is kept; an absent, empty or root path is replaced by
/// `/` followed by the pod's uid. The flag reports whether the path was
/// generated.
pub fn effective_path(path: &Option<String>, uid: &str) -> (r: (String, bool))
    ensures
        !path_is_unset(*path) ==> r.0@ == path->Some_0@ && r.1 == false,
        path_is_unset(*path) ==> r.0@ == seq!['/'] + uid@ && r.1 == true,
{
    let generate = match path {
        Some(p) => {
            let n = p.as_str().unicode_len();
            if n == 0 {
                true
            } else if n == 1 && p.as_str().get_char(0) == '/' {
                proof {
                    assert(p@ =~= seq!['/']);
                }
                true
            } else {
                proof {
                    assert(p@ != seq!['/']);
                }
                false
            }
        },
        None => true,
    };
    if generate {
        let mut out = String::from_str("/");
        proof {
            reveal_strlit("/");
            assert(out@ =~= seq!['/']);
        }
        out.append(uid);
        (out, true)
    } else {
        let p = match path {
            Some(p) => p.clone(),
            None => String::new(),
        };
        (p, false)
    }
}

/// The `k=v,k=v` rendering of a label mapping, in stored order.
pub open spec fn spec_join_labels(pairs: Seq<(String, String)>) -> Seq<char>
    decreases pairs.len(),
{
    if pairs.len() == 0 {
        Seq::empty()
    } else if pairs.len() == 1 {
        pairs[0].0@ + seq!['='] + pairs[0].1@
    } else {
        spec_join_labels(pairs.drop_last()) + seq![','] + pairs.last().0@ + seq!['=']
            + pairs.last().1@
    }
}

/// Renders a label mapping as the `k=v,k=v` selector string.
pub fn selector_string(labels: &Dict<String>) -> (r: String)
    ensures
        r@ == spec_join_labels(labels.pairs()),
{
    let n = labels.len();
    let mut out = String::new();
    let mut i: usize = 0;
    while i < n
        invariant
            n == labels.pairs().len(),
            i <= n,
            out@ =~= spec_join_labels(labels.pairs().take(i as int)),
        decreases n - i,
    {
        proof {
            assert(labels.pairs().take(i + 1).drop_last() =~= labels.pairs().take(i as int));
            assert(labels.pairs().take(i + 1).last() == labels.pairs()[i as int]);
            assert(labels.pairs().take(i + 1)[0] == labels.pairs()[0]);
        }
        if i > 0 {
            push_char(&mut out, ',');
        }
        let pair = labels.entry_at(i);
        out.append(pair.0.as_str());
        push_char(&mut out, '=');
        out.append(pair.1.as_str());
        i = i + 1;
    }
    proof {
        assert(labels.pairs().take(n as int) =~= labels.pairs());
    }
    out
}

/// How the owning data node is to be found.
#[derive(Debug)]
pub enum NodeResolution {
    /// Fetch the node with this name in the pod's namespace.
    ByRef(String),
    /// List nodes under this label selector and take the first.
    BySelector(String),
}

/// Decides how to resolve the owning data node: by reference, or by
/// selector. Declaring both is invalid, declaring neither leaves the pod
/// unplaceable; either way the reconciliation fails fast.
pub fn resolve_data_node_plan(pod_spec: &DataPodSpec) -> (r: Result<
    NodeResolution,
    Error,
>)
    ensures
        r is Ok <==> (pod_spec.data_node_ref is Some && pod_spec.data_node_selector is None) || (
        pod_spec.data_node_ref is None && pod_spec.data_node_selector is Some),
        match r {
            Ok(n) => match n {
                NodeResolution::ByRef(name) => pod_spec.data_node_ref matches Some(rf)
                    && name@ == rf.name@ && pod_spec.data_node_selector is None,
                NodeResolution::BySelector(s) => {
                    &&& pod_spec.data_node_ref is None
                    &&& pod_spec.data_node_selector matches Some(sel) && s@ == spec_join_labels(
                        sel.pairs(),
                    )
                },
            },
            Err(e) => e matches Error::ReconcilerError(_),
        },
{
    match (&pod_spec.data_node_ref, &pod_spec.data_node_selector) {
        (Some(rf), None) => Ok(NodeResolution::ByRef(rf.name.clone())),
        (None, Some(sel)) => Ok(NodeResolution::BySelector(selector_string(sel))),
        (Some(_), Some(_)) => Err(
            Error::ReconcilerError(
                String::from_str("DataPod declares both a DataNode reference and a selector"),
            ),
        ),
        (None, None) => Err(
            Error::ReconcilerError(
                String::from_str("DataPod has no DataNode reference/selector"),
            ),
        ),
    }
}

/// The first node of a selector listing; an empty listing fails the
/// reconciliation.
pub fn pick_first_node(listed: &Vec<DataNode>) -> (r: Result<usize, Error>)
    ensures
        listed@.len() > 0 ==> (r matches Ok(i) && i == 0),
        listed@.len() == 0 ==> (r matches Err(e) && e matches Error::ReconcilerError(_)),
{
    if listed.len() > 0 {
        Ok(0)
    } else {
        Err(Error::ReconcilerError(String::from_str("No nodes found with provided selector")))
    }
}

/// An owner reference to a data node.
pub fn datanode_owner_ref(node: &DataNode) -> (r: Result<OwnerReference, Error>)
    ensures
        match r {
            Ok(o) => node.metadata.uid matches Some(u) && o.api_version@
                == "kubedal.arunaengine.org/v1alpha1"@ && o.kind@ == "DataNode"@ && o.name@
                == node.metadata.name@ && o.uid@ == u@,
            Err(e) => node.metadata.uid is None && e matches Error::ReconcilerError(_),
        },
{
    match &node.metadata.uid {
        Some(u) => Ok(
            OwnerReference {
                api_version: String::from_str("kubedal.arunaengine.org/v1alpha1"),
                kind: String::from_str("DataNode"),
                name: node.metadata.name.clone(),
                uid: u.clone(),
            },
        ),
        None => Err(Error::ReconcilerError(String::from_str("DataNode is missing uid"))),
    }
}

/// The single patch a data pod reconciliation applies.
#[derive(Debug)]
pub struct DataPodPatch {
    pub owner_references: Vec<OwnerReference>,
    pub path: String,
    pub generated_path: bool,
    pub status: DataPodStatus,
}

/// Composes the patch for a data pod once its data node is resolved: the
/// effective path, exactly one owner reference pointing at the node, and
/// an available status that records whether the path was generated.
pub fn dp_patch_plan(pod: &DataPod, node: &DataNode) -> (r: Result<DataPodPatch, Error>)
    ensures
        match r {
            Ok(p) => {
                &&& node.metadata.uid is Some
                &&& p.owner_references@.len() == 1
                &&& p.owner_references@[0].api_version@ == "kubedal.arunaengine.org/v1alpha1"@
                &&& p.owner_references@[0].kind@ == "DataNode"@
                &&& p.owner_references@[0].name@ == node.metadata.name@
                &&& p.owner_references@[0].uid@ == node.metadata.uid->Some_0@
                &&& !path_is_unset(pod.spec.path) ==> p.path@ == pod.spec.path->Some_0@
                    && p.generated_path == false
                &&& path_is_unset(pod.spec.path) ==> pod.metadata.uid is Some && p.path@ == seq![
                    '/',
                ] + pod.metadata.uid->Some_0@ && p.generated_path == true
                &&& p.status.available == true
                &&& p.status.generated_path == p.generated_path
            },
            Err(e) => (node.metadata.uid is None || (path_is_unset(pod.spec.path)
                && pod.metadata.uid is None)) && e matches Error::ReconcilerError(_),
        },
{
    let owner = datanode_owner_ref(node)?;
    let uid: &str = match &pod.metadata.uid {
        Some(u) => u.as_str(),
        None => {
            if path_needs_uid(&pod.spec.path) {
                return Err(Error::ReconcilerError(String::from_str("DataPod is missing uid")));
            }
            ""
        },
    };
    let (path, generated) = effective_path(&pod.spec.path, uid);
    let mut owner_references: Vec<OwnerReference> = Vec::new();
    owner_references.push(owner);
    Ok(
        DataPodPatch {
            owner_references,
            path,
            generated_path: generated,
            status: DataPodStatus { available: true, generated_path: generated },
        },
    )
}

/// Whether the declared path will be replaced by a generated one.
fn path_needs_uid(path: &Option<String>) -> (r: bool)
    ensures
        r == path_is_unset(*path),
{
    match path {
        Some(p) => {
            let n = p.as_str().unicode_len();
            if n == 0 {
                true
            } else if n == 1 && p.as_str().get_char(0) == '/' {
                proof {
                    assert(p@ =~= seq!['/']);
                }
                true
            } else {
                proof {
                    assert(p@ != seq!['/']);
                }
                false
            }
        },
        None => true,
    }
}

/// The event a data pod reconciliation publishes when the patch changed
/// the object.
pub fn dp_sync_event(generated: bool) -> (r: EventNote)
    ensures
        generated ==> r.reason@ == "Reconciled: DataPod changed (path generated: true)"@,
        !generated ==> r.reason@ == "Reconciled: DataPod changed (path generated: false)"@,
        r.action@ == "ReconciledSync"@,
        r.note is None,
{
    let reason = if generated {
        String::from_str("Reconciled: DataPod changed (path generated: true)")
    } else {
        String::from_str("Reconciled: DataPod changed (path generated: false)")
    };
    EventNote { reason, action: String::from_str("ReconciledSync"), note: None }
}

/// The requeue a completed data pod reconciliation asks for: five
/// minutes.
pub fn dp_requeue() -> (r: Action)
    ensures
        r == Action::Requeue(300),
{
    Action::Requeue(300)
}

} // verus!
