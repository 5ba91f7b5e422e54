//! The data node controller: reachability-driven status initialization.
use vstd::prelude::*;

verus! {

use crate::crd::{DataNode, DataNodeStatus};
use crate::errors::Error;
use crate::finalizer::{Action, EventNote};
use vstd::string::StringExecFns;

/// The finalizer marker of the data node kind.
pub fn datanode_finalizer() -> (r: String)
    ensures
        r@ == "kubedal.arunaengine.org/datanode"@,
{
    String::from_str("kubedal.arunaengine.org/datanode")
}

/// A node whose status is already set is in steady state and is only
/// revisited; one without status must be probed first.
pub fn dn_needs_probe(node: &DataNode) -> (r: Result<bool, Action>)
    ensures
        match r {
            Ok(b) => b == true && node.status is None,
            Err(a) => node.status is Some && a == Action::Requeue(1800),
        },
{
    match &node.status {
        Some(_) => Err(Action::Requeue(1800)),
        None => Ok(true),
    }
}

/// What a completed probe produces.
#[derive(Debug)]
pub struct DnOutcome {
    /// The status to apply to the node.
    pub status_patch: DataNodeStatus,
    /// The event to publish on the node.
    pub event: EventNote,
    pub action: Action,
}

/// Decides the reconciliation after the reachability probe: a reachable
/// endpoint is published as available with zero usage and announced as
/// initialized; a failed probe is a reconciler error carrying the probe's
/// rendering.
pub fn dn_after_probe(name: &str, probe_ok: bool, probe_error: String) -> (r: Result<
    DnOutcome,
    Error,
>)
    ensures
        probe_ok ==> (r matches Ok(o) && o.status_patch.available == true
            && o.status_patch.used@ == "0"@ && o.event.reason@ == "Initialized"@
            && o.event.action@ == "Initialized"@ && (o.event.note matches Some(n) && n@
            == "Init `"@ + name@ + "`"@) && o.action == Action::Requeue(1800)),
        !probe_ok ==> (r matches Err(e) && e matches Error::ReconcilerError(m) && m@
            == probe_error@),
{
    if probe_ok {
        let mut note = crate::strings::str_concat("Init `", name);
        crate::strings::push_char(&mut note, '`');
        proof {
            reveal_strlit("`");
            assert("Init `"@ + name@ + "`"@ =~= ("Init `"@ + name@).push('`'));
        }
        Ok(
            DnOutcome {
                status_patch: DataNodeStatus { available: true, used: String::from_str("0") },
                event: EventNote {
                    reason: String::from_str("Initialized"),
                    action: String::from_str("Initialized"),
                    note: Some(note),
                },
                action: Action::Requeue(1800),
            },
        )
    } else {
        Err(Error::ReconcilerError(probe_error))
    }
}

} // verus!
