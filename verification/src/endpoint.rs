//! Endpoint and role selection for process startup.
use vstd::prelude::*;

verus! {

use crate::strings::{str_drop_prefix, str_eq, str_starts_with};

/// Whether an endpoint string carries the unix domain socket scheme.
pub open spec fn has_unix_scheme(s: Seq<char>) -> bool {
    s.len() >= 7 && s.subrange(0, 7) == "unix://"@
}

/// Splits a `unix://` endpoint into its socket path. Any other scheme is
/// refused with the startup diagnostic.
pub fn parse_endpoint(endpoint: &str) -> (r: Result<String, String>)
    ensures
        match r {
            Ok(path) => has_unix_scheme(endpoint@) && path@ == endpoint@.subrange(
                7,
                endpoint@.len() as int,
            ),
            Err(msg) => !has_unix_scheme(endpoint@) && msg@
                == "Only unix domain sockets are supported"@,
        },
{
    proof {
        reveal_strlit("unix://");
    }
    if str_starts_with(endpoint, "unix://") {
        Ok(str_drop_prefix(endpoint, 7))
    } else {
        Err(String::from_str("Only unix domain sockets are supported"))
    }
}

/// Whether the node id selects the controller role; every other id runs
/// the node role.
pub fn is_controller_role(node_id: &str) -> (r: bool)
    ensures
        r == (node_id@ == "controller"@),
{
    str_eq(node_id, "controller")
}

} // verus!
