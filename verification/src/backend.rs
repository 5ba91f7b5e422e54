//! The backend operator factory: composing the configuration a backend
//! client is built from.
//!
//! The client construction itself, with its logging and retry layers and
//! its reachability probe, is outside work; what is verified here is the
//! configuration handed to it: the declarative config of the data node
//! merged with the UTF-8 decoded entries of the bound secret, secret keys
//! winning on collision.
use vstd::prelude::*;

verus! {

use crate::dict::Dict;
use crate::errors::{RpcCode, RpcStatus};
use vstd::string::StringExecFns;
use vstd::utf8::{decode_utf8, valid_utf8};

/// Relies on str::from_utf8: succeeds exactly on valid UTF-8 input and
/// decodes it; the copy into an owned string keeps the characters.
#[verifier::external_body]
fn utf8_to_string(bytes: &Vec<u8>) -> (r: Option<String>)
    ensures
        r is Some <==> valid_utf8(bytes@),
        r matches Some(s) ==> s@ == decode_utf8(bytes@),
{
    match core::str::from_utf8(bytes.as_slice()) {
        Ok(s) => Some(s.to_owned()),
        Err(_) => None,
    }
}

use crate::crd::DataNode;

/// The secret a data node binds, as a name and a namespace: the
/// reference's own namespace when it has one, the node's otherwise. A
/// node without a secret reference binds none.
pub fn secret_reference(node: &DataNode) -> (r: Result<Option<(String, String)>, RpcStatus>)
    ensures
        match r {
            Ok(opt) => match opt {
                None => node.spec.secret_ref is None,
                Some(pair) => node.spec.secret_ref matches Some(rf) && pair.0@ == rf.name@ && (
                match rf.namespace {
                    Some(ns) => pair.1@ == ns@,
                    None => node.metadata.namespace matches Some(ns2) && pair.1@ == ns2@,
                }),
            },
            Err(e) => {
                &&& node.spec.secret_ref matches Some(rf) && rf.namespace is None
                &&& node.metadata.namespace is None
                &&& e.code == RpcCode::InvalidArgument
                &&& e.message@ == "Secret namespace not provided"@
            },
        },
{
    match &node.spec.secret_ref {
        None => Ok(None),
        Some(rf) => {
            let ns = match &rf.namespace {
                Some(ns) => ns.clone(),
                None => {
                    match &node.metadata.namespace {
                        Some(ns2) => ns2.clone(),
                        None => {
                            return Err(
                                RpcStatus::invalid_argument(
                                    String::from_str("Secret namespace not provided"),
                                ),
                            );
                        },
                    }
                },
            };
            Ok(Some((rf.name.clone(), ns)))
        },
    }
}

/// The keys of a secret data sequence.
pub open spec fn secret_keys(data: Seq<(String, Vec<u8>)>) -> Set<Seq<char>> {
    Set::new(|k: Seq<char>| exists|j: int| 0 <= j < data.len() && data[j].0@ == k)
}

/// Merges the decoded entries of a secret into a declarative config.
/// Secret keys win on collision; a secret value that is not valid UTF-8
/// fails the whole merge. The secret's keys are pairwise distinct, as the
/// data of a fetched secret is a map.
pub fn merge_secret_config(cfg: &Dict<String>, data: &Vec<(String, Vec<u8>)>) -> (r: Result<
    Dict<String>,
    RpcStatus,
>)
    requires
        forall|i: int, j: int| 0 <= i < j < data@.len() ==> data@[i].0@ != data@[j].0@,
    ensures
        match r {
            Ok(out) => {
                &&& forall|j: int|
                    0 <= j < data@.len() ==> valid_utf8(#[trigger] data@[j].1@)
                &&& forall|j: int|
                    0 <= j < data@.len() ==> out@.contains_key(#[trigger] data@[j].0@)
                        && out@[data@[j].0@]@ == decode_utf8(data@[j].1@)
                &&& forall|k: Seq<char>|
                    #[trigger] cfg@.contains_key(k) && !secret_keys(data@).contains(k)
                        ==> out@.contains_key(k) && out@[k] == cfg@[k]
                &&& forall|k: Seq<char>|
                    #[trigger] out@.contains_key(k) ==> cfg@.contains_key(k) || secret_keys(
                        data@,
                    ).contains(k)
            },
            Err(e) => (exists|j: int|
                0 <= j < data@.len() && !valid_utf8(#[trigger] data@[j].1@)) && e.code
                == RpcCode::Internal && e.message@ == "Failed to deserialize secret"@,
        },
{
    let n = data.len();
    let mut out = cfg.duplicate();
    let mut i: usize = 0;
    while i < n
        invariant
            n == data@.len(),
            i <= n,
            forall|i2: int, j2: int| 0 <= i2 < j2 < data@.len() ==> data@[i2].0@ != data@[j2].0@,
            forall|j: int| 0 <= j < i ==> valid_utf8(#[trigger] data@[j].1@),
            forall|j: int|
                0 <= j < i ==> out@.contains_key(#[trigger] data@[j].0@) && out@[data@[j].0@]@
                    == decode_utf8(data@[j].1@),
            forall|k: Seq<char>|
                #[trigger] cfg@.contains_key(k) && !secret_keys(data@).contains(k)
                    ==> out@.contains_key(k) && out@[k] == cfg@[k],
            forall|k: Seq<char>|
                #[trigger] out@.contains_key(k) ==> cfg@.contains_key(k) || secret_keys(
                    data@,
                ).contains(k),
        decreases n - i,
    {
        let entry = &data[i];
        match utf8_to_string(&entry.1) {
            Some(decoded) => {
                let key = entry.0.clone();
                proof {
                    assert(secret_keys(data@).contains(data@[i as int].0@));
                }
                out.insert(key, decoded);
            },
            None => {
                return Err(
                    RpcStatus::new(
                        RpcCode::Internal,
                        String::from_str("Failed to deserialize secret"),
                    ),
                );
            },
        }
        i = i + 1;
    }
    Ok(out)
}

} // verus!
