//! The controller surface: the in-memory volume registry, volume creation
//! and deletion, and the composition of the volume context handed to the
//! node side.
use vstd::prelude::*;

verus! {

use crate::crd::{backend_tag, mount_access_of, DataNode, MountAccess};
use crate::dict::{lemma_contains_iff_pair, lemma_value_at_pair, Dict};
use crate::errors::{RpcCode, RpcStatus};
use crate::ids::mint_volume_id;
use crate::meta::ObjectMeta;
use crate::strings::{str_drop_prefix, str_eq, str_starts_with};
use vstd::string::StringExecFns;

/// What the registry holds for one volume name.
#[derive(Debug)]
pub struct VolumeEntry {
    pub volume_id: String,
    pub capacity_bytes: i64,
    /// Forwarded verbatim to node-side publish.
    pub volume_context: Dict<String>,
}

impl VolumeEntry {
    /// A copy with equal contents.
    pub fn duplicate(&self) -> (r: VolumeEntry)
        ensures
            r.volume_id@ == self.volume_id@,
            r.capacity_bytes == self.capacity_bytes,
            r.volume_context@ == self.volume_context@,
    {
        VolumeEntry {
            volume_id: self.volume_id.clone(),
            capacity_bytes: self.capacity_bytes,
            volume_context: self.volume_context.duplicate(),
        }
    }
}

/// The capacity a request selects: the required bytes, or 5 GiB when none
/// are given.
pub open spec fn spec_capacity(required: Option<i64>) -> int {
    match required {
        Some(b) => b as int,
        None => 5368709120,
    }
}

/// What creating a volume does to the registry: an existing name returns
/// its entry unchanged, a fresh name binds the offered entry.
pub open spec fn spec_create(reg: Map<Seq<char>, VolumeEntry>, name: Seq<char>,
    offered: VolumeEntry) -> (Map<Seq<char>, VolumeEntry>, VolumeEntry) {
    if reg.contains_key(name) {
        (reg, reg[name])
    } else {
        (reg.insert(name, offered), offered)
    }
}

/// Creating a volume under one name twice returns the same entry both
/// times, whatever entry the second call offers, and the second call
/// leaves the registry unchanged.
pub proof fn lemma_create_volume_idempotent(reg: Map<Seq<char>, VolumeEntry>, name: Seq<char>,
    offered1: VolumeEntry, offered2: VolumeEntry)
    ensures
        ({
            let (reg1, v1) = spec_create(reg, name, offered1);
            let (reg2, v2) = spec_create(reg1, name, offered2);
            v2 == v1 && reg2 == reg1
        }),
{
}

/// The capabilities the controller can advertise.
#[derive(Clone, Copy, Debug, PartialEq, Eq, Structural)]
pub enum ControllerCapability {
    CreateDeleteVolume,
}

/// The controller service: the volume registry keyed by the user-supplied
/// volume name.
#[derive(Debug)]
pub struct ControllerService {
    pub volumes: Dict<VolumeEntry>,
}

impl ControllerService {
    /// The registry never holds two pairs under one name.
    pub open spec fn wf(&self) -> bool {
        forall|a: int, b: int|
            0 <= a < b < self.volumes.pairs().len() ==> self.volumes.pairs()[a].0@
                != self.volumes.pairs()[b].0@
    }

    pub fn new() -> (r: Self)
        ensures
            r.volumes@ == Map::<Seq<char>, VolumeEntry>::empty(),
            r.wf(),
    {
        ControllerService { volumes: Dict::new() }
    }

    /// The registry decision of volume creation, with the fresh id
    /// supplied by the caller. An empty name is refused; an existing name
    /// returns its entry and changes nothing; a fresh name binds an entry
    /// carrying the fresh id, the selected capacity and the given context.
    pub fn create_volume_core(&mut self, name: &str, volume_context: Dict<String>,
        required_bytes: Option<i64>, fresh_id: String) -> (r: Result<VolumeEntry, RpcStatus>)
        requires
            old(self).wf(),
        ensures
            final(self).wf(),
            name@.len() == 0 ==> {
                &&& r matches Err(e) && e.code == RpcCode::InvalidArgument
                &&& *final(self) == *old(self)
            },
            name@.len() > 0 && old(self).volumes@.contains_key(name@) ==> {
                &&& *final(self) == *old(self)
                &&& r matches Ok(v) && v.volume_id@ == old(self).volumes@[name@].volume_id@
                    && v.capacity_bytes == old(self).volumes@[name@].capacity_bytes
                    && v.volume_context@ == old(self).volumes@[name@].volume_context@
            },
            name@.len() > 0 && !old(self).volumes@.contains_key(name@) ==> {
                &&& r matches Ok(v) && v.volume_id@ == fresh_id@ && v.capacity_bytes
                    == spec_capacity(required_bytes) && v.volume_context@ == volume_context@
                &&& final(self).volumes@.contains_key(name@)
                &&& final(self).volumes@[name@].volume_id@ == fresh_id@
                &&& final(self).volumes@[name@].capacity_bytes == spec_capacity(required_bytes)
                &&& final(self).volumes@[name@].volume_context@ == volume_context@
                &&& final(self).volumes@.remove(name@) == old(self).volumes@.remove(name@)
            },
    {
        if name.unicode_len() == 0 {
            return Err(RpcStatus::invalid_argument(String::from_str("Volume name cannot be empty")));
        }
        match self.volumes.get(name) {
            Some(existing) => Ok(existing.duplicate()),
            None => {
                let capacity_bytes: i64 = match required_bytes {
                    Some(b) => b,
                    None => 5368709120,
                };
                let entry = VolumeEntry { volume_id: fresh_id, capacity_bytes, volume_context };
                let out = entry.duplicate();
                proof {
                    lemma_contains_iff_pair(self.volumes.pairs(), name@);
                }
                self.volumes.insert(String::from_str(name), entry);
                proof {
                    let s = self.volumes.pairs();
                    let s0 = old(self).volumes.pairs();
                    assert forall|a: int, b: int| 0 <= a < b < s.len() implies s[a].0@
                        != s[b].0@ by {
                        assert(s[a] == s0[a]);
                        if b < s.len() - 1 {
                            assert(s[b] == s0[b]);
                        }
                    }
                    assert(self.volumes@.remove(name@) =~= old(self).volumes@.remove(name@));
                }
                Ok(out)
            },
        }
    }

    /// Creates a volume, minting a fresh id for a fresh name.
    pub fn create_volume(&mut self, name: &str, volume_context: Dict<String>,
        required_bytes: Option<i64>) -> (r: Result<VolumeEntry, RpcStatus>)
        requires
            old(self).wf(),
        ensures
            final(self).wf(),
            name@.len() == 0 ==> {
                &&& r matches Err(e) && e.code == RpcCode::InvalidArgument
                &&& *final(self) == *old(self)
            },
            name@.len() > 0 && old(self).volumes@.contains_key(name@) ==> {
                &&& *final(self) == *old(self)
                &&& r matches Ok(v) && v.volume_id@ == old(self).volumes@[name@].volume_id@
            },
            name@.len() > 0 && !old(self).volumes@.contains_key(name@) ==> {
                &&& r matches Ok(v) && v.volume_id@.len() == 44 && v.volume_id@.subrange(0, 8)
                    == "kubedal-"@ && v.capacity_bytes == spec_capacity(required_bytes)
                    && v.volume_context@ == volume_context@
                    && final(self).volumes@.contains_key(name@)
                    && final(self).volumes@[name@].volume_id@ == v.volume_id@
                &&& final(self).volumes@.remove(name@) == old(self).volumes@.remove(name@)
            },
    {
        let fresh_id = mint_volume_id();
        self.create_volume_core(name, volume_context, required_bytes, fresh_id)
    }

    /// Removes the volume with the given id from the registry. An empty
    /// id is refused; an absent id succeeds without change; otherwise one
    /// name bound to that id is unbound.
    pub fn delete_volume(&mut self, volume_id: &str) -> (r: Result<(), RpcStatus>)
        requires
            old(self).wf(),
        ensures
            final(self).wf(),
            volume_id@.len() == 0 ==> (r matches Err(e) && e.code == RpcCode::InvalidArgument
                && *final(self) == *old(self)),
            volume_id@.len() > 0 ==> r is Ok,
            volume_id@.len() > 0 && (forall|k: Seq<char>|
                old(self).volumes@.contains_key(k) ==> (#[trigger] old(
                    self,
                ).volumes@[k]).volume_id@ != volume_id@) ==> *final(self) == *old(self),
            volume_id@.len() > 0 && (exists|k: Seq<char>|
                old(self).volumes@.contains_key(k) && (#[trigger] old(
                    self,
                ).volumes@[k]).volume_id@ == volume_id@) ==> (exists|k: Seq<char>|
                old(self).volumes@.contains_key(k) && (#[trigger] old(
                    self,
                ).volumes@[k]).volume_id@ == volume_id@ && final(self).volumes@ == old(
                    self,
                ).volumes@.remove(k)),
    {
        if volume_id.unicode_len() == 0 {
            return Err(RpcStatus::invalid_argument(String::from_str("Volume ID cannot be empty")));
        }
        let n = self.volumes.len();
        let mut i: usize = 0;
        while i < n
            invariant
                old(self).wf(),
                *self == *old(self),
                volume_id@.len() > 0,
                n == self.volumes.pairs().len(),
                i <= n,
                forall|j: int|
                    0 <= j < i ==> (#[trigger] self.volumes.pairs()[j]).1.volume_id@ != volume_id@,
            decreases n - i,
        {
            let hit = {
                let pair = self.volumes.entry_at(i);
                str_eq(pair.1.volume_id.as_str(), volume_id)
            };
            if hit {
                let key = {
                    let pair = self.volumes.entry_at(i);
                    pair.0.clone()
                };
                proof {
                    lemma_value_at_pair(self.volumes.pairs(), i as int);
                    assert(self.volumes@.contains_key(key@) && self.volumes@[key@].volume_id@
                        == volume_id@);
                }
                self.volumes.remove_key(key.as_str());
                proof {
                    crate::dict::lemma_without_key_nodup(old(self).volumes.pairs(), key@);
                    assert(old(self).volumes@.contains_key(key@) && old(
                        self,
                    ).volumes@[key@].volume_id@ == volume_id@ && self.volumes@ == old(
                        self,
                    ).volumes@.remove(key@));
                }
                return Ok(());
            }
            i = i + 1;
        }
        proof {
            assert forall|k: Seq<char>| self.volumes@.contains_key(k) implies (#[trigger] self.volumes@[k]).volume_id@
                != volume_id@ by {
                lemma_contains_iff_pair(self.volumes.pairs(), k);
                let j = choose|j: int|
                    0 <= j < self.volumes.pairs().len() && self.volumes.pairs()[j].0@ == k;
                lemma_value_at_pair(self.volumes.pairs(), j);
            }
        }
        Ok(())
    }

    /// All registered volumes, as copies.
    pub fn list_volumes(&self) -> (r: Vec<VolumeEntry>)
        ensures
            r@.len() == self.volumes.pairs().len(),
            forall|i: int|
                0 <= i < r@.len() ==> (#[trigger] r@[i]).volume_id@ == self.volumes.pairs()[i].1.volume_id@
                    && r@[i].capacity_bytes == self.volumes.pairs()[i].1.capacity_bytes
                    && r@[i].volume_context@ == self.volumes.pairs()[i].1.volume_context@,
    {
        let n = self.volumes.len();
        let mut out: Vec<VolumeEntry> = Vec::new();
        let mut i: usize = 0;
        while i < n
            invariant
                n == self.volumes.pairs().len(),
                i <= n,
                out@.len() == i,
                forall|j: int|
                    0 <= j < i ==> (#[trigger] out@[j]).volume_id@ == self.volumes.pairs()[j].1.volume_id@
                        && out@[j].capacity_bytes == self.volumes.pairs()[j].1.capacity_bytes
                        && out@[j].volume_context@ == self.volumes.pairs()[j].1.volume_context@,
            decreases n - i,
        {
            let entry = self.volumes.entry_at(i);
            out.push(entry.1.duplicate());
            i = i + 1;
        }
        out
    }

    /// The controller advertises volume creation and deletion.
    pub fn controller_get_capabilities(&self) -> (r: Vec<ControllerCapability>)
        ensures
            r@.len() == 1,
            r@[0] == ControllerCapability::CreateDeleteVolume,
    {
        let mut caps: Vec<ControllerCapability> = Vec::new();
        caps.push(ControllerCapability::CreateDeleteVolume);
        caps
    }

    /// The fixed capacity the driver reports: one tebibyte.
    pub fn get_capacity(&self) -> (r: i64)
        ensures
            r == 1099511627776i64,
    {
        1099511627776i64
    }

    /// The confirmation message of capability validation.
    pub fn validate_volume_capabilities(&self) -> (r: String)
        ensures
            r@ == "All capabilities are supported"@,
    {
        String::from_str("All capabilities are supported")
    }
}

/// The namespace a create request names in its parameters.
pub fn resource_namespace(parameters: &Dict<String>) -> (r: Result<String, RpcStatus>)
    ensures
        match r {
            Ok(ns) => parameters@.contains_key("resourceNamespace"@) && ns@
                == parameters@["resourceNamespace"@]@,
            Err(e) => !parameters@.contains_key("resourceNamespace"@) && e.code
                == RpcCode::InvalidArgument,
        },
{
    match parameters.get("resourceNamespace") {
        Some(ns) => Ok(ns.clone()),
        None => Err(
            RpcStatus::invalid_argument(
                String::from_str("Resource namespace not provided in parameters"),
            ),
        ),
    }
}

/// The claim uid a volume name carries after its `pvc-` prefix.
pub fn strip_pvc_prefix(name: &str) -> (r: Result<String, RpcStatus>)
    ensures
        match r {
            Ok(uid) => name@.len() >= 4 && name@.subrange(0, 4) == "pvc-"@ && uid@
                == name@.subrange(4, name@.len() as int),
            Err(e) => !(name@.len() >= 4 && name@.subrange(0, 4) == "pvc-"@) && e.code
                == RpcCode::InvalidArgument,
        },
{
    proof {
        reveal_strlit("pvc-");
    }
    if str_starts_with(name, "pvc-") {
        Ok(str_drop_prefix(name, 4))
    } else {
        Err(RpcStatus::invalid_argument(String::from_str("PVC name not provided in request")))
    }
}

/// The first listed claim whose uid equals the given one.
pub fn find_claim_by_uid(claims: &Vec<ObjectMeta>, uid: &str) -> (r: Result<usize, RpcStatus>)
    ensures
        match r {
            Ok(i) => i < claims@.len() && (claims@[i as int].uid matches Some(u) && u@ == uid@) && (
            forall|j: int|
                0 <= j < i ==> !((#[trigger] claims@[j]).uid matches Some(u2) && u2@ == uid@)),
            Err(e) => (forall|j: int|
                0 <= j < claims@.len() ==> !((#[trigger] claims@[j]).uid matches Some(u2) && u2@
                    == uid@)) && e.code == RpcCode::NotFound,
        },
{
    let n = claims.len();
    let mut i: usize = 0;
    while i < n
        invariant
            n == claims@.len(),
            i <= n,
            forall|j: int|
                0 <= j < i ==> !((#[trigger] claims@[j]).uid matches Some(u2) && u2@ == uid@),
        decreases n - i,
    {
        match &claims[i].uid {
            Some(u) => {
                if str_eq(u.as_str(), uid) {
                    return Ok(i);
                }
            },
            None => (),
        }
        i = i + 1;
    }
    Err(RpcStatus::not_found(String::from_str("PVC not found")))
}

/// The mount selection the composed context carries: the claim's mount
/// annotation when it is a valid mount access tag, `cache` for the plain
/// `cached` choice, and `fuse` in every other case.
pub open spec fn spec_mount_selection(annotation: Option<String>) -> Seq<char> {
    match annotation {
        Some(v) => {
            if mount_access_of(v@) is Some {
                v@
            } else if v@ == "cached"@ {
                "cache"@
            } else {
                "fuse"@
            }
        },
        None => "fuse"@,
    }
}

/// The keys volume-context composition writes itself; every other key of
/// the node's config passes through unchanged.
pub open spec fn is_composed_key(k: Seq<char>, with_secret: bool) -> bool {
    ||| k == "kubedal.arunaengine.org/data-node-name"@
    ||| k == "kubedal.arunaengine.org/data-node-namespace"@
    ||| k == "kubedal.arunaengine.org/data-pod-name"@
    ||| k == "kubedal.arunaengine.org/data-pod-namespace"@
    ||| k == "backend"@
    ||| k == "kubedal.arunaengine.org/mount"@
    ||| (with_secret && (k == "secret"@ || k == "secret_ns"@))
}

/// The mount annotation of a claim, when it carries one.
pub open spec fn spec_claim_mount(ann: Map<Seq<char>, String>) -> Option<String> {
    if ann.contains_key("kubedal.arunaengine.org/mount"@) {
        Some(ann["kubedal.arunaengine.org/mount"@])
    } else {
        None
    }
}

/// Composes the volume context a created volume carries to the node
/// side: the data node and data pod named by the claim's annotations, the
/// node's backend tag, the mount selection, the resolved secret
/// reference, and the node's whole configuration map.
pub fn compose_volume_context(node: &DataNode, claim_annotations: &Dict<String>, secret: &Option<
    (String, String),
>) -> (r: Result<Dict<String>, RpcStatus>)
    ensures
        match r {
            Ok(out) => {
                let ann = claim_annotations@;
                let kn = "kubedal.arunaengine.org/data-node-name"@;
                let kns = "kubedal.arunaengine.org/data-node-namespace"@;
                let kp = "kubedal.arunaengine.org/data-pod-name"@;
                let kps = "kubedal.arunaengine.org/data-pod-namespace"@;
                let km = "kubedal.arunaengine.org/mount"@;
                &&& ann.contains_key(kn) && ann.contains_key(kns) && ann.contains_key(kp)
                    && ann.contains_key(kps)
                &&& out@.contains_key(kn) && out@[kn]@ == ann[kn]@
                &&& out@.contains_key(kns) && out@[kns]@ == ann[kns]@
                &&& out@.contains_key(kp) && out@[kp]@ == ann[kp]@
                &&& out@.contains_key(kps) && out@[kps]@ == ann[kps]@
                &&& out@.contains_key("backend"@) && out@["backend"@]@ == backend_tag(
                    node.spec.backend,
                )
                &&& out@.contains_key(km) && out@[km]@ == spec_mount_selection(
                    spec_claim_mount(ann),
                )
                &&& secret matches Some(p) ==> out@.contains_key("secret"@) && out@["secret"@]@
                    == p.0@ && out@.contains_key("secret_ns"@) && out@["secret_ns"@]@ == p.1@
                &&& forall|k: Seq<char>|
                    #[trigger] node.spec.config@.contains_key(k) && !is_composed_key(
                        k,
                        secret is Some,
                    ) ==> out@.contains_key(k) && out@[k] == node.spec.config@[k]
                &&& forall|k: Seq<char>|
                    #[trigger] out@.contains_key(k) ==> node.spec.config@.contains_key(k)
                        || is_composed_key(k, secret is Some)
            },
            Err(e) => {
                &&& e.code == RpcCode::InvalidArgument
                &&& !(claim_annotations@.contains_key("kubedal.arunaengine.org/data-node-name"@)
                    && claim_annotations@.contains_key(
                    "kubedal.arunaengine.org/data-node-namespace"@,
                ) && claim_annotations@.contains_key("kubedal.arunaengine.org/data-pod-name"@)
                    && claim_annotations@.contains_key(
                    "kubedal.arunaengine.org/data-pod-namespace"@,
                ))
            },
        },
{
    let nn = match claim_annotations.get("kubedal.arunaengine.org/data-node-name") {
        Some(v) => v.clone(),
        None => {
            return Err(
                RpcStatus::invalid_argument(String::from_str("DataNode name annotation not found")),
            );
        },
    };
    let nns = match claim_annotations.get("kubedal.arunaengine.org/data-node-namespace") {
        Some(v) => v.clone(),
        None => {
            return Err(
                RpcStatus::invalid_argument(
                    String::from_str("DataNode namespace annotation not found"),
                ),
            );
        },
    };
    let pn = match claim_annotations.get("kubedal.arunaengine.org/data-pod-name") {
        Some(v) => v.clone(),
        None => {
            return Err(
                RpcStatus::invalid_argument(String::from_str("DataPod name annotation not found")),
            );
        },
    };
    let pns = match claim_annotations.get("kubedal.arunaengine.org/data-pod-namespace") {
        Some(v) => v.clone(),
        None => {
            return Err(
                RpcStatus::invalid_argument(
                    String::from_str("DataPod namespace annotation not found"),
                ),
            );
        },
    };
    let mount_val = match claim_annotations.get("kubedal.arunaengine.org/mount") {
        Some(v) => {
            match MountAccess::parse(v.as_str()) {
                Ok(_) => v.clone(),
                Err(_) => {
                    if str_eq(v.as_str(), "cached") {
                        String::from_str("cache")
                    } else {
                        String::from_str("fuse")
                    }
                },
            }
        },
        None => String::from_str("fuse"),
    };
    let mut out = node.spec.config.duplicate();
    out.insert(String::from_str("kubedal.arunaengine.org/data-node-name"), nn);
    out.insert(String::from_str("kubedal.arunaengine.org/data-node-namespace"), nns);
    out.insert(String::from_str("kubedal.arunaengine.org/data-pod-name"), pn);
    out.insert(String::from_str("kubedal.arunaengine.org/data-pod-namespace"), pns);
    out.insert(String::from_str("backend"), node.spec.backend.tag());
    out.insert(String::from_str("kubedal.arunaengine.org/mount"), mount_val);
    match secret {
        Some(p) => {
            out.insert(String::from_str("secret"), p.0.clone());
            out.insert(String::from_str("secret_ns"), p.1.clone());
        },
        None => (),
    }
    proof {
        reveal_strlit("kubedal.arunaengine.org/data-node-name");
        reveal_strlit("kubedal.arunaengine.org/data-node-namespace");
        reveal_strlit("kubedal.arunaengine.org/data-pod-name");
        reveal_strlit("kubedal.arunaengine.org/data-pod-namespace");
        reveal_strlit("kubedal.arunaengine.org/mount");
        reveal_strlit("backend");
        reveal_strlit("secret");
        reveal_strlit("secret_ns");
        assert("kubedal.arunaengine.org/data-node-name"@.len() == 38);
        assert("kubedal.arunaengine.org/data-node-namespace"@.len() == 43);
        assert("kubedal.arunaengine.org/data-pod-name"@.len() == 37);
        assert("kubedal.arunaengine.org/data-pod-namespace"@.len() == 42);
        assert("kubedal.arunaengine.org/mount"@.len() == 29);
        assert("backend"@.len() == 7);
        assert("secret"@.len() == 6);
        assert("secret_ns"@.len() == 9);
    }
    Ok(out)
}

} // verus!
