//! The mount engine: access matrix, mount lifecycle, and the cache mirror
//! plan.
//!
//! A `Mount` record models the lifecycle of one published volume. The
//! blocking work (probing the backend, copying objects, the bind mount or
//! the userspace filesystem session) is carried out by the caller between
//! `begin_mount` and `finish_mount`; the record pins down which work is
//! owed and how the state moves.
use vstd::prelude::*;

verus! {

use crate::crd::MountAccess;
use crate::errors::{RpcCode, RpcStatus};
use crate::strings::str_concat;
use vstd::string::StringExecFns;

/// How the data is materialized at the target path.
#[derive(Clone, Copy, Debug, PartialEq, Eq, Structural)]
pub enum MountMode {
    /// Objects are pre-fetched into a staging directory which is then
    /// bind-mounted onto the target.
    Cached,
    /// A userspace filesystem forwards reads and writes on demand.
    Fuse,
}

/// Whether the mount is writable.
#[derive(Clone, Copy, Debug, PartialEq, Eq, Structural)]
pub enum AccessMode {
    ReadOnly,
    ReadWrite,
}

/// The mode and access a mount access tag selects.
pub open spec fn spec_access_matrix(m: MountAccess) -> (MountMode, AccessMode) {
    match m {
        MountAccess::CacheReadWrite => (MountMode::Cached, AccessMode::ReadWrite),
        MountAccess::CacheReadOnly => (MountMode::Cached, AccessMode::ReadOnly),
        MountAccess::FuseReadWrite => (MountMode::Fuse, AccessMode::ReadWrite),
        MountAccess::FuseReadOnly => (MountMode::Fuse, AccessMode::ReadOnly),
    }
}

/// Splits a mount access tag into mount mode and access mode.
pub fn access_matrix(m: MountAccess) -> (r: (MountMode, AccessMode))
    ensures
        r == spec_access_matrix(m),
{
    match m {
        MountAccess::CacheReadWrite => (MountMode::Cached, AccessMode::ReadWrite),
        MountAccess::CacheReadOnly => (MountMode::Cached, AccessMode::ReadOnly),
        MountAccess::FuseReadWrite => (MountMode::Fuse, AccessMode::ReadWrite),
        MountAccess::FuseReadOnly => (MountMode::Fuse, AccessMode::ReadOnly),
    }
}

/// The access a mount actually gets: a read-only data node cannot be
/// mounted writably, so a write request against one is demoted to
/// read-only rather than rejected.
pub fn effective_access(node_read_only: bool, requested: AccessMode) -> (r: AccessMode)
    ensures
        node_read_only ==> r == AccessMode::ReadOnly,
        !node_read_only ==> r == requested,
{
    if node_read_only {
        AccessMode::ReadOnly
    } else {
        requested
    }
}

/// Lifecycle states of a mount record.
#[derive(Clone, Copy, Debug, PartialEq, Eq, Structural)]
pub enum MountState {
    Unmounted,
    Mounting,
    Mounted,
    Unmounting,
}

/// A runtime record associating a volume with a target path and a mount
/// strategy.
#[derive(Debug)]
pub struct Mount {
    pub volume_id: String,
    pub target_path: String,
    pub mount_mode: MountMode,
    pub access_mode: AccessMode,
    pub state: MountState,
}

/// The blocking work a `begin_mount` call hands to its caller: nothing, or
/// the bring-up of the given mode with the given access.
#[derive(Clone, Copy, Debug, PartialEq, Eq, Structural)]
pub enum MountWork {
    Nothing,
    BringUp(MountMode, AccessMode),
}

/// What starting a mount does to a record, and the work it hands out.
pub open spec fn spec_begin_mount(m: Mount) -> (Mount, MountWork) {
    if m.state == MountState::Unmounted {
        (
            Mount { state: MountState::Mounting, ..m },
            MountWork::BringUp(m.mount_mode, m.access_mode),
        )
    } else {
        (m, MountWork::Nothing)
    }
}

/// What recording the bring-up outcome does to a `Mounting` record.
pub open spec fn spec_finish_mount(m: Mount, ok: bool) -> Mount {
    if ok {
        Mount { state: MountState::Mounted, ..m }
    } else {
        Mount { state: MountState::Unmounted, ..m }
    }
}

/// A whole `mount()` call whose owed work (if any) succeeds.
pub open spec fn spec_mount_success(m: Mount) -> Mount {
    let (m1, w) = spec_begin_mount(m);
    if w is BringUp {
        spec_finish_mount(m1, true)
    } else {
        m1
    }
}

impl Mount {
    pub fn new(volume_id: String, target_path: String, mount_mode: MountMode,
        access_mode: AccessMode) -> (r: Mount)
        ensures
            r.volume_id@ == volume_id@,
            r.target_path@ == target_path@,
            r.mount_mode == mount_mode,
            r.access_mode == access_mode,
            r.state == MountState::Unmounted,
    {
        Mount { volume_id, target_path, mount_mode, access_mode, state: MountState::Unmounted }
    }

    /// Starts a mount. From `Unmounted` the record moves to `Mounting` and
    /// the caller owes the bring-up work; from `Mounted` the call is a
    /// no-op that succeeds, so repeating a successful mount changes
    /// nothing. A record in a transitional state owes no work either.
    pub fn begin_mount(&mut self) -> (r: MountWork)
        ensures
            (*final(self), r) == spec_begin_mount(*old(self)),
    {
        if let MountState::Unmounted = self.state {
            self.state = MountState::Mounting;
            MountWork::BringUp(self.mount_mode, self.access_mode)
        } else {
            MountWork::Nothing
        }
    }

    /// Records the outcome of the bring-up work: success reaches
    /// `Mounted`, failure falls back to `Unmounted`.
    pub fn finish_mount(&mut self, ok: bool)
        requires
            old(self).state == MountState::Mounting,
        ensures
            *final(self) == spec_finish_mount(*old(self), ok),
    {
        if ok {
            self.state = MountState::Mounted;
        } else {
            self.state = MountState::Unmounted;
        }
    }

    /// Starts a teardown. Only `Mounted` moves to `Unmounting` and owes
    /// work; every other entry returns success without side effect.
    pub fn begin_unmount(&mut self) -> (r: bool)
        ensures
            old(self).state == MountState::Mounted ==> *final(self) == (Mount {
                state: MountState::Unmounting,
                ..*old(self)
            }) && r == true,
            old(self).state != MountState::Mounted ==> *final(self) == *old(self) && r == false,
    {
        if let MountState::Mounted = self.state {
            self.state = MountState::Unmounting;
            true
        } else {
            false
        }
    }

    /// Records the outcome of the teardown work: success reaches
    /// `Unmounted`, failure leaves the volume mounted.
    pub fn finish_unmount(&mut self, ok: bool)
        requires
            old(self).state == MountState::Unmounting,
        ensures
            ok ==> *final(self) == (Mount { state: MountState::Unmounted, ..*old(self) }),
            !ok ==> *final(self) == (Mount { state: MountState::Mounted, ..*old(self) }),
    {
        if ok {
            self.state = MountState::Unmounted;
        } else {
            self.state = MountState::Mounted;
        }
    }

    /// A copy of the record with equal contents.
    pub fn duplicate(&self) -> (r: Mount)
        ensures
            r.volume_id@ == self.volume_id@,
            r.target_path@ == self.target_path@,
            r.mount_mode == self.mount_mode,
            r.access_mode == self.access_mode,
            r.state == self.state,
    {
        Mount {
            volume_id: self.volume_id.clone(),
            target_path: self.target_path.clone(),
            mount_mode: self.mount_mode,
            access_mode: self.access_mode,
            state: self.state,
        }
    }
}

/// A `mount()` that succeeded and is run again without an intermediate
/// `unmount()` is a no-op: the record stays exactly as the first success
/// left it, in state `Mounted`, and the repeat owes no work.
pub proof fn lemma_mount_idempotent_after_success(m: Mount)
    requires
        m.state == MountState::Unmounted || m.state == MountState::Mounted,
    ensures
        spec_mount_success(m).state == MountState::Mounted,
        spec_mount_success(spec_mount_success(m)) == spec_mount_success(m),
        spec_begin_mount(spec_mount_success(m)).1 == MountWork::Nothing,
{
}

/// The staging directory for a cached volume: a well-known per-volume
/// location under `/mnt`.
pub fn staging_path(volume_id: &str) -> (r: String)
    ensures
        r@ == "/mnt/"@ + volume_id@,
{
    str_concat("/mnt/", volume_id)
}

/// What a backend listing reported one entry to be.
#[derive(Clone, Copy, Debug, PartialEq, Eq, Structural)]
pub enum EntryKind {
    File,
    Dir,
    Unknown,
}

/// One entry of a recursive backend listing.
#[derive(Debug)]
pub struct ListedEntry {
    pub path: String,
    pub kind: EntryKind,
}

/// One step of mirroring a backend listing into the staging directory.
#[derive(Debug)]
pub enum MirrorStep {
    /// Stream the object at the path into the mirrored file.
    CopyFile(String),
    /// Ensure the mirrored directory exists.
    EnsureDir(String),
}

/// Whether a mirror step is the one owed for a listed entry.
pub open spec fn step_matches_entry(step: MirrorStep, entry: ListedEntry) -> bool {
    match step {
        MirrorStep::CopyFile(p) => entry.kind == EntryKind::File && p@ == entry.path@,
        MirrorStep::EnsureDir(p) => entry.kind == EntryKind::Dir && p@ == entry.path@,
    }
}

/// Turns a backend listing into the mirror plan for the cached mode:
/// files are copied, directories are created, and an entry of unknown
/// kind fails the whole plan.
pub fn mirror_plan(entries: &Vec<ListedEntry>) -> (r: Result<Vec<MirrorStep>, RpcStatus>)
    ensures
        match r {
            Ok(plan) => plan@.len() == entries@.len() && (forall|i: int|
                0 <= i < entries@.len() ==> step_matches_entry(#[trigger] plan@[i], entries@[i])),
            Err(e) => (exists|i: int|
                0 <= i < entries@.len() && entries@[i].kind == EntryKind::Unknown) && e.code
                == RpcCode::Unknown,
        },
{
    let n = entries.len();
    let mut plan: Vec<MirrorStep> = Vec::new();
    let mut i: usize = 0;
    while i < n
        invariant
            n == entries@.len(),
            i <= n,
            plan@.len() == i,
            forall|j: int| 0 <= j < i ==> step_matches_entry(#[trigger] plan@[j], entries@[j]),
        decreases n - i,
    {
        match entries[i].kind {
            EntryKind::File => {
                plan.push(MirrorStep::CopyFile(entries[i].path.clone()));
            },
            EntryKind::Dir => {
                plan.push(MirrorStep::EnsureDir(entries[i].path.clone()));
            },
            EntryKind::Unknown => {
                return Err(RpcStatus::new(RpcCode::Unknown, String::from_str(
                    "Data source entry type is unknown",
                )));
            },
        }
        i = i + 1;
    }
    Ok(plan)
}

} // verus!
