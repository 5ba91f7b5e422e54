//! The reconciler runtime: requeue actions, the finalizer lifecycle, and
//! the error policy.
//!
//! Every reconciled object carries its kind's finalizer while it lives;
//! deletion completes only after cleanup has run to success, because only
//! a successful cleanup removes the finalizer.
use vstd::prelude::*;

verus! {

use crate::meta::{spec_has_finalizer, ObjectMeta};
use crate::strings::{push_char, str_concat, str_concat3, str_eq};
use vstd::string::StringExecFns;

/// What a reconciliation asks the runtime to do next.
#[derive(Clone, Copy, Debug, PartialEq, Eq, Structural)]
pub enum Action {
    /// Run again after this many seconds.
    Requeue(u64),
    /// Wait for the next change of the object.
    AwaitChange,
}

/// The requeue the error policy selects: five minutes.
pub fn error_policy_action() -> (r: Action)
    ensures
        r == Action::Requeue(300),
{
    Action::Requeue(300)
}

/// What the finalizer lifecycle wrapper does with an object.
#[derive(Clone, Copy, Debug, PartialEq, Eq, Structural)]
pub enum FinalizerStep {
    /// The object is alive but unmarked: add the finalizer first.
    AddFinalizer,
    /// The object is alive and marked: run the reconciler.
    RunReconcile,
    /// The object is being deleted and marked: run cleanup.
    RunCleanup,
    /// The object is being deleted and already unmarked: nothing to do.
    Ignore,
}

/// The lifecycle decision over the two observable facts.
pub open spec fn spec_finalizer_step(has_marker: bool, deleting: bool) -> FinalizerStep {
    if !deleting {
        if has_marker {
            FinalizerStep::RunReconcile
        } else {
            FinalizerStep::AddFinalizer
        }
    } else {
        if has_marker {
            FinalizerStep::RunCleanup
        } else {
            FinalizerStep::Ignore
        }
    }
}

/// Decides the finalizer lifecycle step for an object.
pub fn finalizer_step(meta: &ObjectMeta, marker: &str) -> (r: FinalizerStep)
    ensures
        r == spec_finalizer_step(
            spec_has_finalizer(meta.finalizers@, marker@),
            meta.deletion_requested,
        ),
{
    let marked = crate::meta::has_finalizer(meta, marker);
    if !meta.deletion_requested {
        if marked {
            FinalizerStep::RunReconcile
        } else {
            FinalizerStep::AddFinalizer
        }
    } else {
        if marked {
            FinalizerStep::RunCleanup
        } else {
            FinalizerStep::Ignore
        }
    }
}

/// The finalizer law, at the decision level: the reconciler only runs on
/// an object that carries its kind's finalizer; cleanup only runs on a
/// deleted object that still carries it; and a live unmarked object is
/// marked before anything else happens to it.
pub proof fn lemma_finalizer_law(has_marker: bool, deleting: bool)
    ensures
        spec_finalizer_step(has_marker, deleting) == FinalizerStep::RunReconcile ==> has_marker
            && !deleting,
        spec_finalizer_step(has_marker, deleting) == FinalizerStep::RunCleanup ==> has_marker
            && deleting,
        !deleting && !has_marker ==> spec_finalizer_step(has_marker, deleting)
            == FinalizerStep::AddFinalizer,
{
}

/// Adds the marker to the object's finalizers; every other field is kept.
pub fn add_finalizer(meta: &mut ObjectMeta, marker: &str)
    ensures
        final(meta).finalizers@.len() == old(meta).finalizers@.len() + 1,
        final(meta).finalizers@.last()@ == marker@,
        forall|i: int|
            0 <= i < old(meta).finalizers@.len() ==> final(meta).finalizers@[i] == old(
                meta,
            ).finalizers@[i],
        spec_has_finalizer(final(meta).finalizers@, marker@),
        *final(meta) == (ObjectMeta { finalizers: final(meta).finalizers, ..*old(meta) }),
{
    let m = String::from_str(marker);
    meta.finalizers.push(m);
}

/// The finalizer list with every occurrence of the marker dropped.
pub open spec fn spec_without_marker(finalizers: Seq<String>, marker: Seq<char>) -> Seq<String>
    decreases finalizers.len(),
{
    if finalizers.len() == 0 {
        Seq::empty()
    } else if finalizers.last()@ == marker {
        spec_without_marker(finalizers.drop_last(), marker)
    } else {
        spec_without_marker(finalizers.drop_last(), marker).push(finalizers.last())
    }
}

/// Removes the marker after cleanup, but only when cleanup succeeded: a
/// failed cleanup leaves the object untouched, so its deletion cannot
/// complete before a later cleanup succeeds.
pub fn remove_finalizer_after_cleanup(meta: &mut ObjectMeta, marker: &str, cleanup_ok: bool)
    ensures
        !cleanup_ok ==> *final(meta) == *old(meta),
        cleanup_ok ==> final(meta).finalizers@ == spec_without_marker(
            old(meta).finalizers@,
            marker@,
        ),
        cleanup_ok ==> !spec_has_finalizer(final(meta).finalizers@, marker@),
        cleanup_ok ==> *final(meta) == (ObjectMeta {
            finalizers: final(meta).finalizers,
            ..*old(meta)
        }),
{
    if !cleanup_ok {
        return ;
    }
    let ghost s = meta.finalizers@;
    let ghost n: int = s.len() as int;
    let mut kept: Vec<String> = Vec::new();
    let len = meta.finalizers.len();
    let mut i: usize = 0;
    while i < len
        invariant
            len == s.len(),
            i <= len,
            meta.finalizers@ == s,
            kept@ =~= spec_without_marker(s.take(i as int), marker@),
            forall|j: int| 0 <= j < kept@.len() ==> #[trigger] kept@[j]@ != marker@,
        decreases len - i,
    {
        proof {
            assert(s.take(i + 1).drop_last() =~= s.take(i as int));
            assert(s.take(i + 1).last() == s[i as int]);
        }
        if !str_eq(meta.finalizers[i].as_str(), marker) {
            let f = meta.finalizers[i].clone();
            kept.push(f);
        }
        i = i + 1;
    }
    proof {
        assert(s.take(n) =~= s);
    }
    meta.finalizers = kept;
}

/// One observed turn of the finalizer lifecycle on one object: either the
/// marker was added to a live object, or cleanup ran on a deleting object
/// with the given outcome, a success removing the marker.
pub enum LifecycleEvent {
    Marked,
    CleanupRan(bool),
}

/// Whether an object that started unmarked carries the marker after a
/// history of lifecycle turns. Marking sets it; only a successful cleanup
/// clears it.
pub open spec fn marked_after(events: Seq<LifecycleEvent>) -> bool
    decreases events.len(),
{
    if events.len() == 0 {
        false
    } else {
        match events.last() {
            LifecycleEvent::Marked => true,
            LifecycleEvent::CleanupRan(ok) => {
                if ok {
                    false
                } else {
                    marked_after(events.drop_last())
                }
            },
        }
    }
}

/// Deletion does not complete until cleanup has run at least once to
/// success: an object that was marked and ends up unmarked saw a
/// successful cleanup after that marking, since a failed cleanup leaves
/// the marker in place.
pub proof fn lemma_unmark_needs_cleanup_success(events: Seq<LifecycleEvent>, i: int)
    requires
        0 <= i < events.len(),
        events[i] is Marked,
        !marked_after(events),
    ensures
        exists|j: int| i < j < events.len() && events[j] == LifecycleEvent::CleanupRan(true),
    decreases events.len(),
{
    let n = events.len() as int;
    match events.last() {
        LifecycleEvent::Marked => {
            assert(false);
        },
        LifecycleEvent::CleanupRan(ok) => {
            if ok {
                assert(i < n - 1);
                assert(events[n - 1] == LifecycleEvent::CleanupRan(true));
            } else {
                assert(i < n - 1);
                assert(events.drop_last()[i] == events[i]);
                lemma_unmark_needs_cleanup_success(events.drop_last(), i);
                let j = choose|j: int|
                    i < j < events.drop_last().len() && events.drop_last()[j]
                        == LifecycleEvent::CleanupRan(true);
                assert(events[j] == events.drop_last()[j]);
            }
        },
    }
}

/// The fixed field manager under which every status patch is applied, so
/// that repeated server-side applies take ownership of the same fields.
pub fn field_manager() -> (r: String)
    ensures
        r@ == "cntrlr"@,
{
    String::from_str("cntrlr")
}

/// The startup diagnostic when a custom-resource kind cannot be listed:
/// the runtime refuses to start a controller whose kind is not installed.
pub fn crd_missing_diagnostic(kind: &str) -> (r: String)
    ensures
        r@ == "CRD "@ + kind@ + " is not queryable. Is the CRD installed?"@,
{
    crate::strings::str_concat3("CRD ", kind, " is not queryable. Is the CRD installed?")
}

/// An event the runtime publishes on the reconciled object.
#[derive(Debug)]
pub struct EventNote {
    pub reason: String,
    pub action: String,
    pub note: Option<String>,
}

/// The event every cleanup emits before awaiting the object's change:
/// deletion was requested for the named object.
pub fn cleanup_outcome(name: &str) -> (r: (EventNote, Action))
    ensures
        r.0.reason@ == "DeleteRequested"@,
        r.0.action@ == "Deleting"@,
        r.0.note matches Some(n) && n@ == "Delete `"@ + name@ + "`"@,
        r.1 == Action::AwaitChange,
{
    let mut note = str_concat("Delete `", name);
    push_char(&mut note, '`');
    proof {
        reveal_strlit("`");
        assert("Delete `"@ + name@ + "`"@ =~= ("Delete `"@ + name@).push('`'));
    }
    (
        EventNote {
            reason: String::from_str("DeleteRequested"),
            action: String::from_str("Deleting"),
            note: Some(note),
        },
        Action::AwaitChange,
    )
}

} // verus!
