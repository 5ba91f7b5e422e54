//! Mapping an orchestrator job status onto a synchronization status.
use vstd::prelude::*;

verus! {

/// The lifecycle a synchronization job reports.
#[derive(Clone, Copy, Debug, PartialEq, Eq, Structural)]
pub enum SyncPodStatus {
    Pending,
    Running,
    Completed,
    Failed,
}

impl Default for SyncPodStatus {
    fn default() -> (r: Self)
        ensures
            r == SyncPodStatus::Pending,
    {
        SyncPodStatus::Pending
    }
}

/// The counters a job status carries, as plain values.
#[derive(Clone, Copy, Debug)]
pub struct JobStatusSummary {
    pub active: Option<i32>,
    pub succeeded: Option<i32>,
    pub failed: Option<i32>,
    pub has_start_time: bool,
}

/// The synchronization status a job status denotes: failure wins, then
/// completion, then any sign of activity; anything else is pending.
pub open spec fn spec_sync_status(job_status: Option<JobStatusSummary>) -> SyncPodStatus {
    match job_status {
        None => SyncPodStatus::Pending,
        Some(s) => {
            if s.failed matches Some(f) && f > 0 {
                SyncPodStatus::Failed
            } else if s.succeeded matches Some(n) && n > 0 {
                SyncPodStatus::Completed
            } else if s.active matches Some(a) && a > 0 {
                SyncPodStatus::Running
            } else if s.has_start_time {
                SyncPodStatus::Running
            } else {
                SyncPodStatus::Pending
            }
        },
    }
}

/// Maps a job status to a synchronization status.
pub fn job_status_to_sync_status(job_status: &Option<JobStatusSummary>) -> (r: SyncPodStatus)
    ensures
        r == spec_sync_status(*job_status),
{
    match job_status {
        None => SyncPodStatus::Pending,
        Some(status) => {
            if let Some(failed) = status.failed {
                if failed > 0 {
                    return SyncPodStatus::Failed;
                }
            }
            if let Some(succeeded) = status.succeeded {
                if succeeded > 0 {
                    return SyncPodStatus::Completed;
                }
            }
            if let Some(active) = status.active {
                if active > 0 {
                    return SyncPodStatus::Running;
                }
            }
            if status.has_start_time {
                return SyncPodStatus::Running;
            }
            SyncPodStatus::Pending
        },
    }
}

} // verus!
