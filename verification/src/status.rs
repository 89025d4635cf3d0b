//! The job status state machine.

use vstd::prelude::*;

verus! {

/// Lifecycle state of a job row.
///
/// `Pending` and `Retrying` rows are waiting to be claimed; a `Processing`
/// row is leased to exactly one worker; `Completed` and `Failed` are
/// terminal and only leave the terminal set through an explicit rehydrate.
#[derive(Clone, Copy, Debug, PartialEq, Eq, Structural)]
pub enum JobStatus {
    Pending,
    Processing,
    Retrying,
    Completed,
    Failed,
}

impl JobStatus {
    /// Statuses that keep a job in the active queue.
    pub open spec fn is_active(self) -> bool {
        self == JobStatus::Pending || self == JobStatus::Processing || self == JobStatus::Retrying
    }

    /// Terminal statuses; such rows appear only in the history query.
    pub open spec fn is_terminal(self) -> bool {
        self == JobStatus::Completed || self == JobStatus::Failed
    }

    /// Statuses from which a worker may claim the row.
    pub open spec fn is_claimable(self) -> bool {
        self == JobStatus::Pending || self == JobStatus::Retrying
    }

    /// Every status is either active or terminal, never both.
    pub proof fn lemma_active_terminal_partition(self)
        ensures
            self.is_active() <==> !self.is_terminal(),
    {
    }

    /// The label stored in the persisted row and reported in events.
    pub fn as_str(self) -> (r: &'static str)
        ensures
            r@ == self.label(),
    {
        match self {
            JobStatus::Pending => "pending",
            JobStatus::Processing => "processing",
            JobStatus::Retrying => "retrying",
            JobStatus::Completed => "completed",
            JobStatus::Failed => "failed",
        }
    }

    /// Specification-level label of each status.
    pub open spec fn label(self) -> Seq<char> {
        match self {
            JobStatus::Pending => "pending"@,
            JobStatus::Processing => "processing"@,
            JobStatus::Retrying => "retrying"@,
            JobStatus::Completed => "completed"@,
            JobStatus::Failed => "failed"@,
        }
    }
}

} // verus!
