use vstd::prelude::*;
use anchor_lang::prelude::Pubkey;
use crate::text::text_len;

verus! {

#[derive(Clone, Copy, Debug, PartialEq, Eq, Structural)]
pub enum DramaStatus {
    Ongoing,
    Completed,
}

impl Default for DramaStatus {
    fn default() -> (r: Self)
        ensures
            r == DramaStatus::Ongoing,
    {
        DramaStatus::Ongoing
    }
}

/// A serialized story with a target total duration and a lifecycle status.
#[derive(Clone, Debug, PartialEq, Eq)]
pub struct Drama {
    pub creator: Pubkey,
    /// At most `MAX_TITLE_LEN` bytes.
    pub title: String,
    /// Locator of the initial setting, at most `MAX_URI_LEN` bytes.
    pub genesis_uri: String,
    /// Target duration in seconds.
    pub target_duration: u64,
    /// Duration accumulated so far.
    pub current_duration: u64,
    pub status: DramaStatus,
    /// Number of nodes confirmed so far.
    pub node_count: u64,
    pub created_at: i64,
    pub bump: u8,
}

/// `a + b`, held at the largest `u64` where the sum is beyond it.
pub open spec fn saturated(a: u64, b: u64) -> u64 {
    if a + b > u64::MAX {
        u64::MAX
    } else {
        (a + b) as u64
    }
}

impl Drama {
    pub const MAX_TITLE_LEN: usize = 64;

    pub const MAX_URI_LEN: usize = 200;

    /// Stored size of a drama record in bytes.
    pub const SPACE: usize = 8 + 32 + 4 + Self::MAX_TITLE_LEN + 4 + Self::MAX_URI_LEN + 8 + 8 + 1
        + 8 + 8 + 1;

    /// Texts within their bounds, a positive target, and an ongoing drama
    /// short of its target.
    pub open spec fn wf(&self) -> bool {
        &&& 0 < text_len(self.title@) <= Self::MAX_TITLE_LEN
        &&& 0 < text_len(self.genesis_uri@) <= Self::MAX_URI_LEN
        &&& self.target_duration > 0
        &&& self.status == DramaStatus::Ongoing ==> self.current_duration < self.target_duration
    }

    /// The drama after `added` seconds of progress: duration and node count
    /// grow, and the drama completes once the target is reached.
    pub open spec fn advanced(self, added: u64) -> Drama {
        let current = saturated(self.current_duration, added);
        Drama {
            current_duration: current,
            node_count: saturated(self.node_count, 1),
            status: if current >= self.target_duration {
                DramaStatus::Completed
            } else {
                self.status
            },
            ..self
        }
    }

    /// The drama, completed at its current duration.
    pub open spec fn completed(self) -> Drama {
        Drama { status: DramaStatus::Completed, ..self }
    }

    #[verifier::when_used_as_spec(spec_is_completed)]
    pub fn is_completed(&self) -> (r: bool)
        ensures
            r == self.spec_is_completed(),
    {
        self.status == DramaStatus::Completed
    }

    pub open spec fn spec_is_completed(&self) -> bool {
        self.status == DramaStatus::Completed
    }
}

/// Record of a drama's creation.
#[derive(Clone, Debug, PartialEq, Eq)]
pub struct DramaCreated {
    pub drama: Pubkey,
    pub creator: Pubkey,
    pub title: String,
    pub target_duration: u64,
}

/// Record of progress made.
#[derive(Clone, Copy, Debug, PartialEq, Eq)]
pub struct DramaProgressUpdated {
    pub drama: Pubkey,
    pub added_duration: u64,
    pub current_duration: u64,
}

/// Record of a drama's completion.
#[derive(Clone, Copy, Debug, PartialEq, Eq)]
pub struct DramaCompleted {
    pub drama: Pubkey,
    pub final_duration: u64,
}

/// What one step of progress emits: the progress record, and the completion
/// record where the step completed the drama.
#[derive(Clone, Copy, Debug, PartialEq, Eq)]
pub struct ProgressRecords {
    pub progress: DramaProgressUpdated,
    pub completed: Option<DramaCompleted>,
}

} // verus!
