use vstd::prelude::*;
use anchor_lang::prelude::Pubkey;
use crate::drama_hub::error::DramaError;
use crate::drama_hub::lifecycle::step;
use crate::drama_hub::state::{
    saturated,
    Drama,
    DramaCompleted,
    DramaProgressUpdated,
    DramaStatus,
    ProgressRecords,
};

verus! {

/// What a progress request names: the drama and the caller.
#[derive(Clone, Copy, Debug, PartialEq, Eq)]
pub struct UpdateDuration {
    pub drama: Pubkey,
    pub authority: Pubkey,
}

/// The records emitted when the ongoing drama `before`, stored under `key`,
/// advances by `added` seconds.
pub open spec fn progress_of(key: Pubkey, before: Drama, added: u64) -> ProgressRecords {
    let current = saturated(before.current_duration, added);
    ProgressRecords {
        progress: DramaProgressUpdated {
            drama: key,
            added_duration: added,
            current_duration: current,
        },
        completed: if current >= before.target_duration {
            Some(DramaCompleted { drama: key, final_duration: current })
        } else {
            None
        },
    }
}

pub fn handler(ctx: &UpdateDuration, drama: &mut Drama, added_duration: u64) -> (r: Result<
    ProgressRecords,
    DramaError,
>)
    ensures
        old(drama).is_completed() ==> r == Err::<ProgressRecords, DramaError>(
            DramaError::DramaAlreadyCompleted,
        ) && *final(drama) == *old(drama),
        !old(drama).is_completed() ==> *final(drama) == old(drama).advanced(added_duration) && r
            == Ok::<ProgressRecords, DramaError>(
            progress_of(ctx.drama, *old(drama), added_duration),
        ),
        *final(drama) == step(*old(drama), added_duration),
        final(drama).current_duration >= old(drama).current_duration,
        final(drama).node_count >= old(drama).node_count,
        old(drama).is_completed() ==> final(drama).is_completed(),
        r is Ok && final(drama).current_duration >= final(drama).target_duration
            ==> final(drama).is_completed(),
        old(drama).wf() ==> final(drama).wf(),
{
    if drama.is_completed() {
        return Err(DramaError::DramaAlreadyCompleted);
    }
    Ok(advance(ctx.drama, drama, added_duration))
}

/// The one transition of an ongoing drama: accumulates the duration, counts
/// the node, and completes the drama once the target is reached.
pub(crate) fn advance(key: Pubkey, drama: &mut Drama, added_duration: u64) -> (r: ProgressRecords)
    requires
        !old(drama).is_completed(),
    ensures
        *final(drama) == old(drama).advanced(added_duration),
        r == progress_of(key, *old(drama), added_duration),
{
    drama.current_duration = drama.current_duration.saturating_add(added_duration);
    drama.node_count = drama.node_count.saturating_add(1);
    let progress = DramaProgressUpdated {
        drama: key,
        added_duration,
        current_duration: drama.current_duration,
    };
    let mut completed: Option<DramaCompleted> = None;
    if drama.current_duration >= drama.target_duration {
        drama.status = DramaStatus::Completed;
        completed = Some(DramaCompleted { drama: key, final_duration: drama.current_duration });
    }
    ProgressRecords { progress, completed }
}

} // verus!
