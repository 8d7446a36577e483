//! Drama lifecycle: creation, progress toward the target duration, and the
//! one-way transition to the completed state.

use vstd::prelude::*;
use crate::drama_hub::error::DramaError;
use crate::drama_hub::instructions::complete_drama::CompleteDrama;
use crate::drama_hub::instructions::create_drama::{created, rejection, CreateDrama};
use crate::drama_hub::instructions::update_duration::{progress_of, UpdateDuration};
use crate::drama_hub::state::{Drama, DramaCompleted, DramaCreated, ProgressRecords};

pub mod error;
pub mod instructions;
pub mod lifecycle;
pub mod state;

verus! {

/// Creates a drama.
pub fn create_drama(
    ctx: &CreateDrama,
    title: String,
    genesis_uri: String,
    target_duration: u64,
) -> (r: Result<(Drama, DramaCreated), DramaError>)
    ensures
        match rejection(title@, genesis_uri@, target_duration) {
            Some(e) => r == Err::<(Drama, DramaCreated), DramaError>(e),
            None => r is Ok && r->Ok_0.0 == created(*ctx, title, genesis_uri, target_duration)
                && r->Ok_0.1 == (DramaCreated {
                drama: ctx.drama,
                creator: ctx.creator,
                title: title,
                target_duration: target_duration,
            }),
        },
{
    instructions::create_drama::handler(ctx, title, genesis_uri, target_duration)
}

/// Adds to a drama's accumulated duration.
pub fn update_duration(ctx: &UpdateDuration, drama: &mut Drama, added_duration: u64) -> (r: Result<
    ProgressRecords,
    DramaError,
>)
    ensures
        old(drama).is_completed() ==> r == Err::<ProgressRecords, DramaError>(
            DramaError::DramaAlreadyCompleted,
        ) && *final(drama) == *old(drama),
        !old(drama).is_completed() ==> *final(drama) == old(drama).advanced(added_duration) && r
            == Ok::<ProgressRecords, DramaError>(
            progress_of(ctx.drama, *old(drama), added_duration),
        ),
{
    instructions::update_duration::handler(ctx, drama, added_duration)
}

/// Completes a drama at its creator's request.
pub fn complete_drama(ctx: &CompleteDrama, drama: &mut Drama) -> (r: Result<
    DramaCompleted,
    DramaError,
>)
    ensures
        old(drama).creator != ctx.authority ==> r == Err::<DramaCompleted, DramaError>(
            DramaError::Unauthorized,
        ) && *final(drama) == *old(drama),
        old(drama).creator == ctx.authority && old(drama).is_completed() ==> r == Err::<
            DramaCompleted,
            DramaError,
        >(DramaError::DramaAlreadyCompleted) && *final(drama) == *old(drama),
        old(drama).creator == ctx.authority && !old(drama).is_completed() ==> *final(drama)
            == old(drama).completed() && r == Ok::<DramaCompleted, DramaError>(
            DramaCompleted { drama: ctx.drama, final_duration: old(drama).current_duration },
        ),
{
    instructions::complete_drama::handler(ctx, drama)
}

} // verus!
