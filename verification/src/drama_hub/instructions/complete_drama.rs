use vstd::prelude::*;
use anchor_lang::prelude::Pubkey;
use crate::drama_hub::error::DramaError;
use crate::drama_hub::state::{Drama, DramaCompleted, DramaStatus};
use crate::keys::same_key;

verus! {

/// What a completion request names: the drama and the caller, who must be
/// the drama's creator.
#[derive(Clone, Copy, Debug, PartialEq, Eq)]
pub struct CompleteDrama {
    pub drama: Pubkey,
    pub authority: Pubkey,
}

pub fn handler(ctx: &CompleteDrama, drama: &mut Drama) -> (r: Result<DramaCompleted, DramaError>)
    ensures
        old(drama).creator != ctx.authority ==> r == Err::<DramaCompleted, DramaError>(
            DramaError::Unauthorized,
        ) && *final(drama) == *old(drama),
        old(drama).creator == ctx.authority && old(drama).is_completed() ==> r == Err::<
            DramaCompleted,
            DramaError,
        >(DramaError::DramaAlreadyCompleted) && *final(drama) == *old(drama),
        old(drama).creator == ctx.authority && !old(drama).is_completed() ==> *final(drama)
            == old(drama).completed() && r == Ok::<DramaCompleted, DramaError>(
            DramaCompleted { drama: ctx.drama, final_duration: old(drama).current_duration },
        ),
        old(drama).wf() ==> final(drama).wf(),
{
    if !same_key(&drama.creator, &ctx.authority) {
        return Err(DramaError::Unauthorized);
    }
    if drama.is_completed() {
        return Err(DramaError::DramaAlreadyCompleted);
    }
    drama.status = DramaStatus::Completed;
    Ok(DramaCompleted { drama: ctx.drama, final_duration: drama.current_duration })
}

} // verus!
