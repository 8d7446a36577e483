use vstd::prelude::*;
use anchor_lang::prelude::Pubkey;
use crate::drama_hub::error::DramaError;
use crate::drama_hub::state::{Drama, DramaCreated, DramaStatus};
use crate::text::{byte_len, text_len};

verus! {

/// What a creation request names: the new drama's identity, its creator, and
/// the time of the request.
#[derive(Clone, Copy, Debug, PartialEq, Eq)]
pub struct CreateDrama {
    pub drama: Pubkey,
    pub creator: Pubkey,
    pub bump: u8,
    pub unix_timestamp: i64,
}

/// The reason for which a creation request is refused, if it is.
pub open spec fn rejection(title: Seq<char>, genesis_uri: Seq<char>, target_duration: u64) -> Option<
    DramaError,
> {
    if text_len(title) == 0 {
        Some(DramaError::TitleEmpty)
    } else if text_len(title) > Drama::MAX_TITLE_LEN {
        Some(DramaError::TitleTooLong)
    } else if text_len(genesis_uri) == 0 {
        Some(DramaError::GenesisUriEmpty)
    } else if text_len(genesis_uri) > Drama::MAX_URI_LEN {
        Some(DramaError::GenesisUriTooLong)
    } else if target_duration == 0 {
        Some(DramaError::InvalidTargetDuration)
    } else {
        None
    }
}

/// The drama that an accepted request creates: ongoing, with no progress and
/// no nodes.
pub open spec fn created(
    ctx: CreateDrama,
    title: String,
    genesis_uri: String,
    target_duration: u64,
) -> Drama {
    Drama {
        creator: ctx.creator,
        title: title,
        genesis_uri: genesis_uri,
        target_duration: target_duration,
        current_duration: 0,
        status: DramaStatus::Ongoing,
        node_count: 0,
        created_at: ctx.unix_timestamp,
        bump: ctx.bump,
    }
}

pub fn handler(ctx: &CreateDrama, title: String, genesis_uri: String, target_duration: u64) -> (r:
    Result<(Drama, DramaCreated), DramaError>)
    ensures
        match rejection(title@, genesis_uri@, target_duration) {
            Some(e) => r == Err::<(Drama, DramaCreated), DramaError>(e),
            None => r is Ok && r->Ok_0.0 == created(*ctx, title, genesis_uri, target_duration)
                && r->Ok_0.0.wf() && r->Ok_0.1 == (DramaCreated {
                drama: ctx.drama,
                creator: ctx.creator,
                title: title,
                target_duration: target_duration,
            }),
        },
{
    if byte_len(&title) == 0 {
        return Err(DramaError::TitleEmpty);
    }
    if byte_len(&title) > Drama::MAX_TITLE_LEN {
        return Err(DramaError::TitleTooLong);
    }
    if byte_len(&genesis_uri) == 0 {
        return Err(DramaError::GenesisUriEmpty);
    }
    if byte_len(&genesis_uri) > Drama::MAX_URI_LEN {
        return Err(DramaError::GenesisUriTooLong);
    }
    if target_duration == 0 {
        return Err(DramaError::InvalidTargetDuration);
    }
    let drama = Drama {
        creator: ctx.creator,
        title: title.clone(),
        genesis_uri,
        target_duration,
        current_duration: 0,
        status: DramaStatus::Ongoing,
        node_count: 0,
        created_at: ctx.unix_timestamp,
        bump: ctx.bump,
    };
    let record = DramaCreated { drama: ctx.drama, creator: ctx.creator, title, target_duration };
    Ok((drama, record))
}

} // verus!
