//! The requests that the two programs accept, and their wire form: one
//! selector byte, then the payload in its fixed layout.

use crate::codec::{address_at, bool_at, get_address, get_bool, get_u64, u64_at};
use crate::error::PrizeError;
use crate::state::PrizeSchedule;
use vstd::prelude::*;

verus! {

/// Length of a stake request: the selector and two integers.
pub const STAKE_REQUEST_LEN: usize = 17;

/// Length of a request that creates a prize pool: the selector, four
/// integers, three identifiers and two integers.
pub const INIT_CONFIG_REQUEST_LEN: usize = 145;

/// Length of a request that updates a prize pool: as for its creation, with
/// the three claim flags before the window.
pub const UPDATE_CONFIG_REQUEST_LEN: usize = 148;

/// A request to the staking program.
#[derive(Clone, Copy, Debug, PartialEq, Eq, Structural)]
pub enum StakeInstruction {
    /// Lock `stake_amount` tokens for `duration` days. Selector 0.
    Stake { duration: u64, stake_amount: u64 },
    /// Release the reward of the caller's stake. Selector 1.
    Withdraw {  },
    /// Reclaim the balance of the caller's record account. Selector 2.
    Close {  },
}

impl StakeInstruction {
    /// The request that `input` encodes. A stake request is the selector 0
    /// and exactly sixteen bytes of payload; the selectors 1 and 2 take no
    /// payload, and what follows them is not looked at. Anything else is
    /// malformed.
    pub open spec fn spec_unpack(input: Seq<u8>) -> Result<StakeInstruction, PrizeError> {
        if input.len() == 0 {
            Err(PrizeError::MalformedRequest)
        } else if input[0] == 0 {
            if input.len() == STAKE_REQUEST_LEN {
                Ok(
                    StakeInstruction::Stake {
                        duration: u64_at(input, 1),
                        stake_amount: u64_at(input, 9),
                    },
                )
            } else {
                Err(PrizeError::MalformedRequest)
            }
        } else if input[0] == 1 {
            Ok(StakeInstruction::Withdraw {  })
        } else if input[0] == 2 {
            Ok(StakeInstruction::Close {  })
        } else {
            Err(PrizeError::MalformedRequest)
        }
    }

    /// Decodes a request from its wire form.
    pub fn unpack(input: &[u8]) -> (unpacked: Result<StakeInstruction, PrizeError>)
        ensures
            unpacked == StakeInstruction::spec_unpack(input@),
    {
        if input.len() == 0 {
            return Err(PrizeError::MalformedRequest);
        }
        let variant = input[0];
        if variant == 0 {
            if input.len() != STAKE_REQUEST_LEN {
                return Err(PrizeError::MalformedRequest);
            }
            Ok(
                StakeInstruction::Stake {
                    duration: get_u64(input, 1),
                    stake_amount: get_u64(input, 9),
                },
            )
        } else if variant == 1 {
            Ok(StakeInstruction::Withdraw {  })
        } else if variant == 2 {
            Ok(StakeInstruction::Close {  })
        } else {
            Err(PrizeError::MalformedRequest)
        }
    }
}

/// A request to the prize-pool program.
#[derive(Clone, Copy, Debug, PartialEq, Eq)]
pub enum PrizeInstruction {
    /// Create the caller's pool with a schedule. Selector 0.
    InitConfig { schedule: PrizeSchedule },
    /// Overwrite the schedule and the claim flags of the caller's pool.
    /// Selector 1.
    UpdateConfig {
        schedule: PrizeSchedule,
        is_first_claimed: bool,
        is_second_claimed: bool,
        is_third_claimed: bool,
    },
    /// Pay the caller's prize. Selector 2.
    Claim {  },
    /// Reclaim the pool's escrow balance. Selector 3.
    Close {  },
}

/// The schedule stored in `input` behind the selector: four integers and
/// three identifiers, then the window from `window` on.
pub open spec fn schedule_at(input: Seq<u8>, window: int) -> PrizeSchedule {
    PrizeSchedule {
        total_prize: u64_at(input, 1),
        first_prize: u64_at(input, 9),
        second_prize: u64_at(input, 17),
        third_prize: u64_at(input, 25),
        first_account: address_at(input, 33),
        second_account: address_at(input, 65),
        third_account: address_at(input, 97),
        start_time: u64_at(input, window),
        end_time: u64_at(input, window + 8),
    }
}

fn get_schedule(input: &[u8], window: usize) -> (schedule: PrizeSchedule)
    requires
        129 <= window,
        window + 16 <= input@.len() <= usize::MAX,
    ensures
        schedule == schedule_at(input@, window as int),
{
    PrizeSchedule {
        total_prize: get_u64(input, 1),
        first_prize: get_u64(input, 9),
        second_prize: get_u64(input, 17),
        third_prize: get_u64(input, 25),
        first_account: get_address(input, 33),
        second_account: get_address(input, 65),
        third_account: get_address(input, 97),
        start_time: get_u64(input, window),
        end_time: get_u64(input, window + 8),
    }
}

impl PrizeInstruction {
    /// The request that `input` encodes. The creation of a pool is the
    /// selector 0 and exactly 144 bytes of payload; an update is the selector
    /// 1 and exactly 147 bytes, whose three flag bytes are each 0 or 1; the
    /// selectors 2 and 3 take no payload, and what follows them is not looked
    /// at. Anything else is malformed.
    pub open spec fn spec_unpack(input: Seq<u8>) -> Result<PrizeInstruction, PrizeError> {
        if input.len() == 0 {
            Err(PrizeError::MalformedRequest)
        } else if input[0] == 0 {
            if input.len() == INIT_CONFIG_REQUEST_LEN {
                Ok(PrizeInstruction::InitConfig { schedule: schedule_at(input, 129) })
            } else {
                Err(PrizeError::MalformedRequest)
            }
        } else if input[0] == 1 {
            if input.len() == UPDATE_CONFIG_REQUEST_LEN {
                match (bool_at(input, 129), bool_at(input, 130), bool_at(input, 131)) {
                    (Some(is_first_claimed), Some(is_second_claimed), Some(is_third_claimed)) => Ok(
                        PrizeInstruction::UpdateConfig {
                            schedule: schedule_at(input, 132),
                            is_first_claimed,
                            is_second_claimed,
                            is_third_claimed,
                        },
                    ),
                    _ => Err(PrizeError::MalformedRequest),
                }
            } else {
                Err(PrizeError::MalformedRequest)
            }
        } else if input[0] == 2 {
            Ok(PrizeInstruction::Claim {  })
        } else if input[0] == 3 {
            Ok(PrizeInstruction::Close {  })
        } else {
            Err(PrizeError::MalformedRequest)
        }
    }

    /// Decodes a request from its wire form.
    pub fn unpack(input: &[u8]) -> (unpacked: Result<PrizeInstruction, PrizeError>)
        ensures
            unpacked == PrizeInstruction::spec_unpack(input@),
    {
        if input.len() == 0 {
            return Err(PrizeError::MalformedRequest);
        }
        let variant = input[0];
        if variant == 0 {
            if input.len() != INIT_CONFIG_REQUEST_LEN {
                return Err(PrizeError::MalformedRequest);
            }
            Ok(PrizeInstruction::InitConfig { schedule: get_schedule(input, 129) })
        } else if variant == 1 {
            if input.len() != UPDATE_CONFIG_REQUEST_LEN {
                return Err(PrizeError::MalformedRequest);
            }
            let is_first_claimed = match get_bool(input, 129) {
                Some(flag) => flag,
                None => { return Err(PrizeError::MalformedRequest); },
            };
            let is_second_claimed = match get_bool(input, 130) {
                Some(flag) => flag,
                None => { return Err(PrizeError::MalformedRequest); },
            };
            let is_third_claimed = match get_bool(input, 131) {
                Some(flag) => flag,
                None => { return Err(PrizeError::MalformedRequest); },
            };
            Ok(
                PrizeInstruction::UpdateConfig {
                    schedule: get_schedule(input, 132),
                    is_first_claimed,
                    is_second_claimed,
                    is_third_claimed,
                },
            )
        } else if variant == 2 {
            Ok(PrizeInstruction::Claim {  })
        } else if variant == 3 {
            Ok(PrizeInstruction::Close {  })
        } else {
            Err(PrizeError::MalformedRequest)
        }
    }
}

} // verus!
