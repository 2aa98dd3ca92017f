//! The farm over any run of calls. The reserve holds what was put in, less
//! what was paid as reward and what was taken out, so the farm never pays
//! more reward than it was given. And the farm stays sound: it starts before
//! it ends, and the product of its reward rates stays above zero.

use crate::errors::Error;
use crate::farm::{
    create_farm_check, deposit_rewards_spec, issuance_callback_spec, modify_end_ts_spec,
    modify_rewards_spec, modify_start_ts_spec, withdraw_rewards_spec, FarmModuleView,
};
use crate::rewards::claim_rewards_endpoint_spec;
use crate::staking::{stake_spec, unstake_spec};
use crate::structs::{EgldOrEsdtTokenPaymentView, EsdtTokenPaymentView};
use vstd::prelude::*;

verus! {

/// A call on the farm, with all that it is given and all that it asks of the
/// admin list and the pause gate.
pub enum FarmCall {
    CreateFarm {
        current_ts_ms: u64,
        egld_transferred: nat,
        start_ts_ms: u64,
        end_ts_ms: u64,
        reward_per_sec: nat,
        reward_per_share: nat,
    },
    IssuanceCallback {
        staked_token: Option<Seq<u8>>,
        reward_token: Option<Seq<u8>>,
        start_ts_ms: u64,
        end_ts_ms: u64,
        reward_per_sec: nat,
        reward_per_share: nat,
        result: Option<Seq<u8>>,
    },
    ModifyStartTs { is_admin: bool, current_ts_ms: u64, new_start_ts_ms: u64 },
    ModifyEndTs { is_admin: bool, current_ts_ms: u64, new_end_ts_ms: u64 },
    ModifyRewards {
        is_admin: bool,
        current_ts_ms: u64,
        new_reward_per_sec: nat,
        new_reward_per_share: nat,
    },
    DepositRewards { is_admin: bool, token: Option<Seq<u8>>, amount: nat },
    WithdrawRewards { is_admin: bool, amount: nat },
    ClaimRewards {
        paused: bool,
        caller: Seq<u8>,
        timestamp_ms: u64,
        share_transfers: Seq<EsdtTokenPaymentView>,
    },
    Stake {
        paused: bool,
        caller: Seq<u8>,
        timestamp_ms: u64,
        transfers: Seq<EgldOrEsdtTokenPaymentView>,
    },
    Unstake {
        paused: bool,
        caller: Seq<u8>,
        timestamp_ms: u64,
        share_transfers: Seq<EsdtTokenPaymentView>,
        opt_unstake_amount: Option<nat>,
    },
}

/// The farm that a granted call leaves, or the farm as it was.
pub open spec fn farm_or<T>(outcome: Result<(FarmModuleView, T), Error>, farm: FarmModuleView)
    -> FarmModuleView {
    match outcome {
        Ok((after, _)) => after,
        Err(_) => farm,
    }
}

/// The farm after a call. A call that is refused leaves it as it was.
pub open spec fn farm_after(farm: FarmModuleView, call: FarmCall) -> FarmModuleView {
    match call {
        FarmCall::CreateFarm {
            current_ts_ms,
            egld_transferred,
            start_ts_ms,
            end_ts_ms,
            reward_per_sec,
            reward_per_share,
        } => if create_farm_check(
            farm,
            current_ts_ms,
            egld_transferred,
            start_ts_ms,
            end_ts_ms,
            reward_per_sec,
            reward_per_share,
        ) is Ok {
            FarmModuleView::Pending
        } else {
            farm
        },
        FarmCall::IssuanceCallback {
            staked_token,
            reward_token,
            start_ts_ms,
            end_ts_ms,
            reward_per_sec,
            reward_per_share,
            result,
        } => match issuance_callback_spec(
            farm,
            staked_token,
            reward_token,
            start_ts_ms,
            end_ts_ms,
            reward_per_sec,
            reward_per_share,
            result,
        ) {
            Ok(after) => after,
            Err(_) => farm,
        },
        FarmCall::ModifyStartTs { is_admin, current_ts_ms, new_start_ts_ms } => {
            match modify_start_ts_spec(farm, is_admin, current_ts_ms, new_start_ts_ms) {
                Ok(after) => after,
                Err(_) => farm,
            }
        },
        FarmCall::ModifyEndTs { is_admin, current_ts_ms, new_end_ts_ms } => {
            match modify_end_ts_spec(farm, is_admin, current_ts_ms, new_end_ts_ms) {
                Ok(after) => after,
                Err(_) => farm,
            }
        },
        FarmCall::ModifyRewards {
            is_admin,
            current_ts_ms,
            new_reward_per_sec,
            new_reward_per_share,
        } => match modify_rewards_spec(
            farm,
            is_admin,
            current_ts_ms,
            new_reward_per_sec,
            new_reward_per_share,
        ) {
            Ok(after) => after,
            Err(_) => farm,
        },
        FarmCall::DepositRewards { is_admin, token, amount } => match deposit_rewards_spec(
            farm,
            is_admin,
            token,
            amount,
        ) {
            Ok(after) => after,
            Err(_) => farm,
        },
        FarmCall::WithdrawRewards { is_admin, amount } => match withdraw_rewards_spec(
            farm,
            is_admin,
            amount,
        ) {
            Ok(after) => after,
            Err(_) => farm,
        },
        FarmCall::ClaimRewards { paused, caller, timestamp_ms, share_transfers } => farm_or(
            claim_rewards_endpoint_spec(paused, farm, caller, timestamp_ms, share_transfers),
            farm,
        ),
        FarmCall::Stake { paused, caller, timestamp_ms, transfers } => farm_or(
            stake_spec(paused, farm, caller, timestamp_ms, transfers),
            farm,
        ),
        FarmCall::Unstake {
            paused,
            caller,
            timestamp_ms,
            share_transfers,
            opt_unstake_amount,
        } => farm_or(
            unstake_spec(paused, farm, caller, timestamp_ms, share_transfers, opt_unstake_amount),
            farm,
        ),
    }
}

/// The reward that a call pays to the account that claims, stakes or
/// unstakes.
pub open spec fn reward_paid(farm: FarmModuleView, call: FarmCall) -> nat {
    match call {
        FarmCall::ClaimRewards { paused, caller, timestamp_ms, share_transfers } => {
            match claim_rewards_endpoint_spec(paused, farm, caller, timestamp_ms, share_transfers) {
                Ok((_, receipt)) => receipt.reward.amount,
                Err(_) => 0,
            }
        },
        FarmCall::Stake { paused, caller, timestamp_ms, transfers } => match stake_spec(
            paused,
            farm,
            caller,
            timestamp_ms,
            transfers,
        ) {
            Ok((_, receipt)) => match receipt.reward {
                Some(payment) => payment.amount,
                None => 0,
            },
            Err(_) => 0,
        },
        FarmCall::Unstake {
            paused,
            caller,
            timestamp_ms,
            share_transfers,
            opt_unstake_amount,
        } => {
            match unstake_spec(
                paused,
                farm,
                caller,
                timestamp_ms,
                share_transfers,
                opt_unstake_amount,
            ) {
                Ok((_, receipt)) => receipt.reward.amount,
                Err(_) => 0,
            }
        },
        _ => 0,
    }
}

/// What a call puts into the reserve.
pub open spec fn reward_deposited(farm: FarmModuleView, call: FarmCall) -> nat {
    match call {
        FarmCall::DepositRewards { is_admin, token, amount } => if deposit_rewards_spec(
            farm,
            is_admin,
            token,
            amount,
        ) is Ok {
            amount
        } else {
            0
        },
        _ => 0,
    }
}

/// What a call takes out of the reserve for an admin.
pub open spec fn reward_withdrawn(farm: FarmModuleView, call: FarmCall) -> nat {
    match call {
        FarmCall::WithdrawRewards { is_admin, amount } => if withdraw_rewards_spec(
            farm,
            is_admin,
            amount,
        ) is Ok {
            amount
        } else {
            0
        },
        _ => 0,
    }
}

/// The farm after a run of calls.
pub open spec fn farm_after_all(farm: FarmModuleView, calls: Seq<FarmCall>) -> FarmModuleView
    decreases calls.len(),
{
    if calls.len() == 0 {
        farm
    } else {
        farm_after(farm_after_all(farm, calls.drop_last()), calls.last())
    }
}

/// The reward that a run of calls pays.
pub open spec fn total_paid(farm: FarmModuleView, calls: Seq<FarmCall>) -> nat
    decreases calls.len(),
{
    if calls.len() == 0 {
        0
    } else {
        total_paid(farm, calls.drop_last()) + reward_paid(
            farm_after_all(farm, calls.drop_last()),
            calls.last(),
        )
    }
}

/// What a run of calls puts into the reserve.
pub open spec fn total_deposited(farm: FarmModuleView, calls: Seq<FarmCall>) -> nat
    decreases calls.len(),
{
    if calls.len() == 0 {
        0
    } else {
        total_deposited(farm, calls.drop_last()) + reward_deposited(
            farm_after_all(farm, calls.drop_last()),
            calls.last(),
        )
    }
}

/// What a run of calls takes out of the reserve for admins.
pub open spec fn total_withdrawn(farm: FarmModuleView, calls: Seq<FarmCall>) -> nat
    decreases calls.len(),
{
    if calls.len() == 0 {
        0
    } else {
        total_withdrawn(farm, calls.drop_last()) + reward_withdrawn(
            farm_after_all(farm, calls.drop_last()),
            calls.last(),
        )
    }
}

/// One call changes the reserve by what it puts in, less what it pays and
/// what it takes out; and it pays and takes out no more than the reserve
/// holds.
pub proof fn lemma_call_keeps_balance(farm: FarmModuleView, call: FarmCall)
    ensures
        farm_after(farm, call).reserve() + reward_paid(farm, call) + reward_withdrawn(farm, call)
            == farm.reserve() + reward_deposited(farm, call),
        reward_paid(farm, call) + reward_withdrawn(farm, call) <= farm.reserve(),
{
}

/// After any run of calls, the reserve holds what it held before and what the
/// run put in, less what the run paid as reward and took out.
pub proof fn lemma_reserve_balance(farm: FarmModuleView, calls: Seq<FarmCall>)
    ensures
        farm_after_all(farm, calls).reserve() + total_paid(farm, calls) + total_withdrawn(
            farm,
            calls,
        ) == farm.reserve() + total_deposited(farm, calls),
    decreases calls.len(),
{
    if calls.len() > 0 {
        lemma_reserve_balance(farm, calls.drop_last());
        lemma_call_keeps_balance(farm_after_all(farm, calls.drop_last()), calls.last());
    }
}

/// Solvency: a farm that starts with an empty reserve never pays more reward
/// than was deposited, whatever is called on it and in whatever order.
pub proof fn lemma_paid_at_most_deposited(farm: FarmModuleView, calls: Seq<FarmCall>)
    requires
        farm.reserve() == 0,
    ensures
        total_paid(farm, calls) <= total_deposited(farm, calls),
        total_paid(farm, calls) + total_withdrawn(farm, calls) + farm_after_all(
            farm,
            calls,
        ).reserve() == total_deposited(farm, calls),
{
    lemma_reserve_balance(farm, calls);
}

/// Whether the answer to an issuance, if the call is one, hands back what a
/// granted creation asked for: a start before the end, and reward rates whose
/// product is above zero.
pub open spec fn replays_granted_settings(call: FarmCall) -> bool {
    call matches FarmCall::IssuanceCallback {
        start_ts_ms,
        end_ts_ms,
        reward_per_sec,
        reward_per_share,
        ..
    } ==> start_ts_ms < end_ts_ms && reward_per_sec * reward_per_share > 0
}

/// What a granted creation asks for is what [`replays_granted_settings`]
/// expects to come back.
pub proof fn lemma_granted_creation_asks_for_sound_settings(
    farm: FarmModuleView,
    current_ts_ms: u64,
    egld_transferred: nat,
    start_ts_ms: u64,
    end_ts_ms: u64,
    reward_per_sec: nat,
    reward_per_share: nat,
)
    requires
        create_farm_check(
            farm,
            current_ts_ms,
            egld_transferred,
            start_ts_ms,
            end_ts_ms,
            reward_per_sec,
            reward_per_share,
        ) is Ok,
    ensures
        start_ts_ms < end_ts_ms,
        reward_per_sec * reward_per_share > 0,
{
}

/// One call keeps a farm sound: it still starts before it ends, and the
/// product of its reward rates is still above zero.
pub proof fn lemma_call_keeps_farm_sound(farm: FarmModuleView, call: FarmCall)
    requires
        farm.is_sound(),
        replays_granted_settings(call),
    ensures
        farm_after(farm, call).is_sound(),
{
}

/// Any run of calls keeps a farm sound, where each answer to an issuance
/// hands back what a granted creation asked for.
pub proof fn lemma_run_keeps_farm_sound(farm: FarmModuleView, calls: Seq<FarmCall>)
    requires
        farm.is_sound(),
        forall|i: int| 0 <= i < calls.len() ==> replays_granted_settings(#[trigger] calls[i]),
    ensures
        farm_after_all(farm, calls).is_sound(),
    decreases calls.len(),
{
    if calls.len() > 0 {
        let front = calls.drop_last();
        assert forall|i: int| 0 <= i < front.len() implies replays_granted_settings(
            #[trigger] front[i],
        ) by {
            assert(front[i] == calls[i]);
        }
        lemma_run_keeps_farm_sound(farm, front);
        assert(calls.last() == calls[calls.len() - 1]);
        lemma_call_keeps_farm_sound(farm_after_all(farm, front), calls.last());
    }
}

} // verus!
