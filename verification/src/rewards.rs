//! What share tokens earn, and the claim that pays it: the reward of each
//! share token grows with the whole seconds since it was last settled.

use crate::biguint::BigUint;
use crate::errors::Error;
use crate::farm::{FarmModule, FarmModuleView};
use crate::pause::PauseModule;
use crate::structs::{
    decoded_attributes, lemma_attributes_round_trip, share_tokens_clone, u64_be_bytes, Address,
    DirectPayment, DirectPaymentView, EsdtTokenPayment, EsdtTokenPaymentView, Farm, FarmView,
    ShareToken, ShareTokenAttributes, ShareTokenMergedData, ShareTokenMergedDataView,
    ShareTokenMergedDataWithBurns, ShareTokenMergedDataWithBurnsView, ShareTokenMint,
    ShareTokenMintView, ShareTokenView,
};
use vstd::prelude::*;

verus! {

/// The whole seconds from `update_ts_ms` to `timestamp_ms`, both in
/// milliseconds: none where `timestamp_ms` is not the later. What is left of
/// a second is dropped.
pub open spec fn rewarded_seconds(timestamp_ms: u64, update_ts_ms: u64) -> nat {
    if timestamp_ms > update_ts_ms {
        ((timestamp_ms - update_ts_ms) / 1000) as nat
    } else {
        0
    }
}

/// What `amount` share tokens earn in `seconds` seconds, rounded down.
pub open spec fn reward_for(
    reward_per_sec: nat,
    seconds: nat,
    amount: nat,
    reward_per_share: nat,
) -> nat {
    (reward_per_sec * seconds * amount / reward_per_share) as nat
}

/// What [`RewardsModule::calculate_reward`] returns: the reward of `amount`
/// share tokens whose stored attributes are `attributes`, at `timestamp_ms`.
/// Attributes that do not decode are refused, and so is a farm whose
/// `reward_per_share` is zero.
pub open spec fn calculate_reward_spec(
    farm: FarmView,
    attributes: Seq<u8>,
    amount: nat,
    timestamp_ms: u64,
) -> Result<ShareTokenMergedDataView, Error> {
    match decoded_attributes(attributes) {
        Err(e) => Err(e),
        Ok(decoded) => if farm.reward_per_share == 0 {
            Err(Error::WrongRewardValues)
        } else {
            Ok(
                ShareTokenMergedDataView {
                    update_ts_ms: timestamp_ms,
                    token_supply: amount,
                    reward_amount: reward_for(
                        farm.reward_per_sec,
                        rewarded_seconds(timestamp_ms, decoded.update_ts_ms),
                        amount,
                        farm.reward_per_share,
                    ),
                },
            )
        },
    }
}

/// The reward of one transfer. Where `check_token` is set, a transfer of
/// another token than the farm's share token is refused.
pub open spec fn transfer_reward(
    farm: FarmView,
    transfer: EsdtTokenPaymentView,
    timestamp_ms: u64,
    check_token: bool,
) -> Result<ShareTokenMergedDataView, Error> {
    if check_token && transfer.token_identifier != farm.share_token {
        Err(Error::InvalidShareToken)
    } else {
        calculate_reward_spec(farm, transfer.attributes, transfer.amount, timestamp_ms)
    }
}

/// Whether transfer `i` is the first that is refused.
pub open spec fn is_first_refused(
    farm: FarmView,
    transfers: Seq<EsdtTokenPaymentView>,
    timestamp_ms: u64,
    check_token: bool,
    i: int,
) -> bool {
    &&& 0 <= i < transfers.len()
    &&& transfer_reward(farm, transfers[i], timestamp_ms, check_token) is Err
    &&& forall|j: int|
        0 <= j < i ==> (#[trigger] transfer_reward(farm, transfers[j], timestamp_ms, check_token))
            is Ok
}

/// The sum of the amounts of the transfers.
pub open spec fn total_supply(transfers: Seq<EsdtTokenPaymentView>) -> nat
    decreases transfers.len(),
{
    if transfers.len() == 0 {
        0
    } else {
        total_supply(transfers.drop_last()) + transfers.last().amount
    }
}

/// The sum of the rewards of the transfers; a refused transfer earns nothing.
pub open spec fn total_reward(
    farm: FarmView,
    transfers: Seq<EsdtTokenPaymentView>,
    timestamp_ms: u64,
    check_token: bool,
) -> nat
    decreases transfers.len(),
{
    if transfers.len() == 0 {
        0
    } else {
        let before = total_reward(farm, transfers.drop_last(), timestamp_ms, check_token);
        match transfer_reward(farm, transfers.last(), timestamp_ms, check_token) {
            Ok(data) => before + data.reward_amount,
            Err(_) => before,
        }
    }
}

/// The share tokens to burn for the transfers: each with its whole amount, in
/// the order of the transfers.
pub open spec fn burns_of(transfers: Seq<EsdtTokenPaymentView>) -> Seq<ShareTokenView> {
    Seq::new(
        transfers.len(),
        |i: int| ShareTokenView { nonce: transfers[i].token_nonce, amount: transfers[i].amount },
    )
}

/// The transfers settled together: where none is refused, their summed
/// supply, their summed reward and the share tokens to burn; else the refusal
/// of the first that is refused.
pub open spec fn settled(
    farm: FarmView,
    transfers: Seq<EsdtTokenPaymentView>,
    timestamp_ms: u64,
    check_token: bool,
) -> Result<ShareTokenMergedDataWithBurnsView, Error> {
    if exists|i: int| is_first_refused(farm, transfers, timestamp_ms, check_token, i) {
        let i = choose|i: int| is_first_refused(farm, transfers, timestamp_ms, check_token, i);
        Err(transfer_reward(farm, transfers[i], timestamp_ms, check_token)->Err_0)
    } else {
        Ok(
            ShareTokenMergedDataWithBurnsView {
                update_ts_ms: timestamp_ms,
                token_supply: total_supply(transfers),
                reward_amount: total_reward(farm, transfers, timestamp_ms, check_token),
                token_burns: burns_of(transfers),
            },
        )
    }
}

/// What [`RewardsModule::prepare_rewards_and_burns`] returns: without a farm
/// there is no share token; with one, the transfers settled together, each
/// held to be the farm's share token.
pub open spec fn prepare_rewards_and_burns_spec(
    farm: FarmModuleView,
    transfers: Seq<EsdtTokenPaymentView>,
    timestamp_ms: u64,
) -> Result<ShareTokenMergedDataWithBurnsView, Error> {
    match farm {
        FarmModuleView::Created(created) => settled(created, transfers, timestamp_ms, true),
        _ => Err(Error::InvalidTokenId),
    }
}

/// The claim: the transfers are settled together; the reward must be above
/// zero and the reserve must hold it. The reserve then holds that much less.
pub open spec fn claim_rewards_spec(
    farm: FarmModuleView,
    transfers: Seq<EsdtTokenPaymentView>,
    timestamp_ms: u64,
) -> Result<(FarmModuleView, ShareTokenMergedDataWithBurnsView), Error> {
    match prepare_rewards_and_burns_spec(farm, transfers, timestamp_ms) {
        Err(e) => Err(e),
        Ok(data) => if data.reward_amount == 0 {
            Err(Error::NoRewardsApplicable)
        } else if farm.reserve() < data.reward_amount {
            Err(Error::NotEnoughRewards)
        } else {
            Ok(
                (
                    FarmModuleView::Created(
                        FarmView {
                            rewards_reserve: (farm.reserve() - data.reward_amount) as nat,
                            ..farm->0
                        },
                    ),
                    data,
                ),
            )
        },
    }
}

/// The reward is a function of the supply, the whole seconds that passed,
/// and the two rates alone: two share tokens of one supply, for which as many
/// seconds passed, under the same rates, earn the same, whenever they were
/// settled and whenever they claim. The supply comes back as it was.
pub proof fn lemma_reward_is_a_function_of_elapsed_seconds(
    farm: FarmView,
    other_farm: FarmView,
    attributes: Seq<u8>,
    other_attributes: Seq<u8>,
    amount: nat,
    timestamp_ms: u64,
    other_timestamp_ms: u64,
)
    requires
        farm.reward_per_sec == other_farm.reward_per_sec,
        farm.reward_per_share == other_farm.reward_per_share,
        farm.reward_per_share > 0,
        decoded_attributes(attributes) matches Ok(decoded) && decoded_attributes(other_attributes)
            matches Ok(other_decoded) && rewarded_seconds(timestamp_ms, decoded.update_ts_ms)
            == rewarded_seconds(other_timestamp_ms, other_decoded.update_ts_ms),
    ensures
        calculate_reward_spec(farm, attributes, amount, timestamp_ms) matches Ok(data)
            && calculate_reward_spec(other_farm, other_attributes, amount, other_timestamp_ms)
            matches Ok(other_data) && data.reward_amount == other_data.reward_amount
            && data.token_supply == amount && other_data.token_supply == amount,
{
}

/// No time has passed for a share token that was settled at the time of the
/// claim or later, and it earns nothing.
pub proof fn lemma_nothing_earned_before_settlement(
    farm: FarmView,
    update_ts_ms: u64,
    amount: nat,
    timestamp_ms: u64,
)
    requires
        timestamp_ms <= update_ts_ms,
        farm.reward_per_share > 0,
    ensures
        rewarded_seconds(timestamp_ms, update_ts_ms) == 0,
        calculate_reward_spec(farm, u64_be_bytes(update_ts_ms), amount, timestamp_ms) == Ok::<
            ShareTokenMergedDataView,
            Error,
        >(
            ShareTokenMergedDataView {
                update_ts_ms: timestamp_ms,
                token_supply: amount,
                reward_amount: 0,
            },
        ),
{
    lemma_attributes_round_trip(ShareTokenAttributes { update_ts_ms });
    assert(farm.reward_per_sec * 0 * amount == 0) by (nonlinear_arith);
}

/// Where some transfer is refused, the settlement of all is refused.
pub proof fn lemma_refused_transfer_refuses_all(
    farm: FarmView,
    transfers: Seq<EsdtTokenPaymentView>,
    timestamp_ms: u64,
    check_token: bool,
    i: int,
)
    requires
        0 <= i < transfers.len(),
        transfer_reward(farm, transfers[i], timestamp_ms, check_token) is Err,
    ensures
        settled(farm, transfers, timestamp_ms, check_token) is Err,
    decreases i,
{
    if forall|j: int|
        0 <= j < i ==> (#[trigger] transfer_reward(farm, transfers[j], timestamp_ms, check_token))
            is Ok {
        assert(is_first_refused(farm, transfers, timestamp_ms, check_token, i));
    } else {
        let j = choose|j: int|
            0 <= j < i && (#[trigger] transfer_reward(
                farm,
                transfers[j],
                timestamp_ms,
                check_token,
            )) is Err;
        lemma_refused_transfer_refuses_all(farm, transfers, timestamp_ms, check_token, j);
    }
}

/// A claim with a transfer of another token than the farm's share token is
/// refused, whatever else comes with it.
pub proof fn lemma_foreign_transfer_refuses_claim(
    paused: bool,
    farm: FarmModuleView,
    caller: Seq<u8>,
    timestamp_ms: u64,
    transfers: Seq<EsdtTokenPaymentView>,
    i: int,
)
    requires
        0 <= i < transfers.len(),
        farm matches FarmModuleView::Created(created) ==> transfers[i].token_identifier
            != created.share_token,
    ensures
        claim_rewards_spec(farm, transfers, timestamp_ms) is Err,
        claim_rewards_endpoint_spec(paused, farm, caller, timestamp_ms, transfers) is Err,
{
    if farm is Created {
        lemma_refused_transfer_refuses_all(farm->0, transfers, timestamp_ms, true, i);
    }
}

/// What [`ClaimedRewards`] holds, as plain values.
pub struct ClaimedRewardsView {
    pub data: ShareTokenMergedDataWithBurnsView,
    pub payment: DirectPaymentView,
}

/// A claim that was granted: what was settled, with the share tokens to burn,
/// and the reward to pay.
#[derive(Debug, PartialEq, Eq)]
pub struct ClaimedRewards {
    pub data: ShareTokenMergedDataWithBurns,
    pub payment: DirectPayment,
}

impl View for ClaimedRewards {
    type V = ClaimedRewardsView;

    open spec fn view(&self) -> ClaimedRewardsView {
        ClaimedRewardsView { data: self.data@, payment: self.payment@ }
    }
}

impl Clone for ClaimedRewards {
    fn clone(&self) -> (copy: ClaimedRewards)
        ensures
            copy@ == self@,
    {
        ClaimedRewards { data: self.data.clone(), payment: self.payment.clone() }
    }
}

/// What a granted claim says: the settlement, and the reward in the farm's
/// reward asset for `caller`.
pub open spec fn claimed_rewards(
    farm: FarmModuleView,
    caller: Seq<u8>,
    data: ShareTokenMergedDataWithBurnsView,
) -> ClaimedRewardsView {
    ClaimedRewardsView {
        data,
        payment: DirectPaymentView {
            to: caller,
            token_identifier: farm->0.reward_token,
            amount: data.reward_amount,
        },
    }
}

/// What [`ClaimReceipt`] holds, as plain values.
pub struct ClaimReceiptView {
    pub token_burns: Seq<ShareTokenView>,
    pub reward: DirectPaymentView,
    pub share_token: ShareTokenMintView,
}

/// What is to be done after a claim: the share tokens to burn, the reward to
/// pay, and the one share token to create in their place.
#[derive(Debug, PartialEq, Eq)]
pub struct ClaimReceipt {
    pub token_burns: Vec<ShareToken>,
    pub reward: DirectPayment,
    pub share_token: ShareTokenMint,
}

impl View for ClaimReceipt {
    type V = ClaimReceiptView;

    open spec fn view(&self) -> ClaimReceiptView {
        ClaimReceiptView {
            token_burns: self.token_burns.deep_view(),
            reward: self.reward@,
            share_token: self.share_token@,
        }
    }
}

impl Clone for ClaimReceipt {
    fn clone(&self) -> (copy: ClaimReceipt)
        ensures
            copy@ == self@,
    {
        ClaimReceipt {
            token_burns: share_tokens_clone(&self.token_burns),
            reward: self.reward.clone(),
            share_token: self.share_token.clone(),
        }
    }
}

/// The claim of an account: refused while the farm is paused; else
/// [`claim_rewards_spec`], and one share token of the summed supply, settled
/// at `timestamp_ms`, for `caller`.
pub open spec fn claim_rewards_endpoint_spec(
    paused: bool,
    farm: FarmModuleView,
    caller: Seq<u8>,
    timestamp_ms: u64,
    transfers: Seq<EsdtTokenPaymentView>,
) -> Result<(FarmModuleView, ClaimReceiptView), Error> {
    if paused {
        Err(Error::Paused)
    } else {
        match claim_rewards_spec(farm, transfers, timestamp_ms) {
            Err(e) => Err(e),
            Ok((after, data)) => Ok(
                (
                    after,
                    ClaimReceiptView {
                        token_burns: data.token_burns,
                        reward: claimed_rewards(farm, caller, data).payment,
                        share_token: ShareTokenMintView {
                            to: caller,
                            amount: data.token_supply,
                            attributes: u64_be_bytes(timestamp_ms),
                        },
                    },
                ),
            ),
        }
    }
}

/// Settles the transfers together, as [`settled`] says.
fn settle(
    farm: &Farm,
    transfers: &Vec<EsdtTokenPayment>,
    timestamp_ms: u64,
    check_token: bool,
) -> (merged: Result<ShareTokenMergedDataWithBurns, Error>)
    ensures
        match merged {
            Ok(data) => settled(farm@, transfers.deep_view(), timestamp_ms, check_token) == Ok::<
                ShareTokenMergedDataWithBurnsView,
                Error,
            >(data@),
            Err(e) => settled(farm@, transfers.deep_view(), timestamp_ms, check_token) == Err::<
                ShareTokenMergedDataWithBurnsView,
                Error,
            >(e),
        },
{
    let ghost list = transfers.deep_view();
    let mut total_rewards_amount: BigUint = BigUint::zero();
    let mut total_token_supply: BigUint = BigUint::zero();
    let mut share_tokens: Vec<ShareToken> = Vec::new();
    let mut i: usize = 0;
    proof {
        assert(share_tokens.deep_view() =~= burns_of(list.take(0)));
    }
    while i < transfers.len()
        invariant
            i <= transfers.len(),
            list == transfers.deep_view(),
            forall|j: int|
                0 <= j < i ==> (#[trigger] transfer_reward(
                    farm@,
                    list[j],
                    timestamp_ms,
                    check_token,
                )) is Ok,
            total_rewards_amount@ == total_reward(
                farm@,
                list.take(i as int),
                timestamp_ms,
                check_token,
            ),
            total_token_supply@ == total_supply(list.take(i as int)),
            share_tokens.deep_view() == burns_of(list.take(i as int)),
        decreases transfers.len() - i,
    {
        let transfer: &EsdtTokenPayment = &transfers[i];
        proof {
            assert(list[i as int] == transfer@);
            assert(list.take(i + 1).drop_last() =~= list.take(i as int));
            assert(list.take(i + 1).last() == list[i as int]);
        }
        let outcome: Result<ShareTokenMergedData, Error> = if check_token
            && !transfer.token_identifier.equals(&farm.share_token) {
            Err(Error::InvalidShareToken)
        } else {
            RewardsModule::calculate_reward(
                farm,
                &transfer.attributes,
                &transfer.amount,
                timestamp_ms,
            )
        };
        match outcome {
            Err(e) => {
                proof {
                    assert(is_first_refused(farm@, list, timestamp_ms, check_token, i as int));
                    let k = choose|k: int|
                        is_first_refused(farm@, list, timestamp_ms, check_token, k);
                    assert(k == i);
                }
                return Err(e);
            },
            Ok(data) => {
                let ghost before = share_tokens.deep_view();
                total_rewards_amount = total_rewards_amount.add(&data.reward_amount);
                total_token_supply = total_token_supply.add(&data.token_supply);
                share_tokens.push(
                    ShareToken { nonce: transfer.token_nonce, amount: transfer.amount.clone() },
                );
                proof {
                    assert(share_tokens.deep_view() =~= before.push(
                        ShareTokenView { nonce: transfer.token_nonce, amount: transfer.amount@ },
                    ));
                    assert(share_tokens.deep_view() =~= burns_of(list.take(i + 1)));
                }
            },
        }
        i = i + 1;
    }
    proof {
        assert(list.take(transfers.len() as int) =~= list);
        assert(!exists|k: int| is_first_refused(farm@, list, timestamp_ms, check_token, k));
    }
    Ok(
        ShareTokenMergedDataWithBurns {
            update_ts_ms: timestamp_ms,
            token_supply: total_token_supply,
            reward_amount: total_rewards_amount,
            token_burns: share_tokens,
        },
    )
}

/// The rewards of the farm.
pub struct RewardsModule;

impl RewardsModule {
    /// The attributes that the stored bytes of a share token stand for.
    pub fn get_share_token_attributes(attributes: &Vec<u8>) -> (decoded: Result<
        ShareTokenAttributes,
        Error,
    >)
        ensures
            decoded == decoded_attributes(attributes@),
    {
        ShareTokenAttributes::top_decode(attributes)
    }

    /// The bytes to store with a share token that is settled at
    /// `update_ts_ms`.
    pub fn attributes_to_buffer(update_ts_ms: u64) -> (attributes: Vec<u8>)
        ensures
            attributes@ == u64_be_bytes(update_ts_ms),
    {
        let share_token_attributes = ShareTokenAttributes { update_ts_ms };
        share_token_attributes.top_encode()
    }

    /// The reward that `amount` share tokens with the stored `attributes`
    /// have earned at `timestamp_ms`, as [`calculate_reward_spec`] says.
    /// Nothing changes.
    pub fn calculate_reward(
        farm: &Farm,
        attributes: &Vec<u8>,
        amount: &BigUint,
        timestamp_ms: u64,
    ) -> (merged: Result<ShareTokenMergedData, Error>)
        ensures
            match merged {
                Ok(data) => calculate_reward_spec(farm@, attributes@, amount@, timestamp_ms)
                    == Ok::<ShareTokenMergedDataView, Error>(data@),
                Err(e) => calculate_reward_spec(farm@, attributes@, amount@, timestamp_ms)
                    == Err::<ShareTokenMergedDataView, Error>(e),
            },
    {
        let share_token_attributes: ShareTokenAttributes = Self::get_share_token_attributes(
            attributes,
        )?;
        let rewarded_seconds: u64 = if timestamp_ms > share_token_attributes.update_ts_ms {
            (timestamp_ms - share_token_attributes.update_ts_ms) / 1000
        } else {
            0
        };
        let earned: BigUint = farm.reward_per_sec.mul(&BigUint::from_u64(rewarded_seconds)).mul(
            amount,
        );
        match earned.checked_div(&farm.reward_per_share) {
            Some(reward_amount) => Ok(
                ShareTokenMergedData {
                    update_ts_ms: timestamp_ms,
                    token_supply: amount.clone(),
                    reward_amount,
                },
            ),
            None => Err(Error::WrongRewardValues),
        }
    }

    /// The reward that the share tokens have earned together at
    /// `current_timestamp_ms`. Which token a transfer names is not looked at.
    /// Nothing changes.
    pub fn get_claimable_rewards(
        farm: &Farm,
        share_tokens: &Vec<EsdtTokenPayment>,
        current_timestamp_ms: u64,
    ) -> (rewards: Result<BigUint, Error>)
        ensures
            match rewards {
                Ok(amount) => settled(
                    farm@,
                    share_tokens.deep_view(),
                    current_timestamp_ms,
                    false,
                ) is Ok && amount@ == total_reward(
                    farm@,
                    share_tokens.deep_view(),
                    current_timestamp_ms,
                    false,
                ),
                Err(e) => settled(farm@, share_tokens.deep_view(), current_timestamp_ms, false)
                    == Err::<ShareTokenMergedDataWithBurnsView, Error>(e),
            },
    {
        match settle(farm, share_tokens, current_timestamp_ms, false) {
            Ok(data) => Ok(data.reward_amount),
            Err(e) => Err(e),
        }
    }

    /// Settles the share tokens that came with a call, as
    /// [`prepare_rewards_and_burns_spec`] says. Nothing changes.
    pub fn prepare_rewards_and_burns(
        farm: &FarmModule,
        share_token_transfers: &Vec<EsdtTokenPayment>,
        timestamp_ms: u64,
    ) -> (merged: Result<ShareTokenMergedDataWithBurns, Error>)
        ensures
            match merged {
                Ok(data) => prepare_rewards_and_burns_spec(
                    farm@,
                    share_token_transfers.deep_view(),
                    timestamp_ms,
                ) == Ok::<ShareTokenMergedDataWithBurnsView, Error>(data@),
                Err(e) => prepare_rewards_and_burns_spec(
                    farm@,
                    share_token_transfers.deep_view(),
                    timestamp_ms,
                ) == Err::<ShareTokenMergedDataWithBurnsView, Error>(e),
            },
    {
        match farm {
            FarmModule::Created(created) => settle(
                created,
                share_token_transfers,
                timestamp_ms,
                true,
            ),
            _ => Err(Error::InvalidTokenId),
        }
    }

    /// Decides on the claim of `caller` and changes nothing: the result of a
    /// granted claim, and what the reserve holds once it is paid.
    pub(crate) fn grant_claim(
        farm: &FarmModule,
        caller: &Address,
        current_timestamp_ms: u64,
        transfers: &Vec<EsdtTokenPayment>,
    ) -> (claimed: Result<(ClaimedRewards, BigUint), Error>)
        ensures
            match claimed {
                Ok((granted, rest)) => {
                    &&& claim_rewards_spec(farm@, transfers.deep_view(), current_timestamp_ms)
                        matches Ok((after, data))
                    &&& data == granted.data@
                    &&& granted@ == claimed_rewards(farm@, caller@, data)
                    &&& rest@ == after.reserve()
                },
                Err(e) => claim_rewards_spec(farm@, transfers.deep_view(), current_timestamp_ms)
                    == Err::<(FarmModuleView, ShareTokenMergedDataWithBurnsView), Error>(e),
            },
    {
        let token_merged_data: ShareTokenMergedDataWithBurns = Self::prepare_rewards_and_burns(
            farm,
            transfers,
            current_timestamp_ms,
        )?;
        if token_merged_data.reward_amount.is_zero() {
            return Err(Error::NoRewardsApplicable);
        }
        match farm {
            FarmModule::Created(created) => {
                match created.rewards_reserve.checked_sub(&token_merged_data.reward_amount) {
                    Some(rest) => {
                        let payment = DirectPayment {
                            to: caller.clone(),
                            token_identifier: created.reward_token.clone(),
                            amount: token_merged_data.reward_amount.clone(),
                        };
                        Ok((ClaimedRewards { data: token_merged_data, payment }, rest))
                    },
                    None => Err(Error::NotEnoughRewards),
                }
            },
            _ => Err(Error::InvalidTokenId),
        }
    }

    /// Leaves `rest` in the reserve of the farm.
    pub(crate) fn leave_in_reserve(farm: &mut FarmModule, rest: BigUint)
        requires
            old(farm)@ is Created,
        ensures
            final(farm)@ == FarmModuleView::Created(
                FarmView { rewards_reserve: rest@, ..old(farm)@->0 },
            ),
    {
        match farm {
            FarmModule::Created(created) => {
                created.rewards_reserve = rest;
            },
            _ => {},
        }
    }

    /// Grants the claim of `caller` for the share tokens that came with the
    /// call, as [`claim_rewards_spec`] says: the reserve pays the reward, and
    /// the result names the share tokens to burn and the reward to pay. On a
    /// refusal nothing changes.
    pub fn claim_rewards(
        farm: &mut FarmModule,
        caller: &Address,
        current_timestamp_ms: u64,
        transfers: &Vec<EsdtTokenPayment>,
    ) -> (claimed: Result<ClaimedRewards, Error>)
        ensures
            match claimed {
                Ok(granted) => claim_rewards_spec(
                    old(farm)@,
                    transfers.deep_view(),
                    current_timestamp_ms,
                ) == Ok::<(FarmModuleView, ShareTokenMergedDataWithBurnsView), Error>(
                    (final(farm)@, granted.data@),
                ) && granted@ == claimed_rewards(old(farm)@, caller@, granted.data@),
                Err(e) => claim_rewards_spec(
                    old(farm)@,
                    transfers.deep_view(),
                    current_timestamp_ms,
                ) == Err::<(FarmModuleView, ShareTokenMergedDataWithBurnsView), Error>(e)
                    && final(farm)@ == old(farm)@,
            },
    {
        let (granted, rest) = Self::grant_claim(farm, caller, current_timestamp_ms, transfers)?;
        Self::leave_in_reserve(farm, rest);
        Ok(granted)
    }

    /// The claim of `caller`, as [`claim_rewards_endpoint_spec`] says: the
    /// share tokens that came with the call are burned, their reward is paid,
    /// and one share token of their summed supply takes their place. On a
    /// refusal nothing changes.
    pub fn claim_rewards_endpoint(
        pause: &PauseModule,
        farm: &mut FarmModule,
        caller: &Address,
        current_timestamp_ms: u64,
        transfers: &Vec<EsdtTokenPayment>,
    ) -> (receipt: Result<ClaimReceipt, Error>)
        ensures
            match receipt {
                Ok(r) => claim_rewards_endpoint_spec(
                    pause.paused,
                    old(farm)@,
                    caller@,
                    current_timestamp_ms,
                    transfers.deep_view(),
                ) == Ok::<(FarmModuleView, ClaimReceiptView), Error>((final(farm)@, r@)),
                Err(e) => claim_rewards_endpoint_spec(
                    pause.paused,
                    old(farm)@,
                    caller@,
                    current_timestamp_ms,
                    transfers.deep_view(),
                ) == Err::<(FarmModuleView, ClaimReceiptView), Error>(e) && final(farm)@ == old(
                    farm,
                )@,
            },
    {
        pause.require_not_paused()?;
        let granted: ClaimedRewards = Self::claim_rewards(
            farm,
            caller,
            current_timestamp_ms,
            transfers,
        )?;
        let share_token = ShareTokenMint {
            to: caller.clone(),
            amount: granted.data.token_supply,
            attributes: Self::attributes_to_buffer(current_timestamp_ms),
        };
        Ok(
            ClaimReceipt {
                token_burns: granted.data.token_burns,
                reward: granted.payment,
                share_token,
            },
        )
    }
}

} // verus!
