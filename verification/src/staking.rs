//! Staking and unstaking: what comes with a call is told apart into the one
//! transfer of the staked asset and the share tokens; share tokens that come
//! along are settled first and merged into the one share token that leaves.

use crate::biguint::BigUint;
use crate::errors::Error;
use crate::farm::{FarmModule, FarmModuleView};
use crate::pause::PauseModule;
use crate::rewards::{
    burns_of, claim_rewards_spec, claimed_rewards, lemma_foreign_transfer_refuses_claim,
    total_supply, RewardsModule,
};
use crate::structs::{
    bytes_clone, decoded_attributes, lemma_attributes_round_trip, share_tokens_clone, u64_be_bytes,
    Address, DirectPayment, DirectPaymentView, EgldOrEsdtTokenIdentifier, EgldOrEsdtTokenPayment,
    EgldOrEsdtTokenPaymentView, EsdtTokenPayment, EsdtTokenPaymentView, ShareToken,
    ShareTokenAttributes, ShareTokenMint, ShareTokenMintView, ShareTokenView, TokenIdentifier,
};
use vstd::prelude::*;

verus! {

/// Whether the transfer is one of the staked asset.
pub open spec fn is_staking_transfer(
    transfer: EgldOrEsdtTokenPaymentView,
    staked_token: Option<Seq<u8>>,
) -> bool {
    transfer.token_identifier == staked_token
}

/// Whether the transfer is one of the share token and not of the staked asset.
pub open spec fn is_share_transfer(
    transfer: EgldOrEsdtTokenPaymentView,
    staked_token: Option<Seq<u8>>,
    share_token: Seq<u8>,
) -> bool {
    !is_staking_transfer(transfer, staked_token) && transfer.token_identifier == Some(share_token)
}

/// Why transfer `i` is refused, if it is: it is a second transfer of the
/// staked asset, or it is neither of the staked asset nor of the share token.
pub open spec fn transfer_refusal(
    transfers: Seq<EgldOrEsdtTokenPaymentView>,
    staked_token: Option<Seq<u8>>,
    share_token: Seq<u8>,
    i: int,
) -> Option<Error> {
    if is_staking_transfer(transfers[i], staked_token) {
        if exists|j: int| 0 <= j < i && is_staking_transfer(#[trigger] transfers[j], staked_token) {
            Some(Error::OnlyOneStakingTransferAllowed)
        } else {
            None
        }
    } else if transfers[i].token_identifier == Some(share_token) {
        None
    } else {
        Some(Error::InvalidShareToken)
    }
}

/// Whether transfer `i` is the first that is refused.
pub open spec fn is_first_refused_transfer(
    transfers: Seq<EgldOrEsdtTokenPaymentView>,
    staked_token: Option<Seq<u8>>,
    share_token: Seq<u8>,
    i: int,
) -> bool {
    &&& 0 <= i < transfers.len()
    &&& transfer_refusal(transfers, staked_token, share_token, i) is Some
    &&& forall|j: int|
        0 <= j < i ==> (#[trigger] transfer_refusal(transfers, staked_token, share_token, j))
            is None
}

/// A transfer of the share token, as a transfer of an issued token.
pub open spec fn as_share_transfer(
    transfer: EgldOrEsdtTokenPaymentView,
    share_token: Seq<u8>,
) -> EsdtTokenPaymentView {
    EsdtTokenPaymentView {
        token_identifier: share_token,
        token_nonce: transfer.token_nonce,
        amount: transfer.amount,
        attributes: transfer.attributes,
    }
}

/// The transfers of the share token among `transfers`, in their order.
pub open spec fn share_transfers_of(
    transfers: Seq<EgldOrEsdtTokenPaymentView>,
    staked_token: Option<Seq<u8>>,
    share_token: Seq<u8>,
) -> Seq<EsdtTokenPaymentView>
    decreases transfers.len(),
{
    if transfers.len() == 0 {
        Seq::empty()
    } else {
        let before = share_transfers_of(transfers.drop_last(), staked_token, share_token);
        if is_share_transfer(transfers.last(), staked_token, share_token) {
            before.push(as_share_transfer(transfers.last(), share_token))
        } else {
            before
        }
    }
}

/// What [`StakingModule::split_transfers`] returns: the refusal of the first
/// transfer that is refused; else, where no transfer is of the staked asset,
/// that it is missing; else that one transfer and the transfers of the share
/// token.
pub open spec fn split_transfers_spec(
    transfers: Seq<EgldOrEsdtTokenPaymentView>,
    staked_token: Option<Seq<u8>>,
    share_token: Seq<u8>,
) -> Result<(EgldOrEsdtTokenPaymentView, Seq<EsdtTokenPaymentView>), Error> {
    if exists|i: int| is_first_refused_transfer(transfers, staked_token, share_token, i) {
        let i = choose|i: int| is_first_refused_transfer(transfers, staked_token, share_token, i);
        Err(transfer_refusal(transfers, staked_token, share_token, i)->Some_0)
    } else if exists|i: int|
        0 <= i < transfers.len() && is_staking_transfer(#[trigger] transfers[i], staked_token) {
        let i = choose|i: int|
            0 <= i < transfers.len() && is_staking_transfer(#[trigger] transfers[i], staked_token);
        Ok((transfers[i], share_transfers_of(transfers, staked_token, share_token)))
    } else {
        Err(Error::StakedTokenMissing)
    }
}

/// What [`StakeReceipt`] holds, as plain values.
pub struct StakeReceiptView {
    pub staked_amount: nat,
    pub token_burns: Seq<ShareTokenView>,
    pub reward: Option<DirectPaymentView>,
    pub share_token: ShareTokenMintView,
}

/// What is to be done after a stake: the share tokens to burn, the reward to
/// pay for them, if any came along, and the one share token to create.
#[derive(Debug, PartialEq, Eq)]
pub struct StakeReceipt {
    pub staked_amount: BigUint,
    pub token_burns: Vec<ShareToken>,
    pub reward: Option<DirectPayment>,
    pub share_token: ShareTokenMint,
}

impl View for StakeReceipt {
    type V = StakeReceiptView;

    open spec fn view(&self) -> StakeReceiptView {
        StakeReceiptView {
            staked_amount: self.staked_amount@,
            token_burns: self.token_burns.deep_view(),
            reward: match self.reward {
                Some(payment) => Some(payment@),
                None => None,
            },
            share_token: self.share_token@,
        }
    }
}

impl Clone for StakeReceipt {
    fn clone(&self) -> (copy: StakeReceipt)
        ensures
            copy@ == self@,
    {
        StakeReceipt {
            staked_amount: self.staked_amount.clone(),
            token_burns: share_tokens_clone(&self.token_burns),
            reward: match &self.reward {
                Some(payment) => Some(payment.clone()),
                None => None,
            },
            share_token: self.share_token.clone(),
        }
    }
}

/// What [`UnstakeReceipt`] holds, as plain values.
pub struct UnstakeReceiptView {
    pub token_burns: Seq<ShareTokenView>,
    pub reward: DirectPaymentView,
    pub share_token_supply: nat,
    pub share_token: Option<ShareTokenMintView>,
    pub unstaked: DirectPaymentView,
}

/// What is to be done after an unstake: the share tokens to burn, the reward
/// to pay for them, the share token to create for what stays staked, if
/// anything stays, and the staked asset to pay back. `share_token_supply` is
/// the supply of the share tokens that came with the call.
#[derive(Debug, PartialEq, Eq)]
pub struct UnstakeReceipt {
    pub token_burns: Vec<ShareToken>,
    pub reward: DirectPayment,
    pub share_token_supply: BigUint,
    pub share_token: Option<ShareTokenMint>,
    pub unstaked: DirectPayment,
}

impl View for UnstakeReceipt {
    type V = UnstakeReceiptView;

    open spec fn view(&self) -> UnstakeReceiptView {
        UnstakeReceiptView {
            token_burns: self.token_burns.deep_view(),
            reward: self.reward@,
            share_token_supply: self.share_token_supply@,
            share_token: match self.share_token {
                Some(mint) => Some(mint@),
                None => None,
            },
            unstaked: self.unstaked@,
        }
    }
}

impl Clone for UnstakeReceipt {
    fn clone(&self) -> (copy: UnstakeReceipt)
        ensures
            copy@ == self@,
    {
        UnstakeReceipt {
            token_burns: share_tokens_clone(&self.token_burns),
            reward: self.reward.clone(),
            share_token_supply: self.share_token_supply.clone(),
            share_token: match &self.share_token {
                Some(mint) => Some(mint.clone()),
                None => None,
            },
            unstaked: self.unstaked.clone(),
        }
    }
}

/// The stake of an account: refused while the farm is paused and before the
/// farm is created. The transfers are told apart; the amount of the staked
/// asset must be above zero. Share tokens that came along are claimed for,
/// and their supply is added to the new share token.
pub open spec fn stake_spec(
    paused: bool,
    farm: FarmModuleView,
    caller: Seq<u8>,
    timestamp_ms: u64,
    transfers: Seq<EgldOrEsdtTokenPaymentView>,
) -> Result<(FarmModuleView, StakeReceiptView), Error> {
    if paused {
        Err(Error::Paused)
    } else {
        match farm {
            FarmModuleView::Created(created) => match split_transfers_spec(
                transfers,
                created.staked_token,
                created.share_token,
            ) {
                Err(e) => Err(e),
                Ok((staking_transfer, share_transfers)) => if staking_transfer.amount == 0 {
                    Err(Error::ZeroAmount)
                } else if share_transfers.len() == 0 {
                    Ok(
                        (
                            farm,
                            StakeReceiptView {
                                staked_amount: staking_transfer.amount,
                                token_burns: Seq::empty(),
                                reward: None,
                                share_token: ShareTokenMintView {
                                    to: caller,
                                    amount: staking_transfer.amount,
                                    attributes: u64_be_bytes(timestamp_ms),
                                },
                            },
                        ),
                    )
                } else {
                    match claim_rewards_spec(farm, share_transfers, timestamp_ms) {
                        Err(e) => Err(e),
                        Ok((after, data)) => Ok(
                            (
                                after,
                                StakeReceiptView {
                                    staked_amount: staking_transfer.amount,
                                    token_burns: data.token_burns,
                                    reward: Some(claimed_rewards(farm, caller, data).payment),
                                    share_token: ShareTokenMintView {
                                        to: caller,
                                        amount: staking_transfer.amount + data.token_supply,
                                        attributes: u64_be_bytes(timestamp_ms),
                                    },
                                },
                            ),
                        ),
                    }
                },
            },
            _ => Err(Error::InvalidTokenId),
        }
    }
}

/// The unstake of an account: refused while the farm is paused. The share
/// tokens that came with the call are claimed for. Their whole supply is
/// unstaked, or `opt_unstake_amount` of it, which must not be more; for what
/// stays staked a new share token is created.
pub open spec fn unstake_spec(
    paused: bool,
    farm: FarmModuleView,
    caller: Seq<u8>,
    timestamp_ms: u64,
    transfers: Seq<EsdtTokenPaymentView>,
    opt_unstake_amount: Option<nat>,
) -> Result<(FarmModuleView, UnstakeReceiptView), Error> {
    if paused {
        Err(Error::Paused)
    } else {
        match claim_rewards_spec(farm, transfers, timestamp_ms) {
            Err(e) => Err(e),
            Ok((after, data)) => {
                let unstake_amount = match opt_unstake_amount {
                    Some(amount) => amount,
                    None => data.token_supply,
                };
                if unstake_amount > data.token_supply {
                    Err(Error::UnstakeAmountExceeds)
                } else {
                    Ok(
                        (
                            after,
                            UnstakeReceiptView {
                                token_burns: data.token_burns,
                                reward: claimed_rewards(farm, caller, data).payment,
                                share_token_supply: data.token_supply,
                                share_token: if data.token_supply > unstake_amount {
                                    Some(
                                        ShareTokenMintView {
                                            to: caller,
                                            amount: (data.token_supply - unstake_amount) as nat,
                                            attributes: u64_be_bytes(timestamp_ms),
                                        },
                                    )
                                } else {
                                    None
                                },
                                unstaked: DirectPaymentView {
                                    to: caller,
                                    token_identifier: farm->0.staked_token,
                                    amount: unstake_amount,
                                },
                            },
                        ),
                    )
                }
            },
        }
    }
}

/// Where some transfer is refused, telling the transfers apart is refused.
pub proof fn lemma_refused_transfer_refuses_split(
    transfers: Seq<EgldOrEsdtTokenPaymentView>,
    staked_token: Option<Seq<u8>>,
    share_token: Seq<u8>,
    i: int,
)
    requires
        0 <= i < transfers.len(),
        transfer_refusal(transfers, staked_token, share_token, i) is Some,
    ensures
        split_transfers_spec(transfers, staked_token, share_token) is Err,
    decreases i,
{
    if forall|j: int|
        0 <= j < i ==> (#[trigger] transfer_refusal(transfers, staked_token, share_token, j))
            is None {
        assert(is_first_refused_transfer(transfers, staked_token, share_token, i));
    } else {
        let j = choose|j: int|
            0 <= j < i && (#[trigger] transfer_refusal(transfers, staked_token, share_token, j))
                is Some;
        lemma_refused_transfer_refuses_split(transfers, staked_token, share_token, j);
    }
}

/// A stake with a transfer that is neither of the staked asset nor of the
/// share token is refused, whatever else comes with it.
pub proof fn lemma_foreign_transfer_refuses_stake(
    paused: bool,
    farm: FarmModuleView,
    caller: Seq<u8>,
    timestamp_ms: u64,
    transfers: Seq<EgldOrEsdtTokenPaymentView>,
    i: int,
)
    requires
        0 <= i < transfers.len(),
        farm matches FarmModuleView::Created(created) ==> transfers[i].token_identifier
            != created.staked_token && transfers[i].token_identifier != Some(created.share_token),
    ensures
        stake_spec(paused, farm, caller, timestamp_ms, transfers) is Err,
{
    if farm is Created {
        lemma_refused_transfer_refuses_split(
            transfers,
            farm->0.staked_token,
            farm->0.share_token,
            i,
        );
    }
}

/// An unstake with a transfer of another token than the farm's share token
/// is refused, whatever else comes with it.
pub proof fn lemma_foreign_transfer_refuses_unstake(
    paused: bool,
    farm: FarmModuleView,
    caller: Seq<u8>,
    timestamp_ms: u64,
    transfers: Seq<EsdtTokenPaymentView>,
    opt_unstake_amount: Option<nat>,
    i: int,
)
    requires
        0 <= i < transfers.len(),
        farm matches FarmModuleView::Created(created) ==> transfers[i].token_identifier
            != created.share_token,
    ensures
        unstake_spec(paused, farm, caller, timestamp_ms, transfers, opt_unstake_amount) is Err,
{
    lemma_foreign_transfer_refuses_claim(paused, farm, caller, timestamp_ms, transfers, i);
}

/// A stake merges: the one share token that it creates holds the staked
/// amount and the whole supply of the share tokens that came along, and each
/// of those is burned with its whole amount.
pub proof fn lemma_stake_merges_share_tokens(
    paused: bool,
    farm: FarmModuleView,
    caller: Seq<u8>,
    timestamp_ms: u64,
    transfers: Seq<EgldOrEsdtTokenPaymentView>,
)
    requires
        stake_spec(paused, farm, caller, timestamp_ms, transfers) is Ok,
    ensures
        ({
            let receipt = stake_spec(paused, farm, caller, timestamp_ms, transfers)->Ok_0.1;
            let split = split_transfers_spec(
                transfers,
                farm->0.staked_token,
                farm->0.share_token,
            )->Ok_0;
            &&& receipt.staked_amount == split.0.amount
            &&& receipt.share_token.amount == split.0.amount + total_supply(split.1)
            &&& receipt.share_token.to == caller
            &&& decoded_attributes(receipt.share_token.attributes) == Ok::<
                ShareTokenAttributes,
                Error,
            >(ShareTokenAttributes { update_ts_ms: timestamp_ms })
            &&& receipt.token_burns == burns_of(split.1)
        }),
{
    lemma_attributes_round_trip(ShareTokenAttributes { update_ts_ms: timestamp_ms });
    let split = split_transfers_spec(transfers, farm->0.staked_token, farm->0.share_token)->Ok_0;
    if split.1.len() == 0 {
        assert(burns_of(split.1) =~= Seq::<ShareTokenView>::empty());
    }
}

/// An unstake of less than the supply that came with the call leaves one
/// share token with the rest; an unstake of the whole supply leaves none. The
/// share tokens that came with the call are burned with their whole amounts.
pub proof fn lemma_unstake_leaves_the_rest(
    paused: bool,
    farm: FarmModuleView,
    caller: Seq<u8>,
    timestamp_ms: u64,
    transfers: Seq<EsdtTokenPaymentView>,
    unstake_amount: nat,
)
    requires
        unstake_spec(paused, farm, caller, timestamp_ms, transfers, Some(unstake_amount)) is Ok,
    ensures
        ({
            let receipt = unstake_spec(
                paused,
                farm,
                caller,
                timestamp_ms,
                transfers,
                Some(unstake_amount),
            )->Ok_0.1;
            let supply = total_supply(transfers);
            &&& receipt.share_token_supply == supply
            &&& unstake_amount <= supply
            &&& receipt.unstaked.amount == unstake_amount
            &&& receipt.token_burns == burns_of(transfers)
            &&& unstake_amount < supply ==> receipt.share_token == Some(
                ShareTokenMintView {
                    to: caller,
                    amount: (supply - unstake_amount) as nat,
                    attributes: u64_be_bytes(timestamp_ms),
                },
            )
            &&& unstake_amount == supply ==> receipt.share_token is None
        }),
{
}

/// An unstake without an amount unstakes the whole supply that came with the
/// call and leaves no share token.
pub proof fn lemma_unstake_of_all_leaves_nothing(
    paused: bool,
    farm: FarmModuleView,
    caller: Seq<u8>,
    timestamp_ms: u64,
    transfers: Seq<EsdtTokenPaymentView>,
)
    requires
        unstake_spec(paused, farm, caller, timestamp_ms, transfers, None) is Ok,
    ensures
        ({
            let receipt = unstake_spec(paused, farm, caller, timestamp_ms, transfers, None)->Ok_0.1;
            &&& receipt.unstaked.amount == total_supply(transfers)
            &&& receipt.share_token is None
        }),
{
}

/// An unstake of more than the supply that came with the call is refused.
pub proof fn lemma_unstake_of_too_much_is_refused(
    paused: bool,
    farm: FarmModuleView,
    caller: Seq<u8>,
    timestamp_ms: u64,
    transfers: Seq<EsdtTokenPaymentView>,
    unstake_amount: nat,
)
    requires
        unstake_amount > total_supply(transfers),
    ensures
        unstake_spec(paused, farm, caller, timestamp_ms, transfers, Some(unstake_amount)) is Err,
{
}

/// Staking and unstaking.
pub struct StakingModule;

impl StakingModule {
    /// Tells the transfers that came with a call apart, as
    /// [`split_transfers_spec`] says.
    pub fn split_transfers(
        transfers: &Vec<EgldOrEsdtTokenPayment>,
        staked_token: &EgldOrEsdtTokenIdentifier,
        share_token: &TokenIdentifier,
    ) -> (split: Result<(EgldOrEsdtTokenPayment, Vec<EsdtTokenPayment>), Error>)
        ensures
            match split {
                Ok((staking_transfer, share_transfers)) => split_transfers_spec(
                    transfers.deep_view(),
                    staked_token@,
                    share_token@,
                ) == Ok::<(EgldOrEsdtTokenPaymentView, Seq<EsdtTokenPaymentView>), Error>(
                    (staking_transfer@, share_transfers.deep_view()),
                ),
                Err(e) => split_transfers_spec(transfers.deep_view(), staked_token@, share_token@)
                    == Err::<(EgldOrEsdtTokenPaymentView, Seq<EsdtTokenPaymentView>), Error>(e),
            },
    {
        let ghost list = transfers.deep_view();
        let ghost mut found: int = 0;
        let mut staking_transfer: Option<EgldOrEsdtTokenPayment> = None;
        let mut share_transfers: Vec<EsdtTokenPayment> = Vec::new();
        let mut i: usize = 0;
        proof {
            assert(share_transfers.deep_view() =~= share_transfers_of(
                list.take(0),
                staked_token@,
                share_token@,
            ));
        }
        while i < transfers.len()
            invariant
                i <= transfers.len(),
                list == transfers.deep_view(),
                forall|j: int|
                    0 <= j < i ==> (#[trigger] transfer_refusal(
                        list,
                        staked_token@,
                        share_token@,
                        j,
                    )) is None,
                match staking_transfer {
                    Some(payment) => 0 <= found < i && payment@ == list[found]
                        && is_staking_transfer(list[found], staked_token@),
                    None => forall|j: int|
                        0 <= j < i ==> !is_staking_transfer(#[trigger] list[j], staked_token@),
                },
                share_transfers.deep_view() == share_transfers_of(
                    list.take(i as int),
                    staked_token@,
                    share_token@,
                ),
            decreases transfers.len() - i,
        {
            let transfer: &EgldOrEsdtTokenPayment = &transfers[i];
            proof {
                assert(list[i as int] == transfer@);
                assert(list.take(i + 1).drop_last() =~= list.take(i as int));
                assert(list.take(i + 1).last() == list[i as int]);
            }
            if transfer.token_identifier.equals(staked_token) {
                if staking_transfer.is_some() {
                    proof {
                        assert(is_staking_transfer(list[found], staked_token@));
                        assert(is_first_refused_transfer(
                            list,
                            staked_token@,
                            share_token@,
                            i as int,
                        ));
                        let k = choose|k: int|
                            is_first_refused_transfer(list, staked_token@, share_token@, k);
                        assert(k == i);
                    }
                    return Err(Error::OnlyOneStakingTransferAllowed);
                }
                staking_transfer = Some(transfer.clone());
                proof {
                    found = i as int;
                }
            } else if transfer.token_identifier.is_esdt(share_token) {
                let ghost before = share_transfers.deep_view();
                let share_transfer = EsdtTokenPayment {
                    token_identifier: share_token.clone(),
                    token_nonce: transfer.token_nonce,
                    amount: transfer.amount.clone(),
                    attributes: bytes_clone(&transfer.attributes),
                };
                proof {
                    assert(share_transfer@ == as_share_transfer(list[i as int], share_token@));
                }
                share_transfers.push(share_transfer);
                proof {
                    assert(share_transfers.deep_view() =~= before.push(
                        as_share_transfer(list[i as int], share_token@),
                    ));
                }
            } else {
                proof {
                    assert(is_first_refused_transfer(list, staked_token@, share_token@, i as int));
                    let k = choose|k: int|
                        is_first_refused_transfer(list, staked_token@, share_token@, k);
                    assert(k == i);
                }
                return Err(Error::InvalidShareToken);
            }
            i = i + 1;
        }
        proof {
            assert(list.take(transfers.len() as int) =~= list);
            assert(!exists|k: int|
                is_first_refused_transfer(list, staked_token@, share_token@, k));
        }
        match staking_transfer {
            Some(payment) => {
                proof {
                    let k = choose|k: int|
                        0 <= k < list.len() && is_staking_transfer(
                            #[trigger] list[k],
                            staked_token@,
                        );
                    assert(is_staking_transfer(list[found], staked_token@));
                    if k < found {
                        assert(transfer_refusal(list, staked_token@, share_token@, found) is None);
                    }
                    if found < k {
                        assert(transfer_refusal(list, staked_token@, share_token@, k) is None);
                    }
                    assert(k == found);
                }
                Ok((payment, share_transfers))
            },
            None => Err(Error::StakedTokenMissing),
        }
    }

    /// Stakes for `caller` what came with the call, as [`stake_spec`] says.
    /// On a refusal nothing changes.
    pub fn stake(
        pause: &PauseModule,
        farm: &mut FarmModule,
        caller: &Address,
        current_timestamp_ms: u64,
        transfers: &Vec<EgldOrEsdtTokenPayment>,
    ) -> (receipt: Result<StakeReceipt, Error>)
        ensures
            match receipt {
                Ok(r) => stake_spec(
                    pause.paused,
                    old(farm)@,
                    caller@,
                    current_timestamp_ms,
                    transfers.deep_view(),
                ) == Ok::<(FarmModuleView, StakeReceiptView), Error>((final(farm)@, r@)),
                Err(e) => stake_spec(
                    pause.paused,
                    old(farm)@,
                    caller@,
                    current_timestamp_ms,
                    transfers.deep_view(),
                ) == Err::<(FarmModuleView, StakeReceiptView), Error>(e) && final(farm)@ == old(
                    farm,
                )@,
            },
    {
        pause.require_not_paused()?;
        let split: Result<(EgldOrEsdtTokenPayment, Vec<EsdtTokenPayment>), Error> = match farm {
            FarmModule::Created(created) => Self::split_transfers(
                transfers,
                &created.staked_token,
                &created.share_token,
            ),
            _ => Err(Error::InvalidTokenId),
        };
        let (staking_transfer, share_transfers) = split?;
        if staking_transfer.amount.is_zero() {
            return Err(Error::ZeroAmount);
        }
        let mut new_staked_amount: BigUint = staking_transfer.amount.clone();
        let mut token_burns: Vec<ShareToken> = Vec::new();
        let mut reward: Option<DirectPayment> = None;
        if share_transfers.len() > 0 {
            let granted = RewardsModule::claim_rewards(
                farm,
                caller,
                current_timestamp_ms,
                &share_transfers,
            )?;
            new_staked_amount = new_staked_amount.add(&granted.data.token_supply);
            token_burns = granted.data.token_burns;
            reward = Some(granted.payment);
        }
        let share_token = ShareTokenMint {
            to: caller.clone(),
            amount: new_staked_amount,
            attributes: RewardsModule::attributes_to_buffer(current_timestamp_ms),
        };
        let receipt = StakeReceipt {
            staked_amount: staking_transfer.amount,
            token_burns,
            reward,
            share_token,
        };
        proof {
            if share_transfers.len() == 0 {
                assert(receipt@.token_burns =~= Seq::<ShareTokenView>::empty());
            }
        }
        Ok(receipt)
    }

    /// Unstakes for `caller` from the share tokens that came with the call,
    /// as [`unstake_spec`] says. On a refusal nothing changes.
    pub fn unstake(
        pause: &PauseModule,
        farm: &mut FarmModule,
        caller: &Address,
        current_timestamp_ms: u64,
        transfers: &Vec<EsdtTokenPayment>,
        opt_unstake_amount: Option<BigUint>,
    ) -> (receipt: Result<UnstakeReceipt, Error>)
        ensures
            match receipt {
                Ok(r) => unstake_spec(
                    pause.paused,
                    old(farm)@,
                    caller@,
                    current_timestamp_ms,
                    transfers.deep_view(),
                    amount_view(opt_unstake_amount),
                ) == Ok::<(FarmModuleView, UnstakeReceiptView), Error>((final(farm)@, r@)),
                Err(e) => unstake_spec(
                    pause.paused,
                    old(farm)@,
                    caller@,
                    current_timestamp_ms,
                    transfers.deep_view(),
                    amount_view(opt_unstake_amount),
                ) == Err::<(FarmModuleView, UnstakeReceiptView), Error>(e) && final(farm)@ == old(
                    farm,
                )@,
            },
    {
        pause.require_not_paused()?;
        let (granted, rest) = RewardsModule::grant_claim(
            farm,
            caller,
            current_timestamp_ms,
            transfers,
        )?;
        let unstake_amount: BigUint = match opt_unstake_amount {
            Some(amount) => amount,
            None => granted.data.token_supply.clone(),
        };
        let staying: BigUint = match granted.data.token_supply.checked_sub(&unstake_amount) {
            Some(staying) => staying,
            None => {
                return Err(Error::UnstakeAmountExceeds);
            },
        };
        let staked_token: EgldOrEsdtTokenIdentifier = match farm {
            FarmModule::Created(created) => created.staked_token.clone(),
            _ => {
                return Err(Error::InvalidTokenId);
            },
        };
        RewardsModule::leave_in_reserve(farm, rest);
        let share_token: Option<ShareTokenMint> = if staying.is_zero() {
            None
        } else {
            Some(
                ShareTokenMint {
                    to: caller.clone(),
                    amount: staying,
                    attributes: RewardsModule::attributes_to_buffer(current_timestamp_ms),
                },
            )
        };
        Ok(
            UnstakeReceipt {
                token_burns: granted.data.token_burns,
                reward: granted.payment,
                share_token_supply: granted.data.token_supply,
                share_token,
                unstaked: DirectPayment {
                    to: caller.clone(),
                    token_identifier: staked_token,
                    amount: unstake_amount,
                },
            },
        )
    }
}

/// The number that an amount holds, where there is one.
pub open spec fn amount_view(amount: Option<BigUint>) -> Option<nat> {
    match amount {
        Some(a) => Some(a@),
        None => None,
    }
}

} // verus!
