//! The farm through its life: not yet created, waiting for its share token,
//! created. Creation, the changes an admin may make, and the reserve that
//! rewards are paid from.

use crate::admins::AdminsModule;
use crate::biguint::BigUint;
use crate::constants::{TOKEN_ISSUANCE_COST, WAD_DECIMALS};
use crate::errors::Error;
use crate::structs::{
    bytes_clone, Address, DirectPayment, DirectPaymentView, EgldOrEsdtTokenIdentifier, Farm,
    FarmView, TokenIdentifier,
};
use vstd::prelude::*;

verus! {

/// What [`FarmModule`] holds, as plain values.
pub enum FarmModuleView {
    NotSet,
    Pending,
    Created(FarmView),
}

impl FarmModuleView {
    /// What is left to pay rewards from; nothing before the farm is created.
    pub open spec fn reserve(self) -> nat {
        match self {
            FarmModuleView::Created(farm) => farm.rewards_reserve,
            _ => 0,
        }
    }

    /// When the farm starts; zero before it is created.
    pub open spec fn start_ts_ms(self) -> u64 {
        match self {
            FarmModuleView::Created(farm) => farm.start_ts_ms,
            _ => 0,
        }
    }

    /// When the farm ends; zero before it is created.
    pub open spec fn end_ts_ms(self) -> u64 {
        match self {
            FarmModuleView::Created(farm) => farm.end_ts_ms,
            _ => 0,
        }
    }

    /// Whether a farm that is created starts before it ends and has reward
    /// rates whose product is above zero.
    pub open spec fn is_sound(self) -> bool {
        match self {
            FarmModuleView::Created(farm) => farm.start_ts_ms < farm.end_ts_ms
                && farm.reward_per_sec * farm.reward_per_share > 0,
            _ => true,
        }
    }
}

/// The farm's place in its life.
#[derive(Debug, PartialEq, Eq)]
pub enum FarmModule {
    /// No farm, and none asked for.
    NotSet,
    /// The share token of the farm is being issued.
    Pending,
    /// The farm.
    Created(Farm),
}

impl View for FarmModule {
    type V = FarmModuleView;

    open spec fn view(&self) -> FarmModuleView {
        match self {
            FarmModule::NotSet => FarmModuleView::NotSet,
            FarmModule::Pending => FarmModuleView::Pending,
            FarmModule::Created(farm) => FarmModuleView::Created(farm@),
        }
    }
}

impl Clone for FarmModule {
    fn clone(&self) -> (copy: FarmModule)
        ensures
            copy@ == self@,
    {
        match self {
            FarmModule::NotSet => FarmModule::NotSet,
            FarmModule::Pending => FarmModule::Pending,
            FarmModule::Created(farm) => FarmModule::Created(farm.clone()),
        }
    }
}

/// What [`ShareTokenIssuance`] holds, as plain values.
pub struct ShareTokenIssuanceView {
    pub issue_cost: nat,
    pub token_display_name: Seq<u8>,
    pub token_ticker: Seq<u8>,
    pub num_decimals: usize,
    pub caller: Seq<u8>,
    pub staked_token: Option<Seq<u8>>,
    pub reward_token: Option<Seq<u8>>,
    pub start_ts_ms: u64,
    pub end_ts_ms: u64,
    pub reward_per_sec: nat,
    pub reward_per_share: nat,
}

/// The issuance of the share token that a creation asks for: what to pay for
/// it, how to name the token, and what to hand to
/// [`FarmModule::share_token_issuance_callback`] with the answer.
#[derive(Debug, PartialEq, Eq)]
pub struct ShareTokenIssuance {
    pub issue_cost: BigUint,
    pub token_display_name: Vec<u8>,
    pub token_ticker: Vec<u8>,
    pub num_decimals: usize,
    pub caller: Address,
    pub staked_token: EgldOrEsdtTokenIdentifier,
    pub reward_token: EgldOrEsdtTokenIdentifier,
    pub start_ts_ms: u64,
    pub end_ts_ms: u64,
    pub reward_per_sec: BigUint,
    pub reward_per_share: BigUint,
}

impl View for ShareTokenIssuance {
    type V = ShareTokenIssuanceView;

    open spec fn view(&self) -> ShareTokenIssuanceView {
        ShareTokenIssuanceView {
            issue_cost: self.issue_cost@,
            token_display_name: self.token_display_name@,
            token_ticker: self.token_ticker@,
            num_decimals: self.num_decimals,
            caller: self.caller@,
            staked_token: self.staked_token@,
            reward_token: self.reward_token@,
            start_ts_ms: self.start_ts_ms,
            end_ts_ms: self.end_ts_ms,
            reward_per_sec: self.reward_per_sec@,
            reward_per_share: self.reward_per_share@,
        }
    }
}

impl Clone for ShareTokenIssuance {
    fn clone(&self) -> (copy: ShareTokenIssuance)
        ensures
            copy@ == self@,
    {
        ShareTokenIssuance {
            issue_cost: self.issue_cost.clone(),
            token_display_name: bytes_clone(&self.token_display_name),
            token_ticker: bytes_clone(&self.token_ticker),
            num_decimals: self.num_decimals,
            caller: self.caller.clone(),
            staked_token: self.staked_token.clone(),
            reward_token: self.reward_token.clone(),
            start_ts_ms: self.start_ts_ms,
            end_ts_ms: self.end_ts_ms,
            reward_per_sec: self.reward_per_sec.clone(),
            reward_per_share: self.reward_per_share.clone(),
        }
    }
}

/// Whether a farm may be created: there is none and none is asked for, the
/// start lies before the end and in the future, the reward rates have a
/// product above zero, and the fee is the issuance cost.
pub open spec fn create_farm_check(
    farm: FarmModuleView,
    current_ts_ms: u64,
    egld_transferred: nat,
    start_ts_ms: u64,
    end_ts_ms: u64,
    reward_per_sec: nat,
    reward_per_share: nat,
) -> Result<(), Error> {
    if !(farm is NotSet) {
        Err(Error::FarmAlreadyCreated)
    } else if start_ts_ms >= end_ts_ms {
        Err(Error::WrongTimeframe)
    } else if start_ts_ms <= current_ts_ms {
        Err(Error::WrongStartTs)
    } else if reward_per_sec * reward_per_share == 0 {
        Err(Error::WrongRewardValues)
    } else if egld_transferred != TOKEN_ISSUANCE_COST {
        Err(Error::WrongIssuanceAmount)
    } else {
        Ok(())
    }
}

/// The farm after the answer to the issuance of its share token. With a
/// token the farm is created, with an empty reserve, unless there is a farm
/// already. Without one a farm that waited is no longer asked for.
pub open spec fn issuance_callback_spec(
    farm: FarmModuleView,
    staked_token: Option<Seq<u8>>,
    reward_token: Option<Seq<u8>>,
    start_ts_ms: u64,
    end_ts_ms: u64,
    reward_per_sec: nat,
    reward_per_share: nat,
    result: Option<Seq<u8>>,
) -> Result<FarmModuleView, Error> {
    match result {
        Some(share_token) => if farm is Created {
            Err(Error::TokenIdAlreadySet)
        } else {
            Ok(
                FarmModuleView::Created(
                    FarmView {
                        staked_token,
                        share_token,
                        reward_token,
                        rewards_reserve: 0,
                        start_ts_ms,
                        end_ts_ms,
                        reward_per_sec,
                        reward_per_share,
                    },
                ),
            )
        },
        None => if farm is Pending {
            Ok(FarmModuleView::NotSet)
        } else {
            Ok(farm)
        },
    }
}

/// What goes back to the account that asked for the farm when the issuance
/// failed: the fee, where it came back in the native asset and is not zero.
pub open spec fn issuance_refund(
    caller: Seq<u8>,
    result: Option<Seq<u8>>,
    payment_token: Option<Seq<u8>>,
    payment_amount: nat,
) -> Option<DirectPaymentView> {
    if result is None && payment_token is None && payment_amount > 0 {
        Some(DirectPaymentView { to: caller, token_identifier: None, amount: payment_amount })
    } else {
        None
    }
}

/// The farm after an admin moved its start: the start has not passed, and
/// the new start lies in the future and before the end.
pub open spec fn modify_start_ts_spec(
    farm: FarmModuleView,
    is_admin: bool,
    current_ts_ms: u64,
    new_start_ts_ms: u64,
) -> Result<FarmModuleView, Error> {
    if !is_admin {
        Err(Error::NotAdmin)
    } else if farm.start_ts_ms() <= current_ts_ms {
        Err(Error::AlreadyStarted)
    } else if new_start_ts_ms <= current_ts_ms {
        Err(Error::WrongStartTs)
    } else if new_start_ts_ms >= farm.end_ts_ms() {
        Err(Error::WrongTimeframe)
    } else {
        Ok(FarmModuleView::Created(FarmView { start_ts_ms: new_start_ts_ms, ..farm->0 }))
    }
}

/// The farm after an admin moved its end: the end has not passed, and the
/// new end lies in the future and after the start.
pub open spec fn modify_end_ts_spec(
    farm: FarmModuleView,
    is_admin: bool,
    current_ts_ms: u64,
    new_end_ts_ms: u64,
) -> Result<FarmModuleView, Error> {
    if !is_admin {
        Err(Error::NotAdmin)
    } else if farm.end_ts_ms() <= current_ts_ms {
        Err(Error::AlreadyEnded)
    } else if new_end_ts_ms <= current_ts_ms {
        Err(Error::WrongTimeframe)
    } else if new_end_ts_ms <= farm.start_ts_ms() {
        Err(Error::WrongTimeframe)
    } else {
        Ok(FarmModuleView::Created(FarmView { end_ts_ms: new_end_ts_ms, ..farm->0 }))
    }
}

/// The farm after an admin set its reward rates: the end has not passed and
/// the product of the new rates is above zero.
pub open spec fn modify_rewards_spec(
    farm: FarmModuleView,
    is_admin: bool,
    current_ts_ms: u64,
    new_reward_per_sec: nat,
    new_reward_per_share: nat,
) -> Result<FarmModuleView, Error> {
    if !is_admin {
        Err(Error::NotAdmin)
    } else if farm.end_ts_ms() <= current_ts_ms {
        Err(Error::AlreadyEnded)
    } else if new_reward_per_sec * new_reward_per_share == 0 {
        Err(Error::WrongRewardValues)
    } else {
        Ok(
            FarmModuleView::Created(
                FarmView {
                    reward_per_sec: new_reward_per_sec,
                    reward_per_share: new_reward_per_share,
                    ..farm->0
                },
            ),
        )
    }
}

/// The farm after an admin put `amount` of `token` into the reserve: the
/// token is the farm's reward asset and the amount is not zero.
pub open spec fn deposit_rewards_spec(
    farm: FarmModuleView,
    is_admin: bool,
    token: Option<Seq<u8>>,
    amount: nat,
) -> Result<FarmModuleView, Error> {
    if !is_admin {
        Err(Error::NotAdmin)
    } else if !(farm matches FarmModuleView::Created(created) && created.reward_token == token) {
        Err(Error::InvalidRewardToken)
    } else if amount == 0 {
        Err(Error::ZeroAmount)
    } else {
        Ok(
            FarmModuleView::Created(
                FarmView { rewards_reserve: farm->0.rewards_reserve + amount, ..farm->0 },
            ),
        )
    }
}

/// The farm after an admin took `amount` from the reserve: the amount is not
/// zero and the reserve holds it.
pub open spec fn withdraw_rewards_spec(
    farm: FarmModuleView,
    is_admin: bool,
    amount: nat,
) -> Result<FarmModuleView, Error> {
    if !is_admin {
        Err(Error::NotAdmin)
    } else if amount == 0 {
        Err(Error::ZeroAmount)
    } else if amount > farm.reserve() {
        Err(Error::InsufficientReserve)
    } else {
        Ok(
            FarmModuleView::Created(
                FarmView { rewards_reserve: (farm->0.rewards_reserve - amount) as nat, ..farm->0 },
            ),
        )
    }
}

impl FarmModule {
    /// No farm.
    pub fn new() -> (module: FarmModule)
        ensures
            module@ is NotSet,
    {
        FarmModule::NotSet
    }

    /// Asks for a farm. Where [`create_farm_check`] allows it, the farm waits
    /// for its share token, and the result says what to issue and what to
    /// hand to [`FarmModule::share_token_issuance_callback`] with the answer.
    /// On a refusal nothing changes.
    pub fn create_farm(
        &mut self,
        caller: Address,
        current_ts_ms: u64,
        egld_transferred: &BigUint,
        staked_token: EgldOrEsdtTokenIdentifier,
        reward_token: EgldOrEsdtTokenIdentifier,
        start_ts_ms: u64,
        end_ts_ms: u64,
        reward_per_sec: BigUint,
        reward_per_share: BigUint,
        share_token_display_name: Vec<u8>,
        share_token_ticker: Vec<u8>,
    ) -> (issuance: Result<ShareTokenIssuance, Error>)
        ensures
            match issuance {
                Ok(request) => {
                    &&& create_farm_check(
                        old(self)@,
                        current_ts_ms,
                        egld_transferred@,
                        start_ts_ms,
                        end_ts_ms,
                        reward_per_sec@,
                        reward_per_share@,
                    ) is Ok
                    &&& final(self)@ is Pending
                    &&& request@ == (ShareTokenIssuanceView {
                        issue_cost: TOKEN_ISSUANCE_COST as nat,
                        token_display_name: share_token_display_name@,
                        token_ticker: share_token_ticker@,
                        num_decimals: WAD_DECIMALS,
                        caller: caller@,
                        staked_token: staked_token@,
                        reward_token: reward_token@,
                        start_ts_ms,
                        end_ts_ms,
                        reward_per_sec: reward_per_sec@,
                        reward_per_share: reward_per_share@,
                    })
                },
                Err(e) => {
                    &&& create_farm_check(
                        old(self)@,
                        current_ts_ms,
                        egld_transferred@,
                        start_ts_ms,
                        end_ts_ms,
                        reward_per_sec@,
                        reward_per_share@,
                    ) == Err::<(), Error>(e)
                    &&& final(self)@ == old(self)@
                },
            },
    {
        match self {
            FarmModule::NotSet => {},
            _ => {
                return Err(Error::FarmAlreadyCreated);
            },
        }
        if start_ts_ms >= end_ts_ms {
            return Err(Error::WrongTimeframe);
        }
        if start_ts_ms <= current_ts_ms {
            return Err(Error::WrongStartTs);
        }
        if reward_per_sec.mul(&reward_per_share).is_zero() {
            return Err(Error::WrongRewardValues);
        }
        let issue_cost: BigUint = BigUint::from_u64(TOKEN_ISSUANCE_COST);
        if !egld_transferred.equals(&issue_cost) {
            return Err(Error::WrongIssuanceAmount);
        }
        *self = FarmModule::Pending;
        Ok(
            ShareTokenIssuance {
                issue_cost,
                token_display_name: share_token_display_name,
                token_ticker: share_token_ticker,
                num_decimals: WAD_DECIMALS,
                caller,
                staked_token,
                reward_token,
                start_ts_ms,
                end_ts_ms,
                reward_per_sec,
                reward_per_share,
            },
        )
    }

    /// Takes the answer to the issuance of the share token: `result` holds
    /// the new token class, or nothing where the issuance failed. The farm
    /// becomes what [`issuance_callback_spec`] says, and the result is the
    /// refund that [`issuance_refund`] names. On a refusal nothing changes.
    pub fn share_token_issuance_callback(
        &mut self,
        caller: &Address,
        staked_token: &EgldOrEsdtTokenIdentifier,
        reward_token: &EgldOrEsdtTokenIdentifier,
        start_ts_ms: u64,
        end_ts_ms: u64,
        reward_per_sec: &BigUint,
        reward_per_share: &BigUint,
        result: Option<TokenIdentifier>,
        payment_token: &EgldOrEsdtTokenIdentifier,
        payment_amount: &BigUint,
    ) -> (refund: Result<Option<DirectPayment>, Error>)
        ensures
            match refund {
                Ok(payment) => {
                    &&& issuance_callback_spec(
                        old(self)@,
                        staked_token@,
                        reward_token@,
                        start_ts_ms,
                        end_ts_ms,
                        reward_per_sec@,
                        reward_per_share@,
                        option_view(result),
                    ) == Ok::<FarmModuleView, Error>(final(self)@)
                    &&& match payment {
                        Some(p) => issuance_refund(
                            caller@,
                            option_view(result),
                            payment_token@,
                            payment_amount@,
                        ) == Some(p@),
                        None => issuance_refund(
                            caller@,
                            option_view(result),
                            payment_token@,
                            payment_amount@,
                        ) is None,
                    }
                },
                Err(e) => {
                    &&& issuance_callback_spec(
                        old(self)@,
                        staked_token@,
                        reward_token@,
                        start_ts_ms,
                        end_ts_ms,
                        reward_per_sec@,
                        reward_per_share@,
                        option_view(result),
                    ) == Err::<FarmModuleView, Error>(e)
                    &&& final(self)@ == old(self)@
                },
            },
    {
        match result {
            Some(share_token) => {
                match self {
                    FarmModule::Created(_) => {
                        return Err(Error::TokenIdAlreadySet);
                    },
                    _ => {},
                }
                *self = FarmModule::Created(
                    Farm {
                        staked_token: staked_token.clone(),
                        share_token,
                        reward_token: reward_token.clone(),
                        rewards_reserve: BigUint::zero(),
                        start_ts_ms,
                        end_ts_ms,
                        reward_per_sec: reward_per_sec.clone(),
                        reward_per_share: reward_per_share.clone(),
                    },
                );
                Ok(None)
            },
            None => {
                let refund: Option<DirectPayment> = if payment_token.is_egld()
                    && !payment_amount.is_zero() {
                    Some(
                        DirectPayment {
                            to: caller.clone(),
                            token_identifier: EgldOrEsdtTokenIdentifier::Egld,
                            amount: payment_amount.clone(),
                        },
                    )
                } else {
                    None
                };
                match self {
                    FarmModule::Pending => {
                        *self = FarmModule::NotSet;
                    },
                    _ => {},
                }
                Ok(refund)
            },
        }
    }

    /// Moves the start of the farm for the admin `caller`, as
    /// [`modify_start_ts_spec`] says. A sound farm stays sound. On a refusal
    /// nothing changes.
    pub fn modify_start_ts(
        &mut self,
        admins: &AdminsModule,
        caller: &Address,
        current_ts_ms: u64,
        new_start_ts_ms: u64,
    ) -> (done: Result<(), Error>)
        ensures
            match done {
                Ok(_) => modify_start_ts_spec(
                    old(self)@,
                    admins@.contains(caller@),
                    current_ts_ms,
                    new_start_ts_ms,
                ) == Ok::<FarmModuleView, Error>(final(self)@),
                Err(e) => modify_start_ts_spec(
                    old(self)@,
                    admins@.contains(caller@),
                    current_ts_ms,
                    new_start_ts_ms,
                ) == Err::<FarmModuleView, Error>(e) && final(self)@ == old(self)@,
            },
            old(self)@.is_sound() ==> final(self)@.is_sound(),
    {
        admins.require_is_admin(caller)?;
        match self {
            FarmModule::Created(farm) => {
                if farm.start_ts_ms <= current_ts_ms {
                    return Err(Error::AlreadyStarted);
                }
                if new_start_ts_ms <= current_ts_ms {
                    return Err(Error::WrongStartTs);
                }
                if new_start_ts_ms >= farm.end_ts_ms {
                    return Err(Error::WrongTimeframe);
                }
                farm.start_ts_ms = new_start_ts_ms;
                Ok(())
            },
            _ => Err(Error::AlreadyStarted),
        }
    }

    /// Moves the end of the farm for the admin `caller`, as
    /// [`modify_end_ts_spec`] says. A sound farm stays sound. On a refusal
    /// nothing changes.
    pub fn modify_end_ts(
        &mut self,
        admins: &AdminsModule,
        caller: &Address,
        current_ts_ms: u64,
        new_end_ts_ms: u64,
    ) -> (done: Result<(), Error>)
        ensures
            match done {
                Ok(_) => modify_end_ts_spec(
                    old(self)@,
                    admins@.contains(caller@),
                    current_ts_ms,
                    new_end_ts_ms,
                ) == Ok::<FarmModuleView, Error>(final(self)@),
                Err(e) => modify_end_ts_spec(
                    old(self)@,
                    admins@.contains(caller@),
                    current_ts_ms,
                    new_end_ts_ms,
                ) == Err::<FarmModuleView, Error>(e) && final(self)@ == old(self)@,
            },
            old(self)@.is_sound() ==> final(self)@.is_sound(),
    {
        admins.require_is_admin(caller)?;
        match self {
            FarmModule::Created(farm) => {
                if farm.end_ts_ms <= current_ts_ms {
                    return Err(Error::AlreadyEnded);
                }
                if new_end_ts_ms <= current_ts_ms {
                    return Err(Error::WrongTimeframe);
                }
                if new_end_ts_ms <= farm.start_ts_ms {
                    return Err(Error::WrongTimeframe);
                }
                farm.end_ts_ms = new_end_ts_ms;
                Ok(())
            },
            _ => Err(Error::AlreadyEnded),
        }
    }

    /// Sets the reward rates of the farm for the admin `caller`, as
    /// [`modify_rewards_spec`] says. A sound farm stays sound. On a refusal
    /// nothing changes.
    pub fn modify_rewards(
        &mut self,
        admins: &AdminsModule,
        caller: &Address,
        current_ts_ms: u64,
        new_reward_per_sec: BigUint,
        new_reward_per_share: BigUint,
    ) -> (done: Result<(), Error>)
        ensures
            match done {
                Ok(_) => modify_rewards_spec(
                    old(self)@,
                    admins@.contains(caller@),
                    current_ts_ms,
                    new_reward_per_sec@,
                    new_reward_per_share@,
                ) == Ok::<FarmModuleView, Error>(final(self)@),
                Err(e) => modify_rewards_spec(
                    old(self)@,
                    admins@.contains(caller@),
                    current_ts_ms,
                    new_reward_per_sec@,
                    new_reward_per_share@,
                ) == Err::<FarmModuleView, Error>(e) && final(self)@ == old(self)@,
            },
            old(self)@.is_sound() ==> final(self)@.is_sound(),
    {
        admins.require_is_admin(caller)?;
        match self {
            FarmModule::Created(farm) => {
                if farm.end_ts_ms <= current_ts_ms {
                    return Err(Error::AlreadyEnded);
                }
                if new_reward_per_sec.mul(&new_reward_per_share).is_zero() {
                    return Err(Error::WrongRewardValues);
                }
                farm.reward_per_sec = new_reward_per_sec;
                farm.reward_per_share = new_reward_per_share;
                Ok(())
            },
            _ => Err(Error::AlreadyEnded),
        }
    }

    /// Puts `amount` of `token`, which came with the call of the admin
    /// `caller`, into the reserve, as [`deposit_rewards_spec`] says. On a
    /// refusal nothing changes.
    pub fn deposit_rewards(
        &mut self,
        admins: &AdminsModule,
        caller: &Address,
        token: &EgldOrEsdtTokenIdentifier,
        amount: &BigUint,
    ) -> (done: Result<(), Error>)
        ensures
            match done {
                Ok(_) => deposit_rewards_spec(
                    old(self)@,
                    admins@.contains(caller@),
                    token@,
                    amount@,
                ) == Ok::<FarmModuleView, Error>(final(self)@),
                Err(e) => deposit_rewards_spec(
                    old(self)@,
                    admins@.contains(caller@),
                    token@,
                    amount@,
                ) == Err::<FarmModuleView, Error>(e) && final(self)@ == old(self)@,
            },
    {
        admins.require_is_admin(caller)?;
        match self {
            FarmModule::Created(farm) => {
                if !token.equals(&farm.reward_token) {
                    return Err(Error::InvalidRewardToken);
                }
                if amount.is_zero() {
                    return Err(Error::ZeroAmount);
                }
                farm.rewards_reserve = farm.rewards_reserve.add(amount);
                Ok(())
            },
            _ => Err(Error::InvalidRewardToken),
        }
    }

    /// Takes `amount` from the reserve for the admin `caller`, as
    /// [`withdraw_rewards_spec`] says. The result is what is to be paid: the
    /// amount, in the reward asset, to that admin. On a refusal nothing
    /// changes.
    pub fn withdraw_rewards(
        &mut self,
        admins: &AdminsModule,
        caller: &Address,
        amount: &BigUint,
    ) -> (payment: Result<DirectPayment, Error>)
        ensures
            match payment {
                Ok(p) => {
                    &&& withdraw_rewards_spec(old(self)@, admins@.contains(caller@), amount@)
                        == Ok::<FarmModuleView, Error>(final(self)@)
                    &&& old(self)@ matches FarmModuleView::Created(farm)
                    &&& p@ == (DirectPaymentView {
                        to: caller@,
                        token_identifier: farm.reward_token,
                        amount: amount@,
                    })
                },
                Err(e) => withdraw_rewards_spec(old(self)@, admins@.contains(caller@), amount@)
                    == Err::<FarmModuleView, Error>(e) && final(self)@ == old(self)@,
            },
    {
        admins.require_is_admin(caller)?;
        if amount.is_zero() {
            return Err(Error::ZeroAmount);
        }
        match self {
            FarmModule::Created(farm) => {
                match farm.rewards_reserve.checked_sub(amount) {
                    Some(rest) => {
                        farm.rewards_reserve = rest;
                        Ok(
                            DirectPayment {
                                to: caller.clone(),
                                token_identifier: farm.reward_token.clone(),
                                amount: amount.clone(),
                            },
                        )
                    },
                    None => Err(Error::InsufficientReserve),
                }
            },
            _ => Err(Error::InsufficientReserve),
        }
    }

    /// The farm, or [`Error::InvalidTokenId`] where there is none yet.
    pub fn get_farm_info(&self) -> (info: Result<Farm, Error>)
        ensures
            match info {
                Ok(farm) => self@ == FarmModuleView::Created(farm@),
                Err(e) => e == Error::InvalidTokenId && !(self@ is Created),
            },
    {
        match self {
            FarmModule::Created(farm) => Ok(farm.clone()),
            _ => Err(Error::InvalidTokenId),
        }
    }
}

/// The bytes of a token class that may be absent.
pub open spec fn option_view(token: Option<TokenIdentifier>) -> Option<Seq<u8>> {
    match token {
        Some(t) => Some(t@),
        None => None,
    }
}

} // verus!
