use staking_farm::biguint::BigUint;
use staking_farm::constants::TOKEN_ISSUANCE_COST;
use staking_farm::errors::Error;
use staking_farm::farm::FarmModule;
use staking_farm::pause::PauseModule;
use staking_farm::staking::StakingModule;
use staking_farm::structs::{
    Address, EgldOrEsdtTokenIdentifier, EgldOrEsdtTokenPayment, EsdtTokenPayment, Farm,
    ShareToken, ShareTokenAttributes, TokenIdentifier,
};
use staking_farm::Template;

fn amount(x: u64) -> BigUint {
    BigUint::from_u64(x)
}

fn token_id(name: &str) -> TokenIdentifier {
    TokenIdentifier { bytes: name.as_bytes().to_vec() }
}

fn staked() -> EgldOrEsdtTokenIdentifier {
    EgldOrEsdtTokenIdentifier::Esdt(token_id("STAKE-123456"))
}

fn bob() -> Address {
    Address { bytes: vec![9u8; 32] }
}

fn created(reserve: u64) -> FarmModule {
    FarmModule::Created(Farm {
        staked_token: staked(),
        share_token: token_id("SHARE-abcdef"),
        reward_token: EgldOrEsdtTokenIdentifier::Egld,
        rewards_reserve: amount(reserve),
        start_ts_ms: 0,
        end_ts_ms: 1_000_000_000,
        reward_per_sec: amount(10),
        reward_per_share: amount(1),
    })
}

fn principal(x: u64) -> EgldOrEsdtTokenPayment {
    EgldOrEsdtTokenPayment {
        token_identifier: staked(),
        token_nonce: 0,
        amount: amount(x),
        attributes: vec![],
    }
}

fn position(nonce: u64, x: u64, update_ts_ms: u64) -> EgldOrEsdtTokenPayment {
    EgldOrEsdtTokenPayment {
        token_identifier: EgldOrEsdtTokenIdentifier::Esdt(token_id("SHARE-abcdef")),
        token_nonce: nonce,
        amount: amount(x),
        attributes: ShareTokenAttributes { update_ts_ms }.top_encode(),
    }
}

fn esdt_position(nonce: u64, x: u64, update_ts_ms: u64) -> EsdtTokenPayment {
    EsdtTokenPayment {
        token_identifier: token_id("SHARE-abcdef"),
        token_nonce: nonce,
        amount: amount(x),
        attributes: ShareTokenAttributes { update_ts_ms }.top_encode(),
    }
}

fn foreign(x: u64) -> EgldOrEsdtTokenPayment {
    EgldOrEsdtTokenPayment {
        token_identifier: EgldOrEsdtTokenIdentifier::Esdt(token_id("OTHER-000000")),
        token_nonce: 0,
        amount: amount(x),
        attributes: vec![],
    }
}

#[test]
fn split_tells_the_transfers_apart() {
    let transfers = vec![position(1, 100, 0), principal(40), position(2, 50, 2000)];
    let (staking, shares) =
        StakingModule::split_transfers(&transfers, &staked(), &token_id("SHARE-abcdef")).unwrap();
    assert_eq!(staking, principal(40));
    assert_eq!(shares, vec![esdt_position(1, 100, 0), esdt_position(2, 50, 2000)]);
}

#[test]
fn split_refuses_a_second_staking_transfer() {
    let transfers = vec![principal(40), position(1, 100, 0), principal(1)];
    assert_eq!(
        StakingModule::split_transfers(&transfers, &staked(), &token_id("SHARE-abcdef")),
        Err(Error::OnlyOneStakingTransferAllowed)
    );
}

#[test]
fn split_refuses_a_foreign_asset() {
    let transfers = vec![principal(40), foreign(5)];
    assert_eq!(
        StakingModule::split_transfers(&transfers, &staked(), &token_id("SHARE-abcdef")),
        Err(Error::InvalidShareToken)
    );
    let native = EgldOrEsdtTokenPayment {
        token_identifier: EgldOrEsdtTokenIdentifier::Egld,
        token_nonce: 0,
        amount: amount(5),
        attributes: vec![],
    };
    assert_eq!(
        StakingModule::split_transfers(&vec![native], &staked(), &token_id("SHARE-abcdef")),
        Err(Error::InvalidShareToken)
    );
}

#[test]
fn split_reports_the_first_refusal() {
    let transfers = vec![principal(40), foreign(5), principal(1)];
    assert_eq!(
        StakingModule::split_transfers(&transfers, &staked(), &token_id("SHARE-abcdef")),
        Err(Error::InvalidShareToken)
    );
    let transfers = vec![principal(40), principal(1), foreign(5)];
    assert_eq!(
        StakingModule::split_transfers(&transfers, &staked(), &token_id("SHARE-abcdef")),
        Err(Error::OnlyOneStakingTransferAllowed)
    );
}

#[test]
fn split_misses_the_staked_asset() {
    assert_eq!(
        StakingModule::split_transfers(&vec![], &staked(), &token_id("SHARE-abcdef")),
        Err(Error::StakedTokenMissing)
    );
    assert_eq!(
        StakingModule::split_transfers(
            &vec![position(1, 100, 0)],
            &staked(),
            &token_id("SHARE-abcdef")
        ),
        Err(Error::StakedTokenMissing)
    );
}

#[test]
fn split_with_the_native_asset_staked() {
    let native = EgldOrEsdtTokenPayment {
        token_identifier: EgldOrEsdtTokenIdentifier::Egld,
        token_nonce: 0,
        amount: amount(5),
        attributes: vec![],
    };
    let (staking, shares) = StakingModule::split_transfers(
        &vec![native.clone()],
        &EgldOrEsdtTokenIdentifier::Egld,
        &token_id("SHARE-abcdef"),
    )
    .unwrap();
    assert_eq!(staking, native);
    assert!(shares.is_empty());
}

#[test]
fn first_stake_creates_one_position() {
    let mut farm = created(0);
    let receipt =
        StakingModule::stake(&PauseModule::new(), &mut farm, &bob(), 7000, &vec![principal(40)])
            .unwrap();
    assert_eq!(receipt.staked_amount, amount(40));
    assert_eq!(receipt.share_token.amount, amount(40));
    assert_eq!(receipt.share_token.to, bob());
    assert_eq!(
        receipt.share_token.attributes,
        ShareTokenAttributes { update_ts_ms: 7000 }.top_encode()
    );
    assert!(receipt.token_burns.is_empty());
    assert_eq!(receipt.reward, None);
    assert_eq!(farm, created(0));
}

#[test]
fn stake_merges_positions() {
    let mut farm = created(10_000);
    let transfers = vec![position(1, 100, 0), principal(40), position(2, 50, 2000)];
    let receipt =
        StakingModule::stake(&PauseModule::new(), &mut farm, &bob(), 5000, &transfers).unwrap();
    assert_eq!(receipt.staked_amount, amount(40));
    assert_eq!(receipt.share_token.amount, amount(190));
    assert_eq!(
        receipt.token_burns,
        vec![
            ShareToken { nonce: 1, amount: amount(100) },
            ShareToken { nonce: 2, amount: amount(50) }
        ]
    );
    let reward = receipt.reward.unwrap();
    assert_eq!(reward.amount, amount(6500));
    assert_eq!(reward.to, bob());
    assert_eq!(reward.token_identifier, EgldOrEsdtTokenIdentifier::Egld);
    assert_eq!(farm, created(3500));
}

#[test]
fn stake_of_nothing_is_refused() {
    let mut farm = created(10_000);
    assert_eq!(
        StakingModule::stake(&PauseModule::new(), &mut farm, &bob(), 5000, &vec![principal(0)]),
        Err(Error::ZeroAmount)
    );
    assert_eq!(
        StakingModule::stake(&PauseModule::new(), &mut farm, &bob(), 5000, &vec![]),
        Err(Error::StakedTokenMissing)
    );
    assert_eq!(farm, created(10_000));
}

#[test]
fn stake_with_a_foreign_asset_changes_nothing() {
    let mut farm = created(10_000);
    let transfers = vec![position(1, 100, 0), principal(40), foreign(1)];
    assert_eq!(
        StakingModule::stake(&PauseModule::new(), &mut farm, &bob(), 5000, &transfers),
        Err(Error::InvalidShareToken)
    );
    assert_eq!(farm, created(10_000));
}

#[test]
fn stake_with_fresh_positions_is_refused() {
    let mut farm = created(10_000);
    let transfers = vec![principal(40), position(1, 100, 5000)];
    assert_eq!(
        StakingModule::stake(&PauseModule::new(), &mut farm, &bob(), 5000, &transfers),
        Err(Error::NoRewardsApplicable)
    );
    assert_eq!(farm, created(10_000));
}

#[test]
fn stake_is_refused_while_paused_and_before_creation() {
    let mut farm = created(10_000);
    assert_eq!(
        StakingModule::stake(
            &PauseModule { paused: true },
            &mut farm,
            &bob(),
            5000,
            &vec![principal(40)]
        ),
        Err(Error::Paused)
    );
    let mut none = FarmModule::NotSet;
    assert_eq!(
        StakingModule::stake(&PauseModule::new(), &mut none, &bob(), 5000, &vec![principal(40)]),
        Err(Error::InvalidTokenId)
    );
    let mut pending = FarmModule::Pending;
    assert_eq!(
        StakingModule::stake(&PauseModule::new(), &mut pending, &bob(), 5, &vec![principal(40)]),
        Err(Error::InvalidTokenId)
    );
    assert_eq!(pending, FarmModule::Pending);
}

#[test]
fn unstake_of_a_part_leaves_the_rest() {
    let mut farm = created(10_000);
    let transfers = vec![esdt_position(1, 100, 0), esdt_position(2, 50, 2000)];
    let receipt = StakingModule::unstake(
        &PauseModule::new(),
        &mut farm,
        &bob(),
        5000,
        &transfers,
        Some(amount(60)),
    )
    .unwrap();
    assert_eq!(receipt.share_token_supply, amount(150));
    assert_eq!(receipt.unstaked.amount, amount(60));
    assert_eq!(receipt.unstaked.token_identifier, staked());
    assert_eq!(receipt.unstaked.to, bob());
    assert_eq!(receipt.reward.amount, amount(6500));
    assert_eq!(receipt.reward.token_identifier, EgldOrEsdtTokenIdentifier::Egld);
    let rest = receipt.share_token.unwrap();
    assert_eq!(rest.amount, amount(90));
    assert_eq!(rest.to, bob());
    assert_eq!(rest.attributes, ShareTokenAttributes { update_ts_ms: 5000 }.top_encode());
    assert_eq!(receipt.token_burns.len(), 2);
    assert_eq!(farm, created(3500));
}

#[test]
fn unstake_of_all_leaves_no_position() {
    let mut farm = created(10_000);
    let receipt = StakingModule::unstake(
        &PauseModule::new(),
        &mut farm,
        &bob(),
        5000,
        &vec![esdt_position(1, 100, 0)],
        Some(amount(100)),
    )
    .unwrap();
    assert_eq!(receipt.share_token, None);
    assert_eq!(receipt.unstaked.amount, amount(100));
    let mut farm = created(10_000);
    let receipt = StakingModule::unstake(
        &PauseModule::new(),
        &mut farm,
        &bob(),
        5000,
        &vec![esdt_position(1, 100, 0)],
        None,
    )
    .unwrap();
    assert_eq!(receipt.share_token, None);
    assert_eq!(receipt.unstaked.amount, amount(100));
    assert_eq!(receipt.token_burns, vec![ShareToken { nonce: 1, amount: amount(100) }]);
    assert_eq!(farm, created(5000));
}

#[test]
fn unstake_of_more_than_the_stake_changes_nothing() {
    let mut farm = created(10_000);
    let transfers = vec![esdt_position(1, 100, 0), esdt_position(2, 50, 2000)];
    assert_eq!(
        StakingModule::unstake(
            &PauseModule::new(),
            &mut farm,
            &bob(),
            5000,
            &transfers,
            Some(amount(151))
        ),
        Err(Error::UnstakeAmountExceeds)
    );
    assert_eq!(farm, created(10_000));
}

#[test]
fn unstake_of_zero_keeps_everything_staked() {
    let mut farm = created(10_000);
    let receipt = StakingModule::unstake(
        &PauseModule::new(),
        &mut farm,
        &bob(),
        5000,
        &vec![esdt_position(1, 100, 0)],
        Some(amount(0)),
    )
    .unwrap();
    assert!(receipt.unstaked.amount.is_zero());
    assert_eq!(receipt.share_token.unwrap().amount, amount(100));
}

#[test]
fn unstake_refusals() {
    let mut farm = created(10);
    assert_eq!(
        StakingModule::unstake(
            &PauseModule { paused: true },
            &mut farm,
            &bob(),
            5000,
            &vec![esdt_position(1, 100, 0)],
            None
        ),
        Err(Error::Paused)
    );
    assert_eq!(
        StakingModule::unstake(
            &PauseModule::new(),
            &mut farm,
            &bob(),
            5000,
            &vec![esdt_position(1, 100, 0)],
            None
        ),
        Err(Error::NotEnoughRewards)
    );
    assert_eq!(
        StakingModule::unstake(
            &PauseModule::new(),
            &mut farm,
            &bob(),
            5000,
            &vec![esdt_position(1, 100, 5000)],
            None
        ),
        Err(Error::NoRewardsApplicable)
    );
    let mut other = esdt_position(1, 100, 0);
    other.token_identifier = token_id("OTHER-000000");
    assert_eq!(
        StakingModule::unstake(&PauseModule::new(), &mut farm, &bob(), 5000, &vec![other], None),
        Err(Error::InvalidShareToken)
    );
    assert_eq!(farm, created(10));
    let mut none = FarmModule::NotSet;
    assert_eq!(
        StakingModule::unstake(&PauseModule::new(), &mut none, &bob(), 5000, &vec![], None),
        Err(Error::InvalidTokenId)
    );
}

#[test]
fn the_reserve_is_what_was_deposited_less_what_was_paid() {
    let mut farm = created(0);
    let admin = bob();
    let mut admins = staking_farm::admins::AdminsModule::new();
    admins.add_admin(&vec![bob()]);
    farm.deposit_rewards(&admins, &admin, &EgldOrEsdtTokenIdentifier::Egld, &amount(8000))
        .unwrap();
    let pause = PauseModule::new();
    let first = StakingModule::stake(
        &pause,
        &mut farm,
        &bob(),
        5000,
        &vec![principal(40), position(1, 100, 0)],
    )
    .unwrap();
    let paid_first = first.reward.unwrap().amount;
    assert_eq!(paid_first, amount(5000));
    let refused = StakingModule::unstake(
        &pause,
        &mut farm,
        &bob(),
        9000,
        &vec![esdt_position(2, 140, 5000)],
        None,
    );
    assert_eq!(refused, Err(Error::NotEnoughRewards));
    farm.deposit_rewards(&admins, &admin, &EgldOrEsdtTokenIdentifier::Egld, &amount(3000))
        .unwrap();
    let second = StakingModule::unstake(
        &pause,
        &mut farm,
        &bob(),
        9000,
        &vec![esdt_position(2, 140, 5000)],
        None,
    )
    .unwrap();
    assert_eq!(second.reward.amount, amount(5600));
    let paid = paid_first.add(&second.reward.amount);
    let left = farm.get_farm_info().unwrap().rewards_reserve;
    assert_eq!(paid.add(&left), amount(11_000));
    assert_eq!(left, amount(400));
}

#[test]
fn a_farm_from_deployment_to_the_last_unstake() {
    let owner = Address { bytes: vec![1u8; 32] };
    let mut template = Template::init();
    template.admins.add_admin(&vec![owner.clone()]);
    let request = template
        .farm
        .create_farm(
            owner.clone(),
            1000,
            &amount(TOKEN_ISSUANCE_COST),
            staked(),
            EgldOrEsdtTokenIdentifier::Egld,
            2000,
            1_000_000,
            amount(10),
            amount(1),
            b"Share".to_vec(),
            b"SHARE".to_vec(),
        )
        .unwrap();
    assert_eq!(
        template.farm.share_token_issuance_callback(
            &request.caller,
            &request.staked_token,
            &request.reward_token,
            request.start_ts_ms,
            request.end_ts_ms,
            &request.reward_per_sec,
            &request.reward_per_share,
            Some(token_id("SHARE-abcdef")),
            &EgldOrEsdtTokenIdentifier::Egld,
            &amount(0),
        ),
        Ok(None)
    );
    template
        .farm
        .deposit_rewards(
            &template.admins,
            &owner,
            &EgldOrEsdtTokenIdentifier::Egld,
            &amount(10_000),
        )
        .unwrap();

    let first = StakingModule::stake(
        &template.pause,
        &mut template.farm,
        &bob(),
        3000,
        &vec![principal(100)],
    )
    .unwrap();
    assert_eq!(first.share_token.amount, amount(100));

    let held = EgldOrEsdtTokenPayment {
        token_identifier: EgldOrEsdtTokenIdentifier::Esdt(token_id("SHARE-abcdef")),
        token_nonce: 1,
        amount: first.share_token.amount.clone(),
        attributes: first.share_token.attributes.clone(),
    };
    let second = StakingModule::stake(
        &template.pause,
        &mut template.farm,
        &bob(),
        8000,
        &vec![held, principal(50)],
    )
    .unwrap();
    assert_eq!(second.reward.as_ref().unwrap().amount, amount(5000));
    assert_eq!(second.share_token.amount, amount(150));

    template.pause.pause(&template.admins, &owner).unwrap();
    let held = EsdtTokenPayment {
        token_identifier: token_id("SHARE-abcdef"),
        token_nonce: 2,
        amount: second.share_token.amount.clone(),
        attributes: second.share_token.attributes.clone(),
    };
    assert_eq!(
        StakingModule::unstake(
            &template.pause,
            &mut template.farm,
            &bob(),
            10_000,
            &vec![held.clone()],
            None
        ),
        Err(Error::Paused)
    );
    template.pause.unpause(&template.admins, &owner).unwrap();
    let last = StakingModule::unstake(
        &template.pause,
        &mut template.farm,
        &bob(),
        10_000,
        &vec![held],
        None,
    )
    .unwrap();
    assert_eq!(last.reward.amount, amount(3000));
    assert_eq!(last.unstaked.amount, amount(150));
    assert_eq!(last.share_token, None);
    assert_eq!(template.farm.get_farm_info().unwrap().rewards_reserve, amount(2000));
}
