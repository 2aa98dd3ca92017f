use staking_farm::admins::AdminsModule;
use staking_farm::biguint::BigUint;
use staking_farm::constants::{MAX_PERCENTAGE, TOKEN_ISSUANCE_COST, WAD_DECIMALS};
use staking_farm::errors::Error;
use staking_farm::farm::FarmModule;
use staking_farm::structs::{
    Address, DirectPayment, EgldOrEsdtTokenIdentifier, Farm, TokenIdentifier,
};
use staking_farm::Template;

fn num(x: u64) -> BigUint {
    BigUint::from_u64(x)
}

fn name(text: &str) -> TokenIdentifier {
    TokenIdentifier { bytes: text.as_bytes().to_vec() }
}

fn owner() -> Address {
    Address { bytes: vec![1u8; 32] }
}

fn admin() -> Address {
    Address { bytes: vec![2u8; 32] }
}

fn stranger() -> Address {
    Address { bytes: vec![3u8; 32] }
}

fn admins() -> AdminsModule {
    let mut module = AdminsModule::new();
    module.add_admin(&vec![admin()]);
    module
}

fn staked() -> EgldOrEsdtTokenIdentifier {
    EgldOrEsdtTokenIdentifier::Esdt(name("STAKE-123456"))
}

fn reward() -> EgldOrEsdtTokenIdentifier {
    EgldOrEsdtTokenIdentifier::Esdt(name("REWARD-654321"))
}

fn the_farm(reserve: u64) -> Farm {
    Farm {
        staked_token: staked(),
        share_token: name("SHARE-abcdef"),
        reward_token: reward(),
        rewards_reserve: num(reserve),
        start_ts_ms: 2000,
        end_ts_ms: 9000,
        reward_per_sec: num(10),
        reward_per_share: num(1),
    }
}

fn ask(
    module: &mut FarmModule,
    now: u64,
    fee: u64,
    start: u64,
    end: u64,
    per_sec: u64,
    per_share: u64,
) -> Result<staking_farm::farm::ShareTokenIssuance, Error> {
    module.create_farm(
        owner(),
        now,
        &num(fee),
        staked(),
        reward(),
        start,
        end,
        num(per_sec),
        num(per_share),
        b"Share".to_vec(),
        b"SHARE".to_vec(),
    )
}

#[test]
fn constants_have_their_values() {
    assert_eq!(MAX_PERCENTAGE, 10_000);
    assert_eq!(TOKEN_ISSUANCE_COST, 50_000_000_000_000_000);
    assert_eq!(WAD_DECIMALS, 18);
}

#[test]
fn init_deploys_an_empty_farm() {
    let mut template = Template::init();
    assert!(template.admins.admins().is_empty());
    assert!(!template.pause.is_paused());
    assert_eq!(template.farm, FarmModule::NotSet);
    template.upgrade();
    assert_eq!(template.farm, FarmModule::NotSet);
}

#[test]
fn creation_asks_for_the_share_token() {
    let mut module = FarmModule::new();
    let request = ask(&mut module, 1000, TOKEN_ISSUANCE_COST, 2000, 9000, 10, 1).unwrap();
    assert_eq!(module, FarmModule::Pending);
    assert_eq!(request.issue_cost, num(TOKEN_ISSUANCE_COST));
    assert_eq!(request.token_display_name, b"Share".to_vec());
    assert_eq!(request.token_ticker, b"SHARE".to_vec());
    assert_eq!(request.num_decimals, 18);
    assert_eq!(request.caller, owner());
    assert_eq!(request.staked_token, staked());
    assert_eq!(request.reward_token, reward());
    assert_eq!(request.start_ts_ms, 2000);
    assert_eq!(request.end_ts_ms, 9000);
    assert_eq!(request.reward_per_sec, num(10));
    assert_eq!(request.reward_per_share, num(1));
}

#[test]
fn creation_refusals_in_their_order() {
    let mut module = FarmModule::new();
    assert_eq!(ask(&mut module, 1000, 1, 9000, 9000, 0, 0), Err(Error::WrongTimeframe));
    assert_eq!(ask(&mut module, 1000, 1, 9001, 9000, 0, 0), Err(Error::WrongTimeframe));
    assert_eq!(ask(&mut module, 2000, 1, 2000, 9000, 0, 0), Err(Error::WrongStartTs));
    assert_eq!(ask(&mut module, 1000, 1, 2000, 9000, 0, 5), Err(Error::WrongRewardValues));
    assert_eq!(ask(&mut module, 1000, 1, 2000, 9000, 5, 0), Err(Error::WrongRewardValues));
    assert_eq!(ask(&mut module, 1000, 1, 2000, 9000, 5, 5), Err(Error::WrongIssuanceAmount));
    assert_eq!(
        ask(&mut module, 1000, TOKEN_ISSUANCE_COST + 1, 2000, 9000, 5, 5),
        Err(Error::WrongIssuanceAmount)
    );
    assert_eq!(module, FarmModule::NotSet);
}

#[test]
fn creation_happens_once() {
    let mut module = FarmModule::new();
    ask(&mut module, 1000, TOKEN_ISSUANCE_COST, 2000, 9000, 10, 1).unwrap();
    assert_eq!(
        ask(&mut module, 1000, TOKEN_ISSUANCE_COST, 2000, 9000, 10, 1),
        Err(Error::FarmAlreadyCreated)
    );
    assert_eq!(module, FarmModule::Pending);
    let mut created = FarmModule::Created(the_farm(0));
    assert_eq!(ask(&mut created, 1000, 0, 9000, 2000, 0, 0), Err(Error::FarmAlreadyCreated));
    assert_eq!(created, FarmModule::Created(the_farm(0)));
}

fn answer(
    module: &mut FarmModule,
    result: Option<TokenIdentifier>,
    fee: u64,
) -> Result<Option<DirectPayment>, Error> {
    module.share_token_issuance_callback(
        &owner(),
        &staked(),
        &reward(),
        2000,
        9000,
        &num(10),
        &num(1),
        result,
        &EgldOrEsdtTokenIdentifier::Egld,
        &num(fee),
    )
}

#[test]
fn the_share_token_creates_the_farm() {
    let mut module = FarmModule::Pending;
    assert_eq!(answer(&mut module, Some(name("SHARE-abcdef")), 0), Ok(None));
    assert_eq!(module, FarmModule::Created(the_farm(0)));
    assert_eq!(module.get_farm_info(), Ok(the_farm(0)));
    assert_eq!(answer(&mut module, Some(name("SHARE-ffffff")), 0), Err(Error::TokenIdAlreadySet));
    assert_eq!(module, FarmModule::Created(the_farm(0)));
}

#[test]
fn a_failed_issuance_refunds_the_fee() {
    let mut module = FarmModule::Pending;
    let refund = answer(&mut module, None, TOKEN_ISSUANCE_COST).unwrap().unwrap();
    assert_eq!(refund.to, owner());
    assert_eq!(refund.token_identifier, EgldOrEsdtTokenIdentifier::Egld);
    assert_eq!(refund.amount, num(TOKEN_ISSUANCE_COST));
    assert_eq!(module, FarmModule::NotSet);
    assert!(ask(&mut module, 1000, TOKEN_ISSUANCE_COST, 2000, 9000, 10, 1).is_ok());
}

#[test]
fn nothing_is_refunded_where_nothing_came_back() {
    let mut module = FarmModule::Pending;
    assert_eq!(answer(&mut module, None, 0), Ok(None));
    assert_eq!(module, FarmModule::NotSet);
    let mut module = FarmModule::Pending;
    let refund = module.share_token_issuance_callback(
        &owner(),
        &staked(),
        &reward(),
        2000,
        9000,
        &num(10),
        &num(1),
        None,
        &reward(),
        &num(5),
    );
    assert_eq!(refund, Ok(None));
    let mut created = FarmModule::Created(the_farm(7));
    assert!(answer(&mut created, None, 5).unwrap().is_some());
    assert_eq!(created, FarmModule::Created(the_farm(7)));
}

#[test]
fn farm_info_needs_a_farm() {
    assert_eq!(FarmModule::NotSet.get_farm_info(), Err(Error::InvalidTokenId));
    assert_eq!(FarmModule::Pending.get_farm_info(), Err(Error::InvalidTokenId));
}

#[test]
fn the_start_moves_while_it_lies_ahead() {
    let mut module = FarmModule::Created(the_farm(0));
    assert_eq!(module.modify_start_ts(&admins(), &admin(), 1000, 3000), Ok(()));
    assert_eq!(module.get_farm_info().unwrap().start_ts_ms, 3000);
    assert_eq!(module.modify_start_ts(&admins(), &admin(), 1000, 1000), Err(Error::WrongStartTs));
    assert_eq!(module.modify_start_ts(&admins(), &admin(), 3000, 5000), Err(Error::AlreadyStarted));
    assert_eq!(module.modify_start_ts(&admins(), &stranger(), 1000, 5000), Err(Error::NotAdmin));
    assert_eq!(module.get_farm_info().unwrap().start_ts_ms, 3000);
    let mut none = FarmModule::NotSet;
    assert_eq!(none.modify_start_ts(&admins(), &admin(), 0, 5000), Err(Error::AlreadyStarted));
}

#[test]
fn the_end_moves_while_it_lies_ahead() {
    let mut module = FarmModule::Created(the_farm(0));
    assert_eq!(module.modify_end_ts(&admins(), &admin(), 1000, 12_000), Ok(()));
    assert_eq!(module.get_farm_info().unwrap().end_ts_ms, 12_000);
    assert_eq!(module.modify_end_ts(&admins(), &admin(), 1000, 1000), Err(Error::WrongTimeframe));
    assert_eq!(module.modify_end_ts(&admins(), &admin(), 12_000, 13_000), Err(Error::AlreadyEnded));
    assert_eq!(module.modify_end_ts(&admins(), &stranger(), 1000, 13_000), Err(Error::NotAdmin));
    assert_eq!(module.get_farm_info().unwrap().end_ts_ms, 12_000);
    let mut pending = FarmModule::Pending;
    assert_eq!(pending.modify_end_ts(&admins(), &admin(), 0, 5000), Err(Error::AlreadyEnded));
}

#[test]
fn the_rates_change_before_the_end() {
    let mut module = FarmModule::Created(the_farm(0));
    assert_eq!(module.modify_rewards(&admins(), &admin(), 1000, num(3), num(4)), Ok(()));
    let info = module.get_farm_info().unwrap();
    assert_eq!(info.reward_per_sec, num(3));
    assert_eq!(info.reward_per_share, num(4));
    assert_eq!(
        module.modify_rewards(&admins(), &admin(), 1000, num(0), num(4)),
        Err(Error::WrongRewardValues)
    );
    assert_eq!(
        module.modify_rewards(&admins(), &admin(), 9000, num(1), num(1)),
        Err(Error::AlreadyEnded)
    );
    assert_eq!(
        module.modify_rewards(&admins(), &stranger(), 1000, num(1), num(1)),
        Err(Error::NotAdmin)
    );
    assert_eq!(module.get_farm_info().unwrap().reward_per_sec, num(3));
}

#[test]
fn deposits_fill_the_reserve() {
    let mut module = FarmModule::Created(the_farm(5));
    assert_eq!(module.deposit_rewards(&admins(), &admin(), &reward(), &num(10)), Ok(()));
    assert_eq!(module, FarmModule::Created(the_farm(15)));
    assert_eq!(
        module.deposit_rewards(&admins(), &admin(), &reward(), &num(0)),
        Err(Error::ZeroAmount)
    );
    assert_eq!(
        module.deposit_rewards(&admins(), &admin(), &staked(), &num(10)),
        Err(Error::InvalidRewardToken)
    );
    assert_eq!(
        module.deposit_rewards(&admins(), &admin(), &EgldOrEsdtTokenIdentifier::Egld, &num(0)),
        Err(Error::InvalidRewardToken)
    );
    assert_eq!(
        module.deposit_rewards(&admins(), &stranger(), &reward(), &num(10)),
        Err(Error::NotAdmin)
    );
    assert_eq!(module, FarmModule::Created(the_farm(15)));
    let mut none = FarmModule::NotSet;
    assert_eq!(
        none.deposit_rewards(&admins(), &admin(), &reward(), &num(10)),
        Err(Error::InvalidRewardToken)
    );
}

#[test]
fn withdrawals_pay_the_admin_from_the_reserve() {
    let mut module = FarmModule::Created(the_farm(15));
    let payment = module.withdraw_rewards(&admins(), &admin(), &num(10)).unwrap();
    assert_eq!(payment.to, admin());
    assert_eq!(payment.token_identifier, reward());
    assert_eq!(payment.amount, num(10));
    assert_eq!(module, FarmModule::Created(the_farm(5)));
    assert_eq!(
        module.withdraw_rewards(&admins(), &admin(), &num(6)),
        Err(Error::InsufficientReserve)
    );
    assert_eq!(module.withdraw_rewards(&admins(), &admin(), &num(0)), Err(Error::ZeroAmount));
    assert_eq!(module.withdraw_rewards(&admins(), &stranger(), &num(1)), Err(Error::NotAdmin));
    assert_eq!(module.withdraw_rewards(&admins(), &owner(), &num(1)), Err(Error::NotAdmin));
    assert_eq!(module, FarmModule::Created(the_farm(5)));
    assert!(module.withdraw_rewards(&admins(), &admin(), &num(5)).is_ok());
    assert_eq!(module, FarmModule::Created(the_farm(0)));
    let mut none = FarmModule::NotSet;
    assert_eq!(
        none.withdraw_rewards(&admins(), &admin(), &num(1)),
        Err(Error::InsufficientReserve)
    );
}

#[test]
fn the_start_does_not_move_to_the_end_or_past_it() {
    let mut module = FarmModule::Created(the_farm(0));
    assert_eq!(module.modify_start_ts(&admins(), &admin(), 1000, 9000), Err(Error::WrongTimeframe));
    assert_eq!(
        module.modify_start_ts(&admins(), &admin(), 1000, 30_000),
        Err(Error::WrongTimeframe)
    );
    assert_eq!(module, FarmModule::Created(the_farm(0)));
    assert_eq!(module.modify_start_ts(&admins(), &admin(), 1000, 8999), Ok(()));
    let info = module.get_farm_info().unwrap();
    assert_eq!(info.start_ts_ms, 8999);
    assert_eq!(info.end_ts_ms, 9000);
    assert_eq!(module.modify_start_ts(&admins(), &admin(), 1000, 500), Err(Error::WrongStartTs));
}

#[test]
fn the_end_does_not_move_to_the_start_or_before_it() {
    let mut module = FarmModule::Created(the_farm(0));
    assert_eq!(module.modify_end_ts(&admins(), &admin(), 1000, 2000), Err(Error::WrongTimeframe));
    assert_eq!(module.modify_end_ts(&admins(), &admin(), 1000, 1500), Err(Error::WrongTimeframe));
    assert_eq!(module.modify_end_ts(&admins(), &admin(), 1000, 1000), Err(Error::WrongTimeframe));
    assert_eq!(module, FarmModule::Created(the_farm(0)));
    assert_eq!(module.modify_end_ts(&admins(), &admin(), 1000, 2001), Ok(()));
    let info = module.get_farm_info().unwrap();
    assert_eq!(info.start_ts_ms, 2000);
    assert_eq!(info.end_ts_ms, 2001);
}

#[test]
fn a_farm_that_has_started_moves_its_end_only_past_the_start() {
    let mut module = FarmModule::Created(the_farm(0));
    assert_eq!(module.modify_end_ts(&admins(), &admin(), 5000, 7000), Ok(()));
    assert_eq!(module.get_farm_info().unwrap().end_ts_ms, 7000);
    assert_eq!(module.modify_start_ts(&admins(), &admin(), 5000, 6000), Err(Error::AlreadyStarted));
}
