use multiversx_sc::types::{
    BigUint as ChainNumber, EgldOrEsdtTokenIdentifier as ChainAsset,
    EsdtTokenIdentifier as ChainToken,
};
use multiversx_sc_scenario::api::StaticApi;
use staking_farm::biguint::BigUint;
use staking_farm::rewards::RewardsModule;
use staking_farm::structs::{
    EgldOrEsdtTokenIdentifier, Farm, ShareTokenAttributes, TokenIdentifier,
};

fn on_chain(x: &BigUint) -> ChainNumber<StaticApi> {
    ChainNumber::from_bytes_be(&x.to_bytes_be())
}

fn off_chain(x: &ChainNumber<StaticApi>) -> BigUint {
    BigUint::from_bytes_be(x.to_bytes_be().as_slice())
}

fn samples() -> Vec<BigUint> {
    let mut list = vec![
        BigUint::zero(),
        BigUint::from_u64(1),
        BigUint::from_u64(2),
        BigUint::from_u64(255),
        BigUint::from_u64(256),
        BigUint::from_u64(1000),
        BigUint::from_u64(u32::MAX as u64),
        BigUint::from_u64(u32::MAX as u64 + 1),
        BigUint::from_u64(u64::MAX),
        BigUint::from_u128(u64::MAX as u128 + 1),
        BigUint::from_u128(1_000_000_000_000_000_000_000_000_000),
        BigUint::from_u128(u128::MAX),
        BigUint::from_u128(u128::MAX).add(&BigUint::from_u64(1)),
        BigUint::from_u128(u128::MAX).mul(&BigUint::from_u128(u128::MAX)),
    ];
    let mut seed: u64 = 0x2545_f491_4f6c_dd1d;
    for _ in 0..12 {
        let mut bytes: Vec<u8> = Vec::new();
        seed ^= seed << 13;
        seed ^= seed >> 7;
        seed ^= seed << 17;
        let len = 1 + (seed % 40) as usize;
        for _ in 0..len {
            seed ^= seed << 13;
            seed ^= seed >> 7;
            seed ^= seed << 17;
            bytes.push((seed >> 24) as u8);
        }
        list.push(BigUint::from_bytes_be(&bytes));
    }
    list
}

#[test]
fn numbers_cross_to_the_chain_and_back() {
    for x in samples() {
        assert_eq!(off_chain(&on_chain(&x)), x);
        assert_eq!(on_chain(&x).to_bytes_be().as_slice(), &x.to_bytes_be()[..]);
    }
    assert_eq!(on_chain(&BigUint::from_u64(77)), ChainNumber::<StaticApi>::from(77u64));
    assert_eq!(off_chain(&ChainNumber::<StaticApi>::zero()), BigUint::zero());
}

#[test]
fn sums_and_products_agree_with_the_chain() {
    let list = samples();
    for x in list.iter() {
        for y in list.iter() {
            assert_eq!(on_chain(&x.add(y)), &on_chain(x) + &on_chain(y));
            assert_eq!(on_chain(&x.mul(y)), &on_chain(x) * &on_chain(y));
        }
    }
}

#[test]
fn differences_and_order_agree_with_the_chain() {
    let list = samples();
    for x in list.iter() {
        for y in list.iter() {
            let (a, b) = (on_chain(x), on_chain(y));
            assert_eq!(x.lt(y), a < b);
            assert_eq!(x.le(y), a <= b);
            assert_eq!(x.gt(y), a > b);
            assert_eq!(x.ge(y), a >= b);
            assert_eq!(x.equals(y), a == b);
            assert_eq!(x == y, a == b);
            match x.checked_sub(y) {
                Some(d) => assert_eq!(on_chain(&d), &a - &b),
                None => assert!(a < b),
            }
        }
    }
}

#[test]
fn quotients_agree_with_the_chain() {
    let list = samples();
    for x in list.iter() {
        for y in list.iter() {
            match x.checked_div_rem(y) {
                Some((q, r)) => {
                    assert_eq!(on_chain(&q), &on_chain(x) / &on_chain(y));
                    assert_eq!(on_chain(&r), &on_chain(x) % &on_chain(y));
                }
                None => assert!(y.is_zero()),
            }
            assert_eq!(x.checked_div(y).is_none(), y.is_zero());
        }
    }
}

#[test]
fn rewards_agree_with_the_chain() {
    let list = samples();
    let seconds: [u64; 5] = [0, 1, 5, 86_400, (u64::MAX - 1122) / 1000];
    for (i, rate) in list.iter().enumerate() {
        let amount = &list[(i * 7 + 3) % list.len()];
        let share = &list[(i * 5 + 1) % list.len()];
        if share.is_zero() {
            continue;
        }
        for elapsed in seconds {
            let farm = Farm {
                staked_token: EgldOrEsdtTokenIdentifier::Egld,
                share_token: TokenIdentifier { bytes: b"SHARE-abcdef".to_vec() },
                reward_token: EgldOrEsdtTokenIdentifier::Egld,
                rewards_reserve: BigUint::zero(),
                start_ts_ms: 0,
                end_ts_ms: u64::MAX,
                reward_per_sec: rate.clone(),
                reward_per_share: share.clone(),
            };
            let attributes = ShareTokenAttributes { update_ts_ms: 123 }.top_encode();
            let now = 123u64.checked_add(elapsed * 1000 + 999).unwrap();
            let ours = RewardsModule::calculate_reward(&farm, &attributes, amount, now).unwrap();
            let theirs = &on_chain(rate) * elapsed * &on_chain(amount) / &on_chain(share);
            assert_eq!(on_chain(&ours.reward_amount), theirs);
            assert_eq!(ours.token_supply, amount.clone());
        }
    }
}

fn asset_on_chain(asset: &EgldOrEsdtTokenIdentifier) -> ChainAsset<StaticApi> {
    match asset {
        EgldOrEsdtTokenIdentifier::Egld => ChainAsset::egld(),
        EgldOrEsdtTokenIdentifier::Esdt(token) => {
            ChainAsset::esdt(ChainToken::<StaticApi>::from(token.bytes.as_slice()))
        }
    }
}

#[test]
fn assets_are_the_same_where_the_chain_says_so() {
    let assets = vec![
        EgldOrEsdtTokenIdentifier::Egld,
        EgldOrEsdtTokenIdentifier::Esdt(TokenIdentifier { bytes: b"STAKE-123456".to_vec() }),
        EgldOrEsdtTokenIdentifier::Esdt(TokenIdentifier { bytes: b"STAKE-123457".to_vec() }),
        EgldOrEsdtTokenIdentifier::Esdt(TokenIdentifier { bytes: b"SHARE-abcdef".to_vec() }),
    ];
    let share = TokenIdentifier { bytes: b"SHARE-abcdef".to_vec() };
    let share_on_chain = ChainToken::<StaticApi>::from(share.bytes.as_slice());
    for a in assets.iter() {
        for b in assets.iter() {
            assert_eq!(a.equals(b), asset_on_chain(a) == asset_on_chain(b));
        }
        assert_eq!(a.is_egld(), asset_on_chain(a).is_egld());
        assert_eq!(a.is_esdt(&share), asset_on_chain(a) == share_on_chain);
    }
}

#[test]
fn names_and_accounts_cross_to_the_chain_and_back() {
    let token = TokenIdentifier { bytes: b"SHARE-abcdef".to_vec() };
    let token_on_chain = ChainToken::<StaticApi>::from(token.bytes.as_slice());
    let back = TokenIdentifier {
        bytes: token_on_chain.as_managed_buffer().to_boxed_bytes().into_vec(),
    };
    assert_eq!(back, token);

    let asset = EgldOrEsdtTokenIdentifier::Esdt(token.clone());
    let there = asset_on_chain(&asset);
    assert!(!there.is_egld());
    let back = EgldOrEsdtTokenIdentifier::Esdt(TokenIdentifier {
        bytes: there.as_managed_buffer().to_boxed_bytes().into_vec(),
    });
    assert_eq!(back, asset);
    assert!(asset_on_chain(&EgldOrEsdtTokenIdentifier::Egld).is_egld());

    let account = staking_farm::structs::Address { bytes: (1u8..=32).collect() };
    let mut bytes = [0u8; 32];
    bytes.copy_from_slice(account.bytes.as_slice());
    let there = multiversx_sc::types::ManagedAddress::<StaticApi>::from(bytes);
    let back = staking_farm::structs::Address { bytes: there.to_byte_array().to_vec() };
    assert_eq!(back, account);

    let attributes = ShareTokenAttributes { update_ts_ms: 5000 }.top_encode();
    let buffer = multiversx_sc::types::ManagedBuffer::<StaticApi>::new_from_bytes(&attributes);
    assert_eq!(buffer.to_boxed_bytes().into_vec(), attributes);
    assert_eq!(
        multiversx_sc::codec::top_encode_to_vec_u8(&buffer).unwrap(),
        attributes
    );
}
