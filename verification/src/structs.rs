//! The values that the farm's operations take and give.

use crate::biguint::{be_bytes_value, byte_weight, BigUint};
use crate::errors::Error;
use vstd::prelude::*;

verus! {

/// Whether two byte strings hold the same bytes.
pub fn bytes_equal(a: &Vec<u8>, b: &Vec<u8>) -> (same: bool)
    ensures
        same == (a@ == b@),
{
    if a.len() != b.len() {
        return false;
    }
    let mut i: usize = 0;
    while i < a.len()
        invariant
            i <= a.len(),
            a.len() == b.len(),
            a@.take(i as int) == b@.take(i as int),
        decreases a.len() - i,
    {
        if a[i] != b[i] {
            return false;
        }
        proof {
            assert(a@.take(i + 1) =~= a@.take(i as int).push(a@[i as int]));
            assert(b@.take(i + 1) =~= b@.take(i as int).push(b@[i as int]));
        }
        i = i + 1;
    }
    proof {
        assert(a@.take(a.len() as int) =~= a@);
        assert(b@.take(b.len() as int) =~= b@);
    }
    true
}

/// A copy of a byte string.
pub fn bytes_clone(a: &Vec<u8>) -> (copy: Vec<u8>)
    ensures
        copy@ == a@,
{
    let copy: Vec<u8> = a.clone();
    proof {
        assert(copy@ =~= a@);
    }
    copy
}

/// The name of an issued token class.
#[derive(Debug, PartialEq, Eq)]
pub struct TokenIdentifier {
    pub bytes: Vec<u8>,
}

impl View for TokenIdentifier {
    type V = Seq<u8>;

    open spec fn view(&self) -> Seq<u8> {
        self.bytes@
    }
}

impl TokenIdentifier {
    /// Whether both name the same token class.
    pub fn equals(&self, other: &TokenIdentifier) -> (same: bool)
        ensures
            same == (self@ == other@),
    {
        bytes_equal(&self.bytes, &other.bytes)
    }
}

impl Clone for TokenIdentifier {
    fn clone(&self) -> (copy: TokenIdentifier)
        ensures
            copy@ == self@,
    {
        TokenIdentifier { bytes: bytes_clone(&self.bytes) }
    }
}

/// The native asset or an issued token class. In views the native asset is
/// `None`.
#[derive(Debug, PartialEq, Eq)]
pub enum EgldOrEsdtTokenIdentifier {
    Egld,
    Esdt(TokenIdentifier),
}

impl View for EgldOrEsdtTokenIdentifier {
    type V = Option<Seq<u8>>;

    open spec fn view(&self) -> Option<Seq<u8>> {
        match self {
            EgldOrEsdtTokenIdentifier::Egld => None,
            EgldOrEsdtTokenIdentifier::Esdt(token) => Some(token@),
        }
    }
}

impl EgldOrEsdtTokenIdentifier {
    /// Whether this is the native asset.
    pub fn is_egld(&self) -> (native: bool)
        ensures
            native == (self@ is None),
    {
        match self {
            EgldOrEsdtTokenIdentifier::Egld => true,
            EgldOrEsdtTokenIdentifier::Esdt(_) => false,
        }
    }

    /// Whether both name the same asset.
    pub fn equals(&self, other: &EgldOrEsdtTokenIdentifier) -> (same: bool)
        ensures
            same == (self@ == other@),
    {
        match self {
            EgldOrEsdtTokenIdentifier::Egld => other.is_egld(),
            EgldOrEsdtTokenIdentifier::Esdt(token) => other.is_esdt(token),
        }
    }

    /// Whether this is the token class `token`. The native asset is none.
    pub fn is_esdt(&self, token: &TokenIdentifier) -> (same: bool)
        ensures
            same == (self@ == Some(token@)),
    {
        match self {
            EgldOrEsdtTokenIdentifier::Egld => false,
            EgldOrEsdtTokenIdentifier::Esdt(own) => own.equals(token),
        }
    }
}

impl Clone for EgldOrEsdtTokenIdentifier {
    fn clone(&self) -> (copy: EgldOrEsdtTokenIdentifier)
        ensures
            copy@ == self@,
    {
        match self {
            EgldOrEsdtTokenIdentifier::Egld => EgldOrEsdtTokenIdentifier::Egld,
            EgldOrEsdtTokenIdentifier::Esdt(token) => EgldOrEsdtTokenIdentifier::Esdt(
                token.clone(),
            ),
        }
    }
}

/// An account.
#[derive(Debug, PartialEq, Eq)]
pub struct Address {
    pub bytes: Vec<u8>,
}

impl View for Address {
    type V = Seq<u8>;

    open spec fn view(&self) -> Seq<u8> {
        self.bytes@
    }
}

impl DeepView for Address {
    type V = Seq<u8>;

    open spec fn deep_view(&self) -> Seq<u8> {
        self@
    }
}

impl Address {
    /// Whether both are the same account.
    pub fn equals(&self, other: &Address) -> (same: bool)
        ensures
            same == (self@ == other@),
    {
        bytes_equal(&self.bytes, &other.bytes)
    }
}

impl Clone for Address {
    fn clone(&self) -> (copy: Address)
        ensures
            copy@ == self@,
    {
        Address { bytes: bytes_clone(&self.bytes) }
    }
}

/// What [`EgldOrEsdtTokenPayment`] holds, as plain values.
pub struct EgldOrEsdtTokenPaymentView {
    pub token_identifier: Option<Seq<u8>>,
    pub token_nonce: u64,
    pub amount: nat,
    pub attributes: Seq<u8>,
}

/// An amount of some asset that came with a call. `attributes` holds what is
/// stored with the token of that nonce; an asset without attributes has none.
#[derive(Debug, PartialEq, Eq)]
pub struct EgldOrEsdtTokenPayment {
    pub token_identifier: EgldOrEsdtTokenIdentifier,
    pub token_nonce: u64,
    pub amount: BigUint,
    pub attributes: Vec<u8>,
}

impl View for EgldOrEsdtTokenPayment {
    type V = EgldOrEsdtTokenPaymentView;

    open spec fn view(&self) -> EgldOrEsdtTokenPaymentView {
        EgldOrEsdtTokenPaymentView {
            token_identifier: self.token_identifier@,
            token_nonce: self.token_nonce,
            amount: self.amount@,
            attributes: self.attributes@,
        }
    }
}

impl DeepView for EgldOrEsdtTokenPayment {
    type V = EgldOrEsdtTokenPaymentView;

    open spec fn deep_view(&self) -> EgldOrEsdtTokenPaymentView {
        self@
    }
}

impl Clone for EgldOrEsdtTokenPayment {
    fn clone(&self) -> (copy: EgldOrEsdtTokenPayment)
        ensures
            copy@ == self@,
    {
        EgldOrEsdtTokenPayment {
            token_identifier: self.token_identifier.clone(),
            token_nonce: self.token_nonce,
            amount: self.amount.clone(),
            attributes: bytes_clone(&self.attributes),
        }
    }
}

/// What [`EsdtTokenPayment`] holds, as plain values.
pub struct EsdtTokenPaymentView {
    pub token_identifier: Seq<u8>,
    pub token_nonce: u64,
    pub amount: nat,
    pub attributes: Seq<u8>,
}

/// An amount of an issued token that came with a call, with the attributes
/// stored with the token of that nonce.
#[derive(Debug, PartialEq, Eq)]
pub struct EsdtTokenPayment {
    pub token_identifier: TokenIdentifier,
    pub token_nonce: u64,
    pub amount: BigUint,
    pub attributes: Vec<u8>,
}

impl View for EsdtTokenPayment {
    type V = EsdtTokenPaymentView;

    open spec fn view(&self) -> EsdtTokenPaymentView {
        EsdtTokenPaymentView {
            token_identifier: self.token_identifier@,
            token_nonce: self.token_nonce,
            amount: self.amount@,
            attributes: self.attributes@,
        }
    }
}

impl DeepView for EsdtTokenPayment {
    type V = EsdtTokenPaymentView;

    open spec fn deep_view(&self) -> EsdtTokenPaymentView {
        self@
    }
}

impl Clone for EsdtTokenPayment {
    fn clone(&self) -> (copy: EsdtTokenPayment)
        ensures
            copy@ == self@,
    {
        EsdtTokenPayment {
            token_identifier: self.token_identifier.clone(),
            token_nonce: self.token_nonce,
            amount: self.amount.clone(),
            attributes: bytes_clone(&self.attributes),
        }
    }
}

/// What [`Farm`] holds, as plain values.
pub struct FarmView {
    pub staked_token: Option<Seq<u8>>,
    pub share_token: Seq<u8>,
    pub reward_token: Option<Seq<u8>>,
    pub rewards_reserve: nat,
    pub start_ts_ms: u64,
    pub end_ts_ms: u64,
    pub reward_per_sec: nat,
    pub reward_per_share: nat,
}

/// A farm: the asset that is staked, the token class of its positions, the
/// asset that is earned and what is left of it, the farm's time frame in
/// milliseconds, and the two numbers that set the pace of the reward.
#[derive(Debug, PartialEq, Eq)]
pub struct Farm {
    pub staked_token: EgldOrEsdtTokenIdentifier,
    pub share_token: TokenIdentifier,
    pub reward_token: EgldOrEsdtTokenIdentifier,
    pub rewards_reserve: BigUint,
    pub start_ts_ms: u64,
    pub end_ts_ms: u64,
    pub reward_per_sec: BigUint,
    pub reward_per_share: BigUint,
}

impl View for Farm {
    type V = FarmView;

    open spec fn view(&self) -> FarmView {
        FarmView {
            staked_token: self.staked_token@,
            share_token: self.share_token@,
            reward_token: self.reward_token@,
            rewards_reserve: self.rewards_reserve@,
            start_ts_ms: self.start_ts_ms,
            end_ts_ms: self.end_ts_ms,
            reward_per_sec: self.reward_per_sec@,
            reward_per_share: self.reward_per_share@,
        }
    }
}

impl Clone for Farm {
    fn clone(&self) -> (copy: Farm)
        ensures
            copy@ == self@,
    {
        Farm {
            staked_token: self.staked_token.clone(),
            share_token: self.share_token.clone(),
            reward_token: self.reward_token.clone(),
            rewards_reserve: self.rewards_reserve.clone(),
            start_ts_ms: self.start_ts_ms,
            end_ts_ms: self.end_ts_ms,
            reward_per_sec: self.reward_per_sec.clone(),
            reward_per_share: self.reward_per_share.clone(),
        }
    }
}

/// What [`ShareToken`] holds, as plain values.
pub struct ShareTokenView {
    pub nonce: u64,
    pub amount: nat,
}

/// An amount of the share token of one nonce.
#[derive(Debug, PartialEq, Eq)]
pub struct ShareToken {
    pub nonce: u64,
    pub amount: BigUint,
}

impl View for ShareToken {
    type V = ShareTokenView;

    open spec fn view(&self) -> ShareTokenView {
        ShareTokenView { nonce: self.nonce, amount: self.amount@ }
    }
}

impl DeepView for ShareToken {
    type V = ShareTokenView;

    open spec fn deep_view(&self) -> ShareTokenView {
        self@
    }
}

impl Clone for ShareToken {
    fn clone(&self) -> (copy: ShareToken)
        ensures
            copy@ == self@,
    {
        ShareToken { nonce: self.nonce, amount: self.amount.clone() }
    }
}

/// What is stored with a share token: when its reward was last settled, in
/// milliseconds.
#[derive(Clone, Copy, Debug, PartialEq, Eq, Structural)]
pub struct ShareTokenAttributes {
    pub update_ts_ms: u64,
}

/// The `n` lowest base-256 digits of `x`, the highest first.
pub open spec fn be_digits(x: nat, n: nat) -> Seq<u8>
    decreases n,
{
    if n == 0 {
        Seq::empty()
    } else {
        be_digits(x / 256, (n - 1) as nat).push((x % 256) as u8)
    }
}

/// The eight bytes of `x`, the highest first.
pub open spec fn u64_be_bytes(x: u64) -> Seq<u8> {
    be_digits(x as nat, 8)
}

pub proof fn lemma_be_digits_len(x: nat, n: nat)
    ensures
        be_digits(x, n).len() == n,
    decreases n,
{
    if n > 0 {
        lemma_be_digits_len(x / 256, (n - 1) as nat);
    }
}

/// The digits of a number that fits in `n` digits stand for that number.
pub proof fn lemma_be_digits_value(x: nat, n: nat)
    requires
        x < byte_weight(n),
    ensures
        be_bytes_value(be_digits(x, n)) == x,
    decreases n,
{
    if n > 0 {
        let front = be_digits(x / 256, (n - 1) as nat);
        lemma_be_digits_value(x / 256, (n - 1) as nat);
        assert(be_digits(x, n).drop_last() =~= front);
    }
}

/// What the stored bytes of a share token's attributes decode to: eight bytes
/// are a time in milliseconds, the highest byte first; fewer are too short,
/// more are too long.
pub open spec fn decoded_attributes(bytes: Seq<u8>) -> Result<ShareTokenAttributes, Error> {
    if bytes.len() < 8 {
        Err(Error::AttributesTooShort)
    } else if bytes.len() > 8 {
        Err(Error::AttributesTooLong)
    } else {
        Ok(ShareTokenAttributes { update_ts_ms: be_bytes_value(bytes) as u64 })
    }
}

/// Eight bytes stand for a number below 2 to the power 64, which is the sum
/// of the bytes at their weights.
pub proof fn lemma_eight_bytes_value(bytes: Seq<u8>)
    requires
        bytes.len() == 8,
    ensures
        be_bytes_value(bytes) == bytes[0] * 0x100_0000_0000_0000 + bytes[1] * 0x1_0000_0000_0000
            + bytes[2] * 0x100_0000_0000 + bytes[3] * 0x1_0000_0000 + bytes[4] * 0x100_0000
            + bytes[5] * 0x1_0000 + bytes[6] * 0x100 + bytes[7],
        be_bytes_value(bytes) <= u64::MAX,
{
    let s7 = bytes.drop_last();
    let s6 = s7.drop_last();
    let s5 = s6.drop_last();
    let s4 = s5.drop_last();
    let s3 = s4.drop_last();
    let s2 = s3.drop_last();
    let s1 = s2.drop_last();
    let s0 = s1.drop_last();
    assert(be_bytes_value(s0) == 0);
    assert(be_bytes_value(s1) == bytes[0]);
    assert(be_bytes_value(s2) == be_bytes_value(s1) * 256 + bytes[1]);
    assert(be_bytes_value(s3) == be_bytes_value(s2) * 256 + bytes[2]);
    assert(be_bytes_value(s4) == be_bytes_value(s3) * 256 + bytes[3]);
    assert(be_bytes_value(s5) == be_bytes_value(s4) * 256 + bytes[4]);
    assert(be_bytes_value(s6) == be_bytes_value(s5) * 256 + bytes[5]);
    assert(be_bytes_value(s7) == be_bytes_value(s6) * 256 + bytes[6]);
    assert(be_bytes_value(bytes) == be_bytes_value(s7) * 256 + bytes[7]);
}

/// What was encoded decodes to itself.
pub proof fn lemma_attributes_round_trip(attributes: ShareTokenAttributes)
    ensures
        decoded_attributes(u64_be_bytes(attributes.update_ts_ms)) == Ok::<
            ShareTokenAttributes,
            Error,
        >(attributes),
{
    let x = attributes.update_ts_ms as nat;
    lemma_be_digits_len(x, 8);
    assert(byte_weight(8) == 0x1_0000_0000_0000_0000) by {
        reveal_with_fuel(byte_weight, 9);
    }
    lemma_be_digits_value(x, 8);
}

impl ShareTokenAttributes {
    /// The bytes that are stored with the share token.
    pub fn top_encode(&self) -> (bytes: Vec<u8>)
        ensures
            bytes@ == u64_be_bytes(self.update_ts_ms),
    {
        let x7: u64 = self.update_ts_ms;
        let x6: u64 = x7 / 256;
        let x5: u64 = x6 / 256;
        let x4: u64 = x5 / 256;
        let x3: u64 = x4 / 256;
        let x2: u64 = x3 / 256;
        let x1: u64 = x2 / 256;
        let x0: u64 = x1 / 256;
        let mut bytes: Vec<u8> = Vec::new();
        bytes.push((x0 % 256) as u8);
        bytes.push((x1 % 256) as u8);
        bytes.push((x2 % 256) as u8);
        bytes.push((x3 % 256) as u8);
        bytes.push((x4 % 256) as u8);
        bytes.push((x5 % 256) as u8);
        bytes.push((x6 % 256) as u8);
        bytes.push((x7 % 256) as u8);
        proof {
            reveal_with_fuel(be_digits, 9);
            assert(bytes@ =~= be_digits(x7 as nat, 8));
        }
        bytes
    }

    /// The attributes that stored bytes stand for.
    pub fn top_decode(bytes: &Vec<u8>) -> (decoded: Result<ShareTokenAttributes, Error>)
        ensures
            decoded == decoded_attributes(bytes@),
    {
        if bytes.len() < 8 {
            return Err(Error::AttributesTooShort);
        }
        if bytes.len() > 8 {
            return Err(Error::AttributesTooLong);
        }
        proof {
            lemma_eight_bytes_value(bytes@);
        }
        let update_ts_ms: u64 = (bytes[0] as u64) * 0x100_0000_0000_0000 + (bytes[1] as u64)
            * 0x1_0000_0000_0000 + (bytes[2] as u64) * 0x100_0000_0000 + (bytes[3] as u64)
            * 0x1_0000_0000 + (bytes[4] as u64) * 0x100_0000 + (bytes[5] as u64) * 0x1_0000 + (
        bytes[6] as u64) * 0x100 + (bytes[7] as u64);
        Ok(ShareTokenAttributes { update_ts_ms })
    }
}

/// What [`ShareTokenMergedData`] holds, as plain values.
pub struct ShareTokenMergedDataView {
    pub update_ts_ms: u64,
    pub token_supply: nat,
    pub reward_amount: nat,
}

/// The supply of share tokens that were settled and the reward they earned.
#[derive(Debug, PartialEq, Eq)]
pub struct ShareTokenMergedData {
    pub update_ts_ms: u64,
    pub token_supply: BigUint,
    pub reward_amount: BigUint,
}

impl View for ShareTokenMergedData {
    type V = ShareTokenMergedDataView;

    open spec fn view(&self) -> ShareTokenMergedDataView {
        ShareTokenMergedDataView {
            update_ts_ms: self.update_ts_ms,
            token_supply: self.token_supply@,
            reward_amount: self.reward_amount@,
        }
    }
}

impl Clone for ShareTokenMergedData {
    fn clone(&self) -> (copy: ShareTokenMergedData)
        ensures
            copy@ == self@,
    {
        ShareTokenMergedData {
            update_ts_ms: self.update_ts_ms,
            token_supply: self.token_supply.clone(),
            reward_amount: self.reward_amount.clone(),
        }
    }
}

/// What [`ShareTokenMergedDataWithBurns`] holds, as plain values.
pub struct ShareTokenMergedDataWithBurnsView {
    pub update_ts_ms: u64,
    pub token_supply: nat,
    pub reward_amount: nat,
    pub token_burns: Seq<ShareTokenView>,
}

/// The supply of share tokens that were settled together, the reward they
/// earned, and the share tokens to burn for it.
#[derive(Debug, PartialEq, Eq)]
pub struct ShareTokenMergedDataWithBurns {
    pub update_ts_ms: u64,
    pub token_supply: BigUint,
    pub reward_amount: BigUint,
    pub token_burns: Vec<ShareToken>,
}

impl View for ShareTokenMergedDataWithBurns {
    type V = ShareTokenMergedDataWithBurnsView;

    open spec fn view(&self) -> ShareTokenMergedDataWithBurnsView {
        ShareTokenMergedDataWithBurnsView {
            update_ts_ms: self.update_ts_ms,
            token_supply: self.token_supply@,
            reward_amount: self.reward_amount@,
            token_burns: self.token_burns.deep_view(),
        }
    }
}

impl Clone for ShareTokenMergedDataWithBurns {
    fn clone(&self) -> (copy: ShareTokenMergedDataWithBurns)
        ensures
            copy@ == self@,
    {
        ShareTokenMergedDataWithBurns {
            update_ts_ms: self.update_ts_ms,
            token_supply: self.token_supply.clone(),
            reward_amount: self.reward_amount.clone(),
            token_burns: share_tokens_clone(&self.token_burns),
        }
    }
}

/// A copy of a list of share tokens.
pub fn share_tokens_clone(list: &Vec<ShareToken>) -> (copy: Vec<ShareToken>)
    ensures
        copy.deep_view() == list.deep_view(),
{
    let mut copy: Vec<ShareToken> = Vec::new();
    let mut i: usize = 0;
    while i < list.len()
        invariant
            i <= list.len(),
            copy.deep_view() == list.deep_view().take(i as int),
        decreases list.len() - i,
    {
        let ghost before = copy.deep_view();
        copy.push(list[i].clone());
        proof {
            assert(copy.deep_view() =~= before.push(list[i as int]@));
            assert(list.deep_view().take(i + 1) =~= list.deep_view().take(i as int).push(
                list[i as int]@,
            ));
        }
        i = i + 1;
    }
    proof {
        assert(list.deep_view().take(list.len() as int) =~= list.deep_view());
    }
    copy
}

/// What [`DirectPayment`] holds, as plain values.
pub struct DirectPaymentView {
    pub to: Seq<u8>,
    pub token_identifier: Option<Seq<u8>>,
    pub amount: nat,
}

/// An amount of an asset that is to be sent to an account.
#[derive(Debug, PartialEq, Eq)]
pub struct DirectPayment {
    pub to: Address,
    pub token_identifier: EgldOrEsdtTokenIdentifier,
    pub amount: BigUint,
}

impl View for DirectPayment {
    type V = DirectPaymentView;

    open spec fn view(&self) -> DirectPaymentView {
        DirectPaymentView {
            to: self.to@,
            token_identifier: self.token_identifier@,
            amount: self.amount@,
        }
    }
}

impl Clone for DirectPayment {
    fn clone(&self) -> (copy: DirectPayment)
        ensures
            copy@ == self@,
    {
        DirectPayment {
            to: self.to.clone(),
            token_identifier: self.token_identifier.clone(),
            amount: self.amount.clone(),
        }
    }
}

/// What [`ShareTokenMint`] holds, as plain values.
pub struct ShareTokenMintView {
    pub to: Seq<u8>,
    pub amount: nat,
    pub attributes: Seq<u8>,
}

/// A share token that is to be created under a new nonce and sent to an
/// account.
#[derive(Debug, PartialEq, Eq)]
pub struct ShareTokenMint {
    pub to: Address,
    pub amount: BigUint,
    pub attributes: Vec<u8>,
}

impl View for ShareTokenMint {
    type V = ShareTokenMintView;

    open spec fn view(&self) -> ShareTokenMintView {
        ShareTokenMintView { to: self.to@, amount: self.amount@, attributes: self.attributes@ }
    }
}

impl Clone for ShareTokenMint {
    fn clone(&self) -> (copy: ShareTokenMint)
        ensures
            copy@ == self@,
    {
        ShareTokenMint {
            to: self.to.clone(),
            amount: self.amount.clone(),
            attributes: bytes_clone(&self.attributes),
        }
    }
}

} // verus!
