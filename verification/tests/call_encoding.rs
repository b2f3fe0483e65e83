//! Whole-call encodings: pallet tags at their registry positions and exact
//! byte layouts for representative operations, cross-checked against bytes
//! assembled with the host ecosystem's codec.
use parity_scale_codec::{Compact, Encode};
use ztg_runtime_lib::adapter::ZtgRuntimeExample;
use ztg_runtime_lib::encode::encode_runtime_call;
use ztg_runtime_lib::primitives::{
    AccountId, Deadlines, MarketCreation, MarketDisputeMechanism, MarketPeriod, MarketType,
    MultiHash, OutcomeReport, Perbill, PeriodRange, ScoringRule, ZeitgeistAsset,
};

fn adapter() -> ZtgRuntimeExample {
    ZtgRuntimeExample::default()
}

fn account(fill: u8) -> AccountId {
    AccountId { bytes: vec![fill; 32] }
}

#[test]
fn pallet_tags_sit_at_their_registry_positions() {
    let a = adapter();
    let cases: Vec<(u8, ztg_runtime_lib::runtime_structs::RuntimeCall)> = vec![
        (40, a.transfer(account(1), 10)),
        (51, a.authorize_market_outcome(3, OutcomeReport::Scalar(9))),
        (52, a.join_court(5)),
        (56, a.force_pool_exit(account(2), 1, 2, vec![3])),
        (57, a.redeem_shares(8)),
        (58, a.cross()),
        (59, a.purge_outcomes(4)),
        (60, a.neoswap_withdraw_fees(6)),
        (61, a.remove_order(11)),
        (62, a.parimutuel_claim_rewards(12)),
    ];
    for (tag, call) in cases {
        let bytes = encode_runtime_call(&call);
        assert_eq!(bytes[0], tag, "pallet tag for {call:?}");
    }
}

#[test]
fn set_burn_amount_of_144_has_the_expected_bytes() {
    let call = adapter().set_burn_amount(144);
    let bytes = encode_runtime_call(&call);
    // Styx pallet tag, the set-burn-amount operation tag, then compact 144.
    assert_eq!(bytes, vec![58, 1, 0x41, 0x02]);
    let mut expected = vec![58u8, 1];
    expected.extend(Compact(144u128).encode());
    assert_eq!(bytes, expected);
}

#[test]
fn transfer_has_the_expected_bytes() {
    let call = adapter().transfer(account(0xAB), 1_000_000);
    let bytes = encode_runtime_call(&call);
    let mut expected: Vec<u8> = vec![40, 0];
    expected.push(0); // the by-account-id arm of the host's addressing union
    expected.extend([0xABu8; 32]);
    expected.push(4); // the native-currency asset
    expected.extend(Compact(1_000_000u128).encode());
    assert_eq!(bytes, expected);
}

#[test]
fn join_court_amount_is_fixed_width() {
    let call = adapter().join_court(300);
    let bytes = encode_runtime_call(&call);
    let mut expected: Vec<u8> = vec![52, 0];
    expected.extend(300u128.encode());
    assert_eq!(bytes, expected);
    assert_eq!(bytes.len(), 2 + 16);
}

#[test]
fn vote_mixes_compact_id_and_raw_hash() {
    let hash = vec![0x5Au8; 32];
    let call = adapter().vote(70, hash.clone());
    let bytes = encode_runtime_call(&call);
    let mut expected: Vec<u8> = vec![52, 4];
    expected.extend(Compact(70u128).encode());
    expected.extend(hash);
    assert_eq!(bytes, expected);
}

#[test]
fn place_order_has_the_expected_bytes() {
    let call = adapter().place_order(
        9,
        ZeitgeistAsset::CategoricalOutcome(9, 1),
        250,
        ZeitgeistAsset::Ztg,
        125,
    );
    let bytes = encode_runtime_call(&call);
    let mut expected: Vec<u8> = vec![61, 2];
    expected.extend(Compact(9u128).encode());
    expected.push(0);
    expected.extend(9u128.encode());
    expected.extend(1u16.encode());
    expected.extend(Compact(250u128).encode());
    expected.push(4);
    expected.extend(Compact(125u128).encode());
    assert_eq!(bytes, expected);
}

#[test]
fn request_edit_shares_the_approval_tag() {
    let a = adapter();
    let edit = encode_runtime_call(&a.request_edit(5, b"why".to_vec()));
    let approve = encode_runtime_call(&a.approve_market(5));
    assert_eq!(edit[1], 3);
    assert_eq!(approve[1], 3);
    assert_eq!(&edit[..approve.len()], &approve[..]);
}

#[test]
fn create_market_matches_reference_assembly() {
    let digest: Vec<u8> = (0u8..50).collect();
    let call = adapter().create_market(
        ZeitgeistAsset::Ztg,
        Perbill { parts: 10_000_000 },
        account(0xCC),
        MarketPeriod::Block(PeriodRange { start: 100, end: 200 }),
        Deadlines { grace_period: 1, oracle_duration: 2, dispute_duration: 3 },
        MultiHash::Sha3_384(digest.clone()),
        MarketCreation::Advised,
        MarketType::Categorical(5),
        Some(MarketDisputeMechanism::Court),
        ScoringRule::Lmsr,
    );
    let bytes = encode_runtime_call(&call);

    let mut expected: Vec<u8> = vec![57, 8];
    expected.push(4); // the native-currency asset
    expected.extend(10_000_000u32.encode()); // the fee fraction's parts
    expected.extend([0xCCu8; 32]); // the oracle account
    expected.push(0); // a block-number period
    expected.extend((100u64..200u64).encode());
    expected.extend((1u64, 2u64, 3u64).encode()); // the three deadlines
    expected.push(0); // the one metadata digest kind
    expected.extend(&digest);
    expected.push(1); // advised creation
    expected.push(0); // a categorical market
    expected.extend(5u16.encode());
    expected.push(1); // a dispute mechanism is present
    expected.push(1); // court
    expected.push(0); // the automated-market-maker scoring rule
    assert_eq!(bytes, expected);
}
