//! Round trips: constructing a call value, encoding it, and decoding the
//! bytes must reproduce the original arguments exactly, for every operation
//! with a tag of its own.
use ztg_runtime_lib::adapter::ZtgRuntimeExample;
use ztg_runtime_lib::decode::decode_runtime_call;
use ztg_runtime_lib::encode::encode_runtime_call;
use ztg_runtime_lib::primitives::{
    AccountId, Deadlines, MarketCreation, MarketDisputeMechanism, MarketPeriod, MarketType,
    MultiHash, OutcomeReport, Perbill, PeriodRange, ScalarRange, ScoringRule, VoteItem,
    ZeitgeistAsset,
};
use ztg_runtime_lib::runtime_structs::RuntimeCall;

fn adapter() -> ZtgRuntimeExample {
    ZtgRuntimeExample::default()
}

fn account(fill: u8) -> AccountId {
    AccountId { bytes: vec![fill; 32] }
}

fn assert_roundtrip(call: RuntimeCall) {
    let bytes = encode_runtime_call(&call);
    let back = decode_runtime_call(&bytes);
    assert_eq!(back, Some(call));
}

#[test]
fn asset_manager_roundtrips() {
    assert_roundtrip(adapter().transfer(account(9), u128::MAX));
    assert_roundtrip(adapter().transfer(account(0), 0));
}

#[test]
fn authorized_roundtrips() {
    assert_roundtrip(adapter().authorize_market_outcome(7, OutcomeReport::Categorical(2)));
    assert_roundtrip(adapter().authorize_market_outcome(u128::MAX, OutcomeReport::Scalar(3)));
}

#[test]
fn court_roundtrips() {
    let a = adapter();
    assert_roundtrip(a.join_court(1_000_000_000_000));
    assert_roundtrip(a.delegate(40, vec![account(1), account(2), account(3)]));
    assert_roundtrip(a.delegate(40, Vec::new()));
    assert_roundtrip(a.prepare_exit_court());
    assert_roundtrip(a.exit_court(account(5)));
    assert_roundtrip(a.vote(123_456, vec![0xEE; 32]));
    assert_roundtrip(a.denounce_vote(
        9,
        account(8),
        VoteItem::Outcome(OutcomeReport::Categorical(1)),
        vec![0x11; 32],
    ));
    assert_roundtrip(a.reveal_vote(2, VoteItem::Binary(true), vec![0x22; 32]));
    assert_roundtrip(a.reveal_vote(2, VoteItem::Binary(false), vec![0x23; 32]));
    assert_roundtrip(a.appeal(77));
    assert_roundtrip(a.reassign_court_stakes(78));
    assert_roundtrip(a.set_inflation(Perbill { parts: 25_000_000 }));
}

#[test]
fn swaps_roundtrips() {
    let a = adapter();
    assert_roundtrip(a.pool_exit(1, 2, vec![3, 4, 5]));
    assert_roundtrip(a.pool_exit_with_exact_asset_amount(1, ZeitgeistAsset::PoolShare, 2, 3));
    assert_roundtrip(a.pool_exit_with_exact_pool_amount(1, ZeitgeistAsset::ScalarOutcome, 2, 3));
    assert_roundtrip(a.pool_join(1, 2, vec![]));
    assert_roundtrip(a.pool_join_with_exact_asset_amount(1, ZeitgeistAsset::Ztg, 2, 3));
    assert_roundtrip(
        a.pool_join_with_exact_pool_amount(1, ZeitgeistAsset::CombinatorialOutcome, 2, 3),
    );
    assert_roundtrip(a.swap_exact_amount_in(
        1,
        ZeitgeistAsset::Ztg,
        2,
        ZeitgeistAsset::ForeignAsset(4),
        Some(5),
        None,
    ));
    assert_roundtrip(a.swap_exact_amount_out(
        1,
        ZeitgeistAsset::ParimutuelShare(6, 7),
        None,
        ZeitgeistAsset::Ztg,
        8,
        Some(9),
    ));
    assert_roundtrip(a.force_pool_exit(account(3), 1, 2, vec![10, 20]));
}

#[test]
fn prediction_markets_roundtrips() {
    let a = adapter();
    assert_roundtrip(a.admin_move_market_to_closed(1));
    assert_roundtrip(a.admin_move_market_to_resolved(2));
    assert_roundtrip(a.approve_market(3));
    assert_roundtrip(a.buy_complete_set(4, 5));
    assert_roundtrip(a.dispute(6));
    assert_roundtrip(a.redeem_shares(7));
    assert_roundtrip(a.reject_market(8, b"too vague".to_vec()));
    assert_roundtrip(a.report(9, OutcomeReport::Scalar(1_000)));
    assert_roundtrip(a.sell_complete_set(10, 11));
    assert_roundtrip(a.start_global_dispute(12));
    assert_roundtrip(a.schedule_early_close(13));
    assert_roundtrip(a.dispute_early_close(14));
    assert_roundtrip(a.reject_early_close(15));
    assert_roundtrip(a.close_trusted_market(16));
    assert_roundtrip(a.manually_close_market(17));
}

#[test]
fn create_market_roundtrips() {
    let call = adapter().create_market(
        ZeitgeistAsset::Ztg,
        Perbill { parts: 10_000_000 },
        account(0xCC),
        MarketPeriod::Block(PeriodRange { start: 100, end: 200 }),
        Deadlines { grace_period: 1, oracle_duration: 2, dispute_duration: 3 },
        MultiHash::Sha3_384(vec![0xAA; 50]),
        MarketCreation::Permissionless,
        MarketType::Categorical(5),
        Some(MarketDisputeMechanism::Court),
        ScoringRule::Lmsr,
    );
    assert_roundtrip(call);
}

#[test]
fn edit_market_roundtrips() {
    let call = adapter().edit_market(
        ZeitgeistAsset::ForeignAsset(1),
        42,
        account(0xCD),
        MarketPeriod::Timestamp(PeriodRange { start: 5, end: 9 }),
        Deadlines { grace_period: 0, oracle_duration: 0, dispute_duration: 0 },
        MultiHash::Sha3_384(vec![0u8; 50]),
        MarketType::Scalar(ScalarRange { start: 1, end: u128::MAX }),
        None,
        ScoringRule::Orderbook,
    );
    assert_roundtrip(call);
}

#[test]
fn create_market_and_deploy_pool_roundtrips() {
    let call = adapter().create_market_and_deploy_pool(
        ZeitgeistAsset::Ztg,
        Perbill { parts: 0 },
        account(0xCE),
        MarketPeriod::Block(PeriodRange { start: 0, end: u64::MAX }),
        Deadlines { grace_period: 9, oracle_duration: 8, dispute_duration: 7 },
        MultiHash::Sha3_384((0..50).collect()),
        MarketType::Categorical(2),
        Some(MarketDisputeMechanism::SimpleDisputes),
        1_000_000,
        vec![500_000, 500_000],
        100,
    );
    assert_roundtrip(call);
}

#[test]
fn styx_roundtrips() {
    assert_roundtrip(adapter().cross());
    assert_roundtrip(adapter().set_burn_amount(144));
}

#[test]
fn global_disputes_roundtrips() {
    let a = adapter();
    assert_roundtrip(a.add_vote_outcome(1, OutcomeReport::Categorical(0)));
    assert_roundtrip(a.purge_outcomes(2));
    assert_roundtrip(a.reward_outcome_owner(3));
    assert_roundtrip(a.vote_on_outcome(4, OutcomeReport::Scalar(5), 6));
    assert_roundtrip(a.unlock_vote_balance(account(0x77)));
    assert_roundtrip(a.refund_vote_fees(7));
}

#[test]
fn neo_swaps_roundtrips() {
    let a = adapter();
    assert_roundtrip(a.neoswap_buy(1, 2, ZeitgeistAsset::CategoricalOutcome(1, 0), 3, 4));
    assert_roundtrip(a.neoswap_sell(5, 6, ZeitgeistAsset::CategoricalOutcome(5, 1), 7, 8));
    assert_roundtrip(a.neoswap_join(9, 10, vec![11, 12]));
    assert_roundtrip(a.neoswap_exit(13, 14, vec![15]));
    assert_roundtrip(a.neoswap_withdraw_fees(16));
    assert_roundtrip(a.neoswap_deploy_pool(17, 18, vec![19, 20, 21], 22));
}

#[test]
fn orderbook_roundtrips() {
    let a = adapter();
    assert_roundtrip(a.remove_order(u128::MAX));
    assert_roundtrip(a.fill_order(1, Some(2)));
    assert_roundtrip(a.fill_order(3, None));
    assert_roundtrip(a.place_order(4, ZeitgeistAsset::Ztg, 5, ZeitgeistAsset::PoolShare, 6));
}

#[test]
fn parimutuel_roundtrips() {
    let a = adapter();
    assert_roundtrip(a.parimutuel_buy(ZeitgeistAsset::ParimutuelShare(1, 2), 3));
    assert_roundtrip(a.parimutuel_claim_rewards(4));
    assert_roundtrip(a.parimutuel_claim_refunds(ZeitgeistAsset::CategoricalOutcome(5, 6)));
}

#[test]
fn request_edit_decodes_as_an_approval() {
    // The edit request carries no registry position of its own and is laid
    // down at its list position, which coincides with the approval
    // operation's tag; decoding resolves the shared tag to the approval.
    let a = adapter();
    let bytes = encode_runtime_call(&a.request_edit(5, b"reason".to_vec()));
    let back = decode_runtime_call(&bytes);
    assert_eq!(back, Some(a.approve_market(5)));
}

#[test]
fn truncated_input_fails_to_decode() {
    let call = adapter().set_burn_amount(144);
    let mut bytes = encode_runtime_call(&call);
    bytes.pop();
    assert_eq!(decode_runtime_call(&bytes), None);
    assert_eq!(decode_runtime_call(&Vec::new()), None);
}

#[test]
fn unknown_pallet_tag_fails_to_decode() {
    assert_eq!(decode_runtime_call(&vec![41, 0, 0]), None);
    assert_eq!(decode_runtime_call(&vec![0, 0]), None);
}

#[test]
fn trailing_bytes_are_ignored_like_the_reference_decoder() {
    let call = adapter().cross();
    let mut bytes = encode_runtime_call(&call);
    bytes.extend([1, 2, 3]);
    assert_eq!(decode_runtime_call(&bytes), Some(call));
}
