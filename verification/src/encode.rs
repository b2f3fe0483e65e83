//! The executable encoder: one function per pallet union and one for the
//! top-level call, each proved to lay down exactly the bytes that the spec
//! functions of `runtime_structs` describe.
use vstd::prelude::*;

use crate::codec::{
    enc_balance_list, enc_byte_list, enc_compact, enc_opt_u128, enc_raw, enc_u128, enc_u16,
    lemma_add_assoc, push_byte,
};
use crate::primitives::{
    enc_account, enc_account_list, enc_asset, enc_creation, enc_deadlines, enc_lookup,
    enc_market_type, enc_multihash, enc_opt_mdm, enc_outcome, enc_perbill, enc_period, enc_scoring,
    enc_vote_item,
};
use crate::primitives::{
    AccountId, Deadlines, MarketCreation, MarketDisputeMechanism, MarketPeriod, MarketType,
    MultiHash, Perbill, ScoringRule, ZeitgeistAsset,
};
use crate::runtime_structs::{
    spec_enc_asset_manager, spec_enc_authorized, spec_enc_call, spec_enc_court,
    spec_enc_global_disputes, spec_enc_neo_swaps, spec_enc_orderbook, spec_enc_parimutuel,
    spec_enc_pm_create_market, spec_enc_pm_create_market_and_deploy_pool, spec_enc_pm_edit_market,
    spec_enc_prediction_markets, spec_enc_styx, spec_enc_swaps, AssetManagerCall, AuthorizedCall,
    CourtCall, GlobalDisputesCall, NeoSwapsCall, OrderbookCall, ParimutelCall,
    PredictionMarketsCall, RuntimeCall, StyxCall, SwapsCall,
};

verus! {

pub fn enc_asset_manager(out: &mut Vec<u8>, c: &AssetManagerCall)
    ensures
        final(out)@ == old(out)@ + spec_enc_asset_manager(c@),
{
    broadcast use lemma_add_assoc;

    match c {
        AssetManagerCall::Transfer { dest, currency_id, amount } => {
            push_byte(out, 0);
            enc_lookup(out, dest);
            enc_asset(out, currency_id);
            enc_compact(out, *amount);
        },
    }
}

pub fn enc_authorized(out: &mut Vec<u8>, c: &AuthorizedCall)
    ensures
        final(out)@ == old(out)@ + spec_enc_authorized(*c),
{
    broadcast use lemma_add_assoc;

    match c {
        AuthorizedCall::AuthorizeMarketOutcome { market_id, outcome } => {
            push_byte(out, 0);
            enc_u128(out, *market_id);
            enc_outcome(out, outcome);
        },
    }
}

pub fn enc_court(out: &mut Vec<u8>, c: &CourtCall)
    ensures
        final(out)@ == old(out)@ + spec_enc_court(c@),
{
    broadcast use lemma_add_assoc;

    match c {
        CourtCall::JoinCourt { amount } => {
            push_byte(out, 0);
            enc_u128(out, *amount);
        },
        CourtCall::Delegate { amount, delegations } => {
            push_byte(out, 1);
            enc_u128(out, *amount);
            enc_account_list(out, delegations);
        },
        CourtCall::PrepareExitCourt => {
            push_byte(out, 2);
        },
        CourtCall::ExitCourt { court_participant } => {
            push_byte(out, 3);
            enc_lookup(out, court_participant);
        },
        CourtCall::Vote { court_id, commitment_vote } => {
            push_byte(out, 4);
            enc_compact(out, *court_id);
            enc_raw(out, commitment_vote);
        },
        CourtCall::DenounceVote { court_id, juror, vote_item, salt } => {
            push_byte(out, 5);
            enc_compact(out, *court_id);
            enc_lookup(out, juror);
            enc_vote_item(out, vote_item);
            enc_raw(out, salt);
        },
        CourtCall::RevealVote { court_id, vote_item, salt } => {
            push_byte(out, 6);
            enc_compact(out, *court_id);
            enc_vote_item(out, vote_item);
            enc_raw(out, salt);
        },
        CourtCall::Appeal { court_id } => {
            push_byte(out, 7);
            enc_compact(out, *court_id);
        },
        CourtCall::ReassignCourtStakes { court_id } => {
            push_byte(out, 8);
            enc_u128(out, *court_id);
        },
        CourtCall::SetInflation { inflation } => {
            push_byte(out, 9);
            enc_perbill(out, inflation);
        },
    }
}

pub fn enc_swaps(out: &mut Vec<u8>, c: &SwapsCall)
    ensures
        final(out)@ == old(out)@ + spec_enc_swaps(c@),
{
    broadcast use lemma_add_assoc;

    match c {
        SwapsCall::PoolExit { pool_id, pool_amount, min_assets_out } => {
            push_byte(out, 1);
            enc_compact(out, *pool_id);
            enc_compact(out, *pool_amount);
            enc_balance_list(out, min_assets_out);
        },
        SwapsCall::PoolExitWithExactAssetAmount { pool_id, asset, asset_amount, max_pool_amount } => {
            push_byte(out, 3);
            enc_compact(out, *pool_id);
            enc_asset(out, asset);
            enc_compact(out, *asset_amount);
            enc_compact(out, *max_pool_amount);
        },
        SwapsCall::PoolExitWithExactPoolAmount { pool_id, asset, pool_amount, min_asset_amount } => {
            push_byte(out, 4);
            enc_compact(out, *pool_id);
            enc_asset(out, asset);
            enc_compact(out, *pool_amount);
            enc_compact(out, *min_asset_amount);
        },
        SwapsCall::PoolJoin { pool_id, pool_amount, max_assets_in } => {
            push_byte(out, 5);
            enc_compact(out, *pool_id);
            enc_compact(out, *pool_amount);
            enc_balance_list(out, max_assets_in);
        },
        SwapsCall::PoolJoinWithExactAssetAmount {
            pool_id,
            asset_in,
            asset_amount,
            min_pool_amount,
        } => {
            push_byte(out, 7);
            enc_compact(out, *pool_id);
            enc_asset(out, asset_in);
            enc_compact(out, *asset_amount);
            enc_compact(out, *min_pool_amount);
        },
        SwapsCall::PoolJoinWithExactPoolAmount { pool_id, asset, pool_amount, max_asset_amount } => {
            push_byte(out, 8);
            enc_compact(out, *pool_id);
            enc_asset(out, asset);
            enc_compact(out, *pool_amount);
            enc_compact(out, *max_asset_amount);
        },
        SwapsCall::SwapExactAmountIn {
            pool_id,
            asset_in,
            asset_amount_in,
            asset_out,
            min_asset_amount_out,
            max_price,
        } => {
            push_byte(out, 9);
            enc_compact(out, *pool_id);
            enc_asset(out, asset_in);
            enc_compact(out, *asset_amount_in);
            enc_asset(out, asset_out);
            enc_opt_u128(out, min_asset_amount_out);
            enc_opt_u128(out, max_price);
        },
        SwapsCall::SwapExactAmountOut {
            pool_id,
            asset_in,
            max_asset_amount_in,
            asset_out,
            asset_amount_out,
            max_price,
        } => {
            push_byte(out, 10);
            enc_compact(out, *pool_id);
            enc_asset(out, asset_in);
            enc_opt_u128(out, max_asset_amount_in);
            enc_asset(out, asset_out);
            enc_compact(out, *asset_amount_out);
            enc_opt_u128(out, max_price);
        },
        SwapsCall::ForcePoolExit { who, pool_id, pool_amount, min_assets_out } => {
            push_byte(out, 11);
            enc_account(out, who);
            enc_compact(out, *pool_id);
            enc_compact(out, *pool_amount);
            enc_balance_list(out, min_assets_out);
        },
    }
}

fn enc_pm_create_market(
    out: &mut Vec<u8>,
    base_asset: &ZeitgeistAsset,
    creator_fee: &Perbill,
    oracle: &AccountId,
    period: &MarketPeriod,
    deadlines: &Deadlines,
    metadata: &MultiHash,
    creation: &MarketCreation,
    market_type: &MarketType,
    dispute_mechanism: &Option<MarketDisputeMechanism>,
    scoring_rule: &ScoringRule,
)
    ensures
        final(out)@ == old(out)@ + spec_enc_pm_create_market(
            *base_asset,
            *creator_fee,
            oracle@,
            *period,
            *deadlines,
            metadata@,
            *creation,
            *market_type,
            *dispute_mechanism,
            *scoring_rule,
        ),
{
    broadcast use lemma_add_assoc;

    push_byte(out, 8);
    enc_asset(out, base_asset);
    enc_perbill(out, creator_fee);
    enc_account(out, oracle);
    enc_period(out, period);
    enc_deadlines(out, deadlines);
    enc_multihash(out, metadata);
    enc_creation(out, creation);
    enc_market_type(out, market_type);
    enc_opt_mdm(out, dispute_mechanism);
    enc_scoring(out, scoring_rule);
}

fn enc_pm_edit_market(
    out: &mut Vec<u8>,
    base_asset: &ZeitgeistAsset,
    market_id: &u128,
    oracle: &AccountId,
    period: &MarketPeriod,
    deadlines: &Deadlines,
    metadata: &MultiHash,
    market_type: &MarketType,
    dispute_mechanism: &Option<MarketDisputeMechanism>,
    scoring_rule: &ScoringRule,
)
    ensures
        final(out)@ == old(out)@ + spec_enc_pm_edit_market(
            *base_asset,
            *market_id,
            oracle@,
            *period,
            *deadlines,
            metadata@,
            *market_type,
            *dispute_mechanism,
            *scoring_rule,
        ),
{
    broadcast use lemma_add_assoc;

    push_byte(out, 9);
    enc_asset(out, base_asset);
    enc_u128(out, *market_id);
    enc_account(out, oracle);
    enc_period(out, period);
    enc_deadlines(out, deadlines);
    enc_multihash(out, metadata);
    enc_market_type(out, market_type);
    enc_opt_mdm(out, dispute_mechanism);
    enc_scoring(out, scoring_rule);
}

fn enc_pm_create_market_and_deploy_pool(
    out: &mut Vec<u8>,
    base_asset: &ZeitgeistAsset,
    creator_fee: &Perbill,
    oracle: &AccountId,
    period: &MarketPeriod,
    deadlines: &Deadlines,
    metadata: &MultiHash,
    market_type: &MarketType,
    dispute_mechanism: &Option<MarketDisputeMechanism>,
    amount: &u128,
    spot_prices: &Vec<u128>,
    swap_fee: &u128,
)
    ensures
        final(out)@ == old(out)@ + spec_enc_pm_create_market_and_deploy_pool(
            *base_asset,
            *creator_fee,
            oracle@,
            *period,
            *deadlines,
            metadata@,
            *market_type,
            *dispute_mechanism,
            *amount,
            spot_prices@,
            *swap_fee,
        ),
{
    broadcast use lemma_add_assoc;

    push_byte(out, 17);
    enc_asset(out, base_asset);
    enc_perbill(out, creator_fee);
    enc_account(out, oracle);
    enc_period(out, period);
    enc_deadlines(out, deadlines);
    enc_multihash(out, metadata);
    enc_market_type(out, market_type);
    enc_opt_mdm(out, dispute_mechanism);
    enc_compact(out, *amount);
    enc_balance_list(out, spot_prices);
    enc_compact(out, *swap_fee);
}

#[verifier::rlimit(100)]
pub fn enc_prediction_markets(out: &mut Vec<u8>, c: &PredictionMarketsCall)
    ensures
        final(out)@ == old(out)@ + spec_enc_prediction_markets(c@),
{
    broadcast use lemma_add_assoc;

    match c {
        PredictionMarketsCall::AdminMoveMarketToClosed { market_id } => {
            push_byte(out, 1);
            enc_compact(out, *market_id);
        },
        PredictionMarketsCall::AdminMoveMarketToResolved { market_id } => {
            push_byte(out, 2);
            enc_compact(out, *market_id);
        },
        PredictionMarketsCall::ApproveMarket { market_id } => {
            push_byte(out, 3);
            enc_compact(out, *market_id);
        },
        PredictionMarketsCall::RequestEdit { market_id, edit_reason } => {
            push_byte(out, 3);
            enc_compact(out, *market_id);
            enc_byte_list(out, edit_reason);
        },
        PredictionMarketsCall::BuyCompleteSet { market_id, amount } => {
            push_byte(out, 5);
            enc_compact(out, *market_id);
            enc_compact(out, *amount);
        },
        PredictionMarketsCall::Dispute { market_id } => {
            push_byte(out, 6);
            enc_compact(out, *market_id);
        },
        PredictionMarketsCall::CreateMarket {
            base_asset,
            creator_fee,
            oracle,
            period,
            deadlines,
            metadata,
            creation,
            market_type,
            dispute_mechanism,
            scoring_rule,
        } => {
            enc_pm_create_market(
                out,
                base_asset,
                creator_fee,
                oracle,
                period,
                deadlines,
                metadata,
                creation,
                market_type,
                dispute_mechanism,
                scoring_rule,
            );
        },
        PredictionMarketsCall::EditMarket {
            base_asset,
            market_id,
            oracle,
            period,
            deadlines,
            metadata,
            market_type,
            dispute_mechanism,
            scoring_rule,
        } => {
            enc_pm_edit_market(
                out,
                base_asset,
                market_id,
                oracle,
                period,
                deadlines,
                metadata,
                market_type,
                dispute_mechanism,
                scoring_rule,
            );
        },
        PredictionMarketsCall::RedeemShares { market_id } => {
            push_byte(out, 12);
            enc_compact(out, *market_id);
        },
        PredictionMarketsCall::RejectMarket { market_id, reject_reason } => {
            push_byte(out, 13);
            enc_compact(out, *market_id);
            enc_byte_list(out, reject_reason);
        },
        PredictionMarketsCall::Report { market_id, outcome } => {
            push_byte(out, 14);
            enc_compact(out, *market_id);
            enc_outcome(out, outcome);
        },
        PredictionMarketsCall::SellCompleteSet { market_id, amount } => {
            push_byte(out, 15);
            enc_compact(out, *market_id);
            enc_compact(out, *amount);
        },
        PredictionMarketsCall::StartGlobalDispute { market_id } => {
            push_byte(out, 16);
            enc_compact(out, *market_id);
        },
        PredictionMarketsCall::CreateMarketAndDeployPool {
            base_asset,
            creator_fee,
            oracle,
            period,
            deadlines,
            metadata,
            market_type,
            dispute_mechanism,
            amount,
            spot_prices,
            swap_fee,
        } => {
            enc_pm_create_market_and_deploy_pool(
                out,
                base_asset,
                creator_fee,
                oracle,
                period,
                deadlines,
                metadata,
                market_type,
                dispute_mechanism,
                amount,
                spot_prices,
                swap_fee,
            );
        },
        PredictionMarketsCall::ScheduleEarlyClose { market_id } => {
            push_byte(out, 18);
            enc_compact(out, *market_id);
        },
        PredictionMarketsCall::DisputeEarlyClose { market_id } => {
            push_byte(out, 19);
            enc_compact(out, *market_id);
        },
        PredictionMarketsCall::RejectEarlyClose { market_id } => {
            push_byte(out, 20);
            enc_compact(out, *market_id);
        },
        PredictionMarketsCall::CloseTrustedMarket { market_id } => {
            push_byte(out, 21);
            enc_compact(out, *market_id);
        },
        PredictionMarketsCall::ManuallyCloseMarket { market_id } => {
            push_byte(out, 22);
            enc_compact(out, *market_id);
        },
    }
}

pub fn enc_styx(out: &mut Vec<u8>, c: &StyxCall)
    ensures
        final(out)@ == old(out)@ + spec_enc_styx(*c),
{
    broadcast use lemma_add_assoc;

    match c {
        StyxCall::Cross => {
            push_byte(out, 0);
        },
        StyxCall::SetBurnAmount { amount } => {
            push_byte(out, 1);
            enc_compact(out, *amount);
        },
    }
}

pub fn enc_global_disputes(out: &mut Vec<u8>, c: &GlobalDisputesCall)
    ensures
        final(out)@ == old(out)@ + spec_enc_global_disputes(c@),
{
    broadcast use lemma_add_assoc;

    match c {
        GlobalDisputesCall::AddVoteOutcome { market_id, outcome } => {
            push_byte(out, 0);
            enc_compact(out, *market_id);
            enc_outcome(out, outcome);
        },
        GlobalDisputesCall::RefundVoteFees { market_id } => {
            push_byte(out, 5);
            enc_compact(out, *market_id);
        },
        GlobalDisputesCall::PurgeOutcomes { market_id } => {
            push_byte(out, 1);
            enc_compact(out, *market_id);
        },
        GlobalDisputesCall::RewardOutcomeOwner { market_id } => {
            push_byte(out, 2);
            enc_compact(out, *market_id);
        },
        GlobalDisputesCall::VoteOnOutcome { market_id, outcome, amount } => {
            push_byte(out, 3);
            enc_compact(out, *market_id);
            enc_outcome(out, outcome);
            enc_compact(out, *amount);
        },
        GlobalDisputesCall::UnlockVoteBalance { voter } => {
            push_byte(out, 4);
            enc_lookup(out, voter);
        },
    }
}

pub fn enc_neo_swaps(out: &mut Vec<u8>, c: &NeoSwapsCall)
    ensures
        final(out)@ == old(out)@ + spec_enc_neo_swaps(c@),
{
    broadcast use lemma_add_assoc;

    match c {
        NeoSwapsCall::Buy { market_id, asset_count, asset_out, amount_in, min_amount_out } => {
            push_byte(out, 0);
            enc_compact(out, *market_id);
            enc_u16(out, *asset_count);
            enc_asset(out, asset_out);
            enc_compact(out, *amount_in);
            enc_compact(out, *min_amount_out);
        },
        NeoSwapsCall::Sell { market_id, asset_count, asset_in, amount_in, min_amount_out } => {
            push_byte(out, 1);
            enc_compact(out, *market_id);
            enc_u16(out, *asset_count);
            enc_asset(out, asset_in);
            enc_compact(out, *amount_in);
            enc_compact(out, *min_amount_out);
        },
        NeoSwapsCall::Join { market_id, pool_shares_amount, max_amounts_in } => {
            push_byte(out, 2);
            enc_compact(out, *market_id);
            enc_compact(out, *pool_shares_amount);
            enc_balance_list(out, max_amounts_in);
        },
        NeoSwapsCall::Exit { market_id, pool_shares_amount_out, min_amounts_out } => {
            push_byte(out, 3);
            enc_compact(out, *market_id);
            enc_compact(out, *pool_shares_amount_out);
            enc_balance_list(out, min_amounts_out);
        },
        NeoSwapsCall::WithdrawFees { market_id } => {
            push_byte(out, 4);
            enc_compact(out, *market_id);
        },
        NeoSwapsCall::DeployPool { market_id, amount, spot_prices, swap_fee } => {
            push_byte(out, 5);
            enc_compact(out, *market_id);
            enc_compact(out, *amount);
            enc_balance_list(out, spot_prices);
            enc_compact(out, *swap_fee);
        },
    }
}

pub fn enc_orderbook(out: &mut Vec<u8>, c: &OrderbookCall)
    ensures
        final(out)@ == old(out)@ + spec_enc_orderbook(*c),
{
    broadcast use lemma_add_assoc;

    match c {
        OrderbookCall::RemoveOrder { order_id } => {
            push_byte(out, 0);
            enc_u128(out, *order_id);
        },
        OrderbookCall::FillOrder { order_id, maker_partial_fill } => {
            push_byte(out, 1);
            enc_u128(out, *order_id);
            enc_opt_u128(out, maker_partial_fill);
        },
        OrderbookCall::PlaceOrder {
            market_id,
            maker_asset,
            maker_amount,
            taker_asset,
            taker_amount,
        } => {
            push_byte(out, 2);
            enc_compact(out, *market_id);
            enc_asset(out, maker_asset);
            enc_compact(out, *maker_amount);
            enc_asset(out, taker_asset);
            enc_compact(out, *taker_amount);
        },
    }
}

pub fn enc_parimutuel(out: &mut Vec<u8>, c: &ParimutelCall)
    ensures
        final(out)@ == old(out)@ + spec_enc_parimutuel(*c),
{
    broadcast use lemma_add_assoc;

    match c {
        ParimutelCall::Buy { asset, amount } => {
            push_byte(out, 0);
            enc_asset(out, asset);
            enc_compact(out, *amount);
        },
        ParimutelCall::ClaimRewards { market_id } => {
            push_byte(out, 1);
            enc_u128(out, *market_id);
        },
        ParimutelCall::ClaimRefunds { refund_asset } => {
            push_byte(out, 2);
            enc_asset(out, refund_asset);
        },
    }
}

pub fn enc_call(out: &mut Vec<u8>, c: &RuntimeCall)
    ensures
        final(out)@ == old(out)@ + spec_enc_call(c@),
{
    broadcast use lemma_add_assoc;

    match c {
        RuntimeCall::AssetManager(x) => {
            push_byte(out, 40);
            enc_asset_manager(out, x);
        },
        RuntimeCall::Authorized(x) => {
            push_byte(out, 51);
            enc_authorized(out, x);
        },
        RuntimeCall::Court(x) => {
            push_byte(out, 52);
            enc_court(out, x);
        },
        RuntimeCall::Swaps(x) => {
            push_byte(out, 56);
            enc_swaps(out, x);
        },
        RuntimeCall::PredictionMarkets(x) => {
            push_byte(out, 57);
            enc_prediction_markets(out, x);
        },
        RuntimeCall::Styx(x) => {
            push_byte(out, 58);
            enc_styx(out, x);
        },
        RuntimeCall::GlobalDisputes(x) => {
            push_byte(out, 59);
            enc_global_disputes(out, x);
        },
        RuntimeCall::NeoSwaps(x) => {
            push_byte(out, 60);
            enc_neo_swaps(out, x);
        },
        RuntimeCall::Orderbook(x) => {
            push_byte(out, 61);
            enc_orderbook(out, x);
        },
        RuntimeCall::Parimutuel(x) => {
            push_byte(out, 62);
            enc_parimutuel(out, x);
        },
    }
}

/// The byte form of a call, exactly as the host runtime's dispatcher reads it.
pub fn encode_runtime_call(c: &RuntimeCall) -> (r: Vec<u8>)
    ensures
        r@ == spec_enc_call(c@),
{
    broadcast use crate::codec::lemma_add_empty;

    let mut out: Vec<u8> = Vec::new();
    proof {
        assert(out@ =~= Seq::<u8>::empty());
    }
    enc_call(&mut out, c);
    out
}

} // verus!
