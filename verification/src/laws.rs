//! The laws of the call encoding: decoding inverts encoding for every
//! well-formed call, and the first byte of every encoded call is the pallet's
//! registry position, however many operations stand beneath it.
use vstd::prelude::*;

use crate::codec::{
    lemma_add_assoc, lemma_dec_byte_list, lemma_dec_balance_list, lemma_dec_compact,
    lemma_dec_opt_u128, lemma_dec_raw, lemma_dec_u128, lemma_dec_u16, lemma_pow256_widths,
    lemma_singleton_add, spec_enc_balance_list, spec_enc_byte_list, spec_enc_compact,
    spec_enc_opt_u128, spec_enc_u128, spec_enc_u16,
};
use crate::primitives::{
    lemma_dec_account_list, lemma_dec_asset, lemma_dec_creation,
    lemma_dec_deadlines, lemma_dec_lookup, lemma_dec_market_type, lemma_dec_multihash, lemma_dec_opt_mdm, lemma_dec_outcome, lemma_dec_perbill,
    lemma_dec_period, lemma_dec_scoring, lemma_dec_vote_item, spec_enc_account_list,
    spec_enc_asset, spec_enc_deadlines, spec_enc_lookup, spec_enc_market_type, spec_enc_multihash, spec_enc_opt_mdm, spec_enc_outcome, spec_enc_perbill, spec_enc_period,
    spec_enc_scoring, spec_enc_creation, spec_enc_vote_item,
};
use crate::runtime_structs::{
    asset_manager_wf, call_wf, court_wf, global_disputes_wf, neo_swaps_wf, prediction_markets_wf,
    spec_dec_asset_manager, spec_dec_authorized, spec_dec_call, spec_dec_court,
    spec_dec_global_disputes, spec_dec_neo_swaps, spec_dec_orderbook, spec_dec_parimutuel,
    spec_dec_prediction_markets, spec_dec_styx, spec_dec_swaps, spec_enc_asset_manager,
    spec_enc_authorized, spec_enc_call, spec_enc_court, spec_enc_global_disputes,
    spec_enc_neo_swaps, spec_enc_orderbook, spec_enc_parimutuel, spec_enc_prediction_markets, spec_enc_styx, spec_enc_swaps, spec_pallet_index, swaps_wf,
    AssetManagerCallView, AuthorizedCall, CourtCallView, GlobalDisputesCallView, NeoSwapsCallView,
    OrderbookCall, ParimutelCall, PredictionMarketsCallView, RuntimeCallView, StyxCall,
    SwapsCallView,
};

verus! {

pub proof fn lemma_dec_enc_asset_manager(c: AssetManagerCallView, rest: Seq<u8>)
    requires
        asset_manager_wf(c),
    ensures
        spec_dec_asset_manager(spec_enc_asset_manager(c) + rest) == Some((c, rest)),
{
    broadcast use lemma_singleton_add, lemma_add_assoc;

    lemma_pow256_widths();
    match c {
        AssetManagerCallView::Transfer { dest, currency_id, amount } => {
            lemma_dec_lookup(dest, spec_enc_asset(currency_id) + (spec_enc_compact(amount as nat) + rest));
            lemma_dec_asset(currency_id, spec_enc_compact(amount as nat) + rest);
            lemma_dec_compact(amount as nat, rest);
        },
    }
}

pub proof fn lemma_dec_enc_authorized(c: AuthorizedCall, rest: Seq<u8>)
    ensures
        spec_dec_authorized(spec_enc_authorized(c) + rest) == Some((c, rest)),
{
    broadcast use lemma_singleton_add, lemma_add_assoc;

    match c {
        AuthorizedCall::AuthorizeMarketOutcome { market_id, outcome } => {
            lemma_dec_u128(market_id, spec_enc_outcome(outcome) + rest);
            lemma_dec_outcome(outcome, rest);
        },
    }
}

pub proof fn lemma_dec_enc_court(c: CourtCallView, rest: Seq<u8>)
    requires
        court_wf(c),
    ensures
        spec_dec_court(spec_enc_court(c) + rest) == Some((c, rest)),
{
    broadcast use lemma_singleton_add, lemma_add_assoc;

    lemma_pow256_widths();
    match c {
        CourtCallView::JoinCourt { amount } => {
            lemma_dec_u128(amount, rest);
        },
        CourtCallView::Delegate { amount, delegations } => {
            lemma_dec_u128(amount, spec_enc_account_list(delegations) + rest);
            lemma_dec_account_list(delegations, rest);
        },
        CourtCallView::PrepareExitCourt => {},
        CourtCallView::ExitCourt { court_participant } => {
            lemma_dec_lookup(court_participant, rest);
        },
        CourtCallView::Vote { court_id, commitment_vote } => {
            lemma_dec_compact(court_id as nat, commitment_vote + rest);
            lemma_dec_raw(commitment_vote, 32, rest);
        },
        CourtCallView::DenounceVote { court_id, juror, vote_item, salt } => {
            lemma_dec_compact(
                court_id as nat,
                spec_enc_lookup(juror) + (spec_enc_vote_item(vote_item) + (salt + rest)),
            );
            lemma_dec_lookup(juror, spec_enc_vote_item(vote_item) + (salt + rest));
            lemma_dec_vote_item(vote_item, salt + rest);
            lemma_dec_raw(salt, 32, rest);
        },
        CourtCallView::RevealVote { court_id, vote_item, salt } => {
            lemma_dec_compact(court_id as nat, spec_enc_vote_item(vote_item) + (salt + rest));
            lemma_dec_vote_item(vote_item, salt + rest);
            lemma_dec_raw(salt, 32, rest);
        },
        CourtCallView::Appeal { court_id } => {
            lemma_dec_compact(court_id as nat, rest);
        },
        CourtCallView::ReassignCourtStakes { court_id } => {
            lemma_dec_u128(court_id, rest);
        },
        CourtCallView::SetInflation { inflation } => {
            lemma_dec_perbill(inflation, rest);
        },
    }
}

pub proof fn lemma_dec_enc_swaps(c: SwapsCallView, rest: Seq<u8>)
    requires
        swaps_wf(c),
    ensures
        spec_dec_swaps(spec_enc_swaps(c) + rest) == Some((c, rest)),
{
    broadcast use lemma_singleton_add, lemma_add_assoc;

    lemma_pow256_widths();
    match c {
        SwapsCallView::PoolExit { pool_id, pool_amount, min_assets_out } => {
            lemma_dec_compact(
                pool_id as nat,
                spec_enc_compact(pool_amount as nat) + (spec_enc_balance_list(min_assets_out)
                    + rest),
            );
            lemma_dec_compact(pool_amount as nat, spec_enc_balance_list(min_assets_out) + rest);
            lemma_dec_balance_list(min_assets_out, rest);
        },
        SwapsCallView::PoolExitWithExactAssetAmount {
            pool_id,
            asset,
            asset_amount,
            max_pool_amount,
        } => {
            lemma_dec_compact(
                pool_id as nat,
                spec_enc_asset(asset) + (spec_enc_compact(asset_amount as nat) + (spec_enc_compact(
                    max_pool_amount as nat,
                ) + rest)),
            );
            lemma_dec_asset(
                asset,
                spec_enc_compact(asset_amount as nat) + (spec_enc_compact(max_pool_amount as nat)
                    + rest),
            );
            lemma_dec_compact(
                asset_amount as nat,
                spec_enc_compact(max_pool_amount as nat) + rest,
            );
            lemma_dec_compact(max_pool_amount as nat, rest);
        },
        SwapsCallView::PoolExitWithExactPoolAmount {
            pool_id,
            asset,
            pool_amount,
            min_asset_amount,
        } => {
            lemma_dec_compact(
                pool_id as nat,
                spec_enc_asset(asset) + (spec_enc_compact(pool_amount as nat) + (spec_enc_compact(
                    min_asset_amount as nat,
                ) + rest)),
            );
            lemma_dec_asset(
                asset,
                spec_enc_compact(pool_amount as nat) + (spec_enc_compact(min_asset_amount as nat)
                    + rest),
            );
            lemma_dec_compact(
                pool_amount as nat,
                spec_enc_compact(min_asset_amount as nat) + rest,
            );
            lemma_dec_compact(min_asset_amount as nat, rest);
        },
        SwapsCallView::PoolJoin { pool_id, pool_amount, max_assets_in } => {
            lemma_dec_compact(
                pool_id as nat,
                spec_enc_compact(pool_amount as nat) + (spec_enc_balance_list(max_assets_in)
                    + rest),
            );
            lemma_dec_compact(pool_amount as nat, spec_enc_balance_list(max_assets_in) + rest);
            lemma_dec_balance_list(max_assets_in, rest);
        },
        SwapsCallView::PoolJoinWithExactAssetAmount {
            pool_id,
            asset_in,
            asset_amount,
            min_pool_amount,
        } => {
            lemma_dec_compact(
                pool_id as nat,
                spec_enc_asset(asset_in) + (spec_enc_compact(asset_amount as nat) + (
                spec_enc_compact(min_pool_amount as nat) + rest)),
            );
            lemma_dec_asset(
                asset_in,
                spec_enc_compact(asset_amount as nat) + (spec_enc_compact(min_pool_amount as nat)
                    + rest),
            );
            lemma_dec_compact(
                asset_amount as nat,
                spec_enc_compact(min_pool_amount as nat) + rest,
            );
            lemma_dec_compact(min_pool_amount as nat, rest);
        },
        SwapsCallView::PoolJoinWithExactPoolAmount {
            pool_id,
            asset,
            pool_amount,
            max_asset_amount,
        } => {
            lemma_dec_compact(
                pool_id as nat,
                spec_enc_asset(asset) + (spec_enc_compact(pool_amount as nat) + (spec_enc_compact(
                    max_asset_amount as nat,
                ) + rest)),
            );
            lemma_dec_asset(
                asset,
                spec_enc_compact(pool_amount as nat) + (spec_enc_compact(max_asset_amount as nat)
                    + rest),
            );
            lemma_dec_compact(
                pool_amount as nat,
                spec_enc_compact(max_asset_amount as nat) + rest,
            );
            lemma_dec_compact(max_asset_amount as nat, rest);
        },
        SwapsCallView::SwapExactAmountIn {
            pool_id,
            asset_in,
            asset_amount_in,
            asset_out,
            min_asset_amount_out,
            max_price,
        } => {
            let r5 = spec_enc_opt_u128(max_price) + rest;
            let r4 = spec_enc_opt_u128(min_asset_amount_out) + r5;
            let r3 = spec_enc_asset(asset_out) + r4;
            let r2 = spec_enc_compact(asset_amount_in as nat) + r3;
            let r1 = spec_enc_asset(asset_in) + r2;
            lemma_dec_compact(pool_id as nat, r1);
            lemma_dec_asset(asset_in, r2);
            lemma_dec_compact(asset_amount_in as nat, r3);
            lemma_dec_asset(asset_out, r4);
            lemma_dec_opt_u128(min_asset_amount_out, r5);
            lemma_dec_opt_u128(max_price, rest);
        },
        SwapsCallView::SwapExactAmountOut {
            pool_id,
            asset_in,
            max_asset_amount_in,
            asset_out,
            asset_amount_out,
            max_price,
        } => {
            let r5 = spec_enc_opt_u128(max_price) + rest;
            let r4 = spec_enc_compact(asset_amount_out as nat) + r5;
            let r3 = spec_enc_asset(asset_out) + r4;
            let r2 = spec_enc_opt_u128(max_asset_amount_in) + r3;
            let r1 = spec_enc_asset(asset_in) + r2;
            lemma_dec_compact(pool_id as nat, r1);
            lemma_dec_asset(asset_in, r2);
            lemma_dec_opt_u128(max_asset_amount_in, r3);
            lemma_dec_asset(asset_out, r4);
            lemma_dec_compact(asset_amount_out as nat, r5);
            lemma_dec_opt_u128(max_price, rest);
        },
        SwapsCallView::ForcePoolExit { who, pool_id, pool_amount, min_assets_out } => {
            let r3 = spec_enc_balance_list(min_assets_out) + rest;
            let r2 = spec_enc_compact(pool_amount as nat) + r3;
            let r1 = spec_enc_compact(pool_id as nat) + r2;
            lemma_dec_raw(who, 32, r1);
            lemma_dec_compact(pool_id as nat, r2);
            lemma_dec_compact(pool_amount as nat, r3);
            lemma_dec_balance_list(min_assets_out, rest);
        },
    }
}

#[verifier::rlimit(100)]
proof fn lemma_dec_enc_pm_create_market(c: PredictionMarketsCallView, rest: Seq<u8>)
    requires
        c is CreateMarket,
        prediction_markets_wf(c),
    ensures
        spec_dec_prediction_markets(spec_enc_prediction_markets(c) + rest) == Some((c, rest)),
{
    broadcast use lemma_singleton_add, lemma_add_assoc;

    lemma_pow256_widths();
    match c {
        PredictionMarketsCallView::CreateMarket {
            base_asset,
            creator_fee,
            oracle,
            period,
            deadlines,
            metadata,
            creation,
            market_type,
            dispute_mechanism,
            scoring_rule,
        } => {
            let r9 = spec_enc_scoring(scoring_rule) + rest;
            let r8 = spec_enc_opt_mdm(dispute_mechanism) + r9;
            let r7 = spec_enc_market_type(market_type) + r8;
            let r6 = spec_enc_creation(creation) + r7;
            let r5 = spec_enc_multihash(metadata) + r6;
            let r4 = spec_enc_deadlines(deadlines) + r5;
            let r3 = spec_enc_period(period) + r4;
            let r2 = oracle + r3;
            let r1 = spec_enc_perbill(creator_fee) + r2;
            lemma_dec_asset(base_asset, r1);
            lemma_dec_perbill(creator_fee, r2);
            lemma_dec_raw(oracle, 32, r3);
            lemma_dec_period(period, r4);
            lemma_dec_deadlines(deadlines, r5);
            lemma_dec_multihash(metadata, r6);
            lemma_dec_creation(creation, r7);
            lemma_dec_market_type(market_type, r8);
            lemma_dec_opt_mdm(dispute_mechanism, r9);
            lemma_dec_scoring(scoring_rule, rest);
        },
        _ => {},
    }
}

#[verifier::rlimit(100)]
proof fn lemma_dec_enc_pm_edit_market(c: PredictionMarketsCallView, rest: Seq<u8>)
    requires
        c is EditMarket,
        prediction_markets_wf(c),
    ensures
        spec_dec_prediction_markets(spec_enc_prediction_markets(c) + rest) == Some((c, rest)),
{
    broadcast use lemma_singleton_add, lemma_add_assoc;

    lemma_pow256_widths();
    match c {
        PredictionMarketsCallView::EditMarket {
            base_asset,
            market_id,
            oracle,
            period,
            deadlines,
            metadata,
            market_type,
            dispute_mechanism,
            scoring_rule,
        } => {
            let r8 = spec_enc_scoring(scoring_rule) + rest;
            let r7 = spec_enc_opt_mdm(dispute_mechanism) + r8;
            let r6 = spec_enc_market_type(market_type) + r7;
            let r5 = spec_enc_multihash(metadata) + r6;
            let r4 = spec_enc_deadlines(deadlines) + r5;
            let r3 = spec_enc_period(period) + r4;
            let r2 = oracle + r3;
            let r1 = spec_enc_u128(market_id) + r2;
            lemma_dec_asset(base_asset, r1);
            lemma_dec_u128(market_id, r2);
            lemma_dec_raw(oracle, 32, r3);
            lemma_dec_period(period, r4);
            lemma_dec_deadlines(deadlines, r5);
            lemma_dec_multihash(metadata, r6);
            lemma_dec_market_type(market_type, r7);
            lemma_dec_opt_mdm(dispute_mechanism, r8);
            lemma_dec_scoring(scoring_rule, rest);
        },
        _ => {},
    }
}

#[verifier::rlimit(100)]
proof fn lemma_dec_enc_pm_create_market_and_deploy_pool(
    c: PredictionMarketsCallView,
    rest: Seq<u8>,
)
    requires
        c is CreateMarketAndDeployPool,
        prediction_markets_wf(c),
    ensures
        spec_dec_prediction_markets(spec_enc_prediction_markets(c) + rest) == Some((c, rest)),
{
    broadcast use lemma_singleton_add, lemma_add_assoc;

    lemma_pow256_widths();
    match c {
        PredictionMarketsCallView::CreateMarketAndDeployPool {
            base_asset,
            creator_fee,
            oracle,
            period,
            deadlines,
            metadata,
            market_type,
            dispute_mechanism,
            amount,
            spot_prices,
            swap_fee,
        } => {
            let r10 = spec_enc_compact(swap_fee as nat) + rest;
            let r9 = spec_enc_balance_list(spot_prices) + r10;
            let r8 = spec_enc_compact(amount as nat) + r9;
            let r7 = spec_enc_opt_mdm(dispute_mechanism) + r8;
            let r6 = spec_enc_market_type(market_type) + r7;
            let r5 = spec_enc_multihash(metadata) + r6;
            let r4 = spec_enc_deadlines(deadlines) + r5;
            let r3 = spec_enc_period(period) + r4;
            let r2 = oracle + r3;
            let r1 = spec_enc_perbill(creator_fee) + r2;
            lemma_dec_asset(base_asset, r1);
            lemma_dec_perbill(creator_fee, r2);
            lemma_dec_raw(oracle, 32, r3);
            lemma_dec_period(period, r4);
            lemma_dec_deadlines(deadlines, r5);
            lemma_dec_multihash(metadata, r6);
            lemma_dec_market_type(market_type, r7);
            lemma_dec_opt_mdm(dispute_mechanism, r8);
            lemma_dec_compact(amount as nat, r9);
            lemma_dec_balance_list(spot_prices, r10);
            lemma_dec_compact(swap_fee as nat, rest);
        },
        _ => {},
    }
}

/// Every operation of the prediction-markets pallet round-trips, except the
/// edit request, whose shared tag decodes as an approval (see below).
pub proof fn lemma_dec_enc_prediction_markets(c: PredictionMarketsCallView, rest: Seq<u8>)
    requires
        prediction_markets_wf(c),
        !(c is RequestEdit),
    ensures
        spec_dec_prediction_markets(spec_enc_prediction_markets(c) + rest) == Some((c, rest)),
{
    broadcast use lemma_singleton_add, lemma_add_assoc;

    lemma_pow256_widths();
    match c {
        PredictionMarketsCallView::AdminMoveMarketToClosed { market_id } => {
            lemma_dec_compact(market_id as nat, rest);
        },
        PredictionMarketsCallView::AdminMoveMarketToResolved { market_id } => {
            lemma_dec_compact(market_id as nat, rest);
        },
        PredictionMarketsCallView::ApproveMarket { market_id } => {
            lemma_dec_compact(market_id as nat, rest);
        },
        PredictionMarketsCallView::RequestEdit { .. } => {},
        PredictionMarketsCallView::BuyCompleteSet { market_id, amount } => {
            lemma_dec_compact(market_id as nat, spec_enc_compact(amount as nat) + rest);
            lemma_dec_compact(amount as nat, rest);
        },
        PredictionMarketsCallView::Dispute { market_id } => {
            lemma_dec_compact(market_id as nat, rest);
        },
        PredictionMarketsCallView::CreateMarket { .. } => {
            lemma_dec_enc_pm_create_market(c, rest);
        },
        PredictionMarketsCallView::EditMarket { .. } => {
            lemma_dec_enc_pm_edit_market(c, rest);
        },
        PredictionMarketsCallView::RedeemShares { market_id } => {
            lemma_dec_compact(market_id as nat, rest);
        },
        PredictionMarketsCallView::RejectMarket { market_id, reject_reason } => {
            lemma_dec_compact(market_id as nat, spec_enc_byte_list(reject_reason) + rest);
            lemma_dec_byte_list(reject_reason, rest);
        },
        PredictionMarketsCallView::Report { market_id, outcome } => {
            lemma_dec_compact(market_id as nat, spec_enc_outcome(outcome) + rest);
            lemma_dec_outcome(outcome, rest);
        },
        PredictionMarketsCallView::SellCompleteSet { market_id, amount } => {
            lemma_dec_compact(market_id as nat, spec_enc_compact(amount as nat) + rest);
            lemma_dec_compact(amount as nat, rest);
        },
        PredictionMarketsCallView::StartGlobalDispute { market_id } => {
            lemma_dec_compact(market_id as nat, rest);
        },
        PredictionMarketsCallView::CreateMarketAndDeployPool { .. } => {
            lemma_dec_enc_pm_create_market_and_deploy_pool(c, rest);
        },
        PredictionMarketsCallView::ScheduleEarlyClose { market_id } => {
            lemma_dec_compact(market_id as nat, rest);
        },
        PredictionMarketsCallView::DisputeEarlyClose { market_id } => {
            lemma_dec_compact(market_id as nat, rest);
        },
        PredictionMarketsCallView::RejectEarlyClose { market_id } => {
            lemma_dec_compact(market_id as nat, rest);
        },
        PredictionMarketsCallView::CloseTrustedMarket { market_id } => {
            lemma_dec_compact(market_id as nat, rest);
        },
        PredictionMarketsCallView::ManuallyCloseMarket { market_id } => {
            lemma_dec_compact(market_id as nat, rest);
        },
    }
}

/// What actually becomes of an encoded edit request: its tag coincides with
/// the approval operation's, so it decodes as an approval of the same market,
/// with the reason bytes left over.
pub proof fn lemma_request_edit_decodes_as_approval(
    market_id: u128,
    edit_reason: Seq<u8>,
    rest: Seq<u8>,
)
    ensures
        spec_dec_prediction_markets(
            spec_enc_prediction_markets(
                PredictionMarketsCallView::RequestEdit { market_id, edit_reason },
            ) + rest,
        ) == Some(
            (
                PredictionMarketsCallView::ApproveMarket { market_id },
                spec_enc_byte_list(edit_reason) + rest,
            ),
        ),
{
    broadcast use lemma_singleton_add, lemma_add_assoc;

    lemma_pow256_widths();
    lemma_dec_compact(market_id as nat, spec_enc_byte_list(edit_reason) + rest);
}

pub proof fn lemma_dec_enc_styx(c: StyxCall, rest: Seq<u8>)
    ensures
        spec_dec_styx(spec_enc_styx(c) + rest) == Some((c, rest)),
{
    broadcast use lemma_singleton_add, lemma_add_assoc;

    lemma_pow256_widths();
    match c {
        StyxCall::Cross => {},
        StyxCall::SetBurnAmount { amount } => {
            lemma_dec_compact(amount as nat, rest);
        },
    }
}

pub proof fn lemma_dec_enc_global_disputes(c: GlobalDisputesCallView, rest: Seq<u8>)
    requires
        global_disputes_wf(c),
    ensures
        spec_dec_global_disputes(spec_enc_global_disputes(c) + rest) == Some((c, rest)),
{
    broadcast use lemma_singleton_add, lemma_add_assoc;

    lemma_pow256_widths();
    match c {
        GlobalDisputesCallView::AddVoteOutcome { market_id, outcome } => {
            lemma_dec_compact(market_id as nat, spec_enc_outcome(outcome) + rest);
            lemma_dec_outcome(outcome, rest);
        },
        GlobalDisputesCallView::RefundVoteFees { market_id } => {
            lemma_dec_compact(market_id as nat, rest);
        },
        GlobalDisputesCallView::PurgeOutcomes { market_id } => {
            lemma_dec_compact(market_id as nat, rest);
        },
        GlobalDisputesCallView::RewardOutcomeOwner { market_id } => {
            lemma_dec_compact(market_id as nat, rest);
        },
        GlobalDisputesCallView::VoteOnOutcome { market_id, outcome, amount } => {
            lemma_dec_compact(
                market_id as nat,
                spec_enc_outcome(outcome) + (spec_enc_compact(amount as nat) + rest),
            );
            lemma_dec_outcome(outcome, spec_enc_compact(amount as nat) + rest);
            lemma_dec_compact(amount as nat, rest);
        },
        GlobalDisputesCallView::UnlockVoteBalance { voter } => {
            lemma_dec_lookup(voter, rest);
        },
    }
}

pub proof fn lemma_dec_enc_neo_swaps(c: NeoSwapsCallView, rest: Seq<u8>)
    requires
        neo_swaps_wf(c),
    ensures
        spec_dec_neo_swaps(spec_enc_neo_swaps(c) + rest) == Some((c, rest)),
{
    broadcast use lemma_singleton_add, lemma_add_assoc;

    lemma_pow256_widths();
    match c {
        NeoSwapsCallView::Buy { market_id, asset_count, asset_out, amount_in, min_amount_out } => {
            let r4 = spec_enc_compact(min_amount_out as nat) + rest;
            let r3 = spec_enc_compact(amount_in as nat) + r4;
            let r2 = spec_enc_asset(asset_out) + r3;
            let r1 = spec_enc_u16(asset_count) + r2;
            lemma_dec_compact(market_id as nat, r1);
            lemma_dec_u16(asset_count, r2);
            lemma_dec_asset(asset_out, r3);
            lemma_dec_compact(amount_in as nat, r4);
            lemma_dec_compact(min_amount_out as nat, rest);
        },
        NeoSwapsCallView::Sell { market_id, asset_count, asset_in, amount_in, min_amount_out } => {
            let r4 = spec_enc_compact(min_amount_out as nat) + rest;
            let r3 = spec_enc_compact(amount_in as nat) + r4;
            let r2 = spec_enc_asset(asset_in) + r3;
            let r1 = spec_enc_u16(asset_count) + r2;
            lemma_dec_compact(market_id as nat, r1);
            lemma_dec_u16(asset_count, r2);
            lemma_dec_asset(asset_in, r3);
            lemma_dec_compact(amount_in as nat, r4);
            lemma_dec_compact(min_amount_out as nat, rest);
        },
        NeoSwapsCallView::Join { market_id, pool_shares_amount, max_amounts_in } => {
            lemma_dec_compact(
                market_id as nat,
                spec_enc_compact(pool_shares_amount as nat) + (spec_enc_balance_list(max_amounts_in)
                    + rest),
            );
            lemma_dec_compact(
                pool_shares_amount as nat,
                spec_enc_balance_list(max_amounts_in) + rest,
            );
            lemma_dec_balance_list(max_amounts_in, rest);
        },
        NeoSwapsCallView::Exit { market_id, pool_shares_amount_out, min_amounts_out } => {
            lemma_dec_compact(
                market_id as nat,
                spec_enc_compact(pool_shares_amount_out as nat) + (spec_enc_balance_list(
                    min_amounts_out,
                ) + rest),
            );
            lemma_dec_compact(
                pool_shares_amount_out as nat,
                spec_enc_balance_list(min_amounts_out) + rest,
            );
            lemma_dec_balance_list(min_amounts_out, rest);
        },
        NeoSwapsCallView::WithdrawFees { market_id } => {
            lemma_dec_compact(market_id as nat, rest);
        },
        NeoSwapsCallView::DeployPool { market_id, amount, spot_prices, swap_fee } => {
            let r3 = spec_enc_compact(swap_fee as nat) + rest;
            let r2 = spec_enc_balance_list(spot_prices) + r3;
            let r1 = spec_enc_compact(amount as nat) + r2;
            lemma_dec_compact(market_id as nat, r1);
            lemma_dec_compact(amount as nat, r2);
            lemma_dec_balance_list(spot_prices, r3);
            lemma_dec_compact(swap_fee as nat, rest);
        },
    }
}

pub proof fn lemma_dec_enc_orderbook(c: OrderbookCall, rest: Seq<u8>)
    ensures
        spec_dec_orderbook(spec_enc_orderbook(c) + rest) == Some((c, rest)),
{
    broadcast use lemma_singleton_add, lemma_add_assoc;

    lemma_pow256_widths();
    match c {
        OrderbookCall::RemoveOrder { order_id } => {
            lemma_dec_u128(order_id, rest);
        },
        OrderbookCall::FillOrder { order_id, maker_partial_fill } => {
            lemma_dec_u128(order_id, spec_enc_opt_u128(maker_partial_fill) + rest);
            lemma_dec_opt_u128(maker_partial_fill, rest);
        },
        OrderbookCall::PlaceOrder {
            market_id,
            maker_asset,
            maker_amount,
            taker_asset,
            taker_amount,
        } => {
            let r4 = spec_enc_compact(taker_amount as nat) + rest;
            let r3 = spec_enc_asset(taker_asset) + r4;
            let r2 = spec_enc_compact(maker_amount as nat) + r3;
            let r1 = spec_enc_asset(maker_asset) + r2;
            lemma_dec_compact(market_id as nat, r1);
            lemma_dec_asset(maker_asset, r2);
            lemma_dec_compact(maker_amount as nat, r3);
            lemma_dec_asset(taker_asset, r4);
            lemma_dec_compact(taker_amount as nat, rest);
        },
    }
}

pub proof fn lemma_dec_enc_parimutuel(c: ParimutelCall, rest: Seq<u8>)
    ensures
        spec_dec_parimutuel(spec_enc_parimutuel(c) + rest) == Some((c, rest)),
{
    broadcast use lemma_singleton_add, lemma_add_assoc;

    lemma_pow256_widths();
    match c {
        ParimutelCall::Buy { asset, amount } => {
            lemma_dec_asset(asset, spec_enc_compact(amount as nat) + rest);
            lemma_dec_compact(amount as nat, rest);
        },
        ParimutelCall::ClaimRewards { market_id } => {
            lemma_dec_u128(market_id, rest);
        },
        ParimutelCall::ClaimRefunds { refund_asset } => {
            lemma_dec_asset(refund_asset, rest);
        },
    }
}

/// Whether decoding can yield this very operation back. Every operation but
/// the prediction-market edit request carries a tag of its own; the edit
/// request shares the approval operation's tag and decodes as an approval.
pub open spec fn uniquely_tagged(c: RuntimeCallView) -> bool {
    !(c matches RuntimeCallView::PredictionMarkets(
        PredictionMarketsCallView::RequestEdit { .. },
    ))
}

/// Round trip: decoding the byte form of any well-formed, uniquely tagged
/// call value reproduces the call exactly, whatever bytes follow it.
pub proof fn lemma_call_roundtrip(c: RuntimeCallView, rest: Seq<u8>)
    requires
        call_wf(c),
        uniquely_tagged(c),
    ensures
        spec_dec_call(spec_enc_call(c) + rest) == Some((c, rest)),
{
    broadcast use lemma_singleton_add, lemma_add_assoc;

    match c {
        RuntimeCallView::AssetManager(x) => {
            lemma_dec_enc_asset_manager(x, rest);
        },
        RuntimeCallView::Authorized(x) => {
            lemma_dec_enc_authorized(x, rest);
        },
        RuntimeCallView::Court(x) => {
            lemma_dec_enc_court(x, rest);
        },
        RuntimeCallView::Swaps(x) => {
            lemma_dec_enc_swaps(x, rest);
        },
        RuntimeCallView::PredictionMarkets(x) => {
            lemma_dec_enc_prediction_markets(x, rest);
        },
        RuntimeCallView::Styx(x) => {
            lemma_dec_enc_styx(x, rest);
        },
        RuntimeCallView::GlobalDisputes(x) => {
            lemma_dec_enc_global_disputes(x, rest);
        },
        RuntimeCallView::NeoSwaps(x) => {
            lemma_dec_enc_neo_swaps(x, rest);
        },
        RuntimeCallView::Orderbook(x) => {
            lemma_dec_enc_orderbook(x, rest);
        },
        RuntimeCallView::Parimutuel(x) => {
            lemma_dec_enc_parimutuel(x, rest);
        },
    }
}

/// Tag stability: the first byte of every encoded call is the registry
/// position of its pallet, whatever operation stands beneath it, so adding
/// operations to a pallet never moves any pallet's tag.
pub proof fn lemma_pallet_tag_stable(c: RuntimeCallView)
    ensures
        spec_enc_call(c).len() >= 1,
        spec_enc_call(c)[0] == spec_pallet_index(c),
{
    broadcast use lemma_singleton_add;

    match c {
        RuntimeCallView::AssetManager(_) => {},
        RuntimeCallView::Authorized(_) => {},
        RuntimeCallView::Court(_) => {},
        RuntimeCallView::Swaps(_) => {},
        RuntimeCallView::PredictionMarkets(_) => {},
        RuntimeCallView::Styx(_) => {},
        RuntimeCallView::GlobalDisputes(_) => {},
        RuntimeCallView::NeoSwaps(_) => {},
        RuntimeCallView::Orderbook(_) => {},
        RuntimeCallView::Parimutuel(_) => {},
    }
}

} // verus!
