//! The adapter itself: one method per forwarded operation, each building the
//! exact call value for the host runtime's dispatcher, and the translation of
//! the forwarding primitive's outcome into the local result type. The adapter
//! holds no state of its own beyond a placeholder outcome report that no
//! forwarded operation reads.
use vstd::prelude::*;

use crate::primitives::{
    AccountId, AssetIndexType, CourtHash, CourtId, Deadlines, MarketCreation,
    MarketDisputeMechanism, MarketId, MarketPeriod, MarketType, MultiHash, OrderId, OutcomeReport,
    Perbill, PoolId, ScoringRule, VoteItem, ZeitgeistAsset,
};
use crate::runtime_structs::{
    AssetManagerCall, AuthorizedCall, Balance, CourtCall, GlobalDisputesCall, NeoSwapsCall,
    OrderbookCall, ParimutelCall, PredictionMarketsCall, RuntimeCall, StyxCall, SwapsCall,
};

verus! {

/// The one host failure that the adapter reports to its caller. Every other
/// signal of the forwarding primitive is a contract violation between the
/// contract and its host, treated as fatal rather than reported.
#[derive(Clone, Copy, Debug, PartialEq, Eq, Structural)]
pub enum Error {
    CallRuntimeFailed,
}

/// What the host's forwarding primitive reported back for one submitted call.
#[derive(Clone, Copy, Debug, PartialEq, Eq, Structural)]
pub enum HostOutcome {
    /// The runtime dispatched the call.
    Succeeded,
    /// The runtime refused or failed the call.
    CallFailed,
}

/// Translate the forwarding primitive's outcome into the adapter's result:
/// success passes through as success, and a failed forward is reported as the
/// one reportable error kind, never swallowed.
pub fn adapt_runtime_outcome(o: HostOutcome) -> (r: Result<(), Error>)
    ensures
        o is Succeeded ==> r == Ok::<(), Error>(()),
        o is CallFailed ==> r == Err::<(), Error>(Error::CallRuntimeFailed),
{
    match o {
        HostOutcome::Succeeded => Ok(()),
        HostOutcome::CallFailed => Err(Error::CallRuntimeFailed),
    }
}

/// A contract that forwards calls into the host runtime. Its methods only
/// construct call values; submitting them is the surrounding contract shell's
/// business, so constructing a call never touches this state.
pub struct ZtgRuntimeExample {
    pub outcome_report: OutcomeReport,
}

impl ZtgRuntimeExample {
    pub fn new(_outcome: OutcomeReport) -> (r: Self)
        ensures
            r.outcome_report == _outcome,
    {
        ZtgRuntimeExample { outcome_report: _outcome }
    }

    pub fn default() -> (r: Self)
        ensures
            r.outcome_report == OutcomeReport::Scalar(0),
    {
        Self::new(OutcomeReport::Scalar(0))
    }

    // region: Asset Manager

    pub fn transfer(&self, dest: AccountId, amount: Balance) -> (c: RuntimeCall)
        ensures
            c == (RuntimeCall::AssetManager(
                AssetManagerCall::Transfer { dest, currency_id: ZeitgeistAsset::Ztg, amount },
            )),
    {
        RuntimeCall::AssetManager(
            AssetManagerCall::Transfer { dest, currency_id: ZeitgeistAsset::Ztg, amount },
        )
    }

    // endregion
    // region: Authorized

    /// Requires an administrative or advisory-committee origin on the host side.
    pub fn authorize_market_outcome(&self, market_id: MarketId, outcome: OutcomeReport) -> (c:
        RuntimeCall)
        ensures
            c == (RuntimeCall::Authorized(
                AuthorizedCall::AuthorizeMarketOutcome { market_id, outcome },
            )),
    {
        RuntimeCall::Authorized(AuthorizedCall::AuthorizeMarketOutcome { market_id, outcome })
    }

    // endregion
    // region: Swaps

    /// Currently disabled by the host runtime's configuration.
    pub fn pool_exit(&self, pool_id: PoolId, pool_amount: Balance, min_assets_out: Vec<Balance>)
        -> (c: RuntimeCall)
        ensures
            c == (RuntimeCall::Swaps(SwapsCall::PoolExit { pool_id, pool_amount, min_assets_out })),
    {
        RuntimeCall::Swaps(SwapsCall::PoolExit { pool_id, pool_amount, min_assets_out })
    }

    /// Currently disabled by the host runtime's configuration.
    pub fn pool_exit_with_exact_asset_amount(
        &self,
        pool_id: PoolId,
        asset: ZeitgeistAsset,
        asset_amount: Balance,
        max_pool_amount: Balance,
    ) -> (c: RuntimeCall)
        ensures
            c == (RuntimeCall::Swaps(
                SwapsCall::PoolExitWithExactAssetAmount {
                    pool_id,
                    asset,
                    asset_amount,
                    max_pool_amount,
                },
            )),
    {
        RuntimeCall::Swaps(
            SwapsCall::PoolExitWithExactAssetAmount {
                pool_id,
                asset,
                asset_amount,
                max_pool_amount,
            },
        )
    }

    /// Currently disabled by the host runtime's configuration.
    pub fn pool_exit_with_exact_pool_amount(
        &self,
        pool_id: PoolId,
        asset: ZeitgeistAsset,
        pool_amount: Balance,
        min_asset_amount: Balance,
    ) -> (c: RuntimeCall)
        ensures
            c == (RuntimeCall::Swaps(
                SwapsCall::PoolExitWithExactPoolAmount {
                    pool_id,
                    asset,
                    pool_amount,
                    min_asset_amount,
                },
            )),
    {
        RuntimeCall::Swaps(
            SwapsCall::PoolExitWithExactPoolAmount {
                pool_id,
                asset,
                pool_amount,
                min_asset_amount,
            },
        )
    }

    /// Currently disabled by the host runtime's configuration.
    pub fn pool_join(&self, pool_id: PoolId, pool_amount: Balance, max_assets_in: Vec<Balance>)
        -> (c: RuntimeCall)
        ensures
            c == (RuntimeCall::Swaps(SwapsCall::PoolJoin { pool_id, pool_amount, max_assets_in })),
    {
        RuntimeCall::Swaps(SwapsCall::PoolJoin { pool_id, pool_amount, max_assets_in })
    }

    /// Currently disabled by the host runtime's configuration.
    pub fn pool_join_with_exact_asset_amount(
        &self,
        pool_id: PoolId,
        asset_in: ZeitgeistAsset,
        asset_amount: Balance,
        min_pool_amount: Balance,
    ) -> (c: RuntimeCall)
        ensures
            c == (RuntimeCall::Swaps(
                SwapsCall::PoolJoinWithExactAssetAmount {
                    pool_id,
                    asset_in,
                    asset_amount,
                    min_pool_amount,
                },
            )),
    {
        RuntimeCall::Swaps(
            SwapsCall::PoolJoinWithExactAssetAmount {
                pool_id,
                asset_in,
                asset_amount,
                min_pool_amount,
            },
        )
    }

    /// Currently disabled by the host runtime's configuration.
    pub fn pool_join_with_exact_pool_amount(
        &self,
        pool_id: PoolId,
        asset: ZeitgeistAsset,
        pool_amount: Balance,
        max_asset_amount: Balance,
    ) -> (c: RuntimeCall)
        ensures
            c == (RuntimeCall::Swaps(
                SwapsCall::PoolJoinWithExactPoolAmount {
                    pool_id,
                    asset,
                    pool_amount,
                    max_asset_amount,
                },
            )),
    {
        RuntimeCall::Swaps(
            SwapsCall::PoolJoinWithExactPoolAmount {
                pool_id,
                asset,
                pool_amount,
                max_asset_amount,
            },
        )
    }

    /// Currently disabled by the host runtime's configuration.
    pub fn swap_exact_amount_in(
        &self,
        pool_id: PoolId,
        asset_in: ZeitgeistAsset,
        asset_amount_in: Balance,
        asset_out: ZeitgeistAsset,
        min_asset_amount_out: Option<Balance>,
        max_price: Option<Balance>,
    ) -> (c: RuntimeCall)
        ensures
            c == (RuntimeCall::Swaps(
                SwapsCall::SwapExactAmountIn {
                    pool_id,
                    asset_in,
                    asset_amount_in,
                    asset_out,
                    min_asset_amount_out,
                    max_price,
                },
            )),
    {
        RuntimeCall::Swaps(
            SwapsCall::SwapExactAmountIn {
                pool_id,
                asset_in,
                asset_amount_in,
                asset_out,
                min_asset_amount_out,
                max_price,
            },
        )
    }

    /// Currently disabled by the host runtime's configuration.
    pub fn swap_exact_amount_out(
        &self,
        pool_id: PoolId,
        asset_in: ZeitgeistAsset,
        max_asset_amount_in: Option<u128>,
        asset_out: ZeitgeistAsset,
        asset_amount_out: u128,
        max_price: Option<u128>,
    ) -> (c: RuntimeCall)
        ensures
            c == (RuntimeCall::Swaps(
                SwapsCall::SwapExactAmountOut {
                    pool_id,
                    asset_in,
                    max_asset_amount_in,
                    asset_out,
                    asset_amount_out,
                    max_price,
                },
            )),
    {
        RuntimeCall::Swaps(
            SwapsCall::SwapExactAmountOut {
                pool_id,
                asset_in,
                max_asset_amount_in,
                asset_out,
                asset_amount_out,
                max_price,
            },
        )
    }

    pub fn force_pool_exit(
        &self,
        who: AccountId,
        pool_id: PoolId,
        pool_amount: Balance,
        min_assets_out: Vec<Balance>,
    ) -> (c: RuntimeCall)
        ensures
            c == (RuntimeCall::Swaps(
                SwapsCall::ForcePoolExit { who, pool_id, pool_amount, min_assets_out },
            )),
    {
        RuntimeCall::Swaps(SwapsCall::ForcePoolExit { who, pool_id, pool_amount, min_assets_out })
    }

    // endregion
    // region: Court

    pub fn join_court(&self, amount: Balance) -> (c: RuntimeCall)
        ensures
            c == (RuntimeCall::Court(CourtCall::JoinCourt { amount })),
    {
        RuntimeCall::Court(CourtCall::JoinCourt { amount })
    }

    pub fn delegate(&self, amount: Balance, delegations: Vec<AccountId>) -> (c: RuntimeCall)
        ensures
            c == (RuntimeCall::Court(CourtCall::Delegate { amount, delegations })),
    {
        RuntimeCall::Court(CourtCall::Delegate { amount, delegations })
    }

    pub fn prepare_exit_court(&self) -> (c: RuntimeCall)
        ensures
            c == (RuntimeCall::Court(CourtCall::PrepareExitCourt)),
    {
        RuntimeCall::Court(CourtCall::PrepareExitCourt)
    }

    pub fn exit_court(&self, court_participant: AccountId) -> (c: RuntimeCall)
        ensures
            c == (RuntimeCall::Court(CourtCall::ExitCourt { court_participant })),
    {
        RuntimeCall::Court(CourtCall::ExitCourt { court_participant })
    }

    pub fn vote(&self, court_id: CourtId, commitment_vote: CourtHash) -> (c: RuntimeCall)
        ensures
            c == (RuntimeCall::Court(CourtCall::Vote { court_id, commitment_vote })),
    {
        RuntimeCall::Court(CourtCall::Vote { court_id, commitment_vote })
    }

    pub fn denounce_vote(
        &self,
        court_id: CourtId,
        juror: AccountId,
        vote_item: VoteItem,
        salt: CourtHash,
    ) -> (c: RuntimeCall)
        ensures
            c == (RuntimeCall::Court(
                CourtCall::DenounceVote { court_id, juror, vote_item, salt },
            )),
    {
        RuntimeCall::Court(CourtCall::DenounceVote { court_id, juror, vote_item, salt })
    }

    pub fn reveal_vote(&self, court_id: CourtId, vote_item: VoteItem, salt: CourtHash) -> (c:
        RuntimeCall)
        ensures
            c == (RuntimeCall::Court(CourtCall::RevealVote { court_id, vote_item, salt })),
    {
        RuntimeCall::Court(CourtCall::RevealVote { court_id, vote_item, salt })
    }

    pub fn appeal(&self, court_id: CourtId) -> (c: RuntimeCall)
        ensures
            c == (RuntimeCall::Court(CourtCall::Appeal { court_id })),
    {
        RuntimeCall::Court(CourtCall::Appeal { court_id })
    }

    pub fn reassign_court_stakes(&self, court_id: CourtId) -> (c: RuntimeCall)
        ensures
            c == (RuntimeCall::Court(CourtCall::ReassignCourtStakes { court_id })),
    {
        RuntimeCall::Court(CourtCall::ReassignCourtStakes { court_id })
    }

    /// Requires an administrative origin on the host side.
    pub fn set_inflation(&self, inflation: Perbill) -> (c: RuntimeCall)
        ensures
            c == (RuntimeCall::Court(CourtCall::SetInflation { inflation })),
    {
        RuntimeCall::Court(CourtCall::SetInflation { inflation })
    }

    // endregion
    // region: Styx

    /// Requires an administrative origin on the host side.
    pub fn set_burn_amount(&self, amount: Balance) -> (c: RuntimeCall)
        ensures
            c == (RuntimeCall::Styx(StyxCall::SetBurnAmount { amount })),
    {
        RuntimeCall::Styx(StyxCall::SetBurnAmount { amount })
    }

    pub fn cross(&self) -> (c: RuntimeCall)
        ensures
            c == (RuntimeCall::Styx(StyxCall::Cross)),
    {
        RuntimeCall::Styx(StyxCall::Cross)
    }

    // endregion
    // region: Global Disputes

    pub fn add_vote_outcome(&self, market_id: MarketId, outcome: OutcomeReport) -> (c: RuntimeCall)
        ensures
            c == (RuntimeCall::GlobalDisputes(
                GlobalDisputesCall::AddVoteOutcome { market_id, outcome },
            )),
    {
        RuntimeCall::GlobalDisputes(GlobalDisputesCall::AddVoteOutcome { market_id, outcome })
    }

    pub fn purge_outcomes(&self, market_id: MarketId) -> (c: RuntimeCall)
        ensures
            c == (RuntimeCall::GlobalDisputes(GlobalDisputesCall::PurgeOutcomes { market_id })),
    {
        RuntimeCall::GlobalDisputes(GlobalDisputesCall::PurgeOutcomes { market_id })
    }

    pub fn reward_outcome_owner(&self, market_id: MarketId) -> (c: RuntimeCall)
        ensures
            c == (RuntimeCall::GlobalDisputes(
                GlobalDisputesCall::RewardOutcomeOwner { market_id },
            )),
    {
        RuntimeCall::GlobalDisputes(GlobalDisputesCall::RewardOutcomeOwner { market_id })
    }

    pub fn vote_on_outcome(
        &self,
        market_id: MarketId,
        outcome: OutcomeReport,
        amount: Balance,
    ) -> (c: RuntimeCall)
        ensures
            c == (RuntimeCall::GlobalDisputes(
                GlobalDisputesCall::VoteOnOutcome { market_id, outcome, amount },
            )),
    {
        RuntimeCall::GlobalDisputes(GlobalDisputesCall::VoteOnOutcome { market_id, outcome, amount })
    }

    pub fn unlock_vote_balance(&self, voter: AccountId) -> (c: RuntimeCall)
        ensures
            c == (RuntimeCall::GlobalDisputes(GlobalDisputesCall::UnlockVoteBalance { voter })),
    {
        RuntimeCall::GlobalDisputes(GlobalDisputesCall::UnlockVoteBalance { voter })
    }

    pub fn refund_vote_fees(&self, market_id: MarketId) -> (c: RuntimeCall)
        ensures
            c == (RuntimeCall::GlobalDisputes(GlobalDisputesCall::RefundVoteFees { market_id })),
    {
        RuntimeCall::GlobalDisputes(GlobalDisputesCall::RefundVoteFees { market_id })
    }

    // endregion
    // region: Prediction Markets

    /// Requires an administrative origin on the host side.
    pub fn admin_move_market_to_closed(&self, market_id: MarketId) -> (c: RuntimeCall)
        ensures
            c == (RuntimeCall::PredictionMarkets(
                PredictionMarketsCall::AdminMoveMarketToClosed { market_id },
            )),
    {
        RuntimeCall::PredictionMarkets(PredictionMarketsCall::AdminMoveMarketToClosed { market_id })
    }

    /// Requires an administrative origin on the host side.
    pub fn admin_move_market_to_resolved(&self, market_id: MarketId) -> (c: RuntimeCall)
        ensures
            c == (RuntimeCall::PredictionMarkets(
                PredictionMarketsCall::AdminMoveMarketToResolved { market_id },
            )),
    {
        RuntimeCall::PredictionMarkets(
            PredictionMarketsCall::AdminMoveMarketToResolved { market_id },
        )
    }

    /// Requires an administrative origin on the host side.
    pub fn approve_market(&self, market_id: MarketId) -> (c: RuntimeCall)
        ensures
            c == (RuntimeCall::PredictionMarkets(
                PredictionMarketsCall::ApproveMarket { market_id },
            )),
    {
        RuntimeCall::PredictionMarkets(PredictionMarketsCall::ApproveMarket { market_id })
    }

    /// Requires an administrative origin on the host side.
    pub fn request_edit(&self, market_id: MarketId, edit_reason: Vec<u8>) -> (c: RuntimeCall)
        ensures
            c == (RuntimeCall::PredictionMarkets(
                PredictionMarketsCall::RequestEdit { market_id, edit_reason },
            )),
    {
        RuntimeCall::PredictionMarkets(PredictionMarketsCall::RequestEdit { market_id, edit_reason })
    }

    pub fn buy_complete_set(&self, market_id: MarketId, amount: Balance) -> (c: RuntimeCall)
        ensures
            c == (RuntimeCall::PredictionMarkets(
                PredictionMarketsCall::BuyCompleteSet { market_id, amount },
            )),
    {
        RuntimeCall::PredictionMarkets(PredictionMarketsCall::BuyCompleteSet { market_id, amount })
    }

    pub fn dispute(&self, market_id: MarketId) -> (c: RuntimeCall)
        ensures
            c == (RuntimeCall::PredictionMarkets(PredictionMarketsCall::Dispute { market_id })),
    {
        RuntimeCall::PredictionMarkets(PredictionMarketsCall::Dispute { market_id })
    }

    pub fn create_market(
        &self,
        base_asset: ZeitgeistAsset,
        creator_fee: Perbill,
        oracle: AccountId,
        period: MarketPeriod,
        deadlines: Deadlines,
        metadata: MultiHash,
        creation: MarketCreation,
        market_type: MarketType,
        dispute_mechanism: Option<MarketDisputeMechanism>,
        scoring_rule: ScoringRule,
    ) -> (c: RuntimeCall)
        ensures
            c == (RuntimeCall::PredictionMarkets(
                PredictionMarketsCall::CreateMarket {
                    base_asset,
                    creator_fee,
                    oracle,
                    period,
                    deadlines,
                    metadata,
                    creation,
                    market_type,
                    dispute_mechanism,
                    scoring_rule,
                },
            )),
    {
        RuntimeCall::PredictionMarkets(
            PredictionMarketsCall::CreateMarket {
                base_asset,
                creator_fee,
                oracle,
                period,
                deadlines,
                metadata,
                creation,
                market_type,
                dispute_mechanism,
                scoring_rule,
            },
        )
    }

    pub fn edit_market(
        &self,
        base_asset: ZeitgeistAsset,
        market_id: MarketId,
        oracle: AccountId,
        period: MarketPeriod,
        deadlines: Deadlines,
        metadata: MultiHash,
        market_type: MarketType,
        dispute_mechanism: Option<MarketDisputeMechanism>,
        scoring_rule: ScoringRule,
    ) -> (c: RuntimeCall)
        ensures
            c == (RuntimeCall::PredictionMarkets(
                PredictionMarketsCall::EditMarket {
                    base_asset,
                    market_id,
                    oracle,
                    period,
                    deadlines,
                    metadata,
                    market_type,
                    dispute_mechanism,
                    scoring_rule,
                },
            )),
    {
        RuntimeCall::PredictionMarkets(
            PredictionMarketsCall::EditMarket {
                base_asset,
                market_id,
                oracle,
                period,
                deadlines,
                metadata,
                market_type,
                dispute_mechanism,
                scoring_rule,
            },
        )
    }

    pub fn redeem_shares(&self, market_id: MarketId) -> (c: RuntimeCall)
        ensures
            c == (RuntimeCall::PredictionMarkets(
                PredictionMarketsCall::RedeemShares { market_id },
            )),
    {
        RuntimeCall::PredictionMarkets(PredictionMarketsCall::RedeemShares { market_id })
    }

    /// Requires an administrative origin on the host side.
    pub fn reject_market(&self, market_id: MarketId, reject_reason: Vec<u8>) -> (c: RuntimeCall)
        ensures
            c == (RuntimeCall::PredictionMarkets(
                PredictionMarketsCall::RejectMarket { market_id, reject_reason },
            )),
    {
        RuntimeCall::PredictionMarkets(
            PredictionMarketsCall::RejectMarket { market_id, reject_reason },
        )
    }

    pub fn report(&self, market_id: MarketId, outcome: OutcomeReport) -> (c: RuntimeCall)
        ensures
            c == (RuntimeCall::PredictionMarkets(
                PredictionMarketsCall::Report { market_id, outcome },
            )),
    {
        RuntimeCall::PredictionMarkets(PredictionMarketsCall::Report { market_id, outcome })
    }

    pub fn sell_complete_set(&self, market_id: MarketId, amount: Balance) -> (c: RuntimeCall)
        ensures
            c == (RuntimeCall::PredictionMarkets(
                PredictionMarketsCall::SellCompleteSet { market_id, amount },
            )),
    {
        RuntimeCall::PredictionMarkets(PredictionMarketsCall::SellCompleteSet { market_id, amount })
    }

    pub fn start_global_dispute(&self, market_id: MarketId) -> (c: RuntimeCall)
        ensures
            c == (RuntimeCall::PredictionMarkets(
                PredictionMarketsCall::StartGlobalDispute { market_id },
            )),
    {
        RuntimeCall::PredictionMarkets(PredictionMarketsCall::StartGlobalDispute { market_id })
    }

    pub fn create_market_and_deploy_pool(
        &self,
        base_asset: ZeitgeistAsset,
        creator_fee: Perbill,
        oracle: AccountId,
        period: MarketPeriod,
        deadlines: Deadlines,
        metadata: MultiHash,
        market_type: MarketType,
        dispute_mechanism: Option<MarketDisputeMechanism>,
        amount: Balance,
        spot_prices: Vec<Balance>,
        swap_fee: Balance,
    ) -> (c: RuntimeCall)
        ensures
            c == (RuntimeCall::PredictionMarkets(
                PredictionMarketsCall::CreateMarketAndDeployPool {
                    base_asset,
                    creator_fee,
                    oracle,
                    period,
                    deadlines,
                    metadata,
                    market_type,
                    dispute_mechanism,
                    amount,
                    spot_prices,
                    swap_fee,
                },
            )),
    {
        RuntimeCall::PredictionMarkets(
            PredictionMarketsCall::CreateMarketAndDeployPool {
                base_asset,
                creator_fee,
                oracle,
                period,
                deadlines,
                metadata,
                market_type,
                dispute_mechanism,
                amount,
                spot_prices,
                swap_fee,
            },
        )
    }

    pub fn schedule_early_close(&self, market_id: MarketId) -> (c: RuntimeCall)
        ensures
            c == (RuntimeCall::PredictionMarkets(
                PredictionMarketsCall::ScheduleEarlyClose { market_id },
            )),
    {
        RuntimeCall::PredictionMarkets(PredictionMarketsCall::ScheduleEarlyClose { market_id })
    }

    pub fn dispute_early_close(&self, market_id: MarketId) -> (c: RuntimeCall)
        ensures
            c == (RuntimeCall::PredictionMarkets(
                PredictionMarketsCall::DisputeEarlyClose { market_id },
            )),
    {
        RuntimeCall::PredictionMarkets(PredictionMarketsCall::DisputeEarlyClose { market_id })
    }

    pub fn reject_early_close(&self, market_id: MarketId) -> (c: RuntimeCall)
        ensures
            c == (RuntimeCall::PredictionMarkets(
                PredictionMarketsCall::RejectEarlyClose { market_id },
            )),
    {
        RuntimeCall::PredictionMarkets(PredictionMarketsCall::RejectEarlyClose { market_id })
    }

    pub fn close_trusted_market(&self, market_id: MarketId) -> (c: RuntimeCall)
        ensures
            c == (RuntimeCall::PredictionMarkets(
                PredictionMarketsCall::CloseTrustedMarket { market_id },
            )),
    {
        RuntimeCall::PredictionMarkets(PredictionMarketsCall::CloseTrustedMarket { market_id })
    }

    pub fn manually_close_market(&self, market_id: MarketId) -> (c: RuntimeCall)
        ensures
            c == (RuntimeCall::PredictionMarkets(
                PredictionMarketsCall::ManuallyCloseMarket { market_id },
            )),
    {
        RuntimeCall::PredictionMarkets(PredictionMarketsCall::ManuallyCloseMarket { market_id })
    }

    // endregion
    // region: Neoswaps

    pub fn neoswap_buy(
        &self,
        market_id: MarketId,
        asset_count: AssetIndexType,
        asset_out: ZeitgeistAsset,
        amount_in: Balance,
        min_amount_out: Balance,
    ) -> (c: RuntimeCall)
        ensures
            c == (RuntimeCall::NeoSwaps(
                NeoSwapsCall::Buy { market_id, asset_count, asset_out, amount_in, min_amount_out },
            )),
    {
        RuntimeCall::NeoSwaps(
            NeoSwapsCall::Buy { market_id, asset_count, asset_out, amount_in, min_amount_out },
        )
    }

    pub fn neoswap_sell(
        &self,
        market_id: MarketId,
        asset_count: AssetIndexType,
        asset_in: ZeitgeistAsset,
        amount_in: Balance,
        min_amount_out: Balance,
    ) -> (c: RuntimeCall)
        ensures
            c == (RuntimeCall::NeoSwaps(
                NeoSwapsCall::Sell { market_id, asset_count, asset_in, amount_in, min_amount_out },
            )),
    {
        RuntimeCall::NeoSwaps(
            NeoSwapsCall::Sell { market_id, asset_count, asset_in, amount_in, min_amount_out },
        )
    }

    pub fn neoswap_join(
        &self,
        market_id: MarketId,
        pool_shares_amount: Balance,
        max_amounts_in: Vec<Balance>,
    ) -> (c: RuntimeCall)
        ensures
            c == (RuntimeCall::NeoSwaps(
                NeoSwapsCall::Join { market_id, pool_shares_amount, max_amounts_in },
            )),
    {
        RuntimeCall::NeoSwaps(NeoSwapsCall::Join { market_id, pool_shares_amount, max_amounts_in })
    }

    pub fn neoswap_exit(
        &self,
        market_id: MarketId,
        pool_shares_amount_out: Balance,
        min_amounts_out: Vec<Balance>,
    ) -> (c: RuntimeCall)
        ensures
            c == (RuntimeCall::NeoSwaps(
                NeoSwapsCall::Exit { market_id, pool_shares_amount_out, min_amounts_out },
            )),
    {
        RuntimeCall::NeoSwaps(
            NeoSwapsCall::Exit { market_id, pool_shares_amount_out, min_amounts_out },
        )
    }

    pub fn neoswap_withdraw_fees(&self, market_id: MarketId) -> (c: RuntimeCall)
        ensures
            c == (RuntimeCall::NeoSwaps(NeoSwapsCall::WithdrawFees { market_id })),
    {
        RuntimeCall::NeoSwaps(NeoSwapsCall::WithdrawFees { market_id })
    }

    pub fn neoswap_deploy_pool(
        &self,
        market_id: MarketId,
        amount: Balance,
        spot_prices: Vec<Balance>,
        swap_fee: Balance,
    ) -> (c: RuntimeCall)
        ensures
            c == (RuntimeCall::NeoSwaps(
                NeoSwapsCall::DeployPool { market_id, amount, spot_prices, swap_fee },
            )),
    {
        RuntimeCall::NeoSwaps(NeoSwapsCall::DeployPool { market_id, amount, spot_prices, swap_fee })
    }

    // endregion
    // region: Orderbook

    pub fn remove_order(&self, order_id: OrderId) -> (c: RuntimeCall)
        ensures
            c == (RuntimeCall::Orderbook(OrderbookCall::RemoveOrder { order_id })),
    {
        RuntimeCall::Orderbook(OrderbookCall::RemoveOrder { order_id })
    }

    pub fn fill_order(&self, order_id: OrderId, maker_partial_fill: Option<Balance>) -> (c:
        RuntimeCall)
        ensures
            c == (RuntimeCall::Orderbook(
                OrderbookCall::FillOrder { order_id, maker_partial_fill },
            )),
    {
        RuntimeCall::Orderbook(OrderbookCall::FillOrder { order_id, maker_partial_fill })
    }

    pub fn place_order(
        &self,
        market_id: MarketId,
        maker_asset: ZeitgeistAsset,
        maker_amount: Balance,
        taker_asset: ZeitgeistAsset,
        taker_amount: Balance,
    ) -> (c: RuntimeCall)
        ensures
            c == (RuntimeCall::Orderbook(
                OrderbookCall::PlaceOrder {
                    market_id,
                    maker_asset,
                    maker_amount,
                    taker_asset,
                    taker_amount,
                },
            )),
    {
        RuntimeCall::Orderbook(
            OrderbookCall::PlaceOrder {
                market_id,
                maker_asset,
                maker_amount,
                taker_asset,
                taker_amount,
            },
        )
    }

    // endregion
    // region: Parimutuel

    pub fn parimutuel_buy(&self, asset: ZeitgeistAsset, amount: Balance) -> (c: RuntimeCall)
        ensures
            c == (RuntimeCall::Parimutuel(ParimutelCall::Buy { asset, amount })),
    {
        RuntimeCall::Parimutuel(ParimutelCall::Buy { asset, amount })
    }

    pub fn parimutuel_claim_rewards(&self, market_id: MarketId) -> (c: RuntimeCall)
        ensures
            c == (RuntimeCall::Parimutuel(ParimutelCall::ClaimRewards { market_id })),
    {
        RuntimeCall::Parimutuel(ParimutelCall::ClaimRewards { market_id })
    }

    pub fn parimutuel_claim_refunds(&self, refund_asset: ZeitgeistAsset) -> (c: RuntimeCall)
        ensures
            c == (RuntimeCall::Parimutuel(ParimutelCall::ClaimRefunds { refund_asset })),
    {
        RuntimeCall::Parimutuel(ParimutelCall::ClaimRefunds { refund_asset })
    }
    // endregion
}

} // verus!
