//! The call descriptors of the host runtime, one union per pallet, wrapped in
//! one top-level union whose tag is the pallet's position in the host's module
//! registry. Every tag here is externally assigned configuration, never derived
//! locally; the byte-level meaning of each variant is fixed by the spec
//! functions below, and the executable encoder and decoder are proved against
//! them.
use vstd::prelude::*;

use crate::codec::{
    spec_dec_byte_list, spec_dec_balance_list, spec_dec_compact, spec_dec_opt_u128, spec_dec_raw,
    spec_dec_u128, spec_dec_u16, spec_enc_byte_list, spec_enc_balance_list, spec_enc_compact,
    spec_enc_opt_u128, spec_enc_u128, spec_enc_u16,
};
use crate::primitives::{
    account_views, account_wf, accounts_wf, hash32_wf, multihash_wf, spec_dec_account_list,
    spec_dec_asset, spec_dec_deadlines, spec_dec_lookup, spec_dec_market_type, spec_dec_multihash, spec_dec_opt_mdm, spec_dec_outcome, spec_dec_perbill, spec_dec_period,
    spec_dec_scoring, spec_dec_creation, spec_dec_vote_item, spec_enc_account_list, spec_enc_asset,
    spec_enc_deadlines, spec_enc_lookup, spec_enc_market_type, spec_enc_multihash,
    spec_enc_opt_mdm, spec_enc_outcome, spec_enc_perbill, spec_enc_period, spec_enc_scoring,
    spec_enc_creation, spec_enc_vote_item, AccountId, AssetIndexType, CourtHash, CourtId,
    Deadlines, MarketCreation, MarketDisputeMechanism, MarketId, MarketPeriod, MarketType,
    MultiHash, MultiHashView, OrderId, OutcomeReport, Perbill, PoolId, ScoringRule, VoteItem,
    ZeitgeistAsset,
};

verus! {

pub type Balance = u128;

pub type Timestamp = u64;

pub type BlockNumber = u32;

// ===== Pallet call unions =====

/// Calls of the asset-manager pallet. The destination is held as a plain
/// account id and laid down as the by-account-id arm of the host's generic
/// addressing union, the only arm this adapter ever forms.
#[derive(Clone, Debug, PartialEq, Eq)]
pub enum AssetManagerCall {
    /// Transfers an asset from the caller's account to the destination account.
    Transfer { dest: AccountId, currency_id: ZeitgeistAsset, amount: Balance },
}

pub enum AssetManagerCallView {
    Transfer { dest: Seq<u8>, currency_id: ZeitgeistAsset, amount: Balance },
}

impl View for AssetManagerCall {
    type V = AssetManagerCallView;

    open spec fn view(&self) -> AssetManagerCallView {
        match self {
            AssetManagerCall::Transfer { dest, currency_id, amount } => {
                AssetManagerCallView::Transfer {
                    dest: dest@,
                    currency_id: *currency_id,
                    amount: *amount,
                }
            },
        }
    }
}

pub open spec fn asset_manager_wf(c: AssetManagerCallView) -> bool {
    match c {
        AssetManagerCallView::Transfer { dest, .. } => account_wf(dest),
    }
}

/// Calls for authorizing outcomes.
#[derive(Clone, Copy, Debug, PartialEq, Eq, Structural)]
pub enum AuthorizedCall {
    /// Overwrites already provided outcomes for the same market and account.
    AuthorizeMarketOutcome { market_id: MarketId, outcome: OutcomeReport },
}

/// Calls for stake-weighted plurality decision making.
#[derive(Clone, Debug, PartialEq, Eq)]
pub enum CourtCall {
    /// Join to become a juror, able to get randomly selected for court cases
    /// according to the provided stake.
    JoinCourt { amount: Balance },
    /// Join the court to become a delegator.
    Delegate { amount: Balance, delegations: Vec<AccountId> },
    /// Prepare as a court participant (juror or delegator) to exit the court.
    PrepareExitCourt,
    /// Exit the court.
    ExitCourt { court_participant: AccountId },
    /// Vote as a randomly selected juror for a specific court case.
    Vote { court_id: CourtId, commitment_vote: CourtHash },
    /// Denounce a juror during the voting period for which the commitment vote
    /// is known.
    DenounceVote { court_id: CourtId, juror: AccountId, vote_item: VoteItem, salt: CourtHash },
    /// Reveal the commitment vote of the caller, who is a selected juror.
    RevealVote { court_id: CourtId, vote_item: VoteItem, salt: CourtHash },
    /// Initiate an appeal for a court.
    Appeal { court_id: CourtId },
    /// Reassign the stakes of the jurors and delegators.
    ReassignCourtStakes { court_id: CourtId },
    /// Set the yearly inflation rate of the court system.
    SetInflation { inflation: Perbill },
}

pub enum CourtCallView {
    JoinCourt { amount: Balance },
    Delegate { amount: Balance, delegations: Seq<Seq<u8>> },
    PrepareExitCourt,
    ExitCourt { court_participant: Seq<u8> },
    Vote { court_id: CourtId, commitment_vote: Seq<u8> },
    DenounceVote { court_id: CourtId, juror: Seq<u8>, vote_item: VoteItem, salt: Seq<u8> },
    RevealVote { court_id: CourtId, vote_item: VoteItem, salt: Seq<u8> },
    Appeal { court_id: CourtId },
    ReassignCourtStakes { court_id: CourtId },
    SetInflation { inflation: Perbill },
}

impl View for CourtCall {
    type V = CourtCallView;

    open spec fn view(&self) -> CourtCallView {
        match self {
            CourtCall::JoinCourt { amount } => CourtCallView::JoinCourt { amount: *amount },
            CourtCall::Delegate { amount, delegations } => CourtCallView::Delegate {
                amount: *amount,
                delegations: account_views(delegations@),
            },
            CourtCall::PrepareExitCourt => CourtCallView::PrepareExitCourt,
            CourtCall::ExitCourt { court_participant } => CourtCallView::ExitCourt {
                court_participant: court_participant@,
            },
            CourtCall::Vote { court_id, commitment_vote } => CourtCallView::Vote {
                court_id: *court_id,
                commitment_vote: commitment_vote@,
            },
            CourtCall::DenounceVote { court_id, juror, vote_item, salt } => {
                CourtCallView::DenounceVote {
                    court_id: *court_id,
                    juror: juror@,
                    vote_item: *vote_item,
                    salt: salt@,
                }
            },
            CourtCall::RevealVote { court_id, vote_item, salt } => CourtCallView::RevealVote {
                court_id: *court_id,
                vote_item: *vote_item,
                salt: salt@,
            },
            CourtCall::Appeal { court_id } => CourtCallView::Appeal { court_id: *court_id },
            CourtCall::ReassignCourtStakes { court_id } => CourtCallView::ReassignCourtStakes {
                court_id: *court_id,
            },
            CourtCall::SetInflation { inflation } => CourtCallView::SetInflation {
                inflation: *inflation,
            },
        }
    }
}

pub open spec fn court_wf(c: CourtCallView) -> bool {
    match c {
        CourtCallView::Delegate { delegations, .. } => delegations.len() < 0x1_0000_0000
            && accounts_wf(delegations),
        CourtCallView::ExitCourt { court_participant } => account_wf(court_participant),
        CourtCallView::Vote { commitment_vote, .. } => hash32_wf(commitment_vote),
        CourtCallView::DenounceVote { juror, salt, .. } => account_wf(juror) && hash32_wf(salt),
        CourtCallView::RevealVote { salt, .. } => hash32_wf(salt),
        _ => true,
    }
}

/// Calls for swapping shares out for different ones.
#[derive(Clone, Debug, PartialEq, Eq)]
pub enum SwapsCall {
    /// Exits a pool.
    PoolExit { pool_id: PoolId, pool_amount: Balance, min_assets_out: Vec<Balance> },
    /// Exits a pool with an exact asset amount.
    PoolExitWithExactAssetAmount {
        pool_id: PoolId,
        asset: ZeitgeistAsset,
        asset_amount: Balance,
        max_pool_amount: Balance,
    },
    /// Exits a pool with an exact pool amount.
    PoolExitWithExactPoolAmount {
        pool_id: PoolId,
        asset: ZeitgeistAsset,
        pool_amount: Balance,
        min_asset_amount: Balance,
    },
    /// Joins a pool.
    PoolJoin { pool_id: PoolId, pool_amount: Balance, max_assets_in: Vec<Balance> },
    /// Joins a pool with an exact asset amount.
    PoolJoinWithExactAssetAmount {
        pool_id: PoolId,
        asset_in: ZeitgeistAsset,
        asset_amount: Balance,
        min_pool_amount: Balance,
    },
    /// Joins a pool with an exact pool amount.
    PoolJoinWithExactPoolAmount {
        pool_id: PoolId,
        asset: ZeitgeistAsset,
        pool_amount: Balance,
        max_asset_amount: Balance,
    },
    /// Swaps an exact amount in.
    SwapExactAmountIn {
        pool_id: PoolId,
        asset_in: ZeitgeistAsset,
        asset_amount_in: Balance,
        asset_out: ZeitgeistAsset,
        min_asset_amount_out: Option<Balance>,
        max_price: Option<Balance>,
    },
    /// Swaps an exact amount out.
    SwapExactAmountOut {
        pool_id: PoolId,
        asset_in: ZeitgeistAsset,
        max_asset_amount_in: Option<u128>,
        asset_out: ZeitgeistAsset,
        asset_amount_out: u128,
        max_price: Option<u128>,
    },
    /// Forces a pool exit.
    ForcePoolExit {
        who: AccountId,
        pool_id: PoolId,
        pool_amount: Balance,
        min_assets_out: Vec<Balance>,
    },
}

pub enum SwapsCallView {
    PoolExit { pool_id: PoolId, pool_amount: Balance, min_assets_out: Seq<Balance> },
    PoolExitWithExactAssetAmount {
        pool_id: PoolId,
        asset: ZeitgeistAsset,
        asset_amount: Balance,
        max_pool_amount: Balance,
    },
    PoolExitWithExactPoolAmount {
        pool_id: PoolId,
        asset: ZeitgeistAsset,
        pool_amount: Balance,
        min_asset_amount: Balance,
    },
    PoolJoin { pool_id: PoolId, pool_amount: Balance, max_assets_in: Seq<Balance> },
    PoolJoinWithExactAssetAmount {
        pool_id: PoolId,
        asset_in: ZeitgeistAsset,
        asset_amount: Balance,
        min_pool_amount: Balance,
    },
    PoolJoinWithExactPoolAmount {
        pool_id: PoolId,
        asset: ZeitgeistAsset,
        pool_amount: Balance,
        max_asset_amount: Balance,
    },
    SwapExactAmountIn {
        pool_id: PoolId,
        asset_in: ZeitgeistAsset,
        asset_amount_in: Balance,
        asset_out: ZeitgeistAsset,
        min_asset_amount_out: Option<Balance>,
        max_price: Option<Balance>,
    },
    SwapExactAmountOut {
        pool_id: PoolId,
        asset_in: ZeitgeistAsset,
        max_asset_amount_in: Option<u128>,
        asset_out: ZeitgeistAsset,
        asset_amount_out: u128,
        max_price: Option<u128>,
    },
    ForcePoolExit {
        who: Seq<u8>,
        pool_id: PoolId,
        pool_amount: Balance,
        min_assets_out: Seq<Balance>,
    },
}

impl View for SwapsCall {
    type V = SwapsCallView;

    open spec fn view(&self) -> SwapsCallView {
        match self {
            SwapsCall::PoolExit { pool_id, pool_amount, min_assets_out } => SwapsCallView::PoolExit {
                pool_id: *pool_id,
                pool_amount: *pool_amount,
                min_assets_out: min_assets_out@,
            },
            SwapsCall::PoolExitWithExactAssetAmount {
                pool_id,
                asset,
                asset_amount,
                max_pool_amount,
            } => SwapsCallView::PoolExitWithExactAssetAmount {
                pool_id: *pool_id,
                asset: *asset,
                asset_amount: *asset_amount,
                max_pool_amount: *max_pool_amount,
            },
            SwapsCall::PoolExitWithExactPoolAmount {
                pool_id,
                asset,
                pool_amount,
                min_asset_amount,
            } => SwapsCallView::PoolExitWithExactPoolAmount {
                pool_id: *pool_id,
                asset: *asset,
                pool_amount: *pool_amount,
                min_asset_amount: *min_asset_amount,
            },
            SwapsCall::PoolJoin { pool_id, pool_amount, max_assets_in } => SwapsCallView::PoolJoin {
                pool_id: *pool_id,
                pool_amount: *pool_amount,
                max_assets_in: max_assets_in@,
            },
            SwapsCall::PoolJoinWithExactAssetAmount {
                pool_id,
                asset_in,
                asset_amount,
                min_pool_amount,
            } => SwapsCallView::PoolJoinWithExactAssetAmount {
                pool_id: *pool_id,
                asset_in: *asset_in,
                asset_amount: *asset_amount,
                min_pool_amount: *min_pool_amount,
            },
            SwapsCall::PoolJoinWithExactPoolAmount {
                pool_id,
                asset,
                pool_amount,
                max_asset_amount,
            } => SwapsCallView::PoolJoinWithExactPoolAmount {
                pool_id: *pool_id,
                asset: *asset,
                pool_amount: *pool_amount,
                max_asset_amount: *max_asset_amount,
            },
            SwapsCall::SwapExactAmountIn {
                pool_id,
                asset_in,
                asset_amount_in,
                asset_out,
                min_asset_amount_out,
                max_price,
            } => SwapsCallView::SwapExactAmountIn {
                pool_id: *pool_id,
                asset_in: *asset_in,
                asset_amount_in: *asset_amount_in,
                asset_out: *asset_out,
                min_asset_amount_out: *min_asset_amount_out,
                max_price: *max_price,
            },
            SwapsCall::SwapExactAmountOut {
                pool_id,
                asset_in,
                max_asset_amount_in,
                asset_out,
                asset_amount_out,
                max_price,
            } => SwapsCallView::SwapExactAmountOut {
                pool_id: *pool_id,
                asset_in: *asset_in,
                max_asset_amount_in: *max_asset_amount_in,
                asset_out: *asset_out,
                asset_amount_out: *asset_amount_out,
                max_price: *max_price,
            },
            SwapsCall::ForcePoolExit { who, pool_id, pool_amount, min_assets_out } => {
                SwapsCallView::ForcePoolExit {
                    who: who@,
                    pool_id: *pool_id,
                    pool_amount: *pool_amount,
                    min_assets_out: min_assets_out@,
                }
            },
        }
    }
}

pub open spec fn swaps_wf(c: SwapsCallView) -> bool {
    match c {
        SwapsCallView::PoolExit { min_assets_out, .. } => min_assets_out.len() < 0x1_0000_0000,
        SwapsCallView::PoolJoin { max_assets_in, .. } => max_assets_in.len() < 0x1_0000_0000,
        SwapsCallView::ForcePoolExit { who, min_assets_out, .. } => account_wf(who)
            && min_assets_out.len() < 0x1_0000_0000,
        _ => true,
    }
}

/// Calls for creating, reporting, and disputing prediction markets.
#[derive(Clone, Debug, PartialEq, Eq)]
pub enum PredictionMarketsCall {
    /// Allows an authority to immediately move an open market to closed.
    AdminMoveMarketToClosed { market_id: MarketId },
    /// Allows an authority to immediately move a reported or disputed market
    /// to resolved.
    AdminMoveMarketToResolved { market_id: MarketId },
    /// Approves a market that is waiting for approval from the advisory
    /// committee.
    ApproveMarket { market_id: MarketId },
    /// Request an edit to a proposed market. This operation carries no
    /// registry position of its own and is laid down at its list position,
    /// which coincides with the approval operation's tag.
    RequestEdit { market_id: MarketId, edit_reason: Vec<u8> },
    /// Buy a complete set of outcome shares of a market.
    BuyCompleteSet { market_id: MarketId, amount: Balance },
    /// Dispute on a market that has been reported or already disputed.
    Dispute { market_id: MarketId },
    /// Creates a market.
    CreateMarket {
        base_asset: ZeitgeistAsset,
        creator_fee: Perbill,
        oracle: AccountId,
        period: MarketPeriod,
        deadlines: Deadlines,
        metadata: MultiHash,
        creation: MarketCreation,
        market_type: MarketType,
        dispute_mechanism: Option<MarketDisputeMechanism>,
        scoring_rule: ScoringRule,
    },
    /// Edit a proposed market for which a request is made.
    EditMarket {
        base_asset: ZeitgeistAsset,
        market_id: MarketId,
        oracle: AccountId,
        period: MarketPeriod,
        deadlines: Deadlines,
        metadata: MultiHash,
        market_type: MarketType,
        dispute_mechanism: Option<MarketDisputeMechanism>,
        scoring_rule: ScoringRule,
    },
    /// Redeems the winning shares of a prediction market.
    RedeemShares { market_id: MarketId },
    /// Rejects a market that is waiting for approval from the advisory
    /// committee.
    RejectMarket { market_id: MarketId, reject_reason: Vec<u8> },
    /// Reports the outcome of a market.
    Report { market_id: MarketId, outcome: OutcomeReport },
    /// Sells a complete set of outcomes shares for a market.
    SellCompleteSet { market_id: MarketId, amount: Balance },
    /// Start a global dispute, if the market dispute mechanism fails.
    StartGlobalDispute { market_id: MarketId },
    /// Create a market, deploy a pool, and provide liquidity to the market.
    CreateMarketAndDeployPool {
        base_asset: ZeitgeistAsset,
        creator_fee: Perbill,
        oracle: AccountId,
        period: MarketPeriod,
        deadlines: Deadlines,
        metadata: MultiHash,
        market_type: MarketType,
        dispute_mechanism: Option<MarketDisputeMechanism>,
        amount: Balance,
        spot_prices: Vec<Balance>,
        swap_fee: Balance,
    },
    /// Allows an authority or the market creator to schedule an early close.
    ScheduleEarlyClose { market_id: MarketId },
    /// Allows anyone to dispute a scheduled early close.
    DisputeEarlyClose { market_id: MarketId },
    /// Allows an authority to reject a scheduled early close.
    RejectEarlyClose { market_id: MarketId },
    /// Allows the market creator of a trusted market to immediately move an
    /// open market to closed.
    CloseTrustedMarket { market_id: MarketId },
    /// Allows the manual closing for "broken" markets.
    ManuallyCloseMarket { market_id: MarketId },
}

pub enum PredictionMarketsCallView {
    AdminMoveMarketToClosed { market_id: MarketId },
    AdminMoveMarketToResolved { market_id: MarketId },
    ApproveMarket { market_id: MarketId },
    RequestEdit { market_id: MarketId, edit_reason: Seq<u8> },
    BuyCompleteSet { market_id: MarketId, amount: Balance },
    Dispute { market_id: MarketId },
    CreateMarket {
        base_asset: ZeitgeistAsset,
        creator_fee: Perbill,
        oracle: Seq<u8>,
        period: MarketPeriod,
        deadlines: Deadlines,
        metadata: MultiHashView,
        creation: MarketCreation,
        market_type: MarketType,
        dispute_mechanism: Option<MarketDisputeMechanism>,
        scoring_rule: ScoringRule,
    },
    EditMarket {
        base_asset: ZeitgeistAsset,
        market_id: MarketId,
        oracle: Seq<u8>,
        period: MarketPeriod,
        deadlines: Deadlines,
        metadata: MultiHashView,
        market_type: MarketType,
        dispute_mechanism: Option<MarketDisputeMechanism>,
        scoring_rule: ScoringRule,
    },
    RedeemShares { market_id: MarketId },
    RejectMarket { market_id: MarketId, reject_reason: Seq<u8> },
    Report { market_id: MarketId, outcome: OutcomeReport },
    SellCompleteSet { market_id: MarketId, amount: Balance },
    StartGlobalDispute { market_id: MarketId },
    CreateMarketAndDeployPool {
        base_asset: ZeitgeistAsset,
        creator_fee: Perbill,
        oracle: Seq<u8>,
        period: MarketPeriod,
        deadlines: Deadlines,
        metadata: MultiHashView,
        market_type: MarketType,
        dispute_mechanism: Option<MarketDisputeMechanism>,
        amount: Balance,
        spot_prices: Seq<Balance>,
        swap_fee: Balance,
    },
    ScheduleEarlyClose { market_id: MarketId },
    DisputeEarlyClose { market_id: MarketId },
    RejectEarlyClose { market_id: MarketId },
    CloseTrustedMarket { market_id: MarketId },
    ManuallyCloseMarket { market_id: MarketId },
}

impl View for PredictionMarketsCall {
    type V = PredictionMarketsCallView;

    open spec fn view(&self) -> PredictionMarketsCallView {
        match self {
            PredictionMarketsCall::AdminMoveMarketToClosed { market_id } => {
                PredictionMarketsCallView::AdminMoveMarketToClosed { market_id: *market_id }
            },
            PredictionMarketsCall::AdminMoveMarketToResolved { market_id } => {
                PredictionMarketsCallView::AdminMoveMarketToResolved { market_id: *market_id }
            },
            PredictionMarketsCall::ApproveMarket { market_id } => {
                PredictionMarketsCallView::ApproveMarket { market_id: *market_id }
            },
            PredictionMarketsCall::RequestEdit { market_id, edit_reason } => {
                PredictionMarketsCallView::RequestEdit {
                    market_id: *market_id,
                    edit_reason: edit_reason@,
                }
            },
            PredictionMarketsCall::BuyCompleteSet { market_id, amount } => {
                PredictionMarketsCallView::BuyCompleteSet {
                    market_id: *market_id,
                    amount: *amount,
                }
            },
            PredictionMarketsCall::Dispute { market_id } => PredictionMarketsCallView::Dispute {
                market_id: *market_id,
            },
            PredictionMarketsCall::CreateMarket {
                base_asset,
                creator_fee,
                oracle,
                period,
                deadlines,
                metadata,
                creation,
                market_type,
                dispute_mechanism,
                scoring_rule,
            } => PredictionMarketsCallView::CreateMarket {
                base_asset: *base_asset,
                creator_fee: *creator_fee,
                oracle: oracle@,
                period: *period,
                deadlines: *deadlines,
                metadata: metadata@,
                creation: *creation,
                market_type: *market_type,
                dispute_mechanism: *dispute_mechanism,
                scoring_rule: *scoring_rule,
            },
            PredictionMarketsCall::EditMarket {
                base_asset,
                market_id,
                oracle,
                period,
                deadlines,
                metadata,
                market_type,
                dispute_mechanism,
                scoring_rule,
            } => PredictionMarketsCallView::EditMarket {
                base_asset: *base_asset,
                market_id: *market_id,
                oracle: oracle@,
                period: *period,
                deadlines: *deadlines,
                metadata: metadata@,
                market_type: *market_type,
                dispute_mechanism: *dispute_mechanism,
                scoring_rule: *scoring_rule,
            },
            PredictionMarketsCall::RedeemShares { market_id } => {
                PredictionMarketsCallView::RedeemShares { market_id: *market_id }
            },
            PredictionMarketsCall::RejectMarket { market_id, reject_reason } => {
                PredictionMarketsCallView::RejectMarket {
                    market_id: *market_id,
                    reject_reason: reject_reason@,
                }
            },
            PredictionMarketsCall::Report { market_id, outcome } => {
                PredictionMarketsCallView::Report { market_id: *market_id, outcome: *outcome }
            },
            PredictionMarketsCall::SellCompleteSet { market_id, amount } => {
                PredictionMarketsCallView::SellCompleteSet {
                    market_id: *market_id,
                    amount: *amount,
                }
            },
            PredictionMarketsCall::StartGlobalDispute { market_id } => {
                PredictionMarketsCallView::StartGlobalDispute { market_id: *market_id }
            },
            PredictionMarketsCall::CreateMarketAndDeployPool {
                base_asset,
                creator_fee,
                oracle,
                period,
                deadlines,
                metadata,
                market_type,
                dispute_mechanism,
                amount,
                spot_prices,
                swap_fee,
            } => PredictionMarketsCallView::CreateMarketAndDeployPool {
                base_asset: *base_asset,
                creator_fee: *creator_fee,
                oracle: oracle@,
                period: *period,
                deadlines: *deadlines,
                metadata: metadata@,
                market_type: *market_type,
                dispute_mechanism: *dispute_mechanism,
                amount: *amount,
                spot_prices: spot_prices@,
                swap_fee: *swap_fee,
            },
            PredictionMarketsCall::ScheduleEarlyClose { market_id } => {
                PredictionMarketsCallView::ScheduleEarlyClose { market_id: *market_id }
            },
            PredictionMarketsCall::DisputeEarlyClose { market_id } => {
                PredictionMarketsCallView::DisputeEarlyClose { market_id: *market_id }
            },
            PredictionMarketsCall::RejectEarlyClose { market_id } => {
                PredictionMarketsCallView::RejectEarlyClose { market_id: *market_id }
            },
            PredictionMarketsCall::CloseTrustedMarket { market_id } => {
                PredictionMarketsCallView::CloseTrustedMarket { market_id: *market_id }
            },
            PredictionMarketsCall::ManuallyCloseMarket { market_id } => {
                PredictionMarketsCallView::ManuallyCloseMarket { market_id: *market_id }
            },
        }
    }
}

pub open spec fn prediction_markets_wf(c: PredictionMarketsCallView) -> bool {
    match c {
        PredictionMarketsCallView::RequestEdit { edit_reason, .. } => edit_reason.len()
            < 0x1_0000_0000,
        PredictionMarketsCallView::CreateMarket { oracle, metadata, .. } => account_wf(oracle)
            && multihash_wf(metadata),
        PredictionMarketsCallView::EditMarket { oracle, metadata, .. } => account_wf(oracle)
            && multihash_wf(metadata),
        PredictionMarketsCallView::RejectMarket { reject_reason, .. } => reject_reason.len()
            < 0x1_0000_0000,
        PredictionMarketsCallView::CreateMarketAndDeployPool {
            oracle,
            metadata,
            spot_prices,
            ..
        } => account_wf(oracle) && multihash_wf(metadata) && spot_prices.len() < 0x1_0000_0000,
        _ => true,
    }
}

/// Calls for burning native chain tokens in order to gain entry into a
/// registry for off-chain use.
#[derive(Clone, Copy, Debug, PartialEq, Eq, Structural)]
pub enum StyxCall {
    /// Burns native tokens to cross, granting the ability to claim an avatar.
    Cross,
    /// Sets the burn amount to cross.
    SetBurnAmount { amount: Balance },
}

/// Calls for setting one out of multiple outcomes with the most locked native
/// tokens as the canonical outcome.
#[derive(Clone, Debug, PartialEq, Eq)]
pub enum GlobalDisputesCall {
    /// Add voting outcome to a global dispute in exchange for a constant fee.
    AddVoteOutcome { market_id: MarketId, outcome: OutcomeReport },
    /// Return the voting outcome fees in case the global dispute was
    /// destroyed.
    RefundVoteFees { market_id: MarketId },
    /// Purge all outcomes to allow the winning outcome owner(s) to get their
    /// reward.
    PurgeOutcomes { market_id: MarketId },
    /// Reward the collected fees to the owner(s) of a voting outcome.
    RewardOutcomeOwner { market_id: MarketId },
    /// Vote on existing voting outcomes by locking native tokens.
    VoteOnOutcome { market_id: MarketId, outcome: OutcomeReport, amount: Balance },
    /// Return all locked native tokens from a finished or destroyed global
    /// dispute.
    UnlockVoteBalance { voter: AccountId },
}

pub enum GlobalDisputesCallView {
    AddVoteOutcome { market_id: MarketId, outcome: OutcomeReport },
    RefundVoteFees { market_id: MarketId },
    PurgeOutcomes { market_id: MarketId },
    RewardOutcomeOwner { market_id: MarketId },
    VoteOnOutcome { market_id: MarketId, outcome: OutcomeReport, amount: Balance },
    UnlockVoteBalance { voter: Seq<u8> },
}

impl View for GlobalDisputesCall {
    type V = GlobalDisputesCallView;

    open spec fn view(&self) -> GlobalDisputesCallView {
        match self {
            GlobalDisputesCall::AddVoteOutcome { market_id, outcome } => {
                GlobalDisputesCallView::AddVoteOutcome {
                    market_id: *market_id,
                    outcome: *outcome,
                }
            },
            GlobalDisputesCall::RefundVoteFees { market_id } => {
                GlobalDisputesCallView::RefundVoteFees { market_id: *market_id }
            },
            GlobalDisputesCall::PurgeOutcomes { market_id } => {
                GlobalDisputesCallView::PurgeOutcomes { market_id: *market_id }
            },
            GlobalDisputesCall::RewardOutcomeOwner { market_id } => {
                GlobalDisputesCallView::RewardOutcomeOwner { market_id: *market_id }
            },
            GlobalDisputesCall::VoteOnOutcome { market_id, outcome, amount } => {
                GlobalDisputesCallView::VoteOnOutcome {
                    market_id: *market_id,
                    outcome: *outcome,
                    amount: *amount,
                }
            },
            GlobalDisputesCall::UnlockVoteBalance { voter } => {
                GlobalDisputesCallView::UnlockVoteBalance { voter: voter@ }
            },
        }
    }
}

pub open spec fn global_disputes_wf(c: GlobalDisputesCallView) -> bool {
    match c {
        GlobalDisputesCallView::UnlockVoteBalance { voter } => account_wf(voter),
        _ => true,
    }
}

/// Calls for interacting with automated-market-maker liquidity pools.
#[derive(Clone, Debug, PartialEq, Eq)]
pub enum NeoSwapsCall {
    /// Buy outcome tokens from the specified market.
    Buy {
        market_id: MarketId,
        asset_count: AssetIndexType,
        asset_out: ZeitgeistAsset,
        amount_in: Balance,
        min_amount_out: Balance,
    },
    /// Sell outcome tokens to the specified market.
    Sell {
        market_id: MarketId,
        asset_count: AssetIndexType,
        asset_in: ZeitgeistAsset,
        amount_in: Balance,
        min_amount_out: Balance,
    },
    /// Join the liquidity pool for the specified market.
    Join { market_id: MarketId, pool_shares_amount: Balance, max_amounts_in: Vec<Balance> },
    /// Exit the liquidity pool for the specified market.
    Exit { market_id: MarketId, pool_shares_amount_out: Balance, min_amounts_out: Vec<Balance> },
    /// Withdraw swap fees from the specified market.
    WithdrawFees { market_id: MarketId },
    /// Deploy a pool for the specified market and provide liquidity.
    DeployPool {
        market_id: MarketId,
        amount: Balance,
        spot_prices: Vec<Balance>,
        swap_fee: Balance,
    },
}

pub enum NeoSwapsCallView {
    Buy {
        market_id: MarketId,
        asset_count: AssetIndexType,
        asset_out: ZeitgeistAsset,
        amount_in: Balance,
        min_amount_out: Balance,
    },
    Sell {
        market_id: MarketId,
        asset_count: AssetIndexType,
        asset_in: ZeitgeistAsset,
        amount_in: Balance,
        min_amount_out: Balance,
    },
    Join { market_id: MarketId, pool_shares_amount: Balance, max_amounts_in: Seq<Balance> },
    Exit { market_id: MarketId, pool_shares_amount_out: Balance, min_amounts_out: Seq<Balance> },
    WithdrawFees { market_id: MarketId },
    DeployPool {
        market_id: MarketId,
        amount: Balance,
        spot_prices: Seq<Balance>,
        swap_fee: Balance,
    },
}

impl View for NeoSwapsCall {
    type V = NeoSwapsCallView;

    open spec fn view(&self) -> NeoSwapsCallView {
        match self {
            NeoSwapsCall::Buy { market_id, asset_count, asset_out, amount_in, min_amount_out } => {
                NeoSwapsCallView::Buy {
                    market_id: *market_id,
                    asset_count: *asset_count,
                    asset_out: *asset_out,
                    amount_in: *amount_in,
                    min_amount_out: *min_amount_out,
                }
            },
            NeoSwapsCall::Sell { market_id, asset_count, asset_in, amount_in, min_amount_out } => {
                NeoSwapsCallView::Sell {
                    market_id: *market_id,
                    asset_count: *asset_count,
                    asset_in: *asset_in,
                    amount_in: *amount_in,
                    min_amount_out: *min_amount_out,
                }
            },
            NeoSwapsCall::Join { market_id, pool_shares_amount, max_amounts_in } => {
                NeoSwapsCallView::Join {
                    market_id: *market_id,
                    pool_shares_amount: *pool_shares_amount,
                    max_amounts_in: max_amounts_in@,
                }
            },
            NeoSwapsCall::Exit { market_id, pool_shares_amount_out, min_amounts_out } => {
                NeoSwapsCallView::Exit {
                    market_id: *market_id,
                    pool_shares_amount_out: *pool_shares_amount_out,
                    min_amounts_out: min_amounts_out@,
                }
            },
            NeoSwapsCall::WithdrawFees { market_id } => NeoSwapsCallView::WithdrawFees {
                market_id: *market_id,
            },
            NeoSwapsCall::DeployPool { market_id, amount, spot_prices, swap_fee } => {
                NeoSwapsCallView::DeployPool {
                    market_id: *market_id,
                    amount: *amount,
                    spot_prices: spot_prices@,
                    swap_fee: *swap_fee,
                }
            },
        }
    }
}

pub open spec fn neo_swaps_wf(c: NeoSwapsCallView) -> bool {
    match c {
        NeoSwapsCallView::Join { max_amounts_in, .. } => max_amounts_in.len() < 0x1_0000_0000,
        NeoSwapsCallView::Exit { min_amounts_out, .. } => min_amounts_out.len() < 0x1_0000_0000,
        NeoSwapsCallView::DeployPool { spot_prices, .. } => spot_prices.len() < 0x1_0000_0000,
        _ => true,
    }
}

/// Calls for interacting with an on-chain order book, which allows exchanging
/// the market's base asset for outcome assets and vice versa.
#[derive(Clone, Copy, Debug, PartialEq, Eq, Structural)]
pub enum OrderbookCall {
    /// Removes an order.
    RemoveOrder { order_id: OrderId },
    /// Fills an existing order entirely or partially.
    FillOrder { order_id: OrderId, maker_partial_fill: Option<Balance> },
    /// Place a new order.
    PlaceOrder {
        market_id: MarketId,
        maker_asset: ZeitgeistAsset,
        maker_amount: Balance,
        taker_asset: ZeitgeistAsset,
        taker_amount: Balance,
    },
}

/// Calls for interacting with a parimutuel market maker for categorical
/// markets.
#[derive(Clone, Copy, Debug, PartialEq, Eq, Structural)]
pub enum ParimutelCall {
    /// Buy parimutuel shares for the market's base asset.
    Buy { asset: ZeitgeistAsset, amount: Balance },
    /// Claim winnings from a resolved market.
    ClaimRewards { market_id: MarketId },
    /// Refund the base asset of losing categorical outcome assets.
    ClaimRefunds { refund_asset: ZeitgeistAsset },
}

// ===== The top-level union =====

/// The base union for building runtime calls. Each variant's tag is the
/// pallet's position in the host's module registry, externally assigned
/// configuration that must never be derived locally.
#[derive(Clone, Debug, PartialEq, Eq)]
pub enum RuntimeCall {
    AssetManager(AssetManagerCall),
    Authorized(AuthorizedCall),
    Court(CourtCall),
    Swaps(SwapsCall),
    PredictionMarkets(PredictionMarketsCall),
    Styx(StyxCall),
    GlobalDisputes(GlobalDisputesCall),
    NeoSwaps(NeoSwapsCall),
    Orderbook(OrderbookCall),
    Parimutuel(ParimutelCall),
}

pub enum RuntimeCallView {
    AssetManager(AssetManagerCallView),
    Authorized(AuthorizedCall),
    Court(CourtCallView),
    Swaps(SwapsCallView),
    PredictionMarkets(PredictionMarketsCallView),
    Styx(StyxCall),
    GlobalDisputes(GlobalDisputesCallView),
    NeoSwaps(NeoSwapsCallView),
    Orderbook(OrderbookCall),
    Parimutuel(ParimutelCall),
}

impl View for RuntimeCall {
    type V = RuntimeCallView;

    open spec fn view(&self) -> RuntimeCallView {
        match self {
            RuntimeCall::AssetManager(c) => RuntimeCallView::AssetManager(c@),
            RuntimeCall::Authorized(c) => RuntimeCallView::Authorized(*c),
            RuntimeCall::Court(c) => RuntimeCallView::Court(c@),
            RuntimeCall::Swaps(c) => RuntimeCallView::Swaps(c@),
            RuntimeCall::PredictionMarkets(c) => RuntimeCallView::PredictionMarkets(c@),
            RuntimeCall::Styx(c) => RuntimeCallView::Styx(*c),
            RuntimeCall::GlobalDisputes(c) => RuntimeCallView::GlobalDisputes(c@),
            RuntimeCall::NeoSwaps(c) => RuntimeCallView::NeoSwaps(c@),
            RuntimeCall::Orderbook(c) => RuntimeCallView::Orderbook(*c),
            RuntimeCall::Parimutuel(c) => RuntimeCallView::Parimutuel(*c),
        }
    }
}

/// Validity of a call value: every fixed-size identifier has its exact width
/// and every list is short enough for the host's length prefix.
pub open spec fn call_wf(c: RuntimeCallView) -> bool {
    match c {
        RuntimeCallView::AssetManager(x) => asset_manager_wf(x),
        RuntimeCallView::Authorized(_) => true,
        RuntimeCallView::Court(x) => court_wf(x),
        RuntimeCallView::Swaps(x) => swaps_wf(x),
        RuntimeCallView::PredictionMarkets(x) => prediction_markets_wf(x),
        RuntimeCallView::Styx(_) => true,
        RuntimeCallView::GlobalDisputes(x) => global_disputes_wf(x),
        RuntimeCallView::NeoSwaps(x) => neo_swaps_wf(x),
        RuntimeCallView::Orderbook(_) => true,
        RuntimeCallView::Parimutuel(_) => true,
    }
}

/// The registry position of the pallet a call belongs to: the first byte of
/// every encoded call, whatever operation stands beneath it.
pub open spec fn spec_pallet_index(c: RuntimeCallView) -> u8 {
    match c {
        RuntimeCallView::AssetManager(_) => 40,
        RuntimeCallView::Authorized(_) => 51,
        RuntimeCallView::Court(_) => 52,
        RuntimeCallView::Swaps(_) => 56,
        RuntimeCallView::PredictionMarkets(_) => 57,
        RuntimeCallView::Styx(_) => 58,
        RuntimeCallView::GlobalDisputes(_) => 59,
        RuntimeCallView::NeoSwaps(_) => 60,
        RuntimeCallView::Orderbook(_) => 61,
        RuntimeCallView::Parimutuel(_) => 62,
    }
}

// ===== Byte meaning of each pallet's operations =====
//
// Each operation is a tag byte and its arguments in dispatch order; an
// argument marked compact in the host's dispatch signature uses the
// variable-length form, every other integer its fixed width.

pub open spec fn spec_enc_asset_manager(c: AssetManagerCallView) -> Seq<u8> {
    match c {
        AssetManagerCallView::Transfer { dest, currency_id, amount } => seq![0u8] + (
        spec_enc_lookup(dest) + (spec_enc_asset(currency_id) + spec_enc_compact(amount as nat))),
    }
}

pub open spec fn spec_dec_asset_manager(s: Seq<u8>) -> Option<(AssetManagerCallView, Seq<u8>)> {
    if s.len() == 0 {
        None
    } else if s[0] == 0 {
        match spec_dec_lookup(s.skip(1)) {
            Some((dest, r1)) => match spec_dec_asset(r1) {
                Some((currency_id, r2)) => match spec_dec_compact(r2) {
                    Some((amount, rest)) => Some(
                        (
                            AssetManagerCallView::Transfer {
                                dest,
                                currency_id,
                                amount: amount as u128,
                            },
                            rest,
                        ),
                    ),
                    None => None,
                },
                None => None,
            },
            None => None,
        }
    } else {
        None
    }
}

pub open spec fn spec_enc_authorized(c: AuthorizedCall) -> Seq<u8> {
    match c {
        AuthorizedCall::AuthorizeMarketOutcome { market_id, outcome } => seq![0u8] + (
        spec_enc_u128(market_id) + spec_enc_outcome(outcome)),
    }
}

pub open spec fn spec_dec_authorized(s: Seq<u8>) -> Option<(AuthorizedCall, Seq<u8>)> {
    if s.len() == 0 {
        None
    } else if s[0] == 0 {
        match spec_dec_u128(s.skip(1)) {
            Some((market_id, r1)) => match spec_dec_outcome(r1) {
                Some((outcome, rest)) => Some(
                    (AuthorizedCall::AuthorizeMarketOutcome { market_id, outcome }, rest),
                ),
                None => None,
            },
            None => None,
        }
    } else {
        None
    }
}

pub open spec fn spec_enc_court(c: CourtCallView) -> Seq<u8> {
    match c {
        CourtCallView::JoinCourt { amount } => seq![0u8] + spec_enc_u128(amount),
        CourtCallView::Delegate { amount, delegations } => seq![1u8] + (spec_enc_u128(amount)
            + spec_enc_account_list(delegations)),
        CourtCallView::PrepareExitCourt => seq![2u8],
        CourtCallView::ExitCourt { court_participant } => seq![3u8] + spec_enc_lookup(
            court_participant,
        ),
        CourtCallView::Vote { court_id, commitment_vote } => seq![4u8] + (spec_enc_compact(
            court_id as nat,
        ) + commitment_vote),
        CourtCallView::DenounceVote { court_id, juror, vote_item, salt } => seq![5u8] + (
        spec_enc_compact(court_id as nat) + (spec_enc_lookup(juror) + (spec_enc_vote_item(vote_item)
            + salt))),
        CourtCallView::RevealVote { court_id, vote_item, salt } => seq![6u8] + (spec_enc_compact(
            court_id as nat,
        ) + (spec_enc_vote_item(vote_item) + salt)),
        CourtCallView::Appeal { court_id } => seq![7u8] + spec_enc_compact(court_id as nat),
        CourtCallView::ReassignCourtStakes { court_id } => seq![8u8] + spec_enc_u128(court_id),
        CourtCallView::SetInflation { inflation } => seq![9u8] + spec_enc_perbill(inflation),
    }
}

pub open spec fn spec_dec_court(s: Seq<u8>) -> Option<(CourtCallView, Seq<u8>)> {
    if s.len() == 0 {
        None
    } else {
        let t = s.skip(1);
        if s[0] == 0 {
            match spec_dec_u128(t) {
                Some((amount, rest)) => Some((CourtCallView::JoinCourt { amount }, rest)),
                None => None,
            }
        } else if s[0] == 1 {
            match spec_dec_u128(t) {
                Some((amount, r1)) => match spec_dec_account_list(r1) {
                    Some((delegations, rest)) => Some(
                        (CourtCallView::Delegate { amount, delegations }, rest),
                    ),
                    None => None,
                },
                None => None,
            }
        } else if s[0] == 2 {
            Some((CourtCallView::PrepareExitCourt, t))
        } else if s[0] == 3 {
            match spec_dec_lookup(t) {
                Some((court_participant, rest)) => Some(
                    (CourtCallView::ExitCourt { court_participant }, rest),
                ),
                None => None,
            }
        } else if s[0] == 4 {
            match spec_dec_compact(t) {
                Some((court_id, r1)) => match spec_dec_raw(r1, 32) {
                    Some((commitment_vote, rest)) => Some(
                        (
                            CourtCallView::Vote {
                                court_id: court_id as u128,
                                commitment_vote,
                            },
                            rest,
                        ),
                    ),
                    None => None,
                },
                None => None,
            }
        } else if s[0] == 5 {
            match spec_dec_compact(t) {
                Some((court_id, r1)) => match spec_dec_lookup(r1) {
                    Some((juror, r2)) => match spec_dec_vote_item(r2) {
                        Some((vote_item, r3)) => match spec_dec_raw(r3, 32) {
                            Some((salt, rest)) => Some(
                                (
                                    CourtCallView::DenounceVote {
                                        court_id: court_id as u128,
                                        juror,
                                        vote_item,
                                        salt,
                                    },
                                    rest,
                                ),
                            ),
                            None => None,
                        },
                        None => None,
                    },
                    None => None,
                },
                None => None,
            }
        } else if s[0] == 6 {
            match spec_dec_compact(t) {
                Some((court_id, r1)) => match spec_dec_vote_item(r1) {
                    Some((vote_item, r2)) => match spec_dec_raw(r2, 32) {
                        Some((salt, rest)) => Some(
                            (
                                CourtCallView::RevealVote {
                                    court_id: court_id as u128,
                                    vote_item,
                                    salt,
                                },
                                rest,
                            ),
                        ),
                        None => None,
                    },
                    None => None,
                },
                None => None,
            }
        } else if s[0] == 7 {
            match spec_dec_compact(t) {
                Some((court_id, rest)) => Some(
                    (CourtCallView::Appeal { court_id: court_id as u128 }, rest),
                ),
                None => None,
            }
        } else if s[0] == 8 {
            match spec_dec_u128(t) {
                Some((court_id, rest)) => Some(
                    (CourtCallView::ReassignCourtStakes { court_id }, rest),
                ),
                None => None,
            }
        } else if s[0] == 9 {
            match spec_dec_perbill(t) {
                Some((inflation, rest)) => Some((CourtCallView::SetInflation { inflation }, rest)),
                None => None,
            }
        } else {
            None
        }
    }
}

pub open spec fn spec_enc_swaps(c: SwapsCallView) -> Seq<u8> {
    match c {
        SwapsCallView::PoolExit { pool_id, pool_amount, min_assets_out } => seq![1u8] + (
        spec_enc_compact(pool_id as nat) + (spec_enc_compact(pool_amount as nat)
            + spec_enc_balance_list(min_assets_out))),
        SwapsCallView::PoolExitWithExactAssetAmount {
            pool_id,
            asset,
            asset_amount,
            max_pool_amount,
        } => seq![3u8] + (spec_enc_compact(pool_id as nat) + (spec_enc_asset(asset) + (
        spec_enc_compact(asset_amount as nat) + spec_enc_compact(max_pool_amount as nat)))),
        SwapsCallView::PoolExitWithExactPoolAmount {
            pool_id,
            asset,
            pool_amount,
            min_asset_amount,
        } => seq![4u8] + (spec_enc_compact(pool_id as nat) + (spec_enc_asset(asset) + (
        spec_enc_compact(pool_amount as nat) + spec_enc_compact(min_asset_amount as nat)))),
        SwapsCallView::PoolJoin { pool_id, pool_amount, max_assets_in } => seq![5u8] + (
        spec_enc_compact(pool_id as nat) + (spec_enc_compact(pool_amount as nat)
            + spec_enc_balance_list(max_assets_in))),
        SwapsCallView::PoolJoinWithExactAssetAmount {
            pool_id,
            asset_in,
            asset_amount,
            min_pool_amount,
        } => seq![7u8] + (spec_enc_compact(pool_id as nat) + (spec_enc_asset(asset_in) + (
        spec_enc_compact(asset_amount as nat) + spec_enc_compact(min_pool_amount as nat)))),
        SwapsCallView::PoolJoinWithExactPoolAmount {
            pool_id,
            asset,
            pool_amount,
            max_asset_amount,
        } => seq![8u8] + (spec_enc_compact(pool_id as nat) + (spec_enc_asset(asset) + (
        spec_enc_compact(pool_amount as nat) + spec_enc_compact(max_asset_amount as nat)))),
        SwapsCallView::SwapExactAmountIn {
            pool_id,
            asset_in,
            asset_amount_in,
            asset_out,
            min_asset_amount_out,
            max_price,
        } => seq![9u8] + (spec_enc_compact(pool_id as nat) + (spec_enc_asset(asset_in) + (
        spec_enc_compact(asset_amount_in as nat) + (spec_enc_asset(asset_out) + (
        spec_enc_opt_u128(min_asset_amount_out) + spec_enc_opt_u128(max_price)))))),
        SwapsCallView::SwapExactAmountOut {
            pool_id,
            asset_in,
            max_asset_amount_in,
            asset_out,
            asset_amount_out,
            max_price,
        } => seq![10u8] + (spec_enc_compact(pool_id as nat) + (spec_enc_asset(asset_in) + (
        spec_enc_opt_u128(max_asset_amount_in) + (spec_enc_asset(asset_out) + (spec_enc_compact(
            asset_amount_out as nat,
        ) + spec_enc_opt_u128(max_price)))))),
        SwapsCallView::ForcePoolExit { who, pool_id, pool_amount, min_assets_out } => seq![11u8]
            + (who + (spec_enc_compact(pool_id as nat) + (spec_enc_compact(pool_amount as nat)
            + spec_enc_balance_list(min_assets_out)))),
    }
}

pub open spec fn spec_dec_swaps(s: Seq<u8>) -> Option<(SwapsCallView, Seq<u8>)> {
    if s.len() == 0 {
        None
    } else {
        let t = s.skip(1);
        if s[0] == 1 {
            match spec_dec_compact(t) {
                Some((pool_id, r1)) => match spec_dec_compact(r1) {
                    Some((pool_amount, r2)) => match spec_dec_balance_list(r2) {
                        Some((min_assets_out, rest)) => Some(
                            (
                                SwapsCallView::PoolExit {
                                    pool_id: pool_id as u128,
                                    pool_amount: pool_amount as u128,
                                    min_assets_out,
                                },
                                rest,
                            ),
                        ),
                        None => None,
                    },
                    None => None,
                },
                None => None,
            }
        } else if s[0] == 3 {
            match spec_dec_compact(t) {
                Some((pool_id, r1)) => match spec_dec_asset(r1) {
                    Some((asset, r2)) => match spec_dec_compact(r2) {
                        Some((asset_amount, r3)) => match spec_dec_compact(r3) {
                            Some((max_pool_amount, rest)) => Some(
                                (
                                    SwapsCallView::PoolExitWithExactAssetAmount {
                                        pool_id: pool_id as u128,
                                        asset,
                                        asset_amount: asset_amount as u128,
                                        max_pool_amount: max_pool_amount as u128,
                                    },
                                    rest,
                                ),
                            ),
                            None => None,
                        },
                        None => None,
                    },
                    None => None,
                },
                None => None,
            }
        } else if s[0] == 4 {
            match spec_dec_compact(t) {
                Some((pool_id, r1)) => match spec_dec_asset(r1) {
                    Some((asset, r2)) => match spec_dec_compact(r2) {
                        Some((pool_amount, r3)) => match spec_dec_compact(r3) {
                            Some((min_asset_amount, rest)) => Some(
                                (
                                    SwapsCallView::PoolExitWithExactPoolAmount {
                                        pool_id: pool_id as u128,
                                        asset,
                                        pool_amount: pool_amount as u128,
                                        min_asset_amount: min_asset_amount as u128,
                                    },
                                    rest,
                                ),
                            ),
                            None => None,
                        },
                        None => None,
                    },
                    None => None,
                },
                None => None,
            }
        } else if s[0] == 5 {
            match spec_dec_compact(t) {
                Some((pool_id, r1)) => match spec_dec_compact(r1) {
                    Some((pool_amount, r2)) => match spec_dec_balance_list(r2) {
                        Some((max_assets_in, rest)) => Some(
                            (
                                SwapsCallView::PoolJoin {
                                    pool_id: pool_id as u128,
                                    pool_amount: pool_amount as u128,
                                    max_assets_in,
                                },
                                rest,
                            ),
                        ),
                        None => None,
                    },
                    None => None,
                },
                None => None,
            }
        } else if s[0] == 7 {
            match spec_dec_compact(t) {
                Some((pool_id, r1)) => match spec_dec_asset(r1) {
                    Some((asset_in, r2)) => match spec_dec_compact(r2) {
                        Some((asset_amount, r3)) => match spec_dec_compact(r3) {
                            Some((min_pool_amount, rest)) => Some(
                                (
                                    SwapsCallView::PoolJoinWithExactAssetAmount {
                                        pool_id: pool_id as u128,
                                        asset_in,
                                        asset_amount: asset_amount as u128,
                                        min_pool_amount: min_pool_amount as u128,
                                    },
                                    rest,
                                ),
                            ),
                            None => None,
                        },
                        None => None,
                    },
                    None => None,
                },
                None => None,
            }
        } else if s[0] == 8 {
            match spec_dec_compact(t) {
                Some((pool_id, r1)) => match spec_dec_asset(r1) {
                    Some((asset, r2)) => match spec_dec_compact(r2) {
                        Some((pool_amount, r3)) => match spec_dec_compact(r3) {
                            Some((max_asset_amount, rest)) => Some(
                                (
                                    SwapsCallView::PoolJoinWithExactPoolAmount {
                                        pool_id: pool_id as u128,
                                        asset,
                                        pool_amount: pool_amount as u128,
                                        max_asset_amount: max_asset_amount as u128,
                                    },
                                    rest,
                                ),
                            ),
                            None => None,
                        },
                        None => None,
                    },
                    None => None,
                },
                None => None,
            }
        } else if s[0] == 9 {
            match spec_dec_compact(t) {
                Some((pool_id, r1)) => match spec_dec_asset(r1) {
                    Some((asset_in, r2)) => match spec_dec_compact(r2) {
                        Some((asset_amount_in, r3)) => match spec_dec_asset(r3) {
                            Some((asset_out, r4)) => match spec_dec_opt_u128(r4) {
                                Some((min_asset_amount_out, r5)) => match spec_dec_opt_u128(r5) {
                                    Some((max_price, rest)) => Some(
                                        (
                                            SwapsCallView::SwapExactAmountIn {
                                                pool_id: pool_id as u128,
                                                asset_in,
                                                asset_amount_in: asset_amount_in as u128,
                                                asset_out,
                                                min_asset_amount_out,
                                                max_price,
                                            },
                                            rest,
                                        ),
                                    ),
                                    None => None,
                                },
                                None => None,
                            },
                            None => None,
                        },
                        None => None,
                    },
                    None => None,
                },
                None => None,
            }
        } else if s[0] == 10 {
            match spec_dec_compact(t) {
                Some((pool_id, r1)) => match spec_dec_asset(r1) {
                    Some((asset_in, r2)) => match spec_dec_opt_u128(r2) {
                        Some((max_asset_amount_in, r3)) => match spec_dec_asset(r3) {
                            Some((asset_out, r4)) => match spec_dec_compact(r4) {
                                Some((asset_amount_out, r5)) => match spec_dec_opt_u128(r5) {
                                    Some((max_price, rest)) => Some(
                                        (
                                            SwapsCallView::SwapExactAmountOut {
                                                pool_id: pool_id as u128,
                                                asset_in,
                                                max_asset_amount_in,
                                                asset_out,
                                                asset_amount_out: asset_amount_out as u128,
                                                max_price,
                                            },
                                            rest,
                                        ),
                                    ),
                                    None => None,
                                },
                                None => None,
                            },
                            None => None,
                        },
                        None => None,
                    },
                    None => None,
                },
                None => None,
            }
        } else if s[0] == 11 {
            match spec_dec_raw(t, 32) {
                Some((who, r1)) => match spec_dec_compact(r1) {
                    Some((pool_id, r2)) => match spec_dec_compact(r2) {
                        Some((pool_amount, r3)) => match spec_dec_balance_list(r3) {
                            Some((min_assets_out, rest)) => Some(
                                (
                                    SwapsCallView::ForcePoolExit {
                                        who,
                                        pool_id: pool_id as u128,
                                        pool_amount: pool_amount as u128,
                                        min_assets_out,
                                    },
                                    rest,
                                ),
                            ),
                            None => None,
                        },
                        None => None,
                    },
                    None => None,
                },
                None => None,
            }
        } else {
            None
        }
    }
}

pub open spec fn spec_enc_styx(c: StyxCall) -> Seq<u8> {
    match c {
        StyxCall::Cross => seq![0u8],
        StyxCall::SetBurnAmount { amount } => seq![1u8] + spec_enc_compact(amount as nat),
    }
}

pub open spec fn spec_dec_styx(s: Seq<u8>) -> Option<(StyxCall, Seq<u8>)> {
    if s.len() == 0 {
        None
    } else if s[0] == 0 {
        Some((StyxCall::Cross, s.skip(1)))
    } else if s[0] == 1 {
        match spec_dec_compact(s.skip(1)) {
            Some((amount, rest)) => Some(
                (StyxCall::SetBurnAmount { amount: amount as u128 }, rest),
            ),
            None => None,
        }
    } else {
        None
    }
}

pub open spec fn spec_enc_global_disputes(c: GlobalDisputesCallView) -> Seq<u8> {
    match c {
        GlobalDisputesCallView::AddVoteOutcome { market_id, outcome } => seq![0u8] + (
        spec_enc_compact(market_id as nat) + spec_enc_outcome(outcome)),
        GlobalDisputesCallView::RefundVoteFees { market_id } => seq![5u8] + spec_enc_compact(
            market_id as nat,
        ),
        GlobalDisputesCallView::PurgeOutcomes { market_id } => seq![1u8] + spec_enc_compact(
            market_id as nat,
        ),
        GlobalDisputesCallView::RewardOutcomeOwner { market_id } => seq![2u8] + spec_enc_compact(
            market_id as nat,
        ),
        GlobalDisputesCallView::VoteOnOutcome { market_id, outcome, amount } => seq![3u8] + (
        spec_enc_compact(market_id as nat) + (spec_enc_outcome(outcome) + spec_enc_compact(
            amount as nat,
        ))),
        GlobalDisputesCallView::UnlockVoteBalance { voter } => seq![4u8] + spec_enc_lookup(voter),
    }
}

pub open spec fn spec_dec_global_disputes(s: Seq<u8>) -> Option<(GlobalDisputesCallView, Seq<u8>)> {
    if s.len() == 0 {
        None
    } else {
        let t = s.skip(1);
        if s[0] == 0 {
            match spec_dec_compact(t) {
                Some((market_id, r1)) => match spec_dec_outcome(r1) {
                    Some((outcome, rest)) => Some(
                        (
                            GlobalDisputesCallView::AddVoteOutcome {
                                market_id: market_id as u128,
                                outcome,
                            },
                            rest,
                        ),
                    ),
                    None => None,
                },
                None => None,
            }
        } else if s[0] == 5 {
            match spec_dec_compact(t) {
                Some((market_id, rest)) => Some(
                    (GlobalDisputesCallView::RefundVoteFees { market_id: market_id as u128 }, rest),
                ),
                None => None,
            }
        } else if s[0] == 1 {
            match spec_dec_compact(t) {
                Some((market_id, rest)) => Some(
                    (GlobalDisputesCallView::PurgeOutcomes { market_id: market_id as u128 }, rest),
                ),
                None => None,
            }
        } else if s[0] == 2 {
            match spec_dec_compact(t) {
                Some((market_id, rest)) => Some(
                    (
                        GlobalDisputesCallView::RewardOutcomeOwner {
                            market_id: market_id as u128,
                        },
                        rest,
                    ),
                ),
                None => None,
            }
        } else if s[0] == 3 {
            match spec_dec_compact(t) {
                Some((market_id, r1)) => match spec_dec_outcome(r1) {
                    Some((outcome, r2)) => match spec_dec_compact(r2) {
                        Some((amount, rest)) => Some(
                            (
                                GlobalDisputesCallView::VoteOnOutcome {
                                    market_id: market_id as u128,
                                    outcome,
                                    amount: amount as u128,
                                },
                                rest,
                            ),
                        ),
                        None => None,
                    },
                    None => None,
                },
                None => None,
            }
        } else if s[0] == 4 {
            match spec_dec_lookup(t) {
                Some((voter, rest)) => Some(
                    (GlobalDisputesCallView::UnlockVoteBalance { voter }, rest),
                ),
                None => None,
            }
        } else {
            None
        }
    }
}

pub open spec fn spec_enc_neo_swaps(c: NeoSwapsCallView) -> Seq<u8> {
    match c {
        NeoSwapsCallView::Buy { market_id, asset_count, asset_out, amount_in, min_amount_out } => {
            seq![0u8] + (spec_enc_compact(market_id as nat) + (spec_enc_u16(asset_count) + (
            spec_enc_asset(asset_out) + (spec_enc_compact(amount_in as nat) + spec_enc_compact(
                min_amount_out as nat,
            )))))
        },
        NeoSwapsCallView::Sell { market_id, asset_count, asset_in, amount_in, min_amount_out } => {
            seq![1u8] + (spec_enc_compact(market_id as nat) + (spec_enc_u16(asset_count) + (
            spec_enc_asset(asset_in) + (spec_enc_compact(amount_in as nat) + spec_enc_compact(
                min_amount_out as nat,
            )))))
        },
        NeoSwapsCallView::Join { market_id, pool_shares_amount, max_amounts_in } => seq![2u8] + (
        spec_enc_compact(market_id as nat) + (spec_enc_compact(pool_shares_amount as nat)
            + spec_enc_balance_list(max_amounts_in))),
        NeoSwapsCallView::Exit { market_id, pool_shares_amount_out, min_amounts_out } => seq![3u8]
            + (spec_enc_compact(market_id as nat) + (spec_enc_compact(pool_shares_amount_out as nat)
            + spec_enc_balance_list(min_amounts_out))),
        NeoSwapsCallView::WithdrawFees { market_id } => seq![4u8] + spec_enc_compact(
            market_id as nat,
        ),
        NeoSwapsCallView::DeployPool { market_id, amount, spot_prices, swap_fee } => seq![5u8] + (
        spec_enc_compact(market_id as nat) + (spec_enc_compact(amount as nat) + (
        spec_enc_balance_list(spot_prices) + spec_enc_compact(swap_fee as nat)))),
    }
}

pub open spec fn spec_dec_neo_swaps(s: Seq<u8>) -> Option<(NeoSwapsCallView, Seq<u8>)> {
    if s.len() == 0 {
        None
    } else {
        let t = s.skip(1);
        if s[0] == 0 {
            match spec_dec_compact(t) {
                Some((market_id, r1)) => match spec_dec_u16(r1) {
                    Some((asset_count, r2)) => match spec_dec_asset(r2) {
                        Some((asset_out, r3)) => match spec_dec_compact(r3) {
                            Some((amount_in, r4)) => match spec_dec_compact(r4) {
                                Some((min_amount_out, rest)) => Some(
                                    (
                                        NeoSwapsCallView::Buy {
                                            market_id: market_id as u128,
                                            asset_count,
                                            asset_out,
                                            amount_in: amount_in as u128,
                                            min_amount_out: min_amount_out as u128,
                                        },
                                        rest,
                                    ),
                                ),
                                None => None,
                            },
                            None => None,
                        },
                        None => None,
                    },
                    None => None,
                },
                None => None,
            }
        } else if s[0] == 1 {
            match spec_dec_compact(t) {
                Some((market_id, r1)) => match spec_dec_u16(r1) {
                    Some((asset_count, r2)) => match spec_dec_asset(r2) {
                        Some((asset_in, r3)) => match spec_dec_compact(r3) {
                            Some((amount_in, r4)) => match spec_dec_compact(r4) {
                                Some((min_amount_out, rest)) => Some(
                                    (
                                        NeoSwapsCallView::Sell {
                                            market_id: market_id as u128,
                                            asset_count,
                                            asset_in,
                                            amount_in: amount_in as u128,
                                            min_amount_out: min_amount_out as u128,
                                        },
                                        rest,
                                    ),
                                ),
                                None => None,
                            },
                            None => None,
                        },
                        None => None,
                    },
                    None => None,
                },
                None => None,
            }
        } else if s[0] == 2 {
            match spec_dec_compact(t) {
                Some((market_id, r1)) => match spec_dec_compact(r1) {
                    Some((pool_shares_amount, r2)) => match spec_dec_balance_list(r2) {
                        Some((max_amounts_in, rest)) => Some(
                            (
                                NeoSwapsCallView::Join {
                                    market_id: market_id as u128,
                                    pool_shares_amount: pool_shares_amount as u128,
                                    max_amounts_in,
                                },
                                rest,
                            ),
                        ),
                        None => None,
                    },
                    None => None,
                },
                None => None,
            }
        } else if s[0] == 3 {
            match spec_dec_compact(t) {
                Some((market_id, r1)) => match spec_dec_compact(r1) {
                    Some((pool_shares_amount_out, r2)) => match spec_dec_balance_list(r2) {
                        Some((min_amounts_out, rest)) => Some(
                            (
                                NeoSwapsCallView::Exit {
                                    market_id: market_id as u128,
                                    pool_shares_amount_out: pool_shares_amount_out as u128,
                                    min_amounts_out,
                                },
                                rest,
                            ),
                        ),
                        None => None,
                    },
                    None => None,
                },
                None => None,
            }
        } else if s[0] == 4 {
            match spec_dec_compact(t) {
                Some((market_id, rest)) => Some(
                    (NeoSwapsCallView::WithdrawFees { market_id: market_id as u128 }, rest),
                ),
                None => None,
            }
        } else if s[0] == 5 {
            match spec_dec_compact(t) {
                Some((market_id, r1)) => match spec_dec_compact(r1) {
                    Some((amount, r2)) => match spec_dec_balance_list(r2) {
                        Some((spot_prices, r3)) => match spec_dec_compact(r3) {
                            Some((swap_fee, rest)) => Some(
                                (
                                    NeoSwapsCallView::DeployPool {
                                        market_id: market_id as u128,
                                        amount: amount as u128,
                                        spot_prices,
                                        swap_fee: swap_fee as u128,
                                    },
                                    rest,
                                ),
                            ),
                            None => None,
                        },
                        None => None,
                    },
                    None => None,
                },
                None => None,
            }
        } else {
            None
        }
    }
}

pub open spec fn spec_enc_orderbook(c: OrderbookCall) -> Seq<u8> {
    match c {
        OrderbookCall::RemoveOrder { order_id } => seq![0u8] + spec_enc_u128(order_id),
        OrderbookCall::FillOrder { order_id, maker_partial_fill } => seq![1u8] + (spec_enc_u128(
            order_id,
        ) + spec_enc_opt_u128(maker_partial_fill)),
        OrderbookCall::PlaceOrder {
            market_id,
            maker_asset,
            maker_amount,
            taker_asset,
            taker_amount,
        } => seq![2u8] + (spec_enc_compact(market_id as nat) + (spec_enc_asset(maker_asset) + (
        spec_enc_compact(maker_amount as nat) + (spec_enc_asset(taker_asset) + spec_enc_compact(
            taker_amount as nat,
        ))))),
    }
}

pub open spec fn spec_dec_orderbook(s: Seq<u8>) -> Option<(OrderbookCall, Seq<u8>)> {
    if s.len() == 0 {
        None
    } else {
        let t = s.skip(1);
        if s[0] == 0 {
            match spec_dec_u128(t) {
                Some((order_id, rest)) => Some((OrderbookCall::RemoveOrder { order_id }, rest)),
                None => None,
            }
        } else if s[0] == 1 {
            match spec_dec_u128(t) {
                Some((order_id, r1)) => match spec_dec_opt_u128(r1) {
                    Some((maker_partial_fill, rest)) => Some(
                        (OrderbookCall::FillOrder { order_id, maker_partial_fill }, rest),
                    ),
                    None => None,
                },
                None => None,
            }
        } else if s[0] == 2 {
            match spec_dec_compact(t) {
                Some((market_id, r1)) => match spec_dec_asset(r1) {
                    Some((maker_asset, r2)) => match spec_dec_compact(r2) {
                        Some((maker_amount, r3)) => match spec_dec_asset(r3) {
                            Some((taker_asset, r4)) => match spec_dec_compact(r4) {
                                Some((taker_amount, rest)) => Some(
                                    (
                                        OrderbookCall::PlaceOrder {
                                            market_id: market_id as u128,
                                            maker_asset,
                                            maker_amount: maker_amount as u128,
                                            taker_asset,
                                            taker_amount: taker_amount as u128,
                                        },
                                        rest,
                                    ),
                                ),
                                None => None,
                            },
                            None => None,
                        },
                        None => None,
                    },
                    None => None,
                },
                None => None,
            }
        } else {
            None
        }
    }
}

pub open spec fn spec_enc_parimutuel(c: ParimutelCall) -> Seq<u8> {
    match c {
        ParimutelCall::Buy { asset, amount } => seq![0u8] + (spec_enc_asset(asset)
            + spec_enc_compact(amount as nat)),
        ParimutelCall::ClaimRewards { market_id } => seq![1u8] + spec_enc_u128(market_id),
        ParimutelCall::ClaimRefunds { refund_asset } => seq![2u8] + spec_enc_asset(refund_asset),
    }
}

pub open spec fn spec_dec_parimutuel(s: Seq<u8>) -> Option<(ParimutelCall, Seq<u8>)> {
    if s.len() == 0 {
        None
    } else {
        let t = s.skip(1);
        if s[0] == 0 {
            match spec_dec_asset(t) {
                Some((asset, r1)) => match spec_dec_compact(r1) {
                    Some((amount, rest)) => Some(
                        (ParimutelCall::Buy { asset, amount: amount as u128 }, rest),
                    ),
                    None => None,
                },
                None => None,
            }
        } else if s[0] == 1 {
            match spec_dec_u128(t) {
                Some((market_id, rest)) => Some((ParimutelCall::ClaimRewards { market_id }, rest)),
                None => None,
            }
        } else if s[0] == 2 {
            match spec_dec_asset(t) {
                Some((refund_asset, rest)) => Some(
                    (ParimutelCall::ClaimRefunds { refund_asset }, rest),
                ),
                None => None,
            }
        } else {
            None
        }
    }
}


/// Byte form of the market-creating operation's arguments.
pub open spec fn spec_enc_pm_create_market(
    base_asset: ZeitgeistAsset,
    creator_fee: Perbill,
    oracle: Seq<u8>,
    period: MarketPeriod,
    deadlines: Deadlines,
    metadata: MultiHashView,
    creation: MarketCreation,
    market_type: MarketType,
    dispute_mechanism: Option<MarketDisputeMechanism>,
    scoring_rule: ScoringRule,
) -> Seq<u8> {
    seq![8u8] + (spec_enc_asset(base_asset) + (spec_enc_perbill(creator_fee) + (oracle + (
    spec_enc_period(period) + (spec_enc_deadlines(deadlines) + (spec_enc_multihash(metadata) + (
    spec_enc_creation(creation) + (spec_enc_market_type(market_type) + (spec_enc_opt_mdm(
        dispute_mechanism,
    ) + spec_enc_scoring(scoring_rule))))))))))
}

/// Byte form of the market-editing operation's arguments.
pub open spec fn spec_enc_pm_edit_market(
    base_asset: ZeitgeistAsset,
    market_id: MarketId,
    oracle: Seq<u8>,
    period: MarketPeriod,
    deadlines: Deadlines,
    metadata: MultiHashView,
    market_type: MarketType,
    dispute_mechanism: Option<MarketDisputeMechanism>,
    scoring_rule: ScoringRule,
) -> Seq<u8> {
    seq![9u8] + (spec_enc_asset(base_asset) + (spec_enc_u128(market_id) + (oracle + (
    spec_enc_period(period) + (spec_enc_deadlines(deadlines) + (spec_enc_multihash(metadata) + (
    spec_enc_market_type(market_type) + (spec_enc_opt_mdm(dispute_mechanism) + spec_enc_scoring(
        scoring_rule,
    )))))))))
}

/// Byte form of the operation that creates a market and deploys its pool.
pub open spec fn spec_enc_pm_create_market_and_deploy_pool(
    base_asset: ZeitgeistAsset,
    creator_fee: Perbill,
    oracle: Seq<u8>,
    period: MarketPeriod,
    deadlines: Deadlines,
    metadata: MultiHashView,
    market_type: MarketType,
    dispute_mechanism: Option<MarketDisputeMechanism>,
    amount: Balance,
    spot_prices: Seq<Balance>,
    swap_fee: Balance,
) -> Seq<u8> {
    seq![17u8] + (spec_enc_asset(base_asset) + (spec_enc_perbill(creator_fee) + (oracle + (
    spec_enc_period(period) + (spec_enc_deadlines(deadlines) + (spec_enc_multihash(metadata) + (
    spec_enc_market_type(market_type) + (spec_enc_opt_mdm(dispute_mechanism) + (spec_enc_compact(
        amount as nat,
    ) + (spec_enc_balance_list(spot_prices) + spec_enc_compact(swap_fee as nat)))))))))))
}

pub open spec fn spec_enc_prediction_markets(c: PredictionMarketsCallView) -> Seq<u8> {
    match c {
        PredictionMarketsCallView::AdminMoveMarketToClosed { market_id } => seq![1u8]
            + spec_enc_compact(market_id as nat),
        PredictionMarketsCallView::AdminMoveMarketToResolved { market_id } => seq![2u8]
            + spec_enc_compact(market_id as nat),
        PredictionMarketsCallView::ApproveMarket { market_id } => seq![3u8] + spec_enc_compact(
            market_id as nat,
        ),
        PredictionMarketsCallView::RequestEdit { market_id, edit_reason } => seq![3u8] + (
        spec_enc_compact(market_id as nat) + spec_enc_byte_list(edit_reason)),
        PredictionMarketsCallView::BuyCompleteSet { market_id, amount } => seq![5u8] + (
        spec_enc_compact(market_id as nat) + spec_enc_compact(amount as nat)),
        PredictionMarketsCallView::Dispute { market_id } => seq![6u8] + spec_enc_compact(
            market_id as nat,
        ),
        PredictionMarketsCallView::CreateMarket {
            base_asset,
            creator_fee,
            oracle,
            period,
            deadlines,
            metadata,
            creation,
            market_type,
            dispute_mechanism,
            scoring_rule,
        } => spec_enc_pm_create_market(
            base_asset,
            creator_fee,
            oracle,
            period,
            deadlines,
            metadata,
            creation,
            market_type,
            dispute_mechanism,
            scoring_rule,
        ),
        PredictionMarketsCallView::EditMarket {
            base_asset,
            market_id,
            oracle,
            period,
            deadlines,
            metadata,
            market_type,
            dispute_mechanism,
            scoring_rule,
        } => spec_enc_pm_edit_market(
            base_asset,
            market_id,
            oracle,
            period,
            deadlines,
            metadata,
            market_type,
            dispute_mechanism,
            scoring_rule,
        ),
        PredictionMarketsCallView::RedeemShares { market_id } => seq![12u8] + spec_enc_compact(
            market_id as nat,
        ),
        PredictionMarketsCallView::RejectMarket { market_id, reject_reason } => seq![13u8] + (
        spec_enc_compact(market_id as nat) + spec_enc_byte_list(reject_reason)),
        PredictionMarketsCallView::Report { market_id, outcome } => seq![14u8] + (spec_enc_compact(
            market_id as nat,
        ) + spec_enc_outcome(outcome)),
        PredictionMarketsCallView::SellCompleteSet { market_id, amount } => seq![15u8] + (
        spec_enc_compact(market_id as nat) + spec_enc_compact(amount as nat)),
        PredictionMarketsCallView::StartGlobalDispute { market_id } => seq![16u8]
            + spec_enc_compact(market_id as nat),
        PredictionMarketsCallView::CreateMarketAndDeployPool {
            base_asset,
            creator_fee,
            oracle,
            period,
            deadlines,
            metadata,
            market_type,
            dispute_mechanism,
            amount,
            spot_prices,
            swap_fee,
        } => spec_enc_pm_create_market_and_deploy_pool(
            base_asset,
            creator_fee,
            oracle,
            period,
            deadlines,
            metadata,
            market_type,
            dispute_mechanism,
            amount,
            spot_prices,
            swap_fee,
        ),
        PredictionMarketsCallView::ScheduleEarlyClose { market_id } => seq![18u8]
            + spec_enc_compact(market_id as nat),
        PredictionMarketsCallView::DisputeEarlyClose { market_id } => seq![19u8] + spec_enc_compact(
            market_id as nat,
        ),
        PredictionMarketsCallView::RejectEarlyClose { market_id } => seq![20u8] + spec_enc_compact(
            market_id as nat,
        ),
        PredictionMarketsCallView::CloseTrustedMarket { market_id } => seq![21u8]
            + spec_enc_compact(market_id as nat),
        PredictionMarketsCallView::ManuallyCloseMarket { market_id } => seq![22u8]
            + spec_enc_compact(market_id as nat),
    }
}


pub open spec fn spec_dec_pm_create_market(t: Seq<u8>) -> Option<
    (PredictionMarketsCallView, Seq<u8>),
> {
    match spec_dec_asset(t) {
        Some((base_asset, r1)) => match spec_dec_perbill(r1) {
            Some((creator_fee, r2)) => match spec_dec_raw(r2, 32) {
                Some((oracle, r3)) => match spec_dec_period(r3) {
                    Some((period, r4)) => match spec_dec_deadlines(r4) {
                        Some((deadlines, r5)) => match spec_dec_multihash(r5) {
                            Some((metadata, r6)) => match spec_dec_creation(r6) {
                                Some((creation, r7)) => match spec_dec_market_type(r7) {
                                    Some((market_type, r8)) => match spec_dec_opt_mdm(r8) {
                                        Some((dispute_mechanism, r9)) => match spec_dec_scoring(
                                            r9,
                                        ) {
                                            Some((scoring_rule, rest)) => Some(
                                                (
                                                    PredictionMarketsCallView::CreateMarket {
                                                        base_asset,
                                                        creator_fee,
                                                        oracle,
                                                        period,
                                                        deadlines,
                                                        metadata,
                                                        creation,
                                                        market_type,
                                                        dispute_mechanism,
                                                        scoring_rule,
                                                    },
                                                    rest,
                                                ),
                                            ),
                                            None => None,
                                        },
                                        None => None,
                                    },
                                    None => None,
                                },
                                None => None,
                            },
                            None => None,
                        },
                        None => None,
                    },
                    None => None,
                },
                None => None,
            },
            None => None,
        },
        None => None,
    }
}

pub open spec fn spec_dec_pm_edit_market(t: Seq<u8>) -> Option<
    (PredictionMarketsCallView, Seq<u8>),
> {
    match spec_dec_asset(t) {
        Some((base_asset, r1)) => match spec_dec_u128(r1) {
            Some((market_id, r2)) => match spec_dec_raw(r2, 32) {
                Some((oracle, r3)) => match spec_dec_period(r3) {
                    Some((period, r4)) => match spec_dec_deadlines(r4) {
                        Some((deadlines, r5)) => match spec_dec_multihash(r5) {
                            Some((metadata, r6)) => match spec_dec_market_type(r6) {
                                Some((market_type, r7)) => match spec_dec_opt_mdm(r7) {
                                    Some((dispute_mechanism, r8)) => match spec_dec_scoring(r8) {
                                        Some((scoring_rule, rest)) => Some(
                                            (
                                                PredictionMarketsCallView::EditMarket {
                                                    base_asset,
                                                    market_id,
                                                    oracle,
                                                    period,
                                                    deadlines,
                                                    metadata,
                                                    market_type,
                                                    dispute_mechanism,
                                                    scoring_rule,
                                                },
                                                rest,
                                            ),
                                        ),
                                        None => None,
                                    },
                                    None => None,
                                },
                                None => None,
                            },
                            None => None,
                        },
                        None => None,
                    },
                    None => None,
                },
                None => None,
            },
            None => None,
        },
        None => None,
    }
}

pub open spec fn spec_dec_pm_create_market_and_deploy_pool(t: Seq<u8>) -> Option<
    (PredictionMarketsCallView, Seq<u8>),
> {
    match spec_dec_asset(t) {
        Some((base_asset, r1)) => match spec_dec_perbill(r1) {
            Some((creator_fee, r2)) => match spec_dec_raw(r2, 32) {
                Some((oracle, r3)) => match spec_dec_period(r3) {
                    Some((period, r4)) => match spec_dec_deadlines(r4) {
                        Some((deadlines, r5)) => match spec_dec_multihash(r5) {
                            Some((metadata, r6)) => match spec_dec_market_type(r6) {
                                Some((market_type, r7)) => match spec_dec_opt_mdm(r7) {
                                    Some((dispute_mechanism, r8)) => match spec_dec_compact(r8) {
                                        Some((amount, r9)) => match spec_dec_balance_list(r9) {
                                            Some((spot_prices, r10)) => match spec_dec_compact(
                                                r10,
                                            ) {
                                                Some((swap_fee, rest)) => Some(
                                                    (
                                                        PredictionMarketsCallView::CreateMarketAndDeployPool {
                                                            base_asset,
                                                            creator_fee,
                                                            oracle,
                                                            period,
                                                            deadlines,
                                                            metadata,
                                                            market_type,
                                                            dispute_mechanism,
                                                            amount: amount as u128,
                                                            spot_prices,
                                                            swap_fee: swap_fee as u128,
                                                        },
                                                        rest,
                                                    ),
                                                ),
                                                None => None,
                                            },
                                            None => None,
                                        },
                                        None => None,
                                    },
                                    None => None,
                                },
                                None => None,
                            },
                            None => None,
                        },
                        None => None,
                    },
                    None => None,
                },
                None => None,
            },
            None => None,
        },
        None => None,
    }
}

/// Tag 3 resolves to the approval operation: the edit-request operation shares
/// that tag (see `PredictionMarketsCall::RequestEdit`), and the first listed
/// operation wins, so no decode ever yields an edit request.
pub open spec fn spec_dec_prediction_markets(s: Seq<u8>) -> Option<
    (PredictionMarketsCallView, Seq<u8>),
> {
    if s.len() == 0 {
        None
    } else {
        let t = s.skip(1);
        if s[0] == 1 {
            match spec_dec_compact(t) {
                Some((market_id, rest)) => Some(
                    (
                        PredictionMarketsCallView::AdminMoveMarketToClosed {
                            market_id: market_id as u128,
                        },
                        rest,
                    ),
                ),
                None => None,
            }
        } else if s[0] == 2 {
            match spec_dec_compact(t) {
                Some((market_id, rest)) => Some(
                    (
                        PredictionMarketsCallView::AdminMoveMarketToResolved {
                            market_id: market_id as u128,
                        },
                        rest,
                    ),
                ),
                None => None,
            }
        } else if s[0] == 3 {
            match spec_dec_compact(t) {
                Some((market_id, rest)) => Some(
                    (
                        PredictionMarketsCallView::ApproveMarket { market_id: market_id as u128 },
                        rest,
                    ),
                ),
                None => None,
            }
        } else if s[0] == 5 {
            match spec_dec_compact(t) {
                Some((market_id, r1)) => match spec_dec_compact(r1) {
                    Some((amount, rest)) => Some(
                        (
                            PredictionMarketsCallView::BuyCompleteSet {
                                market_id: market_id as u128,
                                amount: amount as u128,
                            },
                            rest,
                        ),
                    ),
                    None => None,
                },
                None => None,
            }
        } else if s[0] == 6 {
            match spec_dec_compact(t) {
                Some((market_id, rest)) => Some(
                    (PredictionMarketsCallView::Dispute { market_id: market_id as u128 }, rest),
                ),
                None => None,
            }
        } else if s[0] == 8 {
            spec_dec_pm_create_market(t)
        } else if s[0] == 9 {
            spec_dec_pm_edit_market(t)
        } else if s[0] == 12 {
            match spec_dec_compact(t) {
                Some((market_id, rest)) => Some(
                    (
                        PredictionMarketsCallView::RedeemShares { market_id: market_id as u128 },
                        rest,
                    ),
                ),
                None => None,
            }
        } else if s[0] == 13 {
            match spec_dec_compact(t) {
                Some((market_id, r1)) => match spec_dec_byte_list(r1) {
                    Some((reject_reason, rest)) => Some(
                        (
                            PredictionMarketsCallView::RejectMarket {
                                market_id: market_id as u128,
                                reject_reason,
                            },
                            rest,
                        ),
                    ),
                    None => None,
                },
                None => None,
            }
        } else if s[0] == 14 {
            match spec_dec_compact(t) {
                Some((market_id, r1)) => match spec_dec_outcome(r1) {
                    Some((outcome, rest)) => Some(
                        (
                            PredictionMarketsCallView::Report {
                                market_id: market_id as u128,
                                outcome,
                            },
                            rest,
                        ),
                    ),
                    None => None,
                },
                None => None,
            }
        } else if s[0] == 15 {
            match spec_dec_compact(t) {
                Some((market_id, r1)) => match spec_dec_compact(r1) {
                    Some((amount, rest)) => Some(
                        (
                            PredictionMarketsCallView::SellCompleteSet {
                                market_id: market_id as u128,
                                amount: amount as u128,
                            },
                            rest,
                        ),
                    ),
                    None => None,
                },
                None => None,
            }
        } else if s[0] == 16 {
            match spec_dec_compact(t) {
                Some((market_id, rest)) => Some(
                    (
                        PredictionMarketsCallView::StartGlobalDispute {
                            market_id: market_id as u128,
                        },
                        rest,
                    ),
                ),
                None => None,
            }
        } else if s[0] == 17 {
            spec_dec_pm_create_market_and_deploy_pool(t)
        } else if s[0] == 18 {
            match spec_dec_compact(t) {
                Some((market_id, rest)) => Some(
                    (
                        PredictionMarketsCallView::ScheduleEarlyClose {
                            market_id: market_id as u128,
                        },
                        rest,
                    ),
                ),
                None => None,
            }
        } else if s[0] == 19 {
            match spec_dec_compact(t) {
                Some((market_id, rest)) => Some(
                    (
                        PredictionMarketsCallView::DisputeEarlyClose {
                            market_id: market_id as u128,
                        },
                        rest,
                    ),
                ),
                None => None,
            }
        } else if s[0] == 20 {
            match spec_dec_compact(t) {
                Some((market_id, rest)) => Some(
                    (
                        PredictionMarketsCallView::RejectEarlyClose {
                            market_id: market_id as u128,
                        },
                        rest,
                    ),
                ),
                None => None,
            }
        } else if s[0] == 21 {
            match spec_dec_compact(t) {
                Some((market_id, rest)) => Some(
                    (
                        PredictionMarketsCallView::CloseTrustedMarket {
                            market_id: market_id as u128,
                        },
                        rest,
                    ),
                ),
                None => None,
            }
        } else if s[0] == 22 {
            match spec_dec_compact(t) {
                Some((market_id, rest)) => Some(
                    (
                        PredictionMarketsCallView::ManuallyCloseMarket {
                            market_id: market_id as u128,
                        },
                        rest,
                    ),
                ),
                None => None,
            }
        } else {
            None
        }
    }
}

// ===== Byte meaning of a whole call =====

pub open spec fn spec_enc_call(c: RuntimeCallView) -> Seq<u8> {
    match c {
        RuntimeCallView::AssetManager(x) => seq![40u8] + spec_enc_asset_manager(x),
        RuntimeCallView::Authorized(x) => seq![51u8] + spec_enc_authorized(x),
        RuntimeCallView::Court(x) => seq![52u8] + spec_enc_court(x),
        RuntimeCallView::Swaps(x) => seq![56u8] + spec_enc_swaps(x),
        RuntimeCallView::PredictionMarkets(x) => seq![57u8] + spec_enc_prediction_markets(x),
        RuntimeCallView::Styx(x) => seq![58u8] + spec_enc_styx(x),
        RuntimeCallView::GlobalDisputes(x) => seq![59u8] + spec_enc_global_disputes(x),
        RuntimeCallView::NeoSwaps(x) => seq![60u8] + spec_enc_neo_swaps(x),
        RuntimeCallView::Orderbook(x) => seq![61u8] + spec_enc_orderbook(x),
        RuntimeCallView::Parimutuel(x) => seq![62u8] + spec_enc_parimutuel(x),
    }
}

pub open spec fn spec_dec_call(s: Seq<u8>) -> Option<(RuntimeCallView, Seq<u8>)> {
    if s.len() == 0 {
        None
    } else {
        let t = s.skip(1);
        if s[0] == 40 {
            match spec_dec_asset_manager(t) {
                Some((x, rest)) => Some((RuntimeCallView::AssetManager(x), rest)),
                None => None,
            }
        } else if s[0] == 51 {
            match spec_dec_authorized(t) {
                Some((x, rest)) => Some((RuntimeCallView::Authorized(x), rest)),
                None => None,
            }
        } else if s[0] == 52 {
            match spec_dec_court(t) {
                Some((x, rest)) => Some((RuntimeCallView::Court(x), rest)),
                None => None,
            }
        } else if s[0] == 56 {
            match spec_dec_swaps(t) {
                Some((x, rest)) => Some((RuntimeCallView::Swaps(x), rest)),
                None => None,
            }
        } else if s[0] == 57 {
            match spec_dec_prediction_markets(t) {
                Some((x, rest)) => Some((RuntimeCallView::PredictionMarkets(x), rest)),
                None => None,
            }
        } else if s[0] == 58 {
            match spec_dec_styx(t) {
                Some((x, rest)) => Some((RuntimeCallView::Styx(x), rest)),
                None => None,
            }
        } else if s[0] == 59 {
            match spec_dec_global_disputes(t) {
                Some((x, rest)) => Some((RuntimeCallView::GlobalDisputes(x), rest)),
                None => None,
            }
        } else if s[0] == 60 {
            match spec_dec_neo_swaps(t) {
                Some((x, rest)) => Some((RuntimeCallView::NeoSwaps(x), rest)),
                None => None,
            }
        } else if s[0] == 61 {
            match spec_dec_orderbook(t) {
                Some((x, rest)) => Some((RuntimeCallView::Orderbook(x), rest)),
                None => None,
            }
        } else if s[0] == 62 {
            match spec_dec_parimutuel(t) {
                Some((x, rest)) => Some((RuntimeCallView::Parimutuel(x), rest)),
                None => None,
            }
        } else {
            None
        }
    }
}

} // verus!
