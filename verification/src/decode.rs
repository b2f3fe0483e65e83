//! The executable decoder: reads a call value back out of its byte form,
//! proved to agree with the spec-level decoding functions of
//! `runtime_structs` on every input.
use vstd::prelude::*;

use crate::codec::{
    dec_byte_list, dec_balance_list, dec_compact, dec_opt_u128, dec_raw, dec_tag, dec_u128, dec_u16,
};
use crate::primitives::{
    dec_account, dec_account_list, dec_asset, dec_creation, dec_deadlines, dec_lookup,
    dec_market_type, dec_multihash, dec_opt_mdm, dec_outcome, dec_perbill, dec_period, dec_scoring,
    dec_vote_item,
};
use crate::runtime_structs::{
    spec_dec_asset_manager, spec_dec_authorized, spec_dec_call, spec_dec_court,
    spec_dec_global_disputes, spec_dec_neo_swaps, spec_dec_orderbook, spec_dec_parimutuel,
    spec_dec_pm_create_market, spec_dec_pm_create_market_and_deploy_pool, spec_dec_pm_edit_market,
    spec_dec_prediction_markets, spec_dec_styx, spec_dec_swaps, AssetManagerCall, AuthorizedCall,
    CourtCall, GlobalDisputesCall, NeoSwapsCall, OrderbookCall, ParimutelCall,
    PredictionMarketsCall, RuntimeCall, StyxCall, SwapsCall,
};

verus! {

pub fn dec_asset_manager(buf: &Vec<u8>, pos: usize) -> (r: Option<(AssetManagerCall, usize)>)
    requires
        pos <= buf@.len(),
    ensures
        match r {
            Some((v, p)) => pos <= p <= buf@.len() && spec_dec_asset_manager(
                buf@.skip(pos as int),
            ) == Some((v@, buf@.skip(p as int))),
            None => spec_dec_asset_manager(buf@.skip(pos as int)) is None,
        },
{
    let (t, p1) = match dec_tag(buf, pos) {
        Some(x) => x,
        None => {
            return None;
        },
    };
    if t == 0 {
        let (dest, p2) = match dec_lookup(buf, p1) {
            Some(x) => x,
            None => {
                return None;
            },
        };
        let (currency_id, p3) = match dec_asset(buf, p2) {
            Some(x) => x,
            None => {
                return None;
            },
        };
        let (amount, p) = match dec_compact(buf, p3) {
            Some(x) => x,
            None => {
                return None;
            },
        };
        Some((AssetManagerCall::Transfer { dest, currency_id, amount }, p))
    } else {
        None
    }
}

pub fn dec_authorized(buf: &Vec<u8>, pos: usize) -> (r: Option<(AuthorizedCall, usize)>)
    requires
        pos <= buf@.len(),
    ensures
        match r {
            Some((v, p)) => pos <= p <= buf@.len() && spec_dec_authorized(buf@.skip(pos as int))
                == Some((v, buf@.skip(p as int))),
            None => spec_dec_authorized(buf@.skip(pos as int)) is None,
        },
{
    let (t, p1) = match dec_tag(buf, pos) {
        Some(x) => x,
        None => {
            return None;
        },
    };
    if t == 0 {
        let (market_id, p2) = match dec_u128(buf, p1) {
            Some(x) => x,
            None => {
                return None;
            },
        };
        let (outcome, p) = match dec_outcome(buf, p2) {
            Some(x) => x,
            None => {
                return None;
            },
        };
        Some((AuthorizedCall::AuthorizeMarketOutcome { market_id, outcome }, p))
    } else {
        None
    }
}

pub fn dec_court(buf: &Vec<u8>, pos: usize) -> (r: Option<(CourtCall, usize)>)
    requires
        pos <= buf@.len(),
    ensures
        match r {
            Some((v, p)) => pos <= p <= buf@.len() && spec_dec_court(buf@.skip(pos as int))
                == Some((v@, buf@.skip(p as int))),
            None => spec_dec_court(buf@.skip(pos as int)) is None,
        },
{
    let (t, p1) = match dec_tag(buf, pos) {
        Some(x) => x,
        None => {
            return None;
        },
    };
    if t == 0 {
        match dec_u128(buf, p1) {
            Some((amount, p)) => Some((CourtCall::JoinCourt { amount }, p)),
            None => None,
        }
    } else if t == 1 {
        let (amount, p2) = match dec_u128(buf, p1) {
            Some(x) => x,
            None => {
                return None;
            },
        };
        match dec_account_list(buf, p2) {
            Some((delegations, p)) => Some((CourtCall::Delegate { amount, delegations }, p)),
            None => None,
        }
    } else if t == 2 {
        Some((CourtCall::PrepareExitCourt, p1))
    } else if t == 3 {
        match dec_lookup(buf, p1) {
            Some((court_participant, p)) => Some((CourtCall::ExitCourt { court_participant }, p)),
            None => None,
        }
    } else if t == 4 {
        let (court_id, p2) = match dec_compact(buf, p1) {
            Some(x) => x,
            None => {
                return None;
            },
        };
        match dec_raw(buf, p2, 32) {
            Some((commitment_vote, p)) => Some((CourtCall::Vote { court_id, commitment_vote }, p)),
            None => None,
        }
    } else if t == 5 {
        let (court_id, p2) = match dec_compact(buf, p1) {
            Some(x) => x,
            None => {
                return None;
            },
        };
        let (juror, p3) = match dec_lookup(buf, p2) {
            Some(x) => x,
            None => {
                return None;
            },
        };
        let (vote_item, p4) = match dec_vote_item(buf, p3) {
            Some(x) => x,
            None => {
                return None;
            },
        };
        match dec_raw(buf, p4, 32) {
            Some((salt, p)) => Some(
                (CourtCall::DenounceVote { court_id, juror, vote_item, salt }, p),
            ),
            None => None,
        }
    } else if t == 6 {
        let (court_id, p2) = match dec_compact(buf, p1) {
            Some(x) => x,
            None => {
                return None;
            },
        };
        let (vote_item, p3) = match dec_vote_item(buf, p2) {
            Some(x) => x,
            None => {
                return None;
            },
        };
        match dec_raw(buf, p3, 32) {
            Some((salt, p)) => Some((CourtCall::RevealVote { court_id, vote_item, salt }, p)),
            None => None,
        }
    } else if t == 7 {
        match dec_compact(buf, p1) {
            Some((court_id, p)) => Some((CourtCall::Appeal { court_id }, p)),
            None => None,
        }
    } else if t == 8 {
        match dec_u128(buf, p1) {
            Some((court_id, p)) => Some((CourtCall::ReassignCourtStakes { court_id }, p)),
            None => None,
        }
    } else if t == 9 {
        match dec_perbill(buf, p1) {
            Some((inflation, p)) => Some((CourtCall::SetInflation { inflation }, p)),
            None => None,
        }
    } else {
        None
    }
}

#[verifier::rlimit(60)]
pub fn dec_swaps(buf: &Vec<u8>, pos: usize) -> (r: Option<(SwapsCall, usize)>)
    requires
        pos <= buf@.len(),
    ensures
        match r {
            Some((v, p)) => pos <= p <= buf@.len() && spec_dec_swaps(buf@.skip(pos as int))
                == Some((v@, buf@.skip(p as int))),
            None => spec_dec_swaps(buf@.skip(pos as int)) is None,
        },
{
    let (t, p1) = match dec_tag(buf, pos) {
        Some(x) => x,
        None => {
            return None;
        },
    };
    if t == 1 {
        let (pool_id, p2) = match dec_compact(buf, p1) {
            Some(x) => x,
            None => {
                return None;
            },
        };
        let (pool_amount, p3) = match dec_compact(buf, p2) {
            Some(x) => x,
            None => {
                return None;
            },
        };
        match dec_balance_list(buf, p3) {
            Some((min_assets_out, p)) => Some(
                (SwapsCall::PoolExit { pool_id, pool_amount, min_assets_out }, p),
            ),
            None => None,
        }
    } else if t == 3 {
        let (pool_id, p2) = match dec_compact(buf, p1) {
            Some(x) => x,
            None => {
                return None;
            },
        };
        let (asset, p3) = match dec_asset(buf, p2) {
            Some(x) => x,
            None => {
                return None;
            },
        };
        let (asset_amount, p4) = match dec_compact(buf, p3) {
            Some(x) => x,
            None => {
                return None;
            },
        };
        match dec_compact(buf, p4) {
            Some((max_pool_amount, p)) => Some(
                (
                    SwapsCall::PoolExitWithExactAssetAmount {
                        pool_id,
                        asset,
                        asset_amount,
                        max_pool_amount,
                    },
                    p,
                ),
            ),
            None => None,
        }
    } else if t == 4 {
        let (pool_id, p2) = match dec_compact(buf, p1) {
            Some(x) => x,
            None => {
                return None;
            },
        };
        let (asset, p3) = match dec_asset(buf, p2) {
            Some(x) => x,
            None => {
                return None;
            },
        };
        let (pool_amount, p4) = match dec_compact(buf, p3) {
            Some(x) => x,
            None => {
                return None;
            },
        };
        match dec_compact(buf, p4) {
            Some((min_asset_amount, p)) => Some(
                (
                    SwapsCall::PoolExitWithExactPoolAmount {
                        pool_id,
                        asset,
                        pool_amount,
                        min_asset_amount,
                    },
                    p,
                ),
            ),
            None => None,
        }
    } else if t == 5 {
        let (pool_id, p2) = match dec_compact(buf, p1) {
            Some(x) => x,
            None => {
                return None;
            },
        };
        let (pool_amount, p3) = match dec_compact(buf, p2) {
            Some(x) => x,
            None => {
                return None;
            },
        };
        match dec_balance_list(buf, p3) {
            Some((max_assets_in, p)) => Some(
                (SwapsCall::PoolJoin { pool_id, pool_amount, max_assets_in }, p),
            ),
            None => None,
        }
    } else if t == 7 {
        let (pool_id, p2) = match dec_compact(buf, p1) {
            Some(x) => x,
            None => {
                return None;
            },
        };
        let (asset_in, p3) = match dec_asset(buf, p2) {
            Some(x) => x,
            None => {
                return None;
            },
        };
        let (asset_amount, p4) = match dec_compact(buf, p3) {
            Some(x) => x,
            None => {
                return None;
            },
        };
        match dec_compact(buf, p4) {
            Some((min_pool_amount, p)) => Some(
                (
                    SwapsCall::PoolJoinWithExactAssetAmount {
                        pool_id,
                        asset_in,
                        asset_amount,
                        min_pool_amount,
                    },
                    p,
                ),
            ),
            None => None,
        }
    } else if t == 8 {
        let (pool_id, p2) = match dec_compact(buf, p1) {
            Some(x) => x,
            None => {
                return None;
            },
        };
        let (asset, p3) = match dec_asset(buf, p2) {
            Some(x) => x,
            None => {
                return None;
            },
        };
        let (pool_amount, p4) = match dec_compact(buf, p3) {
            Some(x) => x,
            None => {
                return None;
            },
        };
        match dec_compact(buf, p4) {
            Some((max_asset_amount, p)) => Some(
                (
                    SwapsCall::PoolJoinWithExactPoolAmount {
                        pool_id,
                        asset,
                        pool_amount,
                        max_asset_amount,
                    },
                    p,
                ),
            ),
            None => None,
        }
    } else if t == 9 {
        let (pool_id, p2) = match dec_compact(buf, p1) {
            Some(x) => x,
            None => {
                return None;
            },
        };
        let (asset_in, p3) = match dec_asset(buf, p2) {
            Some(x) => x,
            None => {
                return None;
            },
        };
        let (asset_amount_in, p4) = match dec_compact(buf, p3) {
            Some(x) => x,
            None => {
                return None;
            },
        };
        let (asset_out, p5) = match dec_asset(buf, p4) {
            Some(x) => x,
            None => {
                return None;
            },
        };
        let (min_asset_amount_out, p6) = match dec_opt_u128(buf, p5) {
            Some(x) => x,
            None => {
                return None;
            },
        };
        match dec_opt_u128(buf, p6) {
            Some((max_price, p)) => Some(
                (
                    SwapsCall::SwapExactAmountIn {
                        pool_id,
                        asset_in,
                        asset_amount_in,
                        asset_out,
                        min_asset_amount_out,
                        max_price,
                    },
                    p,
                ),
            ),
            None => None,
        }
    } else if t == 10 {
        let (pool_id, p2) = match dec_compact(buf, p1) {
            Some(x) => x,
            None => {
                return None;
            },
        };
        let (asset_in, p3) = match dec_asset(buf, p2) {
            Some(x) => x,
            None => {
                return None;
            },
        };
        let (max_asset_amount_in, p4) = match dec_opt_u128(buf, p3) {
            Some(x) => x,
            None => {
                return None;
            },
        };
        let (asset_out, p5) = match dec_asset(buf, p4) {
            Some(x) => x,
            None => {
                return None;
            },
        };
        let (asset_amount_out, p6) = match dec_compact(buf, p5) {
            Some(x) => x,
            None => {
                return None;
            },
        };
        match dec_opt_u128(buf, p6) {
            Some((max_price, p)) => Some(
                (
                    SwapsCall::SwapExactAmountOut {
                        pool_id,
                        asset_in,
                        max_asset_amount_in,
                        asset_out,
                        asset_amount_out,
                        max_price,
                    },
                    p,
                ),
            ),
            None => None,
        }
    } else if t == 11 {
        let (who, p2) = match dec_account(buf, p1) {
            Some(x) => x,
            None => {
                return None;
            },
        };
        let (pool_id, p3) = match dec_compact(buf, p2) {
            Some(x) => x,
            None => {
                return None;
            },
        };
        let (pool_amount, p4) = match dec_compact(buf, p3) {
            Some(x) => x,
            None => {
                return None;
            },
        };
        match dec_balance_list(buf, p4) {
            Some((min_assets_out, p)) => Some(
                (SwapsCall::ForcePoolExit { who, pool_id, pool_amount, min_assets_out }, p),
            ),
            None => None,
        }
    } else {
        None
    }
}

fn dec_pm_create_market(buf: &Vec<u8>, pos: usize) -> (r: Option<(PredictionMarketsCall, usize)>)
    requires
        pos <= buf@.len(),
    ensures
        match r {
            Some((v, p)) => pos <= p <= buf@.len() && spec_dec_pm_create_market(
                buf@.skip(pos as int),
            ) == Some((v@, buf@.skip(p as int))),
            None => spec_dec_pm_create_market(buf@.skip(pos as int)) is None,
        },
{
    let (base_asset, p1) = match dec_asset(buf, pos) {
        Some(x) => x,
        None => {
            return None;
        },
    };
    let (creator_fee, p2) = match dec_perbill(buf, p1) {
        Some(x) => x,
        None => {
            return None;
        },
    };
    let (oracle, p3) = match dec_account(buf, p2) {
        Some(x) => x,
        None => {
            return None;
        },
    };
    let (period, p4) = match dec_period(buf, p3) {
        Some(x) => x,
        None => {
            return None;
        },
    };
    let (deadlines, p5) = match dec_deadlines(buf, p4) {
        Some(x) => x,
        None => {
            return None;
        },
    };
    let (metadata, p6) = match dec_multihash(buf, p5) {
        Some(x) => x,
        None => {
            return None;
        },
    };
    let (creation, p7) = match dec_creation(buf, p6) {
        Some(x) => x,
        None => {
            return None;
        },
    };
    let (market_type, p8) = match dec_market_type(buf, p7) {
        Some(x) => x,
        None => {
            return None;
        },
    };
    let (dispute_mechanism, p9) = match dec_opt_mdm(buf, p8) {
        Some(x) => x,
        None => {
            return None;
        },
    };
    let (scoring_rule, p) = match dec_scoring(buf, p9) {
        Some(x) => x,
        None => {
            return None;
        },
    };
    Some(
        (
            PredictionMarketsCall::CreateMarket {
                base_asset,
                creator_fee,
                oracle,
                period,
                deadlines,
                metadata,
                creation,
                market_type,
                dispute_mechanism,
                scoring_rule,
            },
            p,
        ),
    )
}

fn dec_pm_edit_market(buf: &Vec<u8>, pos: usize) -> (r: Option<(PredictionMarketsCall, usize)>)
    requires
        pos <= buf@.len(),
    ensures
        match r {
            Some((v, p)) => pos <= p <= buf@.len() && spec_dec_pm_edit_market(
                buf@.skip(pos as int),
            ) == Some((v@, buf@.skip(p as int))),
            None => spec_dec_pm_edit_market(buf@.skip(pos as int)) is None,
        },
{
    let (base_asset, p1) = match dec_asset(buf, pos) {
        Some(x) => x,
        None => {
            return None;
        },
    };
    let (market_id, p2) = match dec_u128(buf, p1) {
        Some(x) => x,
        None => {
            return None;
        },
    };
    let (oracle, p3) = match dec_account(buf, p2) {
        Some(x) => x,
        None => {
            return None;
        },
    };
    let (period, p4) = match dec_period(buf, p3) {
        Some(x) => x,
        None => {
            return None;
        },
    };
    let (deadlines, p5) = match dec_deadlines(buf, p4) {
        Some(x) => x,
        None => {
            return None;
        },
    };
    let (metadata, p6) = match dec_multihash(buf, p5) {
        Some(x) => x,
        None => {
            return None;
        },
    };
    let (market_type, p7) = match dec_market_type(buf, p6) {
        Some(x) => x,
        None => {
            return None;
        },
    };
    let (dispute_mechanism, p8) = match dec_opt_mdm(buf, p7) {
        Some(x) => x,
        None => {
            return None;
        },
    };
    let (scoring_rule, p) = match dec_scoring(buf, p8) {
        Some(x) => x,
        None => {
            return None;
        },
    };
    Some(
        (
            PredictionMarketsCall::EditMarket {
                base_asset,
                market_id,
                oracle,
                period,
                deadlines,
                metadata,
                market_type,
                dispute_mechanism,
                scoring_rule,
            },
            p,
        ),
    )
}

fn dec_pm_create_market_and_deploy_pool(buf: &Vec<u8>, pos: usize) -> (r: Option<
    (PredictionMarketsCall, usize),
>)
    requires
        pos <= buf@.len(),
    ensures
        match r {
            Some((v, p)) => pos <= p <= buf@.len() && spec_dec_pm_create_market_and_deploy_pool(
                buf@.skip(pos as int),
            ) == Some((v@, buf@.skip(p as int))),
            None => spec_dec_pm_create_market_and_deploy_pool(buf@.skip(pos as int)) is None,
        },
{
    let (base_asset, p1) = match dec_asset(buf, pos) {
        Some(x) => x,
        None => {
            return None;
        },
    };
    let (creator_fee, p2) = match dec_perbill(buf, p1) {
        Some(x) => x,
        None => {
            return None;
        },
    };
    let (oracle, p3) = match dec_account(buf, p2) {
        Some(x) => x,
        None => {
            return None;
        },
    };
    let (period, p4) = match dec_period(buf, p3) {
        Some(x) => x,
        None => {
            return None;
        },
    };
    let (deadlines, p5) = match dec_deadlines(buf, p4) {
        Some(x) => x,
        None => {
            return None;
        },
    };
    let (metadata, p6) = match dec_multihash(buf, p5) {
        Some(x) => x,
        None => {
            return None;
        },
    };
    let (market_type, p7) = match dec_market_type(buf, p6) {
        Some(x) => x,
        None => {
            return None;
        },
    };
    let (dispute_mechanism, p8) = match dec_opt_mdm(buf, p7) {
        Some(x) => x,
        None => {
            return None;
        },
    };
    let (amount, p9) = match dec_compact(buf, p8) {
        Some(x) => x,
        None => {
            return None;
        },
    };
    let (spot_prices, p10) = match dec_balance_list(buf, p9) {
        Some(x) => x,
        None => {
            return None;
        },
    };
    let (swap_fee, p) = match dec_compact(buf, p10) {
        Some(x) => x,
        None => {
            return None;
        },
    };
    Some(
        (
            PredictionMarketsCall::CreateMarketAndDeployPool {
                base_asset,
                creator_fee,
                oracle,
                period,
                deadlines,
                metadata,
                market_type,
                dispute_mechanism,
                amount,
                spot_prices,
                swap_fee,
            },
            p,
        ),
    )
}

#[verifier::rlimit(60)]
pub fn dec_prediction_markets(buf: &Vec<u8>, pos: usize) -> (r: Option<
    (PredictionMarketsCall, usize),
>)
    requires
        pos <= buf@.len(),
    ensures
        match r {
            Some((v, p)) => pos <= p <= buf@.len() && spec_dec_prediction_markets(
                buf@.skip(pos as int),
            ) == Some((v@, buf@.skip(p as int))),
            None => spec_dec_prediction_markets(buf@.skip(pos as int)) is None,
        },
{
    let (t, p1) = match dec_tag(buf, pos) {
        Some(x) => x,
        None => {
            return None;
        },
    };
    if t == 1 {
        match dec_compact(buf, p1) {
            Some((market_id, p)) => Some(
                (PredictionMarketsCall::AdminMoveMarketToClosed { market_id }, p),
            ),
            None => None,
        }
    } else if t == 2 {
        match dec_compact(buf, p1) {
            Some((market_id, p)) => Some(
                (PredictionMarketsCall::AdminMoveMarketToResolved { market_id }, p),
            ),
            None => None,
        }
    } else if t == 3 {
        match dec_compact(buf, p1) {
            Some((market_id, p)) => Some((PredictionMarketsCall::ApproveMarket { market_id }, p)),
            None => None,
        }
    } else if t == 5 {
        let (market_id, p2) = match dec_compact(buf, p1) {
            Some(x) => x,
            None => {
                return None;
            },
        };
        match dec_compact(buf, p2) {
            Some((amount, p)) => Some(
                (PredictionMarketsCall::BuyCompleteSet { market_id, amount }, p),
            ),
            None => None,
        }
    } else if t == 6 {
        match dec_compact(buf, p1) {
            Some((market_id, p)) => Some((PredictionMarketsCall::Dispute { market_id }, p)),
            None => None,
        }
    } else if t == 8 {
        dec_pm_create_market(buf, p1)
    } else if t == 9 {
        dec_pm_edit_market(buf, p1)
    } else if t == 12 {
        match dec_compact(buf, p1) {
            Some((market_id, p)) => Some((PredictionMarketsCall::RedeemShares { market_id }, p)),
            None => None,
        }
    } else if t == 13 {
        let (market_id, p2) = match dec_compact(buf, p1) {
            Some(x) => x,
            None => {
                return None;
            },
        };
        match dec_byte_list(buf, p2) {
            Some((reject_reason, p)) => Some(
                (PredictionMarketsCall::RejectMarket { market_id, reject_reason }, p),
            ),
            None => None,
        }
    } else if t == 14 {
        let (market_id, p2) = match dec_compact(buf, p1) {
            Some(x) => x,
            None => {
                return None;
            },
        };
        match dec_outcome(buf, p2) {
            Some((outcome, p)) => Some((PredictionMarketsCall::Report { market_id, outcome }, p)),
            None => None,
        }
    } else if t == 15 {
        let (market_id, p2) = match dec_compact(buf, p1) {
            Some(x) => x,
            None => {
                return None;
            },
        };
        match dec_compact(buf, p2) {
            Some((amount, p)) => Some(
                (PredictionMarketsCall::SellCompleteSet { market_id, amount }, p),
            ),
            None => None,
        }
    } else if t == 16 {
        match dec_compact(buf, p1) {
            Some((market_id, p)) => Some(
                (PredictionMarketsCall::StartGlobalDispute { market_id }, p),
            ),
            None => None,
        }
    } else if t == 17 {
        dec_pm_create_market_and_deploy_pool(buf, p1)
    } else if t == 18 {
        match dec_compact(buf, p1) {
            Some((market_id, p)) => Some(
                (PredictionMarketsCall::ScheduleEarlyClose { market_id }, p),
            ),
            None => None,
        }
    } else if t == 19 {
        match dec_compact(buf, p1) {
            Some((market_id, p)) => Some(
                (PredictionMarketsCall::DisputeEarlyClose { market_id }, p),
            ),
            None => None,
        }
    } else if t == 20 {
        match dec_compact(buf, p1) {
            Some((market_id, p)) => Some(
                (PredictionMarketsCall::RejectEarlyClose { market_id }, p),
            ),
            None => None,
        }
    } else if t == 21 {
        match dec_compact(buf, p1) {
            Some((market_id, p)) => Some(
                (PredictionMarketsCall::CloseTrustedMarket { market_id }, p),
            ),
            None => None,
        }
    } else if t == 22 {
        match dec_compact(buf, p1) {
            Some((market_id, p)) => Some(
                (PredictionMarketsCall::ManuallyCloseMarket { market_id }, p),
            ),
            None => None,
        }
    } else {
        None
    }
}

pub fn dec_styx(buf: &Vec<u8>, pos: usize) -> (r: Option<(StyxCall, usize)>)
    requires
        pos <= buf@.len(),
    ensures
        match r {
            Some((v, p)) => pos <= p <= buf@.len() && spec_dec_styx(buf@.skip(pos as int)) == Some(
                (v, buf@.skip(p as int)),
            ),
            None => spec_dec_styx(buf@.skip(pos as int)) is None,
        },
{
    let (t, p1) = match dec_tag(buf, pos) {
        Some(x) => x,
        None => {
            return None;
        },
    };
    if t == 0 {
        Some((StyxCall::Cross, p1))
    } else if t == 1 {
        match dec_compact(buf, p1) {
            Some((amount, p)) => Some((StyxCall::SetBurnAmount { amount }, p)),
            None => None,
        }
    } else {
        None
    }
}

pub fn dec_global_disputes(buf: &Vec<u8>, pos: usize) -> (r: Option<(GlobalDisputesCall, usize)>)
    requires
        pos <= buf@.len(),
    ensures
        match r {
            Some((v, p)) => pos <= p <= buf@.len() && spec_dec_global_disputes(
                buf@.skip(pos as int),
            ) == Some((v@, buf@.skip(p as int))),
            None => spec_dec_global_disputes(buf@.skip(pos as int)) is None,
        },
{
    let (t, p1) = match dec_tag(buf, pos) {
        Some(x) => x,
        None => {
            return None;
        },
    };
    if t == 0 {
        let (market_id, p2) = match dec_compact(buf, p1) {
            Some(x) => x,
            None => {
                return None;
            },
        };
        match dec_outcome(buf, p2) {
            Some((outcome, p)) => Some(
                (GlobalDisputesCall::AddVoteOutcome { market_id, outcome }, p),
            ),
            None => None,
        }
    } else if t == 5 {
        match dec_compact(buf, p1) {
            Some((market_id, p)) => Some((GlobalDisputesCall::RefundVoteFees { market_id }, p)),
            None => None,
        }
    } else if t == 1 {
        match dec_compact(buf, p1) {
            Some((market_id, p)) => Some((GlobalDisputesCall::PurgeOutcomes { market_id }, p)),
            None => None,
        }
    } else if t == 2 {
        match dec_compact(buf, p1) {
            Some((market_id, p)) => Some((GlobalDisputesCall::RewardOutcomeOwner { market_id }, p)),
            None => None,
        }
    } else if t == 3 {
        let (market_id, p2) = match dec_compact(buf, p1) {
            Some(x) => x,
            None => {
                return None;
            },
        };
        let (outcome, p3) = match dec_outcome(buf, p2) {
            Some(x) => x,
            None => {
                return None;
            },
        };
        match dec_compact(buf, p3) {
            Some((amount, p)) => Some(
                (GlobalDisputesCall::VoteOnOutcome { market_id, outcome, amount }, p),
            ),
            None => None,
        }
    } else if t == 4 {
        match dec_lookup(buf, p1) {
            Some((voter, p)) => Some((GlobalDisputesCall::UnlockVoteBalance { voter }, p)),
            None => None,
        }
    } else {
        None
    }
}

#[verifier::rlimit(60)]
pub fn dec_neo_swaps(buf: &Vec<u8>, pos: usize) -> (r: Option<(NeoSwapsCall, usize)>)
    requires
        pos <= buf@.len(),
    ensures
        match r {
            Some((v, p)) => pos <= p <= buf@.len() && spec_dec_neo_swaps(buf@.skip(pos as int))
                == Some((v@, buf@.skip(p as int))),
            None => spec_dec_neo_swaps(buf@.skip(pos as int)) is None,
        },
{
    let (t, p1) = match dec_tag(buf, pos) {
        Some(x) => x,
        None => {
            return None;
        },
    };
    if t == 0 {
        let (market_id, p2) = match dec_compact(buf, p1) {
            Some(x) => x,
            None => {
                return None;
            },
        };
        let (asset_count, p3) = match dec_u16(buf, p2) {
            Some(x) => x,
            None => {
                return None;
            },
        };
        let (asset_out, p4) = match dec_asset(buf, p3) {
            Some(x) => x,
            None => {
                return None;
            },
        };
        let (amount_in, p5) = match dec_compact(buf, p4) {
            Some(x) => x,
            None => {
                return None;
            },
        };
        match dec_compact(buf, p5) {
            Some((min_amount_out, p)) => Some(
                (
                    NeoSwapsCall::Buy {
                        market_id,
                        asset_count,
                        asset_out,
                        amount_in,
                        min_amount_out,
                    },
                    p,
                ),
            ),
            None => None,
        }
    } else if t == 1 {
        let (market_id, p2) = match dec_compact(buf, p1) {
            Some(x) => x,
            None => {
                return None;
            },
        };
        let (asset_count, p3) = match dec_u16(buf, p2) {
            Some(x) => x,
            None => {
                return None;
            },
        };
        let (asset_in, p4) = match dec_asset(buf, p3) {
            Some(x) => x,
            None => {
                return None;
            },
        };
        let (amount_in, p5) = match dec_compact(buf, p4) {
            Some(x) => x,
            None => {
                return None;
            },
        };
        match dec_compact(buf, p5) {
            Some((min_amount_out, p)) => Some(
                (
                    NeoSwapsCall::Sell {
                        market_id,
                        asset_count,
                        asset_in,
                        amount_in,
                        min_amount_out,
                    },
                    p,
                ),
            ),
            None => None,
        }
    } else if t == 2 {
        let (market_id, p2) = match dec_compact(buf, p1) {
            Some(x) => x,
            None => {
                return None;
            },
        };
        let (pool_shares_amount, p3) = match dec_compact(buf, p2) {
            Some(x) => x,
            None => {
                return None;
            },
        };
        match dec_balance_list(buf, p3) {
            Some((max_amounts_in, p)) => Some(
                (NeoSwapsCall::Join { market_id, pool_shares_amount, max_amounts_in }, p),
            ),
            None => None,
        }
    } else if t == 3 {
        let (market_id, p2) = match dec_compact(buf, p1) {
            Some(x) => x,
            None => {
                return None;
            },
        };
        let (pool_shares_amount_out, p3) = match dec_compact(buf, p2) {
            Some(x) => x,
            None => {
                return None;
            },
        };
        match dec_balance_list(buf, p3) {
            Some((min_amounts_out, p)) => Some(
                (NeoSwapsCall::Exit { market_id, pool_shares_amount_out, min_amounts_out }, p),
            ),
            None => None,
        }
    } else if t == 4 {
        match dec_compact(buf, p1) {
            Some((market_id, p)) => Some((NeoSwapsCall::WithdrawFees { market_id }, p)),
            None => None,
        }
    } else if t == 5 {
        let (market_id, p2) = match dec_compact(buf, p1) {
            Some(x) => x,
            None => {
                return None;
            },
        };
        let (amount, p3) = match dec_compact(buf, p2) {
            Some(x) => x,
            None => {
                return None;
            },
        };
        let (spot_prices, p4) = match dec_balance_list(buf, p3) {
            Some(x) => x,
            None => {
                return None;
            },
        };
        match dec_compact(buf, p4) {
            Some((swap_fee, p)) => Some(
                (NeoSwapsCall::DeployPool { market_id, amount, spot_prices, swap_fee }, p),
            ),
            None => None,
        }
    } else {
        None
    }
}

pub fn dec_orderbook(buf: &Vec<u8>, pos: usize) -> (r: Option<(OrderbookCall, usize)>)
    requires
        pos <= buf@.len(),
    ensures
        match r {
            Some((v, p)) => pos <= p <= buf@.len() && spec_dec_orderbook(buf@.skip(pos as int))
                == Some((v, buf@.skip(p as int))),
            None => spec_dec_orderbook(buf@.skip(pos as int)) is None,
        },
{
    let (t, p1) = match dec_tag(buf, pos) {
        Some(x) => x,
        None => {
            return None;
        },
    };
    if t == 0 {
        match dec_u128(buf, p1) {
            Some((order_id, p)) => Some((OrderbookCall::RemoveOrder { order_id }, p)),
            None => None,
        }
    } else if t == 1 {
        let (order_id, p2) = match dec_u128(buf, p1) {
            Some(x) => x,
            None => {
                return None;
            },
        };
        match dec_opt_u128(buf, p2) {
            Some((maker_partial_fill, p)) => Some(
                (OrderbookCall::FillOrder { order_id, maker_partial_fill }, p),
            ),
            None => None,
        }
    } else if t == 2 {
        let (market_id, p2) = match dec_compact(buf, p1) {
            Some(x) => x,
            None => {
                return None;
            },
        };
        let (maker_asset, p3) = match dec_asset(buf, p2) {
            Some(x) => x,
            None => {
                return None;
            },
        };
        let (maker_amount, p4) = match dec_compact(buf, p3) {
            Some(x) => x,
            None => {
                return None;
            },
        };
        let (taker_asset, p5) = match dec_asset(buf, p4) {
            Some(x) => x,
            None => {
                return None;
            },
        };
        match dec_compact(buf, p5) {
            Some((taker_amount, p)) => Some(
                (
                    OrderbookCall::PlaceOrder {
                        market_id,
                        maker_asset,
                        maker_amount,
                        taker_asset,
                        taker_amount,
                    },
                    p,
                ),
            ),
            None => None,
        }
    } else {
        None
    }
}

pub fn dec_parimutuel(buf: &Vec<u8>, pos: usize) -> (r: Option<(ParimutelCall, usize)>)
    requires
        pos <= buf@.len(),
    ensures
        match r {
            Some((v, p)) => pos <= p <= buf@.len() && spec_dec_parimutuel(buf@.skip(pos as int))
                == Some((v, buf@.skip(p as int))),
            None => spec_dec_parimutuel(buf@.skip(pos as int)) is None,
        },
{
    let (t, p1) = match dec_tag(buf, pos) {
        Some(x) => x,
        None => {
            return None;
        },
    };
    if t == 0 {
        let (asset, p2) = match dec_asset(buf, p1) {
            Some(x) => x,
            None => {
                return None;
            },
        };
        match dec_compact(buf, p2) {
            Some((amount, p)) => Some((ParimutelCall::Buy { asset, amount }, p)),
            None => None,
        }
    } else if t == 1 {
        match dec_u128(buf, p1) {
            Some((market_id, p)) => Some((ParimutelCall::ClaimRewards { market_id }, p)),
            None => None,
        }
    } else if t == 2 {
        match dec_asset(buf, p1) {
            Some((refund_asset, p)) => Some((ParimutelCall::ClaimRefunds { refund_asset }, p)),
            None => None,
        }
    } else {
        None
    }
}

pub fn dec_call(buf: &Vec<u8>, pos: usize) -> (r: Option<(RuntimeCall, usize)>)
    requires
        pos <= buf@.len(),
    ensures
        match r {
            Some((v, p)) => pos <= p <= buf@.len() && spec_dec_call(buf@.skip(pos as int)) == Some(
                (v@, buf@.skip(p as int)),
            ),
            None => spec_dec_call(buf@.skip(pos as int)) is None,
        },
{
    let (t, p1) = match dec_tag(buf, pos) {
        Some(x) => x,
        None => {
            return None;
        },
    };
    if t == 40 {
        match dec_asset_manager(buf, p1) {
            Some((x, p)) => Some((RuntimeCall::AssetManager(x), p)),
            None => None,
        }
    } else if t == 51 {
        match dec_authorized(buf, p1) {
            Some((x, p)) => Some((RuntimeCall::Authorized(x), p)),
            None => None,
        }
    } else if t == 52 {
        match dec_court(buf, p1) {
            Some((x, p)) => Some((RuntimeCall::Court(x), p)),
            None => None,
        }
    } else if t == 56 {
        match dec_swaps(buf, p1) {
            Some((x, p)) => Some((RuntimeCall::Swaps(x), p)),
            None => None,
        }
    } else if t == 57 {
        match dec_prediction_markets(buf, p1) {
            Some((x, p)) => Some((RuntimeCall::PredictionMarkets(x), p)),
            None => None,
        }
    } else if t == 58 {
        match dec_styx(buf, p1) {
            Some((x, p)) => Some((RuntimeCall::Styx(x), p)),
            None => None,
        }
    } else if t == 59 {
        match dec_global_disputes(buf, p1) {
            Some((x, p)) => Some((RuntimeCall::GlobalDisputes(x), p)),
            None => None,
        }
    } else if t == 60 {
        match dec_neo_swaps(buf, p1) {
            Some((x, p)) => Some((RuntimeCall::NeoSwaps(x), p)),
            None => None,
        }
    } else if t == 61 {
        match dec_orderbook(buf, p1) {
            Some((x, p)) => Some((RuntimeCall::Orderbook(x), p)),
            None => None,
        }
    } else if t == 62 {
        match dec_parimutuel(buf, p1) {
            Some((x, p)) => Some((RuntimeCall::Parimutuel(x), p)),
            None => None,
        }
    } else {
        None
    }
}

/// Read a call value out of its byte form, from the first byte on; bytes past
/// the call are ignored, as the host's own decoder ignores them.
pub fn decode_runtime_call(buf: &Vec<u8>) -> (r: Option<RuntimeCall>)
    ensures
        match spec_dec_call(buf@) {
            Some((v, _)) => r matches Some(c) && c@ == v,
            None => r is None,
        },
{
    proof {
        assert(buf@.skip(0) =~= buf@);
    }
    match dec_call(buf, 0) {
        Some((c, _)) => Some(c),
        None => None,
    }
}

} // verus!
