//! Domain value types of the prediction-market runtime, reproduced locally so
//! call arguments can be typed. Their variant order and numeric sub-tags
//! mirror the host runtime's own definitions: the wire form is positional, so
//! any reordering would silently change every call built from them.
use vstd::prelude::*;

use crate::codec::{
    dec_bool, dec_compact, dec_raw, dec_tag, dec_u128, dec_u16, dec_u32, dec_u64, enc_bool,
    enc_compact, enc_raw, enc_u128, enc_u16, enc_u32, enc_u64, lemma_add_assoc, lemma_add_empty,
    lemma_dec_bool, lemma_dec_compact, lemma_dec_raw, lemma_dec_u128, lemma_dec_u16, lemma_dec_u32,
    lemma_dec_u64, lemma_singleton_add, lemma_skip_succ, pow256, push_byte, spec_dec_bool,
    spec_dec_compact, spec_dec_raw, spec_dec_u128, spec_dec_u16, spec_dec_u32, spec_dec_u64,
    spec_enc_bool, spec_enc_compact, spec_enc_u128, spec_enc_u16, spec_enc_u32, spec_enc_u64,
};

verus! {

pub type PoolId = u128;

pub type MarketId = u128;

pub type CourtId = u128;

pub type OrderId = u128;

pub type AssetIndexType = u16;

pub type CategoryIndex = u16;

/// A juror's commitment or salt: exactly 32 bytes.
pub type CourtHash = Vec<u8>;

/// An account identifier of the host chain: exactly 32 bytes.
#[derive(Clone, Debug, PartialEq, Eq)]
pub struct AccountId {
    pub bytes: Vec<u8>,
}

impl View for AccountId {
    type V = Seq<u8>;

    open spec fn view(&self) -> Seq<u8> {
        self.bytes@
    }
}

pub open spec fn account_wf(a: Seq<u8>) -> bool {
    a.len() == 32
}

pub open spec fn hash32_wf(h: Seq<u8>) -> bool {
    h.len() == 32
}

/// A fraction in parts per billion, as the host runtime represents it.
#[derive(Clone, Copy, Debug, PartialEq, Eq, Structural)]
pub struct Perbill {
    pub parts: u32,
}

/// A representation of a market's outcome.
#[derive(Clone, Copy, Debug, PartialEq, Eq, Structural)]
pub enum OutcomeReport {
    Categorical(CategoryIndex),
    Scalar(u128),
}

/// A vote for use in court.
#[derive(Clone, Copy, Debug, PartialEq, Eq, Structural)]
pub enum VoteItem {
    Outcome(OutcomeReport),
    Binary(bool),
}

/// A half-open interval, laid down as its two bounds.
#[derive(Clone, Copy, Debug, PartialEq, Eq, Structural)]
pub struct PeriodRange {
    pub start: u64,
    pub end: u64,
}

/// Defines whether the period is represented as a blocknumber or a timestamp.
#[derive(Clone, Copy, Debug, PartialEq, Eq, Structural)]
pub enum MarketPeriod {
    Block(PeriodRange),
    Timestamp(PeriodRange),
}

/// Defines deadlines for market.
#[derive(Clone, Copy, Debug, PartialEq, Eq, Structural)]
pub struct Deadlines {
    pub grace_period: u64,
    pub oracle_duration: u64,
    pub dispute_duration: u64,
}

/// Defines the hash of metadata stored for a market: a 50-byte digest.
#[derive(Clone, Debug, PartialEq, Eq)]
pub enum MultiHash {
    Sha3_384(Vec<u8>),
}

pub enum MultiHashView {
    Sha3_384(Seq<u8>),
}

impl View for MultiHash {
    type V = MultiHashView;

    open spec fn view(&self) -> MultiHashView {
        match self {
            MultiHash::Sha3_384(b) => MultiHashView::Sha3_384(b@),
        }
    }
}

pub open spec fn multihash_wf(m: MultiHashView) -> bool {
    match m {
        MultiHashView::Sha3_384(b) => b.len() == 50,
    }
}

/// Defines the type of market creation.
#[derive(Clone, Copy, Debug, PartialEq, Eq, Structural)]
pub enum MarketCreation {
    Permissionless,
    Advised,
}

/// An inclusive interval of scalar outcomes, laid down as its two bounds.
#[derive(Clone, Copy, Debug, PartialEq, Eq, Structural)]
pub struct ScalarRange {
    pub start: u128,
    pub end: u128,
}

/// Defines the type of market.
#[derive(Clone, Copy, Debug, PartialEq, Eq, Structural)]
pub enum MarketType {
    /// A market with a number of categorical outcomes.
    Categorical(u16),
    /// A market with a range of potential outcomes.
    Scalar(ScalarRange),
}

/// How a market should resolve disputes.
#[derive(Clone, Copy, Debug, PartialEq, Eq, Structural)]
pub enum MarketDisputeMechanism {
    Authorized,
    Court,
    SimpleDisputes,
}

/// The scoring methodology for a market.
#[derive(Clone, Copy, Debug, PartialEq, Eq, Structural)]
pub enum ScoringRule {
    Lmsr,
    Orderbook,
    Parimutuel,
}

/// A type of asset.
#[derive(Clone, Copy, Debug, PartialEq, Eq, Structural)]
pub enum ZeitgeistAsset {
    CategoricalOutcome(u128, u16),
    ScalarOutcome,
    CombinatorialOutcome,
    PoolShare,
    Ztg,
    ForeignAsset(u32),
    ParimutuelShare(u128, u16),
}

// ===== Outcome reports =====

pub open spec fn spec_enc_outcome(o: OutcomeReport) -> Seq<u8> {
    match o {
        OutcomeReport::Categorical(i) => seq![0u8] + spec_enc_u16(i),
        OutcomeReport::Scalar(v) => seq![1u8] + spec_enc_u128(v),
    }
}

pub open spec fn spec_dec_outcome(s: Seq<u8>) -> Option<(OutcomeReport, Seq<u8>)> {
    if s.len() == 0 {
        None
    } else if s[0] == 0 {
        match spec_dec_u16(s.skip(1)) {
            Some((i, rest)) => Some((OutcomeReport::Categorical(i), rest)),
            None => None,
        }
    } else if s[0] == 1 {
        match spec_dec_u128(s.skip(1)) {
            Some((v, rest)) => Some((OutcomeReport::Scalar(v), rest)),
            None => None,
        }
    } else {
        None
    }
}

pub proof fn lemma_dec_outcome(o: OutcomeReport, rest: Seq<u8>)
    ensures
        spec_dec_outcome(spec_enc_outcome(o) + rest) == Some((o, rest)),
{
    broadcast use lemma_singleton_add, lemma_add_assoc;

    match o {
        OutcomeReport::Categorical(i) => {
            lemma_dec_u16(i, rest);
        },
        OutcomeReport::Scalar(v) => {
            lemma_dec_u128(v, rest);
        },
    }
}

pub fn enc_outcome(out: &mut Vec<u8>, o: &OutcomeReport)
    ensures
        final(out)@ == old(out)@ + spec_enc_outcome(*o),
{
    broadcast use lemma_add_assoc;

    match o {
        OutcomeReport::Categorical(i) => {
            push_byte(out, 0);
            enc_u16(out, *i);
        },
        OutcomeReport::Scalar(v) => {
            push_byte(out, 1);
            enc_u128(out, *v);
        },
    }
}

pub fn dec_outcome(buf: &Vec<u8>, pos: usize) -> (r: Option<(OutcomeReport, usize)>)
    requires
        pos <= buf@.len(),
    ensures
        match r {
            Some((v, p)) => pos <= p <= buf@.len() && spec_dec_outcome(buf@.skip(pos as int))
                == Some((v, buf@.skip(p as int))),
            None => spec_dec_outcome(buf@.skip(pos as int)) is None,
        },
{
    match dec_tag(buf, pos) {
        Some((0, p1)) => match dec_u16(buf, p1) {
            Some((i, p)) => Some((OutcomeReport::Categorical(i), p)),
            None => None,
        },
        Some((1, p1)) => match dec_u128(buf, p1) {
            Some((v, p)) => Some((OutcomeReport::Scalar(v), p)),
            None => None,
        },
        _ => None,
    }
}

// ===== Court vote items =====

pub open spec fn spec_enc_vote_item(v: VoteItem) -> Seq<u8> {
    match v {
        VoteItem::Outcome(o) => seq![0u8] + spec_enc_outcome(o),
        VoteItem::Binary(b) => seq![1u8] + spec_enc_bool(b),
    }
}

pub open spec fn spec_dec_vote_item(s: Seq<u8>) -> Option<(VoteItem, Seq<u8>)> {
    if s.len() == 0 {
        None
    } else if s[0] == 0 {
        match spec_dec_outcome(s.skip(1)) {
            Some((o, rest)) => Some((VoteItem::Outcome(o), rest)),
            None => None,
        }
    } else if s[0] == 1 {
        match spec_dec_bool(s.skip(1)) {
            Some((b, rest)) => Some((VoteItem::Binary(b), rest)),
            None => None,
        }
    } else {
        None
    }
}

pub proof fn lemma_dec_vote_item(v: VoteItem, rest: Seq<u8>)
    ensures
        spec_dec_vote_item(spec_enc_vote_item(v) + rest) == Some((v, rest)),
{
    broadcast use lemma_singleton_add, lemma_add_assoc;

    match v {
        VoteItem::Outcome(o) => {
            lemma_dec_outcome(o, rest);
        },
        VoteItem::Binary(b) => {
            lemma_dec_bool(b, rest);
        },
    }
}

pub fn enc_vote_item(out: &mut Vec<u8>, v: &VoteItem)
    ensures
        final(out)@ == old(out)@ + spec_enc_vote_item(*v),
{
    broadcast use lemma_add_assoc;

    match v {
        VoteItem::Outcome(o) => {
            push_byte(out, 0);
            enc_outcome(out, o);
        },
        VoteItem::Binary(b) => {
            push_byte(out, 1);
            enc_bool(out, *b);
        },
    }
}

pub fn dec_vote_item(buf: &Vec<u8>, pos: usize) -> (r: Option<(VoteItem, usize)>)
    requires
        pos <= buf@.len(),
    ensures
        match r {
            Some((v, p)) => pos <= p <= buf@.len() && spec_dec_vote_item(buf@.skip(pos as int))
                == Some((v, buf@.skip(p as int))),
            None => spec_dec_vote_item(buf@.skip(pos as int)) is None,
        },
{
    match dec_tag(buf, pos) {
        Some((0, p1)) => match dec_outcome(buf, p1) {
            Some((o, p)) => Some((VoteItem::Outcome(o), p)),
            None => None,
        },
        Some((1, p1)) => match dec_bool(buf, p1) {
            Some((b, p)) => Some((VoteItem::Binary(b), p)),
            None => None,
        },
        _ => None,
    }
}

// ===== Market periods =====

pub open spec fn spec_enc_period_range(r: PeriodRange) -> Seq<u8> {
    spec_enc_u64(r.start) + spec_enc_u64(r.end)
}

pub open spec fn spec_dec_period_range(s: Seq<u8>) -> Option<(PeriodRange, Seq<u8>)> {
    match spec_dec_u64(s) {
        Some((start, r1)) => match spec_dec_u64(r1) {
            Some((end, rest)) => Some((PeriodRange { start, end }, rest)),
            None => None,
        },
        None => None,
    }
}

pub proof fn lemma_dec_period_range(r: PeriodRange, rest: Seq<u8>)
    ensures
        spec_dec_period_range(spec_enc_period_range(r) + rest) == Some((r, rest)),
{
    broadcast use lemma_add_assoc;

    lemma_dec_u64(r.start, spec_enc_u64(r.end) + rest);
    lemma_dec_u64(r.end, rest);
}

pub fn enc_period_range(out: &mut Vec<u8>, r: &PeriodRange)
    ensures
        final(out)@ == old(out)@ + spec_enc_period_range(*r),
{
    broadcast use lemma_add_assoc;

    enc_u64(out, r.start);
    enc_u64(out, r.end);
}

pub fn dec_period_range(buf: &Vec<u8>, pos: usize) -> (r: Option<(PeriodRange, usize)>)
    requires
        pos <= buf@.len(),
    ensures
        match r {
            Some((v, p)) => pos <= p <= buf@.len() && spec_dec_period_range(buf@.skip(pos as int))
                == Some((v, buf@.skip(p as int))),
            None => spec_dec_period_range(buf@.skip(pos as int)) is None,
        },
{
    match dec_u64(buf, pos) {
        Some((start, p1)) => match dec_u64(buf, p1) {
            Some((end, p)) => Some((PeriodRange { start, end }, p)),
            None => None,
        },
        None => None,
    }
}

pub open spec fn spec_enc_period(m: MarketPeriod) -> Seq<u8> {
    match m {
        MarketPeriod::Block(r) => seq![0u8] + spec_enc_period_range(r),
        MarketPeriod::Timestamp(r) => seq![1u8] + spec_enc_period_range(r),
    }
}

pub open spec fn spec_dec_period(s: Seq<u8>) -> Option<(MarketPeriod, Seq<u8>)> {
    if s.len() == 0 {
        None
    } else if s[0] == 0 {
        match spec_dec_period_range(s.skip(1)) {
            Some((r, rest)) => Some((MarketPeriod::Block(r), rest)),
            None => None,
        }
    } else if s[0] == 1 {
        match spec_dec_period_range(s.skip(1)) {
            Some((r, rest)) => Some((MarketPeriod::Timestamp(r), rest)),
            None => None,
        }
    } else {
        None
    }
}

pub proof fn lemma_dec_period(m: MarketPeriod, rest: Seq<u8>)
    ensures
        spec_dec_period(spec_enc_period(m) + rest) == Some((m, rest)),
{
    broadcast use lemma_singleton_add, lemma_add_assoc;

    match m {
        MarketPeriod::Block(r) => {
            lemma_dec_period_range(r, rest);
        },
        MarketPeriod::Timestamp(r) => {
            lemma_dec_period_range(r, rest);
        },
    }
}

pub fn enc_period(out: &mut Vec<u8>, m: &MarketPeriod)
    ensures
        final(out)@ == old(out)@ + spec_enc_period(*m),
{
    broadcast use lemma_add_assoc;

    match m {
        MarketPeriod::Block(r) => {
            push_byte(out, 0);
            enc_period_range(out, r);
        },
        MarketPeriod::Timestamp(r) => {
            push_byte(out, 1);
            enc_period_range(out, r);
        },
    }
}

pub fn dec_period(buf: &Vec<u8>, pos: usize) -> (r: Option<(MarketPeriod, usize)>)
    requires
        pos <= buf@.len(),
    ensures
        match r {
            Some((v, p)) => pos <= p <= buf@.len() && spec_dec_period(buf@.skip(pos as int))
                == Some((v, buf@.skip(p as int))),
            None => spec_dec_period(buf@.skip(pos as int)) is None,
        },
{
    match dec_tag(buf, pos) {
        Some((0, p1)) => match dec_period_range(buf, p1) {
            Some((r, p)) => Some((MarketPeriod::Block(r), p)),
            None => None,
        },
        Some((1, p1)) => match dec_period_range(buf, p1) {
            Some((r, p)) => Some((MarketPeriod::Timestamp(r), p)),
            None => None,
        },
        _ => None,
    }
}

// ===== Deadlines =====

pub open spec fn spec_enc_deadlines(d: Deadlines) -> Seq<u8> {
    spec_enc_u64(d.grace_period) + (spec_enc_u64(d.oracle_duration) + spec_enc_u64(
        d.dispute_duration,
    ))
}

pub open spec fn spec_dec_deadlines(s: Seq<u8>) -> Option<(Deadlines, Seq<u8>)> {
    match spec_dec_u64(s) {
        Some((grace_period, r1)) => match spec_dec_u64(r1) {
            Some((oracle_duration, r2)) => match spec_dec_u64(r2) {
                Some((dispute_duration, rest)) => Some(
                    (Deadlines { grace_period, oracle_duration, dispute_duration }, rest),
                ),
                None => None,
            },
            None => None,
        },
        None => None,
    }
}

pub proof fn lemma_dec_deadlines(d: Deadlines, rest: Seq<u8>)
    ensures
        spec_dec_deadlines(spec_enc_deadlines(d) + rest) == Some((d, rest)),
{
    broadcast use lemma_add_assoc;

    lemma_dec_u64(d.grace_period, spec_enc_u64(d.oracle_duration) + (spec_enc_u64(
        d.dispute_duration,
    ) + rest));
    lemma_dec_u64(d.oracle_duration, spec_enc_u64(d.dispute_duration) + rest);
    lemma_dec_u64(d.dispute_duration, rest);
}

pub fn enc_deadlines(out: &mut Vec<u8>, d: &Deadlines)
    ensures
        final(out)@ == old(out)@ + spec_enc_deadlines(*d),
{
    broadcast use lemma_add_assoc;

    enc_u64(out, d.grace_period);
    enc_u64(out, d.oracle_duration);
    enc_u64(out, d.dispute_duration);
}

pub fn dec_deadlines(buf: &Vec<u8>, pos: usize) -> (r: Option<(Deadlines, usize)>)
    requires
        pos <= buf@.len(),
    ensures
        match r {
            Some((v, p)) => pos <= p <= buf@.len() && spec_dec_deadlines(buf@.skip(pos as int))
                == Some((v, buf@.skip(p as int))),
            None => spec_dec_deadlines(buf@.skip(pos as int)) is None,
        },
{
    match dec_u64(buf, pos) {
        Some((grace_period, p1)) => match dec_u64(buf, p1) {
            Some((oracle_duration, p2)) => match dec_u64(buf, p2) {
                Some((dispute_duration, p)) => Some(
                    (Deadlines { grace_period, oracle_duration, dispute_duration }, p),
                ),
                None => None,
            },
            None => None,
        },
        None => None,
    }
}

// ===== Metadata hashes =====

pub open spec fn spec_enc_multihash(m: MultiHashView) -> Seq<u8> {
    match m {
        MultiHashView::Sha3_384(b) => seq![0u8] + b,
    }
}

pub open spec fn spec_dec_multihash(s: Seq<u8>) -> Option<(MultiHashView, Seq<u8>)> {
    if s.len() == 0 {
        None
    } else if s[0] == 0 {
        match spec_dec_raw(s.skip(1), 50) {
            Some((b, rest)) => Some((MultiHashView::Sha3_384(b), rest)),
            None => None,
        }
    } else {
        None
    }
}

pub proof fn lemma_dec_multihash(m: MultiHashView, rest: Seq<u8>)
    requires
        multihash_wf(m),
    ensures
        spec_dec_multihash(spec_enc_multihash(m) + rest) == Some((m, rest)),
{
    broadcast use lemma_singleton_add, lemma_add_assoc;

    match m {
        MultiHashView::Sha3_384(b) => {
            lemma_dec_raw(b, 50, rest);
        },
    }
}

pub fn enc_multihash(out: &mut Vec<u8>, m: &MultiHash)
    ensures
        final(out)@ == old(out)@ + spec_enc_multihash(m@),
{
    broadcast use lemma_add_assoc;

    match m {
        MultiHash::Sha3_384(b) => {
            push_byte(out, 0);
            enc_raw(out, b);
        },
    }
}

pub fn dec_multihash(buf: &Vec<u8>, pos: usize) -> (r: Option<(MultiHash, usize)>)
    requires
        pos <= buf@.len(),
    ensures
        match r {
            Some((v, p)) => pos <= p <= buf@.len() && spec_dec_multihash(buf@.skip(pos as int))
                == Some((v@, buf@.skip(p as int))) && multihash_wf(v@),
            None => spec_dec_multihash(buf@.skip(pos as int)) is None,
        },
{
    match dec_tag(buf, pos) {
        Some((0, p1)) => match dec_raw(buf, p1, 50) {
            Some((b, p)) => Some((MultiHash::Sha3_384(b), p)),
            None => None,
        },
        _ => None,
    }
}

// ===== Market creation kinds =====

pub open spec fn spec_enc_creation(c: MarketCreation) -> Seq<u8> {
    match c {
        MarketCreation::Permissionless => seq![0u8],
        MarketCreation::Advised => seq![1u8],
    }
}

pub open spec fn spec_dec_creation(s: Seq<u8>) -> Option<(MarketCreation, Seq<u8>)> {
    if s.len() == 0 {
        None
    } else if s[0] == 0 {
        Some((MarketCreation::Permissionless, s.skip(1)))
    } else if s[0] == 1 {
        Some((MarketCreation::Advised, s.skip(1)))
    } else {
        None
    }
}

pub proof fn lemma_dec_creation(c: MarketCreation, rest: Seq<u8>)
    ensures
        spec_dec_creation(spec_enc_creation(c) + rest) == Some((c, rest)),
{
    broadcast use lemma_singleton_add;

}

pub fn enc_creation(out: &mut Vec<u8>, c: &MarketCreation)
    ensures
        final(out)@ == old(out)@ + spec_enc_creation(*c),
{
    match c {
        MarketCreation::Permissionless => push_byte(out, 0),
        MarketCreation::Advised => push_byte(out, 1),
    }
}

pub fn dec_creation(buf: &Vec<u8>, pos: usize) -> (r: Option<(MarketCreation, usize)>)
    requires
        pos <= buf@.len(),
    ensures
        match r {
            Some((v, p)) => pos <= p <= buf@.len() && spec_dec_creation(buf@.skip(pos as int))
                == Some((v, buf@.skip(p as int))),
            None => spec_dec_creation(buf@.skip(pos as int)) is None,
        },
{
    match dec_tag(buf, pos) {
        Some((0, p)) => Some((MarketCreation::Permissionless, p)),
        Some((1, p)) => Some((MarketCreation::Advised, p)),
        _ => None,
    }
}

// ===== Market types =====

pub open spec fn spec_enc_market_type(m: MarketType) -> Seq<u8> {
    match m {
        MarketType::Categorical(c) => seq![0u8] + spec_enc_u16(c),
        MarketType::Scalar(r) => seq![1u8] + (spec_enc_u128(r.start) + spec_enc_u128(r.end)),
    }
}

pub open spec fn spec_dec_market_type(s: Seq<u8>) -> Option<(MarketType, Seq<u8>)> {
    if s.len() == 0 {
        None
    } else if s[0] == 0 {
        match spec_dec_u16(s.skip(1)) {
            Some((c, rest)) => Some((MarketType::Categorical(c), rest)),
            None => None,
        }
    } else if s[0] == 1 {
        match spec_dec_u128(s.skip(1)) {
            Some((start, r1)) => match spec_dec_u128(r1) {
                Some((end, rest)) => Some((MarketType::Scalar(ScalarRange { start, end }), rest)),
                None => None,
            },
            None => None,
        }
    } else {
        None
    }
}

pub proof fn lemma_dec_market_type(m: MarketType, rest: Seq<u8>)
    ensures
        spec_dec_market_type(spec_enc_market_type(m) + rest) == Some((m, rest)),
{
    broadcast use lemma_singleton_add, lemma_add_assoc;

    match m {
        MarketType::Categorical(c) => {
            lemma_dec_u16(c, rest);
        },
        MarketType::Scalar(r) => {
            lemma_dec_u128(r.start, spec_enc_u128(r.end) + rest);
            lemma_dec_u128(r.end, rest);
        },
    }
}

pub fn enc_market_type(out: &mut Vec<u8>, m: &MarketType)
    ensures
        final(out)@ == old(out)@ + spec_enc_market_type(*m),
{
    broadcast use lemma_add_assoc;

    match m {
        MarketType::Categorical(c) => {
            push_byte(out, 0);
            enc_u16(out, *c);
        },
        MarketType::Scalar(r) => {
            push_byte(out, 1);
            enc_u128(out, r.start);
            enc_u128(out, r.end);
        },
    }
}

pub fn dec_market_type(buf: &Vec<u8>, pos: usize) -> (r: Option<(MarketType, usize)>)
    requires
        pos <= buf@.len(),
    ensures
        match r {
            Some((v, p)) => pos <= p <= buf@.len() && spec_dec_market_type(buf@.skip(pos as int))
                == Some((v, buf@.skip(p as int))),
            None => spec_dec_market_type(buf@.skip(pos as int)) is None,
        },
{
    match dec_tag(buf, pos) {
        Some((0, p1)) => match dec_u16(buf, p1) {
            Some((c, p)) => Some((MarketType::Categorical(c), p)),
            None => None,
        },
        Some((1, p1)) => match dec_u128(buf, p1) {
            Some((start, p2)) => match dec_u128(buf, p2) {
                Some((end, p)) => Some((MarketType::Scalar(ScalarRange { start, end }), p)),
                None => None,
            },
            None => None,
        },
        _ => None,
    }
}

// ===== Dispute mechanisms =====

pub open spec fn spec_enc_mdm(m: MarketDisputeMechanism) -> Seq<u8> {
    match m {
        MarketDisputeMechanism::Authorized => seq![0u8],
        MarketDisputeMechanism::Court => seq![1u8],
        MarketDisputeMechanism::SimpleDisputes => seq![2u8],
    }
}

pub open spec fn spec_dec_mdm(s: Seq<u8>) -> Option<(MarketDisputeMechanism, Seq<u8>)> {
    if s.len() == 0 {
        None
    } else if s[0] == 0 {
        Some((MarketDisputeMechanism::Authorized, s.skip(1)))
    } else if s[0] == 1 {
        Some((MarketDisputeMechanism::Court, s.skip(1)))
    } else if s[0] == 2 {
        Some((MarketDisputeMechanism::SimpleDisputes, s.skip(1)))
    } else {
        None
    }
}

pub proof fn lemma_dec_mdm(m: MarketDisputeMechanism, rest: Seq<u8>)
    ensures
        spec_dec_mdm(spec_enc_mdm(m) + rest) == Some((m, rest)),
{
    broadcast use lemma_singleton_add;

}

pub fn enc_mdm(out: &mut Vec<u8>, m: &MarketDisputeMechanism)
    ensures
        final(out)@ == old(out)@ + spec_enc_mdm(*m),
{
    match m {
        MarketDisputeMechanism::Authorized => push_byte(out, 0),
        MarketDisputeMechanism::Court => push_byte(out, 1),
        MarketDisputeMechanism::SimpleDisputes => push_byte(out, 2),
    }
}

pub fn dec_mdm(buf: &Vec<u8>, pos: usize) -> (r: Option<(MarketDisputeMechanism, usize)>)
    requires
        pos <= buf@.len(),
    ensures
        match r {
            Some((v, p)) => pos <= p <= buf@.len() && spec_dec_mdm(buf@.skip(pos as int)) == Some(
                (v, buf@.skip(p as int)),
            ),
            None => spec_dec_mdm(buf@.skip(pos as int)) is None,
        },
{
    match dec_tag(buf, pos) {
        Some((0, p)) => Some((MarketDisputeMechanism::Authorized, p)),
        Some((1, p)) => Some((MarketDisputeMechanism::Court, p)),
        Some((2, p)) => Some((MarketDisputeMechanism::SimpleDisputes, p)),
        _ => None,
    }
}

pub open spec fn spec_enc_opt_mdm(o: Option<MarketDisputeMechanism>) -> Seq<u8> {
    match o {
        None => seq![0u8],
        Some(m) => seq![1u8] + spec_enc_mdm(m),
    }
}

pub open spec fn spec_dec_opt_mdm(s: Seq<u8>) -> Option<
    (Option<MarketDisputeMechanism>, Seq<u8>),
> {
    if s.len() == 0 {
        None
    } else if s[0] == 0 {
        Some((None, s.skip(1)))
    } else if s[0] == 1 {
        match spec_dec_mdm(s.skip(1)) {
            Some((m, rest)) => Some((Some(m), rest)),
            None => None,
        }
    } else {
        None
    }
}

pub proof fn lemma_dec_opt_mdm(o: Option<MarketDisputeMechanism>, rest: Seq<u8>)
    ensures
        spec_dec_opt_mdm(spec_enc_opt_mdm(o) + rest) == Some((o, rest)),
{
    broadcast use lemma_singleton_add, lemma_add_assoc;

    match o {
        None => {},
        Some(m) => {
            lemma_dec_mdm(m, rest);
        },
    }
}

pub fn enc_opt_mdm(out: &mut Vec<u8>, o: &Option<MarketDisputeMechanism>)
    ensures
        final(out)@ == old(out)@ + spec_enc_opt_mdm(*o),
{
    broadcast use lemma_add_assoc;

    match o {
        None => {
            push_byte(out, 0);
        },
        Some(m) => {
            push_byte(out, 1);
            enc_mdm(out, m);
        },
    }
}

pub fn dec_opt_mdm(buf: &Vec<u8>, pos: usize) -> (r: Option<
    (Option<MarketDisputeMechanism>, usize),
>)
    requires
        pos <= buf@.len(),
    ensures
        match r {
            Some((v, p)) => pos <= p <= buf@.len() && spec_dec_opt_mdm(buf@.skip(pos as int))
                == Some((v, buf@.skip(p as int))),
            None => spec_dec_opt_mdm(buf@.skip(pos as int)) is None,
        },
{
    match dec_tag(buf, pos) {
        Some((0, p)) => Some((None, p)),
        Some((1, p1)) => match dec_mdm(buf, p1) {
            Some((m, p)) => Some((Some(m), p)),
            None => None,
        },
        _ => None,
    }
}

// ===== Scoring rules =====

pub open spec fn spec_enc_scoring(sr: ScoringRule) -> Seq<u8> {
    match sr {
        ScoringRule::Lmsr => seq![0u8],
        ScoringRule::Orderbook => seq![1u8],
        ScoringRule::Parimutuel => seq![2u8],
    }
}

pub open spec fn spec_dec_scoring(s: Seq<u8>) -> Option<(ScoringRule, Seq<u8>)> {
    if s.len() == 0 {
        None
    } else if s[0] == 0 {
        Some((ScoringRule::Lmsr, s.skip(1)))
    } else if s[0] == 1 {
        Some((ScoringRule::Orderbook, s.skip(1)))
    } else if s[0] == 2 {
        Some((ScoringRule::Parimutuel, s.skip(1)))
    } else {
        None
    }
}

pub proof fn lemma_dec_scoring(sr: ScoringRule, rest: Seq<u8>)
    ensures
        spec_dec_scoring(spec_enc_scoring(sr) + rest) == Some((sr, rest)),
{
    broadcast use lemma_singleton_add;

}

pub fn enc_scoring(out: &mut Vec<u8>, sr: &ScoringRule)
    ensures
        final(out)@ == old(out)@ + spec_enc_scoring(*sr),
{
    match sr {
        ScoringRule::Lmsr => push_byte(out, 0),
        ScoringRule::Orderbook => push_byte(out, 1),
        ScoringRule::Parimutuel => push_byte(out, 2),
    }
}

pub fn dec_scoring(buf: &Vec<u8>, pos: usize) -> (r: Option<(ScoringRule, usize)>)
    requires
        pos <= buf@.len(),
    ensures
        match r {
            Some((v, p)) => pos <= p <= buf@.len() && spec_dec_scoring(buf@.skip(pos as int))
                == Some((v, buf@.skip(p as int))),
            None => spec_dec_scoring(buf@.skip(pos as int)) is None,
        },
{
    match dec_tag(buf, pos) {
        Some((0, p)) => Some((ScoringRule::Lmsr, p)),
        Some((1, p)) => Some((ScoringRule::Orderbook, p)),
        Some((2, p)) => Some((ScoringRule::Parimutuel, p)),
        _ => None,
    }
}

// ===== Assets =====

pub open spec fn spec_enc_asset(a: ZeitgeistAsset) -> Seq<u8> {
    match a {
        ZeitgeistAsset::CategoricalOutcome(m, i) => seq![0u8] + (spec_enc_u128(m) + spec_enc_u16(
            i,
        )),
        ZeitgeistAsset::ScalarOutcome => seq![1u8],
        ZeitgeistAsset::CombinatorialOutcome => seq![2u8],
        ZeitgeistAsset::PoolShare => seq![3u8],
        ZeitgeistAsset::Ztg => seq![4u8],
        ZeitgeistAsset::ForeignAsset(x) => seq![5u8] + spec_enc_u32(x),
        ZeitgeistAsset::ParimutuelShare(m, i) => seq![6u8] + (spec_enc_u128(m) + spec_enc_u16(i)),
    }
}

pub open spec fn spec_dec_asset(s: Seq<u8>) -> Option<(ZeitgeistAsset, Seq<u8>)> {
    if s.len() == 0 {
        None
    } else if s[0] == 0 {
        match spec_dec_u128(s.skip(1)) {
            Some((m, r1)) => match spec_dec_u16(r1) {
                Some((i, rest)) => Some((ZeitgeistAsset::CategoricalOutcome(m, i), rest)),
                None => None,
            },
            None => None,
        }
    } else if s[0] == 1 {
        Some((ZeitgeistAsset::ScalarOutcome, s.skip(1)))
    } else if s[0] == 2 {
        Some((ZeitgeistAsset::CombinatorialOutcome, s.skip(1)))
    } else if s[0] == 3 {
        Some((ZeitgeistAsset::PoolShare, s.skip(1)))
    } else if s[0] == 4 {
        Some((ZeitgeistAsset::Ztg, s.skip(1)))
    } else if s[0] == 5 {
        match spec_dec_u32(s.skip(1)) {
            Some((x, rest)) => Some((ZeitgeistAsset::ForeignAsset(x), rest)),
            None => None,
        }
    } else if s[0] == 6 {
        match spec_dec_u128(s.skip(1)) {
            Some((m, r1)) => match spec_dec_u16(r1) {
                Some((i, rest)) => Some((ZeitgeistAsset::ParimutuelShare(m, i), rest)),
                None => None,
            },
            None => None,
        }
    } else {
        None
    }
}

pub proof fn lemma_dec_asset(a: ZeitgeistAsset, rest: Seq<u8>)
    ensures
        spec_dec_asset(spec_enc_asset(a) + rest) == Some((a, rest)),
{
    broadcast use lemma_singleton_add, lemma_add_assoc;

    match a {
        ZeitgeistAsset::CategoricalOutcome(m, i) => {
            lemma_dec_u128(m, spec_enc_u16(i) + rest);
            lemma_dec_u16(i, rest);
        },
        ZeitgeistAsset::ForeignAsset(x) => {
            lemma_dec_u32(x, rest);
        },
        ZeitgeistAsset::ParimutuelShare(m, i) => {
            lemma_dec_u128(m, spec_enc_u16(i) + rest);
            lemma_dec_u16(i, rest);
        },
        _ => {},
    }
}

pub fn enc_asset(out: &mut Vec<u8>, a: &ZeitgeistAsset)
    ensures
        final(out)@ == old(out)@ + spec_enc_asset(*a),
{
    broadcast use lemma_add_assoc;

    match a {
        ZeitgeistAsset::CategoricalOutcome(m, i) => {
            push_byte(out, 0);
            enc_u128(out, *m);
            enc_u16(out, *i);
        },
        ZeitgeistAsset::ScalarOutcome => push_byte(out, 1),
        ZeitgeistAsset::CombinatorialOutcome => push_byte(out, 2),
        ZeitgeistAsset::PoolShare => push_byte(out, 3),
        ZeitgeistAsset::Ztg => push_byte(out, 4),
        ZeitgeistAsset::ForeignAsset(x) => {
            push_byte(out, 5);
            enc_u32(out, *x);
        },
        ZeitgeistAsset::ParimutuelShare(m, i) => {
            push_byte(out, 6);
            enc_u128(out, *m);
            enc_u16(out, *i);
        },
    }
}

pub fn dec_asset(buf: &Vec<u8>, pos: usize) -> (r: Option<(ZeitgeistAsset, usize)>)
    requires
        pos <= buf@.len(),
    ensures
        match r {
            Some((v, p)) => pos <= p <= buf@.len() && spec_dec_asset(buf@.skip(pos as int))
                == Some((v, buf@.skip(p as int))),
            None => spec_dec_asset(buf@.skip(pos as int)) is None,
        },
{
    match dec_tag(buf, pos) {
        Some((0, p1)) => match dec_u128(buf, p1) {
            Some((m, p2)) => match dec_u16(buf, p2) {
                Some((i, p)) => Some((ZeitgeistAsset::CategoricalOutcome(m, i), p)),
                None => None,
            },
            None => None,
        },
        Some((1, p)) => Some((ZeitgeistAsset::ScalarOutcome, p)),
        Some((2, p)) => Some((ZeitgeistAsset::CombinatorialOutcome, p)),
        Some((3, p)) => Some((ZeitgeistAsset::PoolShare, p)),
        Some((4, p)) => Some((ZeitgeistAsset::Ztg, p)),
        Some((5, p1)) => match dec_u32(buf, p1) {
            Some((x, p)) => Some((ZeitgeistAsset::ForeignAsset(x), p)),
            None => None,
        },
        Some((6, p1)) => match dec_u128(buf, p1) {
            Some((m, p2)) => match dec_u16(buf, p2) {
                Some((i, p)) => Some((ZeitgeistAsset::ParimutuelShare(m, i), p)),
                None => None,
            },
            None => None,
        },
        _ => None,
    }
}

// ===== Fractions =====

pub open spec fn spec_enc_perbill(p: Perbill) -> Seq<u8> {
    spec_enc_u32(p.parts)
}

pub open spec fn spec_dec_perbill(s: Seq<u8>) -> Option<(Perbill, Seq<u8>)> {
    match spec_dec_u32(s) {
        Some((parts, rest)) => Some((Perbill { parts }, rest)),
        None => None,
    }
}

pub proof fn lemma_dec_perbill(p: Perbill, rest: Seq<u8>)
    ensures
        spec_dec_perbill(spec_enc_perbill(p) + rest) == Some((p, rest)),
{
    lemma_dec_u32(p.parts, rest);
}

pub fn enc_perbill(out: &mut Vec<u8>, p: &Perbill)
    ensures
        final(out)@ == old(out)@ + spec_enc_perbill(*p),
{
    enc_u32(out, p.parts);
}

pub fn dec_perbill(buf: &Vec<u8>, pos: usize) -> (r: Option<(Perbill, usize)>)
    requires
        pos <= buf@.len(),
    ensures
        match r {
            Some((v, p)) => pos <= p <= buf@.len() && spec_dec_perbill(buf@.skip(pos as int))
                == Some((v, buf@.skip(p as int))),
            None => spec_dec_perbill(buf@.skip(pos as int)) is None,
        },
{
    match dec_u32(buf, pos) {
        Some((parts, p)) => Some((Perbill { parts }, p)),
        None => None,
    }
}

// ===== Accounts and lookup addresses =====

pub fn enc_account(out: &mut Vec<u8>, a: &AccountId)
    ensures
        final(out)@ == old(out)@ + a@,
{
    enc_raw(out, &a.bytes);
}

pub fn dec_account(buf: &Vec<u8>, pos: usize) -> (r: Option<(AccountId, usize)>)
    requires
        pos <= buf@.len(),
    ensures
        match r {
            Some((v, p)) => pos <= p <= buf@.len() && spec_dec_raw(buf@.skip(pos as int), 32)
                == Some((v@, buf@.skip(p as int))) && account_wf(v@),
            None => spec_dec_raw(buf@.skip(pos as int), 32) is None,
        },
{
    match dec_raw(buf, pos, 32) {
        Some((bytes, p)) => Some((AccountId { bytes }, p)),
        None => None,
    }
}

/// An account as the host's generic addressing union writes it: the adapter
/// only ever forms the by-account-id arm, tag 0 followed by the 32 bytes.
pub open spec fn spec_enc_lookup(a: Seq<u8>) -> Seq<u8> {
    seq![0u8] + a
}

pub open spec fn spec_dec_lookup(s: Seq<u8>) -> Option<(Seq<u8>, Seq<u8>)> {
    if s.len() == 0 {
        None
    } else if s[0] == 0 {
        spec_dec_raw(s.skip(1), 32)
    } else {
        None
    }
}

pub proof fn lemma_dec_lookup(a: Seq<u8>, rest: Seq<u8>)
    requires
        account_wf(a),
    ensures
        spec_dec_lookup(spec_enc_lookup(a) + rest) == Some((a, rest)),
{
    broadcast use lemma_singleton_add, lemma_add_assoc;

    lemma_dec_raw(a, 32, rest);
}

pub fn enc_lookup(out: &mut Vec<u8>, a: &AccountId)
    ensures
        final(out)@ == old(out)@ + spec_enc_lookup(a@),
{
    broadcast use lemma_add_assoc;

    push_byte(out, 0);
    enc_raw(out, &a.bytes);
}

pub fn dec_lookup(buf: &Vec<u8>, pos: usize) -> (r: Option<(AccountId, usize)>)
    requires
        pos <= buf@.len(),
    ensures
        match r {
            Some((v, p)) => pos <= p <= buf@.len() && spec_dec_lookup(buf@.skip(pos as int))
                == Some((v@, buf@.skip(p as int))) && account_wf(v@),
            None => spec_dec_lookup(buf@.skip(pos as int)) is None,
        },
{
    match dec_tag(buf, pos) {
        Some((0, p1)) => match dec_account(buf, p1) {
            Some((a, p)) => Some((a, p)),
            None => None,
        },
        _ => None,
    }
}

// ===== Lists of accounts =====

pub open spec fn account_views(s: Seq<AccountId>) -> Seq<Seq<u8>> {
    s.map_values(|a: AccountId| a@)
}

pub open spec fn accounts_wf(ds: Seq<Seq<u8>>) -> bool {
    forall|i: int| 0 <= i < ds.len() ==> account_wf(#[trigger] ds[i])
}

pub open spec fn spec_enc_accounts(ds: Seq<Seq<u8>>) -> Seq<u8>
    decreases ds.len(),
{
    if ds.len() == 0 {
        Seq::empty()
    } else {
        ds[0] + spec_enc_accounts(ds.skip(1))
    }
}

pub open spec fn spec_enc_account_list(ds: Seq<Seq<u8>>) -> Seq<u8> {
    spec_enc_compact(ds.len()) + spec_enc_accounts(ds)
}

pub open spec fn spec_dec_accounts(s: Seq<u8>, n: nat) -> Option<(Seq<Seq<u8>>, Seq<u8>)>
    decreases n,
{
    if n == 0 {
        Some((Seq::empty(), s))
    } else {
        match spec_dec_raw(s, 32) {
            Some((a, r)) => match spec_dec_accounts(r, (n - 1) as nat) {
                Some((ds, r2)) => Some((seq![a] + ds, r2)),
                None => None,
            },
            None => None,
        }
    }
}

pub open spec fn spec_dec_account_list(s: Seq<u8>) -> Option<(Seq<Seq<u8>>, Seq<u8>)> {
    match spec_dec_compact(s) {
        Some((n, r)) => spec_dec_accounts(r, n),
        None => None,
    }
}

pub proof fn lemma_dec_accounts(ds: Seq<Seq<u8>>, rest: Seq<u8>)
    requires
        accounts_wf(ds),
    ensures
        spec_dec_accounts(spec_enc_accounts(ds) + rest, ds.len()) == Some((ds, rest)),
    decreases ds.len(),
{
    broadcast use lemma_singleton_add, lemma_add_assoc, lemma_add_empty;

    if ds.len() == 0 {
    } else {
        lemma_dec_raw(ds[0], 32, spec_enc_accounts(ds.skip(1)) + rest);
        lemma_dec_accounts(ds.skip(1), rest);
        assert(seq![ds[0]] + ds.skip(1) =~= ds);
    }
}

pub proof fn lemma_dec_accounts_shape(s: Seq<u8>, n: nat)
    ensures
        spec_dec_accounts(s, n) is Some <==> s.len() >= 32 * n,
        spec_dec_accounts(s, n) matches Some((ds, r)) ==> ds.len() == n && accounts_wf(ds),
    decreases n,
{
    if n > 0 && s.len() >= 32 {
        lemma_dec_accounts_shape(s.skip(32), (n - 1) as nat);
        if s.len() >= 32 * n {
            let (ds, r) = spec_dec_accounts(s, n)->Some_0;
            let (tail, r2) = spec_dec_accounts(s.skip(32), (n - 1) as nat)->Some_0;
            assert(ds == seq![s.take(32)] + tail);
            assert(forall|i: int| 0 <= i < ds.len() ==> account_wf(#[trigger] ds[i])) by {
                assert(ds[0] == s.take(32));
                assert(forall|i: int| 1 <= i < ds.len() ==> ds[i] == #[trigger] tail[i - 1]);
            }
        }
    }
}

pub proof fn lemma_dec_account_list(ds: Seq<Seq<u8>>, rest: Seq<u8>)
    requires
        accounts_wf(ds),
        ds.len() < pow256(16),
    ensures
        spec_dec_account_list(spec_enc_account_list(ds) + rest) == Some((ds, rest)),
{
    broadcast use lemma_add_assoc;

    lemma_dec_compact(ds.len(), spec_enc_accounts(ds) + rest);
    lemma_dec_accounts(ds, rest);
}

pub fn enc_account_list(out: &mut Vec<u8>, ds: &Vec<AccountId>)
    ensures
        final(out)@ == old(out)@ + spec_enc_account_list(account_views(ds@)),
{
    broadcast use lemma_add_assoc, lemma_add_empty;

    enc_compact(out, ds.len() as u128);
    let ghost base = out@;
    let ghost views = account_views(ds@);
    proof {
        assert(views.skip(0) =~= views);
    }
    let mut i: usize = 0;
    while i < ds.len()
        invariant
            i <= ds@.len(),
            views == account_views(ds@),
            views.len() == ds@.len(),
            out@ + spec_enc_accounts(views.skip(i as int)) == base + spec_enc_accounts(views),
        decreases ds@.len() - i,
    {
        proof {
            assert(views.skip(i as int)[0] == views[i as int]);
            lemma_skip_succ(views, i as int);
        }
        enc_account(out, &ds[i]);
        i = i + 1;
    }
    proof {
        assert(views.skip(views.len() as int) =~= Seq::<Seq<u8>>::empty());
    }
}

pub fn dec_account_list(buf: &Vec<u8>, pos: usize) -> (r: Option<(Vec<AccountId>, usize)>)
    requires
        pos <= buf@.len(),
    ensures
        match r {
            Some((v, p)) => pos <= p <= buf@.len() && spec_dec_account_list(buf@.skip(pos as int))
                == Some((account_views(v@), buf@.skip(p as int))),
            None => spec_dec_account_list(buf@.skip(pos as int)) is None,
        },
{
    broadcast use lemma_singleton_add, lemma_add_assoc, lemma_add_empty;

    let (n128, p1) = match dec_compact(buf, pos) {
        Some(x) => x,
        None => {
            return None;
        },
    };
    proof {
        lemma_dec_accounts_shape(buf@.skip(p1 as int), n128 as nat);
    }
    let rem = buf.len() - p1;
    if n128 > (rem / 32) as u128 {
        proof {
            assert(buf@.skip(p1 as int).len() == rem);
            assert(rem < 32 * (rem / 32) + 32);
            assert(32 * (n128 as nat) > rem as nat);
        }
        return None;
    }
    let n = n128 as usize;
    let mut acc: Vec<AccountId> = Vec::new();
    let mut cur: usize = p1;
    let mut i: usize = 0;
    proof {
        assert(account_views(acc@) =~= Seq::<Seq<u8>>::empty());
    }
    while i < n
        invariant
            i <= n,
            pos <= p1 <= cur <= buf@.len(),
            acc@.len() == i,
            spec_dec_account_list(buf@.skip(pos as int)) == spec_dec_accounts(
                buf@.skip(p1 as int),
                n as nat,
            ),
            spec_dec_accounts(buf@.skip(p1 as int), n as nat) == (match spec_dec_accounts(
                buf@.skip(cur as int),
                (n - i) as nat,
            ) {
                Some((ds2, r)) => Some((account_views(acc@) + ds2, r)),
                None => None::<(Seq<Seq<u8>>, Seq<u8>)>,
            }),
        decreases n - i,
    {
        let (a, p) = match dec_account(buf, cur) {
            Some(x) => x,
            None => {
                return None;
            },
        };
        let ghost prev = acc@;
        let ghost av = a@;
        acc.push(a);
        proof {
            assert(account_views(acc@) =~= account_views(prev) + seq![av]);
        }
        cur = p;
        i = i + 1;
    }
    Some((acc, cur))
}

} // verus!
