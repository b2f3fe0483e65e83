//! Byte-level building blocks of the host runtime's call encoding: fixed-width
//! little-endian integers, the variable-length ("compact") integer form, byte
//! strings and length-prefixed lists, each with an encoding function, a
//! decoding function, and a proof that decoding inverts encoding.
use vstd::prelude::*;

verus! {

// ===== Sequence helpers =====

pub broadcast proof fn lemma_add_assoc<A>(a: Seq<A>, b: Seq<A>, c: Seq<A>)
    ensures
        #[trigger] ((a + b) + c) == a + (b + c),
{
    assert((a + b) + c =~= a + (b + c));
}

pub broadcast proof fn lemma_singleton_add<A>(x: A, s: Seq<A>)
    ensures
        (#[trigger] (seq![x] + s)).len() == 1 + s.len(),
        (seq![x] + s)[0] == x,
        (seq![x] + s).skip(1) == s,
{
    assert((seq![x] + s).skip(1) =~= s);
}

pub broadcast proof fn lemma_add_empty<A>(s: Seq<A>)
    ensures
        #[trigger] (s + Seq::<A>::empty()) == s,
        #[trigger] (Seq::<A>::empty() + s) == s,
{
    assert(s + Seq::<A>::empty() =~= s);
    assert(Seq::<A>::empty() + s =~= s);
}

pub broadcast proof fn lemma_skip_succ<A>(s: Seq<A>, i: int)
    requires
        0 <= i < s.len(),
    ensures
        #[trigger] s.skip(i).skip(1) == s.skip(i + 1),
{
    assert(s.skip(i).skip(1) =~= s.skip(i + 1));
}

/// Appending one byte is the same as concatenating a singleton.
pub fn push_byte(out: &mut Vec<u8>, b: u8)
    ensures
        final(out)@ == old(out)@ + seq![b],
{
    out.push(b);
    proof {
        assert(out@ =~= old(out)@ + seq![b]);
    }
}

// ===== Powers of 256 =====

pub open spec fn pow256(n: nat) -> nat
    decreases n,
{
    if n == 0 {
        1
    } else {
        256 * pow256((n - 1) as nat)
    }
}

pub proof fn lemma_pow256_positive(n: nat)
    ensures
        pow256(n) >= 1,
    decreases n,
{
    if n > 0 {
        lemma_pow256_positive((n - 1) as nat);
    }
}

// ===== Fixed-width little-endian integers =====

/// The `n` low-order bytes of `v`, least significant first.
pub open spec fn spec_le_bytes(v: nat, n: nat) -> Seq<u8>
    decreases n,
{
    if n == 0 {
        Seq::empty()
    } else {
        seq![(v % 256) as u8] + spec_le_bytes(v / 256, (n - 1) as nat)
    }
}

/// Read `n` bytes as a little-endian integer; the remainder of the input follows.
pub open spec fn spec_dec_le(s: Seq<u8>, n: nat) -> Option<(nat, Seq<u8>)>
    decreases n,
{
    if n == 0 {
        Some((0nat, s))
    } else if s.len() == 0 {
        None
    } else {
        match spec_dec_le(s.skip(1), (n - 1) as nat) {
            Some((hi, rest)) => Some(((s[0] + 256 * hi) as nat, rest)),
            None => None,
        }
    }
}

pub proof fn lemma_le_bytes_len(v: nat, n: nat)
    ensures
        spec_le_bytes(v, n).len() == n,
    decreases n,
{
    broadcast use lemma_singleton_add;

    if n > 0 {
        lemma_le_bytes_len(v / 256, (n - 1) as nat);
    }
}

/// Decoding `n` little-endian bytes inverts encoding, for values that fit.
pub proof fn lemma_dec_le(v: nat, n: nat, rest: Seq<u8>)
    requires
        v < pow256(n),
    ensures
        spec_dec_le(spec_le_bytes(v, n) + rest, n) == Some((v, rest)),
    decreases n,
{
    broadcast use lemma_singleton_add, lemma_add_assoc;

    if n == 0 {
        assert(Seq::<u8>::empty() + rest =~= rest);
    } else {
        let tail = spec_le_bytes(v / 256, (n - 1) as nat);
        assert(v / 256 < pow256((n - 1) as nat)) by (nonlinear_arith)
            requires
                v < 256 * pow256((n - 1) as nat),
        ;
        lemma_dec_le(v / 256, (n - 1) as nat, rest);
        let s = spec_le_bytes(v, n) + rest;
        assert(s == seq![(v % 256) as u8] + (tail + rest));
        assert(s[0] + 256 * (v / 256) == v);
    }
}

/// A successful little-endian read consumes exactly `n` bytes and is bounded.
pub proof fn lemma_dec_le_shape(s: Seq<u8>, n: nat)
    ensures
        spec_dec_le(s, n) is Some <==> s.len() >= n,
        spec_dec_le(s, n) matches Some((v, rest)) ==> v < pow256(n) && rest == s.skip(n as int),
    decreases n,
{
    broadcast use lemma_skip_succ;

    if n == 0 {
        assert(s.skip(0) =~= s);
    } else if s.len() > 0 {
        lemma_dec_le_shape(s.skip(1), (n - 1) as nat);
        if s.len() >= n {
            let (hi, rest) = spec_dec_le(s.skip(1), (n - 1) as nat)->Some_0;
            assert(s[0] + 256 * hi < 256 * pow256((n - 1) as nat)) by (nonlinear_arith)
                requires
                    s[0] < 256,
                    hi < pow256((n - 1) as nat),
            ;
            assert(s.skip(1).skip(n - 1) =~= s.skip(n as int));
        }
    }
}

/// Append the `n` low-order bytes of `v`, least significant first.
pub fn enc_le(out: &mut Vec<u8>, v: u128, n: usize)
    ensures
        final(out)@ == old(out)@ + spec_le_bytes(v as nat, n as nat),
{
    broadcast use lemma_add_assoc, lemma_add_empty;

    let mut cur: u128 = v;
    let mut i: usize = 0;
    while i < n
        invariant
            i <= n,
            out@ + spec_le_bytes(cur as nat, (n - i) as nat) == old(out)@ + spec_le_bytes(
                v as nat,
                n as nat,
            ),
        decreases n - i,
    {
        push_byte(out, (cur % 256) as u8);
        cur = cur / 256;
        i = i + 1;
    }
}

/// Read `n` little-endian bytes starting at `pos`.
pub fn dec_le(buf: &Vec<u8>, pos: usize, n: usize) -> (r: Option<(u128, usize)>)
    requires
        pos <= buf@.len(),
        n <= 16,
    ensures
        match r {
            Some((v, p)) => pos <= p <= buf@.len() && spec_dec_le(buf@.skip(pos as int), n as nat)
                == Some((v as nat, buf@.skip(p as int))),
            None => spec_dec_le(buf@.skip(pos as int), n as nat) is None,
        },
{
    proof {
        lemma_dec_le_shape(buf@.skip(pos as int), n as nat);
        lemma_pow256_widths();
    }
    if buf.len() - pos < n {
        return None;
    }
    let mut val: u128 = 0;
    let mut j: usize = n;
    while j > 0
        invariant
            j <= n <= 16,
            pos + n <= buf@.len() <= usize::MAX,
            spec_dec_le(buf@.skip((pos + j) as int), (n - j) as nat) == Some(
                (val as nat, buf@.skip((pos + n) as int)),
            ),
            val < pow256((n - j) as nat),
        decreases j,
    {
        j = j - 1;
        proof {
            lemma_dec_le_shape(buf@.skip((pos + j) as int), (n - j) as nat);
            lemma_skip_succ(buf@, pos + j);
            assert(buf@.skip((pos + j) as int)[0] == buf@[(pos + j) as int]);
            assert(buf@[(pos + j) as int] + 256 * val < 256 * pow256((n - j - 1) as nat))
                by (nonlinear_arith)
                requires
                    buf@[(pos + j) as int] < 256,
                    val < pow256((n - j - 1) as nat),
            ;
            lemma_pow256_widths();
            assert(pow256((n - j) as nat) <= pow256(16)) by {
                lemma_pow256_le((n - j) as nat, 16);
            }
        }
        val = (buf[pos + j] as u128) + 256 * val;
    }
    Some((val, pos + n))
}

pub proof fn lemma_pow256_le(m: nat, n: nat)
    requires
        m <= n,
    ensures
        pow256(m) <= pow256(n),
    decreases n,
{
    if m < n {
        lemma_pow256_le(m, (n - 1) as nat);
        lemma_pow256_positive((n - 1) as nat);
        assert(pow256(n) == 256 * pow256((n - 1) as nat));
    }
}

// ===== Typed integer widths =====

pub open spec fn spec_enc_u16(v: u16) -> Seq<u8> {
    spec_le_bytes(v as nat, 2)
}

pub open spec fn spec_enc_u32(v: u32) -> Seq<u8> {
    spec_le_bytes(v as nat, 4)
}

pub open spec fn spec_enc_u64(v: u64) -> Seq<u8> {
    spec_le_bytes(v as nat, 8)
}

pub open spec fn spec_enc_u128(v: u128) -> Seq<u8> {
    spec_le_bytes(v as nat, 16)
}

pub open spec fn spec_dec_u16(s: Seq<u8>) -> Option<(u16, Seq<u8>)> {
    match spec_dec_le(s, 2) {
        Some((v, rest)) => Some((v as u16, rest)),
        None => None,
    }
}

pub open spec fn spec_dec_u32(s: Seq<u8>) -> Option<(u32, Seq<u8>)> {
    match spec_dec_le(s, 4) {
        Some((v, rest)) => Some((v as u32, rest)),
        None => None,
    }
}

pub open spec fn spec_dec_u64(s: Seq<u8>) -> Option<(u64, Seq<u8>)> {
    match spec_dec_le(s, 8) {
        Some((v, rest)) => Some((v as u64, rest)),
        None => None,
    }
}

pub open spec fn spec_dec_u128(s: Seq<u8>) -> Option<(u128, Seq<u8>)> {
    match spec_dec_le(s, 16) {
        Some((v, rest)) => Some((v as u128, rest)),
        None => None,
    }
}

/// Powers of 256 at the widths this codec uses.
pub proof fn lemma_pow256_widths()
    ensures
        pow256(2) == 0x1_0000,
        pow256(4) == 0x1_0000_0000,
        pow256(8) == 0x1_0000_0000_0000_0000,
        pow256(16) == 0x1_0000_0000_0000_0000_0000_0000_0000_0000,
{
    reveal_with_fuel(pow256, 17);
}

pub proof fn lemma_dec_u16(v: u16, rest: Seq<u8>)
    ensures
        spec_dec_u16(spec_enc_u16(v) + rest) == Some((v, rest)),
{
    lemma_pow256_widths();
    lemma_dec_le(v as nat, 2, rest);
}

pub proof fn lemma_dec_u32(v: u32, rest: Seq<u8>)
    ensures
        spec_dec_u32(spec_enc_u32(v) + rest) == Some((v, rest)),
{
    lemma_pow256_widths();
    lemma_dec_le(v as nat, 4, rest);
}

pub proof fn lemma_dec_u64(v: u64, rest: Seq<u8>)
    ensures
        spec_dec_u64(spec_enc_u64(v) + rest) == Some((v, rest)),
{
    lemma_pow256_widths();
    lemma_dec_le(v as nat, 8, rest);
}

pub proof fn lemma_dec_u128(v: u128, rest: Seq<u8>)
    ensures
        spec_dec_u128(spec_enc_u128(v) + rest) == Some((v, rest)),
{
    lemma_pow256_widths();
    lemma_dec_le(v as nat, 16, rest);
}

pub fn enc_u16(out: &mut Vec<u8>, v: u16)
    ensures
        final(out)@ == old(out)@ + spec_enc_u16(v),
{
    enc_le(out, v as u128, 2);
}

pub fn enc_u32(out: &mut Vec<u8>, v: u32)
    ensures
        final(out)@ == old(out)@ + spec_enc_u32(v),
{
    enc_le(out, v as u128, 4);
}

pub fn enc_u64(out: &mut Vec<u8>, v: u64)
    ensures
        final(out)@ == old(out)@ + spec_enc_u64(v),
{
    enc_le(out, v as u128, 8);
}

pub fn enc_u128(out: &mut Vec<u8>, v: u128)
    ensures
        final(out)@ == old(out)@ + spec_enc_u128(v),
{
    enc_le(out, v as u128, 16);
}

pub fn dec_u16(buf: &Vec<u8>, pos: usize) -> (r: Option<(u16, usize)>)
    requires
        pos <= buf@.len(),
    ensures
        match r {
            Some((v, p)) => pos <= p <= buf@.len() && spec_dec_u16(buf@.skip(pos as int)) == Some(
                (v, buf@.skip(p as int)),
            ),
            None => spec_dec_u16(buf@.skip(pos as int)) is None,
        },
{
    proof {
        lemma_dec_le_shape(buf@.skip(pos as int), 2);
        lemma_pow256_widths();
    }
    match dec_le(buf, pos, 2) {
        Some((v, p)) => Some((v as u16, p)),
        None => None,
    }
}

pub fn dec_u32(buf: &Vec<u8>, pos: usize) -> (r: Option<(u32, usize)>)
    requires
        pos <= buf@.len(),
    ensures
        match r {
            Some((v, p)) => pos <= p <= buf@.len() && spec_dec_u32(buf@.skip(pos as int)) == Some(
                (v, buf@.skip(p as int)),
            ),
            None => spec_dec_u32(buf@.skip(pos as int)) is None,
        },
{
    proof {
        lemma_dec_le_shape(buf@.skip(pos as int), 4);
        lemma_pow256_widths();
    }
    match dec_le(buf, pos, 4) {
        Some((v, p)) => Some((v as u32, p)),
        None => None,
    }
}

pub fn dec_u64(buf: &Vec<u8>, pos: usize) -> (r: Option<(u64, usize)>)
    requires
        pos <= buf@.len(),
    ensures
        match r {
            Some((v, p)) => pos <= p <= buf@.len() && spec_dec_u64(buf@.skip(pos as int)) == Some(
                (v, buf@.skip(p as int)),
            ),
            None => spec_dec_u64(buf@.skip(pos as int)) is None,
        },
{
    proof {
        lemma_dec_le_shape(buf@.skip(pos as int), 8);
        lemma_pow256_widths();
    }
    match dec_le(buf, pos, 8) {
        Some((v, p)) => Some((v as u64, p)),
        None => None,
    }
}

pub fn dec_u128(buf: &Vec<u8>, pos: usize) -> (r: Option<(u128, usize)>)
    requires
        pos <= buf@.len(),
    ensures
        match r {
            Some((v, p)) => pos <= p <= buf@.len() && spec_dec_u128(buf@.skip(pos as int)) == Some(
                (v, buf@.skip(p as int)),
            ),
            None => spec_dec_u128(buf@.skip(pos as int)) is None,
        },
{
    proof {
        lemma_dec_le_shape(buf@.skip(pos as int), 16);
        lemma_pow256_widths();
    }
    match dec_le(buf, pos, 16) {
        Some((v, p)) => Some((v as u128, p)),
        None => None,
    }
}

// ===== Tag bytes =====

/// Read one byte; union tags and option markers are read this way.
pub fn dec_tag(buf: &Vec<u8>, pos: usize) -> (r: Option<(u8, usize)>)
    requires
        pos <= buf@.len(),
    ensures
        match r {
            Some((t, p)) => p == pos + 1 && pos < buf@.len() && t == buf@.skip(pos as int)[0]
                && buf@.skip(p as int) == buf@.skip(pos as int).skip(1),
            None => buf@.skip(pos as int).len() == 0,
        },
{
    if pos >= buf.len() {
        return None;
    }
    proof {
        lemma_skip_succ(buf@, pos as int);
        assert(buf@.skip(pos as int)[0] == buf@[pos as int]);
    }
    Some((buf[pos], pos + 1))
}

// ===== Compact (variable-length) integers =====

/// Width in bytes of the multi-byte form: the least number of little-endian
/// bytes, at least four, that hold the value.
pub open spec fn spec_compact_len(v: nat) -> nat
    decreases v,
{
    if v < 0x1_0000_0000 {
        4
    } else {
        1 + spec_compact_len(v / 256)
    }
}

/// The host's variable-length integer form: the two low bits of the first
/// byte select one of four widths, the value occupies the remaining bits.
pub open spec fn spec_enc_compact(v: nat) -> Seq<u8> {
    if v < 64 {
        seq![(v * 4) as u8]
    } else if v < 16384 {
        spec_le_bytes(v * 4 + 1, 2)
    } else if v < 0x4000_0000 {
        spec_le_bytes(v * 4 + 2, 4)
    } else {
        seq![((spec_compact_len(v) - 4) * 4 + 3) as u8] + spec_le_bytes(v, spec_compact_len(v))
    }
}

/// Decoding is lenient toward non-minimal forms: any of the four widths is
/// accepted as long as it fits sixteen bytes, the widest integer forwarded.
pub open spec fn spec_dec_compact(s: Seq<u8>) -> Option<(nat, Seq<u8>)> {
    if s.len() == 0 {
        None
    } else {
        let b = s[0];
        if b % 4 == 0 {
            Some(((b / 4) as nat, s.skip(1)))
        } else if b % 4 == 1 {
            match spec_dec_le(s, 2) {
                Some((w, rest)) => Some((w / 4, rest)),
                None => None,
            }
        } else if b % 4 == 2 {
            match spec_dec_le(s, 4) {
                Some((w, rest)) => Some((w / 4, rest)),
                None => None,
            }
        } else {
            let n = (b / 4 + 4) as nat;
            if n > 16 {
                None
            } else {
                spec_dec_le(s.skip(1), n)
            }
        }
    }
}

pub proof fn lemma_compact_len_low(v: nat)
    ensures
        4 <= spec_compact_len(v),
        v < pow256(spec_compact_len(v)),
    decreases v,
{
    lemma_pow256_widths();
    if v < 0x1_0000_0000 {
    } else {
        lemma_compact_len_low(v / 256);
        let l = spec_compact_len(v / 256);
        assert(v < 256 * pow256(l)) by (nonlinear_arith)
            requires
                v / 256 < pow256(l),
                v >= 0x1_0000_0000,
        ;
    }
}

pub proof fn lemma_compact_len_high(v: nat, k: nat)
    requires
        v < pow256(k),
        4 <= k,
    ensures
        spec_compact_len(v) <= k,
    decreases v,
{
    lemma_pow256_widths();
    if v < 0x1_0000_0000 {
    } else {
        if k <= 4 {
            lemma_pow256_le(k, 4);
            assert(false);
        }
        assert(v / 256 < pow256((k - 1) as nat)) by (nonlinear_arith)
            requires
                v < 256 * pow256((k - 1) as nat),
        ;
        lemma_compact_len_high(v / 256, (k - 1) as nat);
    }
}

/// Decoding the compact form inverts encoding, for any value up to 16 bytes wide.
pub proof fn lemma_dec_compact(v: nat, rest: Seq<u8>)
    requires
        v < pow256(16),
    ensures
        spec_dec_compact(spec_enc_compact(v) + rest) == Some((v, rest)),
{
    broadcast use lemma_singleton_add, lemma_add_assoc;

    lemma_pow256_widths();
    if v < 64 {
        let s = spec_enc_compact(v) + rest;
        assert(s[0] == (v * 4) as u8);
        assert(s[0] / 4 == v);
    } else if v < 16384 {
        let w = v * 4 + 1;
        lemma_dec_le(w, 2, rest);
        lemma_le_bytes_len(w, 2);
        let s = spec_enc_compact(v) + rest;
        assert(s == spec_le_bytes(w, 2) + rest);
        assert(s[0] == (w % 256) as u8);
        assert((w % 256) % 4 == 1 && w % 4 == 1) by (nonlinear_arith)
            requires
                w == v * 4 + 1,
        ;
        assert(w / 4 == v);
    } else if v < 0x4000_0000 {
        let w = v * 4 + 2;
        lemma_dec_le(w, 4, rest);
        lemma_le_bytes_len(w, 4);
        let s = spec_enc_compact(v) + rest;
        assert(s == spec_le_bytes(w, 4) + rest);
        assert(s[0] == (w % 256) as u8);
        assert((w % 256) % 4 == 2 && w % 4 == 2) by (nonlinear_arith)
            requires
                w == v * 4 + 2,
        ;
        assert(w / 4 == v);
    } else {
        lemma_compact_len_low(v);
        lemma_compact_len_high(v, 16);
        let l = spec_compact_len(v);
        let b = ((l - 4) * 4 + 3) as u8;
        lemma_dec_le(v, l, rest);
        let s = spec_enc_compact(v) + rest;
        assert(s == seq![b] + (spec_le_bytes(v, l) + rest));
        assert(s[0] == b && s.skip(1) == spec_le_bytes(v, l) + rest);
        assert(b % 4 == 3 && b / 4 + 4 == l);
    }
}

/// Append the compact form of `v`.
pub fn enc_compact(out: &mut Vec<u8>, v: u128)
    ensures
        final(out)@ == old(out)@ + spec_enc_compact(v as nat),
{
    broadcast use lemma_add_assoc;

    if v < 64 {
        push_byte(out, (v * 4) as u8);
    } else if v < 16384 {
        enc_le(out, v * 4 + 1, 2);
    } else if v < 0x4000_0000 {
        enc_le(out, v * 4 + 2, 4);
    } else {
        let mut len: usize = 4;
        let mut tmp: u128 = v;
        proof {
            lemma_pow256_widths();
            lemma_compact_len_low(v as nat);
            lemma_compact_len_high(v as nat, 16);
        }
        while tmp >= 0x1_0000_0000
            invariant
                spec_compact_len(v as nat) == spec_compact_len(tmp as nat) + len - 4,
                4 <= len,
                spec_compact_len(tmp as nat) >= 4,
                spec_compact_len(v as nat) <= 16,
            decreases tmp,
        {
            proof {
                lemma_compact_len_low(tmp as nat);
                lemma_compact_len_low((tmp / 256) as nat);
                assert(tmp / 256 < tmp) by (nonlinear_arith)
                    requires
                        tmp >= 256,
                ;
            }
            tmp = tmp / 256;
            len = len + 1;
        }
        push_byte(out, ((len - 4) * 4 + 3) as u8);
        enc_le(out, v, len);
    }
}

/// Read a compact integer starting at `pos`.
pub fn dec_compact(buf: &Vec<u8>, pos: usize) -> (r: Option<(u128, usize)>)
    requires
        pos <= buf@.len(),
    ensures
        match r {
            Some((v, p)) => pos <= p <= buf@.len() && spec_dec_compact(buf@.skip(pos as int))
                == Some((v as nat, buf@.skip(p as int))),
            None => spec_dec_compact(buf@.skip(pos as int)) is None,
        },
{
    let ghost s = buf@.skip(pos as int);
    if pos >= buf.len() {
        return None;
    }
    proof {
        assert(s[0] == buf@[pos as int]);
        lemma_skip_succ(buf@, pos as int);
    }
    let b = buf[pos];
    let m = b % 4;
    if m == 0 {
        Some(((b / 4) as u128, pos + 1))
    } else if m == 1 {
        match dec_le(buf, pos, 2) {
            Some((w, p)) => Some((w / 4, p)),
            None => None,
        }
    } else if m == 2 {
        match dec_le(buf, pos, 4) {
            Some((w, p)) => Some((w / 4, p)),
            None => None,
        }
    } else {
        let n = (b / 4) as usize + 4;
        if n > 16 {
            return None;
        }
        match dec_le(buf, pos + 1, n) {
            Some((w, p)) => Some((w, p)),
            None => None,
        }
    }
}

// ===== Booleans =====

pub open spec fn spec_enc_bool(b: bool) -> Seq<u8> {
    if b {
        seq![1u8]
    } else {
        seq![0u8]
    }
}

pub open spec fn spec_dec_bool(s: Seq<u8>) -> Option<(bool, Seq<u8>)> {
    if s.len() == 0 {
        None
    } else if s[0] == 0 {
        Some((false, s.skip(1)))
    } else if s[0] == 1 {
        Some((true, s.skip(1)))
    } else {
        None
    }
}

pub proof fn lemma_dec_bool(b: bool, rest: Seq<u8>)
    ensures
        spec_dec_bool(spec_enc_bool(b) + rest) == Some((b, rest)),
{
    broadcast use lemma_singleton_add;

}

pub fn enc_bool(out: &mut Vec<u8>, b: bool)
    ensures
        final(out)@ == old(out)@ + spec_enc_bool(b),
{
    if b {
        push_byte(out, 1);
    } else {
        push_byte(out, 0);
    }
}

pub fn dec_bool(buf: &Vec<u8>, pos: usize) -> (r: Option<(bool, usize)>)
    requires
        pos <= buf@.len(),
    ensures
        match r {
            Some((b, p)) => pos <= p <= buf@.len() && spec_dec_bool(buf@.skip(pos as int)) == Some(
                (b, buf@.skip(p as int)),
            ),
            None => spec_dec_bool(buf@.skip(pos as int)) is None,
        },
{
    match dec_tag(buf, pos) {
        Some((0, p)) => Some((false, p)),
        Some((1, p)) => Some((true, p)),
        _ => None,
    }
}

// ===== Raw byte strings of a known width =====

/// Fixed-size identifiers and digests are laid down as their bytes, with no
/// length marker; the width is part of the type.
pub open spec fn spec_dec_raw(s: Seq<u8>, n: nat) -> Option<(Seq<u8>, Seq<u8>)> {
    if s.len() >= n {
        Some((s.take(n as int), s.skip(n as int)))
    } else {
        None
    }
}

pub proof fn lemma_dec_raw(b: Seq<u8>, n: nat, rest: Seq<u8>)
    requires
        b.len() == n,
    ensures
        spec_dec_raw(b + rest, n) == Some((b, rest)),
{
    assert((b + rest).take(n as int) =~= b);
    assert((b + rest).skip(n as int) =~= rest);
}

/// Append the bytes of `b` as they stand.
pub fn enc_raw(out: &mut Vec<u8>, b: &Vec<u8>)
    ensures
        final(out)@ == old(out)@ + b@,
{
    broadcast use lemma_add_assoc;

    let mut i: usize = 0;
    while i < b.len()
        invariant
            i <= b@.len(),
            out@ == old(out)@ + b@.take(i as int),
        decreases b@.len() - i,
    {
        push_byte(out, b[i]);
        proof {
            assert(b@.take(i as int) + seq![b@[i as int]] =~= b@.take(i + 1));
        }
        i = i + 1;
    }
    proof {
        assert(b@.take(b@.len() as int) =~= b@);
    }
}

// ===== Optional fixed-width integers =====

pub open spec fn spec_enc_opt_u128(o: Option<u128>) -> Seq<u8> {
    match o {
        None => seq![0u8],
        Some(v) => seq![1u8] + spec_enc_u128(v),
    }
}

pub open spec fn spec_dec_opt_u128(s: Seq<u8>) -> Option<(Option<u128>, Seq<u8>)> {
    if s.len() == 0 {
        None
    } else if s[0] == 0 {
        Some((None, s.skip(1)))
    } else if s[0] == 1 {
        match spec_dec_u128(s.skip(1)) {
            Some((v, rest)) => Some((Some(v), rest)),
            None => None,
        }
    } else {
        None
    }
}

pub proof fn lemma_dec_opt_u128(o: Option<u128>, rest: Seq<u8>)
    ensures
        spec_dec_opt_u128(spec_enc_opt_u128(o) + rest) == Some((o, rest)),
{
    broadcast use lemma_singleton_add, lemma_add_assoc;

    match o {
        None => {},
        Some(v) => {
            lemma_dec_u128(v, rest);
        },
    }
}

pub fn enc_opt_u128(out: &mut Vec<u8>, o: &Option<u128>)
    ensures
        final(out)@ == old(out)@ + spec_enc_opt_u128(*o),
{
    broadcast use lemma_add_assoc;

    match o {
        None => {
            push_byte(out, 0);
        },
        Some(v) => {
            push_byte(out, 1);
            enc_u128(out, *v);
        },
    }
}

pub fn dec_opt_u128(buf: &Vec<u8>, pos: usize) -> (r: Option<(Option<u128>, usize)>)
    requires
        pos <= buf@.len(),
    ensures
        match r {
            Some((v, p)) => pos <= p <= buf@.len() && spec_dec_opt_u128(buf@.skip(pos as int))
                == Some((v, buf@.skip(p as int))),
            None => spec_dec_opt_u128(buf@.skip(pos as int)) is None,
        },
{
    match dec_tag(buf, pos) {
        Some((0, p)) => Some((None, p)),
        Some((1, p1)) => match dec_u128(buf, p1) {
            Some((v, p)) => Some((Some(v), p)),
            None => None,
        },
        _ => None,
    }
}

// ===== Length-prefixed byte lists =====

pub open spec fn spec_enc_byte_list(b: Seq<u8>) -> Seq<u8> {
    spec_enc_compact(b.len()) + b
}

pub open spec fn spec_dec_byte_list(s: Seq<u8>) -> Option<(Seq<u8>, Seq<u8>)> {
    match spec_dec_compact(s) {
        Some((n, r)) => spec_dec_raw(r, n),
        None => None,
    }
}

pub proof fn lemma_dec_byte_list(b: Seq<u8>, rest: Seq<u8>)
    requires
        b.len() < pow256(16),
    ensures
        spec_dec_byte_list(spec_enc_byte_list(b) + rest) == Some((b, rest)),
{
    broadcast use lemma_add_assoc;

    lemma_dec_compact(b.len(), b + rest);
    lemma_dec_raw(b, b.len(), rest);
}

pub fn enc_byte_list(out: &mut Vec<u8>, b: &Vec<u8>)
    ensures
        final(out)@ == old(out)@ + spec_enc_byte_list(b@),
{
    broadcast use lemma_add_assoc;

    enc_compact(out, b.len() as u128);
    enc_raw(out, b);
}

pub fn dec_byte_list(buf: &Vec<u8>, pos: usize) -> (r: Option<(Vec<u8>, usize)>)
    requires
        pos <= buf@.len(),
    ensures
        match r {
            Some((v, p)) => pos <= p <= buf@.len() && spec_dec_byte_list(buf@.skip(pos as int))
                == Some((v@, buf@.skip(p as int))),
            None => spec_dec_byte_list(buf@.skip(pos as int)) is None,
        },
{
    match dec_compact(buf, pos) {
        Some((n, p1)) => {
            if n > (buf.len() - p1) as u128 {
                proof {
                    assert(buf@.skip(p1 as int).len() < n);
                }
                None
            } else {
                dec_raw(buf, p1, n as usize)
            }
        },
        None => None,
    }
}

// ===== Length-prefixed lists of 16-byte integers =====

pub open spec fn spec_enc_u128s(vs: Seq<u128>) -> Seq<u8>
    decreases vs.len(),
{
    if vs.len() == 0 {
        Seq::empty()
    } else {
        spec_enc_u128(vs[0]) + spec_enc_u128s(vs.skip(1))
    }
}

pub open spec fn spec_enc_balance_list(vs: Seq<u128>) -> Seq<u8> {
    spec_enc_compact(vs.len()) + spec_enc_u128s(vs)
}

pub open spec fn spec_dec_u128s(s: Seq<u8>, n: nat) -> Option<(Seq<u128>, Seq<u8>)>
    decreases n,
{
    if n == 0 {
        Some((Seq::empty(), s))
    } else {
        match spec_dec_u128(s) {
            Some((v, r)) => match spec_dec_u128s(r, (n - 1) as nat) {
                Some((vs, r2)) => Some((seq![v] + vs, r2)),
                None => None,
            },
            None => None,
        }
    }
}

pub open spec fn spec_dec_balance_list(s: Seq<u8>) -> Option<(Seq<u128>, Seq<u8>)> {
    match spec_dec_compact(s) {
        Some((n, r)) => spec_dec_u128s(r, n),
        None => None,
    }
}

pub proof fn lemma_dec_u128s(vs: Seq<u128>, rest: Seq<u8>)
    ensures
        spec_dec_u128s(spec_enc_u128s(vs) + rest, vs.len()) == Some((vs, rest)),
    decreases vs.len(),
{
    broadcast use lemma_singleton_add, lemma_add_assoc, lemma_add_empty;

    if vs.len() == 0 {
    } else {
        lemma_dec_u128(vs[0], spec_enc_u128s(vs.skip(1)) + rest);
        lemma_dec_u128s(vs.skip(1), rest);
        assert(seq![vs[0]] + vs.skip(1) =~= vs);
    }
}

/// A successful list read consumes sixteen bytes for each element.
pub proof fn lemma_dec_u128s_shape(s: Seq<u8>, n: nat)
    ensures
        spec_dec_u128s(s, n) is Some <==> s.len() >= 16 * n,
        spec_dec_u128s(s, n) matches Some((vs, r)) ==> vs.len() == n && r == s.skip(16 * n as int),
    decreases n,
{
    if n > 0 {
        lemma_dec_le_shape(s, 16);
        if s.len() >= 16 {
            lemma_dec_u128s_shape(s.skip(16), (n - 1) as nat);
            if s.len() >= 16 * n {
                assert(s.skip(16).skip(16 * (n - 1)) =~= s.skip(16 * n as int));
            }
        }
    } else {
        assert(s.skip(0) =~= s);
    }
}

pub proof fn lemma_dec_balance_list(vs: Seq<u128>, rest: Seq<u8>)
    requires
        vs.len() < pow256(16),
    ensures
        spec_dec_balance_list(spec_enc_balance_list(vs) + rest) == Some((vs, rest)),
{
    broadcast use lemma_add_assoc;

    lemma_dec_compact(vs.len(), spec_enc_u128s(vs) + rest);
    lemma_dec_u128s(vs, rest);
}

pub fn enc_balance_list(out: &mut Vec<u8>, vs: &Vec<u128>)
    ensures
        final(out)@ == old(out)@ + spec_enc_balance_list(vs@),
{
    broadcast use lemma_add_assoc, lemma_add_empty;

    enc_compact(out, vs.len() as u128);
    let ghost base = out@;
    proof {
        assert(vs@.skip(0) =~= vs@);
    }
    let mut i: usize = 0;
    while i < vs.len()
        invariant
            i <= vs@.len(),
            out@ + spec_enc_u128s(vs@.skip(i as int)) == base + spec_enc_u128s(vs@),
        decreases vs@.len() - i,
    {
        proof {
            assert(vs@.skip(i as int)[0] == vs@[i as int]);
            lemma_skip_succ(vs@, i as int);
        }
        enc_u128(out, vs[i]);
        i = i + 1;
    }
    proof {
        assert(vs@.skip(vs@.len() as int) =~= Seq::<u128>::empty());
    }
}

pub fn dec_balance_list(buf: &Vec<u8>, pos: usize) -> (r: Option<(Vec<u128>, usize)>)
    requires
        pos <= buf@.len(),
    ensures
        match r {
            Some((v, p)) => pos <= p <= buf@.len() && spec_dec_balance_list(buf@.skip(pos as int))
                == Some((v@, buf@.skip(p as int))),
            None => spec_dec_balance_list(buf@.skip(pos as int)) is None,
        },
{
    broadcast use lemma_singleton_add, lemma_add_assoc, lemma_add_empty;

    let (n128, p1) = match dec_compact(buf, pos) {
        Some(x) => x,
        None => {
            return None;
        },
    };
    proof {
        lemma_dec_u128s_shape(buf@.skip(p1 as int), n128 as nat);
    }
    let rem = buf.len() - p1;
    if n128 > (rem / 16) as u128 {
        proof {
            assert(buf@.skip(p1 as int).len() == rem);
            assert(rem < 16 * (rem / 16) + 16);
            assert(16 * (n128 as nat) > rem as nat);
        }
        return None;
    }
    let n = n128 as usize;
    let mut acc: Vec<u128> = Vec::new();
    let mut cur: usize = p1;
    let mut i: usize = 0;
    while i < n
        invariant
            i <= n,
            pos <= p1 <= cur <= buf@.len(),
            acc@.len() == i,
            spec_dec_balance_list(buf@.skip(pos as int)) == spec_dec_u128s(
                buf@.skip(p1 as int),
                n as nat,
            ),
            spec_dec_u128s(buf@.skip(p1 as int), n as nat) == (match spec_dec_u128s(
                buf@.skip(cur as int),
                (n - i) as nat,
            ) {
                Some((vs2, r)) => Some((acc@ + vs2, r)),
                None => None::<(Seq<u128>, Seq<u8>)>,
            }),
        decreases n - i,
    {
        let (v, p) = match dec_u128(buf, cur) {
            Some(x) => x,
            None => {
                return None;
            },
        };
        let ghost prev = acc@;
        acc.push(v);
        proof {
            assert(acc@ =~= prev + seq![v]);
        }
        cur = p;
        i = i + 1;
    }
    Some((acc, cur))
}

/// Copy `n` bytes starting at `pos` into a fresh vector.
pub fn dec_raw(buf: &Vec<u8>, pos: usize, n: usize) -> (r: Option<(Vec<u8>, usize)>)
    requires
        pos <= buf@.len(),
    ensures
        match r {
            Some((v, p)) => pos <= p <= buf@.len() && spec_dec_raw(buf@.skip(pos as int), n as nat)
                == Some((v@, buf@.skip(p as int))) && v@.len() == n,
            None => spec_dec_raw(buf@.skip(pos as int), n as nat) is None,
        },
{
    if buf.len() - pos < n {
        return None;
    }
    let mut v: Vec<u8> = Vec::new();
    let mut i: usize = 0;
    while i < n
        invariant
            i <= n,
            pos + n <= buf@.len() <= usize::MAX,
            v@ == buf@.subrange(pos as int, (pos + i) as int),
        decreases n - i,
    {
        v.push(buf[pos + i]);
        proof {
            assert(buf@.subrange(pos as int, (pos + i) as int).push(buf@[(pos + i) as int])
                =~= buf@.subrange(pos as int, (pos + i + 1) as int));
        }
        i = i + 1;
    }
    proof {
        assert(buf@.subrange(pos as int, (pos + n) as int) =~= buf@.skip(pos as int).take(n as int));
    }
    Some((v, pos + n))
}

} // verus!
