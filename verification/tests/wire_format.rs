//! The byte-level building blocks against the reference codec implementation:
//! every integer form this library lays down by itself must agree with what
//! the host ecosystem's codec produces.
use parity_scale_codec::{Compact, Encode};
use ztg_runtime_lib::codec::{
    enc_bool, enc_byte_list, enc_balance_list, enc_compact, enc_opt_u128, enc_u128, enc_u16,
    enc_u32, enc_u64,
};

fn compact_bytes(v: u128) -> Vec<u8> {
    let mut out = Vec::new();
    enc_compact(&mut out, v);
    out
}

#[test]
fn compact_single_byte_values_match_reference() {
    for v in [0u128, 1, 5, 42, 63] {
        assert_eq!(compact_bytes(v), Compact(v).encode(), "value {v}");
    }
}

#[test]
fn compact_two_byte_values_match_reference() {
    for v in [64u128, 144, 1000, 16383] {
        assert_eq!(compact_bytes(v), Compact(v).encode(), "value {v}");
    }
}

#[test]
fn compact_four_byte_values_match_reference() {
    for v in [16384u128, 100_000, 0x3FFF_FFFF] {
        assert_eq!(compact_bytes(v), Compact(v).encode(), "value {v}");
    }
}

#[test]
fn compact_big_values_match_reference() {
    for v in [
        0x4000_0000u128,
        0xFFFF_FFFF,
        0x1_0000_0000,
        10_000_000_000_000,
        u64::MAX as u128,
        u64::MAX as u128 + 1,
        u128::MAX,
    ] {
        assert_eq!(compact_bytes(v), Compact(v).encode(), "value {v}");
    }
}

#[test]
fn compact_of_144_is_two_bytes() {
    assert_eq!(compact_bytes(144), vec![0x41, 0x02]);
}

#[test]
fn fixed_width_integers_match_reference() {
    let mut out = Vec::new();
    enc_u16(&mut out, 0xBEEF);
    assert_eq!(out, 0xBEEFu16.encode());

    let mut out = Vec::new();
    enc_u32(&mut out, 0xDEAD_BEEF);
    assert_eq!(out, 0xDEAD_BEEFu32.encode());

    let mut out = Vec::new();
    enc_u64(&mut out, 0x0123_4567_89AB_CDEF);
    assert_eq!(out, 0x0123_4567_89AB_CDEFu64.encode());

    let mut out = Vec::new();
    enc_u128(&mut out, u128::MAX - 7);
    assert_eq!(out, (u128::MAX - 7).encode());
}

#[test]
fn bool_bytes_match_reference() {
    let mut out = Vec::new();
    enc_bool(&mut out, true);
    enc_bool(&mut out, false);
    assert_eq!(out, vec![1, 0]);
    assert_eq!(true.encode(), vec![1]);
    assert_eq!(false.encode(), vec![0]);
}

#[test]
fn byte_list_matches_reference() {
    let reason: Vec<u8> = b"needs an oracle".to_vec();
    let mut out = Vec::new();
    enc_byte_list(&mut out, &reason);
    assert_eq!(out, reason.encode());

    let empty: Vec<u8> = Vec::new();
    let mut out = Vec::new();
    enc_byte_list(&mut out, &empty);
    assert_eq!(out, empty.encode());
}

#[test]
fn balance_list_matches_reference() {
    let amounts: Vec<u128> = vec![0, 1, u128::MAX, 500_000_000_000];
    let mut out = Vec::new();
    enc_balance_list(&mut out, &amounts);
    assert_eq!(out, amounts.encode());
}

#[test]
fn optional_balance_matches_reference() {
    let some: Option<u128> = Some(77);
    let mut out = Vec::new();
    enc_opt_u128(&mut out, &some);
    assert_eq!(out, some.encode());

    let none: Option<u128> = None;
    let mut out = Vec::new();
    enc_opt_u128(&mut out, &none);
    assert_eq!(out, none.encode());
}
