//! The reconnect backoff of the IMAP IDLE workers: an exponential base that
//! doubles from five seconds up to five minutes, plus a per-account jitter
//! below one second.

use vstd::prelude::*;
use vstd::utf8::encode_utf8;

verus! {

/// The base delay in seconds after `failures` consecutive failures:
/// `5 * 2^(failures - 1)`, the exponent capped at 6 and the result at 300.
pub open spec fn base_delay_seconds(failures: u32) -> u64 {
    let exponent: nat = if failures == 0 {
        0
    } else if failures - 1 > 6 {
        6
    } else {
        (failures - 1) as nat
    };
    let seconds = 5 * vstd::arithmetic::power2::pow2(exponent);
    if seconds > 300 {
        300
    } else {
        seconds as u64
    }
}

/// The rolling hash of `bytes` from `seed`: `h * 31 + byte` for every
/// byte, modulo 2^64.
pub open spec fn rolling_hash(seed: u64, bytes: Seq<u8>) -> u64
    decreases bytes.len(),
{
    if bytes.len() == 0 {
        seed
    } else {
        ((rolling_hash(seed, bytes.drop_last()) as int * 31 + bytes.last() as int)
            % 0x1_0000_0000_0000_0000) as u64
    }
}

/// The jitter in milliseconds: the rolling hash of the account id's UTF-8
/// bytes, seeded with `failures * 137`, modulo 1000.
pub open spec fn jitter_millis(account_id: Seq<char>, failures: u32) -> u64 {
    (rolling_hash((failures * 137) as u64, encode_utf8(account_id)) % 1000) as u64
}

/// The delay in milliseconds before reconnecting after `failures`
/// consecutive failures.
pub open spec fn reconnect_delay_millis(account_id: Seq<char>, failures: u32) -> int {
    base_delay_seconds(failures) * 1000 + jitter_millis(account_id, failures)
}

proof fn lemma_step(h: u64, b: u8)
    ensures
        vstd::wrapping::u64_specs::wrapping_add(vstd::wrapping::u64_specs::wrapping_mul(h, 31), b as u64)
            == ((h as int * 31 + b as int) % 0x1_0000_0000_0000_0000) as u64,
{
    let m = 0x1_0000_0000_0000_0000int;
    let p = (h as nat * 31 as nat) % m as nat;
    assert(p < m) by (nonlinear_arith)
        requires
            p == (h as nat * 31 as nat) % m as nat,
            m > 0,
    ;
    vstd::arithmetic::div_mod::lemma_small_mod(b as nat, m as nat);
    vstd::arithmetic::div_mod::lemma_add_mod_noop(h as int * 31, b as int, m);
    assert((p + b) % m == (h as int * 31 + b as int) % m);
    if p + b >= m {
        assert(0 <= p + b - m < m);
        vstd::arithmetic::div_mod::lemma_mod_sub_multiples_vanish(p + b, m);
        vstd::arithmetic::div_mod::lemma_small_mod((p + b - m) as nat, m as nat);
    } else {
        vstd::arithmetic::div_mod::lemma_small_mod((p + b) as nat, m as nat);
    }
}

/// The delay, in milliseconds, before an IMAP IDLE worker reconnects after
/// `consecutive_failures` failures in a row.
pub fn reconnect_delay(account_id: &str, consecutive_failures: u32) -> (millis: u64)
    ensures
        millis == reconnect_delay_millis(account_id@, consecutive_failures),
{
    let exponent: u32 = if consecutive_failures.saturating_sub(1) < 6 {
        consecutive_failures.saturating_sub(1)
    } else {
        6
    };
    proof {
        vstd::arithmetic::power2::lemma2_to64();
    }
    let mut shifted: u64 = 1;
    let mut k: u32 = 0;
    while k < exponent
        invariant
            k <= exponent <= 6,
            shifted == vstd::arithmetic::power2::pow2(k as nat),
        decreases exponent - k,
    {
        proof {
            vstd::arithmetic::power2::lemma2_to64();
            vstd::arithmetic::power2::lemma_pow2_unfold((k + 1) as nat);
        }
        shifted = shifted * 2;
        k = k + 1;
    }
    assert(shifted <= 64) by { vstd::arithmetic::power2::lemma2_to64(); }
    let product = 5 * shifted;
    let base_seconds: u64 = if product < 300 { product } else { 300 };
    let bytes = account_id.as_bytes();
    let mut hash: u64 = (consecutive_failures as u64) * 137;
    let mut i: usize = 0;
    while i < bytes.len()
        invariant
            i <= bytes@.len(),
            bytes@ == encode_utf8(account_id@),
            hash == rolling_hash((consecutive_failures * 137) as u64, bytes@.subrange(0, i as int)),
        decreases bytes@.len() - i,
    {
        proof {
            lemma_step(hash, bytes@[i as int]);
            assert(bytes@.subrange(0, i as int + 1).drop_last() =~= bytes@.subrange(0, i as int));
        }
        hash = hash.wrapping_mul(31).wrapping_add(bytes[i] as u64);
        i = i + 1;
    }
    assert(bytes@.subrange(0, i as int) =~= bytes@);
    let jitter = hash % 1000;
    base_seconds * 1000 + jitter
}

/// Law: the delay is never below five seconds and never reaches five
/// minutes and one second; the base grows with the number of failures and
/// stays at five minutes from the seventh failure on.
pub proof fn lemma_reconnect_delay_is_bounded(account_id: Seq<char>, failures: u32, more: u32)
    requires
        failures <= more,
    ensures
        5000 <= reconnect_delay_millis(account_id, failures) < 301_000,
        base_delay_seconds(failures) <= base_delay_seconds(more),
        failures >= 7 ==> base_delay_seconds(failures) == 300,
        failures <= 1 ==> base_delay_seconds(failures) == 5,
{
    vstd::arithmetic::power2::lemma2_to64();
    let e1: nat = if failures == 0 { 0 } else if failures - 1 > 6 { 6 } else { (failures - 1) as nat };
    let e2: nat = if more == 0 { 0 } else if more - 1 > 6 { 6 } else { (more - 1) as nat };
    vstd::arithmetic::power2::lemma_pow2_strictly_increases(0, 1);
    if e1 < e2 {
        vstd::arithmetic::power2::lemma_pow2_strictly_increases(e1, e2);
    }
}

} // verus!
