//! Content fingerprinting for worker keys: a stable, non-cryptographic 64-bit
//! hash (FNV-1a) over a key input built from the service path and, for forced
//! creation, an epoch-millisecond salt.

use vstd::prelude::*;

verus! {

/// Offset basis of the 64-bit FNV-1a hash.
pub const FNV64_OFFSET_BASIS: u64 = 0xcbf2_9ce4_8422_2325;

/// Prime of the 64-bit FNV-1a hash.
pub const FNV64_PRIME: u64 = 0x100_0000_01b3;

/// One FNV-1a round: fold one byte into the running hash.
pub open spec fn fnv64_step(h: u64, b: u8) -> u64 {
    vstd::wrapping::u64_specs::wrapping_mul(h ^ (b as u64), FNV64_PRIME)
}

/// The 64-bit FNV-1a hash of a byte sequence.
pub open spec fn fnv64(bytes: Seq<u8>) -> u64
    decreases bytes.len(),
{
    if bytes.len() == 0 {
        FNV64_OFFSET_BASIS
    } else {
        fnv64_step(fnv64(bytes.drop_last()), bytes.last())
    }
}

/// Stable 64-bit fingerprint of `bytes`: a function of the bytes alone, so
/// identical inputs give identical results in every process.
pub fn fingerprint64(bytes: &[u8]) -> (r: u64)
    ensures
        r == fnv64(bytes@),
{
    let mut h: u64 = FNV64_OFFSET_BASIS;
    let mut i: usize = 0;
    while i < bytes.len()
        invariant
            i <= bytes@.len(),
            h == fnv64(bytes@.take(i as int)),
        decreases bytes@.len() - i,
    {
        proof {
            assert(bytes@.take(i + 1).drop_last() =~= bytes@.take(i as int));
            assert(bytes@.take(i + 1).last() == bytes@[i as int]);
        }
        h = (h ^ (bytes[i] as u64)).wrapping_mul(FNV64_PRIME);
        i = i + 1;
    }
    proof {
        assert(bytes@.take(bytes@.len() as int) =~= bytes@);
    }
    h
}

/// Decimal ASCII digits of `n`, most significant first, without leading zeros
/// (a single `'0'` for zero).
pub open spec fn dec_digits(n: nat) -> Seq<u8>
    decreases n,
{
    if n < 10 {
        seq![(0x30 + n) as u8]
    } else {
        dec_digits(n / 10).push((0x30 + n % 10) as u8)
    }
}

/// Renders `n` in decimal ASCII, as the salt and thread names spell it.
pub fn u64_to_decimal(n: u64) -> (r: Vec<u8>)
    ensures
        r@ == dec_digits(n as nat),
    decreases n,
{
    if n < 10 {
        let mut v: Vec<u8> = Vec::new();
        v.push(0x30 + (n as u8));
        proof {
            assert(v@ =~= dec_digits(n as nat));
        }
        v
    } else {
        let mut v = u64_to_decimal(n / 10);
        v.push(0x30 + ((n % 10) as u8));
        v
    }
}

/// The number a digit sequence denotes; inverse of `dec_digits`.
pub open spec fn dec_val(s: Seq<u8>) -> int
    decreases s.len(),
{
    if s.len() == 0 {
        0
    } else {
        dec_val(s.drop_last()) * 10 + (s.last() - 0x30)
    }
}

pub proof fn lemma_dec_digits_value(n: nat)
    ensures
        dec_val(dec_digits(n)) == n,
    decreases n,
{
    if n < 10 {
        let s = dec_digits(n);
        assert(s.drop_last() =~= Seq::<u8>::empty());
        assert(dec_val(s.drop_last()) == 0);
        assert(s.last() - 0x30 == n);
    } else {
        lemma_dec_digits_value(n / 10);
        assert(dec_digits(n).drop_last() =~= dec_digits(n / 10));
        assert(dec_digits(n).last() == (0x30 + n % 10) as u8);
        assert((0x30 + n % 10) as u8 - 0x30 == n % 10);
        assert(n == 10 * (n / 10) + n % 10) by {
            vstd::arithmetic::div_mod::lemma_fundamental_div_mod(n as int, 10);
        }
    }
}

/// Distinct numbers have distinct decimal renderings.
pub proof fn lemma_dec_digits_injective(a: nat, b: nat)
    requires
        dec_digits(a) == dec_digits(b),
    ensures
        a == b,
{
    lemma_dec_digits_value(a);
    lemma_dec_digits_value(b);
}

pub proof fn lemma_dec_digits_nonempty(n: nat)
    ensures
        dec_digits(n).len() >= 1,
    decreases n,
{
    if n >= 10 {
        lemma_dec_digits_nonempty(n / 10);
    }
}

/// The bytes a worker key is computed over: the service path alone, or, when
/// creation is forced, the path, a `'-'` separator, and the salt in decimal.
pub open spec fn key_input(path: Seq<u8>, salt: Option<u64>) -> Seq<u8> {
    match salt {
        Option::None => path,
        Option::Some(t) => path + seq![0x2du8] + dec_digits(t as nat),
    }
}

/// The worker key: the stable fingerprint of the key input.
pub open spec fn spec_worker_key(path: Seq<u8>, salt: Option<u64>) -> u64 {
    fnv64(key_input(path, salt))
}

/// Derives the key a worker is registered under. `salt` is the current epoch
/// time in milliseconds when creation is forced, and absent otherwise.
pub fn worker_key(service_path: &[u8], salt: Option<u64>) -> (r: u64)
    ensures
        r == spec_worker_key(service_path@, salt),
{
    match salt {
        None => fingerprint64(service_path),
        Some(t) => {
            let mut input: Vec<u8> = Vec::new();
            input.extend_from_slice(service_path);
            input.push(0x2d);
            let mut digits = u64_to_decimal(t);
            input.append(&mut digits);
            proof {
                assert(input@ =~= key_input(service_path@, salt));
            }
            fingerprint64(input.as_slice())
        },
    }
}

/// Key determinism: the worker key is a function of the service path and salt
/// alone, so equal inputs yield equal keys, in one process or across two.
pub proof fn lemma_key_deterministic(path: Seq<u8>, salt: Option<u64>, k1: u64, k2: u64)
    requires
        k1 == spec_worker_key(path, salt),
        k2 == spec_worker_key(path, salt),
    ensures
        k1 == k2,
{
}

/// A forced (salted) key input never coincides with the plain input for the
/// same path, whatever the salt.
pub proof fn lemma_salted_input_differs(path: Seq<u8>, t: u64)
    ensures
        key_input(path, Some(t)) != key_input(path, None),
{
    lemma_dec_digits_nonempty(t as nat);
    assert(key_input(path, Some(t)).len() > path.len());
}

/// Distinct salts give distinct key inputs for the same path, so forced
/// creations at distinct instants never hash the same bytes.
pub proof fn lemma_distinct_salts_distinct_inputs(path: Seq<u8>, t1: u64, t2: u64)
    requires
        t1 != t2,
    ensures
        key_input(path, Some(t1)) != key_input(path, Some(t2)),
{
    let d1 = dec_digits(t1 as nat);
    let d2 = dec_digits(t2 as nat);
    let p = path + seq![0x2du8];
    if key_input(path, Some(t1)) == key_input(path, Some(t2)) {
        assert(p + d1 == p + d2);
        assert(d1.len() == d2.len());
        assert forall|i: int| 0 <= i < d1.len() implies d1[i] == d2[i] by {
            assert((p + d1)[p.len() + i] == d1[i]);
            assert((p + d2)[p.len() + i] == d2[i]);
        }
        assert(d1 =~= d2);
        lemma_dec_digits_injective(t1 as nat, t2 as nat);
        assert(false);
    }
}

} // verus!
