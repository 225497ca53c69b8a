use worker_lifecycle::fingerprint::fingerprint64;
use worker_lifecycle::fingerprint::u64_to_decimal;
use worker_lifecycle::fingerprint::worker_key;

#[test]
fn fnv1a_known_vectors() {
    // Published 64-bit FNV-1a test vectors.
    assert_eq!(fingerprint64(b""), 0xcbf2_9ce4_8422_2325);
    assert_eq!(fingerprint64(b"a"), 0xaf63_dc4c_8601_ec8c);
    assert_eq!(fingerprint64(b"foobar"), 0x8594_4171_f739_67e8);
}

#[test]
fn key_is_deterministic() {
    let k1 = worker_key(b"/svc/a", None);
    let k2 = worker_key(b"/svc/a", None);
    assert_eq!(k1, k2);
    let s1 = worker_key(b"/svc/a", Some(1_700_000_000_123));
    let s2 = worker_key(b"/svc/a", Some(1_700_000_000_123));
    assert_eq!(s1, s2);
}

#[test]
fn distinct_salts_give_distinct_keys() {
    let k1 = worker_key(b"/svc/a", Some(1));
    let k2 = worker_key(b"/svc/a", Some(2));
    assert_ne!(k1, k2);
}

#[test]
fn salted_key_differs_from_plain_key() {
    let plain = worker_key(b"/svc/a", None);
    let forced = worker_key(b"/svc/a", Some(1_700_000_000_123));
    assert_ne!(plain, forced);
}

#[test]
fn salted_key_hashes_path_dash_decimal() {
    assert_eq!(worker_key(b"/svc/a", Some(123)), fingerprint64(b"/svc/a-123"));
    assert_eq!(worker_key(b"/svc/a", Some(0)), fingerprint64(b"/svc/a-0"));
}

#[test]
fn distinct_paths_give_distinct_keys() {
    assert_ne!(worker_key(b"/svc/a", None), worker_key(b"/svc/b", None));
}

#[test]
fn decimal_rendering() {
    assert_eq!(u64_to_decimal(0), b"0".to_vec());
    assert_eq!(u64_to_decimal(7), b"7".to_vec());
    assert_eq!(u64_to_decimal(10), b"10".to_vec());
    assert_eq!(u64_to_decimal(1_234_567_890), b"1234567890".to_vec());
    assert_eq!(u64_to_decimal(u64::MAX), b"18446744073709551615".to_vec());
}
