use ore_cli::search::{digest_le, partition_start, scan_chunk, search, SEARCH_CHUNK};

#[test]
fn trivial_target_first_nonce_qualifies() {
    // An all-0xFF target accepts every digest, so the very first candidate,
    // nonce 0, must be returned.
    let challenge = [7u8; 32];
    let identity = [1u8; 32];
    let target = [0xffu8; 32];
    let sol = scan_chunk(&challenge, &identity, &target, 0, 5).expect("must find a solution");
    assert_eq!(sol.nonce, 0);
}

#[test]
fn search_single_worker_trivial_target() {
    let challenge = [0u8; 32];
    let identity = [2u8; 32];
    let target = [0xffu8; 32];
    let sol = search(&challenge, &identity, &target, 1, 1).expect("must find a solution");
    assert_eq!(sol.nonce, 0);
}

#[test]
fn search_many_workers_trivial_target() {
    let challenge = [3u8; 32];
    let identity = [4u8; 32];
    let target = [0xffu8; 32];
    let sol = search(&challenge, &identity, &target, 4, 1).expect("must find a solution");
    // The round-robin schedule probes worker 0's partition first.
    assert_eq!(sol.nonce, 0);
}

#[test]
fn impossible_target_scan_returns_none() {
    // An all-zero target is met only by an all-zero digest; a short scan
    // cannot find one.
    let challenge = [9u8; 32];
    let identity = [1u8; 32];
    let target = [0u8; 32];
    assert!(scan_chunk(&challenge, &identity, &target, 0, 100).is_none());
}

#[test]
fn scan_digest_matches_ledger_hash() {
    // The digest carried by a solution must be the ledger SDK's Keccak-256
    // digest of challenge || identity || little-endian nonce — not the input
    // handed back, and not any other function of it.
    let challenge = [5u8; 32];
    let identity = [6u8; 32];
    let target = [0xffu8; 32];
    let sol = scan_chunk(&challenge, &identity, &target, 0, 1).expect("must find a solution");
    let expected = solana_sdk::keccak::hashv(&[
        challenge.as_slice(),
        identity.as_slice(),
        sol.nonce.to_le_bytes().as_slice(),
    ])
    .to_bytes();
    assert_eq!(sol.hash, expected);
    assert_ne!(sol.hash, challenge);
}

#[test]
fn scan_returns_first_qualifying_nonce() {
    // With a moderately hard target the first qualifying nonce is well past
    // 0; scanning from 0 and from the found nonce itself must agree.
    let challenge = [11u8; 32];
    let identity = [22u8; 32];
    let mut target = [0u8; 32];
    target[0] = 0x04; // roughly 1 in 64 digests qualify
    let sol = scan_chunk(&challenge, &identity, &target, 0, 100_000)
        .expect("a 1-in-64 target must be hit within 100000 nonces");
    let again = scan_chunk(&challenge, &identity, &target, sol.nonce, 1).unwrap();
    assert_eq!(again.nonce, sol.nonce);
    assert_eq!(again.hash, sol.hash);
    assert!(sol.hash[0] <= 0x04);
    if sol.nonce > 0 {
        assert!(scan_chunk(&challenge, &identity, &target, 0, sol.nonce).is_none());
    }
}

#[test]
fn partition_starts_follow_formula() {
    assert_eq!(partition_start(0, 1), 0);
    assert_eq!(partition_start(0, 4), 0);
    assert_eq!(partition_start(1, 4), u64::MAX / 4);
    assert_eq!(partition_start(3, 4), (u64::MAX / 4) * 3);
    assert_eq!(partition_start(6, 7), (u64::MAX / 7) * 6);
}

#[test]
fn partition_ranges_are_contiguous_and_cover() {
    // Successive starts differ by exactly one stride, the first range starts
    // at 0, and the last range reaches u64::MAX.
    for n in [1u64, 2, 3, 5, 8, 64] {
        let stride = u64::MAX / n;
        assert_eq!(partition_start(0, n), 0);
        for i in 1..n {
            assert_eq!(partition_start(i, n), partition_start(i - 1, n) + stride);
        }
        assert!(partition_start(n - 1, n) <= u64::MAX);
        // everything from the last start to u64::MAX belongs to worker n-1
        assert!(u64::MAX - partition_start(n - 1, n) >= stride);
    }
}

#[test]
fn digest_comparison_is_big_endian_numeric() {
    let zero = [0u8; 32];
    let max = [0xffu8; 32];
    assert!(digest_le(&zero, &zero));
    assert!(digest_le(&zero, &max));
    assert!(!digest_le(&max, &zero));

    // 0x...0100 > 0x...00ff: the more significant byte decides.
    let mut a = [0u8; 32];
    a[30] = 1;
    let mut b = [0u8; 32];
    b[31] = 0xff;
    assert!(!digest_le(&a, &b));
    assert!(digest_le(&b, &a));

    // equal prefixes, last byte decides
    let mut c = [5u8; 32];
    c[31] = 9;
    let mut d = [5u8; 32];
    d[31] = 10;
    assert!(digest_le(&c, &d));
    assert!(!digest_le(&d, &c));
}

#[test]
fn chunk_constant_matches_flag_poll_cadence() {
    assert_eq!(SEARCH_CHUNK, 10_000);
}
