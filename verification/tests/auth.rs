use amm_core::auth::authority_credential;

#[test]
fn credential_bytes_exact() {
    // The fixed six-byte tag, the seed in little-endian order, the bump.
    let c = authority_credential(1, 255);
    assert_eq!(
        c.seeds,
        vec![99, 111, 110, 102, 105, 103, 1, 0, 0, 0, 0, 0, 0, 0, 255]
    );
}

#[test]
fn credential_seed_is_little_endian() {
    let c = authority_credential(0x0102_0304_0506_0708, 7);
    assert_eq!(&c.seeds[6..14], &[8, 7, 6, 5, 4, 3, 2, 1]);
    assert_eq!(c.seeds[14], 7);
}

#[test]
fn credential_deterministic() {
    // Rebuilt fresh per call, never cached: two derivations agree.
    assert_eq!(
        authority_credential(42, 254).seeds,
        authority_credential(42, 254).seeds
    );
}
