use wallet_gate::generate_nonce;

#[test]
fn nonce_is_eight_lowercase_hex_chars() {
    for _ in 0..100 {
        let nonce = generate_nonce();
        assert_eq!(nonce.len(), 8);
        assert!(nonce.chars().all(|c| c.is_ascii_hexdigit() && !c.is_ascii_uppercase()));
    }
}

#[test]
fn nonces_vary_across_calls() {
    // 32 random bits: sixteen draws collide only with negligible probability.
    let first = generate_nonce();
    let mut saw_other = false;
    for _ in 0..16 {
        if generate_nonce() != first {
            saw_other = true;
        }
    }
    assert!(saw_other);
}
