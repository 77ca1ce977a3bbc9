use solana_sdk::signature::Keypair;
use solana_sdk::signer::Signer;
use wallet_gate::GateResponseObject;
use wallet_gate::create_gate_message;

fn keypair_from_seed(seed: u8) -> Keypair {
    Keypair::new_from_array([seed; 32])
}

fn signed_challenge(domain: &str, keypair: &Keypair) -> (GateResponseObject, String) {
    let address = keypair.pubkey().to_string();
    let record = create_gate_message(domain, &address);
    let signature = keypair.sign_message(record.to_string().as_bytes());
    (record, signature.to_string())
}

#[test]
fn round_trip_signature_verifies() {
    let keypair = keypair_from_seed(7);
    let (record, signature) = signed_challenge("example.com", &keypair);
    assert!(record.verify(&signature));
}

#[test]
fn round_trip_with_fresh_random_keypair() {
    let keypair = Keypair::new();
    let (record, signature) = signed_challenge("example.com", &keypair);
    assert!(record.verify(&signature));
}

#[test]
fn tampered_domain_is_rejected() {
    let keypair = keypair_from_seed(7);
    let (mut record, signature) = signed_challenge("example.com", &keypair);
    record.domain = "evil.example.com".to_string();
    assert!(!record.verify(&signature));
}

#[test]
fn tampered_nonce_is_rejected() {
    let keypair = keypair_from_seed(7);
    let (mut record, signature) = signed_challenge("example.com", &keypair);
    record.nonce = "00000000".to_string();
    assert!(!record.verify(&signature));
}

#[test]
fn tampered_statement_is_rejected() {
    let keypair = keypair_from_seed(7);
    let (mut record, signature) = signed_challenge("example.com", &keypair);
    record.statement = "This request transfers all your funds.".to_string();
    assert!(!record.verify(&signature));
}

#[test]
fn tampered_version_is_rejected() {
    let keypair = keypair_from_seed(7);
    let (mut record, signature) = signed_challenge("example.com", &keypair);
    record.version = "2".to_string();
    assert!(!record.verify(&signature));
}

#[test]
fn tampered_chain_id_is_rejected() {
    let keypair = keypair_from_seed(7);
    let (mut record, signature) = signed_challenge("example.com", &keypair);
    record.chain_id = "devnet".to_string();
    assert!(!record.verify(&signature));
}

#[test]
fn tampered_issued_at_is_rejected() {
    let keypair = keypair_from_seed(7);
    let (mut record, signature) = signed_challenge("example.com", &keypair);
    record.issued_at = "1999-12-31T23:59:59Z".to_string();
    assert!(!record.verify(&signature));
}

#[test]
fn added_resource_is_rejected() {
    let keypair = keypair_from_seed(7);
    let (mut record, signature) = signed_challenge("example.com", &keypair);
    record.resources.push("https://example.com/admin".to_string());
    assert!(!record.verify(&signature));
}

#[test]
fn swapped_address_is_rejected() {
    let keypair = keypair_from_seed(7);
    let other = keypair_from_seed(8);
    let (mut record, signature) = signed_challenge("example.com", &keypair);
    record.address = other.pubkey().to_string();
    assert!(!record.verify(&signature));
}

#[test]
fn signature_from_wrong_keypair_is_rejected() {
    let keypair = keypair_from_seed(7);
    let other = keypair_from_seed(9);
    let address = keypair.pubkey().to_string();
    let record = create_gate_message("example.com", &address);
    let wrong = other.sign_message(record.to_string().as_bytes());
    assert!(!record.verify(&wrong.to_string()));
}

#[test]
fn malformed_signature_string_is_rejected() {
    let keypair = keypair_from_seed(7);
    let (record, _) = signed_challenge("example.com", &keypair);
    assert!(!record.verify("not-a-signature!!!"));
    assert!(!record.verify(""));
    // Valid base58, but it decodes to fewer than 64 bytes.
    assert!(!record.verify("abc"));
}

#[test]
fn malformed_address_is_rejected() {
    let keypair = keypair_from_seed(7);
    let (mut record, signature) = signed_challenge("example.com", &keypair);
    record.address = "0OIl not base58".to_string();
    assert!(!record.verify(&signature));
}

#[test]
fn wrong_length_address_is_rejected() {
    let keypair = keypair_from_seed(7);
    let (mut record, signature) = signed_challenge("example.com", &keypair);
    // Valid base58, but it decodes to fewer than 32 bytes.
    record.address = "abc".to_string();
    assert!(!record.verify(&signature));
}
