use sha2::{Digest, Sha256};
use abot::security::audit::MerkleAuditTrail;
use abot::security::hex::{decode_signature_bytes, encode};
use abot::security::manifest::ManifestSigner;
use abot::security::secrets::SecretStore;
use abot::security::taint::TaintTracker;

#[test]
fn test_taint_and_check() {
    let tracker = TaintTracker::new();
    tracker.taint("data_id_1").unwrap();

    assert!(tracker.is_tainted("data_id_1").unwrap());
    assert!(!tracker.is_tainted("data_id_2").unwrap());
}

#[test]
fn test_untaint() {
    let tracker = TaintTracker::new();
    tracker.taint("data_id").unwrap();
    assert!(tracker.is_tainted("data_id").unwrap());

    tracker.untaint("data_id").unwrap();
    assert!(!tracker.is_tainted("data_id").unwrap());
}

#[test]
fn test_multiple_taint_entries() {
    let tracker = TaintTracker::new();
    tracker.taint("id1").unwrap();
    tracker.taint("id2").unwrap();
    tracker.taint("id3").unwrap();

    assert_eq!(tracker.tainted_count().unwrap(), 3);
    assert!(tracker.is_tainted("id1").unwrap());
    assert!(tracker.is_tainted("id2").unwrap());
    assert!(tracker.is_tainted("id3").unwrap());
}

#[test]
fn test_clear() {
    let tracker = TaintTracker::new();
    tracker.taint("id1").unwrap();
    tracker.taint("id2").unwrap();
    assert_eq!(tracker.tainted_count().unwrap(), 2);

    tracker.clear().unwrap();
    assert_eq!(tracker.tainted_count().unwrap(), 0);
}

#[test]
fn test_get_tainted() {
    let tracker = TaintTracker::new();
    tracker.taint("data1").unwrap();
    tracker.taint("data2").unwrap();
    tracker.taint("data3").unwrap();

    let tainted = tracker.get_tainted().unwrap();
    assert_eq!(tainted.len(), 3);
    assert!(tainted.contains(&"data1".to_string()));
    assert!(tainted.contains(&"data2".to_string()));
}

#[test]
fn test_clone_shares_state() {
    let tracker1 = TaintTracker::new();
    tracker1.taint("shared_id").unwrap();

    let tracker2 = tracker1.clone();
    assert!(tracker2.is_tainted("shared_id").unwrap());

    tracker2.taint("new_id").unwrap();
    assert!(tracker1.is_tainted("new_id").unwrap());
}

#[test]
fn tainting_twice_counts_once() {
    let tracker = TaintTracker::new();
    tracker.taint("x").unwrap();
    tracker.taint("x").unwrap();
    assert_eq!(tracker.tainted_count().unwrap(), 1);
}

#[test]
fn test_audit_trail_creation() {
    let trail = MerkleAuditTrail::new();
    assert_eq!(trail.entry_count().unwrap(), 0);
}

#[test]
fn test_append_action() {
    let mut trail = MerkleAuditTrail::new();
    let hash = trail.append("action1").unwrap();
    assert!(!hash.is_empty());
    assert_eq!(trail.entry_count().unwrap(), 1);
}

#[test]
fn test_verify_chain() {
    let mut trail = MerkleAuditTrail::new();
    trail.append("action1").unwrap();
    trail.append("action2").unwrap();
    trail.append("action3").unwrap();

    assert!(trail.verify_chain().unwrap());
}

#[test]
fn test_root_hash_changes() {
    let mut trail = MerkleAuditTrail::new();
    let hash1 = trail.get_root_hash().unwrap();

    trail.append("action1").unwrap();
    let hash2 = trail.get_root_hash().unwrap();

    assert_ne!(hash1, hash2);
}

#[test]
fn test_get_entries() {
    let mut trail = MerkleAuditTrail::new();
    trail.append("action1").unwrap();
    trail.append("action2").unwrap();

    let entries = trail.get_entries().unwrap();
    assert_eq!(entries.len(), 2);
    assert_eq!(entries[0].action, "action1");
    assert_eq!(entries[1].action, "action2");
}

#[test]
fn audit_entries_chain_their_hashes() {
    let mut trail = MerkleAuditTrail::new();
    let genesis = trail.get_root_hash().unwrap();
    assert_eq!(genesis, "e3b0c44298fc1c149afbf4c8996fb92427ae41e4649b934ca495991b7852b855");
    let h1 = trail.append("a").unwrap();
    let h2 = trail.append("b").unwrap();
    let entries = trail.get_entries().unwrap();
    assert_eq!(entries[0].previous_hash, genesis);
    assert_eq!(entries[0].hash, h1);
    assert_eq!(entries[1].previous_hash, h1);
    assert_eq!(entries[1].hash, h2);
    assert_eq!(trail.get_root_hash().unwrap(), h2);
    assert_eq!(h1.len(), 64);
    assert!(MerkleAuditTrail::check_entries(&entries));
    let mut tampered = entries.clone();
    tampered[0].action = "z".to_string();
    assert!(!MerkleAuditTrail::check_entries(&tampered));
}

#[test]
fn test_signer_creation() {
    let signer = ManifestSigner::new();
    let public_key = signer.public_key();
    assert!(public_key.is_ok());
}

#[test]
fn test_sign_and_verify() {
    let signer = ManifestSigner::new();
    let content = "HAND.toml manifest content";

    let signed = signer.sign(content).unwrap();
    assert_eq!(signed.content, content);
    assert!(!signed.signature.is_empty());
    assert!(signer.verify(&signed).unwrap());
}

#[test]
fn test_different_content_different_signature() {
    let signer = ManifestSigner::new();

    let sig1 = signer.sign("content1").unwrap().signature;
    let sig2 = signer.sign("content2").unwrap().signature;

    assert_ne!(sig1, sig2);
}

#[test]
fn tampered_manifest_fails_verification() {
    let signer = ManifestSigner::new();
    let mut signed = signer.sign("first text").unwrap();
    signed.content = "changed".to_string();
    assert!(!signer.verify(&signed).unwrap());
}

#[test]
fn public_key_only_signer_verifies_but_cannot_sign() {
    let signer = ManifestSigner::from_secret_bytes(&[7u8; 32]).unwrap();
    let signed = signer.sign("c").unwrap();
    let pk_hex = signer.public_key().unwrap();
    let mut pk = [0u8; 32];
    for i in 0..32 {
        pk[i] = u8::from_str_radix(&pk_hex[2 * i..2 * i + 2], 16).unwrap();
    }
    let verifier = ManifestSigner::from_public_key(&pk).unwrap();
    assert!(verifier.verify(&signed).unwrap());
    assert!(verifier.sign("c").is_err());
}

#[test]
fn test_decode_signature_no_panic() {
    let signer = ManifestSigner::new();
    let mut manifest = signer.sign("test content").unwrap();

    let malicious_sig = "a".repeat(125) + "ä" + "a";
    manifest.signature = malicious_sig;

    let verification_result = signer.verify(&manifest);
    assert!(verification_result.is_err(), "Verification should fail because of invalid signature");
}

#[test]
fn hex_encode_and_decode() {
    assert_eq!(encode(&[0x00, 0xab, 0xff]), "00abff");
    let sig = "AB".repeat(64);
    assert_eq!(decode_signature_bytes(&sig), Some([0xab; 64]));
    assert_eq!(decode_signature_bytes("zz"), None);
}

#[test]
fn test_store_and_retrieve() {
    let mut store = SecretStore::new();
    store.store("api_key", "secret123");

    assert_eq!(store.get("api_key"), Some("secret123".to_string()));
}

#[test]
fn test_has_secret() {
    let mut store = SecretStore::new();
    store.store("password", "hunter2");

    assert!(store.has("password"));
    assert!(!store.has("missing"));
}

#[test]
fn test_remove_secret() {
    let mut store = SecretStore::new();
    store.store("temp", "value");

    let removed = store.remove("temp");
    assert!(removed.is_some());
    assert!(!store.has("temp"));
}

#[test]
fn test_clear_all() {
    let mut store = SecretStore::new();
    store.store("key1", "value1");
    store.store("key2", "value2");
    store.store("key3", "value3");

    assert_eq!(store.count(), 3);
    store.clear_all();
    assert_eq!(store.count(), 0);
}

#[test]
fn test_multiple_secrets() {
    let mut store = SecretStore::new();
    store.store("db_pass", "postgres123");
    store.store("api_token", "token_xyz");
    store.store("aws_key", "AKIA...");

    assert_eq!(store.count(), 3);
    assert!(store.has("db_pass"));
    assert!(store.has("api_token"));
    assert!(store.has("aws_key"));
}

#[test]
fn storing_again_replaces() {
    let mut store = SecretStore::new();
    store.store("k", "one");
    store.store("k", "two");
    assert_eq!(store.count(), 1);
    assert_eq!(store.get("k"), Some("two".to_string()));
}

#[test]
fn audit_hash_is_sha256_of_action_then_previous() {
    let mut trail = MerkleAuditTrail::new();
    let genesis = trail.get_root_hash().unwrap();
    let h = trail.append("deploy").unwrap();
    let mut hasher = Sha256::new();
    hasher.update(b"deploy");
    hasher.update(genesis.as_bytes());
    assert_eq!(h, format!("{:x}", hasher.finalize()));
}

#[test]
fn signatures_are_upper_case_hex() {
    let signer = ManifestSigner::new();
    let signed = signer.sign("x").unwrap();
    assert_eq!(signed.signature.len(), 128);
    assert!(signed.signature.chars().all(|c| c.is_ascii_digit() || ('A'..='F').contains(&c)));
    assert_eq!(signed.public_key, signer.public_key().unwrap());
}
