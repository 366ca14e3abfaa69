use mint_migration::codec::{decode_entry, DecodeError};
use mint_migration::migrate::{migrate, MigrateError};
use mint_migration::model::{
    AuthKind, AuthSnapshot, KeysetInfo, KeysetProofs, MeltQuote, MeltRequest, MintInfo, MintQuote,
    ProofRec, ProofState, QuoteTtl, RawEntry, SourceSnapshot,
};

const GEN_HEX: &str = "0279be667ef9dcbbac55a06295ce870b07029bfcdb2dce28d959f2815b16f81798";
const KEYSET_HEX: &str = "009a1f293253e41e";

fn hex_bytes(s: &str) -> Vec<u8> {
    let chars: Vec<u32> = s.chars().map(|c| c.to_digit(16).expect("hex digit")).collect();
    chars.chunks(2).map(|p| (p[0] * 16 + p[1]) as u8).collect()
}

fn sig_json(amount: u64) -> Vec<u8> {
    format!("{{\"amount\":{},\"id\":\"{}\",\"C_\":\"{}\"}}", amount, KEYSET_HEX, GEN_HEX)
        .into_bytes()
}

fn auth_proof_json(secret: &str) -> Vec<u8> {
    format!(
        "{{\"id\":\"{}\",\"secret\":\"{}\",\"C\":\"{}\",\"dleq\":null}}",
        KEYSET_HEX, secret, GEN_HEX
    )
    .into_bytes()
}

/// The expected derived identifier, computed through the upstream crate
/// itself so the library's derivation is checked against it.
fn derived_y(secret: &[u8]) -> Vec<u8> {
    cdk_common::dhke::hash_to_curve(secret).expect("derivable").to_bytes().to_vec()
}

fn keyset(id: &[u8], info: &[u8]) -> KeysetInfo {
    KeysetInfo { id: id.to_vec(), info: info.to_vec() }
}

fn mk_proof(keyset_id: &[u8], secret: &[u8]) -> ProofRec {
    ProofRec { keyset_id: keyset_id.to_vec(), secret: secret.to_vec(), info: b"p".to_vec() }
}

fn empty_source() -> SourceSnapshot {
    SourceSnapshot {
        mint_info: MintInfo { info: b"mint".to_vec() },
        quote_ttl: QuoteTtl { mint_ttl: 300, melt_ttl: 600 },
        melt_quotes: vec![],
        melt_requests: vec![],
        mint_quotes: vec![],
        keysets: vec![],
        keyset_proofs: vec![],
        raw_signatures: vec![],
        auth: None,
    }
}

#[test]
fn migrate_empty_source() {
    let src = empty_source();
    let plan = migrate(false, &src).expect("empty source migrates");
    assert_eq!(plan.mint_info.info, b"mint".to_vec());
    assert_eq!(plan.quote_ttl.mint_ttl, 300);
    assert_eq!(plan.quote_ttl.melt_ttl, 600);
    assert_eq!(plan.keysets.len(), 0);
    assert_eq!(plan.signatures.len(), 0);
    assert!(plan.auth.is_none());
}

#[test]
fn migrate_refuses_existing_target() {
    let mut src = empty_source();
    src.keysets.push(keyset(b"k1", b"meta"));
    src.keyset_proofs.push(KeysetProofs { proofs: vec![], states: vec![] });
    let r = migrate(true, &src);
    assert!(matches!(r, Err(MigrateError::TargetExists)));
}

#[test]
fn migrate_two_keysets_with_states() {
    let mut src = empty_source();
    src.keysets.push(keyset(b"keyset-1", b"m1"));
    src.keysets.push(keyset(b"keyset-2", b"m2"));
    src.keyset_proofs.push(KeysetProofs {
        proofs: vec![
            mk_proof(b"keyset-1", b"s1"),
            mk_proof(b"keyset-1", b"s2"),
            mk_proof(b"keyset-1", b"s3"),
            mk_proof(b"keyset-1", b"s4"),
        ],
        states: vec![None, None, None, Some(ProofState::Spent)],
    });
    src.keyset_proofs.push(KeysetProofs { proofs: vec![], states: vec![] });
    let plan = migrate(false, &src).expect("scenario migrates");
    assert_eq!(plan.keysets.len(), 2);
    assert_eq!(plan.keyset_writes.len(), 2);
    assert_eq!(plan.keyset_writes[0].proofs.len(), 4);
    assert_eq!(plan.keyset_writes[0].spent_ys.len(), 1);
    assert_eq!(plan.keyset_writes[0].pending_ys.len(), 0);
    assert_eq!(plan.keyset_writes[1].proofs.len(), 0);
    let y4 = derived_y(b"s4");
    assert_eq!(plan.keyset_writes[0].spent_ys[0], y4);
}

#[test]
fn migrate_pending_state_goes_to_pending_bucket() {
    let mut src = empty_source();
    src.keysets.push(keyset(b"k", b"m"));
    src.keyset_proofs.push(KeysetProofs {
        proofs: vec![mk_proof(b"k", b"sp"), mk_proof(b"k", b"pp"), mk_proof(b"k", b"rr")],
        states: vec![
            Some(ProofState::Spent),
            Some(ProofState::Pending),
            Some(ProofState::Reserved),
        ],
    });
    let plan = migrate(false, &src).expect("migrates");
    assert_eq!(plan.keyset_writes[0].spent_ys.len(), 1);
    assert_eq!(plan.keyset_writes[0].pending_ys.len(), 1);
    assert_eq!(plan.keyset_writes[0].spent_ys[0], derived_y(b"sp"));
    assert_eq!(plan.keyset_writes[0].pending_ys[0], derived_y(b"pp"));
}

#[test]
fn melt_quote_without_request_still_migrates() {
    let mut src = empty_source();
    src.melt_quotes.push(MeltQuote { id: b"q1".to_vec(), info: b"melt".to_vec() });
    src.melt_requests.push(None);
    let plan = migrate(false, &src).expect("quote migrates");
    assert_eq!(plan.melt_quotes.len(), 1);
    assert_eq!(plan.melt_quotes[0].id, b"q1".to_vec());
    assert_eq!(plan.melt_requests.len(), 0);
}

#[test]
fn melt_quote_with_request_pairs_it() {
    let mut src = empty_source();
    src.melt_quotes.push(MeltQuote { id: b"q1".to_vec(), info: b"melt".to_vec() });
    src.melt_requests.push(Some(MeltRequest {
        request: b"req".to_vec(),
        payment_key: b"pay".to_vec(),
    }));
    src.mint_quotes.push(MintQuote { id: b"m1".to_vec(), info: b"mint-quote".to_vec() });
    let plan = migrate(false, &src).expect("quotes migrate");
    assert_eq!(plan.melt_requests.len(), 1);
    assert_eq!(plan.melt_requests[0].request, b"req".to_vec());
    assert_eq!(plan.melt_requests[0].payment_key, b"pay".to_vec());
    assert_eq!(plan.mint_quotes.len(), 1);
}

#[test]
fn unparsable_signature_aborts_migration() {
    let mut src = empty_source();
    src.raw_signatures.push(RawEntry { key: hex_bytes(GEN_HEX), value: b"not json".to_vec() });
    let r = migrate(false, &src);
    assert!(matches!(r, Err(MigrateError::SignatureDecode)));
}

#[test]
fn invalid_signature_key_aborts_migration() {
    let mut src = empty_source();
    src.raw_signatures.push(RawEntry { key: vec![0u8; 33], value: sig_json(4) });
    let r = migrate(false, &src);
    assert!(matches!(r, Err(MigrateError::PublicKeyDecode)));
}

#[test]
fn valid_signature_decodes_with_fields() {
    let mut src = empty_source();
    src.raw_signatures.push(RawEntry { key: hex_bytes(GEN_HEX), value: sig_json(8) });
    let plan = migrate(false, &src).expect("signature migrates");
    assert_eq!(plan.messages.len(), 1);
    assert_eq!(plan.messages[0], hex_bytes(GEN_HEX));
    assert_eq!(plan.signatures.len(), 1);
    assert_eq!(plan.signatures[0].amount, 8);
    assert_eq!(plan.signatures[0].keyset_id, hex_bytes(KEYSET_HEX));
    assert_eq!(plan.signatures[0].value, sig_json(8));
}

#[test]
fn proofs_states_length_mismatch_is_fatal() {
    let mut src = empty_source();
    src.keysets.push(keyset(b"k", b"m"));
    src.keyset_proofs.push(KeysetProofs { proofs: vec![mk_proof(b"k", b"s")], states: vec![] });
    let r = migrate(false, &src);
    assert!(matches!(r, Err(MigrateError::LengthMismatch)));
}

#[test]
fn absent_auth_store_is_skipped() {
    let src = empty_source();
    let plan = migrate(false, &src).expect("migrates");
    assert!(plan.auth.is_none());
}

#[test]
fn auth_store_migrates_all_families() {
    let mut src = empty_source();
    src.auth = Some(AuthSnapshot {
        raw_signatures: vec![RawEntry { key: hex_bytes(GEN_HEX), value: sig_json(1) }],
        raw_proofs: vec![RawEntry {
            key: hex_bytes(GEN_HEX),
            value: auth_proof_json("auth-secret-01"),
        }],
        states: vec![Some(ProofState::Spent)],
        keysets: vec![keyset(b"ak", b"am")],
        protected_endpoints: vec![
            (b"/v1/mint".to_vec(), Some(AuthKind::Blind)),
            (b"/v1/info".to_vec(), None),
        ],
    });
    let plan = migrate(false, &src).expect("auth migrates");
    let auth = plan.auth.expect("auth plan present");
    assert_eq!(auth.signatures.len(), 1);
    assert_eq!(auth.signatures[0].amount, 1);
    assert_eq!(auth.proofs.len(), 1);
    assert_eq!(auth.proofs[0].secret, b"auth-secret-01".to_vec());
    assert_eq!(auth.state_updates.len(), 1);
    let y = derived_y(b"auth-secret-01");
    assert_eq!(auth.state_updates[0].0, y);
    assert_eq!(auth.state_updates[0].1, ProofState::Spent);
    assert_eq!(auth.keysets.len(), 1);
    assert_eq!(auth.protected_endpoints.len(), 1);
    assert_eq!(auth.protected_endpoints[0].0, b"/v1/mint".to_vec());
    assert_eq!(auth.protected_endpoints[0].1, AuthKind::Blind);
}

#[test]
fn unparsable_auth_proof_aborts_migration() {
    let mut src = empty_source();
    src.auth = Some(AuthSnapshot {
        raw_signatures: vec![],
        raw_proofs: vec![RawEntry { key: hex_bytes(GEN_HEX), value: b"{broken".to_vec() }],
        states: vec![None],
        keysets: vec![],
        protected_endpoints: vec![],
    });
    let r = migrate(false, &src);
    assert!(matches!(r, Err(MigrateError::AuthProofDecode)));
}

#[test]
fn auth_length_mismatch_is_fatal() {
    let mut src = empty_source();
    src.auth = Some(AuthSnapshot {
        raw_signatures: vec![],
        raw_proofs: vec![RawEntry {
            key: hex_bytes(GEN_HEX),
            value: auth_proof_json("auth-secret-02"),
        }],
        states: vec![],
        keysets: vec![],
        protected_endpoints: vec![],
    });
    let r = migrate(false, &src);
    assert!(matches!(r, Err(MigrateError::LengthMismatch)));
}

#[test]
fn decode_entry_is_deterministic() {
    let e = RawEntry { key: hex_bytes(GEN_HEX), value: sig_json(16) };
    let r1 = decode_entry(&e).expect("decodes");
    let r2 = decode_entry(&e).expect("decodes");
    assert_eq!(r1.0, r2.0);
    assert_eq!(r1.1.amount, r2.1.amount);
    assert_eq!(r1.1.keyset_id, r2.1.keyset_id);
    assert_eq!(r1.1.value, r2.1.value);
}

#[test]
fn decode_entry_rejects_bad_value() {
    let e = RawEntry { key: hex_bytes(GEN_HEX), value: b"[1,2".to_vec() };
    assert!(matches!(decode_entry(&e), Err(DecodeError::Signature)));
    let e2 = RawEntry { key: vec![7u8; 33], value: sig_json(2) };
    assert!(matches!(decode_entry(&e2), Err(DecodeError::PublicKey)));
}

#[test]
fn derived_identifier_depends_on_secret() {
    let mut src = empty_source();
    src.keysets.push(keyset(b"k", b"m"));
    src.keyset_proofs.push(KeysetProofs {
        proofs: vec![mk_proof(b"k", b"secret-a"), mk_proof(b"k", b"secret-b")],
        states: vec![Some(ProofState::Spent), Some(ProofState::Spent)],
    });
    let plan = migrate(false, &src).expect("migrates");
    let spent = &plan.keyset_writes[0].spent_ys;
    assert_eq!(spent.len(), 2);
    assert_eq!(spent[0], derived_y(b"secret-a"));
    assert_eq!(spent[1], derived_y(b"secret-b"));
    assert_eq!(spent[0].len(), 33);
    assert_ne!(spent[0], spent[1]);
    assert_ne!(spent[0], b"secret-a".to_vec());
}
