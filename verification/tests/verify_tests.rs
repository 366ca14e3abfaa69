use mint_migration::model::{
    AuthKind, KeysetInfo, KeysetProofs, MeltQuote, MintInfo, MintQuote, ProofRec, ProofState,
    QuoteTtl, SigRec,
};
use mint_migration::migrate::migrate;
use mint_migration::model::SourceSnapshot;
use mint_migration::verify_blind_signatures::{verify_blind_signatures, SigVerifyError};
use mint_migration::verify_migration::{verify_migration, AuthView, StoreView, VerifyError};

/// The expected derived identifier, computed through the upstream crate
/// itself.
fn derived_y(secret: &[u8]) -> Vec<u8> {
    cdk_common::dhke::hash_to_curve(secret).expect("derivable").to_bytes().to_vec()
}

fn keyset(id: &[u8], info: &[u8]) -> KeysetInfo {
    KeysetInfo { id: id.to_vec(), info: info.to_vec() }
}

fn mk_proof(keyset_id: &[u8], secret: &[u8]) -> ProofRec {
    ProofRec { keyset_id: keyset_id.to_vec(), secret: secret.to_vec(), info: b"p".to_vec() }
}

fn sig(amount: u64, keyset_id: &[u8]) -> SigRec {
    SigRec { amount, keyset_id: keyset_id.to_vec(), value: b"sig".to_vec() }
}

fn empty_view() -> StoreView {
    StoreView {
        mint_info: MintInfo { info: b"mint".to_vec() },
        quote_ttl: QuoteTtl { mint_ttl: 300, melt_ttl: 600 },
        keysets: vec![],
        keyset_proofs: vec![],
        mint_quotes: vec![],
        melt_quotes: vec![],
        proof_states: vec![],
        auth: None,
    }
}

/// The scenario with two keysets: keyset-1 holds three proofs with no
/// recorded state and one spent proof, keyset-2 holds none.
fn scenario_views() -> (StoreView, StoreView) {
    let y4 = derived_y(b"s4");
    let mut src = empty_view();
    src.keysets = vec![keyset(b"keyset-1", b"m1"), keyset(b"keyset-2", b"m2")];
    src.keyset_proofs = vec![
        KeysetProofs {
            proofs: vec![
                mk_proof(b"keyset-1", b"s1"),
                mk_proof(b"keyset-1", b"s2"),
                mk_proof(b"keyset-1", b"s3"),
                mk_proof(b"keyset-1", b"s4"),
            ],
            states: vec![None, None, None, Some(ProofState::Spent)],
        },
        KeysetProofs { proofs: vec![], states: vec![] },
    ];
    let mut tgt = empty_view();
    tgt.keysets = vec![keyset(b"keyset-1", b"m1"), keyset(b"keyset-2", b"m2")];
    tgt.keyset_proofs = vec![
        KeysetProofs {
            proofs: vec![
                mk_proof(b"keyset-1", b"s1"),
                mk_proof(b"keyset-1", b"s2"),
                mk_proof(b"keyset-1", b"s3"),
                mk_proof(b"keyset-1", b"s4"),
            ],
            states: vec![None, None, None, Some(ProofState::Spent)],
        },
        KeysetProofs { proofs: vec![], states: vec![] },
    ];
    tgt.proof_states = vec![(y4, ProofState::Spent)];
    (src, tgt)
}

#[test]
fn verify_empty_stores_match() {
    let (src, tgt) = (empty_view(), empty_view());
    let report = verify_migration(&src, &tgt).expect("empty stores match");
    assert_eq!(report.keysets, 0);
    assert_eq!(report.total_proofs, 0);
    assert!(!report.auth_checked);
}

#[test]
fn verify_scenario_full_match() {
    let (src, tgt) = scenario_views();
    let report = verify_migration(&src, &tgt).expect("stores match");
    assert_eq!(report.keysets, 2);
    assert_eq!(report.total_proofs, 4);
    assert_eq!(report.mint_quotes, 0);
    assert_eq!(report.melt_quotes, 0);
    assert!(!report.auth_checked);
}

#[test]
fn verify_detects_mint_info_mismatch() {
    let (src, mut tgt) = scenario_views();
    tgt.mint_info = MintInfo { info: b"other".to_vec() };
    assert!(matches!(verify_migration(&src, &tgt), Err(VerifyError::MintInfoMismatch)));
}

#[test]
fn verify_detects_quote_ttl_mismatch() {
    let (src, mut tgt) = scenario_views();
    tgt.quote_ttl = QuoteTtl { mint_ttl: 1, melt_ttl: 600 };
    assert!(matches!(verify_migration(&src, &tgt), Err(VerifyError::QuoteTtlMismatch)));
}

#[test]
fn verify_detects_keyset_count_mismatch() {
    let (src, mut tgt) = scenario_views();
    tgt.keysets.pop();
    tgt.keyset_proofs.pop();
    assert!(matches!(verify_migration(&src, &tgt), Err(VerifyError::KeysetCount)));
}

#[test]
fn verify_detects_missing_proof() {
    let (src, mut tgt) = scenario_views();
    tgt.keyset_proofs[0].proofs[2] = mk_proof(b"keyset-1", b"other-secret");
    assert!(matches!(verify_migration(&src, &tgt), Err(VerifyError::ProofMissing(0, 2))));
}

#[test]
fn verify_detects_proof_count_mismatch() {
    let (src, mut tgt) = scenario_views();
    tgt.keyset_proofs[0].proofs.pop();
    tgt.keyset_proofs[0].states.pop();
    assert!(matches!(verify_migration(&src, &tgt), Err(VerifyError::ProofCount(0))));
}

#[test]
fn verify_detects_state_mismatch() {
    let (src, mut tgt) = scenario_views();
    tgt.proof_states[0].1 = ProofState::Pending;
    assert!(matches!(verify_migration(&src, &tgt), Err(VerifyError::StateMismatch(0, 3))));
}

#[test]
fn verify_detects_absent_state() {
    let (src, mut tgt) = scenario_views();
    tgt.proof_states.clear();
    assert!(matches!(verify_migration(&src, &tgt), Err(VerifyError::StateMismatch(0, 3))));
}

#[test]
fn verify_detects_missing_mint_quote() {
    let (mut src, mut tgt) = scenario_views();
    src.mint_quotes.push(MintQuote { id: b"m1".to_vec(), info: b"q".to_vec() });
    tgt.mint_quotes.push(MintQuote { id: b"m1".to_vec(), info: b"different".to_vec() });
    assert!(matches!(verify_migration(&src, &tgt), Err(VerifyError::MintQuoteMissing(0))));
}

#[test]
fn verify_detects_melt_quote_count_mismatch() {
    let (mut src, tgt) = scenario_views();
    src.melt_quotes.push(MeltQuote { id: b"q1".to_vec(), info: b"q".to_vec() });
    assert!(matches!(verify_migration(&src, &tgt), Err(VerifyError::MeltQuoteCount)));
}

#[test]
fn verify_skips_auth_when_source_has_none() {
    let (src, mut tgt) = scenario_views();
    tgt.auth = Some(AuthView { keysets: vec![], protected_endpoints: vec![] });
    let report = verify_migration(&src, &tgt).expect("auth skipped");
    assert!(!report.auth_checked);
}

#[test]
fn verify_requires_target_auth_when_source_has_one() {
    let (mut src, tgt) = scenario_views();
    src.auth = Some(AuthView { keysets: vec![], protected_endpoints: vec![] });
    assert!(matches!(verify_migration(&src, &tgt), Err(VerifyError::AuthStoreMissing)));
}

#[test]
fn verify_auth_families() {
    let (mut src, mut tgt) = scenario_views();
    src.auth = Some(AuthView {
        keysets: vec![keyset(b"ak", b"am")],
        protected_endpoints: vec![(b"/v1/mint".to_vec(), AuthKind::Blind)],
    });
    tgt.auth = Some(AuthView {
        keysets: vec![keyset(b"ak", b"am")],
        protected_endpoints: vec![(b"/v1/mint".to_vec(), AuthKind::Blind)],
    });
    let report = verify_migration(&src, &tgt).expect("auth matches");
    assert!(report.auth_checked);
}

#[test]
fn verify_detects_endpoint_mismatch() {
    let (mut src, mut tgt) = scenario_views();
    src.auth = Some(AuthView {
        keysets: vec![],
        protected_endpoints: vec![(b"/v1/mint".to_vec(), AuthKind::Blind)],
    });
    tgt.auth = Some(AuthView {
        keysets: vec![],
        protected_endpoints: vec![(b"/v1/mint".to_vec(), AuthKind::Clear)],
    });
    assert!(matches!(verify_migration(&src, &tgt), Err(VerifyError::EndpointMismatch(0))));
}

#[test]
fn blind_signature_totals_match() {
    let keysets = vec![keyset(b"k1", b"m1"), keyset(b"k2", b"m2")];
    let source = vec![vec![sig(1, b"k1"), sig(2, b"k1"), sig(4, b"k1")], vec![sig(8, b"k2")]];
    let target = vec![vec![sig(4, b"k1"), sig(2, b"k1"), sig(1, b"k1")], vec![sig(8, b"k2")]];
    let totals = verify_blind_signatures(&keysets, &source, &target).expect("sums match");
    assert_eq!(totals.total_sigs, 4);
    assert_eq!(totals.total_amount, 15);
}

#[test]
fn blind_signature_count_mismatch_detected() {
    let keysets = vec![keyset(b"k1", b"m1")];
    let source = vec![vec![sig(1, b"k1"), sig(1, b"k1")]];
    let target = vec![vec![sig(2, b"k1")]];
    let r = verify_blind_signatures(&keysets, &source, &target);
    assert!(matches!(r, Err(SigVerifyError::CountMismatch(0))));
}

#[test]
fn blind_signature_amount_mismatch_detected() {
    let keysets = vec![keyset(b"k1", b"m1")];
    let source = vec![vec![sig(3, b"k1")]];
    let target = vec![vec![sig(5, b"k1")]];
    let r = verify_blind_signatures(&keysets, &source, &target);
    assert!(matches!(r, Err(SigVerifyError::AmountMismatch(0))));
}

#[test]
fn blind_signature_empty_stores_match() {
    let keysets: Vec<KeysetInfo> = vec![];
    let source: Vec<Vec<SigRec>> = vec![];
    let target: Vec<Vec<SigRec>> = vec![];
    let totals = verify_blind_signatures(&keysets, &source, &target).expect("empty matches");
    assert_eq!(totals.total_sigs, 0);
    assert_eq!(totals.total_amount, 0);
}

#[test]
fn migrate_then_verify_round_trip() {
    let src = SourceSnapshot {
        mint_info: MintInfo { info: b"mint".to_vec() },
        quote_ttl: QuoteTtl { mint_ttl: 300, melt_ttl: 600 },
        melt_quotes: vec![MeltQuote { id: b"q1".to_vec(), info: b"melt".to_vec() }],
        melt_requests: vec![None],
        mint_quotes: vec![MintQuote { id: b"m1".to_vec(), info: b"mq".to_vec() }],
        keysets: vec![keyset(b"keyset-1", b"m1"), keyset(b"keyset-2", b"m2")],
        keyset_proofs: vec![
            KeysetProofs {
                proofs: vec![
                    mk_proof(b"keyset-1", b"s1"),
                    mk_proof(b"keyset-1", b"s2"),
                    mk_proof(b"keyset-1", b"s3"),
                    mk_proof(b"keyset-1", b"s4"),
                ],
                states: vec![None, None, None, Some(ProofState::Spent)],
            },
            KeysetProofs { proofs: vec![], states: vec![] },
        ],
        raw_signatures: vec![],
        auth: None,
    };
    let sv = {
        let mut v = empty_view();
        v.keysets = src.keysets.iter().map(|k| keyset(&k.id, &k.info)).collect();
        v.keyset_proofs = src
            .keyset_proofs
            .iter()
            .map(|kp| KeysetProofs {
                proofs: kp.proofs.iter().map(|p| mk_proof(&p.keyset_id, &p.secret)).collect(),
                states: kp.states.clone(),
            })
            .collect();
        v.mint_quotes = vec![MintQuote { id: b"m1".to_vec(), info: b"mq".to_vec() }];
        v.melt_quotes = vec![MeltQuote { id: b"q1".to_vec(), info: b"melt".to_vec() }];
        v
    };
    let plan = migrate(false, &src).expect("migrates");
    let mut tv = empty_view();
    tv.keysets = plan.keysets;
    tv.proof_states = plan
        .keyset_writes
        .iter()
        .flat_map(|w| {
            w.spent_ys
                .iter()
                .map(|y| (y.clone(), ProofState::Spent))
                .chain(w.pending_ys.iter().map(|y| (y.clone(), ProofState::Pending)))
                .collect::<Vec<_>>()
        })
        .collect();
    tv.keyset_proofs = plan
        .keyset_writes
        .into_iter()
        .map(|w| KeysetProofs { proofs: w.proofs, states: vec![] })
        .collect();
    tv.mint_quotes = plan.mint_quotes;
    tv.melt_quotes = plan.melt_quotes;
    let report = verify_migration(&sv, &tv).expect("migrated store reconciles");
    assert_eq!(report.keysets, 2);
    assert_eq!(report.total_proofs, 4);
    assert_eq!(report.mint_quotes, 1);
    assert_eq!(report.melt_quotes, 1);
}
