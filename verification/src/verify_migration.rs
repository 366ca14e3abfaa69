//! Reconciliation of the whole migration: re-reads of both stores are
//! compared entity family by entity family, and the first mismatch found is
//! reported with the family and key at fault.

use vstd::prelude::*;

use crate::bytes::bytes_eq;
use crate::codec::{derive_y, y_of};
use crate::model::{
    ks_eq, ks_eqv, melt_quote_eq, melt_quote_eqv, mint_info_eqv, mint_quote_eq, mint_quote_eqv,
    proof_eq, proof_eqv, AuthKind, KeysetInfo, KeysetProofs, MeltQuote, MintInfo, MintQuote,
    ProofRec, ProofState, QuoteTtl,
};

verus! {

/// A store's contents as the verifier re-reads them: one such view per
/// store, populated through the same typed accessors migration used.
#[derive(Debug)]
pub struct StoreView {
    pub mint_info: MintInfo,
    pub quote_ttl: QuoteTtl,
    pub keysets: Vec<KeysetInfo>,
    /// Proofs and states per keyset, parallel to `keysets`.
    pub keyset_proofs: Vec<KeysetProofs>,
    pub mint_quotes: Vec<MintQuote>,
    pub melt_quotes: Vec<MeltQuote>,
    /// Recorded spend states keyed by derived proof identifier.
    pub proof_states: Vec<(Vec<u8>, ProofState)>,
    pub auth: Option<AuthView>,
}

/// The auth sub-store's contents as the verifier re-reads them.
#[derive(Debug)]
pub struct AuthView {
    pub keysets: Vec<KeysetInfo>,
    pub protected_endpoints: Vec<(Vec<u8>, AuthKind)>,
}

impl StoreView {
    /// The per-keyset lists are parallel to the keyset list.
    pub open spec fn wf(&self) -> bool {
        self.keyset_proofs@.len() == self.keysets@.len()
    }

    /// Keysets are keyed by identifier, so the identifiers are distinct.
    pub open spec fn keyset_ids_unique(&self) -> bool {
        forall|i: int, j: int|
            0 <= i < j < self.keysets@.len() ==> self.keysets@[i].id@ != self.keysets@[j].id@
    }
}

/// The state table is keyed by identifier, so the keys are distinct.
pub open spec fn state_keys_unique(s: Seq<(Vec<u8>, ProofState)>) -> bool {
    forall|i: int, j: int| 0 <= i < j < s.len() ==> s[i].0@ != s[j].0@
}

/// The endpoint policy table is keyed by endpoint, so the keys are
/// distinct.
pub open spec fn ep_keys_unique(s: Seq<(Vec<u8>, AuthKind)>) -> bool {
    forall|i: int, j: int| 0 <= i < j < s.len() ==> s[i].0@ != s[j].0@
}

/// Membership of a keyset, by value.
pub open spec fn ks_in(s: Seq<KeysetInfo>, k: KeysetInfo) -> bool {
    exists|i: int| 0 <= i < s.len() && ks_eqv(s[i], k)
}

/// Membership of a proof, by value.
pub open spec fn proof_in(s: Seq<ProofRec>, p: ProofRec) -> bool {
    exists|i: int| 0 <= i < s.len() && proof_eqv(s[i], p)
}

/// Membership of a mint quote, by value.
pub open spec fn mint_quote_in(s: Seq<MintQuote>, q: MintQuote) -> bool {
    exists|i: int| 0 <= i < s.len() && mint_quote_eqv(s[i], q)
}

/// Membership of a melt quote, by value.
pub open spec fn melt_quote_in(s: Seq<MeltQuote>, q: MeltQuote) -> bool {
    exists|i: int| 0 <= i < s.len() && melt_quote_eqv(s[i], q)
}

/// The state table records the given state for the given identifier.
pub open spec fn has_state(s: Seq<(Vec<u8>, ProofState)>, y: Seq<u8>, st: ProofState) -> bool {
    exists|i: int| 0 <= i < s.len() && s[i].0@ == y && s[i].1 == st
}

/// An endpoint policy is present with the given authorization.
pub open spec fn ep_in(s: Seq<(Vec<u8>, AuthKind)>, ep: Seq<u8>, kind: AuthKind) -> bool {
    exists|k: int| 0 <= k < s.len() && s[k].0@ == ep && s[k].1 == kind
}

/// Equal cardinality, and every keyset of `a` present in `b` by value.
pub open spec fn keysets_match(a: Seq<KeysetInfo>, b: Seq<KeysetInfo>) -> bool {
    a.len() == b.len() && forall|i: int| 0 <= i < a.len() ==> ks_in(b, a[i])
}

/// Equal count, and every quote of `a` present in `b` by value.
pub open spec fn mint_quotes_match(a: Seq<MintQuote>, b: Seq<MintQuote>) -> bool {
    a.len() == b.len() && forall|i: int| 0 <= i < a.len() ==> mint_quote_in(b, a[i])
}

/// Equal count, and every quote of `a` present in `b` by value.
pub open spec fn melt_quotes_match(a: Seq<MeltQuote>, b: Seq<MeltQuote>) -> bool {
    a.len() == b.len() && forall|i: int| 0 <= i < a.len() ==> melt_quote_in(b, a[i])
}

/// A source keyset's proofs against the target's list for the same keyset:
/// equal count, every source proof present by value.
pub open spec fn keyset_proofs_ok(sp: KeysetProofs, tp: Seq<ProofRec>) -> bool {
    &&& sp.proofs@.len() == tp.len()
    &&& forall|j: int| 0 <= j < sp.proofs@.len() ==> proof_in(tp, sp.proofs@[j])
}

/// The proofs check for the source keyset at index `i`: whichever target
/// keyset carries the same identifier must hold matching proofs, and when
/// none does the source keyset must be empty (the target store serves an
/// empty list for an unknown keyset).
pub open spec fn family_checked(src: StoreView, tgt: StoreView, i: int) -> bool {
    &&& forall|k: int|
        0 <= k < tgt.keysets@.len() && tgt.keysets@[k].id@ == src.keysets@[i].id@
            ==> keyset_proofs_ok(src.keyset_proofs@[i], tgt.keyset_proofs@[k].proofs@)
    &&& ((forall|k: int| 0 <= k < tgt.keysets@.len() ==> tgt.keysets@[k].id@ != src.keysets@[i].id@)
        ==> src.keyset_proofs@[i].proofs@.len() == 0)
}

/// Proof counts and membership agree for every source keyset.
pub open spec fn proofs_families_ok(src: StoreView, tgt: StoreView) -> bool {
    forall|i: int| 0 <= i < src.keysets@.len() ==> family_checked(src, tgt, i)
}

/// The states check for the source keyset at index `i`: every source proof
/// carrying a state has a derivable identifier, and the target records that
/// same state for it.
pub open spec fn states_checked(src: StoreView, tgt: StoreView, i: int) -> bool {
    forall|j: int|
        0 <= j < src.keyset_proofs@[i].proofs@.len() && j < src.keyset_proofs@[i].states@.len()
            && src.keyset_proofs@[i].states@[j] is Some ==> y_of(
            src.keyset_proofs@[i].proofs@[j].secret@,
        ) is Some && has_state(
            tgt.proof_states@,
            y_of(src.keyset_proofs@[i].proofs@[j].secret@)->0,
            src.keyset_proofs@[i].states@[j]->0,
        )
}

/// Recorded states agree for every source keyset.
pub open spec fn states_ok(src: StoreView, tgt: StoreView) -> bool {
    forall|i: int| 0 <= i < src.keysets@.len() ==> states_checked(src, tgt, i)
}

/// The auth checks: run only when the source has an auth store, in which
/// case the target must have one whose keysets and endpoint policies match.
pub open spec fn auth_views_match(src: StoreView, tgt: StoreView) -> bool {
    src.auth is Some ==> tgt.auth is Some && {
        let sa = src.auth->0;
        let ta = tgt.auth->0;
        &&& keysets_match(sa.keysets@, ta.keysets@)
        &&& sa.protected_endpoints@.len() == ta.protected_endpoints@.len()
        &&& forall|i: int|
            0 <= i < sa.protected_endpoints@.len() ==> ep_in(
                ta.protected_endpoints@,
                sa.protected_endpoints@[i].0@,
                sa.protected_endpoints@[i].1,
            )
    }
}

/// The two stores describe the same logical state.
pub open spec fn verify_ok(src: StoreView, tgt: StoreView) -> bool {
    &&& mint_info_eqv(src.mint_info, tgt.mint_info)
    &&& src.quote_ttl == tgt.quote_ttl
    &&& keysets_match(src.keysets@, tgt.keysets@)
    &&& proofs_families_ok(src, tgt)
    &&& states_ok(src, tgt)
    &&& mint_quotes_match(src.mint_quotes@, tgt.mint_quotes@)
    &&& melt_quotes_match(src.melt_quotes@, tgt.melt_quotes@)
    &&& auth_views_match(src, tgt)
}

/// Which check failed first; indices point into the source view's lists.
#[derive(Clone, Copy, Debug, PartialEq, Eq, Structural)]
pub enum VerifyError {
    MintInfoMismatch,
    QuoteTtlMismatch,
    KeysetCount,
    KeysetMissing(usize),
    ProofCount(usize),
    ProofMissing(usize, usize),
    YDerivation(usize, usize),
    StateMismatch(usize, usize),
    MintQuoteCount,
    MintQuoteMissing(usize),
    MeltQuoteCount,
    MeltQuoteMissing(usize),
    AuthStoreMissing,
    AuthKeysetCount,
    AuthKeysetMissing(usize),
    EndpointCount,
    EndpointMismatch(usize),
}

/// The verifier's success summary: the counts it confirmed.
#[derive(Clone, Copy, Debug)]
pub struct VerifyReport {
    pub keysets: u64,
    pub total_proofs: u64,
    pub mint_quotes: u64,
    pub melt_quotes: u64,
    pub auth_checked: bool,
}

/// Decides `ks_in`.
fn ks_contains(s: &Vec<KeysetInfo>, k: &KeysetInfo) -> (r: bool)
    ensures
        r == ks_in(s@, *k),
{
    let mut i: usize = 0;
    while i < s.len()
        invariant
            i <= s@.len(),
            forall|j: int| 0 <= j < i ==> !ks_eqv(s@[j], *k),
        decreases s@.len() - i,
    {
        if ks_eq(&s[i], k) {
            return true;
        }
        i += 1;
    }
    false
}

/// Decides `proof_in`.
fn proof_contains(s: &Vec<ProofRec>, p: &ProofRec) -> (r: bool)
    ensures
        r == proof_in(s@, *p),
{
    let mut i: usize = 0;
    while i < s.len()
        invariant
            i <= s@.len(),
            forall|j: int| 0 <= j < i ==> !proof_eqv(s@[j], *p),
        decreases s@.len() - i,
    {
        if proof_eq(&s[i], p) {
            return true;
        }
        i += 1;
    }
    false
}

/// Decides `mint_quote_in`.
fn mint_quote_contains(s: &Vec<MintQuote>, q: &MintQuote) -> (r: bool)
    ensures
        r == mint_quote_in(s@, *q),
{
    let mut i: usize = 0;
    while i < s.len()
        invariant
            i <= s@.len(),
            forall|j: int| 0 <= j < i ==> !mint_quote_eqv(s@[j], *q),
        decreases s@.len() - i,
    {
        if mint_quote_eq(&s[i], q) {
            return true;
        }
        i += 1;
    }
    false
}

/// Decides `melt_quote_in`.
fn melt_quote_contains(s: &Vec<MeltQuote>, q: &MeltQuote) -> (r: bool)
    ensures
        r == melt_quote_in(s@, *q),
{
    let mut i: usize = 0;
    while i < s.len()
        invariant
            i <= s@.len(),
            forall|j: int| 0 <= j < i ==> !melt_quote_eqv(s@[j], *q),
        decreases s@.len() - i,
    {
        if melt_quote_eq(&s[i], q) {
            return true;
        }
        i += 1;
    }
    false
}

/// Looks up the recorded state for an identifier.
fn state_for(s: &Vec<(Vec<u8>, ProofState)>, y: &Vec<u8>) -> (r: Option<ProofState>)
    ensures
        r matches Some(st) ==> exists|i: int| 0 <= i < s@.len() && s@[i].0@ == y@ && s@[i].1 == st,
        r is None ==> forall|i: int| 0 <= i < s@.len() ==> s@[i].0@ != y@,
{
    let mut i: usize = 0;
    while i < s.len()
        invariant
            i <= s@.len(),
            forall|j: int| 0 <= j < i ==> s@[j].0@ != y@,
        decreases s@.len() - i,
    {
        if bytes_eq(&s[i].0, y) {
            return Some(s[i].1);
        }
        i += 1;
    }
    None
}

/// Finds the index of the keyset with the given identifier.
fn find_keyset_index(v: &Vec<KeysetInfo>, id: &Vec<u8>) -> (r: Option<usize>)
    ensures
        r matches Some(k) ==> k < v@.len() && v@[k as int].id@ == id@,
        r is None ==> forall|j: int| 0 <= j < v@.len() ==> v@[j].id@ != id@,
{
    let mut i: usize = 0;
    while i < v.len()
        invariant
            i <= v@.len(),
            forall|j: int| 0 <= j < i ==> v@[j].id@ != id@,
        decreases v@.len() - i,
    {
        if bytes_eq(&v[i].id, id) {
            return Some(i);
        }
        i += 1;
    }
    None
}

/// Looks up the authorization recorded for an endpoint.
fn ep_for(s: &Vec<(Vec<u8>, AuthKind)>, ep: &Vec<u8>) -> (r: Option<AuthKind>)
    ensures
        r matches Some(kind) ==> exists|k: int|
            0 <= k < s@.len() && s@[k].0@ == ep@ && s@[k].1 == kind,
        r is None ==> forall|k: int| 0 <= k < s@.len() ==> s@[k].0@ != ep@,
{
    let mut i: usize = 0;
    while i < s.len()
        invariant
            i <= s@.len(),
            forall|j: int| 0 <= j < i ==> s@[j].0@ != ep@,
        decreases s@.len() - i,
    {
        if bytes_eq(&s[i].0, ep) {
            return Some(s[i].1);
        }
        i += 1;
    }
    None
}

/// Saturating count accumulation; the counts are informational only.
fn add_count(total: u64, n: usize) -> (r: u64) {
    let n64 = n as u64;
    if total <= u64::MAX - n64 {
        total + n64
    } else {
        u64::MAX
    }
}

/// Re-reads of both stores compared check by check, in the order migration
/// wrote them: singleton configuration, keysets, proofs with their recorded
/// states, quotes, and the auth sub-store when the source has one. Returns
/// the confirmed counts, or the first mismatch found.
pub fn verify_migration(src: &StoreView, tgt: &StoreView) -> (r: Result<VerifyReport, VerifyError>)
    requires
        src.wf(),
        tgt.wf(),
        tgt.keyset_ids_unique(),
        state_keys_unique(tgt.proof_states@),
        tgt.auth is Some ==> ep_keys_unique(tgt.auth->0.protected_endpoints@),
    ensures
        r is Ok <==> verify_ok(*src, *tgt),
        r is Ok ==> r->Ok_0.auth_checked == (src.auth is Some),
        r == Err::<VerifyReport, VerifyError>(VerifyError::MintInfoMismatch) ==> !mint_info_eqv(
            src.mint_info,
            tgt.mint_info,
        ),
        r == Err::<VerifyReport, VerifyError>(VerifyError::QuoteTtlMismatch) ==> src.quote_ttl
            != tgt.quote_ttl,
        r == Err::<VerifyReport, VerifyError>(VerifyError::KeysetCount) ==> src.keysets@.len()
            != tgt.keysets@.len(),
        r matches Err(VerifyError::KeysetMissing(i)) ==> i < src.keysets@.len() && !ks_in(
            tgt.keysets@,
            src.keysets@[i as int],
        ),
        (r matches Err(VerifyError::ProofCount(i)) || r matches Err(
            VerifyError::ProofMissing(i, _),
        )) ==> !proofs_families_ok(*src, *tgt),
        (r matches Err(VerifyError::YDerivation(i, _)) || r matches Err(
            VerifyError::StateMismatch(i, _),
        )) ==> !states_ok(*src, *tgt),
        r == Err::<VerifyReport, VerifyError>(VerifyError::MintQuoteCount) ==> src.mint_quotes@.len()
            != tgt.mint_quotes@.len(),
        r matches Err(VerifyError::MintQuoteMissing(i)) ==> i < src.mint_quotes@.len()
            && !mint_quote_in(tgt.mint_quotes@, src.mint_quotes@[i as int]),
        r == Err::<VerifyReport, VerifyError>(VerifyError::MeltQuoteCount) ==> src.melt_quotes@.len()
            != tgt.melt_quotes@.len(),
        r matches Err(VerifyError::MeltQuoteMissing(i)) ==> i < src.melt_quotes@.len()
            && !melt_quote_in(tgt.melt_quotes@, src.melt_quotes@[i as int]),
        r == Err::<VerifyReport, VerifyError>(VerifyError::AuthStoreMissing) ==> src.auth is Some
            && tgt.auth is None,
        (r == Err::<VerifyReport, VerifyError>(VerifyError::AuthKeysetCount) || r matches Err(
            VerifyError::AuthKeysetMissing(_),
        ) || r == Err::<VerifyReport, VerifyError>(VerifyError::EndpointCount) || r matches Err(
            VerifyError::EndpointMismatch(_),
        )) ==> !auth_views_match(*src, *tgt),
{
    // Singleton configuration.
    if !bytes_eq(&src.mint_info.info, &tgt.mint_info.info) {
        return Err(VerifyError::MintInfoMismatch);
    }
    if src.quote_ttl != tgt.quote_ttl {
        return Err(VerifyError::QuoteTtlMismatch);
    }
    // Keysets: cardinality, then membership.
    if src.keysets.len() != tgt.keysets.len() {
        return Err(VerifyError::KeysetCount);
    }
    let mut i: usize = 0;
    while i < src.keysets.len()
        invariant
            i <= src.keysets@.len(),
            forall|k: int| 0 <= k < i ==> ks_in(tgt.keysets@, src.keysets@[k]),
        decreases src.keysets@.len() - i,
    {
        if !ks_contains(&tgt.keysets, &src.keysets[i]) {
            return Err(VerifyError::KeysetMissing(i));
        }
        i += 1;
    }
    // Proofs and their recorded states, per source keyset.
    let mut total_proofs: u64 = 0;
    let mut i: usize = 0;
    while i < src.keysets.len()
        invariant
            src.wf(),
            tgt.wf(),
            tgt.keyset_ids_unique(),
            state_keys_unique(tgt.proof_states@),
            i <= src.keysets@.len(),
            forall|k: int| 0 <= k < i ==> family_checked(*src, *tgt, k),
            forall|k: int| 0 <= k < i ==> states_checked(*src, *tgt, k),
        decreases src.keysets@.len() - i,
    {
        let sp = &src.keyset_proofs[i];
        let found = find_keyset_index(&tgt.keysets, &src.keysets[i].id);
        match found {
            None => {
                if sp.proofs.len() != 0 {
                    proof {
                        let gi = i as int;
                        assert(forall|k: int|
                            0 <= k < tgt.keysets@.len() ==> tgt.keysets@[k].id@
                                != src.keysets@[gi].id@);
                        assert(src.keyset_proofs@[gi].proofs@.len() != 0);
                        assert(!family_checked(*src, *tgt, gi));
                    }
                    return Err(VerifyError::ProofCount(i));
                }
                proof {
                    assert(family_checked(*src, *tgt, i as int));
                    assert(states_checked(*src, *tgt, i as int));
                }
            },
            Some(k0) => {
                let tp = &tgt.keyset_proofs[k0];
                if sp.proofs.len() != tp.proofs.len() {
                    proof {
                        assert(!keyset_proofs_ok(
                            src.keyset_proofs@[i as int],
                            tgt.keyset_proofs@[k0 as int].proofs@,
                        ));
                        assert(!family_checked(*src, *tgt, i as int));
                    }
                    return Err(VerifyError::ProofCount(i));
                }
                let mut j: usize = 0;
                while j < sp.proofs.len()
                    invariant
                        src.wf(),
                        tgt.wf(),
                        state_keys_unique(tgt.proof_states@),
                        i < src.keysets@.len(),
                        k0 < tgt.keyset_proofs@.len(),
                        tgt.keysets@[k0 as int].id@ == src.keysets@[i as int].id@,
                        sp == &src.keyset_proofs@[i as int],
                        tp == &tgt.keyset_proofs@[k0 as int],
                        j <= sp.proofs@.len(),
                        forall|j2: int| 0 <= j2 < j ==> proof_in(tp.proofs@, sp.proofs@[j2]),
                        forall|j2: int|
                            0 <= j2 < j && j2 < sp.states@.len() && sp.states@[j2] is Some ==> y_of(
                                sp.proofs@[j2].secret@,
                            ) is Some && has_state(
                                tgt.proof_states@,
                                y_of(sp.proofs@[j2].secret@)->0,
                                sp.states@[j2]->0,
                            ),
                    decreases sp.proofs@.len() - j,
                {
                    if !proof_contains(&tp.proofs, &sp.proofs[j]) {
                        proof {
                            assert(!keyset_proofs_ok(
                                src.keyset_proofs@[i as int],
                                tgt.keyset_proofs@[k0 as int].proofs@,
                            ));
                            assert(!family_checked(*src, *tgt, i as int));
                        }
                        return Err(VerifyError::ProofMissing(i, j));
                    }
                    if j < sp.states.len() {
                        match &sp.states[j] {
                            Some(st) => {
                                let y = match derive_y(&sp.proofs[j].secret) {
                                    Some(y) => y,
                                    None => {
                                        proof {
                                            assert(!states_checked(*src, *tgt, i as int));
                                        }
                                        return Err(VerifyError::YDerivation(i, j));
                                    },
                                };
                                let found_state = state_for(&tgt.proof_states, &y);
                                let state_matches = match found_state {
                                    Some(ts) => ts == *st,
                                    None => false,
                                };
                                if !state_matches {
                                    proof {
                                        if has_state(tgt.proof_states@, y@, *st) {
                                            let w = choose|w: int|
                                                0 <= w < tgt.proof_states@.len()
                                                    && tgt.proof_states@[w].0@ == y@
                                                    && tgt.proof_states@[w].1 == *st;
                                            if found_state is Some {
                                                let v = choose|v: int|
                                                    0 <= v < tgt.proof_states@.len()
                                                        && tgt.proof_states@[v].0@ == y@
                                                        && tgt.proof_states@[v].1 == found_state->0;
                                                assert(v == w);
                                            }
                                        }
                                        assert(!has_state(tgt.proof_states@, y@, *st));
                                        assert(!states_checked(*src, *tgt, i as int));
                                    }
                                    return Err(VerifyError::StateMismatch(i, j));
                                }
                            },
                            None => {},
                        }
                    }
                    j += 1;
                }
                proof {
                    let gi = i as int;
                    assert forall|k: int|
                        0 <= k < tgt.keysets@.len() && tgt.keysets@[k].id@
                            == src.keysets@[gi].id@ implies keyset_proofs_ok(
                        src.keyset_proofs@[gi],
                        tgt.keyset_proofs@[k].proofs@,
                    ) by {
                        if k != k0 as int {
                            assert(tgt.keysets@[k].id@ == tgt.keysets@[k0 as int].id@);
                        }
                    }
                    assert(family_checked(*src, *tgt, i as int));
                    assert(states_checked(*src, *tgt, i as int));
                }
            },
        }
        total_proofs = add_count(total_proofs, sp.proofs.len());
        i += 1;
    }
    // Quotes: counts, then membership.
    if src.mint_quotes.len() != tgt.mint_quotes.len() {
        return Err(VerifyError::MintQuoteCount);
    }
    let mut i: usize = 0;
    while i < src.mint_quotes.len()
        invariant
            i <= src.mint_quotes@.len(),
            forall|k: int| 0 <= k < i ==> mint_quote_in(tgt.mint_quotes@, src.mint_quotes@[k]),
        decreases src.mint_quotes@.len() - i,
    {
        if !mint_quote_contains(&tgt.mint_quotes, &src.mint_quotes[i]) {
            return Err(VerifyError::MintQuoteMissing(i));
        }
        i += 1;
    }
    if src.melt_quotes.len() != tgt.melt_quotes.len() {
        return Err(VerifyError::MeltQuoteCount);
    }
    let mut i: usize = 0;
    while i < src.melt_quotes.len()
        invariant
            i <= src.melt_quotes@.len(),
            forall|k: int| 0 <= k < i ==> melt_quote_in(tgt.melt_quotes@, src.melt_quotes@[k]),
        decreases src.melt_quotes@.len() - i,
    {
        if !melt_quote_contains(&tgt.melt_quotes, &src.melt_quotes[i]) {
            return Err(VerifyError::MeltQuoteMissing(i));
        }
        i += 1;
    }
    // Auth sub-store, only when the source has one.
    let mut auth_checked = false;
    match &src.auth {
        None => {},
        Some(sa) => {
            let ta = match &tgt.auth {
                Some(ta) => ta,
                None => {
                    return Err(VerifyError::AuthStoreMissing);
                },
            };
            if sa.keysets.len() != ta.keysets.len() {
                return Err(VerifyError::AuthKeysetCount);
            }
            let mut i: usize = 0;
            while i < sa.keysets.len()
                invariant
                    src.auth is Some,
                    tgt.auth is Some,
                    sa == &src.auth->0,
                    ta == &tgt.auth->0,
                    i <= sa.keysets@.len(),
                    forall|k: int| 0 <= k < i ==> ks_in(ta.keysets@, sa.keysets@[k]),
                decreases sa.keysets@.len() - i,
            {
                if !ks_contains(&ta.keysets, &sa.keysets[i]) {
                    return Err(VerifyError::AuthKeysetMissing(i));
                }
                i += 1;
            }
            if sa.protected_endpoints.len() != ta.protected_endpoints.len() {
                return Err(VerifyError::EndpointCount);
            }
            let mut i: usize = 0;
            while i < sa.protected_endpoints.len()
                invariant
                    src.auth is Some,
                    tgt.auth is Some,
                    sa == &src.auth->0,
                    ta == &tgt.auth->0,
                    ep_keys_unique(ta.protected_endpoints@),
                    i <= sa.protected_endpoints@.len(),
                    forall|k: int|
                        0 <= k < i ==> ep_in(
                            ta.protected_endpoints@,
                            sa.protected_endpoints@[k].0@,
                            sa.protected_endpoints@[k].1,
                        ),
                decreases sa.protected_endpoints@.len() - i,
            {
                let found_kind = ep_for(&ta.protected_endpoints, &sa.protected_endpoints[i].0);
                let kind_matches = match found_kind {
                    Some(kind) => kind == sa.protected_endpoints[i].1,
                    None => false,
                };
                if !kind_matches {
                    proof {
                        let gi = i as int;
                        let ep = sa.protected_endpoints@[gi].0@;
                        let want = sa.protected_endpoints@[gi].1;
                        if ep_in(ta.protected_endpoints@, ep, want) {
                            let w = choose|w: int|
                                0 <= w < ta.protected_endpoints@.len()
                                    && ta.protected_endpoints@[w].0@ == ep
                                    && ta.protected_endpoints@[w].1 == want;
                            if found_kind is Some {
                                let v = choose|v: int|
                                    0 <= v < ta.protected_endpoints@.len()
                                        && ta.protected_endpoints@[v].0@ == ep
                                        && ta.protected_endpoints@[v].1 == found_kind->0;
                                assert(v == w);
                            }
                        }
                        assert(!ep_in(ta.protected_endpoints@, ep, want));
                    }
                    return Err(VerifyError::EndpointMismatch(i));
                }
                i += 1;
            }
            auth_checked = true;
        },
    }
    Ok(
        VerifyReport {
            keysets: src.keysets.len() as u64,
            total_proofs,
            mint_quotes: src.mint_quotes.len() as u64,
            melt_quotes: src.melt_quotes.len() as u64,
            auth_checked,
        },
    )
}

} // verus!
