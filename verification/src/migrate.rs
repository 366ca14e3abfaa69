//! The migration engine: turns a source-store snapshot into the ordered set
//! of records to write to the target store, entity family by entity family.
//!
//! The engine is pure: it decides and transforms. Creating the stores,
//! reading the snapshot and applying the resulting plan is the binary's job.

use vstd::prelude::*;

use crate::bytes::bytes_copy;
use crate::codec::{
    auth_secret_of, decode_entry, derive_y, entry_decodes, sig_of, y_of, DecodeError,
};
use crate::model::{
    ks_eqv, melt_quote_eqv, melt_request_eqv, mint_info_eqv, mint_quote_eqv, proof_eqv,
    AuthProofRec, AuthSnapshot, KeysetInfo, KeysetProofs, MeltQuote, MeltRequest, MintInfo,
    MintQuote, ProofRec, ProofState, QuoteTtl, RawEntry, SigRec, SourceSnapshot,
};

verus! {

/// Why a migration run failed.
#[derive(Clone, Copy, Debug, PartialEq, Eq, Structural)]
pub enum MigrateError {
    /// The target store already exists; nothing is written over it.
    TargetExists,
    /// A proofs list and its parallel states list differ in length.
    LengthMismatch,
    /// A raw blind-signature value did not decode.
    SignatureDecode,
    /// A raw table key is not a valid compressed curve point.
    PublicKeyDecode,
    /// A raw auth-proof value did not decode.
    AuthProofDecode,
    /// A proof identifier could not be derived from its secret.
    YDerivation,
}

/// What one keyset's migration writes: its proofs in bulk, then the spent
/// identifiers, then the pending ones.
#[derive(Debug)]
pub struct KeysetWrite {
    pub proofs: Vec<ProofRec>,
    pub spent_ys: Vec<Vec<u8>>,
    pub pending_ys: Vec<Vec<u8>>,
}

/// What the auth sub-store's migration writes.
#[derive(Debug)]
pub struct AuthPlan {
    /// Decoded blind signatures: message keys parallel to records.
    pub messages: Vec<Vec<u8>>,
    pub signatures: Vec<SigRec>,
    pub proofs: Vec<AuthProofRec>,
    /// Per-proof state updates, keyed by derived identifier.
    pub state_updates: Vec<(Vec<u8>, ProofState)>,
    pub keysets: Vec<KeysetInfo>,
    pub protected_endpoints: Vec<(Vec<u8>, crate::model::AuthKind)>,
}

/// Everything the migration writes, in dependency order.
#[derive(Debug)]
pub struct MigrationPlan {
    pub mint_info: MintInfo,
    pub quote_ttl: QuoteTtl,
    pub melt_quotes: Vec<MeltQuote>,
    /// The melt requests that were found; the others are silently absent.
    pub melt_requests: Vec<MeltRequest>,
    pub mint_quotes: Vec<MintQuote>,
    pub keysets: Vec<KeysetInfo>,
    /// Parallel to `keysets`.
    pub keyset_writes: Vec<KeysetWrite>,
    /// Decoded blind signatures: message keys parallel to records.
    pub messages: Vec<Vec<u8>>,
    pub signatures: Vec<SigRec>,
    pub auth: Option<AuthPlan>,
}

/// The melt requests that are present, in quote order, up to index `n`.
pub open spec fn somes_mr(s: Seq<Option<MeltRequest>>, n: int) -> Seq<MeltRequest>
    decreases n,
{
    if n <= 0 {
        Seq::empty()
    } else {
        let prev = somes_mr(s, n - 1);
        if s[n - 1] is Some {
            prev.push(s[n - 1]->0)
        } else {
            prev
        }
    }
}

/// The identifiers of the proofs recorded with the given state, in proof
/// order, up to index `n`.
pub open spec fn ys_with_state(
    proofs: Seq<ProofRec>,
    states: Seq<Option<ProofState>>,
    st: ProofState,
    n: int,
) -> Seq<Seq<u8>>
    decreases n,
{
    if n <= 0 {
        Seq::empty()
    } else {
        let prev = ys_with_state(proofs, states, st, n - 1);
        if states[n - 1] == Some(st) {
            prev.push(y_of(proofs[n - 1].secret@)->0)
        } else {
            prev
        }
    }
}

/// The state updates the auth migration issues: one per proof with a
/// recorded state, keyed by derived identifier, up to index `n`.
pub open spec fn auth_updates(
    raw: Seq<RawEntry>,
    states: Seq<Option<ProofState>>,
    n: int,
) -> Seq<(Seq<u8>, ProofState)>
    decreases n,
{
    if n <= 0 {
        Seq::empty()
    } else {
        let prev = auth_updates(raw, states, n - 1);
        if states[n - 1] is Some {
            prev.push((y_of(auth_secret_of(raw[n - 1].value@)->0)->0, states[n - 1]->0))
        } else {
            prev
        }
    }
}

/// The endpoint policies that carry a concrete authorization, in order, up
/// to index `n`.
pub open spec fn eps_with_auth(
    s: Seq<(Vec<u8>, Option<crate::model::AuthKind>)>,
    n: int,
) -> Seq<(Seq<u8>, crate::model::AuthKind)>
    decreases n,
{
    if n <= 0 {
        Seq::empty()
    } else {
        let prev = eps_with_auth(s, n - 1);
        if s[n - 1].1 is Some {
            prev.push((s[n - 1].0@, s[n - 1].1->0))
        } else {
            prev
        }
    }
}

/// Every proofs list is as long as its parallel states list.
pub open spec fn proofs_lengths_ok(s: Seq<KeysetProofs>) -> bool {
    forall|i: int| 0 <= i < s.len() ==> s[i].proofs@.len() == s[i].states@.len()
}

/// Every proof recorded spent or pending has a derivable identifier.
pub open spec fn ys_ok_of(s: Seq<KeysetProofs>) -> bool {
    forall|i: int, j: int|
        0 <= i < s.len() && 0 <= j < s[i].proofs@.len() && j < s[i].states@.len() && (
        s[i].states@[j] == Some(ProofState::Spent) || s[i].states@[j] == Some(
            ProofState::Pending,
        )) ==> y_of(s[i].proofs@[j].secret@) is Some
}

/// Every raw blind-signature entry decodes.
pub open spec fn sigs_ok(entries: Seq<RawEntry>) -> bool {
    forall|i: int| 0 <= i < entries.len() ==> entry_decodes(entries[i])
}

/// Every raw auth-proof value decodes.
pub open spec fn auth_proofs_ok(raw: Seq<RawEntry>) -> bool {
    forall|i: int| 0 <= i < raw.len() ==> auth_secret_of(raw[i].value@) is Some
}

/// Every decoded auth proof has a derivable identifier.
pub open spec fn auth_ys_ok(raw: Seq<RawEntry>) -> bool {
    forall|i: int|
        0 <= i < raw.len() && auth_secret_of(raw[i].value@) is Some ==> y_of(
            auth_secret_of(raw[i].value@)->0,
        ) is Some
}

/// Everything the auth migration checks before it can succeed.
pub open spec fn auth_all_ok(a: AuthSnapshot) -> bool {
    &&& sigs_ok(a.raw_signatures@)
    &&& auth_proofs_ok(a.raw_proofs@)
    &&& auth_ys_ok(a.raw_proofs@)
    &&& a.raw_proofs@.len() == a.states@.len()
}

/// Everything a migration of the whole snapshot checks before it can
/// succeed.
pub open spec fn migrate_ok(src: SourceSnapshot) -> bool {
    &&& proofs_lengths_ok(src.keyset_proofs@)
    &&& ys_ok_of(src.keyset_proofs@)
    &&& sigs_ok(src.raw_signatures@)
    &&& (src.auth is Some ==> auth_all_ok(src.auth->0))
}

/// All parallel-length invariants, primary and auth.
pub open spec fn lengths_all_ok(src: SourceSnapshot) -> bool {
    &&& proofs_lengths_ok(src.keyset_proofs@)
    &&& (src.auth is Some ==> src.auth->0.raw_proofs@.len() == src.auth->0.states@.len())
}

/// All raw blind-signature tables decode, primary and auth.
pub open spec fn sigs_all_ok(src: SourceSnapshot) -> bool {
    &&& sigs_ok(src.raw_signatures@)
    &&& (src.auth is Some ==> sigs_ok(src.auth->0.raw_signatures@))
}

/// All needed identifier derivations succeed, primary and auth.
pub open spec fn ys_all_ok(src: SourceSnapshot) -> bool {
    &&& ys_ok_of(src.keyset_proofs@)
    &&& (src.auth is Some ==> auth_ys_ok(src.auth->0.raw_proofs@))
}

/// A keyset's planned write carries exactly the keyset's proofs and the
/// identifiers of its spent and pending proofs.
pub open spec fn kw_matches(ks: KeysetProofs, w: KeysetWrite) -> bool {
    &&& w.proofs@.len() == ks.proofs@.len()
    &&& forall|j: int| 0 <= j < ks.proofs@.len() ==> proof_eqv(w.proofs@[j], ks.proofs@[j])
    &&& w.spent_ys@.len() == ys_with_state(
        ks.proofs@,
        ks.states@,
        ProofState::Spent,
        ks.states@.len() as int,
    ).len()
    &&& forall|j: int|
        0 <= j < w.spent_ys@.len() ==> w.spent_ys@[j]@ == ys_with_state(
            ks.proofs@,
            ks.states@,
            ProofState::Spent,
            ks.states@.len() as int,
        )[j]
    &&& w.pending_ys@.len() == ys_with_state(
        ks.proofs@,
        ks.states@,
        ProofState::Pending,
        ks.states@.len() as int,
    ).len()
    &&& forall|j: int|
        0 <= j < w.pending_ys@.len() ==> w.pending_ys@[j]@ == ys_with_state(
            ks.proofs@,
            ks.states@,
            ProofState::Pending,
            ks.states@.len() as int,
        )[j]
}

/// Each keyset's write matches its source keyset.
pub open spec fn writes_match(s: Seq<KeysetProofs>, w: Seq<KeysetWrite>) -> bool {
    &&& w.len() == s.len()
    &&& forall|i: int| 0 <= i < s.len() ==> kw_matches(s[i], w[i])
}

/// The decoded signature lists carry exactly the raw entries' keys and
/// decoded records, in table order.
pub open spec fn sigs_match(e: Seq<RawEntry>, msgs: Seq<Vec<u8>>, sigs: Seq<SigRec>) -> bool {
    &&& msgs.len() == e.len()
    &&& sigs.len() == e.len()
    &&& forall|i: int| 0 <= i < e.len() ==> msgs[i]@ == e[i].key@
    &&& forall|i: int|
        0 <= i < e.len() ==> sigs[i].amount == (sig_of(e[i].value@)->0).0 && sigs[i].keyset_id@ == (
        sig_of(e[i].value@)->0).1 && sigs[i].value@ == e[i].value@
}

/// The auth plan carries exactly the auth snapshot's decoded signatures and
/// proofs, the state updates of the proofs with a recorded state, the
/// keysets, and the endpoint policies with a concrete authorization.
pub open spec fn auth_plan_matches(a: AuthSnapshot, p: AuthPlan) -> bool {
    &&& sigs_match(a.raw_signatures@, p.messages@, p.signatures@)
    &&& p.proofs@.len() == a.raw_proofs@.len()
    &&& forall|j: int|
        0 <= j < a.raw_proofs@.len() ==> p.proofs@[j].secret@ == auth_secret_of(
            a.raw_proofs@[j].value@,
        )->0 && p.proofs@[j].value@ == a.raw_proofs@[j].value@
    &&& p.state_updates@.len() == auth_updates(
        a.raw_proofs@,
        a.states@,
        a.states@.len() as int,
    ).len()
    &&& forall|k: int|
        0 <= k < p.state_updates@.len() ==> p.state_updates@[k].0@ == auth_updates(
            a.raw_proofs@,
            a.states@,
            a.states@.len() as int,
        )[k].0 && p.state_updates@[k].1 == auth_updates(
            a.raw_proofs@,
            a.states@,
            a.states@.len() as int,
        )[k].1
    &&& p.keysets@.len() == a.keysets@.len()
    &&& forall|i: int| 0 <= i < a.keysets@.len() ==> ks_eqv(p.keysets@[i], a.keysets@[i])
    &&& p.protected_endpoints@.len() == eps_with_auth(
        a.protected_endpoints@,
        a.protected_endpoints@.len() as int,
    ).len()
    &&& forall|k: int|
        0 <= k < p.protected_endpoints@.len() ==> p.protected_endpoints@[k].0@ == eps_with_auth(
            a.protected_endpoints@,
            a.protected_endpoints@.len() as int,
        )[k].0 && p.protected_endpoints@[k].1 == eps_with_auth(
            a.protected_endpoints@,
            a.protected_endpoints@.len() as int,
        )[k].1
}

/// The plan carries, for every entity family, exactly what the snapshot
/// holds, transformed as migration prescribes.
pub open spec fn plan_matches(src: SourceSnapshot, p: MigrationPlan) -> bool {
    &&& mint_info_eqv(p.mint_info, src.mint_info)
    &&& p.quote_ttl == src.quote_ttl
    &&& p.melt_quotes@.len() == src.melt_quotes@.len()
    &&& forall|i: int|
        0 <= i < src.melt_quotes@.len() ==> melt_quote_eqv(p.melt_quotes@[i], src.melt_quotes@[i])
    &&& p.melt_requests@.len() == somes_mr(
        src.melt_requests@,
        src.melt_requests@.len() as int,
    ).len()
    &&& forall|i: int|
        0 <= i < p.melt_requests@.len() ==> melt_request_eqv(
            p.melt_requests@[i],
            somes_mr(src.melt_requests@, src.melt_requests@.len() as int)[i],
        )
    &&& p.mint_quotes@.len() == src.mint_quotes@.len()
    &&& forall|i: int|
        0 <= i < src.mint_quotes@.len() ==> mint_quote_eqv(p.mint_quotes@[i], src.mint_quotes@[i])
    &&& p.keysets@.len() == src.keysets@.len()
    &&& forall|i: int| 0 <= i < src.keysets@.len() ==> ks_eqv(p.keysets@[i], src.keysets@[i])
    &&& writes_match(src.keyset_proofs@, p.keyset_writes@)
    &&& sigs_match(src.raw_signatures@, p.messages@, p.signatures@)
    &&& (p.auth is Some <==> src.auth is Some)
    &&& (src.auth is Some ==> auth_plan_matches(src.auth->0, p.auth->0))
}

/// The state a faithful target store reports for an identifier after a
/// keyset's write is applied: the spent bucket is applied first, then the
/// pending bucket, and an identifier in neither is left at the default.
pub open spec fn plan_state_of(w: KeysetWrite, y: Seq<u8>) -> ProofState {
    if exists|k: int| 0 <= k < w.pending_ys@.len() && w.pending_ys@[k]@ == y {
        ProofState::Pending
    } else if exists|k: int| 0 <= k < w.spent_ys@.len() && w.spent_ys@[k]@ == y {
        ProofState::Spent
    } else {
        ProofState::Unspent
    }
}

/// A proof recorded with the given state puts its identifier into that
/// state's bucket.
pub(crate) proof fn lemma_ys_with_state_contains(
    proofs: Seq<ProofRec>,
    states: Seq<Option<ProofState>>,
    st: ProofState,
    j: int,
    n: int,
)
    requires
        0 <= j < n,
        states[j] == Some(st),
    ensures
        exists|k: int|
            0 <= k < ys_with_state(proofs, states, st, n).len() && ys_with_state(
                proofs,
                states,
                st,
                n,
            )[k] == y_of(proofs[j].secret@)->0,
    decreases n,
{
    if j == n - 1 {
        let s = ys_with_state(proofs, states, st, n);
        assert(s[s.len() - 1] == y_of(proofs[j].secret@)->0);
    } else {
        lemma_ys_with_state_contains(proofs, states, st, j, n - 1);
        let prev = ys_with_state(proofs, states, st, n - 1);
        let k = choose|k: int|
            0 <= k < prev.len() && prev[k] == y_of(proofs[j].secret@)->0;
        assert(ys_with_state(proofs, states, st, n)[k] == y_of(proofs[j].secret@)->0);
    }
}

/// Spend states survive migration: a proof the source records as spent or
/// pending is reported with that same state by a target that applied the
/// keyset's write, provided the two buckets are disjoint (identifiers are
/// unique per proof, so a well-formed source never puts one identifier in
/// both).
pub proof fn lemma_state_preserved(src: SourceSnapshot, plan: MigrationPlan, i: int, j: int)
    requires
        src.wf(),
        plan_matches(src, plan),
        0 <= i < src.keysets@.len(),
        0 <= j < src.keyset_proofs@[i].proofs@.len(),
        j < src.keyset_proofs@[i].states@.len(),
        src.keyset_proofs@[i].states@[j] == Some(ProofState::Spent) || src.keyset_proofs@[i].states@[j]
            == Some(ProofState::Pending),
        forall|a: int, b: int|
            0 <= a < plan.keyset_writes@[i].spent_ys@.len() && 0 <= b
                < plan.keyset_writes@[i].pending_ys@.len() ==> plan.keyset_writes@[i].spent_ys@[a]@
                != plan.keyset_writes@[i].pending_ys@[b]@,
    ensures
        plan_state_of(plan.keyset_writes@[i], y_of(src.keyset_proofs@[i].proofs@[j].secret@)->0)
            == src.keyset_proofs@[i].states@[j]->0,
{
    let ks = src.keyset_proofs@[i];
    let w = plan.keyset_writes@[i];
    let y = y_of(ks.proofs@[j].secret@)->0;
    let st = ks.states@[j]->0;
    lemma_ys_with_state_contains(ks.proofs@, ks.states@, st, j, ks.states@.len() as int);
    if st == ProofState::Spent {
        let k = choose|k: int|
            0 <= k < ys_with_state(ks.proofs@, ks.states@, st, ks.states@.len() as int).len()
                && ys_with_state(ks.proofs@, ks.states@, st, ks.states@.len() as int)[k] == y;
        assert(w.spent_ys@[k]@ == y);
        assert(!(exists|k2: int| 0 <= k2 < w.pending_ys@.len() && w.pending_ys@[k2]@ == y));
    } else {
        let k = choose|k: int|
            0 <= k < ys_with_state(ks.proofs@, ks.states@, st, ks.states@.len() as int).len()
                && ys_with_state(ks.proofs@, ks.states@, st, ks.states@.len() as int)[k] == y;
        assert(w.pending_ys@[k]@ == y);
    }
}

/// Proof counts survive migration: each keyset's planned write holds
/// exactly as many proofs as the source holds for that keyset.
pub proof fn lemma_proof_counts_preserved(src: SourceSnapshot, plan: MigrationPlan, i: int)
    requires
        src.wf(),
        plan_matches(src, plan),
        0 <= i < src.keysets@.len(),
    ensures
        plan.keyset_writes@[i].proofs@.len() == src.keyset_proofs@[i].proofs@.len(),
{
}

/// Copies the singleton configuration: mint info, then quote TTL policy.
pub fn migrate_mint_info(src: &SourceSnapshot) -> (r: (MintInfo, QuoteTtl))
    ensures
        mint_info_eqv(r.0, src.mint_info),
        r.1 == src.quote_ttl,
{
    (MintInfo { info: bytes_copy(&src.mint_info.info) }, src.quote_ttl)
}

/// Copies a keyset list.
pub fn copy_keysets(a: &Vec<KeysetInfo>) -> (r: Vec<KeysetInfo>)
    ensures
        r@.len() == a@.len(),
        forall|i: int| 0 <= i < a@.len() ==> ks_eqv(r@[i], a@[i]),
{
    let mut out: Vec<KeysetInfo> = Vec::new();
    let mut i: usize = 0;
    while i < a.len()
        invariant
            i <= a@.len(),
            out@.len() == i,
            forall|k: int| 0 <= k < i ==> ks_eqv(out@[k], a@[k]),
        decreases a@.len() - i,
    {
        out.push(KeysetInfo { id: bytes_copy(&a[i].id), info: bytes_copy(&a[i].info) });
        i += 1;
    }
    out
}

/// Migrates the quotes: every melt quote, keeping the melt requests that
/// were found; then every mint quote.
pub fn migrate_quotes(
    melt_quotes: &Vec<MeltQuote>,
    melt_requests: &Vec<Option<MeltRequest>>,
    mint_quotes: &Vec<MintQuote>,
) -> (r: (Vec<MeltQuote>, Vec<MeltRequest>, Vec<MintQuote>))
    requires
        melt_requests@.len() == melt_quotes@.len(),
    ensures
        r.0@.len() == melt_quotes@.len(),
        forall|i: int| 0 <= i < melt_quotes@.len() ==> melt_quote_eqv(r.0@[i], melt_quotes@[i]),
        r.1@.len() == somes_mr(melt_requests@, melt_requests@.len() as int).len(),
        forall|i: int|
            0 <= i < r.1@.len() ==> melt_request_eqv(
                r.1@[i],
                somes_mr(melt_requests@, melt_requests@.len() as int)[i],
            ),
        r.2@.len() == mint_quotes@.len(),
        forall|i: int| 0 <= i < mint_quotes@.len() ==> mint_quote_eqv(r.2@[i], mint_quotes@[i]),
{
    let mut mq: Vec<MeltQuote> = Vec::new();
    let mut mr: Vec<MeltRequest> = Vec::new();
    let mut i: usize = 0;
    while i < melt_quotes.len()
        invariant
            melt_requests@.len() == melt_quotes@.len(),
            i <= melt_quotes@.len(),
            mq@.len() == i,
            forall|k: int| 0 <= k < i ==> melt_quote_eqv(mq@[k], melt_quotes@[k]),
            mr@.len() == somes_mr(melt_requests@, i as int).len(),
            forall|k: int|
                0 <= k < mr@.len() ==> melt_request_eqv(
                    mr@[k],
                    somes_mr(melt_requests@, i as int)[k],
                ),
        decreases melt_quotes@.len() - i,
    {
        match &melt_requests[i] {
            Some(req) => {
                mr.push(
                    MeltRequest {
                        request: bytes_copy(&req.request),
                        payment_key: bytes_copy(&req.payment_key),
                    },
                );
            },
            None => {},
        }
        mq.push(
            MeltQuote { id: bytes_copy(&melt_quotes[i].id), info: bytes_copy(&melt_quotes[i].info) },
        );
        i += 1;
    }
    let mut nq: Vec<MintQuote> = Vec::new();
    let mut j: usize = 0;
    while j < mint_quotes.len()
        invariant
            j <= mint_quotes@.len(),
            nq@.len() == j,
            forall|k: int| 0 <= k < j ==> mint_quote_eqv(nq@[k], mint_quotes@[k]),
        decreases mint_quotes@.len() - j,
    {
        nq.push(
            MintQuote { id: bytes_copy(&mint_quotes[j].id), info: bytes_copy(&mint_quotes[j].info) },
        );
        j += 1;
    }
    (mq, mr, nq)
}

/// Migrates the proofs of every keyset: checks the parallel lists, copies
/// the proofs, and partitions the derived identifiers into the spent and
/// pending buckets; any other recorded state is left to the target's
/// default.
pub fn migrate_proofs(keyset_proofs: &Vec<KeysetProofs>) -> (r: Result<
    Vec<KeysetWrite>,
    MigrateError,
>)
    ensures
        r is Ok <==> proofs_lengths_ok(keyset_proofs@) && ys_ok_of(keyset_proofs@),
        r is Ok ==> writes_match(keyset_proofs@, r->Ok_0@),
        r is Err ==> (r == Err::<Vec<KeysetWrite>, MigrateError>(MigrateError::LengthMismatch)
            && !proofs_lengths_ok(keyset_proofs@)) || (r == Err::<
            Vec<KeysetWrite>,
            MigrateError,
        >(MigrateError::YDerivation) && !ys_ok_of(keyset_proofs@)),
{
    let mut writes: Vec<KeysetWrite> = Vec::new();
    let mut i: usize = 0;
    while i < keyset_proofs.len()
        invariant
            i <= keyset_proofs@.len(),
            writes@.len() == i,
            forall|k: int| 0 <= k < i ==> kw_matches(keyset_proofs@[k], writes@[k]),
            forall|k: int|
                0 <= k < i ==> keyset_proofs@[k].proofs@.len() == keyset_proofs@[k].states@.len(),
            forall|k: int, j: int|
                0 <= k < i && 0 <= j < keyset_proofs@[k].proofs@.len() && j
                    < keyset_proofs@[k].states@.len() && (keyset_proofs@[k].states@[j] == Some(
                    ProofState::Spent,
                ) || keyset_proofs@[k].states@[j] == Some(ProofState::Pending)) ==> y_of(
                    keyset_proofs@[k].proofs@[j].secret@,
                ) is Some,
        decreases keyset_proofs@.len() - i,
    {
        let ks = &keyset_proofs[i];
        if ks.proofs.len() != ks.states.len() {
            proof {
                assert(!proofs_lengths_ok(keyset_proofs@));
            }
            return Err(MigrateError::LengthMismatch);
        }
        let mut pv: Vec<ProofRec> = Vec::new();
        let mut sv: Vec<Vec<u8>> = Vec::new();
        let mut av: Vec<Vec<u8>> = Vec::new();
        let mut j: usize = 0;
        while j < ks.proofs.len()
            invariant
                ks == &keyset_proofs@[i as int],
                i < keyset_proofs@.len(),
                ks.proofs@.len() == ks.states@.len(),
                j <= ks.proofs@.len(),
                pv@.len() == j,
                forall|k: int| 0 <= k < j ==> proof_eqv(pv@[k], ks.proofs@[k]),
                sv@.len() == ys_with_state(ks.proofs@, ks.states@, ProofState::Spent, j as int).len(),
                forall|k: int|
                    0 <= k < sv@.len() ==> sv@[k]@ == ys_with_state(
                        ks.proofs@,
                        ks.states@,
                        ProofState::Spent,
                        j as int,
                    )[k],
                av@.len() == ys_with_state(
                    ks.proofs@,
                    ks.states@,
                    ProofState::Pending,
                    j as int,
                ).len(),
                forall|k: int|
                    0 <= k < av@.len() ==> av@[k]@ == ys_with_state(
                        ks.proofs@,
                        ks.states@,
                        ProofState::Pending,
                        j as int,
                    )[k],
                forall|k: int|
                    0 <= k < j && (ks.states@[k] == Some(ProofState::Spent) || ks.states@[k]
                        == Some(ProofState::Pending)) ==> y_of(ks.proofs@[k].secret@) is Some,
            decreases ks.proofs@.len() - j,
        {
            let p = &ks.proofs[j];
            pv.push(
                ProofRec {
                    keyset_id: bytes_copy(&p.keyset_id),
                    secret: bytes_copy(&p.secret),
                    info: bytes_copy(&p.info),
                },
            );
            match &ks.states[j] {
                Some(st) => {
                    if *st == ProofState::Spent {
                        match derive_y(&p.secret) {
                            Some(y) => sv.push(y),
                            None => {
                                proof {
                                    assert(!ys_ok_of(keyset_proofs@));
                                }
                                return Err(MigrateError::YDerivation);
                            },
                        }
                    } else if *st == ProofState::Pending {
                        match derive_y(&p.secret) {
                            Some(y) => av.push(y),
                            None => {
                                proof {
                                    assert(!ys_ok_of(keyset_proofs@));
                                }
                                return Err(MigrateError::YDerivation);
                            },
                        }
                    }
                },
                None => {},
            }
            j += 1;
        }
        writes.push(KeysetWrite { proofs: pv, spent_ys: sv, pending_ys: av });
        i += 1;
    }
    Ok(writes)
}

/// Reads the raw blind-signature table and decodes every entry into its
/// message key and signature record; any entry that fails to decode aborts.
pub fn get_blind_signatures(entries: &Vec<RawEntry>) -> (r: Result<
    (Vec<Vec<u8>>, Vec<SigRec>),
    MigrateError,
>)
    ensures
        r is Ok <==> sigs_ok(entries@),
        r is Ok ==> sigs_match(entries@, r->Ok_0.0@, r->Ok_0.1@),
        r is Err ==> (r == Err::<(Vec<Vec<u8>>, Vec<SigRec>), MigrateError>(
            MigrateError::SignatureDecode,
        ) || r == Err::<(Vec<Vec<u8>>, Vec<SigRec>), MigrateError>(MigrateError::PublicKeyDecode))
            && !sigs_ok(entries@),
{
    let mut msgs: Vec<Vec<u8>> = Vec::new();
    let mut sigs: Vec<SigRec> = Vec::new();
    let mut i: usize = 0;
    while i < entries.len()
        invariant
            i <= entries@.len(),
            msgs@.len() == i,
            sigs@.len() == i,
            forall|k: int| 0 <= k < i ==> entry_decodes(entries@[k]),
            forall|k: int| 0 <= k < i ==> msgs@[k]@ == entries@[k].key@,
            forall|k: int|
                0 <= k < i ==> sigs@[k].amount == (sig_of(entries@[k].value@)->0).0
                    && sigs@[k].keyset_id@ == (sig_of(entries@[k].value@)->0).1 && sigs@[k].value@
                    == entries@[k].value@,
        decreases entries@.len() - i,
    {
        match decode_entry(&entries[i]) {
            Ok((msg, sig)) => {
                msgs.push(msg);
                sigs.push(sig);
            },
            Err(e) => {
                proof {
                    assert(!entry_decodes(entries@[i as int]));
                    assert(!sigs_ok(entries@));
                }
                return Err(
                    if e == DecodeError::Signature {
                        MigrateError::SignatureDecode
                    } else {
                        MigrateError::PublicKeyDecode
                    },
                );
            },
        }
        i += 1;
    }
    Ok((msgs, sigs))
}

/// Decodes every raw auth-proof entry; any value that fails to decode
/// aborts.
pub fn get_auth_proofs(raw: &Vec<RawEntry>) -> (r: Result<Vec<AuthProofRec>, MigrateError>)
    ensures
        r is Ok <==> auth_proofs_ok(raw@),
        r is Ok ==> r->Ok_0@.len() == raw@.len() && forall|j: int|
            0 <= j < raw@.len() ==> r->Ok_0@[j].secret@ == auth_secret_of(raw@[j].value@)->0
                && r->Ok_0@[j].value@ == raw@[j].value@,
        r is Err ==> r == Err::<Vec<AuthProofRec>, MigrateError>(MigrateError::AuthProofDecode)
            && !auth_proofs_ok(raw@),
{
    let mut out: Vec<AuthProofRec> = Vec::new();
    let mut i: usize = 0;
    while i < raw.len()
        invariant
            i <= raw@.len(),
            out@.len() == i,
            forall|k: int| 0 <= k < i ==> auth_secret_of(raw@[k].value@) is Some,
            forall|k: int|
                0 <= k < i ==> out@[k].secret@ == auth_secret_of(raw@[k].value@)->0 && out@[k].value@
                    == raw@[k].value@,
        decreases raw@.len() - i,
    {
        match crate::codec::parse_auth_proof_entry(&raw[i]) {
            Some(rec) => out.push(rec),
            None => {
                proof {
                    assert(!auth_proofs_ok(raw@));
                }
                return Err(MigrateError::AuthProofDecode);
            },
        }
        i += 1;
    }
    Ok(out)
}

/// Keeps the endpoint policies that carry a concrete authorization and
/// drops the rest.
pub fn migrate_protected_endpoints(
    eps: &Vec<(Vec<u8>, Option<crate::model::AuthKind>)>,
) -> (r: Vec<(Vec<u8>, crate::model::AuthKind)>)
    ensures
        r@.len() == eps_with_auth(eps@, eps@.len() as int).len(),
        forall|k: int|
            0 <= k < r@.len() ==> r@[k].0@ == eps_with_auth(eps@, eps@.len() as int)[k].0 && r@[k].1
                == eps_with_auth(eps@, eps@.len() as int)[k].1,
{
    let mut out: Vec<(Vec<u8>, crate::model::AuthKind)> = Vec::new();
    let mut i: usize = 0;
    while i < eps.len()
        invariant
            i <= eps@.len(),
            out@.len() == eps_with_auth(eps@, i as int).len(),
            forall|k: int|
                0 <= k < out@.len() ==> out@[k].0@ == eps_with_auth(eps@, i as int)[k].0
                    && out@[k].1 == eps_with_auth(eps@, i as int)[k].1,
        decreases eps@.len() - i,
    {
        match &eps[i].1 {
            Some(kind) => {
                out.push((bytes_copy(&eps[i].0), *kind));
            },
            None => {},
        }
        i += 1;
    }
    out
}

/// Migrates the auth sub-store: blind signatures, proofs with their
/// identifier-keyed state updates, keysets, and endpoint policies.
pub fn migrate_auth(a: &AuthSnapshot) -> (r: Result<AuthPlan, MigrateError>)
    ensures
        r is Ok <==> auth_all_ok(*a),
        r is Ok ==> auth_plan_matches(*a, r->Ok_0),
        r is Err ==> {
            ||| (r == Err::<AuthPlan, MigrateError>(MigrateError::SignatureDecode) || r == Err::<
                AuthPlan,
                MigrateError,
            >(MigrateError::PublicKeyDecode)) && !sigs_ok(a.raw_signatures@)
            ||| r == Err::<AuthPlan, MigrateError>(MigrateError::AuthProofDecode)
                && !auth_proofs_ok(a.raw_proofs@)
            ||| r == Err::<AuthPlan, MigrateError>(MigrateError::YDerivation) && !auth_ys_ok(
                a.raw_proofs@,
            )
            ||| r == Err::<AuthPlan, MigrateError>(MigrateError::LengthMismatch)
                && a.raw_proofs@.len() != a.states@.len()
        },
{
    let (messages, signatures) = match get_blind_signatures(&a.raw_signatures) {
        Ok(p) => p,
        Err(e) => {
            return Err(e);
        },
    };
    let proofs = match get_auth_proofs(&a.raw_proofs) {
        Ok(p) => p,
        Err(e) => {
            return Err(e);
        },
    };
    let mut ys: Vec<Vec<u8>> = Vec::new();
    let mut i: usize = 0;
    while i < proofs.len()
        invariant
            proofs@.len() == a.raw_proofs@.len(),
            forall|j: int|
                0 <= j < a.raw_proofs@.len() ==> proofs@[j].secret@ == auth_secret_of(
                    a.raw_proofs@[j].value@,
                )->0 && proofs@[j].value@ == a.raw_proofs@[j].value@,
            auth_proofs_ok(a.raw_proofs@),
            i <= proofs@.len(),
            ys@.len() == i,
            forall|k: int| 0 <= k < i ==> y_of(auth_secret_of(a.raw_proofs@[k].value@)->0) is Some,
            forall|k: int|
                0 <= k < i ==> ys@[k]@ == y_of(auth_secret_of(a.raw_proofs@[k].value@)->0)->0,
        decreases proofs@.len() - i,
    {
        match derive_y(&proofs[i].secret) {
            Some(y) => ys.push(y),
            None => {
                proof {
                    assert(!auth_ys_ok(a.raw_proofs@));
                }
                return Err(MigrateError::YDerivation);
            },
        }
        i += 1;
    }
    if proofs.len() != a.states.len() {
        return Err(MigrateError::LengthMismatch);
    }
    let mut updates: Vec<(Vec<u8>, ProofState)> = Vec::new();
    let mut j: usize = 0;
    while j < a.states.len()
        invariant
            proofs@.len() == a.raw_proofs@.len(),
            a.states@.len() == a.raw_proofs@.len(),
            ys@.len() == a.raw_proofs@.len(),
            forall|k: int|
                0 <= k < ys@.len() ==> ys@[k]@ == y_of(auth_secret_of(a.raw_proofs@[k].value@)->0)
                    ->0,
            j <= a.states@.len(),
            updates@.len() == auth_updates(a.raw_proofs@, a.states@, j as int).len(),
            forall|k: int|
                0 <= k < updates@.len() ==> updates@[k].0@ == auth_updates(
                    a.raw_proofs@,
                    a.states@,
                    j as int,
                )[k].0 && updates@[k].1 == auth_updates(a.raw_proofs@, a.states@, j as int)[k].1,
        decreases a.states@.len() - j,
    {
        match &a.states[j] {
            Some(st) => {
                updates.push((bytes_copy(&ys[j]), *st));
            },
            None => {},
        }
        j += 1;
    }
    let keysets = copy_keysets(&a.keysets);
    let protected_endpoints = migrate_protected_endpoints(&a.protected_endpoints);
    Ok(
        AuthPlan {
            messages,
            signatures,
            proofs,
            state_updates: updates,
            keysets,
            protected_endpoints,
        },
    )
}

/// Runs the whole migration over a source snapshot.
///
/// Refuses to do anything when the target store already exists; otherwise it
/// copies the singleton configuration, the quotes, the keysets, the proofs
/// with their spend states, the decoded blind signatures, and — when the
/// auth sub-store is present — its families too, in that order.
pub fn migrate(target_exists: bool, src: &SourceSnapshot) -> (r: Result<
    MigrationPlan,
    MigrateError,
>)
    requires
        src.wf(),
    ensures
        r is Ok <==> !target_exists && migrate_ok(*src),
        r is Ok ==> plan_matches(*src, r->Ok_0),
        r == Err::<MigrationPlan, MigrateError>(MigrateError::TargetExists) <==> target_exists,
        r == Err::<MigrationPlan, MigrateError>(MigrateError::LengthMismatch) ==> !lengths_all_ok(
            *src,
        ),
        (r == Err::<MigrationPlan, MigrateError>(MigrateError::SignatureDecode) || r == Err::<
            MigrationPlan,
            MigrateError,
        >(MigrateError::PublicKeyDecode)) ==> !sigs_all_ok(*src),
        r == Err::<MigrationPlan, MigrateError>(MigrateError::AuthProofDecode) ==> src.auth is Some
            && !auth_proofs_ok(src.auth->0.raw_proofs@),
        r == Err::<MigrationPlan, MigrateError>(MigrateError::YDerivation) ==> !ys_all_ok(*src),
{
    if target_exists {
        return Err(MigrateError::TargetExists);
    }
    let (mint_info, quote_ttl) = migrate_mint_info(src);
    let (melt_quotes, melt_requests, mint_quotes) = migrate_quotes(
        &src.melt_quotes,
        &src.melt_requests,
        &src.mint_quotes,
    );
    let keysets = copy_keysets(&src.keysets);
    let keyset_writes = match migrate_proofs(&src.keyset_proofs) {
        Ok(w) => w,
        Err(e) => {
            return Err(e);
        },
    };
    let (messages, signatures) = match get_blind_signatures(&src.raw_signatures) {
        Ok(p) => p,
        Err(e) => {
            return Err(e);
        },
    };
    let auth = match &src.auth {
        Some(a) => {
            match migrate_auth(a) {
                Ok(ap) => Some(ap),
                Err(e) => {
                    return Err(e);
                },
            }
        },
        None => None,
    };
    Ok(
        MigrationPlan {
            mint_info,
            quote_ttl,
            melt_quotes,
            melt_requests,
            mint_quotes,
            keysets,
            keyset_writes,
            messages,
            signatures,
            auth,
        },
    )
}

} // verus!
