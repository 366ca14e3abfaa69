//! The bridge between migration and reconciliation: a target store that
//! faithfully applied a migration plan passes every reconciliation check
//! against a faithful re-read of the source.

use vstd::prelude::*;

use crate::codec::y_of;
use crate::migrate::{
    lemma_ys_with_state_contains, migrate_ok, plan_matches, ys_with_state, AuthPlan,
    MigrationPlan,
};
use crate::model::{
    ks_eqv, melt_quote_eqv, mint_info_eqv, mint_quote_eqv, proof_eqv, AuthSnapshot, KeysetProofs,
    ProofState, SourceSnapshot,
};
use crate::verify_migration::{
    ep_in, family_checked, has_state, keyset_proofs_ok, ks_in, melt_quote_in, mint_quote_in,
    states_checked, verify_ok, AuthView, StoreView,
};

verus! {

/// Two per-keyset lists hold the same proofs and states.
pub open spec fn kp_eqv(a: KeysetProofs, b: KeysetProofs) -> bool {
    &&& a.proofs@.len() == b.proofs@.len()
    &&& forall|j: int| 0 <= j < a.proofs@.len() ==> proof_eqv(a.proofs@[j], b.proofs@[j])
    &&& a.states@ == b.states@
}

/// The view re-reads the source auth store: the same keysets, and exactly
/// the endpoint policies that carry a concrete authorization.
pub open spec fn auth_source_view_of(a: AuthSnapshot, v: AuthView) -> bool {
    &&& v.keysets@.len() == a.keysets@.len()
    &&& forall|i: int| 0 <= i < a.keysets@.len() ==> ks_eqv(v.keysets@[i], a.keysets@[i])
    &&& v.protected_endpoints@.len() == crate::migrate::eps_with_auth(
        a.protected_endpoints@,
        a.protected_endpoints@.len() as int,
    ).len()
    &&& forall|i: int|
        0 <= i < v.protected_endpoints@.len() ==> v.protected_endpoints@[i].0@
            == crate::migrate::eps_with_auth(
            a.protected_endpoints@,
            a.protected_endpoints@.len() as int,
        )[i].0 && v.protected_endpoints@[i].1 == crate::migrate::eps_with_auth(
            a.protected_endpoints@,
            a.protected_endpoints@.len() as int,
        )[i].1
}

/// The view re-reads the source store: every family as the snapshot holds
/// it, in the same order.
pub open spec fn source_view_of(src: SourceSnapshot, v: StoreView) -> bool {
    &&& mint_info_eqv(v.mint_info, src.mint_info)
    &&& v.quote_ttl == src.quote_ttl
    &&& v.keysets@.len() == src.keysets@.len()
    &&& forall|i: int| 0 <= i < src.keysets@.len() ==> ks_eqv(v.keysets@[i], src.keysets@[i])
    &&& v.keyset_proofs@.len() == src.keyset_proofs@.len()
    &&& forall|i: int|
        0 <= i < src.keyset_proofs@.len() ==> kp_eqv(v.keyset_proofs@[i], src.keyset_proofs@[i])
    &&& v.mint_quotes@.len() == src.mint_quotes@.len()
    &&& forall|i: int|
        0 <= i < src.mint_quotes@.len() ==> mint_quote_eqv(v.mint_quotes@[i], src.mint_quotes@[i])
    &&& v.melt_quotes@.len() == src.melt_quotes@.len()
    &&& forall|i: int|
        0 <= i < src.melt_quotes@.len() ==> melt_quote_eqv(v.melt_quotes@[i], src.melt_quotes@[i])
    &&& (v.auth is Some <==> src.auth is Some)
    &&& (src.auth is Some ==> auth_source_view_of(src.auth->0, v.auth->0))
}

/// The view re-reads a target auth store that applied the auth plan.
pub open spec fn auth_target_view_of(p: AuthPlan, v: AuthView) -> bool {
    &&& v.keysets@.len() == p.keysets@.len()
    &&& forall|i: int| 0 <= i < p.keysets@.len() ==> ks_eqv(v.keysets@[i], p.keysets@[i])
    &&& v.protected_endpoints@.len() == p.protected_endpoints@.len()
    &&& forall|i: int|
        0 <= i < p.protected_endpoints@.len() ==> v.protected_endpoints@[i].0@
            == p.protected_endpoints@[i].0@ && v.protected_endpoints@[i].1
            == p.protected_endpoints@[i].1
}

/// The view re-reads a target store that applied the plan: every written
/// family comes back as written, each keyset serves the proofs written
/// under it, and the state table records Spent for every identifier in a
/// spent bucket and Pending for every identifier in a pending bucket.
pub open spec fn target_view_of(plan: MigrationPlan, v: StoreView) -> bool {
    &&& mint_info_eqv(v.mint_info, plan.mint_info)
    &&& v.quote_ttl == plan.quote_ttl
    &&& v.keysets@.len() == plan.keysets@.len()
    &&& forall|i: int| 0 <= i < plan.keysets@.len() ==> ks_eqv(v.keysets@[i], plan.keysets@[i])
    &&& v.keyset_proofs@.len() == plan.keyset_writes@.len()
    &&& forall|i: int|
        0 <= i < plan.keyset_writes@.len() ==> v.keyset_proofs@[i].proofs@.len()
            == plan.keyset_writes@[i].proofs@.len()
    &&& forall|i: int, j: int|
        0 <= i < plan.keyset_writes@.len() && 0 <= j < plan.keyset_writes@[i].proofs@.len()
            ==> proof_eqv(v.keyset_proofs@[i].proofs@[j], plan.keyset_writes@[i].proofs@[j])
    &&& v.mint_quotes@.len() == plan.mint_quotes@.len()
    &&& forall|i: int|
        0 <= i < plan.mint_quotes@.len() ==> mint_quote_eqv(v.mint_quotes@[i], plan.mint_quotes@[i])
    &&& v.melt_quotes@.len() == plan.melt_quotes@.len()
    &&& forall|i: int|
        0 <= i < plan.melt_quotes@.len() ==> melt_quote_eqv(v.melt_quotes@[i], plan.melt_quotes@[i])
    &&& forall|i: int, k: int|
        0 <= i < plan.keyset_writes@.len() && 0 <= k < plan.keyset_writes@[i].spent_ys@.len()
            ==> has_state(v.proof_states@, plan.keyset_writes@[i].spent_ys@[k]@, ProofState::Spent)
    &&& forall|i: int, k: int|
        0 <= i < plan.keyset_writes@.len() && 0 <= k < plan.keyset_writes@[i].pending_ys@.len()
            ==> has_state(
            v.proof_states@,
            plan.keyset_writes@[i].pending_ys@[k]@,
            ProofState::Pending,
        )
    &&& (v.auth is Some <==> plan.auth is Some)
    &&& (plan.auth is Some ==> auth_target_view_of(plan.auth->0, v.auth->0))
}

/// Migration and reconciliation agree: when a migration run succeeds (its
/// plan matches the snapshot and every check it makes passed), a faithful
/// re-read of the source and a faithful read-back of a target that applied
/// the plan pass every reconciliation check. The source's recorded states
/// must all be spent or pending: any other recorded state is dropped by
/// migration and left to the target's default, which reconciliation would
/// report as a mismatch.
pub proof fn lemma_migrated_store_reconciles(
    src: SourceSnapshot,
    plan: MigrationPlan,
    sv: StoreView,
    tv: StoreView,
)
    requires
        src.wf(),
        forall|i: int, j: int|
            0 <= i < src.keyset_proofs@.len() && 0 <= j < src.keyset_proofs@[i].states@.len()
                && src.keyset_proofs@[i].states@[j] is Some ==> (src.keyset_proofs@[i].states@[j]
                == Some(ProofState::Spent) || src.keyset_proofs@[i].states@[j] == Some(
                ProofState::Pending,
            )),
        forall|i: int, j: int|
            0 <= i < j < src.keysets@.len() ==> src.keysets@[i].id@ != src.keysets@[j].id@,
        source_view_of(src, sv),
        target_view_of(plan, tv),
    ensures
        plan_matches(src, plan) && migrate_ok(src) ==> verify_ok(sv, tv),
{
    if plan_matches(src, plan) && migrate_ok(src) {
        // Keysets: same cardinality, and membership by the same index.
        assert forall|i: int| 0 <= i < sv.keysets@.len() implies ks_in(
            tv.keysets@,
            sv.keysets@[i],
        ) by {
            assert(ks_eqv(tv.keysets@[i], sv.keysets@[i]));
        }
        // Proofs: the only target keyset with a source keyset's identifier
        // is the one at the same index, and it serves the same proofs.
        assert forall|i: int| 0 <= i < sv.keysets@.len() implies family_checked(sv, tv, i) by {
            assert forall|k: int|
                0 <= k < tv.keysets@.len() && tv.keysets@[k].id@
                    == sv.keysets@[i].id@ implies keyset_proofs_ok(
                sv.keyset_proofs@[i],
                tv.keyset_proofs@[k].proofs@,
            ) by {
                assert(tv.keysets@[k].id@ == src.keysets@[k].id@);
                assert(sv.keysets@[i].id@ == src.keysets@[i].id@);
                if k != i {
                    assert(src.keysets@[k].id@ == src.keysets@[i].id@);
                    assert(false);
                }
                assert forall|j: int|
                    0 <= j < sv.keyset_proofs@[i].proofs@.len() implies crate::verify_migration::proof_in(
                    tv.keyset_proofs@[i].proofs@,
                    sv.keyset_proofs@[i].proofs@[j],
                ) by {
                    assert(proof_eqv(
                        tv.keyset_proofs@[i].proofs@[j],
                        sv.keyset_proofs@[i].proofs@[j],
                    ));
                }
            }
            assert(tv.keysets@[i].id@ == sv.keysets@[i].id@);
        }
        // Recorded states: every spent or pending proof's identifier sits
        // in its bucket, and the target records that bucket's state.
        assert forall|i: int| 0 <= i < sv.keysets@.len() implies states_checked(sv, tv, i) by {
            let sp = src.keyset_proofs@[i];
            assert forall|j: int|
                0 <= j < sv.keyset_proofs@[i].proofs@.len() && j
                    < sv.keyset_proofs@[i].states@.len() && sv.keyset_proofs@[i].states@[j]
                    is Some implies (y_of(sv.keyset_proofs@[i].proofs@[j].secret@) is Some
                && has_state(
                tv.proof_states@,
                y_of(sv.keyset_proofs@[i].proofs@[j].secret@)->0,
                sv.keyset_proofs@[i].states@[j]->0,
            )) by {
                assert(sv.keyset_proofs@[i].states@ == sp.states@);
                assert(proof_eqv(sv.keyset_proofs@[i].proofs@[j], sp.proofs@[j]));
                let st = sp.states@[j]->0;
                let y = y_of(sp.proofs@[j].secret@)->0;
                lemma_ys_with_state_contains(sp.proofs@, sp.states@, st, j, sp.states@.len() as int);
                let k = choose|k: int|
                    0 <= k < ys_with_state(sp.proofs@, sp.states@, st, sp.states@.len() as int).len()
                        && ys_with_state(sp.proofs@, sp.states@, st, sp.states@.len() as int)[k]
                        == y;
                if st == ProofState::Spent {
                    assert(plan.keyset_writes@[i].spent_ys@[k]@ == y);
                    assert(has_state(tv.proof_states@, y, ProofState::Spent));
                } else {
                    assert(plan.keyset_writes@[i].pending_ys@[k]@ == y);
                    assert(has_state(tv.proof_states@, y, ProofState::Pending));
                }
            }
        }
        // Quotes: same counts, and membership by the same index.
        assert forall|i: int| 0 <= i < sv.mint_quotes@.len() implies mint_quote_in(
            tv.mint_quotes@,
            sv.mint_quotes@[i],
        ) by {
            assert(mint_quote_eqv(tv.mint_quotes@[i], sv.mint_quotes@[i]));
        }
        assert forall|i: int| 0 <= i < sv.melt_quotes@.len() implies melt_quote_in(
            tv.melt_quotes@,
            sv.melt_quotes@[i],
        ) by {
            assert(melt_quote_eqv(tv.melt_quotes@[i], sv.melt_quotes@[i]));
        }
        // Auth: both views carry the sub-store exactly when the source has
        // one, with the same keysets and the same concrete policies.
        if sv.auth is Some {
            let sa = sv.auth->0;
            let ta = tv.auth->0;
            assert forall|i: int| 0 <= i < sa.keysets@.len() implies ks_in(
                ta.keysets@,
                sa.keysets@[i],
            ) by {
                assert(ks_eqv(ta.keysets@[i], sa.keysets@[i]));
            }
            assert forall|i: int| 0 <= i < sa.protected_endpoints@.len() implies ep_in(
                ta.protected_endpoints@,
                sa.protected_endpoints@[i].0@,
                sa.protected_endpoints@[i].1,
            ) by {
                assert(ta.protected_endpoints@[i].0@ == sa.protected_endpoints@[i].0@);
                assert(ta.protected_endpoints@[i].1 == sa.protected_endpoints@[i].1);
            }
        }
    }
}

} // verus!
