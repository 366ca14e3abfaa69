//! Reconciliation of blind signatures: per keyset, both stores must hold
//! the same number of signatures and the same total amount, and the grand
//! totals across all keysets must agree.

use vstd::prelude::*;

use crate::model::{KeysetInfo, SigRec};

verus! {

/// Why blind-signature reconciliation failed; the payload is the index of
/// the keyset at fault.
#[derive(Clone, Copy, Debug, PartialEq, Eq, Structural)]
pub enum SigVerifyError {
    /// The two stores hold a different number of signatures for a keyset.
    CountMismatch(usize),
    /// The two stores' signature amounts add up differently for a keyset.
    AmountMismatch(usize),
}

/// The verifier's success summary.
#[derive(Clone, Copy, Debug)]
pub struct SigTotals {
    pub total_sigs: u64,
    pub total_amount: u64,
}

/// The sum of the first `n` signature amounts.
pub open spec fn sig_sum_to(s: Seq<SigRec>, n: int) -> int
    decreases n,
{
    if n <= 0 {
        0
    } else {
        sig_sum_to(s, n - 1) + s[n - 1].amount
    }
}

/// The sum of a signature list's amounts.
pub open spec fn sig_sum(s: Seq<SigRec>) -> int {
    sig_sum_to(s, s.len() as int)
}

/// The grand total over the first `n` keysets' signature lists.
pub open spec fn grand_sum_to(a: Seq<Vec<SigRec>>, n: int) -> int
    decreases n,
{
    if n <= 0 {
        0
    } else {
        grand_sum_to(a, n - 1) + sig_sum(a[n - 1]@)
    }
}

/// The grand total over all keysets' signature lists.
pub open spec fn grand_sum(a: Seq<Vec<SigRec>>) -> int {
    grand_sum_to(a, a.len() as int)
}

/// Per keyset, equal signature counts and equal amount sums.
pub open spec fn sig_families_match(a: Seq<Vec<SigRec>>, b: Seq<Vec<SigRec>>) -> bool {
    forall|i: int|
        0 <= i < a.len() ==> a[i]@.len() == b[i]@.len() && sig_sum(a[i]@) == sig_sum(b[i]@)
}

/// Partial amount sums never decrease as more signatures are added.
pub proof fn lemma_sig_sum_monotone(s: Seq<SigRec>, n: int, m: int)
    requires
        0 <= n <= m,
    ensures
        sig_sum_to(s, n) <= sig_sum_to(s, m),
    decreases m,
{
    if m > n {
        lemma_sig_sum_monotone(s, n, m - 1);
    }
}

/// Amount sums are never negative.
pub proof fn lemma_sig_sum_nonneg(s: Seq<SigRec>, n: int)
    ensures
        sig_sum_to(s, n) >= 0,
    decreases n,
{
    if n > 0 {
        lemma_sig_sum_nonneg(s, n - 1);
    }
}

/// Partial grand totals never decrease as more keysets are added.
pub proof fn lemma_grand_sum_monotone(a: Seq<Vec<SigRec>>, n: int, m: int)
    requires
        0 <= n <= m,
    ensures
        grand_sum_to(a, n) <= grand_sum_to(a, m),
    decreases m,
{
    if m > n {
        lemma_grand_sum_monotone(a, n, m - 1);
        lemma_sig_sum_nonneg(a[m - 1]@, a[m - 1]@.len() as int);
    }
}

/// Equal per-keyset amount sums carry over to the grand total: when every
/// keyset's signatures add up the same in both stores, so do all keysets
/// together.
pub proof fn lemma_grand_total(a: Seq<Vec<SigRec>>, b: Seq<Vec<SigRec>>, n: int)
    requires
        n <= a.len(),
        n <= b.len(),
        forall|i: int| 0 <= i < n ==> sig_sum(a[i]@) == sig_sum(b[i]@),
    ensures
        grand_sum_to(a, n) == grand_sum_to(b, n),
    decreases n,
{
    if n > 0 {
        lemma_grand_total(a, b, n - 1);
    }
}

/// Adds up a signature list's amounts.
pub fn keyset_sum(v: &Vec<SigRec>) -> (r: u64)
    requires
        sig_sum(v@) <= u64::MAX,
    ensures
        r == sig_sum(v@),
{
    let mut acc: u64 = 0;
    let mut j: usize = 0;
    while j < v.len()
        invariant
            j <= v@.len(),
            sig_sum(v@) <= u64::MAX,
            acc == sig_sum_to(v@, j as int),
        decreases v@.len() - j,
    {
        proof {
            lemma_sig_sum_monotone(v@, j + 1, v@.len() as int);
            lemma_sig_sum_nonneg(v@, j as int);
        }
        acc = acc + v[j].amount;
        j += 1;
    }
    acc
}

/// Reconciles blind signatures between the two stores, keyset by keyset:
/// counts and amount sums must agree everywhere, and then the grand totals
/// agree as well. The signature lists are parallel to `keysets`, one pair
/// per keyset, as each store serves them.
pub fn verify_blind_signatures(
    keysets: &Vec<KeysetInfo>,
    source_sigs: &Vec<Vec<SigRec>>,
    target_sigs: &Vec<Vec<SigRec>>,
) -> (r: Result<SigTotals, SigVerifyError>)
    requires
        source_sigs@.len() == keysets@.len(),
        target_sigs@.len() == keysets@.len(),
        grand_sum(source_sigs@) <= u64::MAX,
        grand_sum(target_sigs@) <= u64::MAX,
    ensures
        r is Ok <==> sig_families_match(source_sigs@, target_sigs@),
        r is Ok ==> r->Ok_0.total_amount == grand_sum(source_sigs@) && grand_sum(source_sigs@)
            == grand_sum(target_sigs@),
        r matches Err(SigVerifyError::CountMismatch(i)) ==> 0 <= i < keysets@.len()
            && source_sigs@[i as int]@.len() != target_sigs@[i as int]@.len(),
        r matches Err(SigVerifyError::AmountMismatch(i)) ==> 0 <= i < keysets@.len() && sig_sum(
            source_sigs@[i as int]@,
        ) != sig_sum(target_sigs@[i as int]@),
{
    let mut total_source: u64 = 0;
    let mut total_target: u64 = 0;
    let mut total_sigs: u64 = 0;
    let mut i: usize = 0;
    while i < keysets.len()
        invariant
            source_sigs@.len() == keysets@.len(),
            target_sigs@.len() == keysets@.len(),
            grand_sum(source_sigs@) <= u64::MAX,
            grand_sum(target_sigs@) <= u64::MAX,
            i <= keysets@.len(),
            total_source == grand_sum_to(source_sigs@, i as int),
            total_target == grand_sum_to(target_sigs@, i as int),
            forall|k: int|
                0 <= k < i ==> source_sigs@[k]@.len() == target_sigs@[k]@.len() && sig_sum(
                    source_sigs@[k]@,
                ) == sig_sum(target_sigs@[k]@),
        decreases keysets@.len() - i,
    {
        proof {
            lemma_grand_sum_monotone(source_sigs@, i + 1, source_sigs@.len() as int);
            lemma_grand_sum_monotone(source_sigs@, i as int, i + 1);
            lemma_grand_sum_monotone(source_sigs@, 0, i as int);
            lemma_grand_sum_monotone(target_sigs@, i + 1, target_sigs@.len() as int);
            lemma_grand_sum_monotone(target_sigs@, i as int, i + 1);
            lemma_grand_sum_monotone(target_sigs@, 0, i as int);
            lemma_sig_sum_nonneg(source_sigs@[i as int]@, source_sigs@[i as int]@.len() as int);
            lemma_sig_sum_nonneg(target_sigs@[i as int]@, target_sigs@[i as int]@.len() as int);
        }
        let source_amount = keyset_sum(&source_sigs[i]);
        let target_amount = keyset_sum(&target_sigs[i]);
        if source_sigs[i].len() != target_sigs[i].len() {
            return Err(SigVerifyError::CountMismatch(i));
        }
        if source_amount != target_amount {
            return Err(SigVerifyError::AmountMismatch(i));
        }
        total_source = total_source + source_amount;
        total_target = total_target + target_amount;
        let n = source_sigs[i].len() as u64;
        total_sigs = if total_sigs <= u64::MAX - n {
            total_sigs + n
        } else {
            u64::MAX
        };
        i += 1;
    }
    proof {
        lemma_grand_total(source_sigs@, target_sigs@, keysets@.len() as int);
    }
    Ok(SigTotals { total_sigs, total_amount: total_source })
}

} // verus!
