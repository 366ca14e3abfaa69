//! Plain-value model of the two stores' contents.
//!
//! Every entity is held as owned byte strings and integers, so that the
//! migration engine and the reconciliation checks can be verified over them.
//! Opaque record content that is only moved, never inspected, sits in an
//! `info` byte string; fields the logic reads (identifiers, amounts, secrets,
//! spend states) are broken out as plain values.

use vstd::prelude::*;

use crate::bytes::bytes_eq;

verus! {

/// The spend state a proof can be recorded with.
#[derive(Clone, Copy, Debug, PartialEq, Eq, Structural)]
pub enum ProofState {
    Unspent,
    Pending,
    Spent,
    Reserved,
    PendingSpent,
}

/// The kind of authorization a protected endpoint demands.
#[derive(Clone, Copy, Debug, PartialEq, Eq, Structural)]
pub enum AuthKind {
    Clear,
    Blind,
}

/// The mint's singleton descriptive record, copied byte for byte.
#[derive(Debug)]
pub struct MintInfo {
    pub info: Vec<u8>,
}

/// The singleton quote time-to-live policy.
#[derive(Clone, Copy, Debug, PartialEq, Eq, Structural)]
pub struct QuoteTtl {
    pub mint_ttl: u64,
    pub melt_ttl: u64,
}

/// A keyset's identifier and its remaining metadata.
#[derive(Debug)]
pub struct KeysetInfo {
    pub id: Vec<u8>,
    pub info: Vec<u8>,
}

/// A proof: the keyset it belongs to, the secret its identifier `Y` is
/// derived from, and the rest of its content.
#[derive(Debug)]
pub struct ProofRec {
    pub keyset_id: Vec<u8>,
    pub secret: Vec<u8>,
    pub info: Vec<u8>,
}

/// A mint quote.
#[derive(Debug)]
pub struct MintQuote {
    pub id: Vec<u8>,
    pub info: Vec<u8>,
}

/// A melt quote.
#[derive(Debug)]
pub struct MeltQuote {
    pub id: Vec<u8>,
    pub info: Vec<u8>,
}

/// A melt-request record paired with a melt quote, and its payment key.
#[derive(Debug)]
pub struct MeltRequest {
    pub request: Vec<u8>,
    pub payment_key: Vec<u8>,
}

/// A blind signature as decoded from the raw table: the fields the checks
/// read (amount, keyset) plus the encoded record itself.
#[derive(Debug)]
pub struct SigRec {
    pub amount: u64,
    pub keyset_id: Vec<u8>,
    pub value: Vec<u8>,
}

/// An auth proof as decoded from the raw table: the secret its identifier is
/// derived from plus the encoded record itself.
#[derive(Debug)]
pub struct AuthProofRec {
    pub secret: Vec<u8>,
    pub value: Vec<u8>,
}

/// One raw entry of a key-value table: a 33-byte compressed-point key and a
/// JSON-encoded value.
#[derive(Debug)]
pub struct RawEntry {
    pub key: Vec<u8>,
    pub value: Vec<u8>,
}

/// A keyset's proofs and the parallel list of their recorded states.
#[derive(Debug)]
pub struct KeysetProofs {
    pub proofs: Vec<ProofRec>,
    pub states: Vec<Option<ProofState>>,
}

/// The optional auth sub-store, read once from the source.
#[derive(Debug)]
pub struct AuthSnapshot {
    /// Raw blind-signature table entries.
    pub raw_signatures: Vec<RawEntry>,
    /// Raw proof table entries.
    pub raw_proofs: Vec<RawEntry>,
    /// Recorded states, parallel to `raw_proofs`.
    pub states: Vec<Option<ProofState>>,
    pub keysets: Vec<KeysetInfo>,
    /// Endpoint policies; an absent authorization is dropped by migration.
    pub protected_endpoints: Vec<(Vec<u8>, Option<AuthKind>)>,
}

/// Everything the migration reads from the source store, as one immutable
/// snapshot.
#[derive(Debug)]
pub struct SourceSnapshot {
    pub mint_info: MintInfo,
    pub quote_ttl: QuoteTtl,
    pub melt_quotes: Vec<MeltQuote>,
    /// Best-effort melt-request lookups, parallel to `melt_quotes`.
    pub melt_requests: Vec<Option<MeltRequest>>,
    pub mint_quotes: Vec<MintQuote>,
    pub keysets: Vec<KeysetInfo>,
    /// Proofs and states per keyset, parallel to `keysets`.
    pub keyset_proofs: Vec<KeysetProofs>,
    /// Raw blind-signature table entries.
    pub raw_signatures: Vec<RawEntry>,
    pub auth: Option<AuthSnapshot>,
}

impl SourceSnapshot {
    /// The snapshot's lists that mirror one accessor each are parallel.
    pub open spec fn wf(&self) -> bool {
        &&& self.keyset_proofs@.len() == self.keysets@.len()
        &&& self.melt_requests@.len() == self.melt_quotes@.len()
    }
}

/// Value equality of mint info records.
pub open spec fn mint_info_eqv(a: MintInfo, b: MintInfo) -> bool {
    a.info@ == b.info@
}

/// Value equality of keyset records.
pub open spec fn ks_eqv(a: KeysetInfo, b: KeysetInfo) -> bool {
    a.id@ == b.id@ && a.info@ == b.info@
}

/// Value equality of proofs.
pub open spec fn proof_eqv(a: ProofRec, b: ProofRec) -> bool {
    a.keyset_id@ == b.keyset_id@ && a.secret@ == b.secret@ && a.info@ == b.info@
}

/// Value equality of mint quotes.
pub open spec fn mint_quote_eqv(a: MintQuote, b: MintQuote) -> bool {
    a.id@ == b.id@ && a.info@ == b.info@
}

/// Value equality of melt quotes.
pub open spec fn melt_quote_eqv(a: MeltQuote, b: MeltQuote) -> bool {
    a.id@ == b.id@ && a.info@ == b.info@
}

/// Value equality of melt requests.
pub open spec fn melt_request_eqv(a: MeltRequest, b: MeltRequest) -> bool {
    a.request@ == b.request@ && a.payment_key@ == b.payment_key@
}

/// Decides `ks_eqv`.
pub fn ks_eq(a: &KeysetInfo, b: &KeysetInfo) -> (r: bool)
    ensures
        r == ks_eqv(*a, *b),
{
    bytes_eq(&a.id, &b.id) && bytes_eq(&a.info, &b.info)
}

/// Decides `proof_eqv`.
pub fn proof_eq(a: &ProofRec, b: &ProofRec) -> (r: bool)
    ensures
        r == proof_eqv(*a, *b),
{
    bytes_eq(&a.keyset_id, &b.keyset_id) && bytes_eq(&a.secret, &b.secret) && bytes_eq(
        &a.info,
        &b.info,
    )
}

/// Decides `mint_quote_eqv`.
pub fn mint_quote_eq(a: &MintQuote, b: &MintQuote) -> (r: bool)
    ensures
        r == mint_quote_eqv(*a, *b),
{
    bytes_eq(&a.id, &b.id) && bytes_eq(&a.info, &b.info)
}

/// Decides `melt_quote_eqv`.
pub fn melt_quote_eq(a: &MeltQuote, b: &MeltQuote) -> (r: bool)
    ensures
        r == melt_quote_eqv(*a, *b),
{
    bytes_eq(&a.id, &b.id) && bytes_eq(&a.info, &b.info)
}

} // verus!
