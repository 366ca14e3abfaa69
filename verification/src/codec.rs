//! Decoding of raw table entries: JSON-encoded records and compressed-point
//! keys, through the same parsers the stores use.

use vstd::prelude::*;

use crate::model::{AuthProofRec, RawEntry, SigRec};
use crate::bytes::bytes_copy;

verus! {

/// What decoding a raw blind-signature value yields: the signature's amount
/// and keyset identifier, or nothing when the bytes are not a valid encoded
/// signature. The result depends on the bytes alone.
pub uninterp spec fn sig_of(v: Seq<u8>) -> Option<(u64, Seq<u8>)>;

/// Whether a byte string is a valid compressed curve point, as the key
/// parser accepts it. Depends on the bytes alone.
pub uninterp spec fn pubkey_ok(b: Seq<u8>) -> bool;

/// What decoding a raw auth-proof value yields: the proof's secret, or
/// nothing when the bytes are not a valid encoded auth proof. Depends on the
/// bytes alone.
pub uninterp spec fn auth_secret_of(v: Seq<u8>) -> Option<Seq<u8>>;

/// The proof identifier `Y` derived from a secret, or nothing when the
/// derivation finds no curve point. Depends on the secret alone.
pub uninterp spec fn y_of(secret: Seq<u8>) -> Option<Seq<u8>>;

/// Relies on serde_json::from_slice for cashu's blind-signature record: the
/// parse is a function of the input bytes alone; on success the amount and
/// keyset identifier are the record's fields.
#[verifier::external_body]
fn parse_blind_signature(v: &Vec<u8>) -> (r: Option<(u64, Vec<u8>)>)
    ensures
        r is Some <==> sig_of(v@) is Some,
        r is Some ==> (r->0).0 == (sig_of(v@)->0).0 && ((r->0).1)@ == (sig_of(v@)->0).1,
{
    match serde_json::from_slice::<cdk_common::BlindSignature>(v.as_slice()) {
        Ok(sig) => Some((u64::from(sig.amount), sig.keyset_id.to_bytes())),
        Err(_) => None,
    }
}

/// Relies on cashu PublicKey::from_slice: it accepts exactly the byte
/// strings that encode a curve point, and acceptance depends on the bytes
/// alone.
#[verifier::external_body]
fn check_pubkey(b: &Vec<u8>) -> (r: bool)
    ensures
        r == pubkey_ok(b@),
{
    cdk_common::PublicKey::from_slice(b.as_slice()).is_ok()
}

/// Relies on serde_json::from_slice for cashu's auth-proof record: the parse
/// is a function of the input bytes alone; on success the returned bytes are
/// the record's secret.
#[verifier::external_body]
fn parse_auth_proof(v: &Vec<u8>) -> (r: Option<Vec<u8>>)
    ensures
        r is Some <==> auth_secret_of(v@) is Some,
        r is Some ==> r->0@ == auth_secret_of(v@)->0,
{
    match serde_json::from_slice::<cdk_common::AuthProof>(v.as_slice()) {
        Ok(p) => Some(p.secret.to_bytes()),
        Err(_) => None,
    }
}

/// Relies on cashu's hash_to_curve: a deterministic map from a message to a
/// compressed curve point, failing only when no point is found.
#[verifier::external_body]
pub(crate) fn derive_y(secret: &Vec<u8>) -> (r: Option<Vec<u8>>)
    ensures
        r is Some <==> y_of(secret@) is Some,
        r is Some ==> r->0@ == y_of(secret@)->0,
{
    match cdk_common::dhke::hash_to_curve(secret.as_slice()) {
        Ok(pk) => Some(pk.to_bytes().to_vec()),
        Err(_) => None,
    }
}

/// Why decoding a raw entry failed.
#[derive(Clone, Copy, Debug, PartialEq, Eq, Structural)]
pub enum DecodeError {
    /// The value bytes are not a valid encoded signature.
    Signature,
    /// The key bytes are not a valid compressed curve point.
    PublicKey,
}

/// Decodes one raw auth-proof entry into a proof record: the decoded secret
/// together with the encoded record itself.
pub(crate) fn parse_auth_proof_entry(e: &RawEntry) -> (r: Option<AuthProofRec>)
    ensures
        r is Some <==> auth_secret_of(e.value@) is Some,
        r is Some ==> r->0.secret@ == auth_secret_of(e.value@)->0 && r->0.value@ == e.value@,
{
    match parse_auth_proof(&e.value) {
        Some(secret) => Some(AuthProofRec { secret, value: bytes_copy(&e.value) }),
        None => None,
    }
}

/// Whether a raw blind-signature entry decodes: its value parses as a
/// signature and its key as a compressed point.
pub open spec fn entry_decodes(e: RawEntry) -> bool {
    sig_of(e.value@) is Some && pubkey_ok(e.key@)
}

/// Decodes one raw blind-signature entry into its message key and signature
/// record. The signature value is decoded first, then the key, as the stored
/// table is read.
pub fn decode_entry(e: &RawEntry) -> (r: Result<(Vec<u8>, SigRec), DecodeError>)
    ensures
        r is Ok <==> entry_decodes(*e),
        r is Ok ==> {
            &&& r->Ok_0.0@ == e.key@
            &&& r->Ok_0.1.amount == (sig_of(e.value@)->0).0
            &&& r->Ok_0.1.keyset_id@ == (sig_of(e.value@)->0).1
            &&& r->Ok_0.1.value@ == e.value@
        },
        r == Err::<(Vec<u8>, SigRec), DecodeError>(DecodeError::Signature) <==> !(sig_of(e.value@)
            is Some),
        r == Err::<(Vec<u8>, SigRec), DecodeError>(DecodeError::PublicKey) <==> (sig_of(e.value@)
            is Some && !pubkey_ok(e.key@)),
{
    let parsed = parse_blind_signature(&e.value);
    match parsed {
        None => Err(DecodeError::Signature),
        Some((amount, keyset_id)) => {
            if !check_pubkey(&e.key) {
                Err(DecodeError::PublicKey)
            } else {
                let sig = SigRec { amount, keyset_id, value: bytes_copy(&e.value) };
                Ok((bytes_copy(&e.key), sig))
            }
        },
    }
}

/// Decoding is deterministic: two decodes of the same raw entry yield the
/// same outcome, and on success the same message key and signature record.
pub proof fn lemma_decode_deterministic(
    e: RawEntry,
    r1: Result<(Vec<u8>, SigRec), DecodeError>,
    r2: Result<(Vec<u8>, SigRec), DecodeError>,
)
    requires
        r1 is Ok <==> entry_decodes(e),
        r1 is Ok ==> (r1->Ok_0.0@ == e.key@ && r1->Ok_0.1.amount == (sig_of(e.value@)->0).0
            && r1->Ok_0.1.keyset_id@ == (sig_of(e.value@)->0).1 && r1->Ok_0.1.value@ == e.value@),
        r2 is Ok <==> entry_decodes(e),
        r2 is Ok ==> (r2->Ok_0.0@ == e.key@ && r2->Ok_0.1.amount == (sig_of(e.value@)->0).0
            && r2->Ok_0.1.keyset_id@ == (sig_of(e.value@)->0).1 && r2->Ok_0.1.value@ == e.value@),
    ensures
        r1 is Ok <==> r2 is Ok,
        r1 is Ok ==> (r1->Ok_0.0@ == r2->Ok_0.0@ && r1->Ok_0.1.amount == r2->Ok_0.1.amount
            && r1->Ok_0.1.keyset_id@ == r2->Ok_0.1.keyset_id@ && r1->Ok_0.1.value@
            == r2->Ok_0.1.value@),
{
}

} // verus!
