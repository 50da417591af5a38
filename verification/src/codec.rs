//! Resolution, normalization, decoding and re-encoding.
//!
//! Decoding is two layers. The resolver tries the candidate wire shapes in
//! a fixed precedence order — fully-specified, extension-without-sender,
//! extension-unsigned, lenient-native — and accepts the first whose
//! required fields are present and well-typed. The normalizer turns the
//! resolved shape into one canonical record: numeric strings become typed
//! integers, parity is resolved, a placeholder signature is synthesized
//! for unsigned documents, and the sender is made mandatory. Re-encoding
//! maps a canonical record back to exactly one wire shape.

use crate::hexnum::{
    encode_u128_opt_hex, encode_u64_opt_hex, encoded_opt_u128, encoded_opt_u64, parse_opt_u128,
    parse_opt_u64, parse_strict_opt_u128, parse_strict_opt_u64, parse_u128_opt_hex,
    parse_u64_opt_hex, strict_opt_u128, strict_opt_u64,
};
use crate::model::{
    DecodeError, EncodeError, NativeEnvelope, Signature, SignedTx, TransactionResponse,
    TxEip1559, TxEip2930, TxEip4844, TxEnvelope,
};
use crate::parity::{encode_parity, parity_quantity, parse_parity, spec_parity};
use crate::wire::{
    LenientSignedEip1559Tx, LenientSignedEip2930Tx, LenientSignedEip4844Tx, LenientSignedLegacyTx,
    LenientTxEnvelope, RegularTransaction, StandardEthereumTransaction, TransactionEither,
    TransactionWithoutFrom, TransactionWithoutFromUnsigned, WireBody, WireDocument,
};
use vstd::pervasive::unreached;
use vstd::prelude::*;

verus! {

// ------------------------------------------------------------------
// Shape fitting
// ------------------------------------------------------------------

/// The fully-specified shape: a native body with every optional body field
/// present, an explicit sender, the full signature fields, and strictly
/// well-formed numeric metadata.
pub open spec fn regular_fit(d: WireDocument) -> bool {
    &&& match d.body {
        WireBody::Legacy { .. } => true,
        WireBody::Eip2930 { access_list, .. } => access_list is Some,
        WireBody::Eip1559 { access_list, .. } => access_list is Some,
        WireBody::Eip4844 { access_list, blob_versioned_hashes, .. } => access_list is Some
            && blob_versioned_hashes is Some,
        WireBody::Eip712 { .. } => false,
    }
    &&& d.from is Some
    &&& d.r is Some
    &&& d.s is Some
    &&& (d.y_parity is Some || d.v is Some)
    &&& strict_opt_u64(d.block_number) is Some
    &&& strict_opt_u64(d.transaction_index) is Some
    &&& strict_opt_u128(d.effective_gas_price) is Some
}

/// The signed native envelope a fully-specified document resolves to.
pub open spec fn spec_regular_envelope(d: WireDocument) -> NativeEnvelope
    recommends
        regular_fit(d),
{
    let sig = Signature { r: d.r->0, s: d.s->0, parity: spec_parity(d.y_parity, d.v) };
    match d.body {
        WireBody::Legacy { tx } => NativeEnvelope::Legacy(SignedTx { tx, signature: sig }),
        WireBody::Eip2930 { core, access_list } => NativeEnvelope::Eip2930(
            SignedTx { tx: TxEip2930 { core, access_list: access_list->0 }, signature: sig },
        ),
        WireBody::Eip1559 { core, access_list } => NativeEnvelope::Eip1559(
            SignedTx { tx: TxEip1559 { core, access_list: access_list->0 }, signature: sig },
        ),
        WireBody::Eip4844 { core, access_list, blob_versioned_hashes } => NativeEnvelope::Eip4844(
            SignedTx {
                tx: TxEip4844 {
                    core,
                    access_list: access_list->0,
                    blob_versioned_hashes: blob_versioned_hashes->0,
                },
                signature: sig,
            },
        ),
        WireBody::Eip712 { .. } => arbitrary(),
    }
}

/// The resolved fully-specified shape.
pub open spec fn spec_regular(d: WireDocument) -> RegularTransaction
    recommends
        regular_fit(d),
{
    RegularTransaction {
        envelope: TxEnvelope::Native(spec_regular_envelope(d)),
        from: d.from->0,
        block_hash: d.block_hash,
        block_number: strict_opt_u64(d.block_number)->0,
        transaction_index: strict_opt_u64(d.transaction_index)->0,
        effective_gas_price: strict_opt_u128(d.effective_gas_price)->0,
    }
}

/// The extension shape with a signature but no top-level sender field.
pub open spec fn without_from_fit(d: WireDocument) -> bool {
    &&& d.body is Eip712
    &&& d.from is None
    &&& d.r is Some
    &&& d.s is Some
    &&& (d.y_parity is Some || d.v is Some)
}

/// The resolved extension-with-signature shape.
pub open spec fn spec_without_from(d: WireDocument) -> TransactionWithoutFrom
    recommends
        without_from_fit(d),
{
    match d.body {
        WireBody::Eip712 { tx } => TransactionWithoutFrom {
            tx,
            r: d.r->0,
            s: d.s->0,
            y_parity: d.y_parity,
            v: d.v,
            block_hash: d.block_hash,
            block_number: d.block_number,
            transaction_index: d.transaction_index,
            effective_gas_price: d.effective_gas_price,
        },
        _ => arbitrary(),
    }
}

/// The extension shape with no signature fields at all.
pub open spec fn unsigned_fit(d: WireDocument) -> bool {
    &&& d.body is Eip712
    &&& d.from is None
    &&& d.r is None
    &&& d.s is None
    &&& d.y_parity is None
    &&& d.v is None
}

/// The resolved unsigned extension shape.
pub open spec fn spec_unsigned(d: WireDocument) -> TransactionWithoutFromUnsigned
    recommends
        unsigned_fit(d),
{
    match d.body {
        WireBody::Eip712 { tx } => TransactionWithoutFromUnsigned {
            tx,
            block_hash: d.block_hash,
            block_number: d.block_number,
            transaction_index: d.transaction_index,
            effective_gas_price: d.effective_gas_price,
        },
        _ => arbitrary(),
    }
}

/// The lenient native shape: only sender, `r` and `s` are required.
pub open spec fn standard_fit(d: WireDocument) -> bool {
    &&& !(d.body is Eip712)
    &&& d.from is Some
    &&& d.r is Some
    &&& d.s is Some
}

/// An optional wire list against the list the lenient schema defaulted:
/// kept as-is when present, empty when absent.
pub open spec fn defaulted_list<T>(wire: Option<Vec<T>>, resolved: Vec<T>) -> bool {
    match wire {
        Option::Some(x) => resolved == x,
        Option::None => resolved@.len() == 0,
    }
}

/// The lenient native shape a document resolves to. Lists the wire had are
/// kept by value; absent ones are pinned to an empty default.
pub open spec fn standard_shape_rel(d: WireDocument, s: StandardEthereumTransaction) -> bool {
    &&& s.from == d.from->0
    &&& s.block_hash == d.block_hash
    &&& s.block_number == d.block_number
    &&& s.transaction_index == d.transaction_index
    &&& s.effective_gas_price == d.effective_gas_price
    &&& match (d.body, s.inner) {
        (WireBody::Legacy { tx }, LenientTxEnvelope::Legacy(l)) => l == (LenientSignedLegacyTx {
            tx,
            r: d.r->0,
            s: d.s->0,
            v: d.v,
        }),
        (WireBody::Eip2930 { core, access_list }, LenientTxEnvelope::Eip2930(l)) => {
            &&& l.tx.core == core
            &&& defaulted_list(access_list, l.tx.access_list)
            &&& l.r == d.r->0
            &&& l.s == d.s->0
            &&& l.y_parity == d.y_parity
            &&& l.v == d.v
        },
        (WireBody::Eip1559 { core, access_list }, LenientTxEnvelope::Eip1559(l)) => {
            &&& l.tx.core == core
            &&& defaulted_list(access_list, l.tx.access_list)
            &&& l.r == d.r->0
            &&& l.s == d.s->0
            &&& l.y_parity == d.y_parity
            &&& l.v == d.v
        },
        (
            WireBody::Eip4844 { core, access_list, blob_versioned_hashes },
            LenientTxEnvelope::Eip4844(l),
        ) => {
            &&& l.tx.core == core
            &&& defaulted_list(access_list, l.tx.access_list)
            &&& defaulted_list(blob_versioned_hashes, l.tx.blob_versioned_hashes)
            &&& l.r == d.r->0
            &&& l.s == d.s->0
            &&& l.y_parity == d.y_parity
            &&& l.v == d.v
        },
        _ => false,
    }
}

/// What resolution returns for a document: the first shape, in precedence
/// order, whose requirements the document meets, else a structural error.
pub open spec fn resolves_to(
    d: WireDocument,
    r: Result<TransactionEither, DecodeError>,
) -> bool {
    if regular_fit(d) {
        r == Ok::<TransactionEither, DecodeError>(TransactionEither::Regular(spec_regular(d)))
    } else if without_from_fit(d) {
        r == Ok::<TransactionEither, DecodeError>(
            TransactionEither::WithoutFrom(spec_without_from(d)),
        )
    } else if unsigned_fit(d) {
        r == Ok::<TransactionEither, DecodeError>(
            TransactionEither::WithoutFromUnsigned(spec_unsigned(d)),
        )
    } else if standard_fit(d) {
        r matches Ok(TransactionEither::StandardEthereum(s)) && standard_shape_rel(d, s)
    } else {
        r == Err::<TransactionEither, DecodeError>(DecodeError::StructuralMismatch)
    }
}

// ------------------------------------------------------------------
// Resolver
// ------------------------------------------------------------------

/// Resolve one wire document against the candidate shapes in precedence
/// order, accepting the first structural fit.
pub fn resolve(d: WireDocument) -> (r: Result<TransactionEither, DecodeError>)
    ensures
        resolves_to(d, r),
{
    let is_ext = matches!(&d.body, WireBody::Eip712 { .. });
    let has_from = d.from.is_some();
    let has_r = d.r.is_some();
    let has_s = d.s.is_some();
    let has_parity_source = d.y_parity.is_some() || d.v.is_some();
    let sig_absent = d.r.is_none() && d.s.is_none() && d.y_parity.is_none() && d.v.is_none();
    let body_strict = match &d.body {
        WireBody::Legacy { .. } => true,
        WireBody::Eip2930 { access_list, .. } => access_list.is_some(),
        WireBody::Eip1559 { access_list, .. } => access_list.is_some(),
        WireBody::Eip4844 { access_list, blob_versioned_hashes, .. } => access_list.is_some()
            && blob_versioned_hashes.is_some(),
        WireBody::Eip712 { .. } => false,
    };
    let bn = parse_strict_opt_u64(&d.block_number);
    let ti = parse_strict_opt_u64(&d.transaction_index);
    let gp = parse_strict_opt_u128(&d.effective_gas_price);
    if !is_ext && has_from && has_r && has_s && has_parity_source && body_strict && bn.is_some()
        && ti.is_some() && gp.is_some() {
        let parity = parse_parity(&d.y_parity, &d.v);
        let rr = match d.r {
            Option::Some(x) => x,
            Option::None => unreached(),
        };
        let ss = match d.s {
            Option::Some(x) => x,
            Option::None => unreached(),
        };
        let sig = Signature { r: rr, s: ss, parity };
        let from = match d.from {
            Option::Some(x) => x,
            Option::None => unreached(),
        };
        let env = match d.body {
            WireBody::Legacy { tx } => NativeEnvelope::Legacy(SignedTx { tx, signature: sig }),
            WireBody::Eip2930 { core, access_list } => match access_list {
                Option::Some(al) => NativeEnvelope::Eip2930(
                    SignedTx { tx: TxEip2930 { core, access_list: al }, signature: sig },
                ),
                Option::None => unreached(),
            },
            WireBody::Eip1559 { core, access_list } => match access_list {
                Option::Some(al) => NativeEnvelope::Eip1559(
                    SignedTx { tx: TxEip1559 { core, access_list: al }, signature: sig },
                ),
                Option::None => unreached(),
            },
            WireBody::Eip4844 { core, access_list, blob_versioned_hashes } => match (
                access_list,
                blob_versioned_hashes,
            ) {
                (Option::Some(al), Option::Some(bh)) => NativeEnvelope::Eip4844(
                    SignedTx {
                        tx: TxEip4844 { core, access_list: al, blob_versioned_hashes: bh },
                        signature: sig,
                    },
                ),
                _ => unreached(),
            },
            WireBody::Eip712 { .. } => unreached(),
        };
        let bn_v = match bn {
            Option::Some(x) => x,
            Option::None => unreached(),
        };
        let ti_v = match ti {
            Option::Some(x) => x,
            Option::None => unreached(),
        };
        let gp_v = match gp {
            Option::Some(x) => x,
            Option::None => unreached(),
        };
        return Ok(TransactionEither::Regular(RegularTransaction {
            envelope: TxEnvelope::Native(env),
            from,
            block_hash: d.block_hash,
            block_number: bn_v,
            transaction_index: ti_v,
            effective_gas_price: gp_v,
        }));
    }
    if is_ext && !has_from && has_r && has_s && has_parity_source {
        let rr = match d.r {
            Option::Some(x) => x,
            Option::None => unreached(),
        };
        let ss = match d.s {
            Option::Some(x) => x,
            Option::None => unreached(),
        };
        let tx = match d.body {
            WireBody::Eip712 { tx } => tx,
            _ => unreached(),
        };
        return Ok(TransactionEither::WithoutFrom(TransactionWithoutFrom {
            tx,
            r: rr,
            s: ss,
            y_parity: d.y_parity,
            v: d.v,
            block_hash: d.block_hash,
            block_number: d.block_number,
            transaction_index: d.transaction_index,
            effective_gas_price: d.effective_gas_price,
        }));
    }
    if is_ext && !has_from && sig_absent {
        let tx = match d.body {
            WireBody::Eip712 { tx } => tx,
            _ => unreached(),
        };
        return Ok(TransactionEither::WithoutFromUnsigned(TransactionWithoutFromUnsigned {
            tx,
            block_hash: d.block_hash,
            block_number: d.block_number,
            transaction_index: d.transaction_index,
            effective_gas_price: d.effective_gas_price,
        }));
    }
    if !is_ext && has_from && has_r && has_s {
        let rr = match d.r {
            Option::Some(x) => x,
            Option::None => unreached(),
        };
        let ss = match d.s {
            Option::Some(x) => x,
            Option::None => unreached(),
        };
        let from = match d.from {
            Option::Some(x) => x,
            Option::None => unreached(),
        };
        let inner = match d.body {
            WireBody::Legacy { tx } => LenientTxEnvelope::Legacy(LenientSignedLegacyTx {
                tx,
                r: rr,
                s: ss,
                v: d.v,
            }),
            WireBody::Eip2930 { core, access_list } => {
                let al = match access_list {
                    Option::Some(x) => x,
                    Option::None => Vec::new(),
                };
                LenientTxEnvelope::Eip2930(LenientSignedEip2930Tx {
                    tx: TxEip2930 { core, access_list: al },
                    r: rr,
                    s: ss,
                    y_parity: d.y_parity,
                    v: d.v,
                })
            },
            WireBody::Eip1559 { core, access_list } => {
                let al = match access_list {
                    Option::Some(x) => x,
                    Option::None => Vec::new(),
                };
                LenientTxEnvelope::Eip1559(LenientSignedEip1559Tx {
                    tx: TxEip1559 { core, access_list: al },
                    r: rr,
                    s: ss,
                    y_parity: d.y_parity,
                    v: d.v,
                })
            },
            WireBody::Eip4844 { core, access_list, blob_versioned_hashes } => {
                let al = match access_list {
                    Option::Some(x) => x,
                    Option::None => Vec::new(),
                };
                let bh = match blob_versioned_hashes {
                    Option::Some(x) => x,
                    Option::None => Vec::new(),
                };
                LenientTxEnvelope::Eip4844(LenientSignedEip4844Tx {
                    tx: TxEip4844 { core, access_list: al, blob_versioned_hashes: bh },
                    r: rr,
                    s: ss,
                    y_parity: d.y_parity,
                    v: d.v,
                })
            },
            WireBody::Eip712 { .. } => unreached(),
        };
        return Ok(TransactionEither::StandardEthereum(StandardEthereumTransaction {
            inner,
            from,
            block_hash: d.block_hash,
            block_number: d.block_number,
            transaction_index: d.transaction_index,
            effective_gas_price: d.effective_gas_price,
        }));
    }
    Err(DecodeError::StructuralMismatch)
}


// ------------------------------------------------------------------
// Normalizer
// ------------------------------------------------------------------

/// The blob-count invariant on a native envelope: a blob-carrying
/// transaction must name at least one blob.
pub open spec fn blob_invariant_native(env: NativeEnvelope) -> bool {
    match env {
        NativeEnvelope::Eip4844(sg) => sg.tx.blob_versioned_hashes@.len() > 0,
        _ => true,
    }
}

/// The blob-count invariant on a canonical envelope.
pub open spec fn blob_invariant(env: TxEnvelope) -> bool {
    match env {
        TxEnvelope::Native(n) => blob_invariant_native(n),
        TxEnvelope::Eip712(..) => true,
    }
}

/// The signed native envelope a lenient shape normalizes to: the shared
/// parity rules resolve each signature, with the legacy kind having no
/// `yParity` field of its own.
pub open spec fn spec_lenient_envelope(l: LenientTxEnvelope) -> NativeEnvelope {
    match l {
        LenientTxEnvelope::Legacy(t) => NativeEnvelope::Legacy(
            SignedTx {
                tx: t.tx,
                signature: Signature {
                    r: t.r,
                    s: t.s,
                    parity: spec_parity(Option::<String>::None, t.v),
                },
            },
        ),
        LenientTxEnvelope::Eip2930(t) => NativeEnvelope::Eip2930(
            SignedTx {
                tx: t.tx,
                signature: Signature { r: t.r, s: t.s, parity: spec_parity(t.y_parity, t.v) },
            },
        ),
        LenientTxEnvelope::Eip1559(t) => NativeEnvelope::Eip1559(
            SignedTx {
                tx: t.tx,
                signature: Signature { r: t.r, s: t.s, parity: spec_parity(t.y_parity, t.v) },
            },
        ),
        LenientTxEnvelope::Eip4844(t) => NativeEnvelope::Eip4844(
            SignedTx {
                tx: t.tx,
                signature: Signature { r: t.r, s: t.s, parity: spec_parity(t.y_parity, t.v) },
            },
        ),
    }
}

/// What normalization returns for each resolved shape.
pub open spec fn spec_normalize(e: TransactionEither) -> Result<TransactionResponse, DecodeError> {
    match e {
        TransactionEither::Regular(rt) => if blob_invariant(rt.envelope) {
            Ok(TransactionResponse {
                envelope: rt.envelope,
                sender: rt.from,
                block_hash: rt.block_hash,
                block_number: rt.block_number,
                transaction_index: rt.transaction_index,
                effective_gas_price: rt.effective_gas_price,
            })
        } else {
            Err(DecodeError::NormalizationFailure)
        },
        TransactionEither::WithoutFrom(w) => Ok(TransactionResponse {
            envelope: TxEnvelope::Eip712(
                SignedTx {
                    tx: w.tx,
                    signature: Signature { r: w.r, s: w.s, parity: spec_parity(w.y_parity, w.v) },
                },
            ),
            sender: w.tx.from,
            block_hash: w.block_hash,
            block_number: parse_opt_u64(w.block_number),
            transaction_index: parse_opt_u64(w.transaction_index),
            effective_gas_price: parse_opt_u128(w.effective_gas_price),
        }),
        TransactionEither::WithoutFromUnsigned(u) => Ok(TransactionResponse {
            envelope: TxEnvelope::Eip712(
                SignedTx { tx: u.tx, signature: Signature::spec_placeholder() },
            ),
            sender: u.tx.from,
            block_hash: u.block_hash,
            block_number: parse_opt_u64(u.block_number),
            transaction_index: parse_opt_u64(u.transaction_index),
            effective_gas_price: parse_opt_u128(u.effective_gas_price),
        }),
        TransactionEither::StandardEthereum(s) => {
            let env = spec_lenient_envelope(s.inner);
            if blob_invariant_native(env) {
                Ok(TransactionResponse {
                    envelope: TxEnvelope::Native(env),
                    sender: s.from,
                    block_hash: s.block_hash,
                    block_number: parse_opt_u64(s.block_number),
                    transaction_index: parse_opt_u64(s.transaction_index),
                    effective_gas_price: parse_opt_u128(s.effective_gas_price),
                })
            } else {
                Err(DecodeError::NormalizationFailure)
            }
        },
    }
}

/// Normalize one resolved shape into the canonical record.
pub fn normalize(e: TransactionEither) -> (r: Result<TransactionResponse, DecodeError>)
    ensures
        r == spec_normalize(e),
{
    match e {
        TransactionEither::Regular(rt) => {
            let blob_ok = match &rt.envelope {
                TxEnvelope::Native(NativeEnvelope::Eip4844(sg)) => sg
                    .tx
                    .blob_versioned_hashes
                    .len() > 0,
                _ => true,
            };
            if blob_ok {
                Ok(TransactionResponse {
                    envelope: rt.envelope,
                    sender: rt.from,
                    block_hash: rt.block_hash,
                    block_number: rt.block_number,
                    transaction_index: rt.transaction_index,
                    effective_gas_price: rt.effective_gas_price,
                })
            } else {
                Err(DecodeError::NormalizationFailure)
            }
        },
        TransactionEither::WithoutFrom(w) => {
            let parity = parse_parity(&w.y_parity, &w.v);
            let block_number = parse_u64_opt_hex(&w.block_number);
            let transaction_index = parse_u64_opt_hex(&w.transaction_index);
            let effective_gas_price = parse_u128_opt_hex(&w.effective_gas_price);
            let sender = w.tx.from;
            Ok(TransactionResponse {
                envelope: TxEnvelope::Eip712(
                    SignedTx {
                        tx: w.tx,
                        signature: Signature { r: w.r, s: w.s, parity },
                    },
                ),
                sender,
                block_hash: w.block_hash,
                block_number,
                transaction_index,
                effective_gas_price,
            })
        },
        TransactionEither::WithoutFromUnsigned(u) => {
            let block_number = parse_u64_opt_hex(&u.block_number);
            let transaction_index = parse_u64_opt_hex(&u.transaction_index);
            let effective_gas_price = parse_u128_opt_hex(&u.effective_gas_price);
            let sender = u.tx.from;
            Ok(TransactionResponse {
                envelope: TxEnvelope::Eip712(
                    SignedTx { tx: u.tx, signature: Signature::placeholder() },
                ),
                sender,
                block_hash: u.block_hash,
                block_number,
                transaction_index,
                effective_gas_price,
            })
        },
        TransactionEither::StandardEthereum(s) => {
            let env = lenient_envelope(s.inner);
            let blob_ok = match &env {
                NativeEnvelope::Eip4844(sg) => sg.tx.blob_versioned_hashes.len() > 0,
                _ => true,
            };
            if blob_ok {
                Ok(TransactionResponse {
                    envelope: TxEnvelope::Native(env),
                    sender: s.from,
                    block_hash: s.block_hash,
                    block_number: parse_u64_opt_hex(&s.block_number),
                    transaction_index: parse_u64_opt_hex(&s.transaction_index),
                    effective_gas_price: parse_u128_opt_hex(&s.effective_gas_price),
                })
            } else {
                Err(DecodeError::NormalizationFailure)
            }
        },
    }
}

/// Resolve each lenient signature and wrap the body as signed.
fn lenient_envelope(l: LenientTxEnvelope) -> (r: NativeEnvelope)
    ensures
        r == spec_lenient_envelope(l),
{
    match l {
        LenientTxEnvelope::Legacy(t) => {
            let no_y_parity: Option<String> = None;
            let parity = parse_parity(&no_y_parity, &t.v);
            NativeEnvelope::Legacy(
                SignedTx { tx: t.tx, signature: Signature { r: t.r, s: t.s, parity } },
            )
        },
        LenientTxEnvelope::Eip2930(t) => {
            let parity = parse_parity(&t.y_parity, &t.v);
            NativeEnvelope::Eip2930(
                SignedTx { tx: t.tx, signature: Signature { r: t.r, s: t.s, parity } },
            )
        },
        LenientTxEnvelope::Eip1559(t) => {
            let parity = parse_parity(&t.y_parity, &t.v);
            NativeEnvelope::Eip1559(
                SignedTx { tx: t.tx, signature: Signature { r: t.r, s: t.s, parity } },
            )
        },
        LenientTxEnvelope::Eip4844(t) => {
            let parity = parse_parity(&t.y_parity, &t.v);
            NativeEnvelope::Eip4844(
                SignedTx { tx: t.tx, signature: Signature { r: t.r, s: t.s, parity } },
            )
        },
    }
}

// ------------------------------------------------------------------
// Decoding
// ------------------------------------------------------------------

/// What decoding returns for a document: the resolved shape, in precedence
/// order, handed to the normalizer.
pub open spec fn decodes_to(
    d: WireDocument,
    r: Result<TransactionResponse, DecodeError>,
) -> bool {
    if regular_fit(d) {
        r == spec_normalize(TransactionEither::Regular(spec_regular(d)))
    } else if without_from_fit(d) {
        r == spec_normalize(TransactionEither::WithoutFrom(spec_without_from(d)))
    } else if unsigned_fit(d) {
        r == spec_normalize(TransactionEither::WithoutFromUnsigned(spec_unsigned(d)))
    } else if standard_fit(d) {
        exists|s: StandardEthereumTransaction|
            #[trigger] standard_shape_rel(d, s) && r == spec_normalize(
                TransactionEither::StandardEthereum(s),
            )
    } else {
        r == Err::<TransactionResponse, DecodeError>(DecodeError::StructuralMismatch)
    }
}

/// Decode one wire document into the canonical record: resolve, then
/// normalize. Every success is well-formed.
pub fn decode_document(d: WireDocument) -> (r: Result<TransactionResponse, DecodeError>)
    ensures
        decodes_to(d, r),
        r matches Ok(tx) ==> tx.wf(),
{
    let ghost d0 = d;
    match resolve(d) {
        Ok(e) => {
            let ghost e0 = e;
            let out = normalize(e);
            proof {
                if !regular_fit(d0) && !without_from_fit(d0) && !unsigned_fit(d0)
                    && standard_fit(d0) {
                    match e0 {
                        TransactionEither::StandardEthereum(s) => {
                            assert(standard_shape_rel(d0, s) && out == spec_normalize(
                                TransactionEither::StandardEthereum(s),
                            ));
                        },
                        _ => {
                            assert(false);
                        },
                    }
                }
            }
            out
        },
        Err(er) => Err(er),
    }
}


// ------------------------------------------------------------------
// Re-encoding
// ------------------------------------------------------------------

/// The wire document fields that serialize one resolved signature: `r`,
/// `s` and a canonical `yParity`, with no legacy `v` emitted.
pub open spec fn signature_document(d: WireDocument, sig: Signature) -> bool {
    &&& d.r == Some(sig.r)
    &&& d.s == Some(sig.s)
    &&& (d.y_parity matches Some(ps) && ps@ == parity_quantity(sig.parity))
    &&& d.v is None
}

/// The wire body and signature fields that serialize one signed native
/// envelope: every optional body field is emitted.
pub open spec fn native_body_document(d: WireDocument, env: NativeEnvelope) -> bool {
    match env {
        NativeEnvelope::Legacy(sg) => d.body == (WireBody::Legacy { tx: sg.tx })
            && signature_document(d, sg.signature),
        NativeEnvelope::Eip2930(sg) => d.body == (WireBody::Eip2930 {
            core: sg.tx.core,
            access_list: Some(sg.tx.access_list),
        }) && signature_document(d, sg.signature),
        NativeEnvelope::Eip1559(sg) => d.body == (WireBody::Eip1559 {
            core: sg.tx.core,
            access_list: Some(sg.tx.access_list),
        }) && signature_document(d, sg.signature),
        NativeEnvelope::Eip4844(sg) => d.body == (WireBody::Eip4844 {
            core: sg.tx.core,
            access_list: Some(sg.tx.access_list),
            blob_versioned_hashes: Some(sg.tx.blob_versioned_hashes),
        }) && signature_document(d, sg.signature),
    }
}

/// The wire document that serializes one resolved shape.
pub open spec fn document_of(d: WireDocument, e: TransactionEither) -> bool {
    match e {
        TransactionEither::Regular(rt) => {
            &&& match rt.envelope {
                TxEnvelope::Native(env) => native_body_document(d, env),
                TxEnvelope::Eip712(sg) => d.body == (WireBody::Eip712 { tx: sg.tx })
                    && signature_document(d, sg.signature),
            }
            &&& d.from == Some(rt.from)
            &&& d.block_hash == rt.block_hash
            &&& encoded_opt_u64(d.block_number, rt.block_number)
            &&& encoded_opt_u64(d.transaction_index, rt.transaction_index)
            &&& encoded_opt_u128(d.effective_gas_price, rt.effective_gas_price)
        },
        TransactionEither::WithoutFrom(w) => {
            &&& d.body == (WireBody::Eip712 { tx: w.tx })
            &&& d.from is None
            &&& d.r == Some(w.r)
            &&& d.s == Some(w.s)
            &&& d.y_parity == w.y_parity
            &&& d.v == w.v
            &&& d.block_hash == w.block_hash
            &&& d.block_number == w.block_number
            &&& d.transaction_index == w.transaction_index
            &&& d.effective_gas_price == w.effective_gas_price
        },
        TransactionEither::WithoutFromUnsigned(u) => {
            &&& d.body == (WireBody::Eip712 { tx: u.tx })
            &&& d.from is None
            &&& d.r is None
            &&& d.s is None
            &&& d.y_parity is None
            &&& d.v is None
            &&& d.block_hash == u.block_hash
            &&& d.block_number == u.block_number
            &&& d.transaction_index == u.transaction_index
            &&& d.effective_gas_price == u.effective_gas_price
        },
        TransactionEither::StandardEthereum(s) => {
            &&& match s.inner {
                LenientTxEnvelope::Legacy(t) => {
                    &&& d.body == (WireBody::Legacy { tx: t.tx })
                    &&& d.r == Some(t.r)
                    &&& d.s == Some(t.s)
                    &&& d.y_parity is None
                    &&& d.v == t.v
                },
                LenientTxEnvelope::Eip2930(t) => {
                    &&& d.body == (WireBody::Eip2930 {
                        core: t.tx.core,
                        access_list: Some(t.tx.access_list),
                    })
                    &&& d.r == Some(t.r)
                    &&& d.s == Some(t.s)
                    &&& d.y_parity == t.y_parity
                    &&& d.v == t.v
                },
                LenientTxEnvelope::Eip1559(t) => {
                    &&& d.body == (WireBody::Eip1559 {
                        core: t.tx.core,
                        access_list: Some(t.tx.access_list),
                    })
                    &&& d.r == Some(t.r)
                    &&& d.s == Some(t.s)
                    &&& d.y_parity == t.y_parity
                    &&& d.v == t.v
                },
                LenientTxEnvelope::Eip4844(t) => {
                    &&& d.body == (WireBody::Eip4844 {
                        core: t.tx.core,
                        access_list: Some(t.tx.access_list),
                        blob_versioned_hashes: Some(t.tx.blob_versioned_hashes),
                    })
                    &&& d.r == Some(t.r)
                    &&& d.s == Some(t.s)
                    &&& d.y_parity == t.y_parity
                    &&& d.v == t.v
                },
            }
            &&& d.from == Some(s.from)
            &&& d.block_hash == s.block_hash
            &&& d.block_number == s.block_number
            &&& d.transaction_index == s.transaction_index
            &&& d.effective_gas_price == s.effective_gas_price
        },
    }
}

/// Serialize one resolved shape back into a wire document.
pub fn doc_of_either(e: TransactionEither) -> (d: WireDocument)
    ensures
        document_of(d, e),
{
    match e {
        TransactionEither::Regular(rt) => {
            let block_number = encode_u64_opt_hex(&rt.block_number);
            let transaction_index = encode_u64_opt_hex(&rt.transaction_index);
            let effective_gas_price = encode_u128_opt_hex(&rt.effective_gas_price);
            let (body, sig) = match rt.envelope {
                TxEnvelope::Native(NativeEnvelope::Legacy(sg)) => (
                    WireBody::Legacy { tx: sg.tx },
                    sg.signature,
                ),
                TxEnvelope::Native(NativeEnvelope::Eip2930(sg)) => (
                    WireBody::Eip2930 { core: sg.tx.core, access_list: Some(sg.tx.access_list) },
                    sg.signature,
                ),
                TxEnvelope::Native(NativeEnvelope::Eip1559(sg)) => (
                    WireBody::Eip1559 { core: sg.tx.core, access_list: Some(sg.tx.access_list) },
                    sg.signature,
                ),
                TxEnvelope::Native(NativeEnvelope::Eip4844(sg)) => (
                    WireBody::Eip4844 {
                        core: sg.tx.core,
                        access_list: Some(sg.tx.access_list),
                        blob_versioned_hashes: Some(sg.tx.blob_versioned_hashes),
                    },
                    sg.signature,
                ),
                TxEnvelope::Eip712(sg) => (WireBody::Eip712 { tx: sg.tx }, sg.signature),
            };
            WireDocument {
                body,
                from: Some(rt.from),
                r: Some(sig.r),
                s: Some(sig.s),
                y_parity: Some(encode_parity(sig.parity)),
                v: None,
                block_hash: rt.block_hash,
                block_number,
                transaction_index,
                effective_gas_price,
            }
        },
        TransactionEither::WithoutFrom(w) => WireDocument {
            body: WireBody::Eip712 { tx: w.tx },
            from: None,
            r: Some(w.r),
            s: Some(w.s),
            y_parity: w.y_parity,
            v: w.v,
            block_hash: w.block_hash,
            block_number: w.block_number,
            transaction_index: w.transaction_index,
            effective_gas_price: w.effective_gas_price,
        },
        TransactionEither::WithoutFromUnsigned(u) => WireDocument {
            body: WireBody::Eip712 { tx: u.tx },
            from: None,
            r: None,
            s: None,
            y_parity: None,
            v: None,
            block_hash: u.block_hash,
            block_number: u.block_number,
            transaction_index: u.transaction_index,
            effective_gas_price: u.effective_gas_price,
        },
        TransactionEither::StandardEthereum(s) => {
            let from = s.from;
            let (body, rr, ss, y_parity, v) = match s.inner {
                LenientTxEnvelope::Legacy(t) => (
                    WireBody::Legacy { tx: t.tx },
                    t.r,
                    t.s,
                    None,
                    t.v,
                ),
                LenientTxEnvelope::Eip2930(t) => (
                    WireBody::Eip2930 { core: t.tx.core, access_list: Some(t.tx.access_list) },
                    t.r,
                    t.s,
                    t.y_parity,
                    t.v,
                ),
                LenientTxEnvelope::Eip1559(t) => (
                    WireBody::Eip1559 { core: t.tx.core, access_list: Some(t.tx.access_list) },
                    t.r,
                    t.s,
                    t.y_parity,
                    t.v,
                ),
                LenientTxEnvelope::Eip4844(t) => (
                    WireBody::Eip4844 {
                        core: t.tx.core,
                        access_list: Some(t.tx.access_list),
                        blob_versioned_hashes: Some(t.tx.blob_versioned_hashes),
                    },
                    t.r,
                    t.s,
                    t.y_parity,
                    t.v,
                ),
            };
            WireDocument {
                body,
                from: Some(from),
                r: Some(rr),
                s: Some(ss),
                y_parity,
                v,
                block_hash: s.block_hash,
                block_number: s.block_number,
                transaction_index: s.transaction_index,
                effective_gas_price: s.effective_gas_price,
            }
        },
    }
}

/// The resolved shape a canonical record re-encodes to: a native envelope
/// becomes the fully-specified shape, an extension envelope the
/// without-sender shape. The lenient shapes are never produced.
pub open spec fn reencodes_to(tx: TransactionResponse, e: TransactionEither) -> bool {
    match tx.envelope {
        TxEnvelope::Native(..) => e == TransactionEither::Regular(
            RegularTransaction {
                envelope: tx.envelope,
                from: tx.sender,
                block_hash: tx.block_hash,
                block_number: tx.block_number,
                transaction_index: tx.transaction_index,
                effective_gas_price: tx.effective_gas_price,
            },
        ),
        TxEnvelope::Eip712(sg) => {
            &&& e matches TransactionEither::WithoutFrom(w)
            &&& w.tx == sg.tx
            &&& w.r == sg.signature.r
            &&& w.s == sg.signature.s
            &&& (w.y_parity matches Some(ps) && ps@ == parity_quantity(sg.signature.parity))
            &&& w.v is None
            &&& w.block_hash == tx.block_hash
            &&& encoded_opt_u64(w.block_number, tx.block_number)
            &&& encoded_opt_u64(w.transaction_index, tx.transaction_index)
            &&& encoded_opt_u128(w.effective_gas_price, tx.effective_gas_price)
        },
    }
}

/// Re-encode one canonical record as exactly one wire shape.
pub fn encode(tx: TransactionResponse) -> (r: Result<TransactionEither, EncodeError>)
    ensures
        r matches Ok(e) && reencodes_to(tx, e),
{
    match tx.envelope {
        TxEnvelope::Native(env) => Ok(TransactionEither::Regular(RegularTransaction {
            envelope: TxEnvelope::Native(env),
            from: tx.sender,
            block_hash: tx.block_hash,
            block_number: tx.block_number,
            transaction_index: tx.transaction_index,
            effective_gas_price: tx.effective_gas_price,
        })),
        TxEnvelope::Eip712(sg) => Ok(TransactionEither::WithoutFrom(TransactionWithoutFrom {
            tx: sg.tx,
            r: sg.signature.r,
            s: sg.signature.s,
            y_parity: Some(encode_parity(sg.signature.parity)),
            v: None,
            block_hash: tx.block_hash,
            block_number: encode_u64_opt_hex(&tx.block_number),
            transaction_index: encode_u64_opt_hex(&tx.transaction_index),
            effective_gas_price: encode_u128_opt_hex(&tx.effective_gas_price),
        })),
    }
}

/// The wire document that re-encoding a canonical record produces.
pub open spec fn is_encoding(d: WireDocument, tx: TransactionResponse) -> bool {
    match tx.envelope {
        TxEnvelope::Native(env) => {
            &&& native_body_document(d, env)
            &&& d.from == Some(tx.sender)
            &&& d.block_hash == tx.block_hash
            &&& encoded_opt_u64(d.block_number, tx.block_number)
            &&& encoded_opt_u64(d.transaction_index, tx.transaction_index)
            &&& encoded_opt_u128(d.effective_gas_price, tx.effective_gas_price)
        },
        TxEnvelope::Eip712(sg) => {
            &&& d.body == (WireBody::Eip712 { tx: sg.tx })
            &&& d.from is None
            &&& d.r == Some(sg.signature.r)
            &&& d.s == Some(sg.signature.s)
            &&& (d.y_parity matches Some(ps) && ps@ == parity_quantity(sg.signature.parity))
            &&& d.v is None
            &&& d.block_hash == tx.block_hash
            &&& encoded_opt_u64(d.block_number, tx.block_number)
            &&& encoded_opt_u64(d.transaction_index, tx.transaction_index)
            &&& encoded_opt_u128(d.effective_gas_price, tx.effective_gas_price)
        },
    }
}

/// Re-encode one canonical record all the way to a wire document.
pub fn encode_document(tx: TransactionResponse) -> (r: Result<WireDocument, EncodeError>)
    ensures
        r matches Ok(d) && is_encoding(d, tx),
{
    match encode(tx) {
        Ok(e) => Ok(doc_of_either(e)),
        Err(..) => unreached(),
    }
}

} // verus!
