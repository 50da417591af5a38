//! Laws the decoder and re-encoder obey, stated and proved once for all
//! inputs.

use crate::codec::{
    decodes_to, is_encoding, regular_fit, resolves_to, spec_normalize, spec_regular,
    spec_regular_envelope, spec_unsigned, spec_without_from, standard_fit, standard_shape_rel,
    unsigned_fit, without_from_fit,
};
use crate::hexnum::{
    hex_digit_val, hex_val, is_hex_digit, is_space, lemma_opt_round_trip_u128,
    lemma_opt_round_trip_u64, lemma_strict_opt_round_trip_u128, lemma_strict_opt_round_trip_u64,
    parse_hex_u64, parse_opt_u128, parse_opt_u64, strip_hex_prefix, trim, trim_back, trim_front,
};
use crate::model::{
    DecodeError, NativeEnvelope, Signature, SignedTx, TransactionResponse, TxEip1559, TxEip2930,
    TxEip4844, TxEnvelope,
};
use crate::parity::{lemma_parity_round_trip, spec_parity};
use crate::wire::{RegularTransaction, TransactionEither, WireDocument};
use vstd::prelude::*;

verus! {

// ------------------------------------------------------------------
// Resolver precedence
// ------------------------------------------------------------------

/// A well-formed fully-specified document resolves as the fully-specified
/// shape: it never falls through to a later shape.
pub proof fn lemma_regular_no_fall_through(
    d: WireDocument,
    r: Result<TransactionEither, DecodeError>,
)
    requires
        regular_fit(d),
        resolves_to(d, r),
    ensures
        r == Ok::<TransactionEither, DecodeError>(
            TransactionEither::Regular(spec_regular(d)),
        ),
{
}

/// A well-formed extension-with-signature document resolves as the
/// without-sender shape: it never falls through to a later shape.
pub proof fn lemma_without_from_no_fall_through(
    d: WireDocument,
    r: Result<TransactionEither, DecodeError>,
)
    requires
        without_from_fit(d),
        resolves_to(d, r),
    ensures
        r == Ok::<TransactionEither, DecodeError>(
            TransactionEither::WithoutFrom(spec_without_from(d)),
        ),
{
    assert(!regular_fit(d));
}

/// A well-formed unsigned extension document resolves as the unsigned
/// shape: it never falls through to the lenient shape or to an error.
pub proof fn lemma_unsigned_no_fall_through(
    d: WireDocument,
    r: Result<TransactionEither, DecodeError>,
)
    requires
        unsigned_fit(d),
        resolves_to(d, r),
    ensures
        r == Ok::<TransactionEither, DecodeError>(
            TransactionEither::WithoutFromUnsigned(spec_unsigned(d)),
        ),
{
    assert(!regular_fit(d));
    assert(!without_from_fit(d));
}

/// A well-formed lenient native document always resolves: as the lenient
/// shape, or as the stricter fully-specified shape it also happens to
/// satisfy — never as a structural error and never as an extension shape.
pub proof fn lemma_standard_never_mismatches(
    d: WireDocument,
    r: Result<TransactionEither, DecodeError>,
)
    requires
        standard_fit(d),
        resolves_to(d, r),
    ensures
        r matches Ok(e) && (e is Regular || e is StandardEthereum),
{
    assert(!without_from_fit(d));
    assert(!unsigned_fit(d));
}

// ------------------------------------------------------------------
// Numeric field boundaries
// ------------------------------------------------------------------

/// An absent numeric field and an explicit `0x0` decode differently:
/// absent gives `None`, `0x0` gives zero.
pub proof fn lemma_absent_and_zero_differ(zero: String)
    requires
        zero@ == seq!['0', 'x', '0'],
    ensures
        parse_opt_u64(Option::None) == Option::<u64>::None,
        parse_opt_u64(Some(zero)) == Some(0u64),
        parse_opt_u128(Some(zero)) == Some(0u128),
        parse_opt_u64(Some(zero)) != parse_opt_u64(Option::None),
{
    let q = zero@;
    assert(q.last() == q[2]);
    assert(!is_space(q[0]) && !is_space(q[2]));
    assert(trim_front(q) == q);
    assert(trim_back(q) == q);
    let dg = strip_hex_prefix(trim(q));
    assert(dg =~= seq!['0']);
    assert(forall|i: int| 0 <= i < dg.len() ==> is_hex_digit(#[trigger] dg[i])) by {
        assert(dg[0] == '0');
    }
    assert(dg.drop_last() =~= Seq::<char>::empty());
    assert(hex_val(dg) == hex_val(Seq::<char>::empty()) * 16 + hex_digit_val('0'));
    assert(hex_val(dg) == 0);
}

/// The parity rules on their boundary values: `yParity` `0x1` means true
/// and `0x0` false whatever `v` holds; with `yParity` absent an even `v`
/// (`0x1c`, twenty-eight) means true; with both absent the default is
/// false.
pub proof fn lemma_parity_boundaries(y1: String, y0: String, v28: String, v: Option<String>)
    requires
        y1@ == seq!['0', 'x', '1'],
        y0@ == seq!['0', 'x', '0'],
        v28@ == seq!['0', 'x', '1', 'c'],
    ensures
        spec_parity(Some(y1), v) == true,
        spec_parity(Some(y0), v) == false,
        spec_parity(Option::None, Some(v28)) == true,
        spec_parity(Option::None, Option::None) == false,
{
    lemma_parity_round_trip(y1, true, v);
    lemma_parity_round_trip(y0, false, v);
    let q = v28@;
    assert(q.last() == q[3]);
    assert(!is_space(q[0]) && !is_space(q[3]));
    assert(trim_front(q) == q);
    assert(trim_back(q) == q);
    let dg = strip_hex_prefix(trim(q));
    assert(dg =~= seq!['1', 'c']);
    assert(forall|i: int| 0 <= i < dg.len() ==> is_hex_digit(#[trigger] dg[i])) by {
        assert(dg[0] == '1' && dg[1] == 'c');
    }
    assert(dg.drop_last() =~= seq!['1']);
    assert(seq!['1'].drop_last() =~= Seq::<char>::empty());
    assert(hex_val(seq!['1']) == hex_val(Seq::<char>::empty()) * 16 + hex_digit_val('1'));
    assert(hex_val(dg) == hex_val(seq!['1']) * 16 + hex_digit_val('c'));
    assert(hex_val(dg) == 28);
    assert(parse_hex_u64(q) == Some(28u64));
}

// ------------------------------------------------------------------
// Signature synthesis
// ------------------------------------------------------------------

/// Decoding an unsigned extension document always succeeds and yields the
/// synthesized placeholder signature: zero `r`, zero `s`, parity false.
pub proof fn lemma_unsigned_synthesis(
    d: WireDocument,
    r: Result<TransactionResponse, DecodeError>,
)
    requires
        unsigned_fit(d),
        decodes_to(d, r),
    ensures
        r matches Ok(tx) && tx.envelope matches TxEnvelope::Eip712(sg) && sg.signature
            == Signature::spec_placeholder(),
{
    assert(!regular_fit(d));
    assert(!without_from_fit(d));
}

// ------------------------------------------------------------------
// Round trips
// ------------------------------------------------------------------

/// Every decoded record satisfies the canonical invariant.
pub proof fn lemma_decoded_wf(d: WireDocument, tx: TransactionResponse)
    requires
        decodes_to(d, Ok(tx)),
    ensures
        tx.wf(),
{
    if regular_fit(d) {
    } else if without_from_fit(d) {
    } else if unsigned_fit(d) {
    } else if standard_fit(d) {
        let s = choose|s|
            #[trigger] standard_shape_rel(d, s) && Ok::<TransactionResponse, DecodeError>(tx)
                == spec_normalize(TransactionEither::StandardEthereum(s));
    } else {
    }
}

/// Re-decoding the wire document that re-encodes a well-formed canonical
/// record yields that record again, unchanged: normalization is a no-op
/// on what is already canonical.
pub proof fn lemma_encode_then_decode(d: WireDocument, tx: TransactionResponse)
    requires
        tx.wf(),
        is_encoding(d, tx),
    ensures
        decodes_to(d, Ok(tx)),
{
    match tx.envelope {
        TxEnvelope::Native(env) => {
            lemma_strict_opt_round_trip_u64(d.block_number, tx.block_number);
            lemma_strict_opt_round_trip_u64(d.transaction_index, tx.transaction_index);
            lemma_strict_opt_round_trip_u128(d.effective_gas_price, tx.effective_gas_price);
            assert(regular_fit(d));
            let sg_parity = match env {
                NativeEnvelope::Legacy(sg) => sg.signature.parity,
                NativeEnvelope::Eip2930(sg) => sg.signature.parity,
                NativeEnvelope::Eip1559(sg) => sg.signature.parity,
                NativeEnvelope::Eip4844(sg) => sg.signature.parity,
            };
            match d.y_parity {
                Option::Some(ps) => {
                    lemma_parity_round_trip(ps, sg_parity, d.v);
                },
                Option::None => {
                    assert(false);
                },
            }
            assert(spec_regular_envelope(d) == env) by {
                match env {
                    NativeEnvelope::Legacy(sg) => {
                        assert(spec_regular_envelope(d) == NativeEnvelope::Legacy(
                            SignedTx { tx: sg.tx, signature: sg.signature },
                        ));
                    },
                    NativeEnvelope::Eip2930(sg) => {
                        assert(spec_regular_envelope(d) == NativeEnvelope::Eip2930(
                            SignedTx {
                                tx: TxEip2930 {
                                    core: sg.tx.core,
                                    access_list: sg.tx.access_list,
                                },
                                signature: sg.signature,
                            },
                        ));
                    },
                    NativeEnvelope::Eip1559(sg) => {
                        assert(spec_regular_envelope(d) == NativeEnvelope::Eip1559(
                            SignedTx {
                                tx: TxEip1559 {
                                    core: sg.tx.core,
                                    access_list: sg.tx.access_list,
                                },
                                signature: sg.signature,
                            },
                        ));
                    },
                    NativeEnvelope::Eip4844(sg) => {
                        assert(spec_regular_envelope(d) == NativeEnvelope::Eip4844(
                            SignedTx {
                                tx: TxEip4844 {
                                    core: sg.tx.core,
                                    access_list: sg.tx.access_list,
                                    blob_versioned_hashes: sg.tx.blob_versioned_hashes,
                                },
                                signature: sg.signature,
                            },
                        ));
                    },
                }
            }
            assert(spec_regular(d) == (RegularTransaction {
                envelope: tx.envelope,
                from: tx.sender,
                block_hash: tx.block_hash,
                block_number: tx.block_number,
                transaction_index: tx.transaction_index,
                effective_gas_price: tx.effective_gas_price,
            }));
            assert(spec_normalize(TransactionEither::Regular(spec_regular(d)))
                == Ok::<TransactionResponse, DecodeError>(tx));
        },
        TxEnvelope::Eip712(sg) => {
            assert(!regular_fit(d));
            assert(without_from_fit(d));
            match d.y_parity {
                Option::Some(ps) => {
                    lemma_parity_round_trip(ps, sg.signature.parity, d.v);
                },
                Option::None => {
                    assert(false);
                },
            }
            lemma_opt_round_trip_u64(d.block_number, tx.block_number);
            lemma_opt_round_trip_u64(d.transaction_index, tx.transaction_index);
            lemma_opt_round_trip_u128(d.effective_gas_price, tx.effective_gas_price);
            let w = spec_without_from(d);
            assert(w.tx == sg.tx);
            assert(spec_normalize(TransactionEither::WithoutFrom(w))
                == Ok::<TransactionResponse, DecodeError>(tx));
        },
    }
}

/// The round-trip law: decoding, re-encoding and decoding again gives the
/// same canonical record as decoding once.
pub proof fn lemma_round_trip(d1: WireDocument, tx: TransactionResponse, d2: WireDocument)
    requires
        decodes_to(d1, Ok(tx)),
        is_encoding(d2, tx),
    ensures
        decodes_to(d2, Ok(tx)),
{
    lemma_decoded_wf(d1, tx);
    lemma_encode_then_decode(d2, tx);
}

} // verus!
