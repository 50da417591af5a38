//! End-to-end decoding, precedence, synthesis and round-trip scenarios.

use tx_normalizer::codec::{decode_document, encode_document, normalize, resolve};
use tx_normalizer::model::{
    Address, DecodeError, Eip2930Core, Eip4844Core, Hash256, NativeEnvelope, Signature,
    TransactionResponse, TxEnvelope, TxEip712, TxLegacy, Uint256,
};
use tx_normalizer::parity::parse_parity;
use tx_normalizer::wire::{TransactionEither, WireBody, WireDocument};

fn addr(n: u32) -> Address {
    Address { hi: n, lo: 0x1111 }
}

fn hash(n: u128) -> Hash256 {
    Hash256 { hi: n, lo: 7 }
}

fn u256(n: u128) -> Uint256 {
    Uint256 { hi: 0, lo: n }
}

fn legacy_body() -> TxLegacy {
    TxLegacy {
        chain_id: Some(270),
        nonce: 4,
        gas_price: 250_000_000,
        gas_limit: 21_000,
        to: Some(addr(9)),
        value: u256(1_000_000),
        input: vec![1, 2, 3],
    }
}

fn eip712_body() -> TxEip712 {
    TxEip712 {
        chain_id: 270,
        from: addr(77),
        nonce: 1,
        gas_limit: 5_000_000,
        gas_per_pubdata: 50_000,
        max_fee_per_gas: 250_000_000,
        max_priority_fee_per_gas: 0,
        to: Some(addr(8)),
        value: u256(0),
        input: vec![0xde, 0xad],
    }
}

fn eip2930_core() -> Eip2930Core {
    Eip2930Core {
        chain_id: 1,
        nonce: 2,
        gas_price: 77,
        gas_limit: 30_000,
        to: None,
        value: u256(5),
        input: vec![],
    }
}

fn eip4844_core() -> Eip4844Core {
    Eip4844Core {
        chain_id: 1,
        nonce: 3,
        gas_limit: 30_000,
        max_fee_per_gas: 100,
        max_priority_fee_per_gas: 2,
        max_fee_per_blob_gas: 1,
        to: addr(3),
        value: u256(0),
        input: vec![],
    }
}

fn doc(body: WireBody) -> WireDocument {
    WireDocument {
        body,
        from: None,
        r: None,
        s: None,
        y_parity: None,
        v: None,
        block_hash: None,
        block_number: None,
        transaction_index: None,
        effective_gas_price: None,
    }
}

#[test]
fn scenario_legacy_with_odd_v() {
    // A legacy document with v = 0x1b (27, odd) decodes to a native legacy
    // envelope with parity false.
    let mut d = doc(WireBody::Legacy { tx: legacy_body() });
    d.from = Some(addr(1));
    d.r = Some(u256(10));
    d.s = Some(u256(11));
    d.v = Some("0x1b".to_string());
    let tx = decode_document(d).unwrap();
    assert_eq!(tx.sender, addr(1));
    match &tx.envelope {
        TxEnvelope::Native(NativeEnvelope::Legacy(sg)) => {
            assert_eq!(sg.tx, legacy_body());
            assert_eq!(sg.signature.parity, false);
            assert_eq!(sg.signature.r, u256(10));
        }
        other => panic!("wrong envelope: {:?}", other),
    }
}

#[test]
fn scenario_legacy_with_even_v() {
    let mut d = doc(WireBody::Legacy { tx: legacy_body() });
    d.from = Some(addr(1));
    d.r = Some(u256(10));
    d.s = Some(u256(11));
    d.v = Some("0x1c".to_string());
    let tx = decode_document(d).unwrap();
    match &tx.envelope {
        TxEnvelope::Native(NativeEnvelope::Legacy(sg)) => {
            assert_eq!(sg.signature.parity, true);
        }
        other => panic!("wrong envelope: {:?}", other),
    }
}

#[test]
fn scenario_extension_without_from() {
    // A protocol-extension document with no top-level sender but a valid
    // signature decodes; the sender is the body's embedded address.
    let mut d = doc(WireBody::Eip712 { tx: eip712_body() });
    d.r = Some(u256(21));
    d.s = Some(u256(22));
    d.y_parity = Some("0x1".to_string());
    let tx = decode_document(d).unwrap();
    assert_eq!(tx.sender, addr(77));
    match &tx.envelope {
        TxEnvelope::Eip712(sg) => {
            assert_eq!(sg.tx, eip712_body());
            assert_eq!(sg.signature.parity, true);
        }
        other => panic!("wrong envelope: {:?}", other),
    }
}

#[test]
fn scenario_extension_unsigned_synthesizes_zero_signature() {
    // No signature fields at all: decode succeeds with an all-zero
    // placeholder, and re-encoding omits a top-level sender.
    let mut d = doc(WireBody::Eip712 { tx: eip712_body() });
    d.block_number = Some("0x10".to_string());
    let tx = decode_document(d).unwrap();
    assert_eq!(tx.block_number, Some(16));
    match &tx.envelope {
        TxEnvelope::Eip712(sg) => {
            assert_eq!(sg.signature.r, u256(0));
            assert_eq!(sg.signature.s, u256(0));
            assert_eq!(sg.signature.parity, false);
        }
        other => panic!("wrong envelope: {:?}", other),
    }
    let d2 = encode_document(tx).unwrap();
    assert_eq!(d2.from, None);
    assert!(matches!(d2.body, WireBody::Eip712 { .. }));
    assert_eq!(d2.r, Some(u256(0)));
}

#[test]
fn scenario_empty_block_number_degrades_to_none() {
    let mut d = doc(WireBody::Legacy { tx: legacy_body() });
    d.from = Some(addr(1));
    d.r = Some(u256(1));
    d.s = Some(u256(2));
    d.v = Some("0x1b".to_string());
    d.block_number = Some("".to_string());
    let tx = decode_document(d).unwrap();
    assert_eq!(tx.block_number, None);
}

#[test]
fn absent_and_zero_block_number_differ() {
    let mut d1 = doc(WireBody::Eip712 { tx: eip712_body() });
    d1.block_number = None;
    let mut d2 = doc(WireBody::Eip712 { tx: eip712_body() });
    d2.block_number = Some("0x0".to_string());
    let t1 = decode_document(d1).unwrap();
    let t2 = decode_document(d2).unwrap();
    assert_eq!(t1.block_number, None);
    assert_eq!(t2.block_number, Some(0));
    assert_ne!(t1.block_number, t2.block_number);
}

#[test]
fn parity_rules() {
    let y = |s: &str| Some(s.to_string());
    assert_eq!(parse_parity(&y("0x1"), &None), true);
    assert_eq!(parse_parity(&y("0x0"), &None), false);
    assert_eq!(parse_parity(&y("0x01"), &None), true);
    assert_eq!(parse_parity(&y("1"), &None), true);
    assert_eq!(parse_parity(&y("0x2"), &None), false);
    assert_eq!(parse_parity(&y("garbage"), &y("0x1c")), false);
    assert_eq!(parse_parity(&None, &y("0x1c")), true);
    assert_eq!(parse_parity(&None, &y("0x1b")), false);
    assert_eq!(parse_parity(&None, &y("zz")), false);
    assert_eq!(parse_parity(&None, &None), false);
}

#[test]
fn precedence_regular_never_falls_through() {
    // A fully-specified legacy document resolves as Regular.
    let mut d = doc(WireBody::Legacy { tx: legacy_body() });
    d.from = Some(addr(1));
    d.r = Some(u256(1));
    d.s = Some(u256(2));
    d.v = Some("0x1b".to_string());
    d.block_number = Some("0x10".to_string());
    assert!(matches!(
        resolve(d),
        Ok(TransactionEither::Regular(..))
    ));
}

#[test]
fn precedence_without_from() {
    let mut d = doc(WireBody::Eip712 { tx: eip712_body() });
    d.r = Some(u256(1));
    d.s = Some(u256(2));
    d.y_parity = Some("0x0".to_string());
    assert!(matches!(
        resolve(d),
        Ok(TransactionEither::WithoutFrom(..))
    ));
}

#[test]
fn precedence_without_from_unsigned() {
    let d = doc(WireBody::Eip712 { tx: eip712_body() });
    assert!(matches!(
        resolve(d),
        Ok(TransactionEither::WithoutFromUnsigned(..))
    ));
}

#[test]
fn precedence_lenient_when_not_strict() {
    // Missing access list: the fully-specified shape does not fit, the
    // lenient one does.
    let mut d = doc(WireBody::Eip2930 {
        core: eip2930_core(),
        access_list: None,
    });
    d.from = Some(addr(2));
    d.r = Some(u256(1));
    d.s = Some(u256(2));
    d.y_parity = Some("0x1".to_string());
    assert!(matches!(
        resolve(d),
        Ok(TransactionEither::StandardEthereum(..))
    ));
}

#[test]
fn precedence_lenient_when_block_number_not_strict() {
    // A bare (unprefixed) block number fails the strict shape but is still
    // parsed leniently.
    let mut d = doc(WireBody::Legacy { tx: legacy_body() });
    d.from = Some(addr(1));
    d.r = Some(u256(1));
    d.s = Some(u256(2));
    d.v = Some("0x1c".to_string());
    d.block_number = Some("12".to_string());
    let e = resolve(d).unwrap();
    assert!(matches!(e, TransactionEither::StandardEthereum(..)));
    let tx = normalize(e).unwrap();
    assert_eq!(tx.block_number, Some(0x12));
}

#[test]
fn structural_mismatch_cases() {
    // An extension document with a stray top-level sender matches no shape.
    let mut d = doc(WireBody::Eip712 { tx: eip712_body() });
    d.from = Some(addr(5));
    d.r = Some(u256(1));
    d.s = Some(u256(2));
    d.y_parity = Some("0x1".to_string());
    assert_eq!(decode_document(d), Err(DecodeError::StructuralMismatch));

    // A native document without a sender matches no shape.
    let mut d = doc(WireBody::Legacy { tx: legacy_body() });
    d.r = Some(u256(1));
    d.s = Some(u256(2));
    assert_eq!(decode_document(d), Err(DecodeError::StructuralMismatch));

    // A partial signature on an extension document matches no shape.
    let mut d = doc(WireBody::Eip712 { tx: eip712_body() });
    d.r = Some(u256(1));
    assert_eq!(decode_document(d), Err(DecodeError::StructuralMismatch));
}

#[test]
fn normalization_failure_on_empty_blob_list() {
    // A blob-carrying document with no blob hashes resolves leniently but
    // fails the type-specific invariant during normalization.
    let mut d = doc(WireBody::Eip4844 {
        core: eip4844_core(),
        access_list: Some(vec![]),
        blob_versioned_hashes: None,
    });
    d.from = Some(addr(2));
    d.r = Some(u256(1));
    d.s = Some(u256(2));
    d.y_parity = Some("0x0".to_string());
    assert_eq!(decode_document(d), Err(DecodeError::NormalizationFailure));

    // The same with an explicitly empty list under the strict shape.
    let mut d = doc(WireBody::Eip4844 {
        core: eip4844_core(),
        access_list: Some(vec![]),
        blob_versioned_hashes: Some(vec![]),
    });
    d.from = Some(addr(2));
    d.r = Some(u256(1));
    d.s = Some(u256(2));
    d.y_parity = Some("0x0".to_string());
    assert_eq!(decode_document(d), Err(DecodeError::NormalizationFailure));
}

#[test]
fn blob_transaction_with_blobs_decodes() {
    let mut d = doc(WireBody::Eip4844 {
        core: eip4844_core(),
        access_list: Some(vec![]),
        blob_versioned_hashes: Some(vec![hash(1), hash(2)]),
    });
    d.from = Some(addr(2));
    d.r = Some(u256(1));
    d.s = Some(u256(2));
    d.y_parity = Some("0x1".to_string());
    let tx = decode_document(d).unwrap();
    match &tx.envelope {
        TxEnvelope::Native(NativeEnvelope::Eip4844(sg)) => {
            assert_eq!(sg.tx.blob_versioned_hashes, vec![hash(1), hash(2)]);
            assert_eq!(sg.signature.parity, true);
        }
        other => panic!("wrong envelope: {:?}", other),
    }
}

#[test]
fn round_trip_regular() {
    let mut d = doc(WireBody::Eip2930 {
        core: eip2930_core(),
        access_list: Some(vec![]),
    });
    d.from = Some(addr(2));
    d.r = Some(u256(41));
    d.s = Some(u256(42));
    d.y_parity = Some("0x1".to_string());
    d.block_hash = Some(hash(5));
    d.block_number = Some("0x10".to_string());
    d.transaction_index = Some("0x0".to_string());
    d.effective_gas_price = Some("0x4a817c800".to_string());
    let tx1 = decode_document(d).unwrap();
    assert_eq!(tx1.block_number, Some(16));
    assert_eq!(tx1.effective_gas_price, Some(20_000_000_000));
    let d2 = encode_document(tx1.clone()).unwrap();
    assert_eq!(d2.block_number.as_deref(), Some("0x10"));
    assert_eq!(d2.transaction_index.as_deref(), Some("0x0"));
    let tx2 = decode_document(d2).unwrap();
    assert_eq!(tx1, tx2);
}

#[test]
fn round_trip_without_from() {
    let mut d = doc(WireBody::Eip712 { tx: eip712_body() });
    d.r = Some(u256(21));
    d.s = Some(u256(22));
    d.y_parity = Some("0x1".to_string());
    d.block_number = Some("0xff".to_string());
    let tx1 = decode_document(d).unwrap();
    let d2 = encode_document(tx1.clone()).unwrap();
    assert_eq!(d2.from, None);
    assert_eq!(d2.block_number.as_deref(), Some("0xff"));
    let tx2 = decode_document(d2).unwrap();
    assert_eq!(tx1, tx2);
}

#[test]
fn round_trip_normalizes_lenient_defaults() {
    // A lenient decode with defaulted fields re-encodes explicitly, and
    // the canonical record survives the round trip unchanged.
    let mut d = doc(WireBody::Eip2930 {
        core: eip2930_core(),
        access_list: None,
    });
    d.from = Some(addr(2));
    d.r = Some(u256(1));
    d.s = Some(u256(2));
    d.block_number = Some("12".to_string());
    let tx1 = decode_document(d).unwrap();
    let d2 = encode_document(tx1.clone()).unwrap();
    // Defaults are now explicit: the access list is present and the block
    // number is strict canonical hex.
    match &d2.body {
        WireBody::Eip2930 { access_list, .. } => assert_eq!(access_list, &Some(vec![])),
        other => panic!("wrong body: {:?}", other),
    }
    assert_eq!(d2.block_number.as_deref(), Some("0x12"));
    let tx2 = decode_document(d2).unwrap();
    assert_eq!(tx1, tx2);
}

#[test]
fn encode_native_keeps_envelope_and_sender() {
    let mut d = doc(WireBody::Legacy { tx: legacy_body() });
    d.from = Some(addr(1));
    d.r = Some(u256(1));
    d.s = Some(u256(2));
    d.v = Some("0x1c".to_string());
    let tx = decode_document(d).unwrap();
    let sender = tx.sender;
    let d2 = encode_document(tx).unwrap();
    assert_eq!(d2.from, Some(sender));
    assert_eq!(d2.v, None);
    assert_eq!(d2.y_parity.as_deref(), Some("0x1"));
    assert!(matches!(d2.body, WireBody::Legacy { .. }));
}

#[test]
fn placeholder_signature_is_all_zero() {
    let sig = Signature::placeholder();
    assert_eq!(sig.r, Uint256 { hi: 0, lo: 0 });
    assert_eq!(sig.s, Uint256 { hi: 0, lo: 0 });
    assert_eq!(sig.parity, false);
}

#[test]
fn none_omitted_on_reencode() {
    // Optional metadata that is absent stays absent on the wire: not null,
    // not an empty string.
    let mut d = doc(WireBody::Eip712 { tx: eip712_body() });
    d.r = Some(u256(1));
    d.s = Some(u256(2));
    d.y_parity = Some("0x0".to_string());
    let tx: TransactionResponse = decode_document(d).unwrap();
    let d2 = encode_document(tx).unwrap();
    assert_eq!(d2.block_number, None);
    assert_eq!(d2.transaction_index, None);
    assert_eq!(d2.effective_gas_price, None);
}

#[test]
fn accessor_facade_reads_through_envelope() {
    let mut d = doc(WireBody::Eip712 { tx: eip712_body() });
    d.r = Some(u256(21));
    d.s = Some(u256(22));
    d.y_parity = Some("0x1".to_string());
    d.block_number = Some("0x10".to_string());
    d.effective_gas_price = Some("0x5".to_string());
    let tx = decode_document(d).unwrap();
    assert_eq!(tx.ty(), 0x71);
    assert_eq!(tx.chain_id(), Some(270));
    assert_eq!(tx.nonce(), 1);
    assert_eq!(tx.gas_limit(), 5_000_000);
    assert_eq!(tx.gas_price(), None);
    assert_eq!(tx.max_fee_per_gas(), 250_000_000);
    assert_eq!(tx.max_priority_fee_per_gas(), Some(0));
    assert_eq!(tx.max_fee_per_blob_gas(), None);
    assert_eq!(tx.priority_fee_or_price(), 0);
    assert_eq!(tx.to(), Some(addr(8)));
    assert_eq!(tx.is_create(), false);
    assert_eq!(tx.value(), u256(0));
    assert_eq!(tx.is_dynamic_fee(), true);
    assert_eq!(tx.from(), addr(77));
    assert_eq!(tx.block_number(), Some(16));
    assert_eq!(tx.transaction_index(), None);
    assert_eq!(tx.effective_gas_price(), Some(5));

    let mut d = doc(WireBody::Legacy { tx: legacy_body() });
    d.from = Some(addr(1));
    d.r = Some(u256(1));
    d.s = Some(u256(2));
    d.v = Some("0x1b".to_string());
    let tx = decode_document(d).unwrap();
    assert_eq!(tx.ty(), 0);
    assert_eq!(tx.gas_price(), Some(250_000_000));
    assert_eq!(tx.max_fee_per_gas(), 250_000_000);
    assert_eq!(tx.priority_fee_or_price(), 250_000_000);
    assert_eq!(tx.is_dynamic_fee(), false);
    assert_eq!(tx.block_hash(), None);
}
