//! Wire-level representations.
//!
//! A [`WireDocument`] holds one JSON transaction object as received: body
//! fields by kind, optional top-level sender, optional signature fields,
//! and the block-inclusion metadata still as raw hex strings. Resolution
//! turns a document into one [`TransactionEither`] shape.

use crate::model::{
    AccessListEntry, Address, Eip1559Core, Eip2930Core, Eip4844Core, Hash256, TxEnvelope,
    TxEip712, TxLegacy, Uint256,
};
use vstd::prelude::*;

verus! {

/// The body fields of a wire document, by transaction kind. Fields that
/// lenient decoding may default are optional here.
#[derive(Clone, Debug, PartialEq, Eq)]
pub enum WireBody {
    Legacy { tx: TxLegacy },
    Eip2930 { core: Eip2930Core, access_list: Option<Vec<AccessListEntry>> },
    Eip1559 { core: Eip1559Core, access_list: Option<Vec<AccessListEntry>> },
    Eip4844 {
        core: Eip4844Core,
        access_list: Option<Vec<AccessListEntry>>,
        blob_versioned_hashes: Option<Vec<Hash256>>,
    },
    Eip712 { tx: TxEip712 },
}

/// One transaction object as received over a JSON-RPC style transport,
/// with scalar leaves already typed and numeric fields still raw strings.
#[derive(Clone, Debug, PartialEq, Eq)]
pub struct WireDocument {
    pub body: WireBody,
    pub from: Option<Address>,
    pub r: Option<Uint256>,
    pub s: Option<Uint256>,
    pub y_parity: Option<String>,
    pub v: Option<String>,
    pub block_hash: Option<Hash256>,
    pub block_number: Option<String>,
    pub transaction_index: Option<String>,
    pub effective_gas_price: Option<String>,
}

/// A fully-specified transaction: complete body, explicit sender, strict
/// signature and strictly-typed numeric metadata.
#[derive(Clone, Debug, PartialEq, Eq)]
pub struct RegularTransaction {
    pub envelope: TxEnvelope,
    pub from: Address,
    pub block_hash: Option<Hash256>,
    pub block_number: Option<u64>,
    pub transaction_index: Option<u64>,
    pub effective_gas_price: Option<u128>,
}

/// A protocol-extension transaction with a signature but no top-level
/// sender field: the sender is recovered from the body itself.
#[derive(Clone, Debug, PartialEq, Eq)]
pub struct TransactionWithoutFrom {
    pub tx: TxEip712,
    pub r: Uint256,
    pub s: Uint256,
    pub y_parity: Option<String>,
    pub v: Option<String>,
    pub block_hash: Option<Hash256>,
    pub block_number: Option<String>,
    pub transaction_index: Option<String>,
    pub effective_gas_price: Option<String>,
}

/// A protocol-extension transaction with no signature fields at all; a
/// placeholder signature is synthesized during normalization.
#[derive(Clone, Debug, PartialEq, Eq)]
pub struct TransactionWithoutFromUnsigned {
    pub tx: TxEip712,
    pub block_hash: Option<Hash256>,
    pub block_number: Option<String>,
    pub transaction_index: Option<String>,
    pub effective_gas_price: Option<String>,
}

/// A leniently-matched legacy transaction: only `r` and `s` are required.
#[derive(Clone, Debug, PartialEq, Eq)]
pub struct LenientSignedLegacyTx {
    pub tx: TxLegacy,
    pub r: Uint256,
    pub s: Uint256,
    pub v: Option<String>,
}

/// A leniently-matched access-list transaction.
#[derive(Clone, Debug, PartialEq, Eq)]
pub struct LenientSignedEip2930Tx {
    pub tx: crate::model::TxEip2930,
    pub r: Uint256,
    pub s: Uint256,
    pub y_parity: Option<String>,
    pub v: Option<String>,
}

/// A leniently-matched dynamic-fee transaction.
#[derive(Clone, Debug, PartialEq, Eq)]
pub struct LenientSignedEip1559Tx {
    pub tx: crate::model::TxEip1559,
    pub r: Uint256,
    pub s: Uint256,
    pub y_parity: Option<String>,
    pub v: Option<String>,
}

/// A leniently-matched blob-carrying transaction.
#[derive(Clone, Debug, PartialEq, Eq)]
pub struct LenientSignedEip4844Tx {
    pub tx: crate::model::TxEip4844,
    pub r: Uint256,
    pub s: Uint256,
    pub y_parity: Option<String>,
    pub v: Option<String>,
}

/// A lenient envelope over the four native kinds, with missing optional
/// body fields already defaulted to empty.
#[derive(Clone, Debug, PartialEq, Eq)]
pub enum LenientTxEnvelope {
    Legacy(LenientSignedLegacyTx),
    Eip2930(LenientSignedEip2930Tx),
    Eip1559(LenientSignedEip1559Tx),
    Eip4844(LenientSignedEip4844Tx),
}

/// A native transaction matched under the lenient schema.
#[derive(Clone, Debug, PartialEq, Eq)]
pub struct StandardEthereumTransaction {
    pub inner: LenientTxEnvelope,
    pub from: Address,
    pub block_hash: Option<Hash256>,
    pub block_number: Option<String>,
    pub transaction_index: Option<String>,
    pub effective_gas_price: Option<String>,
}

/// The resolver's outcome: the first candidate shape the document matches,
/// in this precedence order.
#[derive(Clone, Debug, PartialEq, Eq)]
pub enum TransactionEither {
    Regular(RegularTransaction),
    WithoutFrom(TransactionWithoutFrom),
    WithoutFromUnsigned(TransactionWithoutFromUnsigned),
    StandardEthereum(StandardEthereumTransaction),
}

} // verus!
