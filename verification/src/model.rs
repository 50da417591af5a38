//! The canonical transaction model.
//!
//! All numeric fields are typed integers: no hex string survives
//! normalization. A canonical record holds exactly one envelope kind, a
//! mandatory sender, and the optional block-inclusion metadata.

use vstd::prelude::*;

verus! {

/// A 256-bit unsigned integer, stored as two 128-bit halves.
#[derive(Clone, Copy, Debug, PartialEq, Eq, Structural)]
pub struct Uint256 {
    pub hi: u128,
    pub lo: u128,
}

impl Uint256 {
    /// The all-zero value, used for synthesized placeholder signatures.
    pub fn zero() -> (r: Uint256)
        ensures
            r == (Uint256 { hi: 0u128, lo: 0u128 }),
    {
        Uint256 { hi: 0, lo: 0 }
    }

    /// Whether this value is zero.
    pub open spec fn spec_is_zero(self) -> bool {
        self.hi == 0 && self.lo == 0
    }
}

/// A 20-byte account address, stored as 160 bits.
#[derive(Clone, Copy, Debug, PartialEq, Eq, Structural)]
pub struct Address {
    pub hi: u32,
    pub lo: u128,
}

/// A 32-byte hash, stored as 256 bits.
#[derive(Clone, Copy, Debug, PartialEq, Eq, Structural)]
pub struct Hash256 {
    pub hi: u128,
    pub lo: u128,
}

/// An ECDSA-style signature with its parity bit already resolved.
#[derive(Clone, Copy, Debug, PartialEq, Eq, Structural)]
pub struct Signature {
    pub r: Uint256,
    pub s: Uint256,
    pub parity: bool,
}

impl Signature {
    /// The synthesized all-zero placeholder signature.
    pub open spec fn spec_placeholder() -> Signature {
        Signature { r: Uint256 { hi: 0, lo: 0 }, s: Uint256 { hi: 0, lo: 0 }, parity: false }
    }

    /// Synthesize the placeholder signature for unsigned wire documents.
    pub fn placeholder() -> (r: Signature)
        ensures
            r == Signature::spec_placeholder(),
    {
        Signature { r: Uint256::zero(), s: Uint256::zero(), parity: false }
    }
}

/// One entry of an access list.
#[derive(Clone, Debug, PartialEq, Eq)]
pub struct AccessListEntry {
    pub address: Address,
    pub storage_keys: Vec<Hash256>,
}

/// A legacy fee-market transaction body.
#[derive(Clone, Debug, PartialEq, Eq)]
pub struct TxLegacy {
    pub chain_id: Option<u64>,
    pub nonce: u64,
    pub gas_price: u128,
    pub gas_limit: u64,
    pub to: Option<Address>,
    pub value: Uint256,
    pub input: Vec<u8>,
}

/// The required fields of an access-list transaction body.
#[derive(Clone, Debug, PartialEq, Eq)]
pub struct Eip2930Core {
    pub chain_id: u64,
    pub nonce: u64,
    pub gas_price: u128,
    pub gas_limit: u64,
    pub to: Option<Address>,
    pub value: Uint256,
    pub input: Vec<u8>,
}

/// An access-list transaction body.
#[derive(Clone, Debug, PartialEq, Eq)]
pub struct TxEip2930 {
    pub core: Eip2930Core,
    pub access_list: Vec<AccessListEntry>,
}

/// The required fields of a dynamic-fee transaction body.
#[derive(Clone, Debug, PartialEq, Eq)]
pub struct Eip1559Core {
    pub chain_id: u64,
    pub nonce: u64,
    pub gas_limit: u64,
    pub max_fee_per_gas: u128,
    pub max_priority_fee_per_gas: u128,
    pub to: Option<Address>,
    pub value: Uint256,
    pub input: Vec<u8>,
}

/// A dynamic-fee transaction body.
#[derive(Clone, Debug, PartialEq, Eq)]
pub struct TxEip1559 {
    pub core: Eip1559Core,
    pub access_list: Vec<AccessListEntry>,
}

/// The required fields of a blob-carrying transaction body.
#[derive(Clone, Debug, PartialEq, Eq)]
pub struct Eip4844Core {
    pub chain_id: u64,
    pub nonce: u64,
    pub gas_limit: u64,
    pub max_fee_per_gas: u128,
    pub max_priority_fee_per_gas: u128,
    pub max_fee_per_blob_gas: u128,
    pub to: Address,
    pub value: Uint256,
    pub input: Vec<u8>,
}

/// A blob-carrying transaction body.
#[derive(Clone, Debug, PartialEq, Eq)]
pub struct TxEip4844 {
    pub core: Eip4844Core,
    pub access_list: Vec<AccessListEntry>,
    pub blob_versioned_hashes: Vec<Hash256>,
}

/// The protocol-extension transaction body, with its own embedded sender.
#[derive(Clone, Debug, PartialEq, Eq)]
pub struct TxEip712 {
    pub chain_id: u64,
    pub from: Address,
    pub nonce: u64,
    pub gas_limit: u64,
    pub gas_per_pubdata: u128,
    pub max_fee_per_gas: u128,
    pub max_priority_fee_per_gas: u128,
    pub to: Option<Address>,
    pub value: Uint256,
    pub input: Vec<u8>,
}

/// A transaction body paired with its resolved signature.
#[derive(Clone, Debug, PartialEq, Eq)]
pub struct SignedTx<T> {
    pub tx: T,
    pub signature: Signature,
}

/// The four standard fee-market envelope kinds.
#[derive(Clone, Debug, PartialEq, Eq)]
pub enum NativeEnvelope {
    Legacy(SignedTx<TxLegacy>),
    Eip2930(SignedTx<TxEip2930>),
    Eip1559(SignedTx<TxEip1559>),
    Eip4844(SignedTx<TxEip4844>),
}

/// The canonical envelope union: exactly one variant is ever active.
#[derive(Clone, Debug, PartialEq, Eq)]
pub enum TxEnvelope {
    Native(NativeEnvelope),
    Eip712(SignedTx<TxEip712>),
}

/// The canonical transaction record produced by decoding.
#[derive(Clone, Debug, PartialEq, Eq)]
pub struct TransactionResponse {
    pub envelope: TxEnvelope,
    pub sender: Address,
    pub block_hash: Option<Hash256>,
    pub block_number: Option<u64>,
    pub transaction_index: Option<u64>,
    pub effective_gas_price: Option<u128>,
}

impl TransactionResponse {
    /// The invariant decoding establishes: a blob-carrying transaction
    /// names at least one blob, and an extension envelope's sender is the
    /// body's own embedded address.
    pub open spec fn wf(self) -> bool {
        match self.envelope {
            TxEnvelope::Native(NativeEnvelope::Eip4844(signed)) =>
                signed.tx.blob_versioned_hashes@.len() > 0,
            TxEnvelope::Eip712(signed) => self.sender == signed.tx.from,
            _ => true,
        }
    }
}

/// Read accessors over the canonical record: the thin query facade the
/// envelope union exposes to callers, one answer per envelope kind.
impl TransactionResponse {
    /// The wire type tag of the envelope kind.
    pub open spec fn spec_ty(self) -> u8 {
        match self.envelope {
            TxEnvelope::Native(NativeEnvelope::Legacy(..)) => 0,
            TxEnvelope::Native(NativeEnvelope::Eip2930(..)) => 1,
            TxEnvelope::Native(NativeEnvelope::Eip1559(..)) => 2,
            TxEnvelope::Native(NativeEnvelope::Eip4844(..)) => 3,
            TxEnvelope::Eip712(..) => 0x71,
        }
    }

    /// The wire type tag of the envelope kind.
    pub fn ty(&self) -> (r: u8)
        ensures
            r == self.spec_ty(),
    {
        match &self.envelope {
            TxEnvelope::Native(NativeEnvelope::Legacy(..)) => 0,
            TxEnvelope::Native(NativeEnvelope::Eip2930(..)) => 1,
            TxEnvelope::Native(NativeEnvelope::Eip1559(..)) => 2,
            TxEnvelope::Native(NativeEnvelope::Eip4844(..)) => 3,
            TxEnvelope::Eip712(..) => 0x71,
        }
    }

    /// The chain id, optional only on legacy bodies.
    pub open spec fn spec_chain_id(self) -> Option<u64> {
        match self.envelope {
            TxEnvelope::Native(NativeEnvelope::Legacy(sg)) => sg.tx.chain_id,
            TxEnvelope::Native(NativeEnvelope::Eip2930(sg)) => Some(sg.tx.core.chain_id),
            TxEnvelope::Native(NativeEnvelope::Eip1559(sg)) => Some(sg.tx.core.chain_id),
            TxEnvelope::Native(NativeEnvelope::Eip4844(sg)) => Some(sg.tx.core.chain_id),
            TxEnvelope::Eip712(sg) => Some(sg.tx.chain_id),
        }
    }

    /// The chain id, optional only on legacy bodies.
    pub fn chain_id(&self) -> (r: Option<u64>)
        ensures
            r == self.spec_chain_id(),
    {
        match &self.envelope {
            TxEnvelope::Native(NativeEnvelope::Legacy(sg)) => sg.tx.chain_id,
            TxEnvelope::Native(NativeEnvelope::Eip2930(sg)) => Some(sg.tx.core.chain_id),
            TxEnvelope::Native(NativeEnvelope::Eip1559(sg)) => Some(sg.tx.core.chain_id),
            TxEnvelope::Native(NativeEnvelope::Eip4844(sg)) => Some(sg.tx.core.chain_id),
            TxEnvelope::Eip712(sg) => Some(sg.tx.chain_id),
        }
    }

    /// The account nonce of the body.
    pub open spec fn spec_nonce(self) -> u64 {
        match self.envelope {
            TxEnvelope::Native(NativeEnvelope::Legacy(sg)) => sg.tx.nonce,
            TxEnvelope::Native(NativeEnvelope::Eip2930(sg)) => sg.tx.core.nonce,
            TxEnvelope::Native(NativeEnvelope::Eip1559(sg)) => sg.tx.core.nonce,
            TxEnvelope::Native(NativeEnvelope::Eip4844(sg)) => sg.tx.core.nonce,
            TxEnvelope::Eip712(sg) => sg.tx.nonce,
        }
    }

    /// The account nonce of the body.
    pub fn nonce(&self) -> (r: u64)
        ensures
            r == self.spec_nonce(),
    {
        match &self.envelope {
            TxEnvelope::Native(NativeEnvelope::Legacy(sg)) => sg.tx.nonce,
            TxEnvelope::Native(NativeEnvelope::Eip2930(sg)) => sg.tx.core.nonce,
            TxEnvelope::Native(NativeEnvelope::Eip1559(sg)) => sg.tx.core.nonce,
            TxEnvelope::Native(NativeEnvelope::Eip4844(sg)) => sg.tx.core.nonce,
            TxEnvelope::Eip712(sg) => sg.tx.nonce,
        }
    }

    /// The gas limit of the body.
    pub open spec fn spec_gas_limit(self) -> u64 {
        match self.envelope {
            TxEnvelope::Native(NativeEnvelope::Legacy(sg)) => sg.tx.gas_limit,
            TxEnvelope::Native(NativeEnvelope::Eip2930(sg)) => sg.tx.core.gas_limit,
            TxEnvelope::Native(NativeEnvelope::Eip1559(sg)) => sg.tx.core.gas_limit,
            TxEnvelope::Native(NativeEnvelope::Eip4844(sg)) => sg.tx.core.gas_limit,
            TxEnvelope::Eip712(sg) => sg.tx.gas_limit,
        }
    }

    /// The gas limit of the body.
    pub fn gas_limit(&self) -> (r: u64)
        ensures
            r == self.spec_gas_limit(),
    {
        match &self.envelope {
            TxEnvelope::Native(NativeEnvelope::Legacy(sg)) => sg.tx.gas_limit,
            TxEnvelope::Native(NativeEnvelope::Eip2930(sg)) => sg.tx.core.gas_limit,
            TxEnvelope::Native(NativeEnvelope::Eip1559(sg)) => sg.tx.core.gas_limit,
            TxEnvelope::Native(NativeEnvelope::Eip4844(sg)) => sg.tx.core.gas_limit,
            TxEnvelope::Eip712(sg) => sg.tx.gas_limit,
        }
    }

    /// The explicit gas price, present only on pre-dynamic-fee bodies.
    pub open spec fn spec_gas_price(self) -> Option<u128> {
        match self.envelope {
            TxEnvelope::Native(NativeEnvelope::Legacy(sg)) => Some(sg.tx.gas_price),
            TxEnvelope::Native(NativeEnvelope::Eip2930(sg)) => Some(sg.tx.core.gas_price),
            _ => None,
        }
    }

    /// The explicit gas price, present only on pre-dynamic-fee bodies.
    pub fn gas_price(&self) -> (r: Option<u128>)
        ensures
            r == self.spec_gas_price(),
    {
        match &self.envelope {
            TxEnvelope::Native(NativeEnvelope::Legacy(sg)) => Some(sg.tx.gas_price),
            TxEnvelope::Native(NativeEnvelope::Eip2930(sg)) => Some(sg.tx.core.gas_price),
            _ => None,
        }
    }

    /// The fee cap: the gas price where no dynamic fee exists.
    pub open spec fn spec_max_fee_per_gas(self) -> u128 {
        match self.envelope {
            TxEnvelope::Native(NativeEnvelope::Legacy(sg)) => sg.tx.gas_price,
            TxEnvelope::Native(NativeEnvelope::Eip2930(sg)) => sg.tx.core.gas_price,
            TxEnvelope::Native(NativeEnvelope::Eip1559(sg)) => sg.tx.core.max_fee_per_gas,
            TxEnvelope::Native(NativeEnvelope::Eip4844(sg)) => sg.tx.core.max_fee_per_gas,
            TxEnvelope::Eip712(sg) => sg.tx.max_fee_per_gas,
        }
    }

    /// The fee cap: the gas price where no dynamic fee exists.
    pub fn max_fee_per_gas(&self) -> (r: u128)
        ensures
            r == self.spec_max_fee_per_gas(),
    {
        match &self.envelope {
            TxEnvelope::Native(NativeEnvelope::Legacy(sg)) => sg.tx.gas_price,
            TxEnvelope::Native(NativeEnvelope::Eip2930(sg)) => sg.tx.core.gas_price,
            TxEnvelope::Native(NativeEnvelope::Eip1559(sg)) => sg.tx.core.max_fee_per_gas,
            TxEnvelope::Native(NativeEnvelope::Eip4844(sg)) => sg.tx.core.max_fee_per_gas,
            TxEnvelope::Eip712(sg) => sg.tx.max_fee_per_gas,
        }
    }

    /// The priority fee cap of dynamic-fee bodies.
    pub open spec fn spec_max_priority_fee_per_gas(self) -> Option<u128> {
        match self.envelope {
            TxEnvelope::Native(NativeEnvelope::Legacy(..)) => None,
            TxEnvelope::Native(NativeEnvelope::Eip2930(..)) => None,
            TxEnvelope::Native(NativeEnvelope::Eip1559(sg)) => Some(
                sg.tx.core.max_priority_fee_per_gas,
            ),
            TxEnvelope::Native(NativeEnvelope::Eip4844(sg)) => Some(
                sg.tx.core.max_priority_fee_per_gas,
            ),
            TxEnvelope::Eip712(sg) => Some(sg.tx.max_priority_fee_per_gas),
        }
    }

    /// The priority fee cap of dynamic-fee bodies.
    pub fn max_priority_fee_per_gas(&self) -> (r: Option<u128>)
        ensures
            r == self.spec_max_priority_fee_per_gas(),
    {
        match &self.envelope {
            TxEnvelope::Native(NativeEnvelope::Legacy(..)) => None,
            TxEnvelope::Native(NativeEnvelope::Eip2930(..)) => None,
            TxEnvelope::Native(NativeEnvelope::Eip1559(sg)) => Some(
                sg.tx.core.max_priority_fee_per_gas,
            ),
            TxEnvelope::Native(NativeEnvelope::Eip4844(sg)) => Some(
                sg.tx.core.max_priority_fee_per_gas,
            ),
            TxEnvelope::Eip712(sg) => Some(sg.tx.max_priority_fee_per_gas),
        }
    }

    /// The blob fee cap, present only on blob-carrying bodies.
    pub open spec fn spec_max_fee_per_blob_gas(self) -> Option<u128> {
        match self.envelope {
            TxEnvelope::Native(NativeEnvelope::Eip4844(sg)) => Some(
                sg.tx.core.max_fee_per_blob_gas,
            ),
            _ => None,
        }
    }

    /// The blob fee cap, present only on blob-carrying bodies.
    pub fn max_fee_per_blob_gas(&self) -> (r: Option<u128>)
        ensures
            r == self.spec_max_fee_per_blob_gas(),
    {
        match &self.envelope {
            TxEnvelope::Native(NativeEnvelope::Eip4844(sg)) => Some(
                sg.tx.core.max_fee_per_blob_gas,
            ),
            _ => None,
        }
    }

    /// The priority fee where the body is dynamic, else the gas price.
    pub open spec fn spec_priority_fee_or_price(self) -> u128 {
        match self.spec_max_priority_fee_per_gas() {
            Some(p) => p,
            None => self.spec_max_fee_per_gas(),
        }
    }

    /// The priority fee where the body is dynamic, else the gas price.
    pub fn priority_fee_or_price(&self) -> (r: u128)
        ensures
            r == self.spec_priority_fee_or_price(),
    {
        match self.max_priority_fee_per_gas() {
            Some(p) => p,
            None => self.max_fee_per_gas(),
        }
    }

    /// The recipient, absent for contract creation.
    pub open spec fn spec_to(self) -> Option<Address> {
        match self.envelope {
            TxEnvelope::Native(NativeEnvelope::Legacy(sg)) => sg.tx.to,
            TxEnvelope::Native(NativeEnvelope::Eip2930(sg)) => sg.tx.core.to,
            TxEnvelope::Native(NativeEnvelope::Eip1559(sg)) => sg.tx.core.to,
            TxEnvelope::Native(NativeEnvelope::Eip4844(sg)) => Some(sg.tx.core.to),
            TxEnvelope::Eip712(sg) => sg.tx.to,
        }
    }

    /// The recipient, absent for contract creation.
    pub fn to(&self) -> (r: Option<Address>)
        ensures
            r == self.spec_to(),
    {
        match &self.envelope {
            TxEnvelope::Native(NativeEnvelope::Legacy(sg)) => sg.tx.to,
            TxEnvelope::Native(NativeEnvelope::Eip2930(sg)) => sg.tx.core.to,
            TxEnvelope::Native(NativeEnvelope::Eip1559(sg)) => sg.tx.core.to,
            TxEnvelope::Native(NativeEnvelope::Eip4844(sg)) => Some(sg.tx.core.to),
            TxEnvelope::Eip712(sg) => sg.tx.to,
        }
    }

    /// Whether the transaction creates a contract: it has no recipient.
    pub fn is_create(&self) -> (r: bool)
        ensures
            r == (self.spec_to() is None),
    {
        self.to().is_none()
    }

    /// The transferred value.
    pub open spec fn spec_value(self) -> Uint256 {
        match self.envelope {
            TxEnvelope::Native(NativeEnvelope::Legacy(sg)) => sg.tx.value,
            TxEnvelope::Native(NativeEnvelope::Eip2930(sg)) => sg.tx.core.value,
            TxEnvelope::Native(NativeEnvelope::Eip1559(sg)) => sg.tx.core.value,
            TxEnvelope::Native(NativeEnvelope::Eip4844(sg)) => sg.tx.core.value,
            TxEnvelope::Eip712(sg) => sg.tx.value,
        }
    }

    /// The transferred value.
    pub fn value(&self) -> (r: Uint256)
        ensures
            r == self.spec_value(),
    {
        match &self.envelope {
            TxEnvelope::Native(NativeEnvelope::Legacy(sg)) => sg.tx.value,
            TxEnvelope::Native(NativeEnvelope::Eip2930(sg)) => sg.tx.core.value,
            TxEnvelope::Native(NativeEnvelope::Eip1559(sg)) => sg.tx.core.value,
            TxEnvelope::Native(NativeEnvelope::Eip4844(sg)) => sg.tx.core.value,
            TxEnvelope::Eip712(sg) => sg.tx.value,
        }
    }

    /// Whether the body carries a dynamic fee.
    pub fn is_dynamic_fee(&self) -> (r: bool)
        ensures
            r == (self.spec_max_priority_fee_per_gas() is Some),
    {
        self.max_priority_fee_per_gas().is_some()
    }

    /// The mandatory sender of the canonical record.
    pub fn from(&self) -> (r: Address)
        ensures
            r == self.sender,
    {
        self.sender
    }

    /// The hash of the enclosing block, if included.
    pub fn block_hash(&self) -> (r: Option<Hash256>)
        ensures
            r == self.block_hash,
    {
        self.block_hash
    }

    /// The number of the enclosing block, if included.
    pub fn block_number(&self) -> (r: Option<u64>)
        ensures
            r == self.block_number,
    {
        self.block_number
    }

    /// The position within the enclosing block, if included.
    pub fn transaction_index(&self) -> (r: Option<u64>)
        ensures
            r == self.transaction_index,
    {
        self.transaction_index
    }

    /// The effective gas price, if included.
    pub fn effective_gas_price(&self) -> (r: Option<u128>)
        ensures
            r == self.effective_gas_price,
    {
        self.effective_gas_price
    }

    /// The input data of the body.
    pub open spec fn spec_input(self) -> Seq<u8> {
        match self.envelope {
            TxEnvelope::Native(NativeEnvelope::Legacy(sg)) => sg.tx.input@,
            TxEnvelope::Native(NativeEnvelope::Eip2930(sg)) => sg.tx.core.input@,
            TxEnvelope::Native(NativeEnvelope::Eip1559(sg)) => sg.tx.core.input@,
            TxEnvelope::Native(NativeEnvelope::Eip4844(sg)) => sg.tx.core.input@,
            TxEnvelope::Eip712(sg) => sg.tx.input@,
        }
    }

    /// The input data of the body.
    pub fn input(&self) -> (r: &Vec<u8>)
        ensures
            r@ == self.spec_input(),
    {
        match &self.envelope {
            TxEnvelope::Native(NativeEnvelope::Legacy(sg)) => &sg.tx.input,
            TxEnvelope::Native(NativeEnvelope::Eip2930(sg)) => &sg.tx.core.input,
            TxEnvelope::Native(NativeEnvelope::Eip1559(sg)) => &sg.tx.core.input,
            TxEnvelope::Native(NativeEnvelope::Eip4844(sg)) => &sg.tx.core.input,
            TxEnvelope::Eip712(sg) => &sg.tx.input,
        }
    }

    /// The access list, absent on bodies without one.
    pub open spec fn spec_access_list(self) -> Option<Seq<AccessListEntry>> {
        match self.envelope {
            TxEnvelope::Native(NativeEnvelope::Eip2930(sg)) => Some(sg.tx.access_list@),
            TxEnvelope::Native(NativeEnvelope::Eip1559(sg)) => Some(sg.tx.access_list@),
            TxEnvelope::Native(NativeEnvelope::Eip4844(sg)) => Some(sg.tx.access_list@),
            _ => None,
        }
    }

    /// The access list, absent on bodies without one.
    pub fn access_list(&self) -> (r: Option<&Vec<AccessListEntry>>)
        ensures
            match r {
                Some(al) => self.spec_access_list() == Some(al@),
                None => self.spec_access_list() is None,
            },
    {
        match &self.envelope {
            TxEnvelope::Native(NativeEnvelope::Eip2930(sg)) => Some(&sg.tx.access_list),
            TxEnvelope::Native(NativeEnvelope::Eip1559(sg)) => Some(&sg.tx.access_list),
            TxEnvelope::Native(NativeEnvelope::Eip4844(sg)) => Some(&sg.tx.access_list),
            _ => None,
        }
    }

    /// The blob hashes, present only on blob-carrying bodies.
    pub open spec fn spec_blob_versioned_hashes(self) -> Option<Seq<Hash256>> {
        match self.envelope {
            TxEnvelope::Native(NativeEnvelope::Eip4844(sg)) => Some(sg.tx.blob_versioned_hashes@),
            _ => None,
        }
    }

    /// The blob hashes, present only on blob-carrying bodies.
    pub fn blob_versioned_hashes(&self) -> (r: Option<&Vec<Hash256>>)
        ensures
            match r {
                Some(hs) => self.spec_blob_versioned_hashes() == Some(hs@),
                None => self.spec_blob_versioned_hashes() is None,
            },
    {
        match &self.envelope {
            TxEnvelope::Native(NativeEnvelope::Eip4844(sg)) => Some(&sg.tx.blob_versioned_hashes),
            _ => None,
        }
    }
}

/// Why a decode attempt failed.
#[derive(Clone, Copy, Debug, PartialEq, Eq, Structural)]
pub enum DecodeError {
    /// The document matches none of the candidate wire shapes.
    StructuralMismatch,
    /// A resolved body violates a type-specific invariant.
    NormalizationFailure,
}

/// Why a re-encode attempt failed. With the two envelope kinds both mapped
/// to wire shapes this is never produced, but callers can name the condition.
#[derive(Clone, Copy, Debug, PartialEq, Eq, Structural)]
pub enum EncodeError {
    UnsupportedReEncoding,
}

} // verus!
