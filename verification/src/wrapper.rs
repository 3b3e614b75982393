//! The wrapper transaction: the signed inner transaction together with the fee, the gas
//! limit and the epoch under which the ledger accepts it, and its serialized form.

use crate::hash::{hash_tx, sha256_digest, TxHash};
use crate::types::{Address, AddressView, Epoch, Tx};
use vstd::prelude::*;

verus! {

/// The key under which the inner transaction is encrypted for the ledger.
///
/// No such key is negotiated yet. `Placeholder` says so in the wrapper itself: the inner
/// transaction travels as it is, and a reader of the wrapper can tell.
#[derive(Clone, Copy, Debug, PartialEq, Eq, Structural)]
pub enum EncryptionKey {
    Placeholder,
}

impl EncryptionKey {
    /// The number that stands for the key in a serialized wrapper.
    pub open spec fn tag(self) -> u8 {
        0
    }

    /// The number that stands for the key in a serialized wrapper.
    pub fn tag_byte(&self) -> (tag: u8)
        ensures
            tag == self.tag(),
    {
        0
    }
}

impl Default for EncryptionKey {
    fn default() -> (key: Self)
        ensures
            key == EncryptionKey::Placeholder,
    {
        EncryptionKey::Placeholder
    }
}

/// The fee offered for a wrapper.
#[derive(Debug, PartialEq, Eq)]
pub struct Fee {
    pub amount: u64,
    pub token: Address,
}

/// A wrapper transaction before it is signed.
#[derive(Debug, PartialEq, Eq)]
pub struct WrapperTx {
    pub fee: Fee,
    pub epoch: Epoch,
    pub gas_limit: u64,
    pub encryption_key: EncryptionKey,
    /// The signed inner transaction.
    pub inner_tx: Tx,
    /// The content hash of the inner transaction.
    pub tx_hash: TxHash,
}

/// What a `WrapperTx` stands for.
pub struct WrapperTxView {
    pub fee_amount: u64,
    pub fee_token: AddressView,
    pub epoch: Epoch,
    pub gas_limit: u64,
    pub encryption_key: EncryptionKey,
    pub inner_tx: Seq<u8>,
    pub tx_hash: Seq<u8>,
}

/// The four bytes of a number, lowest first.
pub open spec fn u32_le(value: u32) -> Seq<u8> {
    seq![
        (value % 0x100) as u8,
        (value / 0x100 % 0x100) as u8,
        (value / 0x1_0000 % 0x100) as u8,
        (value / 0x100_0000 % 0x100) as u8,
    ]
}

/// The eight bytes of a number, lowest first.
pub open spec fn u64_le(value: u64) -> Seq<u8> {
    seq![
        (value % 0x100) as u8,
        (value / 0x100 % 0x100) as u8,
        (value / 0x1_0000 % 0x100) as u8,
        (value / 0x100_0000 % 0x100) as u8,
        (value / 0x1_0000_0000 % 0x100) as u8,
        (value / 0x100_0000_0000 % 0x100) as u8,
        (value / 0x1_0000_0000_0000 % 0x100) as u8,
        (value / 0x100_0000_0000_0000 % 0x100) as u8,
    ]
}

/// The length of the byte string can be written in four bytes.
pub open spec fn has_prefix_length(bytes: Seq<u8>) -> bool {
    bytes.len() <= u32::MAX
}

/// A byte string behind its length, the length as four little-endian bytes.
pub open spec fn length_prefixed(bytes: Seq<u8>) -> Seq<u8> {
    u32_le(bytes.len() as u32) + bytes
}

/// The fields of a wrapper one after the other: integers little-endian, byte strings
/// behind their length, the hash as it is.
pub open spec fn fields_encoding(
    fee_amount: u64,
    token_kind: u8,
    token_id: Seq<u8>,
    epoch: u64,
    gas_limit: u64,
    key_tag: u8,
    inner_tx: Seq<u8>,
    tx_hash: Seq<u8>,
) -> Seq<u8> {
    u64_le(fee_amount) + seq![token_kind] + length_prefixed(token_id) + u64_le(epoch) + u64_le(
        gas_limit,
    ) + seq![key_tag] + length_prefixed(inner_tx) + tx_hash
}

impl WrapperTxView {
    /// The wrapper carries the content hash of its own inner transaction.
    pub open spec fn well_formed(self) -> bool {
        self.tx_hash == sha256_digest(self.inner_tx)
    }

    /// Both byte strings of the wrapper are short enough for a four-byte length.
    pub open spec fn fits(self) -> bool {
        has_prefix_length(self.fee_token.id()) && has_prefix_length(self.inner_tx)
    }

    /// The serialized wrapper.
    pub open spec fn encoding(self) -> Seq<u8> {
        fields_encoding(
            self.fee_amount,
            self.fee_token.kind(),
            self.fee_token.id(),
            self.epoch.0,
            self.gas_limit,
            self.encryption_key.tag(),
            self.inner_tx,
            self.tx_hash,
        )
    }
}

impl View for WrapperTx {
    type V = WrapperTxView;

    open spec fn view(&self) -> WrapperTxView {
        WrapperTxView {
            fee_amount: self.fee.amount,
            fee_token: self.fee.token@,
            epoch: self.epoch,
            gas_limit: self.gas_limit,
            encryption_key: self.encryption_key,
            inner_tx: self.inner_tx@,
            tx_hash: self.tx_hash@,
        }
    }
}

/// Calls `borsh::to_vec` on the fields of a wrapper, handed over in order as one tuple.
///
/// Borsh writes the members of a tuple one after the other: a `u64` as eight bytes and
/// a `u8` as one, little-endian; a byte vector as its length in four little-endian bytes
/// and then its bytes; an array of 32 bytes as it is. It refuses a vector whose length
/// does not fit in four bytes, and nothing else.
#[verifier::external_body]
fn borsh_fields(
    fee_amount: u64,
    token_kind: u8,
    token_id: &Vec<u8>,
    epoch: u64,
    gas_limit: u64,
    key_tag: u8,
    inner_tx: &Vec<u8>,
    tx_hash: &[u8; 32],
) -> (out: Option<Vec<u8>>)
    ensures
        out is Some <==> (has_prefix_length(token_id@) && has_prefix_length(inner_tx@)),
        out matches Some(bytes) ==> bytes@ == fields_encoding(
            fee_amount,
            token_kind,
            token_id@,
            epoch,
            gas_limit,
            key_tag,
            inner_tx@,
            tx_hash@,
        ),
{
    borsh::to_vec(
        &(fee_amount, token_kind, token_id, epoch, gas_limit, key_tag, inner_tx, tx_hash),
    ).ok()
}

impl WrapperTx {
    /// Wraps a signed inner transaction with the fee, the epoch and the gas limit, and
    /// records the content hash of the inner transaction.
    pub fn new(
        fee: Fee,
        epoch: Epoch,
        gas_limit: u64,
        tx: Tx,
        encryption_key: EncryptionKey,
    ) -> (wrapper: WrapperTx)
        ensures
            wrapper@ == (WrapperTxView {
                fee_amount: fee.amount,
                fee_token: fee.token@,
                epoch,
                gas_limit,
                encryption_key,
                inner_tx: tx@,
                tx_hash: sha256_digest(tx@),
            }),
            wrapper@.well_formed(),
    {
        let tx_hash = hash_tx(tx.bytes.as_slice());
        WrapperTx { fee, epoch, gas_limit, encryption_key, inner_tx: tx, tx_hash }
    }

    /// The serialized wrapper, or `None` for a wrapper that has no serialized form.
    pub fn try_to_vec(&self) -> (out: Option<Vec<u8>>)
        ensures
            out is Some <==> self@.fits(),
            out matches Some(bytes) ==> bytes@ == self@.encoding(),
    {
        borsh_fields(
            self.fee.amount,
            self.fee.token.kind(),
            self.fee.token.id(),
            self.epoch.0,
            self.gas_limit,
            self.encryption_key.tag_byte(),
            &self.inner_tx.bytes,
            &self.tx_hash.0,
        )
    }
}

/// A serialized wrapper is longer than the inner transaction that it carries.
pub proof fn lemma_encoding_longer_than_inner_tx(wrapper: WrapperTxView)
    ensures
        wrapper.encoding().len() > wrapper.inner_tx.len(),
        wrapper.encoding() != wrapper.inner_tx,
{
}

} // verus!
