//! The ways in which signing a transaction fails.

use crate::types::{Address, AddressView, PublicKey, PublicKeyHash, WalletKeypair};
use vstd::prelude::*;

verus! {

/// The lookup that found no key.
#[derive(Debug, PartialEq, Eq)]
pub enum MissingKey {
    /// No public key is registered on chain for the address.
    OnChain(Address),
    /// The wallet holds no key pair for the public key.
    ForPublicKey(PublicKey),
    /// The wallet holds no key pair for the public key hash of an implicit address.
    ForPublicKeyHash(PublicKeyHash),
    /// No key pair was loaded under the name.
    Loaded(WalletKeypair),
}

/// What a `MissingKey` stands for.
pub enum MissingKeyView {
    OnChain(AddressView),
    ForPublicKey(Seq<u8>),
    ForPublicKeyHash(Seq<u8>),
    Loaded(Seq<char>),
}

impl View for MissingKey {
    type V = MissingKeyView;

    open spec fn view(&self) -> MissingKeyView {
        match self {
            MissingKey::OnChain(address) => MissingKeyView::OnChain(address@),
            MissingKey::ForPublicKey(key) => MissingKeyView::ForPublicKey(key@),
            MissingKey::ForPublicKeyHash(hash) => MissingKeyView::ForPublicKeyHash(hash@),
            MissingKey::Loaded(name) => MissingKeyView::Loaded(name@),
        }
    }
}

/// Why no signed transaction was produced.
#[derive(Debug, PartialEq, Eq)]
pub enum SigningError {
    /// A key that the signer needs is not where it was looked for.
    KeyNotFound(MissingKey),
    /// The address is internal to the protocol and cannot sign.
    InvalidSignerKind(Address),
    /// Neither the caller nor the transaction names a signer.
    NoSignerSpecified,
    /// A collaborator failed; the text is its own account of the failure.
    NetworkFailure(String),
    /// The wrapper could not be signed with the key that signed the inner transaction.
    WrapperSigning(String),
    /// The wrapper has no serialized form: one of its byte strings is too long.
    WrapperEncoding,
    /// The answer does not fit the request that was pending.
    UnexpectedReply,
}

/// What a `SigningError` stands for.
pub enum SigningErrorView {
    KeyNotFound(MissingKeyView),
    InvalidSignerKind(AddressView),
    NoSignerSpecified,
    NetworkFailure(Seq<char>),
    WrapperSigning(Seq<char>),
    WrapperEncoding,
    UnexpectedReply,
}

impl View for SigningError {
    type V = SigningErrorView;

    open spec fn view(&self) -> SigningErrorView {
        match self {
            SigningError::KeyNotFound(missing) => SigningErrorView::KeyNotFound(missing@),
            SigningError::InvalidSignerKind(address) => SigningErrorView::InvalidSignerKind(
                address@,
            ),
            SigningError::NoSignerSpecified => SigningErrorView::NoSignerSpecified,
            SigningError::NetworkFailure(text) => SigningErrorView::NetworkFailure(text@),
            SigningError::WrapperSigning(text) => SigningErrorView::WrapperSigning(text@),
            SigningError::WrapperEncoding => SigningErrorView::WrapperEncoding,
            SigningError::UnexpectedReply => SigningErrorView::UnexpectedReply,
        }
    }
}

} // verus!
