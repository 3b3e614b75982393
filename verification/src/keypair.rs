//! The search for the key pair that belongs to an address.
//!
//! For an established address the ledger is asked for the registered public key, and the
//! wallet for the key pair with that public key. An implicit address carries the hash of
//! its public key, so the wallet is asked at once and the ledger never. An internal
//! address has no key: the search ends before anything is asked.

use crate::error::{MissingKey, MissingKeyView, SigningError, SigningErrorView};
use crate::exchange::{Machine, Reply, ReplyView, Request, RequestView};
use crate::types::{Address, AddressView, PublicKey, PublicKeyHash, SecretKey};
use vstd::prelude::*;

verus! {

/// A search for the key pair of an address: what it waits on, or how it ended.
#[derive(Debug, PartialEq, Eq)]
pub enum KeypairSearch {
    /// The ledger is asked for the public key of the address.
    AwaitPublicKey(Address),
    /// The wallet is asked for the key pair with the public key.
    AwaitKeyByPk(PublicKey),
    /// The wallet is asked for the key pair whose public key has the hash.
    AwaitKeyByPkh(PublicKeyHash),
    /// The key pair was found.
    Found(SecretKey),
    /// The search failed.
    Failed(SigningError),
}

/// What a `KeypairSearch` stands for.
pub enum KeypairSearchView {
    AwaitPublicKey(AddressView),
    AwaitKeyByPk(Seq<u8>),
    AwaitKeyByPkh(Seq<u8>),
    Found(Seq<u8>),
    Failed(SigningErrorView),
}

impl View for KeypairSearch {
    type V = KeypairSearchView;

    open spec fn view(&self) -> KeypairSearchView {
        match self {
            KeypairSearch::AwaitPublicKey(address) => KeypairSearchView::AwaitPublicKey(address@),
            KeypairSearch::AwaitKeyByPk(key) => KeypairSearchView::AwaitKeyByPk(key@),
            KeypairSearch::AwaitKeyByPkh(hash) => KeypairSearchView::AwaitKeyByPkh(hash@),
            KeypairSearch::Found(key) => KeypairSearchView::Found(key@),
            KeypairSearch::Failed(error) => KeypairSearchView::Failed(error@),
        }
    }
}

impl KeypairSearchView {
    /// The search for the key pair of `address`, before anything has been answered.
    pub open spec fn start(address: AddressView) -> KeypairSearchView {
        match address {
            AddressView::Established(_) => KeypairSearchView::AwaitPublicKey(address),
            AddressView::Implicit(hash) => KeypairSearchView::AwaitKeyByPkh(hash),
            AddressView::Internal(_) => KeypairSearchView::Failed(
                SigningErrorView::InvalidSignerKind(address),
            ),
        }
    }

    /// The search has ended, with a key or with an error.
    pub open spec fn ended(self) -> bool {
        self is Found || self is Failed
    }

    /// How the search ended, or `None` while it waits on a request.
    pub open spec fn outcome(self) -> Option<Result<Seq<u8>, SigningErrorView>> {
        match self {
            KeypairSearchView::Found(key) => Some(Ok(key)),
            KeypairSearchView::Failed(error) => Some(Err(error)),
            _ => None,
        }
    }
}

impl Machine for KeypairSearchView {
    open spec fn pending(self) -> Option<RequestView> {
        match self {
            KeypairSearchView::AwaitPublicKey(address) => Some(RequestView::PublicKey(address)),
            KeypairSearchView::AwaitKeyByPk(key) => Some(RequestView::WalletKeyByPk(key)),
            KeypairSearchView::AwaitKeyByPkh(hash) => Some(RequestView::WalletKeyByPkh(hash)),
            KeypairSearchView::Found(_) => None,
            KeypairSearchView::Failed(_) => None,
        }
    }

    open spec fn resume(self, reply: ReplyView) -> KeypairSearchView {
        match (self, reply) {
            (KeypairSearchView::Found(_), _) => self,
            (KeypairSearchView::Failed(_), _) => self,
            (_, ReplyView::Failure(text)) => KeypairSearchView::Failed(
                SigningErrorView::NetworkFailure(text),
            ),
            (
                KeypairSearchView::AwaitPublicKey(_),
                ReplyView::PublicKey(Some(key)),
            ) => KeypairSearchView::AwaitKeyByPk(key),
            (
                KeypairSearchView::AwaitPublicKey(address),
                ReplyView::PublicKey(None),
            ) => KeypairSearchView::Failed(
                SigningErrorView::KeyNotFound(MissingKeyView::OnChain(address)),
            ),
            (
                KeypairSearchView::AwaitKeyByPk(_),
                ReplyView::WalletKey(Some(keypair)),
            ) => KeypairSearchView::Found(keypair),
            (KeypairSearchView::AwaitKeyByPk(key), ReplyView::WalletKey(None)) => {
                KeypairSearchView::Failed(
                    SigningErrorView::KeyNotFound(MissingKeyView::ForPublicKey(key)),
                )
            },
            (
                KeypairSearchView::AwaitKeyByPkh(_),
                ReplyView::WalletKey(Some(keypair)),
            ) => KeypairSearchView::Found(keypair),
            (KeypairSearchView::AwaitKeyByPkh(hash), ReplyView::WalletKey(None)) => {
                KeypairSearchView::Failed(
                    SigningErrorView::KeyNotFound(MissingKeyView::ForPublicKeyHash(hash)),
                )
            },
            _ => KeypairSearchView::Failed(SigningErrorView::UnexpectedReply),
        }
    }
}

/// Starts the search for the key pair of the address.
///
/// The search waits on its first request, or has failed already where the address is
/// internal to the protocol.
pub fn find_keypair(addr: &Address) -> (search: KeypairSearch)
    ensures
        search@ == KeypairSearchView::start(addr@),
{
    match addr {
        Address::Established(_) => KeypairSearch::AwaitPublicKey(addr.clone()),
        Address::Implicit(hash) => KeypairSearch::AwaitKeyByPkh(hash.clone()),
        Address::Internal(_) => KeypairSearch::Failed(
            SigningError::InvalidSignerKind(addr.clone()),
        ),
    }
}

impl KeypairSearch {
    /// The request that the search waits on, or `None` once it has ended.
    pub fn request(&self) -> (request: Option<Request<'_>>)
        ensures
            match request {
                Some(asked) => self@.pending() == Some(asked@),
                None => self@.pending() is None,
            },
    {
        match self {
            KeypairSearch::AwaitPublicKey(address) => Some(Request::PublicKey(address)),
            KeypairSearch::AwaitKeyByPk(key) => Some(Request::WalletKeyByPk(key)),
            KeypairSearch::AwaitKeyByPkh(hash) => Some(Request::WalletKeyByPkh(hash)),
            KeypairSearch::Found(_) => None,
            KeypairSearch::Failed(_) => None,
        }
    }

    /// Goes on with the answer to the pending request.
    pub fn resume(self, reply: Reply) -> (next: KeypairSearch)
        ensures
            next@ == self@.resume(reply@),
    {
        match (self, reply) {
            (KeypairSearch::Found(keypair), _) => KeypairSearch::Found(keypair),
            (KeypairSearch::Failed(error), _) => KeypairSearch::Failed(error),
            (_, Reply::Failure(text)) => KeypairSearch::Failed(SigningError::NetworkFailure(text)),
            (KeypairSearch::AwaitPublicKey(_), Reply::PublicKey(Some(key))) => {
                KeypairSearch::AwaitKeyByPk(key)
            },
            (KeypairSearch::AwaitPublicKey(address), Reply::PublicKey(None)) => {
                KeypairSearch::Failed(SigningError::KeyNotFound(MissingKey::OnChain(address)))
            },
            (KeypairSearch::AwaitKeyByPk(_), Reply::WalletKey(Some(keypair))) => {
                KeypairSearch::Found(keypair)
            },
            (KeypairSearch::AwaitKeyByPk(key), Reply::WalletKey(None)) => {
                KeypairSearch::Failed(SigningError::KeyNotFound(MissingKey::ForPublicKey(key)))
            },
            (KeypairSearch::AwaitKeyByPkh(_), Reply::WalletKey(Some(keypair))) => {
                KeypairSearch::Found(keypair)
            },
            (KeypairSearch::AwaitKeyByPkh(hash), Reply::WalletKey(None)) => {
                KeypairSearch::Failed(
                    SigningError::KeyNotFound(MissingKey::ForPublicKeyHash(hash)),
                )
            },
            _ => KeypairSearch::Failed(SigningError::UnexpectedReply),
        }
    }

    /// How the search ended: the key pair or the error, or `None` while it still waits
    /// on a request.
    pub fn outcome(self) -> (outcome: Option<Result<SecretKey, SigningError>>)
        ensures
            match outcome {
                Some(Ok(keypair)) => self@.outcome() == Some(
                    Ok::<Seq<u8>, SigningErrorView>(keypair@),
                ),
                Some(Err(error)) => self@.outcome() == Some(
                    Err::<Seq<u8>, SigningErrorView>(error@),
                ),
                None => self@.outcome() is None,
            },
    {
        match self {
            KeypairSearch::Found(keypair) => Some(Ok(keypair)),
            KeypairSearch::Failed(error) => Some(Err(error)),
            _ => None,
        }
    }
}

} // verus!
