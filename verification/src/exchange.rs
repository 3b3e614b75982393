//! What the signing logic asks of the world around it, and what it is told.
//!
//! The logic itself reads no wallet and reaches no ledger. Where it needs either, it
//! stops with a `Request`; whoever drives it does what is asked and resumes it with the
//! `Reply`. A task of this kind is a `Machine`: at each moment it either waits on one
//! request or has ended.

use crate::types::{
    Address, AddressView, Epoch, PublicKey, PublicKeyHash, SecretKey, Tx, WalletAddress,
    WalletKeypair,
};
use vstd::prelude::*;

verus! {

/// Something that only the wallet, the ledger or the signature scheme can do.
#[derive(Clone, Copy, Debug, PartialEq, Eq)]
pub enum Request<'a> {
    /// Ask the ledger for the public key registered for the address.
    PublicKey(&'a Address),
    /// Ask the wallet for the key pair with this public key.
    WalletKeyByPk(&'a PublicKey),
    /// Ask the wallet for the key pair whose public key has this hash.
    WalletKeyByPkh(&'a PublicKeyHash),
    /// Fetch the key pair that the caller has loaded under this name.
    CachedKey(&'a WalletKeypair),
    /// Resolve what the caller wrote to an address.
    Address(&'a WalletAddress),
    /// Make sure the public key of this key is revealed on chain.
    RevealPk(&'a SecretKey),
    /// Sign the inner transaction with the key.
    SignTx { tx: &'a Tx, keypair: &'a SecretKey },
    /// Ask the ledger for the current epoch.
    Epoch,
    /// Sign the serialized wrapper with the key.
    SignWrapper { wrapper: &'a Vec<u8>, keypair: &'a SecretKey },
}

/// What a `Request` stands for.
pub enum RequestView {
    PublicKey(AddressView),
    WalletKeyByPk(Seq<u8>),
    WalletKeyByPkh(Seq<u8>),
    CachedKey(Seq<char>),
    Address(Seq<char>),
    RevealPk(Seq<u8>),
    SignTx { tx: Seq<u8>, keypair: Seq<u8> },
    Epoch,
    SignWrapper { wrapper: Seq<u8>, keypair: Seq<u8> },
}

impl RequestView {
    /// The request goes out to the ledger.
    pub open spec fn is_network(self) -> bool {
        self is PublicKey || self is RevealPk || self is Epoch
    }
}

impl<'a> View for Request<'a> {
    type V = RequestView;

    open spec fn view(&self) -> RequestView {
        match self {
            Request::PublicKey(address) => RequestView::PublicKey(address@),
            Request::WalletKeyByPk(key) => RequestView::WalletKeyByPk(key@),
            Request::WalletKeyByPkh(hash) => RequestView::WalletKeyByPkh(hash@),
            Request::CachedKey(name) => RequestView::CachedKey(name@),
            Request::Address(text) => RequestView::Address(text@),
            Request::RevealPk(key) => RequestView::RevealPk(key@),
            Request::SignTx { tx, keypair } => RequestView::SignTx { tx: tx@, keypair: keypair@ },
            Request::Epoch => RequestView::Epoch,
            Request::SignWrapper { wrapper, keypair } => RequestView::SignWrapper {
                wrapper: wrapper@,
                keypair: keypair@,
            },
        }
    }
}

/// The answer to a request.
#[derive(Debug, PartialEq, Eq)]
pub enum Reply {
    /// The public key registered for the address, if there is one.
    PublicKey(Option<PublicKey>),
    /// The key pair that the wallet holds, if it holds one.
    WalletKey(Option<SecretKey>),
    /// The address that the text resolves to.
    Address(Address),
    /// The public key is revealed on chain.
    Revealed,
    /// The signed transaction.
    Signed(Tx),
    /// The current epoch.
    Epoch(Epoch),
    /// The collaborator failed; the text is its own account of the failure.
    Failure(String),
}

/// What a `Reply` stands for.
pub enum ReplyView {
    PublicKey(Option<Seq<u8>>),
    WalletKey(Option<Seq<u8>>),
    Address(AddressView),
    Revealed,
    Signed(Seq<u8>),
    Epoch(Epoch),
    Failure(Seq<char>),
}

impl View for Reply {
    type V = ReplyView;

    open spec fn view(&self) -> ReplyView {
        match self {
            Reply::PublicKey(Some(key)) => ReplyView::PublicKey(Some(key@)),
            Reply::PublicKey(None) => ReplyView::PublicKey(None),
            Reply::WalletKey(Some(key)) => ReplyView::WalletKey(Some(key@)),
            Reply::WalletKey(None) => ReplyView::WalletKey(None),
            Reply::Address(address) => ReplyView::Address(address@),
            Reply::Revealed => ReplyView::Revealed,
            Reply::Signed(tx) => ReplyView::Signed(tx@),
            Reply::Epoch(epoch) => ReplyView::Epoch(*epoch),
            Reply::Failure(text) => ReplyView::Failure(text@),
        }
    }
}

/// A task that goes forward one answered request at a time.
pub trait Machine: Sized {
    /// The request that the task waits on, or `None` once the task has ended.
    spec fn pending(self) -> Option<RequestView>;

    /// The task after `reply` has answered its pending request. A task that has ended
    /// stays as it is.
    spec fn resume(self, reply: ReplyView) -> Self;
}

/// The task after it has been given the replies in order, for as long as it waited on
/// a request.
pub open spec fn run<M: Machine>(task: M, replies: Seq<ReplyView>) -> M
    decreases replies.len(),
{
    if replies.len() == 0 || task.pending() is None {
        task
    } else {
        run(task.resume(replies[0]), replies.drop_first())
    }
}

/// The requests that the task makes, in order, while it is given the replies in order.
/// The last of them is still unanswered if the replies run out before the task ends.
pub open spec fn requests<M: Machine>(task: M, replies: Seq<ReplyView>) -> Seq<RequestView>
    decreases replies.len(),
{
    match task.pending() {
        None => seq![],
        Some(request) => if replies.len() == 0 {
            seq![request]
        } else {
            seq![request] + requests(task.resume(replies[0]), replies.drop_first())
        },
    }
}

} // verus!
