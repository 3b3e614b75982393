//! The choice of the signer of a transaction, and the way to its secret key.
//!
//! A key or an address that the caller names for the transaction goes before the
//! default of the command. A loaded key pair is fetched by its name. An address is
//! resolved and its key pair searched; where the address is implicit, its public key is
//! revealed on chain before the key is used. A secret key given outright is used as it
//! is, once its public key is revealed. With no signer at all there is nothing to do.

use crate::error::{MissingKey, MissingKeyView, SigningError, SigningErrorView};
use crate::exchange::{Machine, Reply, ReplyView, Request, RequestView};
use crate::keypair::{find_keypair, KeypairSearch, KeypairSearchView};
use crate::types::{SecretKey, TxArgs, TxArgsView, WalletAddress, WalletKeypair};
use vstd::prelude::*;

verus! {

/// Where the key that signs a transaction comes from.
#[derive(Debug, PartialEq, Eq)]
pub enum TxSigningKey {
    /// Nothing signs: no source has been decided on.
    Unspecified,
    /// The key pair that the caller has loaded under the name.
    WalletKeypair(WalletKeypair),
    /// The key pair that belongs to the address.
    WalletAddress(WalletAddress),
    /// The secret key itself.
    SecretKey(SecretKey),
}

/// What a `TxSigningKey` stands for.
pub enum TxSigningKeyView {
    Unspecified,
    WalletKeypair(Seq<char>),
    WalletAddress(Seq<char>),
    SecretKey(Seq<u8>),
}

impl View for TxSigningKey {
    type V = TxSigningKeyView;

    open spec fn view(&self) -> TxSigningKeyView {
        match self {
            TxSigningKey::Unspecified => TxSigningKeyView::Unspecified,
            TxSigningKey::WalletKeypair(name) => TxSigningKeyView::WalletKeypair(name@),
            TxSigningKey::WalletAddress(text) => TxSigningKeyView::WalletAddress(text@),
            TxSigningKey::SecretKey(key) => TxSigningKeyView::SecretKey(key@),
        }
    }
}

impl Clone for TxSigningKey {
    fn clone(&self) -> (copy: Self)
        ensures
            copy@ == self@,
    {
        match self {
            TxSigningKey::Unspecified => TxSigningKey::Unspecified,
            TxSigningKey::WalletKeypair(name) => TxSigningKey::WalletKeypair(name.clone()),
            TxSigningKey::WalletAddress(text) => TxSigningKey::WalletAddress(text.clone()),
            TxSigningKey::SecretKey(key) => TxSigningKey::SecretKey(key.clone()),
        }
    }
}

/// The source that signs: the key that the caller named, else the address that the
/// caller named, else the default.
pub open spec fn chosen_source(args: TxArgsView, default: TxSigningKeyView) -> TxSigningKeyView {
    match (args.signing_key, args.signer) {
        (Some(name), _) => TxSigningKeyView::WalletKeypair(name),
        (None, Some(text)) => TxSigningKeyView::WalletAddress(text),
        (None, None) => default,
    }
}

/// The way from a source to its secret key: what it waits on, or how it ended.
#[derive(Debug, PartialEq, Eq)]
pub enum Signer {
    /// The loaded key pair is fetched.
    AwaitCachedKey(WalletKeypair),
    /// The address of the signer is resolved.
    AwaitAddress(WalletAddress),
    /// The key pair of the address is searched; `implicit` tells whether the address is
    /// implicit.
    Searching { search: KeypairSearch, implicit: bool },
    /// The public key of the key is revealed on chain.
    AwaitReveal(SecretKey),
    /// The key is at hand.
    Ready(SecretKey),
    /// There is no key.
    Failed(SigningError),
}

/// What a `Signer` stands for.
pub enum SignerView {
    AwaitCachedKey(Seq<char>),
    AwaitAddress(Seq<char>),
    Searching { search: KeypairSearchView, implicit: bool },
    AwaitReveal(Seq<u8>),
    Ready(Seq<u8>),
    Failed(SigningErrorView),
}

impl View for Signer {
    type V = SignerView;

    open spec fn view(&self) -> SignerView {
        match self {
            Signer::AwaitCachedKey(name) => SignerView::AwaitCachedKey(name@),
            Signer::AwaitAddress(text) => SignerView::AwaitAddress(text@),
            Signer::Searching { search, implicit } => SignerView::Searching {
                search: search@,
                implicit: *implicit,
            },
            Signer::AwaitReveal(key) => SignerView::AwaitReveal(key@),
            Signer::Ready(key) => SignerView::Ready(key@),
            Signer::Failed(error) => SignerView::Failed(error@),
        }
    }
}

impl SignerView {
    /// The way to the key of `source`, before anything has been answered.
    pub open spec fn start(source: TxSigningKeyView) -> SignerView {
        match source {
            TxSigningKeyView::WalletKeypair(name) => SignerView::AwaitCachedKey(name),
            TxSigningKeyView::WalletAddress(text) => SignerView::AwaitAddress(text),
            TxSigningKeyView::SecretKey(key) => SignerView::AwaitReveal(key),
            TxSigningKeyView::Unspecified => SignerView::Failed(SigningErrorView::NoSignerSpecified),
        }
    }

    /// Where the signer stands once the search for the key pair of its address stands at
    /// `search`: a key found for an implicit address is revealed before it is used.
    pub open spec fn after_search(search: KeypairSearchView, implicit: bool) -> SignerView {
        match search {
            KeypairSearchView::Found(key) => if implicit {
                SignerView::AwaitReveal(key)
            } else {
                SignerView::Ready(key)
            },
            KeypairSearchView::Failed(error) => SignerView::Failed(error),
            _ => SignerView::Searching { search, implicit },
        }
    }

    /// A search that the signer holds is one that still waits on a request.
    pub open spec fn well_formed(self) -> bool {
        self matches SignerView::Searching { search, .. } ==> !search.ended()
    }

    /// The signer has ended, with a key or with an error.
    pub open spec fn ended(self) -> bool {
        self is Ready || self is Failed
    }

    /// How the signer ended, or `None` while it waits on a request.
    pub open spec fn outcome(self) -> Option<Result<Seq<u8>, SigningErrorView>> {
        match self {
            SignerView::Ready(key) => Some(Ok(key)),
            SignerView::Failed(error) => Some(Err(error)),
            _ => None,
        }
    }
}

impl Machine for SignerView {
    open spec fn pending(self) -> Option<RequestView> {
        match self {
            SignerView::AwaitCachedKey(name) => Some(RequestView::CachedKey(name)),
            SignerView::AwaitAddress(text) => Some(RequestView::Address(text)),
            SignerView::Searching { search, .. } => search.pending(),
            SignerView::AwaitReveal(key) => Some(RequestView::RevealPk(key)),
            SignerView::Ready(_) => None,
            SignerView::Failed(_) => None,
        }
    }

    open spec fn resume(self, reply: ReplyView) -> SignerView {
        match (self, reply) {
            (SignerView::Ready(_), _) => self,
            (SignerView::Failed(_), _) => self,
            (SignerView::Searching { search, implicit }, _) => SignerView::after_search(
                search.resume(reply),
                implicit,
            ),
            (_, ReplyView::Failure(text)) => SignerView::Failed(
                SigningErrorView::NetworkFailure(text),
            ),
            (SignerView::AwaitCachedKey(_), ReplyView::WalletKey(Some(key))) => SignerView::Ready(
                key,
            ),
            (SignerView::AwaitCachedKey(name), ReplyView::WalletKey(None)) => SignerView::Failed(
                SigningErrorView::KeyNotFound(MissingKeyView::Loaded(name)),
            ),
            (SignerView::AwaitAddress(_), ReplyView::Address(address)) => SignerView::after_search(
                KeypairSearchView::start(address),
                address is Implicit,
            ),
            (SignerView::AwaitReveal(key), ReplyView::Revealed) => SignerView::Ready(key),
            _ => SignerView::Failed(SigningErrorView::UnexpectedReply),
        }
    }
}

/// Where the signer stands once the search for the key pair of its address stands at
/// `search`.
fn after_search(search: KeypairSearch, implicit: bool) -> (signer: Signer)
    ensures
        signer@ == SignerView::after_search(search@, implicit),
{
    match search {
        KeypairSearch::Found(key) => if implicit {
            Signer::AwaitReveal(key)
        } else {
            Signer::Ready(key)
        },
        KeypairSearch::Failed(error) => Signer::Failed(error),
        other => Signer::Searching { search: other, implicit },
    }
}

/// Decides who signs the transaction and starts on the way to the secret key.
///
/// A key named in `args` goes before an address named there, and either before
/// `default`. With `TxSigningKey::Unspecified` as the source the signer has failed at once,
/// with `NoSignerSpecified`, and nothing is ever asked.
pub fn tx_signer(args: &TxArgs, default: TxSigningKey) -> (signer: Signer)
    ensures
        signer@ == SignerView::start(chosen_source(args@, default@)),
        signer@.well_formed(),
{
    let source = match (&args.signing_key, &args.signer) {
        (Some(name), _) => TxSigningKey::WalletKeypair(name.clone()),
        (None, Some(text)) => TxSigningKey::WalletAddress(text.clone()),
        (None, None) => default,
    };
    match source {
        TxSigningKey::WalletKeypair(name) => Signer::AwaitCachedKey(name),
        TxSigningKey::WalletAddress(text) => Signer::AwaitAddress(text),
        TxSigningKey::SecretKey(key) => Signer::AwaitReveal(key),
        TxSigningKey::Unspecified => Signer::Failed(SigningError::NoSignerSpecified),
    }
}

impl Signer {
    /// The request that the signer waits on, or `None` once it has ended.
    pub fn request(&self) -> (request: Option<Request<'_>>)
        ensures
            match request {
                Some(asked) => self@.pending() == Some(asked@),
                None => self@.pending() is None,
            },
    {
        match self {
            Signer::AwaitCachedKey(name) => Some(Request::CachedKey(name)),
            Signer::AwaitAddress(text) => Some(Request::Address(text)),
            Signer::Searching { search, .. } => search.request(),
            Signer::AwaitReveal(key) => Some(Request::RevealPk(key)),
            Signer::Ready(_) => None,
            Signer::Failed(_) => None,
        }
    }

    /// Goes on with the answer to the pending request.
    pub fn resume(self, reply: Reply) -> (next: Signer)
        ensures
            next@ == self@.resume(reply@),
            next@.well_formed(),
    {
        match (self, reply) {
            (Signer::Ready(key), _) => Signer::Ready(key),
            (Signer::Failed(error), _) => Signer::Failed(error),
            (Signer::Searching { search, implicit }, reply) => after_search(
                search.resume(reply),
                implicit,
            ),
            (_, Reply::Failure(text)) => Signer::Failed(SigningError::NetworkFailure(text)),
            (Signer::AwaitCachedKey(_), Reply::WalletKey(Some(key))) => Signer::Ready(key),
            (Signer::AwaitCachedKey(name), Reply::WalletKey(None)) => Signer::Failed(
                SigningError::KeyNotFound(MissingKey::Loaded(name)),
            ),
            (Signer::AwaitAddress(_), Reply::Address(address)) => after_search(
                find_keypair(&address),
                address.is_implicit(),
            ),
            (Signer::AwaitReveal(key), Reply::Revealed) => Signer::Ready(key),
            _ => Signer::Failed(SigningError::UnexpectedReply),
        }
    }

    /// How the signer ended: the secret key or the error, or `None` while it still
    /// waits on a request.
    pub fn outcome(self) -> (outcome: Option<Result<SecretKey, SigningError>>)
        ensures
            match outcome {
                Some(Ok(key)) => self@.outcome() == Some(Ok::<Seq<u8>, SigningErrorView>(key@)),
                Some(Err(error)) => self@.outcome() == Some(
                    Err::<Seq<u8>, SigningErrorView>(error@),
                ),
                None => self@.outcome() is None,
            },
    {
        match self {
            Signer::Ready(key) => Some(Ok(key)),
            Signer::Failed(error) => Some(Err(error)),
            _ => None,
        }
    }
}

} // verus!
