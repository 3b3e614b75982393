//! What signing comes to in a world whose wallet and ledger are known.
//!
//! A `World` fixes what the wallet holds, what the ledger has registered and what the
//! signature scheme returns. In such a world the key of a source and the envelope of a
//! transaction can be written down at once, with no request and no reply in sight. The
//! theorems here say that a task which is given the answers of the world, request after
//! request, ends with just that.

use crate::envelope::{
    decrypted_hash_of, wrapper_for, wrapper_hash_of, SigningView, TxBroadcastDataView,
};
use crate::error::{MissingKeyView, SigningErrorView};
use crate::exchange::{Machine, ReplyView, RequestView};
use crate::keypair::KeypairSearchView;
use crate::signer::{chosen_source, SignerView, TxSigningKeyView};
use crate::types::{AddressView, Epoch, TxArgsView};
use vstd::prelude::*;

verus! {

/// What the collaborators of the signing logic hold and do.
pub struct World {
    /// The public keys registered on chain, by address.
    pub registered: Map<AddressView, Seq<u8>>,
    /// The key pairs of the wallet, by public key.
    pub wallet_by_key: Map<Seq<u8>, Seq<u8>>,
    /// The key pairs of the wallet, by the hash of the public key.
    pub wallet_by_hash: Map<Seq<u8>, Seq<u8>>,
    /// The key pairs that the caller has loaded, by name.
    pub loaded: Map<Seq<char>, Seq<u8>>,
    /// The address that a text resolves to.
    pub addresses: spec_fn(Seq<char>) -> AddressView,
    /// The epoch of the ledger.
    pub epoch: Epoch,
    /// The signed form of a serialized transaction under a key.
    pub signed: spec_fn(Seq<u8>, Seq<u8>) -> Seq<u8>,
}

impl World {
    /// The answer of the world to a request.
    pub open spec fn answer(self, request: RequestView) -> ReplyView {
        match request {
            RequestView::PublicKey(address) => ReplyView::PublicKey(self.registered.get(address)),
            RequestView::WalletKeyByPk(key) => ReplyView::WalletKey(self.wallet_by_key.get(key)),
            RequestView::WalletKeyByPkh(hash) => ReplyView::WalletKey(
                self.wallet_by_hash.get(hash),
            ),
            RequestView::CachedKey(name) => ReplyView::WalletKey(self.loaded.get(name)),
            RequestView::Address(text) => ReplyView::Address((self.addresses)(text)),
            RequestView::RevealPk(_) => ReplyView::Revealed,
            RequestView::SignTx { tx, keypair } => ReplyView::Signed((self.signed)(tx, keypair)),
            RequestView::Epoch => ReplyView::Epoch(self.epoch),
            RequestView::SignWrapper { wrapper, keypair } => ReplyView::Signed(
                (self.signed)(wrapper, keypair),
            ),
        }
    }

    /// The secret key that belongs to an address.
    ///
    /// For an established address it is the key pair that the wallet holds for the
    /// public key registered on chain; for an implicit address the key pair that the
    /// wallet holds for the hash in the address. An internal address has none.
    pub open spec fn key_of(self, address: AddressView) -> Result<Seq<u8>, SigningErrorView> {
        match address {
            AddressView::Established(_) => match self.registered.get(address) {
                None => Err(SigningErrorView::KeyNotFound(MissingKeyView::OnChain(address))),
                Some(public_key) => match self.wallet_by_key.get(public_key) {
                    None => Err(
                        SigningErrorView::KeyNotFound(MissingKeyView::ForPublicKey(public_key)),
                    ),
                    Some(keypair) => Ok(keypair),
                },
            },
            AddressView::Implicit(hash) => match self.wallet_by_hash.get(hash) {
                None => Err(SigningErrorView::KeyNotFound(MissingKeyView::ForPublicKeyHash(hash))),
                Some(keypair) => Ok(keypair),
            },
            AddressView::Internal(_) => Err(SigningErrorView::InvalidSignerKind(address)),
        }
    }

    /// The secret key that a source of signing keys comes to.
    pub open spec fn signing_key(self, source: TxSigningKeyView) -> Result<
        Seq<u8>,
        SigningErrorView,
    > {
        match source {
            TxSigningKeyView::Unspecified => Err(SigningErrorView::NoSignerSpecified),
            TxSigningKeyView::WalletKeypair(name) => match self.loaded.get(name) {
                None => Err(SigningErrorView::KeyNotFound(MissingKeyView::Loaded(name))),
                Some(keypair) => Ok(keypair),
            },
            TxSigningKeyView::WalletAddress(text) => self.key_of((self.addresses)(text)),
            TxSigningKeyView::SecretKey(key) => Ok(key),
        }
    }

    /// The envelope of a signed inner transaction: the transaction alone in a dry run,
    /// else the signed wrapper with its two hashes.
    pub open spec fn wrapped(self, signed: Seq<u8>, keypair: Seq<u8>, args: TxArgsView) -> Result<
        TxBroadcastDataView,
        SigningErrorView,
    > {
        let wrapper = wrapper_for(
            args.fee_amount,
            (self.addresses)(args.fee_token),
            args.gas_limit,
            self.epoch,
            signed,
        );
        if args.dry_run {
            Ok(TxBroadcastDataView::DryRun(signed))
        } else if wrapper.fits() {
            Ok(
                TxBroadcastDataView::Wrapper {
                    tx: (self.signed)(wrapper.encoding(), keypair),
                    wrapper_hash: wrapper_hash_of(wrapper),
                    decrypted_hash: decrypted_hash_of(wrapper),
                },
            )
        } else {
            Err(SigningErrorView::WrapperEncoding)
        }
    }

    /// The envelope that signing the transaction comes to.
    pub open spec fn envelope(
        self,
        tx: Seq<u8>,
        args: TxArgsView,
        default: TxSigningKeyView,
    ) -> Result<TxBroadcastDataView, SigningErrorView> {
        match self.signing_key(chosen_source(args, default)) {
            Err(error) => Err(error),
            Ok(keypair) => self.wrapped((self.signed)(tx, keypair), keypair, args),
        }
    }
}

/// The task after the world has answered its next `steps` requests, or all its requests
/// if it ends before.
pub open spec fn played<M: Machine>(task: M, world: World, steps: nat) -> M
    decreases steps,
{
    match task.pending() {
        None => task,
        Some(request) => if steps == 0 {
            task
        } else {
            played(task.resume(world.answer(request)), world, (steps - 1) as nat)
        },
    }
}

/// In a world that answers every request, the search for the key pair of an address
/// ends within two requests, and ends with the key that belongs to the address in that
/// world, or with the error that says why there is none.
pub proof fn theorem_search_finds_key_of_address(address: AddressView, world: World)
    ensures
        played(KeypairSearchView::start(address), world, 2).outcome() == Some(
            world.key_of(address),
        ),
{
    reveal_with_fuel(played, 3);
}

/// In a world that answers every request, the signer ends within three requests, and
/// ends with the secret key that its source comes to in that world, or with the error
/// that says why there is none. It never ends with any other key.
pub proof fn theorem_signer_finds_signing_key(source: TxSigningKeyView, world: World)
    ensures
        played(SignerView::start(source), world, 3).outcome() == Some(world.signing_key(source)),
{
    reveal_with_fuel(played, 4);
}

/// In a world that answers every request, the signing of a transaction ends within
/// seven requests, and ends with the envelope that the transaction comes to in that
/// world, or with the error that says why there is none.
pub proof fn theorem_signing_makes_envelope(
    tx: Seq<u8>,
    args: TxArgsView,
    default: TxSigningKeyView,
    world: World,
)
    ensures
        played(SigningView::start(tx, args, default), world, 7).outcome() == Some(
            world.envelope(tx, args, default),
        ),
{
    reveal_with_fuel(played, 8);
}

} // verus!
