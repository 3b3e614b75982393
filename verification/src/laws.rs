//! What holds of every search, signer and signing, whatever the answers are.

use crate::envelope::{
    decrypted_hash_of, wrapper_for, wrapper_hash_of, SigningView, TxBroadcastDataView,
    WrappingView,
};
use crate::error::SigningErrorView;
use crate::exchange::{requests, run, Machine, ReplyView, RequestView};
use crate::hash::{lemma_hex_upper_injective, sha256_digest};
use crate::keypair::KeypairSearchView;
use crate::signer::{SignerView, TxSigningKeyView};
use crate::types::{AddressView, Epoch, TxArgsView};
use crate::wrapper::lemma_encoding_longer_than_inner_tx;
use vstd::prelude::*;

verus! {

/// The search for the key pair of an internal address fails with `InvalidSignerKind`
/// before anything is asked: whatever replies stand ready, no request is made, of the
/// ledger or of anyone.
pub proof fn lemma_internal_address_asks_nothing(id: Seq<u8>, replies: Seq<ReplyView>)
    ensures
        KeypairSearchView::start(AddressView::Internal(id)).outcome() == Some(
            Err::<Seq<u8>, SigningErrorView>(
                SigningErrorView::InvalidSignerKind(AddressView::Internal(id)),
            ),
        ),
        requests(KeypairSearchView::start(AddressView::Internal(id)), replies) == Seq::<
            RequestView,
        >::empty(),
        run(KeypairSearchView::start(AddressView::Internal(id)), replies)
            == KeypairSearchView::start(AddressView::Internal(id)),
{
}

/// The search for the key pair of an implicit address makes one request, whatever the
/// answers are: the wallet is asked for the key pair by the hash of the public key. The
/// ledger is never asked for a public key.
pub proof fn lemma_implicit_address_asks_wallet_only(hash: Seq<u8>, replies: Seq<ReplyView>)
    ensures
        requests(KeypairSearchView::start(AddressView::Implicit(hash)), replies)
            == seq![RequestView::WalletKeyByPkh(hash)],
{
    reveal_with_fuel(requests, 2);
}

/// The public key that the first of the replies brings, if it brings one.
pub open spec fn first_public_key(replies: Seq<ReplyView>) -> Option<Seq<u8>> {
    if replies.len() == 0 {
        None
    } else {
        match replies[0] {
            ReplyView::PublicKey(Some(key)) => Some(key),
            _ => None,
        }
    }
}

/// The search for the key pair of an established address asks the ledger once for the
/// public key, first of all. Where the ledger has a key, it then asks the wallet once
/// for the key pair with that key. It asks nothing else, whatever the answers are.
pub proof fn lemma_established_address_asks_ledger_then_wallet(
    id: Seq<u8>,
    replies: Seq<ReplyView>,
)
    ensures
        requests(KeypairSearchView::start(AddressView::Established(id)), replies)
            == match first_public_key(replies) {
            Some(key) => seq![
                RequestView::PublicKey(AddressView::Established(id)),
                RequestView::WalletKeyByPk(key),
            ],
            None => seq![RequestView::PublicKey(AddressView::Established(id))],
        },
{
    reveal_with_fuel(requests, 3);
}

/// How many of the requests ask that a public key be revealed on chain.
pub open spec fn reveals(asked: Seq<RequestView>) -> nat
    decreases asked.len(),
{
    if asked.len() == 0 {
        0
    } else {
        reveals(asked.drop_last()) + if asked.last() is RevealPk {
            1nat
        } else {
            0nat
        }
    }
}

/// The address that the first of the replies brings, if it brings one.
pub open spec fn first_address(replies: Seq<ReplyView>) -> Option<AddressView> {
    if replies.len() == 0 {
        None
    } else {
        match replies[0] {
            ReplyView::Address(address) => Some(address),
            _ => None,
        }
    }
}

/// Whatever the answers are, a signer asks at most once that a public key be revealed.
/// It asks so exactly once where its source is a secret key given outright, and never
/// where its source is a loaded key pair. Where its source is an address and the signer
/// ends with a key, it has asked so once if the address is implicit, and not at all if
/// the address is established.
pub proof fn lemma_reveal_once_for_implicit_address_and_raw_key(
    source: TxSigningKeyView,
    replies: Seq<ReplyView>,
)
    ensures
        reveals(requests(SignerView::start(source), replies)) <= 1,
        source is SecretKey ==> reveals(requests(SignerView::start(source), replies)) == 1,
        source is WalletKeypair ==> reveals(requests(SignerView::start(source), replies)) == 0,
        source is WalletAddress && run(SignerView::start(source), replies) is Ready ==> {
            &&& first_address(replies) matches Some(address)
            &&& !(address is Internal)
            &&& reveals(requests(SignerView::start(source), replies)) == if address is Implicit {
                1nat
            } else {
                0nat
            }
        },
{
    reveal_with_fuel(requests, 5);
    reveal_with_fuel(run, 5);
    reveal_with_fuel(reveals, 5);
}

/// One of the replies brings the key pair from the wallet.
pub open spec fn wallet_gave(replies: Seq<ReplyView>, keypair: Seq<u8>) -> bool {
    exists|i: int|
        0 <= i < replies.len() && #[trigger] replies[i] == ReplyView::WalletKey(Some(keypair))
}

/// Whatever the answers are, a signer ends with a key or with an error that says what
/// went wrong, within three replies. A key that it ends with is the secret key of its
/// source or a key pair that the wallet gave: no key comes from anywhere else. An error
/// that it ends with is none of those that only a wrapper can meet.
pub proof fn lemma_signer_ends_with_given_key_or_error(
    source: TxSigningKeyView,
    replies: Seq<ReplyView>,
)
    ensures
        match run(SignerView::start(source), replies).outcome() {
            Some(Ok(keypair)) => source == TxSigningKeyView::SecretKey(keypair) || wallet_gave(
                replies,
                keypair,
            ),
            Some(Err(error)) => !(error is WrapperSigning) && !(error is WrapperEncoding),
            None => replies.len() < 3,
        },
        source is Unspecified ==> run(SignerView::start(source), replies).outcome() == Some(
            Err::<Seq<u8>, SigningErrorView>(SigningErrorView::NoSignerSpecified),
        ),
{
    reveal_with_fuel(run, 4);
}

/// A signer whose source is an address that resolves to an internal address ends with
/// `InvalidSignerKind` as soon as the address is known. It has asked for the address and
/// for nothing else: no request has gone out to the ledger.
pub proof fn lemma_internal_signer_is_refused_offline(
    text: Seq<char>,
    id: Seq<u8>,
    replies: Seq<ReplyView>,
)
    requires
        first_address(replies) == Some(AddressView::Internal(id)),
    ensures
        run(SignerView::start(TxSigningKeyView::WalletAddress(text)), replies).outcome() == Some(
            Err::<Seq<u8>, SigningErrorView>(
                SigningErrorView::InvalidSignerKind(AddressView::Internal(id)),
            ),
        ),
        requests(SignerView::start(TxSigningKeyView::WalletAddress(text)), replies)
            == seq![RequestView::Address(text)],
        !RequestView::Address(text).is_network(),
{
    reveal_with_fuel(requests, 3);
    reveal_with_fuel(run, 3);
}

/// With no source of signing keys the signer has ended before it starts, with
/// `NoSignerSpecified`: whatever replies stand ready, it asks nothing.
pub proof fn lemma_unspecified_signer_asks_nothing(replies: Seq<ReplyView>)
    ensures
        SignerView::start(TxSigningKeyView::Unspecified).outcome() == Some(
            Err::<Seq<u8>, SigningErrorView>(SigningErrorView::NoSignerSpecified),
        ),
        requests(SignerView::start(TxSigningKeyView::Unspecified), replies) == Seq::<
            RequestView,
        >::empty(),
{
}

/// The signing holds a wrapper, or an envelope made of one.
pub open spec fn holds_wrapper(signing: SigningView) -> bool {
    signing is Wrapping || (signing matches SigningView::Done(data) && data is Wrapper)
}

/// One of the requests asks for the signature of a wrapper.
pub open spec fn asks_wrapper_signature(asked: Seq<RequestView>) -> bool {
    exists|i: int| 0 <= i < asked.len() && #[trigger] asked[i] is SignWrapper
}

/// In a dry run no wrapper is built, whatever the answers are: the signing never holds
/// a wrapper, never asks for the signature of one, and where it ends with an envelope,
/// the envelope is the signed inner transaction alone, without hashes.
pub proof fn lemma_dry_run_builds_no_wrapper(
    tx: Seq<u8>,
    args: TxArgsView,
    default: TxSigningKeyView,
    replies: Seq<ReplyView>,
)
    requires
        args.dry_run,
    ensures
        !holds_wrapper(run(SigningView::start(tx, args, default), replies)),
        !asks_wrapper_signature(requests(SigningView::start(tx, args, default), replies)),
{
    reveal_with_fuel(requests, 8);
    reveal_with_fuel(run, 8);
}

/// The hashes of an envelope are fixed by the signed inner transaction, the fee, the
/// gas limit, the epoch and the address of the fee token. Two wrappings that agree on
/// these end with the same two hashes, whichever keys sign and whatever the signed
/// wrappers are; and each of the hashes is the text of a digest that does not depend
/// on anything else.
pub proof fn lemma_hashes_are_reproducible(
    one: TxArgsView,
    other: TxArgsView,
    epoch: Epoch,
    tx: Seq<u8>,
    token: AddressView,
    one_key: Seq<u8>,
    other_key: Seq<u8>,
    one_signed: Seq<u8>,
    other_signed: Seq<u8>,
)
    requires
        one.fee_amount == other.fee_amount,
        one.gas_limit == other.gas_limit,
    ensures
        ({
            let wrapper = wrapper_for(one.fee_amount, token, one.gas_limit, epoch, tx);
            let one_end = WrappingView::start(one, epoch, tx, one_key).resume(
                ReplyView::Address(token),
            ).resume(ReplyView::Signed(one_signed));
            let other_end = WrappingView::start(other, epoch, tx, other_key).resume(
                ReplyView::Address(token),
            ).resume(ReplyView::Signed(other_signed));
            if wrapper.fits() {
                &&& one_end == WrappingView::Done(
                    TxBroadcastDataView::Wrapper {
                        tx: one_signed,
                        wrapper_hash: wrapper_hash_of(wrapper),
                        decrypted_hash: decrypted_hash_of(wrapper),
                    },
                )
                &&& other_end == WrappingView::Done(
                    TxBroadcastDataView::Wrapper {
                        tx: other_signed,
                        wrapper_hash: wrapper_hash_of(wrapper),
                        decrypted_hash: decrypted_hash_of(wrapper),
                    },
                )
            } else {
                &&& one_end == WrappingView::Failed(SigningErrorView::WrapperEncoding)
                &&& other_end == WrappingView::Failed(SigningErrorView::WrapperEncoding)
            }
        }),
{
}

/// The two hashes of an envelope are taken of different byte strings: the serialized
/// wrapper is longer than the inner transaction that it carries. The hashes are equal
/// only where SHA-256 gives these two byte strings the same digest.
pub proof fn lemma_hashes_equal_only_where_digests_collide(
    fee_amount: u64,
    token: AddressView,
    gas_limit: u64,
    epoch: Epoch,
    tx: Seq<u8>,
)
    ensures
        ({
            let wrapper = wrapper_for(fee_amount, token, gas_limit, epoch, tx);
            &&& wrapper.encoding() != tx
            &&& wrapper_hash_of(wrapper) == decrypted_hash_of(wrapper) <==> sha256_digest(
                wrapper.encoding(),
            ) == sha256_digest(tx)
        }),
{
    let wrapper = wrapper_for(fee_amount, token, gas_limit, epoch, tx);
    lemma_encoding_longer_than_inner_tx(wrapper);
    if wrapper_hash_of(wrapper) == decrypted_hash_of(wrapper) {
        lemma_hex_upper_injective(sha256_digest(wrapper.encoding()), sha256_digest(tx));
    }
}

/// A collaborator that fails ends the signing at once, and its account of the failure
/// comes out as it went in: as `WrapperSigning` where the signature of the wrapper was
/// asked for, as `NetworkFailure` everywhere else.
pub proof fn lemma_failure_ends_signing(signing: SigningView, text: Seq<char>)
    requires
        signing.pending() is Some,
    ensures
        signing.resume(ReplyView::Failure(text)).outcome() == Some(
            Err::<TxBroadcastDataView, SigningErrorView>(
                if signing.pending()->0 is SignWrapper {
                    SigningErrorView::WrapperSigning(text)
                } else {
                    SigningErrorView::NetworkFailure(text)
                },
            ),
        ),
{
}

/// The number of requests that a search can still make.
pub open spec fn search_budget(search: KeypairSearchView) -> nat {
    match search {
        KeypairSearchView::AwaitPublicKey(_) => 2,
        KeypairSearchView::AwaitKeyByPk(_) => 1,
        KeypairSearchView::AwaitKeyByPkh(_) => 1,
        _ => 0,
    }
}

/// The number of requests that a signer can still make.
pub open spec fn signer_budget(signer: SignerView) -> nat {
    match signer {
        SignerView::AwaitCachedKey(_) => 1,
        SignerView::AwaitAddress(_) => 3,
        SignerView::Searching { search, implicit } => search_budget(search) + if implicit {
            1nat
        } else {
            0nat
        },
        SignerView::AwaitReveal(_) => 1,
        _ => 0,
    }
}

/// The number of requests that a wrapping can still make.
pub open spec fn wrapping_budget(wrapping: WrappingView) -> nat {
    match wrapping {
        WrappingView::AwaitFeeToken { .. } => 2,
        WrappingView::AwaitSignature { .. } => 1,
        _ => 0,
    }
}

/// The number of requests that a signing can still make.
pub open spec fn signing_budget(signing: SigningView) -> nat {
    match signing {
        SigningView::Resolving { signer, .. } => signer_budget(signer) + 4,
        SigningView::AwaitInnerSignature { .. } => 4,
        SigningView::AwaitEpoch { .. } => 3,
        SigningView::Wrapping(wrapping) => wrapping_budget(wrapping),
        _ => 0,
    }
}

/// Every answer brings a signing nearer to its end: the number of requests that it can
/// still make goes down with each reply, whatever the reply is, and is never above
/// seven. So a signing never comes back to where it has been.
pub proof fn lemma_signing_goes_forward(signing: SigningView, reply: ReplyView)
    requires
        signing.pending() is Some,
    ensures
        signing_budget(signing.resume(reply)) < signing_budget(signing),
        signing_budget(signing) <= 7,
{
}

/// Whatever the answers are, a signing has ended once it has been given seven of them:
/// with an envelope or with an error, and with nothing left to ask.
pub proof fn lemma_signing_ends_within_seven_replies(
    tx: Seq<u8>,
    args: TxArgsView,
    default: TxSigningKeyView,
    replies: Seq<ReplyView>,
)
    requires
        replies.len() >= 7,
    ensures
        run(SigningView::start(tx, args, default), replies).ended(),
        run(SigningView::start(tx, args, default), replies).outcome() is Some,
        run(SigningView::start(tx, args, default), replies).pending() is None,
        requests(SigningView::start(tx, args, default), replies).len() <= 7,
{
    reveal_with_fuel(requests, 8);
    reveal_with_fuel(run, 8);
}

/// The inner transaction counts as signed.
pub open spec fn inner_signed(signing: SigningView) -> bool {
    signing is AwaitEpoch || signing is Wrapping || signing is Done
}

/// No signing gets past the inner signature without it: the one step that leads from
/// a transaction that is not signed to one that is, is the answer with the signed
/// transaction to the request to sign it with the key of the signer.
pub proof fn lemma_inner_signature_is_not_skipped(signing: SigningView, reply: ReplyView)
    requires
        signing.well_formed(),
        !inner_signed(signing),
        inner_signed(signing.resume(reply)),
    ensures
        ({
            &&& signing matches SigningView::AwaitInnerSignature { tx, keypair, args }
            &&& signing.pending() == Some(RequestView::SignTx { tx, keypair })
            &&& reply matches ReplyView::Signed(signed)
            &&& signing.resume(reply) == (SigningView::AwaitEpoch { tx: signed, keypair, args })
        }),
{
}

} // verus!
