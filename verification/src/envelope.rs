//! The envelope in which a signed transaction goes to the ledger.
//!
//! The inner transaction is signed with the key of the signer. A dry run hands the
//! signed inner transaction back as it is. Otherwise the signed inner transaction is put
//! into a wrapper with the fee, the gas limit and the epoch, the wrapper is serialized
//! and signed with the same key, and two hashes go with it: the hash of the serialized
//! wrapper, by which the ledger is watched for the wrapper, and the hash of the inner
//! transaction, by which it is watched for the transaction once it is unwrapped.

use crate::error::{SigningError, SigningErrorView};
use crate::exchange::{Machine, Reply, ReplyView, Request, RequestView};
use crate::hash::{hash_tx, hex_upper, sha256_digest, TxHash};
use crate::signer::{chosen_source, tx_signer, Signer, SignerView, TxSigningKey, TxSigningKeyView};
use crate::types::{
    AddressView, Epoch, SecretKey, Tx, TxArgs, TxArgsView, WalletAddress,
};
use crate::wrapper::{EncryptionKey, Fee, WrapperTx, WrapperTxView};
use vstd::prelude::*;

verus! {

/// A signed transaction, ready to be sent to the ledger.
#[derive(Debug, PartialEq, Eq)]
pub enum TxBroadcastData {
    /// The signed inner transaction alone, for a dry run.
    DryRun(Tx),
    /// The signed wrapper, with the hash of the wrapper before it was signed and the
    /// hash of the inner transaction that it carries.
    Wrapper { tx: Tx, wrapper_hash: String, decrypted_hash: String },
}

/// What a `TxBroadcastData` stands for.
pub enum TxBroadcastDataView {
    DryRun(Seq<u8>),
    Wrapper { tx: Seq<u8>, wrapper_hash: Seq<char>, decrypted_hash: Seq<char> },
}

impl View for TxBroadcastData {
    type V = TxBroadcastDataView;

    open spec fn view(&self) -> TxBroadcastDataView {
        match self {
            TxBroadcastData::DryRun(tx) => TxBroadcastDataView::DryRun(tx@),
            TxBroadcastData::Wrapper { tx, wrapper_hash, decrypted_hash } => {
                TxBroadcastDataView::Wrapper {
                    tx: tx@,
                    wrapper_hash: wrapper_hash@,
                    decrypted_hash: decrypted_hash@,
                }
            },
        }
    }
}

/// The wrapper that is built around the signed inner transaction `tx` once the token
/// in which the fee is paid has been resolved to the address `token`.
pub open spec fn wrapper_for(
    fee_amount: u64,
    token: AddressView,
    gas_limit: u64,
    epoch: Epoch,
    tx: Seq<u8>,
) -> WrapperTxView {
    WrapperTxView {
        fee_amount,
        fee_token: token,
        epoch,
        gas_limit,
        encryption_key: EncryptionKey::Placeholder,
        inner_tx: tx,
        tx_hash: sha256_digest(tx),
    }
}

/// The hash by which the ledger is watched for a wrapper: that of its serialized form.
pub open spec fn wrapper_hash_of(wrapper: WrapperTxView) -> Seq<char> {
    hex_upper(sha256_digest(wrapper.encoding()))
}

/// The hash by which the ledger is watched for the inner transaction of a wrapper: the
/// hash that the wrapper carries.
pub open spec fn decrypted_hash_of(wrapper: WrapperTxView) -> Seq<char> {
    hex_upper(wrapper.tx_hash)
}

/// The wrapping of a signed inner transaction: what it waits on, or how it ended.
#[derive(Debug, PartialEq, Eq)]
pub enum Wrapping {
    /// The token in which the fee is paid is resolved to its address.
    AwaitFeeToken {
        fee_amount: u64,
        fee_token: WalletAddress,
        gas_limit: u64,
        epoch: Epoch,
        tx: Tx,
        keypair: SecretKey,
    },
    /// The serialized wrapper is signed. Both hashes are known already.
    AwaitSignature {
        wrapper: Vec<u8>,
        wrapper_hash: String,
        decrypted_hash: String,
        keypair: SecretKey,
    },
    /// The wrapper is signed.
    Done(TxBroadcastData),
    /// There is no wrapper.
    Failed(SigningError),
}

/// What a `Wrapping` stands for.
pub enum WrappingView {
    AwaitFeeToken {
        fee_amount: u64,
        fee_token: Seq<char>,
        gas_limit: u64,
        epoch: Epoch,
        tx: Seq<u8>,
        keypair: Seq<u8>,
    },
    AwaitSignature {
        wrapper: Seq<u8>,
        wrapper_hash: Seq<char>,
        decrypted_hash: Seq<char>,
        keypair: Seq<u8>,
    },
    Done(TxBroadcastDataView),
    Failed(SigningErrorView),
}

impl View for Wrapping {
    type V = WrappingView;

    open spec fn view(&self) -> WrappingView {
        match self {
            Wrapping::AwaitFeeToken { fee_amount, fee_token, gas_limit, epoch, tx, keypair } => {
                WrappingView::AwaitFeeToken {
                    fee_amount: *fee_amount,
                    fee_token: fee_token@,
                    gas_limit: *gas_limit,
                    epoch: *epoch,
                    tx: tx@,
                    keypair: keypair@,
                }
            },
            Wrapping::AwaitSignature { wrapper, wrapper_hash, decrypted_hash, keypair } => {
                WrappingView::AwaitSignature {
                    wrapper: wrapper@,
                    wrapper_hash: wrapper_hash@,
                    decrypted_hash: decrypted_hash@,
                    keypair: keypair@,
                }
            },
            Wrapping::Done(data) => WrappingView::Done(data@),
            Wrapping::Failed(error) => WrappingView::Failed(error@),
        }
    }
}

impl WrappingView {
    /// The wrapping of the signed inner transaction `tx`, before anything has been
    /// answered.
    pub open spec fn start(
        args: TxArgsView,
        epoch: Epoch,
        tx: Seq<u8>,
        keypair: Seq<u8>,
    ) -> WrappingView {
        WrappingView::AwaitFeeToken {
            fee_amount: args.fee_amount,
            fee_token: args.fee_token,
            gas_limit: args.gas_limit,
            epoch,
            tx,
            keypair,
        }
    }

    /// Where the wrapping stands once `wrapper` is built: its serialized form waits to
    /// be signed, with both hashes taken, or the wrapper has no serialized form.
    pub open spec fn after_build(wrapper: WrapperTxView, keypair: Seq<u8>) -> WrappingView {
        if wrapper.fits() {
            WrappingView::AwaitSignature {
                wrapper: wrapper.encoding(),
                wrapper_hash: wrapper_hash_of(wrapper),
                decrypted_hash: decrypted_hash_of(wrapper),
                keypair,
            }
        } else {
            WrappingView::Failed(SigningErrorView::WrapperEncoding)
        }
    }

    /// The wrapping has ended, with an envelope or with an error.
    pub open spec fn ended(self) -> bool {
        self is Done || self is Failed
    }

    /// How the wrapping ended, or `None` while it waits on a request.
    pub open spec fn outcome(self) -> Option<Result<TxBroadcastDataView, SigningErrorView>> {
        match self {
            WrappingView::Done(data) => Some(Ok(data)),
            WrappingView::Failed(error) => Some(Err(error)),
            _ => None,
        }
    }
}

impl Machine for WrappingView {
    open spec fn pending(self) -> Option<RequestView> {
        match self {
            WrappingView::AwaitFeeToken { fee_token, .. } => Some(RequestView::Address(fee_token)),
            WrappingView::AwaitSignature { wrapper, keypair, .. } => Some(
                RequestView::SignWrapper { wrapper, keypair },
            ),
            WrappingView::Done(_) => None,
            WrappingView::Failed(_) => None,
        }
    }

    open spec fn resume(self, reply: ReplyView) -> WrappingView {
        match (self, reply) {
            (WrappingView::Done(_), _) => self,
            (WrappingView::Failed(_), _) => self,
            (WrappingView::AwaitFeeToken { .. }, ReplyView::Failure(text)) => WrappingView::Failed(
                SigningErrorView::NetworkFailure(text),
            ),
            (
                WrappingView::AwaitFeeToken { fee_amount, gas_limit, epoch, tx, keypair, .. },
                ReplyView::Address(token),
            ) => WrappingView::after_build(
                wrapper_for(fee_amount, token, gas_limit, epoch, tx),
                keypair,
            ),
            (
                WrappingView::AwaitSignature { .. },
                ReplyView::Failure(text),
            ) => WrappingView::Failed(SigningErrorView::WrapperSigning(text)),
            (
                WrappingView::AwaitSignature { wrapper_hash, decrypted_hash, .. },
                ReplyView::Signed(tx),
            ) => WrappingView::Done(
                TxBroadcastDataView::Wrapper { tx, wrapper_hash, decrypted_hash },
            ),
            _ => WrappingView::Failed(SigningErrorView::UnexpectedReply),
        }
    }
}

/// Starts to wrap the signed inner transaction `tx` for the epoch, with the fee and the
/// gas limit of `args`. The wrapper will be signed with `keypair`.
pub fn sign_wrapper(args: &TxArgs, epoch: Epoch, tx: Tx, keypair: &SecretKey) -> (wrapping: Wrapping)
    ensures
        wrapping@ == WrappingView::start(args@, epoch, tx@, keypair@),
{
    Wrapping::AwaitFeeToken {
        fee_amount: args.fee_amount,
        fee_token: args.fee_token.clone(),
        gas_limit: args.gas_limit,
        epoch,
        tx,
        keypair: keypair.clone(),
    }
}

/// The two hashes by which a wrapper is followed on chain, as text: first the hash of
/// the serialized wrapper, then the hash of the inner transaction, which the wrapper
/// carries. No key and no signature has a part in either.
pub fn tracking_hashes(wrapper: &[u8], tx_hash: &TxHash) -> (hashes: (String, String))
    ensures
        hashes.0@ == hex_upper(sha256_digest(wrapper@)),
        hashes.1@ == hex_upper(tx_hash@),
        hashes.0@.len() == 64,
        hashes.1@.len() == 64,
{
    (hash_tx(wrapper).to_string(), tx_hash.to_string())
}

/// Serializes the wrapper and takes both hashes.
fn after_build(wrapper: WrapperTx, keypair: SecretKey) -> (wrapping: Wrapping)
    ensures
        wrapping@ == WrappingView::after_build(wrapper@, keypair@),
{
    match wrapper.try_to_vec() {
        Some(bytes) => {
            let (wrapper_hash, decrypted_hash) = tracking_hashes(
                bytes.as_slice(),
                &wrapper.tx_hash,
            );
            Wrapping::AwaitSignature { wrapper: bytes, wrapper_hash, decrypted_hash, keypair }
        },
        None => Wrapping::Failed(SigningError::WrapperEncoding),
    }
}

impl Wrapping {
    /// The request that the wrapping waits on, or `None` once it has ended.
    pub fn request(&self) -> (request: Option<Request<'_>>)
        ensures
            match request {
                Some(asked) => self@.pending() == Some(asked@),
                None => self@.pending() is None,
            },
    {
        match self {
            Wrapping::AwaitFeeToken { fee_token, .. } => Some(Request::Address(fee_token)),
            Wrapping::AwaitSignature { wrapper, keypair, .. } => Some(
                Request::SignWrapper { wrapper, keypair },
            ),
            Wrapping::Done(_) => None,
            Wrapping::Failed(_) => None,
        }
    }

    /// Goes on with the answer to the pending request.
    pub fn resume(self, reply: Reply) -> (next: Wrapping)
        ensures
            next@ == self@.resume(reply@),
    {
        match (self, reply) {
            (Wrapping::Done(data), _) => Wrapping::Done(data),
            (Wrapping::Failed(error), _) => Wrapping::Failed(error),
            (Wrapping::AwaitFeeToken { .. }, Reply::Failure(text)) => Wrapping::Failed(
                SigningError::NetworkFailure(text),
            ),
            (
                Wrapping::AwaitFeeToken { fee_amount, gas_limit, epoch, tx, keypair, .. },
                Reply::Address(token),
            ) => {
                let fee = Fee { amount: fee_amount, token };
                let wrapper = WrapperTx::new(fee, epoch, gas_limit, tx, EncryptionKey::default());
                after_build(wrapper, keypair)
            },
            (Wrapping::AwaitSignature { .. }, Reply::Failure(text)) => Wrapping::Failed(
                SigningError::WrapperSigning(text),
            ),
            (
                Wrapping::AwaitSignature { wrapper_hash, decrypted_hash, .. },
                Reply::Signed(tx),
            ) => Wrapping::Done(TxBroadcastData::Wrapper { tx, wrapper_hash, decrypted_hash }),
            _ => Wrapping::Failed(SigningError::UnexpectedReply),
        }
    }

    /// How the wrapping ended: the envelope or the error, or `None` while it still
    /// waits on a request.
    pub fn outcome(self) -> (outcome: Option<Result<TxBroadcastData, SigningError>>)
        ensures
            match outcome {
                Some(Ok(data)) => self@.outcome() == Some(
                    Ok::<TxBroadcastDataView, SigningErrorView>(data@),
                ),
                Some(Err(error)) => self@.outcome() == Some(
                    Err::<TxBroadcastDataView, SigningErrorView>(error@),
                ),
                None => self@.outcome() is None,
            },
    {
        match self {
            Wrapping::Done(data) => Some(Ok(data)),
            Wrapping::Failed(error) => Some(Err(error)),
            _ => None,
        }
    }
}

/// The signing of a transaction from the choice of the signer to the envelope: what it
/// waits on, or how it ended.
#[derive(Debug, PartialEq, Eq)]
pub enum Signing {
    /// The secret key of the signer is on its way.
    Resolving { signer: Signer, tx: Tx, args: TxArgs },
    /// The inner transaction is signed.
    AwaitInnerSignature { tx: Tx, keypair: SecretKey, args: TxArgs },
    /// The inner transaction `tx` is signed, and the ledger is asked for the epoch.
    AwaitEpoch { tx: Tx, keypair: SecretKey, args: TxArgs },
    /// The signed inner transaction is wrapped.
    Wrapping(Wrapping),
    /// The envelope is ready.
    Done(TxBroadcastData),
    /// There is no envelope.
    Failed(SigningError),
}

/// What a `Signing` stands for.
pub enum SigningView {
    Resolving { signer: SignerView, tx: Seq<u8>, args: TxArgsView },
    AwaitInnerSignature { tx: Seq<u8>, keypair: Seq<u8>, args: TxArgsView },
    AwaitEpoch { tx: Seq<u8>, keypair: Seq<u8>, args: TxArgsView },
    Wrapping(WrappingView),
    Done(TxBroadcastDataView),
    Failed(SigningErrorView),
}

impl View for Signing {
    type V = SigningView;

    open spec fn view(&self) -> SigningView {
        match self {
            Signing::Resolving { signer, tx, args } => SigningView::Resolving {
                signer: signer@,
                tx: tx@,
                args: args@,
            },
            Signing::AwaitInnerSignature { tx, keypair, args } => {
                SigningView::AwaitInnerSignature { tx: tx@, keypair: keypair@, args: args@ }
            },
            Signing::AwaitEpoch { tx, keypair, args } => SigningView::AwaitEpoch {
                tx: tx@,
                keypair: keypair@,
                args: args@,
            },
            Signing::Wrapping(wrapping) => SigningView::Wrapping(wrapping@),
            Signing::Done(data) => SigningView::Done(data@),
            Signing::Failed(error) => SigningView::Failed(error@),
        }
    }
}

impl SigningView {
    /// The signing of `tx`, before anything has been answered.
    pub open spec fn start(
        tx: Seq<u8>,
        args: TxArgsView,
        default: TxSigningKeyView,
    ) -> SigningView {
        SigningView::after_signer(SignerView::start(chosen_source(args, default)), tx, args)
    }

    /// Where the signing stands once the signer stands at `signer`: with the key at hand
    /// the inner transaction is signed.
    pub open spec fn after_signer(signer: SignerView, tx: Seq<u8>, args: TxArgsView) -> SigningView {
        match signer {
            SignerView::Ready(keypair) => SigningView::AwaitInnerSignature { tx, keypair, args },
            SignerView::Failed(error) => SigningView::Failed(error),
            _ => SigningView::Resolving { signer, tx, args },
        }
    }

    /// Where the signing stands once the wrapping stands at `wrapping`.
    pub open spec fn after_wrapping(wrapping: WrappingView) -> SigningView {
        match wrapping {
            WrappingView::Done(data) => SigningView::Done(data),
            WrappingView::Failed(error) => SigningView::Failed(error),
            _ => SigningView::Wrapping(wrapping),
        }
    }

    /// Where the signing stands once the inner transaction `tx` is signed and the epoch
    /// is known: a dry run ends here, with the signed inner transaction alone.
    pub open spec fn after_epoch(
        tx: Seq<u8>,
        keypair: Seq<u8>,
        args: TxArgsView,
        epoch: Epoch,
    ) -> SigningView {
        if args.dry_run {
            SigningView::Done(TxBroadcastDataView::DryRun(tx))
        } else {
            SigningView::after_wrapping(WrappingView::start(args, epoch, tx, keypair))
        }
    }

    /// A signer or a wrapping that the signing holds is one that still waits on a
    /// request.
    pub open spec fn well_formed(self) -> bool {
        match self {
            SigningView::Resolving { signer, .. } => signer.well_formed() && !signer.ended(),
            SigningView::Wrapping(wrapping) => !wrapping.ended(),
            _ => true,
        }
    }

    /// The signing has ended, with an envelope or with an error.
    pub open spec fn ended(self) -> bool {
        self is Done || self is Failed
    }

    /// How the signing ended, or `None` while it waits on a request.
    pub open spec fn outcome(self) -> Option<Result<TxBroadcastDataView, SigningErrorView>> {
        match self {
            SigningView::Done(data) => Some(Ok(data)),
            SigningView::Failed(error) => Some(Err(error)),
            _ => None,
        }
    }
}

impl Machine for SigningView {
    open spec fn pending(self) -> Option<RequestView> {
        match self {
            SigningView::Resolving { signer, .. } => signer.pending(),
            SigningView::AwaitInnerSignature { tx, keypair, .. } => Some(
                RequestView::SignTx { tx, keypair },
            ),
            SigningView::AwaitEpoch { .. } => Some(RequestView::Epoch),
            SigningView::Wrapping(wrapping) => wrapping.pending(),
            SigningView::Done(_) => None,
            SigningView::Failed(_) => None,
        }
    }

    open spec fn resume(self, reply: ReplyView) -> SigningView {
        match (self, reply) {
            (SigningView::Done(_), _) => self,
            (SigningView::Failed(_), _) => self,
            (SigningView::Resolving { signer, tx, args }, _) => SigningView::after_signer(
                signer.resume(reply),
                tx,
                args,
            ),
            (SigningView::Wrapping(wrapping), _) => SigningView::after_wrapping(
                wrapping.resume(reply),
            ),
            (_, ReplyView::Failure(text)) => SigningView::Failed(
                SigningErrorView::NetworkFailure(text),
            ),
            (
                SigningView::AwaitInnerSignature { keypair, args, .. },
                ReplyView::Signed(signed),
            ) => SigningView::AwaitEpoch { tx: signed, keypair, args },
            (
                SigningView::AwaitEpoch { tx, keypair, args },
                ReplyView::Epoch(epoch),
            ) => SigningView::after_epoch(tx, keypair, args, epoch),
            _ => SigningView::Failed(SigningErrorView::UnexpectedReply),
        }
    }
}

/// Where the signing stands once the signer stands at `signer`.
fn after_signer(signer: Signer, tx: Tx, args: TxArgs) -> (signing: Signing)
    ensures
        signing@ == SigningView::after_signer(signer@, tx@, args@),
        signer@.well_formed() ==> signing@.well_formed(),
{
    match signer {
        Signer::Ready(keypair) => Signing::AwaitInnerSignature { tx, keypair, args },
        Signer::Failed(error) => Signing::Failed(error),
        other => Signing::Resolving { signer: other, tx, args },
    }
}

/// Where the signing stands once the wrapping stands at `wrapping`.
fn after_wrapping(wrapping: Wrapping) -> (signing: Signing)
    ensures
        signing@ == SigningView::after_wrapping(wrapping@),
        signing@.well_formed(),
{
    match wrapping {
        Wrapping::Done(data) => Signing::Done(data),
        Wrapping::Failed(error) => Signing::Failed(error),
        other => Signing::Wrapping(other),
    }
}

/// Starts to sign `tx` with the key of the signer that `args` name or, where they name
/// none, of `default`.
///
/// Unless `args` ask for a dry run, the signed transaction is put in a wrapper and comes
/// back with the hashes by which it is watched for on chain. In a dry run it is not put
/// in a wrapper, and comes back as it is.
pub fn sign_tx(tx: Tx, args: &TxArgs, default: TxSigningKey) -> (signing: Signing)
    ensures
        signing@ == SigningView::start(tx@, args@, default@),
        signing@.well_formed(),
{
    after_signer(tx_signer(args, default), tx, args.clone())
}

impl Signing {
    /// The request that the signing waits on, or `None` once it has ended.
    pub fn request(&self) -> (request: Option<Request<'_>>)
        ensures
            match request {
                Some(asked) => self@.pending() == Some(asked@),
                None => self@.pending() is None,
            },
    {
        match self {
            Signing::Resolving { signer, .. } => signer.request(),
            Signing::AwaitInnerSignature { tx, keypair, .. } => Some(
                Request::SignTx { tx, keypair },
            ),
            Signing::AwaitEpoch { .. } => Some(Request::Epoch),
            Signing::Wrapping(wrapping) => wrapping.request(),
            Signing::Done(_) => None,
            Signing::Failed(_) => None,
        }
    }

    /// Goes on with the answer to the pending request.
    pub fn resume(self, reply: Reply) -> (next: Signing)
        ensures
            next@ == self@.resume(reply@),
            next@.well_formed(),
    {
        match (self, reply) {
            (Signing::Done(data), _) => Signing::Done(data),
            (Signing::Failed(error), _) => Signing::Failed(error),
            (Signing::Resolving { signer, tx, args }, reply) => after_signer(
                signer.resume(reply),
                tx,
                args,
            ),
            (Signing::Wrapping(wrapping), reply) => after_wrapping(wrapping.resume(reply)),
            (_, Reply::Failure(text)) => Signing::Failed(SigningError::NetworkFailure(text)),
            (Signing::AwaitInnerSignature { keypair, args, .. }, Reply::Signed(signed)) => {
                Signing::AwaitEpoch { tx: signed, keypair, args }
            },
            (Signing::AwaitEpoch { tx, keypair, args }, Reply::Epoch(epoch)) => {
                if args.dry_run {
                    Signing::Done(TxBroadcastData::DryRun(tx))
                } else {
                    after_wrapping(sign_wrapper(&args, epoch, tx, &keypair))
                }
            },
            _ => Signing::Failed(SigningError::UnexpectedReply),
        }
    }

    /// How the signing ended: the envelope or the error, or `None` while it still waits
    /// on a request.
    pub fn outcome(self) -> (outcome: Option<Result<TxBroadcastData, SigningError>>)
        ensures
            match outcome {
                Some(Ok(data)) => self@.outcome() == Some(
                    Ok::<TxBroadcastDataView, SigningErrorView>(data@),
                ),
                Some(Err(error)) => self@.outcome() == Some(
                    Err::<TxBroadcastDataView, SigningErrorView>(error@),
                ),
                None => self@.outcome() is None,
            },
    {
        match self {
            Signing::Done(data) => Some(Ok(data)),
            Signing::Failed(error) => Some(Err(error)),
            _ => None,
        }
    }
}

} // verus!
