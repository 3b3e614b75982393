use sha2::Digest;
use tx_signing::envelope::{sign_tx, sign_wrapper, Signing, TxBroadcastData, Wrapping};
use tx_signing::error::SigningError;
use tx_signing::exchange::{Reply, Request};
use tx_signing::signer::TxSigningKey;
use tx_signing::types::{
    Address, Epoch, PublicKeyHash, SecretKey, Tx, TxArgs, WalletAddress, WalletKeypair,
};

fn args(dry_run: bool) -> TxArgs {
    TxArgs {
        dry_run,
        fee_amount: 10,
        fee_token: WalletAddress { raw: "NAM".into() },
        gas_limit: 1000,
        signing_key: None,
        signer: None,
    }
}

fn key() -> SecretKey {
    SecretKey { bytes: vec![0x4b; 32] }
}

fn token() -> Address {
    Address::Established(b"nam".to_vec())
}

fn inner() -> Tx {
    Tx { bytes: b"transfer 1 to bob".to_vec() }
}

/// A stand-in for the signature scheme: the bytes, then the key.
fn signed(bytes: &[u8], key: &SecretKey) -> Tx {
    let mut out = bytes.to_vec();
    out.extend_from_slice(&key.bytes);
    Tx { bytes: out }
}

fn upper_hex(bytes: &[u8]) -> String {
    let mut text = String::new();
    for byte in bytes {
        text.push_str(&format!("{:02X}", byte));
    }
    text
}

/// The serialized wrapper of `tx` with fee 10 in the token `nam`, gas limit 1000 and
/// the given epoch, written out byte by byte.
fn expected_wrapper(tx: &Tx, epoch: u64) -> Vec<u8> {
    let mut bytes: Vec<u8> = Vec::new();
    bytes.extend_from_slice(&10u64.to_le_bytes());
    bytes.push(0);
    bytes.extend_from_slice(&3u32.to_le_bytes());
    bytes.extend_from_slice(b"nam");
    bytes.extend_from_slice(&epoch.to_le_bytes());
    bytes.extend_from_slice(&1000u64.to_le_bytes());
    bytes.push(0);
    bytes.extend_from_slice(&(tx.bytes.len() as u32).to_le_bytes());
    bytes.extend_from_slice(&tx.bytes);
    bytes.extend_from_slice(sha2::Sha256::digest(&tx.bytes).as_slice());
    bytes
}

/// What a signing asked, by kind.
#[derive(Debug, Default, PartialEq, Eq)]
struct Asked {
    reveal: usize,
    sign_inner: usize,
    epoch: usize,
    fee_token: usize,
    sign_wrapper: usize,
    other: usize,
}

/// Drives the signing to its end in a world where the wallet holds `key()` for
/// everything, the epoch is 5 and the fee token resolves to `token()`.
fn drive(mut signing: Signing) -> (Signing, Asked) {
    let mut asked = Asked::default();
    loop {
        let reply = match signing.request() {
            None => break,
            Some(Request::RevealPk(_)) => {
                asked.reveal += 1;
                Reply::Revealed
            }
            Some(Request::SignTx { tx, keypair }) => {
                asked.sign_inner += 1;
                Reply::Signed(signed(&tx.bytes, keypair))
            }
            Some(Request::Epoch) => {
                asked.epoch += 1;
                Reply::Epoch(Epoch(5))
            }
            Some(Request::Address(text)) => {
                if text.raw == "NAM" {
                    asked.fee_token += 1;
                    Reply::Address(token())
                } else {
                    asked.other += 1;
                    Reply::Address(Address::Implicit(PublicKeyHash { bytes: vec![1; 20] }))
                }
            }
            Some(Request::SignWrapper { wrapper, keypair }) => {
                asked.sign_wrapper += 1;
                Reply::Signed(signed(wrapper, keypair))
            }
            Some(Request::CachedKey(_))
            | Some(Request::WalletKeyByPk(_))
            | Some(Request::WalletKeyByPkh(_)) => {
                asked.other += 1;
                Reply::WalletKey(Some(key()))
            }
            Some(Request::PublicKey(_)) => {
                asked.other += 1;
                Reply::PublicKey(None)
            }
        };
        signing = signing.resume(reply);
    }
    (signing, asked)
}

#[test]
fn raw_key_live_run_makes_wrapper_with_two_hashes() {
    let (signing, asked) = drive(sign_tx(inner(), &args(false), TxSigningKey::SecretKey(key())));
    assert_eq!(
        asked,
        Asked { reveal: 1, sign_inner: 1, epoch: 1, fee_token: 1, sign_wrapper: 1, other: 0 }
    );

    let signed_inner = signed(&inner().bytes, &key());
    let wrapper = expected_wrapper(&signed_inner, 5);
    let h1 = upper_hex(sha2::Sha256::digest(&wrapper).as_slice());
    let h2 = upper_hex(sha2::Sha256::digest(&signed_inner.bytes).as_slice());
    assert_ne!(h1, h2);
    assert_eq!(h1.len(), 64);
    assert_eq!(h2.len(), 64);
    assert_eq!(
        signing.outcome(),
        Some(Ok(TxBroadcastData::Wrapper {
            tx: signed(&wrapper, &key()),
            wrapper_hash: h1,
            decrypted_hash: h2,
        }))
    );
}

#[test]
fn hashes_are_the_same_on_every_run() {
    let (one, _) = drive(sign_tx(inner(), &args(false), TxSigningKey::SecretKey(key())));
    let (other, _) = drive(sign_tx(inner(), &args(false), TxSigningKey::SecretKey(key())));
    assert_eq!(one, other);
    match one {
        Signing::Done(TxBroadcastData::Wrapper { wrapper_hash, decrypted_hash, .. }) => {
            assert_ne!(wrapper_hash, decrypted_hash);
            assert!(wrapper_hash.chars().all(|c| c.is_ascii_digit() || ('A'..='F').contains(&c)));
            assert!(decrypted_hash.chars().all(|c| c.is_ascii_digit() || ('A'..='F').contains(&c)));
        }
        other => panic!("no wrapper: {:?}", other),
    }
}

#[test]
fn dry_run_hands_back_signed_inner_tx_alone() {
    let (signing, asked) = drive(sign_tx(inner(), &args(true), TxSigningKey::SecretKey(key())));
    assert_eq!(
        asked,
        Asked { reveal: 1, sign_inner: 1, epoch: 1, fee_token: 0, sign_wrapper: 0, other: 0 }
    );
    assert_eq!(signing.outcome(), Some(Ok(TxBroadcastData::DryRun(signed(&inner().bytes, &key())))));
}

#[test]
fn signing_goes_through_its_stages_in_order() {
    let signing = sign_tx(inner(), &args(false), TxSigningKey::SecretKey(key()));
    assert_eq!(signing.request(), Some(Request::RevealPk(&key())));
    let signing = signing.resume(Reply::Revealed);
    assert_eq!(
        signing,
        Signing::AwaitInnerSignature { tx: inner(), keypair: key(), args: args(false) }
    );
    assert_eq!(signing.request(), Some(Request::SignTx { tx: &inner(), keypair: &key() }));
    let signed_inner = signed(&inner().bytes, &key());
    let signing = signing.resume(Reply::Signed(signed(&inner().bytes, &key())));
    assert_eq!(
        signing,
        Signing::AwaitEpoch { tx: signed(&inner().bytes, &key()), keypair: key(), args: args(false) }
    );
    assert_eq!(signing.request(), Some(Request::Epoch));
    let signing = signing.resume(Reply::Epoch(Epoch(7)));
    assert_eq!(
        signing.request(),
        Some(Request::Address(&WalletAddress { raw: "NAM".into() }))
    );
    let signing = signing.resume(Reply::Address(token()));
    let wrapper = expected_wrapper(&signed_inner, 7);
    assert_eq!(
        signing.request(),
        Some(Request::SignWrapper { wrapper: &wrapper, keypair: &key() })
    );
    let signing = signing.resume(Reply::Signed(Tx { bytes: vec![0xff] }));
    assert_eq!(
        signing,
        Signing::Done(TxBroadcastData::Wrapper {
            tx: Tx { bytes: vec![0xff] },
            wrapper_hash: upper_hex(sha2::Sha256::digest(&wrapper).as_slice()),
            decrypted_hash: upper_hex(sha2::Sha256::digest(&signed_inner.bytes).as_slice()),
        })
    );
    assert_eq!(signing.request(), None);
}

#[test]
fn signer_named_by_caller_signs_the_tx() {
    let mut named = args(true);
    named.signing_key = Some(WalletKeypair { raw: "my-key".into() });
    let (signing, asked) = drive(sign_tx(inner(), &named, TxSigningKey::Unspecified));
    assert_eq!(asked.reveal, 0);
    assert_eq!(asked.other, 1);
    assert_eq!(signing.outcome(), Some(Ok(TxBroadcastData::DryRun(signed(&inner().bytes, &key())))));
}

#[test]
fn implicit_signer_is_revealed_once_before_the_tx_is_signed() {
    let mut named = args(false);
    named.signer = Some(WalletAddress { raw: "my-address".into() });
    let (signing, asked) = drive(sign_tx(inner(), &named, TxSigningKey::Unspecified));
    assert_eq!(
        asked,
        Asked { reveal: 1, sign_inner: 1, epoch: 1, fee_token: 1, sign_wrapper: 1, other: 2 }
    );
    assert!(matches!(signing, Signing::Done(TxBroadcastData::Wrapper { .. })));
}

#[test]
fn no_signer_means_no_envelope_and_no_request() {
    let signing = sign_tx(inner(), &args(false), TxSigningKey::Unspecified);
    assert_eq!(signing, Signing::Failed(SigningError::NoSignerSpecified));
    assert_eq!(signing.request(), None);
    assert_eq!(signing.outcome(), Some(Err(SigningError::NoSignerSpecified)));
}

#[test]
fn wrapper_that_cannot_be_signed_is_its_own_error() {
    let signing = sign_tx(inner(), &args(false), TxSigningKey::SecretKey(key()))
        .resume(Reply::Revealed)
        .resume(Reply::Signed(signed(&inner().bytes, &key())))
        .resume(Reply::Epoch(Epoch(5)))
        .resume(Reply::Address(token()))
        .resume(Reply::Failure("wrong key".into()));
    assert_eq!(signing.outcome(), Some(Err(SigningError::WrapperSigning("wrong key".into()))));
}

#[test]
fn failure_of_epoch_query_comes_out_unchanged() {
    let signing = sign_tx(inner(), &args(false), TxSigningKey::SecretKey(key()))
        .resume(Reply::Revealed)
        .resume(Reply::Signed(signed(&inner().bytes, &key())))
        .resume(Reply::Failure("no route to ledger".into()));
    assert_eq!(
        signing.outcome(),
        Some(Err(SigningError::NetworkFailure("no route to ledger".into())))
    );
}

#[test]
fn answer_that_does_not_fit_ends_the_signing() {
    let signing = sign_tx(inner(), &args(false), TxSigningKey::SecretKey(key()))
        .resume(Reply::Revealed)
        .resume(Reply::Epoch(Epoch(5)));
    assert_eq!(signing.outcome(), Some(Err(SigningError::UnexpectedReply)));
    let signing = sign_tx(inner(), &args(false), TxSigningKey::SecretKey(key()))
        .resume(Reply::Revealed)
        .resume(Reply::Signed(inner()))
        .resume(Reply::Signed(inner()));
    assert_eq!(signing.outcome(), Some(Err(SigningError::UnexpectedReply)));
}

#[test]
fn wrapping_starts_by_resolving_the_fee_token() {
    let wrapping = sign_wrapper(&args(false), Epoch(5), inner(), &key());
    assert_eq!(
        wrapping,
        Wrapping::AwaitFeeToken {
            fee_amount: 10,
            fee_token: WalletAddress { raw: "NAM".into() },
            gas_limit: 1000,
            epoch: Epoch(5),
            tx: inner(),
            keypair: key(),
        }
    );
    assert_eq!(
        wrapping.request(),
        Some(Request::Address(&WalletAddress { raw: "NAM".into() }))
    );
    assert_eq!(wrapping.outcome(), None);
}

#[test]
fn wrapping_takes_both_hashes_before_the_wrapper_is_signed() {
    let wrapping = sign_wrapper(&args(false), Epoch(5), inner(), &key())
        .resume(Reply::Address(token()));
    let wrapper = expected_wrapper(&inner(), 5);
    assert_eq!(
        wrapping,
        Wrapping::AwaitSignature {
            wrapper: wrapper.clone(),
            wrapper_hash: upper_hex(sha2::Sha256::digest(&wrapper).as_slice()),
            decrypted_hash: upper_hex(sha2::Sha256::digest(&inner().bytes).as_slice()),
            keypair: key(),
        }
    );
}

#[test]
fn hashes_do_not_depend_on_key_or_signature() {
    let one = sign_wrapper(&args(false), Epoch(5), inner(), &key())
        .resume(Reply::Address(token()))
        .resume(Reply::Signed(Tx { bytes: vec![1] }));
    let other = sign_wrapper(&args(false), Epoch(5), inner(), &SecretKey { bytes: vec![9; 32] })
        .resume(Reply::Address(token()))
        .resume(Reply::Signed(Tx { bytes: vec![2] }));
    match (one, other) {
        (
            Wrapping::Done(TxBroadcastData::Wrapper { tx: a, wrapper_hash: a1, decrypted_hash: a2 }),
            Wrapping::Done(TxBroadcastData::Wrapper { tx: b, wrapper_hash: b1, decrypted_hash: b2 }),
        ) => {
            assert_eq!(a, Tx { bytes: vec![1] });
            assert_eq!(b, Tx { bytes: vec![2] });
            assert_eq!(a1, b1);
            assert_eq!(a2, b2);
        }
        other => panic!("no wrappers: {:?}", other),
    }
}

#[test]
fn wrapper_hash_follows_epoch_fee_and_gas() {
    fn wrapper_hash(args: &TxArgs, epoch: u64) -> (String, String) {
        match sign_wrapper(args, Epoch(epoch), inner(), &key()).resume(Reply::Address(token())) {
            Wrapping::AwaitSignature { wrapper_hash, decrypted_hash, .. } => {
                (wrapper_hash, decrypted_hash)
            }
            other => panic!("no wrapper: {:?}", other),
        }
    }
    let base = wrapper_hash(&args(false), 5);
    let later = wrapper_hash(&args(false), 6);
    let mut dearer = args(false);
    dearer.fee_amount = 11;
    let mut roomier = args(false);
    roomier.gas_limit = 1001;
    assert_ne!(base.0, later.0);
    assert_ne!(base.0, wrapper_hash(&dearer, 5).0);
    assert_ne!(base.0, wrapper_hash(&roomier, 5).0);
    assert_eq!(base.1, later.1);
    assert_eq!(base.1, wrapper_hash(&dearer, 5).1);
    assert_eq!(base.1, wrapper_hash(&roomier, 5).1);
}

#[test]
fn failure_to_resolve_fee_token_comes_out_unchanged() {
    let wrapping = sign_wrapper(&args(false), Epoch(5), inner(), &key())
        .resume(Reply::Failure("unknown token".into()));
    assert_eq!(wrapping.outcome(), Some(Err(SigningError::NetworkFailure("unknown token".into()))));
}

#[test]
fn wrapping_refuses_answer_that_does_not_fit() {
    let wrapping = sign_wrapper(&args(false), Epoch(5), inner(), &key()).resume(Reply::Revealed);
    assert_eq!(wrapping.outcome(), Some(Err(SigningError::UnexpectedReply)));
    let wrapping = sign_wrapper(&args(false), Epoch(5), inner(), &key())
        .resume(Reply::Address(token()))
        .resume(Reply::Epoch(Epoch(5)));
    assert_eq!(wrapping.outcome(), Some(Err(SigningError::UnexpectedReply)));
}

#[test]
fn ended_wrapping_stays_as_it_is() {
    let done = Wrapping::Done(TxBroadcastData::DryRun(inner())).resume(Reply::Revealed);
    assert_eq!(done, Wrapping::Done(TxBroadcastData::DryRun(inner())));
    let failed = Signing::Failed(SigningError::WrapperEncoding).resume(Reply::Revealed);
    assert_eq!(failed, Signing::Failed(SigningError::WrapperEncoding));
}
