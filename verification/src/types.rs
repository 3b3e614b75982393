//! Keys, addresses and transactions as the signing logic sees them.
//!
//! Key material, account identifiers and transaction bytes are opaque here: they are
//! carried from where they were found to where they are used, and never read.

use vstd::prelude::*;

verus! {

/// A secret key that can sign a transaction.
#[derive(Debug, PartialEq, Eq)]
pub struct SecretKey {
    pub bytes: Vec<u8>,
}

impl View for SecretKey {
    type V = Seq<u8>;

    open spec fn view(&self) -> Seq<u8> {
        self.bytes@
    }
}

impl Clone for SecretKey {
    fn clone(&self) -> (copy: Self)
        ensures
            copy@ == self@,
    {
        SecretKey { bytes: self.bytes.clone() }
    }
}

/// The public half of a key pair.
#[derive(Debug, PartialEq, Eq)]
pub struct PublicKey {
    pub bytes: Vec<u8>,
}

impl View for PublicKey {
    type V = Seq<u8>;

    open spec fn view(&self) -> Seq<u8> {
        self.bytes@
    }
}

impl Clone for PublicKey {
    fn clone(&self) -> (copy: Self)
        ensures
            copy@ == self@,
    {
        PublicKey { bytes: self.bytes.clone() }
    }
}

/// The hash of a public key, from which an implicit address is derived.
#[derive(Debug, PartialEq, Eq)]
pub struct PublicKeyHash {
    pub bytes: Vec<u8>,
}

impl View for PublicKeyHash {
    type V = Seq<u8>;

    open spec fn view(&self) -> Seq<u8> {
        self.bytes@
    }
}

impl Clone for PublicKeyHash {
    fn clone(&self) -> (copy: Self)
        ensures
            copy@ == self@,
    {
        PublicKeyHash { bytes: self.bytes.clone() }
    }
}

/// A serialized transaction.
#[derive(Debug, PartialEq, Eq)]
pub struct Tx {
    pub bytes: Vec<u8>,
}

impl View for Tx {
    type V = Seq<u8>;

    open spec fn view(&self) -> Seq<u8> {
        self.bytes@
    }
}

impl Clone for Tx {
    fn clone(&self) -> (copy: Self)
        ensures
            copy@ == self@,
    {
        Tx { bytes: self.bytes.clone() }
    }
}

/// The epoch in which a wrapper transaction is valid.
#[derive(Clone, Copy, Debug, PartialEq, Eq, Structural)]
pub struct Epoch(pub u64);

/// An account on the ledger.
#[derive(Debug, PartialEq, Eq)]
pub enum Address {
    /// An account established on chain. Its public key is registered in chain state.
    Established(Vec<u8>),
    /// An account derived from the hash of a public key.
    Implicit(PublicKeyHash),
    /// An account of the protocol itself. It has no signing key.
    Internal(Vec<u8>),
}

/// What an `Address` stands for.
pub enum AddressView {
    Established(Seq<u8>),
    Implicit(Seq<u8>),
    Internal(Seq<u8>),
}

impl AddressView {
    /// The number that tells the three kinds of address apart in serialized form.
    pub open spec fn kind(self) -> u8 {
        match self {
            AddressView::Established(_) => 0,
            AddressView::Implicit(_) => 1,
            AddressView::Internal(_) => 2,
        }
    }

    /// The bytes that identify the account among those of its kind.
    pub open spec fn id(self) -> Seq<u8> {
        match self {
            AddressView::Established(id) => id,
            AddressView::Implicit(hash) => hash,
            AddressView::Internal(id) => id,
        }
    }
}

impl View for Address {
    type V = AddressView;

    open spec fn view(&self) -> AddressView {
        match self {
            Address::Established(id) => AddressView::Established(id@),
            Address::Implicit(hash) => AddressView::Implicit(hash@),
            Address::Internal(id) => AddressView::Internal(id@),
        }
    }
}

impl Clone for Address {
    fn clone(&self) -> (copy: Self)
        ensures
            copy@ == self@,
    {
        match self {
            Address::Established(id) => Address::Established(id.clone()),
            Address::Implicit(hash) => Address::Implicit(hash.clone()),
            Address::Internal(id) => Address::Internal(id.clone()),
        }
    }
}

impl Address {
    /// Whether the address is derived from a public key hash.
    pub fn is_implicit(&self) -> (implicit: bool)
        ensures
            implicit == (self@ is Implicit),
    {
        match self {
            Address::Implicit(_) => true,
            _ => false,
        }
    }

    /// The number that tells the three kinds of address apart in serialized form.
    pub fn kind(&self) -> (kind: u8)
        ensures
            kind == self@.kind(),
    {
        match self {
            Address::Established(_) => 0,
            Address::Implicit(_) => 1,
            Address::Internal(_) => 2,
        }
    }

    /// The bytes that identify the account among those of its kind.
    pub fn id(&self) -> (id: &Vec<u8>)
        ensures
            id@ == self@.id(),
    {
        match self {
            Address::Established(id) => id,
            Address::Implicit(hash) => &hash.bytes,
            Address::Internal(id) => id,
        }
    }
}

/// The name under which the wallet holds a key pair that the caller has loaded.
#[derive(Debug, PartialEq, Eq)]
pub struct WalletKeypair {
    pub raw: String,
}

impl View for WalletKeypair {
    type V = Seq<char>;

    open spec fn view(&self) -> Seq<char> {
        self.raw@
    }
}

impl Clone for WalletKeypair {
    fn clone(&self) -> (copy: Self)
        ensures
            copy@ == self@,
    {
        WalletKeypair { raw: self.raw.clone() }
    }
}

/// The name or the text of an address, as the caller wrote it.
#[derive(Debug, PartialEq, Eq)]
pub struct WalletAddress {
    pub raw: String,
}

impl View for WalletAddress {
    type V = Seq<char>;

    open spec fn view(&self) -> Seq<char> {
        self.raw@
    }
}

impl Clone for WalletAddress {
    fn clone(&self) -> (copy: Self)
        ensures
            copy@ == self@,
    {
        WalletAddress { raw: self.raw.clone() }
    }
}

/// The arguments of a transaction that bear on signing and wrapping it.
#[derive(Debug, PartialEq, Eq)]
pub struct TxArgs {
    /// Simulate the transaction instead of submitting it.
    pub dry_run: bool,
    /// The fee offered for the wrapper.
    pub fee_amount: u64,
    /// The token in which the fee is paid.
    pub fee_token: WalletAddress,
    /// The gas limit of the wrapper.
    pub gas_limit: u64,
    /// A loaded key pair that the caller chose to sign with.
    pub signing_key: Option<WalletKeypair>,
    /// An address that the caller chose to sign for.
    pub signer: Option<WalletAddress>,
}

/// What `TxArgs` stands for.
pub struct TxArgsView {
    pub dry_run: bool,
    pub fee_amount: u64,
    pub fee_token: Seq<char>,
    pub gas_limit: u64,
    pub signing_key: Option<Seq<char>>,
    pub signer: Option<Seq<char>>,
}

impl View for TxArgs {
    type V = TxArgsView;

    open spec fn view(&self) -> TxArgsView {
        TxArgsView {
            dry_run: self.dry_run,
            fee_amount: self.fee_amount,
            fee_token: self.fee_token@,
            gas_limit: self.gas_limit,
            signing_key: match self.signing_key {
                Some(key) => Some(key@),
                None => None,
            },
            signer: match self.signer {
                Some(address) => Some(address@),
                None => None,
            },
        }
    }
}

impl Clone for TxArgs {
    fn clone(&self) -> (copy: Self)
        ensures
            copy@ == self@,
    {
        TxArgs {
            dry_run: self.dry_run,
            fee_amount: self.fee_amount,
            fee_token: self.fee_token.clone(),
            gas_limit: self.gas_limit,
            signing_key: match &self.signing_key {
                Some(key) => Some(key.clone()),
                None => None,
            },
            signer: match &self.signer {
                Some(address) => Some(address.clone()),
                None => None,
            },
        }
    }
}

} // verus!
