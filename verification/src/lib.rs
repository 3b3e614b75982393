//! Resolution of the key that signs an outgoing transaction, and the envelope that
//! carries the signed transaction to the ledger.
//!
//! Nothing here reads a wallet or reaches a ledger. Each task stops where it needs
//! either, with a request for whoever drives it, and goes on with the answer.

pub mod envelope;
pub mod error;
pub mod exchange;
pub mod hash;
pub mod keypair;
pub mod laws;
pub mod model;
pub mod signer;
pub mod types;
pub mod wrapper;

pub use crate::envelope::{
    sign_tx, sign_wrapper, tracking_hashes, Signing, TxBroadcastData, Wrapping,
};
pub use crate::error::{MissingKey, SigningError};
pub use crate::exchange::{Reply, Request};
pub use crate::keypair::{find_keypair, KeypairSearch};
pub use crate::signer::{tx_signer, Signer, TxSigningKey};
