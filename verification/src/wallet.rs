//! What the toolbar reads of the wallet: whether it is connected, and its key.
//!
//! Connecting and disconnecting belong to the wallet adapter; nothing here
//! changes a connection.

use vstd::prelude::*;

verus! {

/// An account address: the bytes of a public key.
#[derive(Clone, Copy, Debug, PartialEq, Eq)]
pub struct Address {
    pub bytes: [u8; 32],
}

/// A transaction signature as the wallet returns it.
#[derive(Clone, Copy, Debug, PartialEq, Eq)]
pub struct Signature {
    pub bytes: [u8; 64],
}

/// The wallet is not connected.
#[derive(Clone, Copy, Debug, PartialEq, Eq)]
pub struct ConnectionError;

/// Why the wallet returned no signature.
#[derive(Clone, Copy, Debug, PartialEq, Eq)]
pub enum SignError {
    /// The user declined to sign.
    UserRejected,
    /// The signing backend could not be reached or failed.
    NetworkFailed,
}

/// Why a transaction could not be constructed.
#[derive(Clone, Copy, Debug, PartialEq, Eq)]
pub enum BuildError {
    WalletNotConnected,
    MissingPublicKey,
}

/// A reading of the wallet connection.
#[derive(Clone, Copy, Debug, PartialEq, Eq)]
pub struct WalletConnection {
    pub connected: bool,
    pub key: Option<Address>,
}

impl WalletConnection {
    /// A wallet that is not connected.
    pub fn disconnected() -> (wallet: Self)
        ensures
            !wallet.connected,
            wallet.key is None,
    {
        WalletConnection { connected: false, key: None }
    }

    /// A connected wallet with the given public key.
    pub fn connected_as(key: Address) -> (wallet: Self)
        ensures
            wallet.connected,
            wallet.key == Some(key),
    {
        WalletConnection { connected: true, key: Some(key) }
    }

    pub fn is_connected(&self) -> (b: bool)
        ensures
            b == self.connected,
    {
        self.connected
    }

    pub fn public_key(&self) -> (key: Option<Address>)
        ensures
            key == self.key,
    {
        self.key
    }
}

} // verus!
