use vstd::prelude::*;

verus! {

/// PubKey defines a type alias for an ecdsa.PublicKey that implements
/// CometBFT's PubKey interface. It represents the 33-byte compressed public
/// key format.
#[derive(Clone, Debug, PartialEq, Eq, Default)]
pub struct PubKey {
    /// key is the public key in byte form
    pub key: Vec<u8>,
}

/// PrivKey defines a type alias for an ecdsa.PrivateKey that implements
/// CometBFT's PrivateKey interface.
#[derive(Clone, Debug, PartialEq, Eq, Default)]
pub struct PrivKey {
    /// key is the private key in byte form
    pub key: Vec<u8>,
}

} // verus!
