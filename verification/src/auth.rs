//! Account authentication data: keys, credentials, transaction metadata,
//! Passkey client data, and the queries of a spot account.
use vstd::prelude::*;

verus! {

/// A public key that can be associated with a username.
#[derive(Clone, Copy, Debug, PartialEq, Eq)]
pub enum Key {
    /// A Secp256r1 public key in compressed form.
    Secp256r1([u8; 33]),
    /// A Secp256k1 public key in compressed form.
    Secp256k1([u8; 33]),
}

/// An Secp256r1 signature made by a Passkey via WebAuthn, with its metadata.
#[derive(Clone, Debug, PartialEq, Eq)]
pub struct PasskeySignature {
    pub authenticator_data: Vec<u8>,
    pub client_data: Vec<u8>,
    pub sig: [u8; 64],
}

/// An EIP712 signature made with a compatible Ethereum wallet.
#[derive(Clone, Debug, PartialEq, Eq)]
pub struct Eip712Signature {
    /// The EIP712 typed-data object: type information, domain and message.
    pub typed_data: Vec<u8>,
    pub sig: [u8; 64],
}

/// What an account expects in a transaction's credential.
#[derive(Clone, Debug, PartialEq, Eq)]
pub enum Credential {
    /// An Secp256r1 signature made by a Passkey, with its metadata.
    Passkey(PasskeySignature),
    /// An Secp256k1 signature.
    Secp256k1([u8; 64]),
    /// An EIP712 signature made by a compatible Ethereum wallet.
    Eip712(Eip712Signature),
}

/// What an account expects in a transaction's data.
#[derive(Clone, Debug, PartialEq, Eq)]
pub struct Metadata {
    /// The user who signed the transaction.
    pub username: String,
    /// The hash of the key the user signed with.
    pub key_hash: [u8; 20],
    /// The sequence number the transaction was signed with.
    pub sequence: u32,
}

/// Passkey client data.
#[derive(Clone, Debug, PartialEq, Eq)]
pub struct ClientData {
    /// Should be `webauthn.get`; serialized under the name `type`.
    pub ty: String,
    /// Should be the sign document in URL-safe, unpadded base64.
    pub challenge: String,
    pub origin: String,
    /// Serialized under the name `crossOrigin`.
    pub cross_origin: bool,
}

/// Queries of a spot account.
#[derive(Clone, Copy, Debug, PartialEq, Eq)]
pub enum QueryMsg {
    /// The most recent transaction nonces that have been recorded.
    SeenNonces {},
}

} // verus!
