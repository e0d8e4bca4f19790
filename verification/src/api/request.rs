//! One struct per operation a caller can submit, carrying only the fields
//! that operation needs.

use vstd::prelude::*;
use crate::types::{Mechanism, Message, ObjectHandle, ShortData, Signature, StorageAttributes};

verus! {

/// Derive a shared secret from a private and a public key.
#[derive(Debug)]
pub struct Agree {
    pub mechanism: Mechanism,
    pub private_key: ObjectHandle,
    pub public_key: ObjectHandle,
    pub attributes: StorageAttributes,
}

/// Derive a new key (for instance a public key) from a base key.
#[derive(Debug)]
pub struct DeriveKey {
    pub mechanism: Mechanism,
    pub base_key: ObjectHandle,
    pub attributes: StorageAttributes,
}

/// Authenticated encryption of a message.
#[derive(Debug)]
pub struct Encrypt {
    pub mechanism: Mechanism,
    pub key: ObjectHandle,
    pub message: Message,
    pub associated_data: ShortData,
}

/// Authenticated decryption of a ciphertext.
#[derive(Debug)]
pub struct Decrypt {
    pub mechanism: Mechanism,
    pub key: ObjectHandle,
    pub message: Message,
    pub associated_data: ShortData,
    pub nonce: ShortData,
    pub tag: ShortData,
}

/// Generate a fresh key.
#[derive(Debug)]
pub struct GenerateKey {
    pub mechanism: Mechanism,
    pub attributes: StorageAttributes,
}

/// Sign a message.
#[derive(Debug)]
pub struct Sign {
    pub mechanism: Mechanism,
    pub key: ObjectHandle,
    pub message: Message,
}

/// Verify a signature over a message.
#[derive(Debug)]
pub struct Verify {
    pub mechanism: Mechanism,
    pub key: ObjectHandle,
    pub message: Message,
    pub signature: Signature,
}

} // verus!
