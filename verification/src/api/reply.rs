//! One struct per operation, carrying that operation's result.

use vstd::prelude::*;
use crate::types::{Message, ObjectHandle, ShortData, Signature};

verus! {

/// Result of [`crate::api::request::Agree`]: a handle to the shared secret.
#[derive(Debug)]
pub struct Agree {
    pub shared_secret: ObjectHandle,
}

/// Result of [`crate::api::request::DeriveKey`]: a handle to the derived key.
#[derive(Debug)]
pub struct DeriveKey {
    pub key: ObjectHandle,
}

/// Result of [`crate::api::request::Encrypt`].
#[derive(Debug)]
pub struct Encrypt {
    pub ciphertext: Message,
    pub nonce: ShortData,
    pub tag: ShortData,
}

/// Result of [`crate::api::request::Decrypt`].
#[derive(Debug)]
pub struct Decrypt {
    pub plaintext: Message,
}

/// Result of [`crate::api::request::GenerateKey`]: a handle to the new key.
#[derive(Debug)]
pub struct GenerateKey {
    pub key: ObjectHandle,
}

/// Result of [`crate::api::request::Sign`].
#[derive(Debug)]
pub struct Sign {
    pub signature: Signature,
}

/// Result of [`crate::api::request::Verify`].
#[derive(Debug)]
pub struct Verify {
    pub valid: bool,
}

} // verus!
