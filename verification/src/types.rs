//! Value types shared by requests and replies: algorithm selectors, object
//! handles, storage attributes, and the fixed-capacity byte buffers that
//! carry variable-length payloads without heap-unbounded allocation.

use vstd::prelude::*;

verus! {

/// Largest payload a [`Message`] can hold.
pub const MAX_MESSAGE_LENGTH: usize = 1024;

/// Largest payload a [`ShortData`] buffer can hold.
pub const MAX_SHORT_DATA_LENGTH: usize = 128;

/// Largest payload a [`Signature`] can hold.
pub const MAX_SIGNATURE_LENGTH: usize = 72;

/// Algorithm selector passed as a request parameter. It is opaque to the
/// transport: it never influences how a request is routed or matched.
#[derive(Clone, Copy, Debug, PartialEq, Eq, Structural)]
pub enum Mechanism {
    Chacha8Poly1305,
    Ed25519,
    HmacSha256,
    P256,
}

/// Where a generated or derived object should be persisted by the service.
#[derive(Clone, Copy, Debug, PartialEq, Eq, Structural)]
pub enum StorageLocation {
    Volatile,
    Internal,
    External,
}

/// How a generated or derived object should be stored; pure data.
#[derive(Clone, Copy, Debug, PartialEq, Eq, Structural)]
pub struct StorageAttributes {
    pub persistence: StorageLocation,
}

impl StorageAttributes {
    /// Attributes for an object that need not outlive a power cycle.
    pub fn new() -> (a: Self)
        ensures
            a.persistence == StorageLocation::Volatile,
    {
        StorageAttributes { persistence: StorageLocation::Volatile }
    }

    /// Same attributes with the persistence replaced.
    pub fn set_persistence(self, persistence: StorageLocation) -> (a: Self)
        ensures
            a.persistence == persistence,
    {
        StorageAttributes { persistence }
    }
}

/// Opaque, copyable capability referencing a key or object owned by the
/// peer service. The client never inspects it, only hands it back.
#[derive(Clone, Copy, Debug, PartialEq, Eq, Structural)]
pub struct ObjectHandle {
    pub object_id: u32,
}

/// Copies a slice of bytes into a fresh vector.
fn bytes_of_slice(slice: &[u8]) -> (v: Vec<u8>)
    ensures
        v@ == slice@,
{
    let mut v: Vec<u8> = Vec::new();
    let mut i: usize = 0;
    while i < slice.len()
        invariant
            i <= slice@.len(),
            v@ == slice@.subrange(0, i as int),
        decreases slice@.len() - i,
    {
        v.push(slice[i]);
        i = i + 1;
    }
    assert(slice@.subrange(0, slice@.len() as int) =~= slice@);
    v
}

/// Byte buffer for operation payloads, capped at [`MAX_MESSAGE_LENGTH`].
/// Construction from an oversized input fails; it never truncates.
#[derive(Debug)]
pub struct Message {
    data: Vec<u8>,
}

impl View for Message {
    type V = Seq<u8>;

    closed spec fn view(&self) -> Seq<u8> {
        self.data@
    }
}

impl Message {
    /// A buffer never holds more than its capacity.
    pub open spec fn wf(&self) -> bool {
        self@.len() <= MAX_MESSAGE_LENGTH
    }

    /// Fallible construction: succeeds exactly when the input fits.
    pub fn try_from_slice(slice: &[u8]) -> (r: Result<Message, ()>)
        ensures
            match r {
                Ok(m) => slice@.len() <= MAX_MESSAGE_LENGTH && m@ == slice@,
                Err(_) => slice@.len() > MAX_MESSAGE_LENGTH,
            },
    {
        if slice.len() > MAX_MESSAGE_LENGTH {
            Err(())
        } else {
            Ok(Message { data: bytes_of_slice(slice) })
        }
    }

    /// The buffered bytes.
    pub fn as_slice(&self) -> (r: &[u8])
        ensures
            r@ == self@,
    {
        self.data.as_slice()
    }

    /// Number of bytes held.
    pub fn len(&self) -> (n: usize)
        ensures
            n == self@.len(),
    {
        self.data.len()
    }
}

/// Byte buffer for short auxiliary data (associated data, nonces,
/// authentication tags), capped at [`MAX_SHORT_DATA_LENGTH`].
#[derive(Debug)]
pub struct ShortData {
    data: Vec<u8>,
}

impl View for ShortData {
    type V = Seq<u8>;

    closed spec fn view(&self) -> Seq<u8> {
        self.data@
    }
}

impl ShortData {
    /// A buffer never holds more than its capacity.
    pub open spec fn wf(&self) -> bool {
        self@.len() <= MAX_SHORT_DATA_LENGTH
    }

    /// Fallible construction: succeeds exactly when the input fits.
    pub fn try_from_slice(slice: &[u8]) -> (r: Result<ShortData, ()>)
        ensures
            match r {
                Ok(m) => slice@.len() <= MAX_SHORT_DATA_LENGTH && m@ == slice@,
                Err(_) => slice@.len() > MAX_SHORT_DATA_LENGTH,
            },
    {
        if slice.len() > MAX_SHORT_DATA_LENGTH {
            Err(())
        } else {
            Ok(ShortData { data: bytes_of_slice(slice) })
        }
    }

    /// The buffered bytes.
    pub fn as_slice(&self) -> (r: &[u8])
        ensures
            r@ == self@,
    {
        self.data.as_slice()
    }

    /// Number of bytes held.
    pub fn len(&self) -> (n: usize)
        ensures
            n == self@.len(),
    {
        self.data.len()
    }
}

/// Byte buffer for signatures, capped at [`MAX_SIGNATURE_LENGTH`].
#[derive(Debug)]
pub struct Signature {
    data: Vec<u8>,
}

impl View for Signature {
    type V = Seq<u8>;

    closed spec fn view(&self) -> Seq<u8> {
        self.data@
    }
}

impl Signature {
    /// A buffer never holds more than its capacity.
    pub open spec fn wf(&self) -> bool {
        self@.len() <= MAX_SIGNATURE_LENGTH
    }

    /// Fallible construction: succeeds exactly when the input fits.
    pub fn try_from_slice(slice: &[u8]) -> (r: Result<Signature, ()>)
        ensures
            match r {
                Ok(m) => slice@.len() <= MAX_SIGNATURE_LENGTH && m@ == slice@,
                Err(_) => slice@.len() > MAX_SIGNATURE_LENGTH,
            },
    {
        if slice.len() > MAX_SIGNATURE_LENGTH {
            Err(())
        } else {
            Ok(Signature { data: bytes_of_slice(slice) })
        }
    }

    /// The buffered bytes.
    pub fn as_slice(&self) -> (r: &[u8])
        ensures
            r@ == self@,
    {
        self.data.as_slice()
    }

    /// Number of bytes held.
    pub fn len(&self) -> (n: usize)
        ensures
            n == self@.len(),
    {
        self.data.len()
    }
}

} // verus!
