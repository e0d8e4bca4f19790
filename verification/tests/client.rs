//! Tests of the high-level client: one method per operation, bounded-input
//! validation, typed polling, and the notification discipline.

use crypto_service::api::{reply, Reply, Request};
use crypto_service::client::{Client, ClientError, Poll};
use crypto_service::error::Error;
use crypto_service::pipe::{ClientEndpoint, Syscall};
use crypto_service::types::{
    Mechanism, ObjectHandle, Signature, StorageAttributes, StorageLocation, MAX_MESSAGE_LENGTH,
    MAX_SHORT_DATA_LENGTH, MAX_SIGNATURE_LENGTH,
};

/// Stands in for the platform's wake signal and counts invocations.
struct CountingSyscall {
    count: usize,
}

impl Syscall for CountingSyscall {
    fn syscall(&mut self) {
        self.count += 1;
    }
}

fn new_client() -> Client<CountingSyscall> {
    Client::new(ClientEndpoint::new(), CountingSyscall { count: 0 })
}

fn sign_reply(sig: &[u8]) -> Reply {
    Reply::Sign(reply::Sign {
        signature: Signature::try_from_slice(sig).unwrap(),
    })
}

#[test]
fn sign_end_to_end_delivers_exact_signature() {
    let mut client = new_client();
    let key = ObjectHandle { object_id: 42 };
    let mut fut = client.sign(Mechanism::P256, key, b"hello").unwrap();
    match client.take_request() {
        Some(Request::Sign(q)) => {
            assert_eq!(q.key, key);
            assert_eq!(q.message.as_slice(), b"hello");
        }
        _ => panic!("the sign request must be queued as submitted"),
    }
    client.deliver_reply(Ok(sign_reply(&[0xAA, 0xBB]))).unwrap();
    match fut.poll(&mut client) {
        Poll::Ready(Ok(r)) => assert_eq!(r.signature.as_slice(), &[0xAA, 0xBB]),
        _ => panic!("the matching reply must complete the exchange"),
    }
    // The reply was consumed: a second poll reports "not ready" instead of
    // re-delivering the prior result.
    assert!(matches!(fut.poll(&mut client), Poll::Pending));
}

#[test]
fn wrong_variant_reply_is_internal_error_and_releases_slot() {
    let mut client = new_client();
    let key = ObjectHandle { object_id: 1 };
    let mut fut = client.sign(Mechanism::P256, key, b"hello").unwrap();
    client.take_request();
    client
        .deliver_reply(Ok(Reply::Verify(reply::Verify { valid: true })))
        .unwrap();
    match fut.poll(&mut client) {
        Poll::Ready(Err(Error::InternalError)) => {}
        _ => panic!("a wrong-variant reply must never surface as a success"),
    }
    // The pending tag was cleared: a new request succeeds.
    assert!(client.sign(Mechanism::P256, key, b"again").is_ok());
}

#[test]
fn second_request_before_drain_fails_pending() {
    let mut client = new_client();
    let key = ObjectHandle { object_id: 1 };
    client.sign(Mechanism::P256, key, b"first").unwrap();
    let second = client.sign(Mechanism::P256, key, b"second");
    assert!(matches!(second, Err(ClientError::Pending)));
    let third = client.generate_key(Mechanism::Ed25519, StorageAttributes::new());
    assert!(matches!(third, Err(ClientError::Pending)));
}

#[test]
fn oversized_message_rejected_before_anything_is_enqueued() {
    let mut client = new_client();
    let key = ObjectHandle { object_id: 1 };
    let too_long = vec![0u8; MAX_MESSAGE_LENGTH + 1];
    let r = client.sign(Mechanism::P256, key, &too_long);
    assert!(matches!(r, Err(ClientError::DataTooLarge)));
    // Nothing was enqueued and the pending tag is unchanged: a fresh
    // request is accepted and the outbound conduit was empty.
    assert!(client.take_request().is_none());
    assert!(client.sign(Mechanism::P256, key, b"ok").is_ok());
}

#[test]
fn message_of_exactly_maximum_length_is_accepted() {
    let mut client = new_client();
    let key = ObjectHandle { object_id: 1 };
    let at_cap = vec![0x5Au8; MAX_MESSAGE_LENGTH];
    assert!(client.sign(Mechanism::P256, key, &at_cap).is_ok());
    match client.take_request() {
        Some(Request::Sign(q)) => assert_eq!(q.message.as_slice(), &at_cap[..]),
        _ => panic!("the full-capacity message must be queued intact"),
    }
}

#[test]
fn verify_rejects_oversized_signature() {
    let mut client = new_client();
    let key = ObjectHandle { object_id: 1 };
    let sig = vec![0u8; MAX_SIGNATURE_LENGTH + 1];
    let r = client.verify(Mechanism::P256, key, b"msg", &sig);
    assert!(matches!(r, Err(ClientError::DataTooLarge)));
    assert!(client.take_request().is_none());
}

#[test]
fn encrypt_rejects_oversized_associated_data() {
    let mut client = new_client();
    let key = ObjectHandle { object_id: 1 };
    let ad = vec![0u8; MAX_SHORT_DATA_LENGTH + 1];
    let r = client.encrypt(Mechanism::Chacha8Poly1305, key, b"msg", &ad);
    assert!(matches!(r, Err(ClientError::DataTooLarge)));
    assert!(client.take_request().is_none());
}

#[test]
fn decrypt_queues_all_payloads_intact() {
    let mut client = new_client();
    let key = ObjectHandle { object_id: 3 };
    let mut fut = client
        .decrypt_chacha8poly1305(&key, b"ciphertext", b"aad", b"nonce", b"tag")
        .unwrap();
    match client.take_request() {
        Some(Request::Decrypt(q)) => {
            assert_eq!(q.mechanism, Mechanism::Chacha8Poly1305);
            assert_eq!(q.key, key);
            assert_eq!(q.message.as_slice(), b"ciphertext");
            assert_eq!(q.associated_data.as_slice(), b"aad");
            assert_eq!(q.nonce.as_slice(), b"nonce");
            assert_eq!(q.tag.as_slice(), b"tag");
        }
        _ => panic!("the decrypt request must carry every payload intact"),
    }
    let plaintext = crypto_service::types::Message::try_from_slice(b"plain").unwrap();
    client
        .deliver_reply(Ok(Reply::Decrypt(reply::Decrypt { plaintext })))
        .unwrap();
    match fut.poll(&mut client) {
        Poll::Ready(Ok(r)) => assert_eq!(r.plaintext.as_slice(), b"plain"),
        _ => panic!("the decrypt reply must complete the exchange"),
    }
}

#[test]
fn drain_releases_slot_after_success() {
    let mut client = new_client();
    let key = ObjectHandle { object_id: 1 };
    let mut fut = client.sign(Mechanism::P256, key, b"one").unwrap();
    client.take_request();
    client.deliver_reply(Ok(sign_reply(&[0x01]))).unwrap();
    assert!(matches!(fut.poll(&mut client), Poll::Ready(Ok(_))));
    assert!(client.sign(Mechanism::P256, key, b"two").is_ok());
}

#[test]
fn drain_releases_slot_after_service_error() {
    let mut client = new_client();
    let key = ObjectHandle { object_id: 1 };
    let mut fut = client.sign(Mechanism::P256, key, b"one").unwrap();
    client.take_request();
    client
        .deliver_reply(Err(Error::ImplementationError))
        .unwrap();
    match fut.poll(&mut client) {
        Poll::Ready(Err(Error::ImplementationError)) => {}
        _ => panic!("the service error must pass through unchanged"),
    }
    assert!(client.sign(Mechanism::P256, key, b"two").is_ok());
}

#[test]
fn typed_poll_on_empty_inbound_is_pending() {
    let mut client = new_client();
    let key = ObjectHandle { object_id: 1 };
    let mut fut = client.sign_ed25519(&key, b"msg").unwrap();
    for _ in 0..3 {
        assert!(matches!(fut.poll(&mut client), Poll::Pending));
    }
}

/// Counts wake signals through a handle the test keeps.
struct SharedCountSyscall {
    count: std::rc::Rc<std::cell::Cell<usize>>,
}

impl Syscall for SharedCountSyscall {
    fn syscall(&mut self) {
        self.count.set(self.count.get() + 1);
    }
}

#[test]
fn syscall_fires_exactly_once_per_accepted_submit() {
    let count = std::rc::Rc::new(std::cell::Cell::new(0usize));
    let syscall = SharedCountSyscall {
        count: std::rc::Rc::clone(&count),
    };
    let mut client = Client::new(ClientEndpoint::new(), syscall);
    let key = ObjectHandle { object_id: 1 };
    let mut fut = client.sign(Mechanism::P256, key, b"one").unwrap();
    assert_eq!(count.get(), 1);
    // A rejected submit must not notify the peer.
    assert!(client.sign(Mechanism::P256, key, b"two").is_err());
    let too_long = vec![0u8; MAX_MESSAGE_LENGTH + 1];
    assert!(client.sign(Mechanism::P256, key, &too_long).is_err());
    assert_eq!(count.get(), 1);
    // Polling does not notify either.
    client.take_request();
    client.deliver_reply(Ok(sign_reply(&[0x01]))).unwrap();
    assert!(matches!(fut.poll(&mut client), Poll::Ready(Ok(_))));
    assert_eq!(count.get(), 1);
    client.sign(Mechanism::P256, key, b"three").unwrap();
    assert_eq!(count.get(), 2);
}

#[test]
fn convenience_methods_build_the_documented_requests() {
    let mut client = new_client();
    client
        .generate_p256_private_key(StorageLocation::Internal)
        .unwrap();
    match client.take_request() {
        Some(Request::GenerateKey(q)) => {
            assert_eq!(q.mechanism, Mechanism::P256);
            assert_eq!(q.attributes.persistence, StorageLocation::Internal);
        }
        _ => panic!("generate_p256_private_key must queue a generate-key request"),
    }
    client.deliver_reply(Ok(Reply::GenerateKey(reply::GenerateKey {
        key: ObjectHandle { object_id: 7 },
    })))
    .unwrap();
    // Drain through a fresh typed handle path: submit was generate-key.
    let mut fut = {
        // Re-poll via a new exchange is not possible while pending; poll
        // the outstanding one through its own handle type.
        crypto_service::client::FutureResult::<reply::GenerateKey>::new(&mut client)
    };
    match fut.poll(&mut client) {
        Poll::Ready(Ok(r)) => assert_eq!(r.key.object_id, 7),
        _ => panic!("the generate-key reply must complete the exchange"),
    }

    let private = ObjectHandle { object_id: 11 };
    client
        .derive_ed25519_public_key(&private, StorageLocation::Volatile)
        .unwrap();
    match client.take_request() {
        Some(Request::DeriveKey(q)) => {
            assert_eq!(q.mechanism, Mechanism::Ed25519);
            assert_eq!(q.base_key, private);
            assert_eq!(q.attributes.persistence, StorageLocation::Volatile);
        }
        _ => panic!("derive_ed25519_public_key must queue a derive-key request"),
    }
}

#[test]
fn agree_p256_builds_agreement_request() {
    let mut client = new_client();
    let private = ObjectHandle { object_id: 1 };
    let public = ObjectHandle { object_id: 2 };
    let mut fut = client
        .agree_p256(&private, &public, StorageLocation::External)
        .unwrap();
    match client.take_request() {
        Some(Request::Agree(q)) => {
            assert_eq!(q.mechanism, Mechanism::P256);
            assert_eq!(q.private_key, private);
            assert_eq!(q.public_key, public);
            assert_eq!(q.attributes.persistence, StorageLocation::External);
        }
        _ => panic!("agree_p256 must queue an agreement request"),
    }
    client.deliver_reply(Ok(Reply::Agree(reply::Agree {
        shared_secret: ObjectHandle { object_id: 99 },
    })))
    .unwrap();
    match fut.poll(&mut client) {
        Poll::Ready(Ok(r)) => assert_eq!(r.shared_secret.object_id, 99),
        _ => panic!("the agreement reply must complete the exchange"),
    }
}

#[test]
fn verify_reply_carries_validity() {
    let mut client = new_client();
    let key = ObjectHandle { object_id: 5 };
    let mut fut = client.verify_ed25519(&key, b"msg", &[0x01, 0x02]).unwrap();
    match client.take_request() {
        Some(Request::Verify(q)) => {
            assert_eq!(q.mechanism, Mechanism::Ed25519);
            assert_eq!(q.message.as_slice(), b"msg");
            assert_eq!(q.signature.as_slice(), &[0x01, 0x02]);
        }
        _ => panic!("verify_ed25519 must queue a verification request"),
    }
    client
        .deliver_reply(Ok(Reply::Verify(reply::Verify { valid: false })))
        .unwrap();
    match fut.poll(&mut client) {
        Poll::Ready(Ok(r)) => assert!(!r.valid),
        _ => panic!("the verify reply must complete the exchange"),
    }
}

#[test]
fn encrypt_chacha8poly1305_roundtrip() {
    let mut client = new_client();
    let key = ObjectHandle { object_id: 8 };
    let mut fut = client
        .encrypt_chacha8poly1305(&key, b"secret", b"header")
        .unwrap();
    match client.take_request() {
        Some(Request::Encrypt(q)) => {
            assert_eq!(q.mechanism, Mechanism::Chacha8Poly1305);
            assert_eq!(q.message.as_slice(), b"secret");
            assert_eq!(q.associated_data.as_slice(), b"header");
        }
        _ => panic!("encrypt_chacha8poly1305 must queue an encrypt request"),
    }
    let ciphertext = crypto_service::types::Message::try_from_slice(b"sealed").unwrap();
    let nonce = crypto_service::types::ShortData::try_from_slice(b"nonce").unwrap();
    let tag = crypto_service::types::ShortData::try_from_slice(b"tag").unwrap();
    client
        .deliver_reply(Ok(Reply::Encrypt(reply::Encrypt { ciphertext, nonce, tag })))
        .unwrap();
    match fut.poll(&mut client) {
        Poll::Ready(Ok(r)) => {
            assert_eq!(r.ciphertext.as_slice(), b"sealed");
            assert_eq!(r.nonce.as_slice(), b"nonce");
            assert_eq!(r.tag.as_slice(), b"tag");
        }
        _ => panic!("the encrypt reply must complete the exchange"),
    }
}

#[test]
fn storage_attributes_default_to_volatile() {
    let a = StorageAttributes::new();
    assert_eq!(a.persistence, StorageLocation::Volatile);
    let b = a.set_persistence(StorageLocation::External);
    assert_eq!(b.persistence, StorageLocation::External);
}
