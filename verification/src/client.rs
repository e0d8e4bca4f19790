//! The request/reply client protocol: the raw client that enforces the
//! at-most-one-outstanding-request discipline, the poll handles that drain
//! and validate the one matching reply, and the high-level client that
//! offers one method per cryptographic operation.

pub use crate::pipe::ClientEndpoint;

use core::marker::PhantomData;
use vstd::prelude::*;
use crate::api::{request, reply, FromReply, Operation, Request, Reply, request_tag, reply_tag};
use crate::error::Error;
use crate::pipe::Syscall;
use crate::types::{
    Mechanism, Message, ObjectHandle, ShortData, Signature, StorageAttributes, StorageLocation,
    MAX_MESSAGE_LENGTH, MAX_SHORT_DATA_LENGTH, MAX_SIGNATURE_LENGTH,
};

verus! {

/// Client-local misuse and resource errors, detected synchronously at
/// submit time and never surfaced by the peer. All are recoverable: retry
/// later, drain the outstanding exchange, or shrink the input.
#[derive(Clone, Copy, Debug, PartialEq, Eq, Structural)]
pub enum ClientError {
    Full,
    Pending,
    DataTooLarge,
}

/// Abstract protocol state of a client: the pending-request tag plus the
/// contents of the two single-slot conduits.
pub struct ClientModel {
    /// Tag of the most recently submitted, not yet drained request.
    pub pending: Option<Operation>,
    /// Request queued for the peer service, not yet consumed by it.
    pub outbound: Option<Request>,
    /// Reply (or service error) queued by the peer, not yet polled.
    pub inbound: Option<Result<Reply, Error>>,
}

/// The error a submit on a client in state `m` is refused with, if any.
/// A stored pending tag blocks every further submit; a still-occupied
/// outbound conduit rejects the enqueue.
pub open spec fn request_err(m: ClientModel, req: Request) -> Option<ClientError> {
    if m.pending is Some {
        Some(ClientError::Pending)
    } else if m.outbound is Some {
        Some(ClientError::Full)
    } else {
        None
    }
}

/// State after a submit: on refusal nothing changes; on success the
/// request is queued and its tag recorded as pending.
pub open spec fn request_next(m: ClientModel, req: Request) -> ClientModel {
    if request_err(m, req) is Some {
        m
    } else {
        ClientModel {
            pending: Some(request_tag(req)),
            outbound: Some(req),
            inbound: m.inbound,
        }
    }
}

/// What a poll on a client in state `m` returns: not ready on an empty
/// inbound conduit; a service error as-is; a successful reply only if its
/// tag matches the pending one, and an internal error otherwise.
pub open spec fn poll_outcome(m: ClientModel) -> Poll<Result<Reply, Error>> {
    match m.inbound {
        None => Poll::Pending,
        Some(item) => Poll::Ready(
            match item {
                Err(e) => Err(e),
                Ok(reply) => if m.pending == Some(reply_tag(reply)) {
                    Ok(reply)
                } else {
                    Err(Error::InternalError)
                },
            },
        ),
    }
}

/// State after a poll: an empty inbound conduit leaves everything
/// untouched; consuming an item — success, service error, or detected
/// mismatch — clears the pending tag.
pub open spec fn poll_next(m: ClientModel) -> ClientModel {
    match m.inbound {
        None => m,
        Some(_) => ClientModel { pending: None, outbound: m.outbound, inbound: None },
    }
}

/// Result of a non-blocking poll: either the exchange completed, or the
/// caller must re-invoke later. No operation here ever blocks or retries
/// internally.
pub enum Poll<T> {
    Ready(T),
    Pending,
}

/// Owns the channel endpoint and the sole piece of protocol state, the
/// pending-request tag, and enforces the single-outstanding-request
/// discipline on the untyped submit primitive.
pub struct RawClient {
    ep: ClientEndpoint,
    pending: Option<Operation>,
}

impl View for RawClient {
    type V = ClientModel;

    closed spec fn view(&self) -> ClientModel {
        ClientModel { pending: self.pending, outbound: self.ep.send@, inbound: self.ep.recv@ }
    }
}

impl RawClient {
    /// A client over the given endpoint, with no request pending.
    pub fn new(ep: ClientEndpoint) -> (c: Self)
        ensures
            c@.pending is None,
            c@.outbound == ep.send@,
            c@.inbound == ep.recv@,
    {
        RawClient { ep, pending: None }
    }

    /// Untyped submit: refuses a second outstanding request with
    /// `Pending`, a rejected enqueue with `Full`; otherwise records the
    /// request's tag as pending, queues the request, and hands out the
    /// poll handle for the exchange.
    pub fn request(&mut self, req: Request) -> (r: Result<RawFutureResult, ClientError>)
        ensures
            final(self)@ == request_next(old(self)@, req),
            match r {
                Ok(_) => request_err(old(self)@, req) is None,
                Err(e) => request_err(old(self)@, req) == Some(e) && *final(self) == *old(self),
            },
    {
        if self.pending.is_some() {
            return Err(ClientError::Pending);
        }
        let tag = req.tag();
        match self.ep.send.enqueue(req) {
            Ok(_) => {
                self.pending = Some(tag);
                Ok(RawFutureResult::new(self))
            },
            Err(_rejected) => Err(ClientError::Full),
        }
    }

    /// Service-side access: consumes the queued request, as the peer
    /// service does. Platform glue and simulated peers stand here.
    pub fn take_request(&mut self) -> (r: Option<Request>)
        ensures
            r == old(self)@.outbound,
            final(self)@ == (ClientModel { outbound: None, ..old(self)@ }),
    {
        self.ep.send.dequeue()
    }

    /// Service-side access: queues a reply or a service error, as the peer
    /// does; on a still-occupied inbound conduit the item comes back.
    pub fn deliver_reply(&mut self, item: Result<Reply, Error>) -> (r: Result<
        (),
        Result<Reply, Error>,
    >)
        ensures
            match r {
                Ok(_) => old(self)@.inbound is None && final(self)@ == (ClientModel {
                    inbound: Some(item),
                    ..old(self)@
                }),
                Err(returned) => old(self)@.inbound is Some && *final(self) == *old(self)
                    && returned == item,
            },
    {
        self.ep.recv.enqueue(item)
    }
}

/// Poll handle bound to one in-flight exchange on a raw client: polls the
/// inbound conduit and validates that the arriving reply matches the tag
/// of the request that was sent.
pub struct RawFutureResult {}

impl RawFutureResult {
    /// A handle for the exchange currently in flight on `client`.
    pub fn new(client: &mut RawClient) -> (f: Self)
        ensures
            *final(client) == *old(client),
    {
        let _ = client;
        RawFutureResult {  }
    }

    /// Non-blocking retrieval of the one reply that answers the most
    /// recent submit: not ready on an empty inbound conduit (no state is
    /// mutated); otherwise the item is consumed, the pending tag is
    /// cleared, and a successful reply is handed out only if its tag
    /// matches the pending one — a mismatch is a transport-correctness
    /// violation reported as an internal error, never a success.
    pub fn poll(&mut self, client: &mut RawClient) -> (r: Poll<Result<Reply, Error>>)
        ensures
            final(client)@ == poll_next(old(client)@),
            r == poll_outcome(old(client)@),
            old(client)@.inbound is None ==> *final(client) == *old(client),
    {
        match client.ep.recv.dequeue() {
            None => Poll::Pending,
            Some(item) => match item {
                Err(error) => {
                    client.pending = None;
                    Poll::Ready(Err(error))
                },
                Ok(reply) => {
                    let tag = reply.tag();
                    let matches_pending = match client.pending {
                        Some(pending) => pending == tag,
                        None => false,
                    };
                    client.pending = None;
                    if matches_pending {
                        Poll::Ready(Ok(reply))
                    } else {
                        Poll::Ready(Err(Error::InternalError))
                    }
                },
            },
        }
    }
}

/// Allows `request.submit(&mut client)` in place of
/// `client.request(request)`.
pub trait SubmitRequest: Sized {
    /// The request this value submits as.
    spec fn as_request(self) -> Request;

    /// Submits this request on the client, with the same outcome as
    /// [`RawClient::request`].
    fn submit(self, client: &mut RawClient) -> (r: Result<RawFutureResult, ClientError>)
        ensures
            final(client)@ == request_next(old(client)@, self.as_request()),
            match r {
                Ok(_) => request_err(old(client)@, self.as_request()) is None,
                Err(e) => request_err(old(client)@, self.as_request()) == Some(e) && *final(client)
                    == *old(client),
            },
    ;
}

impl SubmitRequest for request::GenerateKey {
    open spec fn as_request(self) -> Request {
        Request::GenerateKey(self)
    }

    fn submit(self, client: &mut RawClient) -> (r: Result<RawFutureResult, ClientError>) {
        client.request(Request::GenerateKey(self))
    }
}

impl SubmitRequest for request::Sign {
    open spec fn as_request(self) -> Request {
        Request::Sign(self)
    }

    fn submit(self, client: &mut RawClient) -> (r: Result<RawFutureResult, ClientError>) {
        client.request(Request::Sign(self))
    }
}

impl SubmitRequest for request::Verify {
    open spec fn as_request(self) -> Request {
        Request::Verify(self)
    }

    fn submit(self, client: &mut RawClient) -> (r: Result<RawFutureResult, ClientError>) {
        client.request(Request::Verify(self))
    }
}

/// Poll handle that narrows the generic reply into the specific reply
/// variant expected by the call that created it, so callers never see the
/// tagged union. A typed future is only ever created immediately after a
/// matching typed request was submitted, which is what its `requires`
/// records.
pub struct FutureResult<T> {
    raw: RawFutureResult,
    _marker: PhantomData<T>,
}

impl<T: FromReply> FutureResult<T> {
    /// A typed handle for the exchange currently in flight on `client`.
    pub fn new<S: Syscall>(client: &mut Client<S>) -> (f: Self)
        ensures
            *final(client) == *old(client),
    {
        FutureResult { raw: RawFutureResult::new(&mut client.raw), _marker: PhantomData }
    }

    /// Delegates to the raw poll and, on a ready success, narrows the
    /// generic reply to this handle's reply type; errors and "not ready"
    /// pass through unchanged.
    pub fn poll<S: Syscall>(&mut self, client: &mut Client<S>) -> (r: Poll<Result<T, Error>>)
        requires
            old(client).model().pending == Some(T::expected_tag()) || old(
                client,
            ).model().pending is None,
        ensures
            final(client).model() == poll_next(old(client).model()),
            final(client).syscalls() == old(client).syscalls(),
            old(client).model().inbound is None ==> *final(client) == *old(client),
            match poll_outcome(old(client).model()) {
                Poll::Pending => r is Pending,
                Poll::Ready(Err(e)) => r == Poll::Ready(Err::<T, Error>(e)),
                Poll::Ready(Ok(reply)) => r matches Poll::Ready(Ok(t)) && t.as_reply() == reply,
            },
    {
        match self.raw.poll(&mut client.raw) {
            Poll::Pending => Poll::Pending,
            Poll::Ready(res) => match res {
                Ok(rep) => Poll::Ready(Ok(T::from_reply(rep))),
                Err(error) => Poll::Ready(Err(error)),
            },
        }
    }
}

/// Whether a submit was refused with `e`: an oversized payload is rejected
/// before anything else, a stored pending tag blocks the submit, and a
/// still-occupied outbound conduit rejects the enqueue.
pub open spec fn submit_rejected(pre: ClientModel, e: ClientError, oversized: bool) -> bool {
    match e {
        ClientError::DataTooLarge => oversized,
        ClientError::Pending => !oversized && pre.pending is Some,
        ClientError::Full => !oversized && pre.pending is None && pre.outbound is Some,
    }
}

/// A key-agreement request was accepted: the client was idle, and now
/// holds exactly that request with its tag pending.
pub open spec fn agree_submitted(
    pre: ClientModel,
    post: ClientModel,
    mechanism: Mechanism,
    private_key: ObjectHandle,
    public_key: ObjectHandle,
    attributes: StorageAttributes,
) -> bool {
    &&& pre.pending is None
    &&& pre.outbound is None
    &&& post.pending == Some(Operation::Agree)
    &&& post.inbound == pre.inbound
    &&& post.outbound matches Some(Request::Agree(q)) && q.mechanism == mechanism && q.private_key
        == private_key && q.public_key == public_key && q.attributes == attributes
}

/// A key-derivation request was accepted.
pub open spec fn derive_key_submitted(
    pre: ClientModel,
    post: ClientModel,
    mechanism: Mechanism,
    base_key: ObjectHandle,
    attributes: StorageAttributes,
) -> bool {
    &&& pre.pending is None
    &&& pre.outbound is None
    &&& post.pending == Some(Operation::DeriveKey)
    &&& post.inbound == pre.inbound
    &&& post.outbound matches Some(Request::DeriveKey(q)) && q.mechanism == mechanism && q.base_key
        == base_key && q.attributes == attributes
}

/// An encryption request was accepted, with the payloads carried intact.
pub open spec fn encrypt_submitted(
    pre: ClientModel,
    post: ClientModel,
    mechanism: Mechanism,
    key: ObjectHandle,
    message: Seq<u8>,
    associated_data: Seq<u8>,
) -> bool {
    &&& pre.pending is None
    &&& pre.outbound is None
    &&& message.len() <= MAX_MESSAGE_LENGTH
    &&& associated_data.len() <= MAX_SHORT_DATA_LENGTH
    &&& post.pending == Some(Operation::Encrypt)
    &&& post.inbound == pre.inbound
    &&& post.outbound matches Some(Request::Encrypt(q)) && q.mechanism == mechanism && q.key == key
        && q.message@ == message && q.associated_data@ == associated_data
}

/// A decryption request was accepted, with the payloads carried intact.
pub open spec fn decrypt_submitted(
    pre: ClientModel,
    post: ClientModel,
    mechanism: Mechanism,
    key: ObjectHandle,
    message: Seq<u8>,
    associated_data: Seq<u8>,
    nonce: Seq<u8>,
    tag: Seq<u8>,
) -> bool {
    &&& pre.pending is None
    &&& pre.outbound is None
    &&& message.len() <= MAX_MESSAGE_LENGTH
    &&& associated_data.len() <= MAX_SHORT_DATA_LENGTH
    &&& nonce.len() <= MAX_SHORT_DATA_LENGTH
    &&& tag.len() <= MAX_SHORT_DATA_LENGTH
    &&& post.pending == Some(Operation::Decrypt)
    &&& post.inbound == pre.inbound
    &&& post.outbound matches Some(Request::Decrypt(q)) && q.mechanism == mechanism && q.key == key
        && q.message@ == message && q.associated_data@ == associated_data && q.nonce@ == nonce
        && q.tag@ == tag
}

/// A key-generation request was accepted.
pub open spec fn generate_key_submitted(
    pre: ClientModel,
    post: ClientModel,
    mechanism: Mechanism,
    attributes: StorageAttributes,
) -> bool {
    &&& pre.pending is None
    &&& pre.outbound is None
    &&& post.pending == Some(Operation::GenerateKey)
    &&& post.inbound == pre.inbound
    &&& post.outbound matches Some(Request::GenerateKey(q)) && q.mechanism == mechanism
        && q.attributes == attributes
}

/// A signing request was accepted, with the message carried intact.
pub open spec fn sign_submitted(
    pre: ClientModel,
    post: ClientModel,
    mechanism: Mechanism,
    key: ObjectHandle,
    data: Seq<u8>,
) -> bool {
    &&& pre.pending is None
    &&& pre.outbound is None
    &&& data.len() <= MAX_MESSAGE_LENGTH
    &&& post.pending == Some(Operation::Sign)
    &&& post.inbound == pre.inbound
    &&& post.outbound matches Some(Request::Sign(q)) && q.mechanism == mechanism && q.key == key
        && q.message@ == data
}

/// A verification request was accepted, with message and signature
/// carried intact.
pub open spec fn verify_submitted(
    pre: ClientModel,
    post: ClientModel,
    mechanism: Mechanism,
    key: ObjectHandle,
    message: Seq<u8>,
    signature: Seq<u8>,
) -> bool {
    &&& pre.pending is None
    &&& pre.outbound is None
    &&& message.len() <= MAX_MESSAGE_LENGTH
    &&& signature.len() <= MAX_SIGNATURE_LENGTH
    &&& post.pending == Some(Operation::Verify)
    &&& post.inbound == pre.inbound
    &&& post.outbound matches Some(Request::Verify(q)) && q.mechanism == mechanism && q.key == key
        && q.message@ == message && q.signature@ == signature
}

/// Convenience surface over the raw client: one method per cryptographic
/// operation plus mechanism-specialized shorthands. Each method validates
/// its byte-slice arguments into bounded buffers, submits the request, and
/// — only on a successful submit — invokes the peer notification primitive
/// exactly once, counted by `syscalls`.
pub struct Client<S: Syscall> {
    raw: RawClient,
    syscall: S,
    notifications: Ghost<nat>,
}

impl<S: Syscall> Client<S> {
    /// Abstract protocol state of this client.
    pub closed spec fn model(&self) -> ClientModel {
        self.raw@
    }

    /// How often the peer notification primitive has been invoked.
    pub closed spec fn syscalls(&self) -> nat {
        self.notifications@
    }

    /// A client over the given endpoint, with no request pending and no
    /// notification sent yet.
    pub fn new(ep: ClientEndpoint, syscall: S) -> (c: Self)
        ensures
            c.model().pending is None,
            c.model().outbound == ep.send@,
            c.model().inbound == ep.recv@,
            c.syscalls() == 0,
    {
        Client { raw: RawClient::new(ep), syscall, notifications: Ghost(0) }
    }

    /// Service-side access: consumes the queued request, as the peer
    /// service does.
    pub fn take_request(&mut self) -> (r: Option<Request>)
        ensures
            r == old(self).model().outbound,
            final(self).model() == (ClientModel { outbound: None, ..old(self).model() }),
            final(self).syscalls() == old(self).syscalls(),
    {
        self.raw.take_request()
    }

    /// Service-side access: queues a reply or a service error, as the
    /// peer does; on a still-occupied inbound conduit the item comes back.
    pub fn deliver_reply(&mut self, item: Result<Reply, Error>) -> (r: Result<
        (),
        Result<Reply, Error>,
    >)
        ensures
            final(self).syscalls() == old(self).syscalls(),
            match r {
                Ok(_) => old(self).model().inbound is None && final(self).model() == (ClientModel {
                    inbound: Some(item),
                    ..old(self).model()
                }),
                Err(returned) => old(self).model().inbound is Some && *final(self) == *old(self)
                    && returned == item,
            },
    {
        self.raw.deliver_reply(item)
    }

    /// Submits a key-agreement operation.
    pub fn agree(
        &mut self,
        mechanism: Mechanism,
        private_key: ObjectHandle,
        public_key: ObjectHandle,
        attributes: StorageAttributes,
    ) -> (r: Result<FutureResult<reply::Agree>, ClientError>)
        ensures
            match r {
                Ok(_) => agree_submitted(
                    old(self).model(),
                    final(self).model(),
                    mechanism,
                    private_key,
                    public_key,
                    attributes,
                ) && final(self).syscalls() == old(self).syscalls() + 1,
                Err(e) => *final(self) == *old(self) && submit_rejected(
                    old(self).model(),
                    e,
                    false,
                ),
            },
    {
        match self.raw.request(
            Request::Agree(request::Agree { mechanism, private_key, public_key, attributes }),
        ) {
            Ok(_f) => {
                self.syscall.syscall();
                self.notifications = Ghost(self.notifications@ + 1);
                Ok(FutureResult::new(self))
            },
            Err(e) => Err(e),
        }
    }

    /// Key agreement over the P-256 curve.
    pub fn agree_p256(
        &mut self,
        private_key: &ObjectHandle,
        public_key: &ObjectHandle,
        persistence: StorageLocation,
    ) -> (r: Result<FutureResult<reply::Agree>, ClientError>)
        ensures
            match r {
                Ok(_) => agree_submitted(
                    old(self).model(),
                    final(self).model(),
                    Mechanism::P256,
                    *private_key,
                    *public_key,
                    (StorageAttributes { persistence }),
                ) && final(self).syscalls() == old(self).syscalls() + 1,
                Err(e) => *final(self) == *old(self) && submit_rejected(
                    old(self).model(),
                    e,
                    false,
                ),
            },
    {
        self.agree(
            Mechanism::P256,
            private_key.clone(),
            public_key.clone(),
            StorageAttributes::new().set_persistence(persistence),
        )
    }

    /// Submits a key-derivation operation.
    pub fn derive_key(
        &mut self,
        mechanism: Mechanism,
        base_key: ObjectHandle,
        attributes: StorageAttributes,
    ) -> (r: Result<FutureResult<reply::DeriveKey>, ClientError>)
        ensures
            match r {
                Ok(_) => derive_key_submitted(
                    old(self).model(),
                    final(self).model(),
                    mechanism,
                    base_key,
                    attributes,
                ) && final(self).syscalls() == old(self).syscalls() + 1,
                Err(e) => *final(self) == *old(self) && submit_rejected(
                    old(self).model(),
                    e,
                    false,
                ),
            },
    {
        match self.raw.request(
            Request::DeriveKey(request::DeriveKey { mechanism, base_key, attributes }),
        ) {
            Ok(_f) => {
                self.syscall.syscall();
                self.notifications = Ghost(self.notifications@ + 1);
                Ok(FutureResult::new(self))
            },
            Err(e) => Err(e),
        }
    }

    /// Submits an encryption operation; oversized payloads are rejected
    /// with `DataTooLarge` before anything is enqueued.
    pub fn encrypt(
        &mut self,
        mechanism: Mechanism,
        key: ObjectHandle,
        message: &[u8],
        associated_data: &[u8],
    ) -> (r: Result<FutureResult<reply::Encrypt>, ClientError>)
        ensures
            match r {
                Ok(_) => encrypt_submitted(
                    old(self).model(),
                    final(self).model(),
                    mechanism,
                    key,
                    message@,
                    associated_data@,
                ) && final(self).syscalls() == old(self).syscalls() + 1,
                Err(e) => *final(self) == *old(self) && submit_rejected(
                    old(self).model(),
                    e,
                    message@.len() > MAX_MESSAGE_LENGTH || associated_data@.len()
                        > MAX_SHORT_DATA_LENGTH,
                ),
            },
    {
        let message = match Message::try_from_slice(message) {
            Ok(m) => m,
            Err(_) => { return Err(ClientError::DataTooLarge) },
        };
        let associated_data = match ShortData::try_from_slice(associated_data) {
            Ok(a) => a,
            Err(_) => { return Err(ClientError::DataTooLarge) },
        };
        match self.raw.request(
            Request::Encrypt(request::Encrypt { mechanism, key, message, associated_data }),
        ) {
            Ok(_f) => {
                self.syscall.syscall();
                self.notifications = Ghost(self.notifications@ + 1);
                Ok(FutureResult::new(self))
            },
            Err(e) => Err(e),
        }
    }

    /// Submits a decryption operation; oversized payloads are rejected
    /// with `DataTooLarge` before anything is enqueued.
    pub fn decrypt(
        &mut self,
        mechanism: Mechanism,
        key: ObjectHandle,
        message: &[u8],
        associated_data: &[u8],
        nonce: &[u8],
        tag: &[u8],
    ) -> (r: Result<FutureResult<reply::Decrypt>, ClientError>)
        ensures
            match r {
                Ok(_) => decrypt_submitted(
                    old(self).model(),
                    final(self).model(),
                    mechanism,
                    key,
                    message@,
                    associated_data@,
                    nonce@,
                    tag@,
                ) && final(self).syscalls() == old(self).syscalls() + 1,
                Err(e) => *final(self) == *old(self) && submit_rejected(
                    old(self).model(),
                    e,
                    message@.len() > MAX_MESSAGE_LENGTH || associated_data@.len()
                        > MAX_SHORT_DATA_LENGTH || nonce@.len() > MAX_SHORT_DATA_LENGTH
                        || tag@.len() > MAX_SHORT_DATA_LENGTH,
                ),
            },
    {
        let message = match Message::try_from_slice(message) {
            Ok(m) => m,
            Err(_) => { return Err(ClientError::DataTooLarge) },
        };
        let associated_data = match ShortData::try_from_slice(associated_data) {
            Ok(a) => a,
            Err(_) => { return Err(ClientError::DataTooLarge) },
        };
        let nonce = match ShortData::try_from_slice(nonce) {
            Ok(n) => n,
            Err(_) => { return Err(ClientError::DataTooLarge) },
        };
        let tag = match ShortData::try_from_slice(tag) {
            Ok(t) => t,
            Err(_) => { return Err(ClientError::DataTooLarge) },
        };
        match self.raw.request(
            Request::Decrypt(
                request::Decrypt { mechanism, key, message, associated_data, nonce, tag },
            ),
        ) {
            Ok(_f) => {
                self.syscall.syscall();
                self.notifications = Ghost(self.notifications@ + 1);
                Ok(FutureResult::new(self))
            },
            Err(e) => Err(e),
        }
    }

    /// Submits a key-generation operation.
    pub fn generate_key(&mut self, mechanism: Mechanism, attributes: StorageAttributes) -> (r:
        Result<FutureResult<reply::GenerateKey>, ClientError>)
        ensures
            match r {
                Ok(_) => generate_key_submitted(
                    old(self).model(),
                    final(self).model(),
                    mechanism,
                    attributes,
                ) && final(self).syscalls() == old(self).syscalls() + 1,
                Err(e) => *final(self) == *old(self) && submit_rejected(
                    old(self).model(),
                    e,
                    false,
                ),
            },
    {
        match self.raw.request(Request::GenerateKey(request::GenerateKey { mechanism, attributes })) {
            Ok(_f) => {
                self.syscall.syscall();
                self.notifications = Ghost(self.notifications@ + 1);
                Ok(FutureResult::new(self))
            },
            Err(e) => Err(e),
        }
    }

    /// Submits a signing operation; an oversized message is rejected with
    /// `DataTooLarge` before anything is enqueued.
    pub fn sign(&mut self, mechanism: Mechanism, key: ObjectHandle, data: &[u8]) -> (r: Result<
        FutureResult<reply::Sign>,
        ClientError,
    >)
        ensures
            match r {
                Ok(_) => sign_submitted(
                    old(self).model(),
                    final(self).model(),
                    mechanism,
                    key,
                    data@,
                ) && final(self).syscalls() == old(self).syscalls() + 1,
                Err(e) => *final(self) == *old(self) && submit_rejected(
                    old(self).model(),
                    e,
                    data@.len() > MAX_MESSAGE_LENGTH,
                ),
            },
    {
        let message = match Message::try_from_slice(data) {
            Ok(m) => m,
            Err(_) => { return Err(ClientError::DataTooLarge) },
        };
        match self.raw.request(Request::Sign(request::Sign { mechanism, key, message })) {
            Ok(_f) => {
                self.syscall.syscall();
                self.notifications = Ghost(self.notifications@ + 1);
                Ok(FutureResult::new(self))
            },
            Err(e) => Err(e),
        }
    }

    /// Submits a verification operation; an oversized message or
    /// signature is rejected with `DataTooLarge` before anything is
    /// enqueued.
    pub fn verify(
        &mut self,
        mechanism: Mechanism,
        key: ObjectHandle,
        message: &[u8],
        signature: &[u8],
    ) -> (r: Result<FutureResult<reply::Verify>, ClientError>)
        ensures
            match r {
                Ok(_) => verify_submitted(
                    old(self).model(),
                    final(self).model(),
                    mechanism,
                    key,
                    message@,
                    signature@,
                ) && final(self).syscalls() == old(self).syscalls() + 1,
                Err(e) => *final(self) == *old(self) && submit_rejected(
                    old(self).model(),
                    e,
                    message@.len() > MAX_MESSAGE_LENGTH || signature@.len()
                        > MAX_SIGNATURE_LENGTH,
                ),
            },
    {
        let message = match Message::try_from_slice(message) {
            Ok(m) => m,
            Err(_) => { return Err(ClientError::DataTooLarge) },
        };
        let signature = match Signature::try_from_slice(signature) {
            Ok(s) => s,
            Err(_) => { return Err(ClientError::DataTooLarge) },
        };
        match self.raw.request(
            Request::Verify(request::Verify { mechanism, key, message, signature }),
        ) {
            Ok(_f) => {
                self.syscall.syscall();
                self.notifications = Ghost(self.notifications@ + 1);
                Ok(FutureResult::new(self))
            },
            Err(e) => Err(e),
        }
    }

    /// Authenticated decryption with ChaCha8-Poly1305.
    pub fn decrypt_chacha8poly1305(
        &mut self,
        key: &ObjectHandle,
        message: &[u8],
        associated_data: &[u8],
        nonce: &[u8],
        tag: &[u8],
    ) -> (r: Result<FutureResult<reply::Decrypt>, ClientError>)
        ensures
            match r {
                Ok(_) => decrypt_submitted(
                    old(self).model(),
                    final(self).model(),
                    Mechanism::Chacha8Poly1305,
                    *key,
                    message@,
                    associated_data@,
                    nonce@,
                    tag@,
                ) && final(self).syscalls() == old(self).syscalls() + 1,
                Err(e) => *final(self) == *old(self) && submit_rejected(
                    old(self).model(),
                    e,
                    message@.len() > MAX_MESSAGE_LENGTH || associated_data@.len()
                        > MAX_SHORT_DATA_LENGTH || nonce@.len() > MAX_SHORT_DATA_LENGTH
                        || tag@.len() > MAX_SHORT_DATA_LENGTH,
                ),
            },
    {
        self.decrypt(
            Mechanism::Chacha8Poly1305,
            key.clone(),
            message,
            associated_data,
            nonce,
            tag,
        )
    }

    /// Authenticated encryption with ChaCha8-Poly1305.
    pub fn encrypt_chacha8poly1305(
        &mut self,
        key: &ObjectHandle,
        message: &[u8],
        associated_data: &[u8],
    ) -> (r: Result<FutureResult<reply::Encrypt>, ClientError>)
        ensures
            match r {
                Ok(_) => encrypt_submitted(
                    old(self).model(),
                    final(self).model(),
                    Mechanism::Chacha8Poly1305,
                    *key,
                    message@,
                    associated_data@,
                ) && final(self).syscalls() == old(self).syscalls() + 1,
                Err(e) => *final(self) == *old(self) && submit_rejected(
                    old(self).model(),
                    e,
                    message@.len() > MAX_MESSAGE_LENGTH || associated_data@.len()
                        > MAX_SHORT_DATA_LENGTH,
                ),
            },
    {
        self.encrypt(Mechanism::Chacha8Poly1305, key.clone(), message, associated_data)
    }

    /// Generates a ChaCha8-Poly1305 key.
    pub fn generate_chacha8poly1305_key(&mut self, persistence: StorageLocation) -> (r: Result<
        FutureResult<reply::GenerateKey>,
        ClientError,
    >)
        ensures
            match r {
                Ok(_) => generate_key_submitted(
                    old(self).model(),
                    final(self).model(),
                    Mechanism::Chacha8Poly1305,
                    (StorageAttributes { persistence }),
                ) && final(self).syscalls() == old(self).syscalls() + 1,
                Err(e) => *final(self) == *old(self) && submit_rejected(
                    old(self).model(),
                    e,
                    false,
                ),
            },
    {
        self.generate_key(
            Mechanism::Chacha8Poly1305,
            StorageAttributes::new().set_persistence(persistence),
        )
    }

    /// Generates an Ed25519 private key.
    pub fn generate_ed25519_private_key(&mut self, persistence: StorageLocation) -> (r: Result<
        FutureResult<reply::GenerateKey>,
        ClientError,
    >)
        ensures
            match r {
                Ok(_) => generate_key_submitted(
                    old(self).model(),
                    final(self).model(),
                    Mechanism::Ed25519,
                    (StorageAttributes { persistence }),
                ) && final(self).syscalls() == old(self).syscalls() + 1,
                Err(e) => *final(self) == *old(self) && submit_rejected(
                    old(self).model(),
                    e,
                    false,
                ),
            },
    {
        self.generate_key(Mechanism::Ed25519, StorageAttributes::new().set_persistence(persistence))
    }

    /// Generates an HMAC-SHA256 key.
    pub fn generate_hmacsha256_key(&mut self, persistence: StorageLocation) -> (r: Result<
        FutureResult<reply::GenerateKey>,
        ClientError,
    >)
        ensures
            match r {
                Ok(_) => generate_key_submitted(
                    old(self).model(),
                    final(self).model(),
                    Mechanism::HmacSha256,
                    (StorageAttributes { persistence }),
                ) && final(self).syscalls() == old(self).syscalls() + 1,
                Err(e) => *final(self) == *old(self) && submit_rejected(
                    old(self).model(),
                    e,
                    false,
                ),
            },
    {
        self.generate_key(
            Mechanism::HmacSha256,
            StorageAttributes::new().set_persistence(persistence),
        )
    }

    /// Derives the Ed25519 public key of a private key.
    pub fn derive_ed25519_public_key(
        &mut self,
        private_key: &ObjectHandle,
        persistence: StorageLocation,
    ) -> (r: Result<FutureResult<reply::DeriveKey>, ClientError>)
        ensures
            match r {
                Ok(_) => derive_key_submitted(
                    old(self).model(),
                    final(self).model(),
                    Mechanism::Ed25519,
                    *private_key,
                    (StorageAttributes { persistence }),
                ) && final(self).syscalls() == old(self).syscalls() + 1,
                Err(e) => *final(self) == *old(self) && submit_rejected(
                    old(self).model(),
                    e,
                    false,
                ),
            },
    {
        self.derive_key(
            Mechanism::Ed25519,
            private_key.clone(),
            StorageAttributes::new().set_persistence(persistence),
        )
    }

    /// Generates a P-256 private key.
    pub fn generate_p256_private_key(&mut self, persistence: StorageLocation) -> (r: Result<
        FutureResult<reply::GenerateKey>,
        ClientError,
    >)
        ensures
            match r {
                Ok(_) => generate_key_submitted(
                    old(self).model(),
                    final(self).model(),
                    Mechanism::P256,
                    (StorageAttributes { persistence }),
                ) && final(self).syscalls() == old(self).syscalls() + 1,
                Err(e) => *final(self) == *old(self) && submit_rejected(
                    old(self).model(),
                    e,
                    false,
                ),
            },
    {
        self.generate_key(Mechanism::P256, StorageAttributes::new().set_persistence(persistence))
    }

    /// Derives the P-256 public key of a private key.
    pub fn derive_p256_public_key(
        &mut self,
        private_key: &ObjectHandle,
        persistence: StorageLocation,
    ) -> (r: Result<FutureResult<reply::DeriveKey>, ClientError>)
        ensures
            match r {
                Ok(_) => derive_key_submitted(
                    old(self).model(),
                    final(self).model(),
                    Mechanism::P256,
                    *private_key,
                    (StorageAttributes { persistence }),
                ) && final(self).syscalls() == old(self).syscalls() + 1,
                Err(e) => *final(self) == *old(self) && submit_rejected(
                    old(self).model(),
                    e,
                    false,
                ),
            },
    {
        self.derive_key(
            Mechanism::P256,
            private_key.clone(),
            StorageAttributes::new().set_persistence(persistence),
        )
    }

    /// Signs with Ed25519.
    pub fn sign_ed25519(&mut self, key: &ObjectHandle, message: &[u8]) -> (r: Result<
        FutureResult<reply::Sign>,
        ClientError,
    >)
        ensures
            match r {
                Ok(_) => sign_submitted(
                    old(self).model(),
                    final(self).model(),
                    Mechanism::Ed25519,
                    *key,
                    message@,
                ) && final(self).syscalls() == old(self).syscalls() + 1,
                Err(e) => *final(self) == *old(self) && submit_rejected(
                    old(self).model(),
                    e,
                    message@.len() > MAX_MESSAGE_LENGTH,
                ),
            },
    {
        self.sign(Mechanism::Ed25519, key.clone(), message)
    }

    /// Signs with HMAC-SHA256.
    pub fn sign_hmacsha256(&mut self, key: &ObjectHandle, message: &[u8]) -> (r: Result<
        FutureResult<reply::Sign>,
        ClientError,
    >)
        ensures
            match r {
                Ok(_) => sign_submitted(
                    old(self).model(),
                    final(self).model(),
                    Mechanism::HmacSha256,
                    *key,
                    message@,
                ) && final(self).syscalls() == old(self).syscalls() + 1,
                Err(e) => *final(self) == *old(self) && submit_rejected(
                    old(self).model(),
                    e,
                    message@.len() > MAX_MESSAGE_LENGTH,
                ),
            },
    {
        self.sign(Mechanism::HmacSha256, key.clone(), message)
    }

    /// Signs with ECDSA over P-256.
    pub fn sign_p256(&mut self, key: &ObjectHandle, message: &[u8]) -> (r: Result<
        FutureResult<reply::Sign>,
        ClientError,
    >)
        ensures
            match r {
                Ok(_) => sign_submitted(
                    old(self).model(),
                    final(self).model(),
                    Mechanism::P256,
                    *key,
                    message@,
                ) && final(self).syscalls() == old(self).syscalls() + 1,
                Err(e) => *final(self) == *old(self) && submit_rejected(
                    old(self).model(),
                    e,
                    message@.len() > MAX_MESSAGE_LENGTH,
                ),
            },
    {
        self.sign(Mechanism::P256, key.clone(), message)
    }

    /// Verifies an Ed25519 signature.
    pub fn verify_ed25519(&mut self, key: &ObjectHandle, message: &[u8], signature: &[u8]) -> (r:
        Result<FutureResult<reply::Verify>, ClientError>)
        ensures
            match r {
                Ok(_) => verify_submitted(
                    old(self).model(),
                    final(self).model(),
                    Mechanism::Ed25519,
                    *key,
                    message@,
                    signature@,
                ) && final(self).syscalls() == old(self).syscalls() + 1,
                Err(e) => *final(self) == *old(self) && submit_rejected(
                    old(self).model(),
                    e,
                    message@.len() > MAX_MESSAGE_LENGTH || signature@.len()
                        > MAX_SIGNATURE_LENGTH,
                ),
            },
    {
        self.verify(Mechanism::Ed25519, key.clone(), message, signature)
    }

    /// Verifies an ECDSA P-256 signature.
    pub fn verify_p256(&mut self, key: &ObjectHandle, message: &[u8], signature: &[u8]) -> (r:
        Result<FutureResult<reply::Verify>, ClientError>)
        ensures
            match r {
                Ok(_) => verify_submitted(
                    old(self).model(),
                    final(self).model(),
                    Mechanism::P256,
                    *key,
                    message@,
                    signature@,
                ) && final(self).syscalls() == old(self).syscalls() + 1,
                Err(e) => *final(self) == *old(self) && submit_rejected(
                    old(self).model(),
                    e,
                    message@.len() > MAX_MESSAGE_LENGTH || signature@.len()
                        > MAX_SIGNATURE_LENGTH,
                ),
            },
    {
        self.verify(Mechanism::P256, key.clone(), message, signature)
    }
}

/// At most one outstanding request: after a submit is accepted, every
/// further submit on the same client is refused with `Pending` until the
/// exchange has been drained.
pub proof fn lemma_single_outstanding(m: ClientModel, first: Request, second: Request)
    requires
        request_err(m, first) is None,
    ensures
        request_err(request_next(m, first), second) == Some(ClientError::Pending),
{
}

/// Tag integrity: a poll that hands out a successful reply hands out one
/// whose tag matches the most recently submitted request, and a reply of
/// any other tag is reported as an internal error, never as a success.
pub proof fn lemma_tag_integrity(m: ClientModel)
    ensures
        poll_outcome(m) matches Poll::Ready(Ok(reply)) ==> m.pending == Some(reply_tag(reply)),
        (m.inbound matches Some(Ok(reply)) && m.pending != Some(reply_tag(reply)))
            ==> poll_outcome(m) == Poll::<Result<Reply, Error>>::Ready(Err(Error::InternalError)),
{
}

/// Non-blocking poll: on an empty inbound conduit a poll reports "not
/// ready" and leaves the whole client state unchanged, repeatably.
pub proof fn lemma_poll_nonblocking(m: ClientModel)
    requires
        m.inbound is None,
    ensures
        poll_outcome(m) is Pending,
        poll_next(m) == m,
{
}

/// Drain releases the slot: consuming any queued item — success, service
/// error, or detected mismatch — clears the pending tag, and a client
/// whose outbound conduit the service has emptied accepts a new request.
pub proof fn lemma_drain_releases(m: ClientModel, next_request: Request)
    requires
        m.inbound is Some,
        m.outbound is None,
    ensures
        poll_next(m).pending is None,
        request_err(poll_next(m), next_request) is None,
{
}

} // verus!
