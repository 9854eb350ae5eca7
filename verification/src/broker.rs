//! The rendezvous between a caller that waits and the consent step that
//! answers it later. There is one slot for each kind of request, and a slot
//! holds at most one request: a request of a kind is `Idle` before it is
//! submitted, `Pending` while it is in the slot, and then either `Fulfilled`,
//! when the consent step completes it, or `Superseded`, when another request
//! of the kind takes its place.
//!
//! A slot does not know how a waiter is reached. A request comes with the
//! sending half of a one-shot channel, of any type; the slot keeps it with the
//! request, and hands both back with the outcome when the request is
//! completed, or without one when it is superseded. Whoever gets a delivery
//! sends its outcome on its channel; whoever gets a superseded request drops
//! it, which closes its channel unresolved.

use vstd::prelude::*;
use crate::auth::{authenticate, spec_authenticate};
use crate::error::{BrokerError, Failure};
use crate::timestamp::Instant;

verus! {

/// A request that waits for the consent step, with the way to its waiter.
pub struct PendingRequest<D, C> {
    /// What is needed to carry the request out later.
    pub data: D,
    /// Where the one outcome of the request is to be sent.
    pub channel: C,
}

/// An outcome on its way to the waiter of the request that was completed.
pub struct Delivery<D, C, R> {
    /// The data of the request that was completed.
    pub data: D,
    /// The channel of that request.
    pub channel: C,
    /// What the waiter is to receive.
    pub outcome: R,
}

/// What can happen to a slot.
pub enum SlotEvent<D, C, R> {
    /// A request arrives.
    Submit(PendingRequest<D, C>),
    /// The consent step reports an outcome.
    Complete(R),
}

/// The slot after a request arrives: it holds that request, whatever it held.
pub open spec fn spec_submit<D, C>(
    state: Option<PendingRequest<D, C>>,
    request: PendingRequest<D, C>,
) -> Option<PendingRequest<D, C>> {
    Some(request)
}

/// The request that an arriving request pushes out of the slot.
pub open spec fn spec_superseded<D, C>(
    state: Option<PendingRequest<D, C>>,
    request: PendingRequest<D, C>,
) -> Option<PendingRequest<D, C>> {
    state
}

/// The slot after the consent step reports: empty.
pub open spec fn spec_complete<D, C>(state: Option<PendingRequest<D, C>>) -> Option<
    PendingRequest<D, C>,
> {
    None
}

/// What a report of the consent step leads to: the delivery of the outcome to
/// the request in the slot, or the failure that nothing is pending.
pub open spec fn spec_delivery<D, C, R>(state: Option<PendingRequest<D, C>>, outcome: R) -> Result<
    Delivery<D, C, R>,
    BrokerError,
> {
    match state {
        Some(request) => Ok(Delivery { data: request.data, channel: request.channel, outcome }),
        None => Err(BrokerError::NoPendingRequest),
    }
}

/// The slot after an event.
pub open spec fn spec_step<D, C, R>(
    state: Option<PendingRequest<D, C>>,
    event: SlotEvent<D, C, R>,
) -> Option<PendingRequest<D, C>> {
    match event {
        SlotEvent::Submit(request) => spec_submit(state, request),
        SlotEvent::Complete(_) => spec_complete(state),
    }
}

/// The slot after a sequence of events.
pub open spec fn spec_run<D, C, R>(
    state: Option<PendingRequest<D, C>>,
    events: Seq<SlotEvent<D, C, R>>,
) -> Option<PendingRequest<D, C>>
    decreases events.len(),
{
    if events.len() == 0 {
        state
    } else {
        spec_step(spec_run(state, events.drop_last()), events.last())
    }
}

/// How many requests a slot holds.
pub open spec fn spec_pending_count<D, C>(state: Option<PendingRequest<D, C>>) -> nat {
    match state {
        Some(_) => 1,
        None => 0,
    }
}

/// How many requests a sequence of events submits.
pub open spec fn spec_submitted_count<D, C, R>(events: Seq<SlotEvent<D, C, R>>) -> nat
    decreases events.len(),
{
    if events.len() == 0 {
        0
    } else {
        spec_submitted_count(events.drop_last()) + (match events.last() {
            SlotEvent::Submit(_) => 1nat,
            SlotEvent::Complete(_) => 0nat,
        })
    }
}

/// How many requests a sequence of events fulfils, from a state on.
pub open spec fn spec_fulfilled_count<D, C, R>(
    state: Option<PendingRequest<D, C>>,
    events: Seq<SlotEvent<D, C, R>>,
) -> nat
    decreases events.len(),
{
    if events.len() == 0 {
        0
    } else {
        let before = spec_run(state, events.drop_last());
        spec_fulfilled_count(state, events.drop_last()) + (match events.last() {
            SlotEvent::Submit(_) => 0nat,
            SlotEvent::Complete(_) => spec_pending_count(before),
        })
    }
}

/// How many requests a sequence of events supersedes, from a state on.
pub open spec fn spec_superseded_count<D, C, R>(
    state: Option<PendingRequest<D, C>>,
    events: Seq<SlotEvent<D, C, R>>,
) -> nat
    decreases events.len(),
{
    if events.len() == 0 {
        0
    } else {
        let before = spec_run(state, events.drop_last());
        spec_superseded_count(state, events.drop_last()) + (match events.last() {
            SlotEvent::Submit(_) => spec_pending_count(before),
            SlotEvent::Complete(_) => 0nat,
        })
    }
}

/// The slot of one kind of request.
pub struct RequestSlot<D, C> {
    entry: Option<PendingRequest<D, C>>,
}

impl<D, C> View for RequestSlot<D, C> {
    type V = Option<PendingRequest<D, C>>;

    closed spec fn view(&self) -> Option<PendingRequest<D, C>> {
        self.entry
    }
}

impl<D, C> RequestSlot<D, C> {
    /// An empty slot.
    pub fn new() -> (slot: Self)
        ensures
            slot@ is None,
    {
        RequestSlot { entry: None }
    }

    /// Whether a request is pending.
    pub fn is_pending(&self) -> (pending: bool)
        ensures
            pending == (self@ is Some),
    {
        self.entry.is_some()
    }

    /// The data of the pending request, for the consent step to act on while
    /// the request stays where it is.
    pub fn pending_data(&self) -> (data: Option<&D>)
        ensures
            match data {
                Some(d) => self@ matches Some(request) && *d == request.data,
                None => self@ is None,
            },
    {
        match &self.entry {
            Some(request) => Some(&request.data),
            None => None,
        }
    }

    /// Puts a request into the slot. A request that was pending is pushed out
    /// and handed back; it will get no outcome from this slot.
    pub fn submit(&mut self, data: D, channel: C) -> (superseded: Option<PendingRequest<D, C>>)
        ensures
            final(self)@ == spec_submit(old(self)@, PendingRequest { data, channel }),
            superseded == spec_superseded(old(self)@, PendingRequest { data, channel }),
    {
        let mut entry = Some(PendingRequest { data, channel });
        std::mem::swap(&mut self.entry, &mut entry);
        entry
    }

    /// Takes the pending request out of the slot and pairs it with its
    /// outcome, for delivery to its waiter. Fails where nothing is pending.
    pub fn complete<R>(&mut self, outcome: R) -> (delivery: Result<Delivery<D, C, R>, BrokerError>)
        ensures
            final(self)@ == spec_complete(old(self)@),
            delivery == spec_delivery(old(self)@, outcome),
    {
        let mut entry = None;
        std::mem::swap(&mut self.entry, &mut entry);
        match entry {
            Some(request) => Ok(Delivery { data: request.data, channel: request.channel, outcome }),
            None => Err(BrokerError::NoPendingRequest),
        }
    }
}

/// A request submitted and then completed at once gets exactly the outcome
/// that was reported, on its own channel; and the slot is empty after, so that
/// a second report delivers nothing.
pub proof fn law_submit_then_complete_delivers<D, C, R>(
    state: Option<PendingRequest<D, C>>,
    request: PendingRequest<D, C>,
    outcome: R,
    again: R,
)
    ensures
        spec_delivery(spec_submit(state, request), outcome) == Ok::<Delivery<D, C, R>, BrokerError>(
            Delivery { data: request.data, channel: request.channel, outcome },
        ),
        spec_complete(spec_submit(state, request)) is None,
        spec_delivery(spec_complete(spec_submit(state, request)), again) == Err::<
            Delivery<D, C, R>,
            BrokerError,
        >(BrokerError::NoPendingRequest),
{
}

/// A second request before the first is completed pushes the first out: it
/// is handed back as superseded, the report that follows is delivered to the
/// second, and no report after that is delivered to anyone.
pub proof fn law_second_submit_supersedes<D, C, R>(
    state: Option<PendingRequest<D, C>>,
    first: PendingRequest<D, C>,
    second: PendingRequest<D, C>,
    outcome: R,
    again: R,
)
    ensures
        spec_superseded(spec_submit(state, first), second) == Some(first),
        spec_delivery(spec_submit(spec_submit(state, first), second), outcome) == Ok::<
            Delivery<D, C, R>,
            BrokerError,
        >(Delivery { data: second.data, channel: second.channel, outcome }),
        spec_delivery(
            spec_complete(spec_submit(spec_submit(state, first), second)),
            again,
        ) is Err,
{
}

/// After any sequence of submissions and reports a slot holds at most one
/// request, and every request submitted is accounted for once: it was
/// fulfilled, or superseded, or is the one that is pending.
pub proof fn law_every_request_accounted_for<D, C, R>(
    state: Option<PendingRequest<D, C>>,
    events: Seq<SlotEvent<D, C, R>>,
)
    ensures
        spec_pending_count(spec_run(state, events)) <= 1,
        spec_pending_count(state) + spec_submitted_count(events) == spec_fulfilled_count(
            state,
            events,
        ) + spec_superseded_count(state, events) + spec_pending_count(spec_run(state, events)),
    decreases events.len(),
{
    if events.len() > 0 {
        law_every_request_accounted_for(state, events.drop_last());
    }
}

/// What a signing request carries from its arrival to the consent step.
#[derive(Clone, Debug, PartialEq, Eq)]
pub struct SigningRequestData {
    /// The certificate's encoding, in hexadecimal.
    pub cert_hash: String,
    /// The digest to sign.
    pub doc_hash: String,
    /// The timestamp of the request, as it came.
    pub timestamp: String,
    /// The counter-signature of the requesting application, in hexadecimal.
    pub signed_certificate: String,
}

/// The two kinds of request.
#[derive(Clone, Copy, Debug, PartialEq, Eq, Structural)]
pub enum RequestKind {
    CertificateSelection,
    Signing,
}

/// The slots of a process, one for each kind of request.
pub struct BrokerState<C> {
    /// The slot of the certificate selection.
    pub certificate: RequestSlot<(), C>,
    /// The slot of the signing request.
    pub signing: RequestSlot<SigningRequestData, C>,
}

impl<C> BrokerState<C> {
    /// Two empty slots.
    pub fn new() -> (state: Self)
        ensures
            state.certificate@ is None,
            state.signing@ is None,
    {
        BrokerState { certificate: RequestSlot::new(), signing: RequestSlot::new() }
    }

    /// Whether a request of a kind is pending.
    pub fn is_pending(&self, kind: RequestKind) -> (pending: bool)
        ensures
            pending == match kind {
                RequestKind::CertificateSelection => self.certificate@ is Some,
                RequestKind::Signing => self.signing@ is Some,
            },
    {
        match kind {
            RequestKind::CertificateSelection => self.certificate.is_pending(),
            RequestKind::Signing => self.signing.is_pending(),
        }
    }

    /// Takes in a request for a certificate: it becomes the pending selection.
    /// No authentication is asked for. The signing slot is left alone.
    pub fn request_certificate(&mut self, channel: C) -> (superseded: Option<
        PendingRequest<(), C>,
    >)
        ensures
            final(self).certificate@ == Some(PendingRequest { data: (), channel }),
            superseded == old(self).certificate@,
            final(self).signing == old(self).signing,
    {
        self.certificate.submit((), channel)
    }

    /// Takes in a signing request, if it is authentic: then it becomes the
    /// pending signing request, and a request it pushed out is handed back. A
    /// request that is rejected changes nothing.
    pub fn request_signature(
        &mut self,
        request: SigningRequestData,
        channel: C,
        now: Instant,
        trusted_key: &[u8],
    ) -> (accepted: Result<Option<PendingRequest<SigningRequestData, C>>, BrokerError>)
        ensures
            match spec_authenticate(
                request.cert_hash@,
                request.timestamp@,
                request.signed_certificate@,
                now@,
                trusted_key@,
            ) {
                Ok(()) => accepted == Ok::<
                    Option<PendingRequest<SigningRequestData, C>>,
                    BrokerError,
                >(old(self).signing@) && final(self).signing@ == Some(
                    PendingRequest { data: request, channel },
                ) && final(self).certificate == old(self).certificate,
                Err(rejection) => accepted == Err::<
                    Option<PendingRequest<SigningRequestData, C>>,
                    BrokerError,
                >(rejection) && *final(self) == *old(self),
            },
    {
        match authenticate(
            request.cert_hash.as_str(),
            request.timestamp.as_str(),
            request.signed_certificate.as_str(),
            now,
            trusted_key,
        ) {
            Err(rejection) => Err(rejection),
            Ok(()) => Ok(self.signing.submit(request, channel)),
        }
    }
}

/// What the token is to sign once the user has given the PIN: with the key
/// of which certificate, and which bytes.
#[derive(Clone, Debug, PartialEq, Eq)]
pub struct SigningJob {
    /// The certificate's encoding, in hexadecimal.
    pub cert_hash: String,
    /// The bytes to sign: the digest as the request spelled it.
    pub digest: Vec<u8>,
}

/// The step that the consent step takes when it has the PIN: to sign for the
/// pending request; and where nothing is pending, to fail before the token is
/// touched.
pub fn signing_job(pending: Option<&SigningRequestData>) -> (job: Result<SigningJob, Failure>)
    ensures
        match pending {
            Some(request) => job matches Ok(work) && work.cert_hash@ == request.cert_hash@
                && work.digest@ == vstd::utf8::encode_utf8(request.doc_hash@),
            None => job matches Err(failure) && failure.kind == BrokerError::NoPendingRequest
                && failure.detail@ == "No signing request pending"@,
        },
{
    match pending {
        Some(request) => Ok(
            SigningJob {
                cert_hash: request.cert_hash.clone(),
                digest: vstd::slice::slice_to_vec(request.doc_hash.as_str().as_bytes()),
            },
        ),
        None => Err(Failure::new(BrokerError::NoPendingRequest, "No signing request pending")),
    }
}

} // verus!
