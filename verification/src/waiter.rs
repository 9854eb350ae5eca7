//! The slots with a one-shot channel of `tokio` as the way to the waiter: a
//! request is given the receiving half when it is taken in, the slot keeps the
//! sending half, and the outcome is sent on it when the request is completed.
//! A request that is pushed out has its sending half dropped, which its waiter
//! sees as a closed channel.

use vstd::prelude::*;
use tokio::sync::oneshot::{Receiver, Sender};
use crate::auth::spec_authenticate;
use crate::broker::{BrokerState, Delivery, PendingRequest, RequestSlot, SigningRequestData};
use crate::error::{BrokerError, Failure};
use crate::timestamp::Instant;

verus! {

/// The sending half of a one-shot channel.
#[verifier::external_type_specification]
#[verifier::external_body]
#[verifier::reject_recursive_types(T)]
pub struct ExSender<T>(tokio::sync::oneshot::Sender<T>);

/// The receiving half of a one-shot channel.
#[verifier::external_type_specification]
#[verifier::external_body]
#[verifier::reject_recursive_types(T)]
pub struct ExReceiver<T>(tokio::sync::oneshot::Receiver<T>);

/// What awaiting a receiving half yields when the sending half was dropped
/// unused. Nothing here handles a value of it: it is declared because the
/// receiving half is a future with this type in its output, and Verus reads
/// that when it meets the receiving half.
#[verifier::external_type_specification]
#[verifier::external_body]
pub struct ExRecvError(tokio::sync::oneshot::error::RecvError);

/// What a waiter receives: the payload, or why there is none.
pub type Outcome = Result<String, Failure>;

/// The sending half of a waiter's channel.
pub type Waiter = Sender<Outcome>;

/// `oneshot::channel` of `tokio`: the two halves of a new channel.
#[verifier::external_body]
fn channel_open() -> (halves: (Sender<Outcome>, Receiver<Outcome>)) {
    tokio::sync::oneshot::channel()
}

/// `Sender::send` of `tokio`: it sends the value, or hands it back where the
/// receiving half is gone already.
#[verifier::external_body]
fn channel_send(sender: Sender<Outcome>, outcome: Outcome) -> (sent: Result<(), Outcome>)
    ensures
        sent matches Err(returned) ==> returned == outcome,
{
    sender.send(outcome)
}

/// Sends the outcome of a delivery to its waiter. A waiter that is gone is
/// reported as a closed channel.
pub fn deliver<D>(delivery: Delivery<D, Waiter, Outcome>) -> (sent: Result<(), Failure>)
    ensures
        sent matches Err(failure) ==> failure.kind == BrokerError::ChannelClosed
            && failure.detail@ == "Failed to send the result"@,
{
    sent_or_closed(channel_send(delivery.channel, delivery.outcome))
}

/// Completes the pending request of a slot: the request leaves the slot and
/// its waiter is sent the outcome. Fails where nothing is pending, and where
/// the waiter is gone.
pub fn complete_request<D>(slot: &mut RequestSlot<D, Waiter>, outcome: Outcome) -> (done: Result<
    (),
    Failure,
>)
    ensures
        final(slot)@ is None,
        old(slot)@ is None ==> (done matches Err(failure) && failure.kind
            == BrokerError::NoPendingRequest),
        old(slot)@ is Some ==> (done matches Err(failure) ==> failure.kind
            == BrokerError::ChannelClosed),
{
    match slot.complete(outcome) {
        Err(kind) => Err(Failure::new(kind, "No request pending")),
        Ok(delivery) => deliver(delivery),
    }
}

/// A request taken in: the half of a new channel on which its outcome will
/// arrive, and the request that it pushed out of the slot, if there was one.
/// Dropping the request pushed out closes its channel unresolved.
pub struct Opened<D> {
    /// Where the outcome of the request will arrive.
    pub receiver: Receiver<Outcome>,
    /// The request that was pending before, and will get no outcome.
    pub superseded: Option<PendingRequest<D, Waiter>>,
}

/// Takes in a request for a certificate: it becomes the pending selection,
/// and the selection that was pending is pushed out and handed back. The
/// signing slot is left alone.
pub fn open_certificate_request(state: &mut BrokerState<Waiter>) -> (opened: Opened<()>)
    ensures
        opened.superseded == old(state).certificate@,
        final(state).certificate@ matches Some(pending) && pending.data == (),
        final(state).signing == old(state).signing,
{
    let (sender, receiver) = channel_open();
    let superseded = state.request_certificate(sender);
    Opened { receiver, superseded }
}

/// Takes in a signing request, if it is authentic: it becomes the pending
/// signing request, and the one that was pending is pushed out and handed
/// back. A request that is rejected changes nothing.
pub fn open_signing_request(
    state: &mut BrokerState<Waiter>,
    request: SigningRequestData,
    now: Instant,
    trusted_key: &[u8],
) -> (accepted: Result<Opened<SigningRequestData>, BrokerError>)
    ensures
        match spec_authenticate(
            request.cert_hash@,
            request.timestamp@,
            request.signed_certificate@,
            now@,
            trusted_key@,
        ) {
            Ok(()) => (accepted matches Ok(opened) && opened.superseded == old(state).signing@)
                && (final(state).signing@ matches Some(pending) && pending.data == request)
                && final(state).certificate == old(state).certificate,
            Err(rejection) => (accepted matches Err(kind) && kind == rejection) && *final(state)
                == *old(state),
        },
{
    let (sender, receiver) = channel_open();
    match state.request_signature(request, sender, now, trusted_key) {
        Ok(superseded) => Ok(Opened { receiver, superseded }),
        Err(rejection) => Err(rejection),
    }
}

/// Ends the consent step with what the token step gave. A failure of the
/// token step is handed back and the request stays pending, so that the user
/// can be asked again; a payload completes the pending request.
pub fn complete_after<D>(slot: &mut RequestSlot<D, Waiter>, step: Result<String, Failure>) -> (done:
    Result<(), Failure>)
    ensures
        match step {
            Err(refusal) => done == Err::<(), Failure>(refusal) && final(slot)@ == old(slot)@,
            Ok(_) => final(slot)@ is None && (old(slot)@ is None ==> (done matches Err(failure)
                && failure.kind == BrokerError::NoPendingRequest)) && (old(slot)@ is Some ==> (
            done matches Err(failure) ==> failure.kind == BrokerError::ChannelClosed)),
        },
{
    match step {
        Err(refusal) => Err(refusal),
        Ok(payload) => complete_request(slot, Ok(payload)),
    }
}

/// What a waiter reports when its wait ends: the outcome it received, or,
/// where its channel was closed unresolved, a failure in general words that
/// say nothing of the slot.
pub fn waiter_result(received: Option<Outcome>) -> (outcome: Outcome)
    ensures
        match received {
            Some(given) => outcome == given,
            None => outcome matches Err(failure) && failure.kind == BrokerError::ChannelClosed
                && failure.detail@ == "The request could not be completed"@,
        },
{
    match received {
        Some(outcome) => outcome,
        None => Err(Failure::new(BrokerError::ChannelClosed, "The request could not be completed")),
    }
}

/// What is reported of an attempt to send: nothing where the outcome was
/// sent, and a closed channel where it was handed back because the waiter is
/// gone.
pub fn sent_or_closed(sent: Result<(), Outcome>) -> (report: Result<(), Failure>)
    ensures
        match sent {
            Ok(()) => report == Ok::<(), Failure>(()),
            Err(_) => report matches Err(failure) && failure.kind == BrokerError::ChannelClosed
                && failure.detail@ == "Failed to send the result"@,
        },
{
    match sent {
        Ok(()) => Ok(()),
        Err(_) => Err(Failure::new(BrokerError::ChannelClosed, "Failed to send the result")),
    }
}

} // verus!
