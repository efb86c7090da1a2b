use vstd::prelude::*;

verus! {

#[verifier::external_type_specification]
#[verifier::external_body]
#[verifier::reject_recursive_types(T)]
pub struct ExSender<T>(kanal::Sender<T>);

#[verifier::external_type_specification]
#[verifier::external_body]
#[verifier::reject_recursive_types(T)]
pub struct ExReceiver<T>(kanal::Receiver<T>);

/// What one non-blocking receive attempt yielded.
pub enum RecvOutcome<T> {
    /// A message was waiting.
    Item(T),
    /// No message was waiting; the channel stays usable.
    Empty,
    /// The channel is closed and drained; nothing will arrive any more.
    Closed,
}

/// What one non-blocking send attempt did.
#[derive(Clone, Copy, Debug, PartialEq, Eq, Structural)]
pub enum SendOutcome {
    /// The message was queued or handed to a waiting receiver.
    Delivered,
    /// The bounded queue was full; the message was dropped.
    Full,
    /// The channel is closed; the message was dropped.
    Closed,
}

/// Relies on kanal::Receiver::try_recv: it returns Ok(Some) for a waiting
/// message, Ok(None) for none, and an error when the channel is closed and
/// empty. Which outcome comes back depends on the peer, so nothing is
/// promised of it.
#[verifier::external_body]
pub(crate) fn ch_try_recv<T>(rx: &kanal::Receiver<T>) -> RecvOutcome<T> {
    match rx.try_recv() {
        Ok(Some(v)) => RecvOutcome::Item(v),
        Ok(None) => RecvOutcome::Empty,
        Err(_) => RecvOutcome::Closed,
    }
}

/// Relies on kanal::Receiver::is_disconnected: true exactly when every
/// sender has been dropped. The answer depends on the peer, so nothing is
/// promised of it.
#[verifier::external_body]
pub(crate) fn ch_receiver_disconnected<T>(rx: &kanal::Receiver<T>) -> bool {
    rx.is_disconnected()
}

/// Relies on kanal::Sender::try_send: a non-blocking send that reports
/// whether the message was delivered, dropped on a full queue, or dropped
/// because the channel is closed. The outcome depends on the peer, so
/// nothing is promised of it.
#[verifier::external_body]
pub(crate) fn ch_try_send<T>(tx: &kanal::Sender<T>, value: T) -> SendOutcome {
    match tx.try_send(value) {
        Ok(true) => SendOutcome::Delivered,
        Ok(false) => SendOutcome::Full,
        Err(_) => SendOutcome::Closed,
    }
}

/// Relies on kanal::Sender::send: it delivers unless the channel is closed,
/// and on an unbounded channel it does not wait. True when delivered. The
/// outcome depends on the peer, so nothing is promised of it.
#[verifier::external_body]
pub(crate) fn ch_send<T>(tx: &kanal::Sender<T>, value: T) -> bool {
    tx.send(value).is_ok()
}

} // verus!
