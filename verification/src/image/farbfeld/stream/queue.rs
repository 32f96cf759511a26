//! The bounded queue between the workers and the encoder.

use super::pixel::Pixel;
use vstd::prelude::*;

verus! {

#[verifier::external_type_specification]
#[verifier::external_body]
#[verifier::reject_recursive_types(T)]
pub struct ExSender<T>(kanal::Sender<T>);

#[verifier::external_type_specification]
#[verifier::external_body]
#[verifier::reject_recursive_types(T)]
pub struct ExReceiver<T>(kanal::Receiver<T>);

/// The largest capacity that a queue can be asked for: with more, the memory
/// of its pixels, of sixteen bytes each, could not be addressed.
pub const MAX_BUFFER_CAP: usize = usize::MAX / 32;

/// `kanal::bounded`: a queue that holds at most `capacity` pixels, as its
/// sending and its receiving end. Nothing is claimed of the two ends.
#[verifier::external_body]
pub(crate) fn bounded(capacity: usize) -> (ends: (kanal::Sender<Pixel>, kanal::Receiver<Pixel>))
    requires
        capacity <= MAX_BUFFER_CAP,
{
    kanal::bounded(capacity)
}

/// `kanal::Sender::send`: hands a pixel to the queue, waiting while the
/// queue is full. The answer is `false` where the queue is closed; which
/// answer comes depends on the other end, so nothing is claimed of it.
#[verifier::external_body]
pub(crate) fn send(tx: &kanal::Sender<Pixel>, pixel: Pixel) -> (sent: bool) {
    tx.send(pixel).is_ok()
}

/// `kanal::Receiver::recv`: takes the next pixel out of the queue, waiting
/// while the queue is empty and open. The answer is `None` where the queue is
/// closed and empty; what comes depends on the senders, so nothing is claimed
/// of it.
#[verifier::external_body]
pub(crate) fn recv(rx: &kanal::Receiver<Pixel>) -> (pixel: Option<Pixel>) {
    rx.recv().ok()
}

/// `kanal::Sender::clone`: one more sending end of the same queue.
#[verifier::external_body]
pub(crate) fn another(tx: &kanal::Sender<Pixel>) -> (other: kanal::Sender<Pixel>) {
    tx.clone()
}

} // verus!
