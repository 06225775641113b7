//! The signal that calls off a connection attempt.
//!
//! Whoever starts an attempt keeps the sending side and may signal once that
//! the attempt is to end. The attempt holds the receiving side and looks for
//! the signal whenever it suits it. The channel between them holds one
//! signal at most: a signal sent while one waits is turned away at once.

use tokio::sync::mpsc::{Receiver, Sender};
use vstd::prelude::*;

verus! {

/// `tokio::sync::mpsc::Sender`, the sending side of a bounded channel. Of what
/// is inside it nothing is claimed but its bound, below.
#[verifier::external_type_specification]
#[verifier::external_body]
#[verifier::reject_recursive_types(T)]
pub struct ExSender<T>(tokio::sync::mpsc::Sender<T>);

/// `tokio::sync::mpsc::Receiver`, the receiving side of a bounded channel. Of
/// what is inside it nothing is claimed but its bound, below.
#[verifier::external_type_specification]
#[verifier::external_body]
#[verifier::reject_recursive_types(T)]
pub struct ExReceiver<T>(tokio::sync::mpsc::Receiver<T>);

/// The number of signals that the channel of `tx` holds at most: what
/// `Sender::max_capacity` returns, which is the bound that the channel was
/// made with and never changes.
pub uninterp spec fn sender_max_capacity(tx: Sender<()>) -> usize;

/// The number of signals that the channel of `rx` holds at most: what
/// `Receiver::max_capacity` returns, which is the bound that the channel was
/// made with and never changes.
pub uninterp spec fn receiver_max_capacity(rx: Receiver<()>) -> usize;

/// The number of signals that waits for the attempt at most.
pub const SIGNALS_HELD: usize = 1;

/// The sending side of a termination channel.
pub type ConnectTerminator = Sender<()>;

/// `tokio::sync::mpsc::channel`, for signals without a payload. It makes a
/// channel that holds up to `buffer` signals and returns its two sides, each
/// of which reports `buffer` as its bound from then on. It panics on a bound
/// of zero and on one above an eighth of `usize::MAX`, which `requires`
/// leaves out.
#[verifier::external_body]
fn signal_channel(buffer: usize) -> (pair: (Sender<()>, Receiver<()>))
    requires
        0 < buffer <= usize::MAX / 8,
    ensures
        sender_max_capacity(pair.0) == buffer,
        receiver_max_capacity(pair.1) == buffer,
{
    tokio::sync::mpsc::channel(buffer)
}

/// Makes the two sides of a termination channel: one that holds a single
/// signal.
pub fn connect_terminator() -> (pair: (ConnectTerminator, Receiver<()>))
    ensures
        sender_max_capacity(pair.0) == SIGNALS_HELD,
        receiver_max_capacity(pair.1) == SIGNALS_HELD,
{
    signal_channel(SIGNALS_HELD)
}

} // verus!
