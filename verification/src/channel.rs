//! The channels of `std::sync::mpsc` that join the render loop and the fetch worker.
//!
//! What a channel holds at any moment depends on the thread at its other end,
//! so nothing here promises what a send or a receive returns: the callers
//! state what holds for every outcome. The one thing claimed is the bound
//! that the command channel was created with.

use crate::command::Msg;
use std::sync::mpsc::{sync_channel, Receiver, SendError, Sender, SyncSender, TryRecvError};
use vstd::prelude::*;

verus! {

/// `std::sync::mpsc::Receiver`: the receiving end of a channel, carried as an opaque value.
#[verifier::external_type_specification]
#[verifier::external_body]
#[verifier::reject_recursive_types(T)]
pub struct ExReceiver<T>(Receiver<T>);

/// `std::sync::mpsc::Sender`: the sending end of an unbounded channel, carried as an opaque value.
#[verifier::external_type_specification]
#[verifier::external_body]
#[verifier::reject_recursive_types(T)]
pub struct ExSender<T>(Sender<T>);

/// `std::sync::mpsc::SyncSender`: the sending end of a bounded channel, carried as an opaque value.
#[verifier::external_type_specification]
#[verifier::external_body]
#[verifier::reject_recursive_types(T)]
pub struct ExSyncSender<T>(SyncSender<T>);

/// `std::sync::mpsc::TryRecvError`: why a non-blocking receive yielded nothing.
#[verifier::external_type_specification]
#[verifier::external_body]
pub struct ExTryRecvError(TryRecvError);

/// `std::sync::mpsc::SendError`: a send that found the receiving end gone.
#[verifier::external_type_specification]
#[verifier::external_body]
#[verifier::reject_recursive_types(T)]
pub struct ExSendError<T>(SendError<T>);

/// `std::sync::mpsc::channel`: a new unbounded channel. Nothing is claimed of the two ends.
pub assume_specification<T>[ std::sync::mpsc::channel::<T> ]() -> (ends: (Sender<T>, Receiver<T>));

/// The number of commands that the channel behind `tx` buffers before a
/// sender has to wait: the bound that the channel was created with.
pub uninterp spec fn command_bound(tx: SyncSender<Msg>) -> nat;

/// `std::sync::mpsc::sync_channel`: a new channel for commands that buffers
/// at most `bound` of them. The claim is that the channel keeps the bound it
/// was created with; nothing is claimed of what passes through it.
#[verifier::external_body]
pub(crate) fn command_channel(bound: usize) -> (ends: (SyncSender<Msg>, Receiver<Msg>))
    ensures
        command_bound(ends.0) == bound,
{
    sync_channel(bound)
}

/// `Receiver::try_recv`: takes the oldest waiting message without blocking.
/// Nothing is claimed of the result: whether a message waits is decided at the
/// sending end.
pub assume_specification<T>[ Receiver::<T>::try_recv ](rx: &Receiver<T>) -> (got: Result<
    T,
    TryRecvError,
>);

/// `Sender::send`: hands a message to an unbounded channel, never blocking.
/// Nothing is claimed of the result: it is an error once the receiving end is gone.
pub assume_specification<T>[ Sender::<T>::send ](tx: &Sender<T>, t: T) -> (sent: Result<
    (),
    SendError<T>,
>);

/// `SyncSender::send`: hands a message to a bounded channel, waiting while its
/// buffer is full. Nothing is claimed of the result: it is an error once the
/// receiving end is gone.
pub assume_specification<T>[ SyncSender::<T>::send ](tx: &SyncSender<T>, t: T) -> (sent: Result<
    (),
    SendError<T>,
>);

} // verus!
