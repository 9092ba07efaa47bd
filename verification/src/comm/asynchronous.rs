use vstd::prelude::*;
use crate::comm::message::MsgCall;
use crate::comm::rma::RmaCall;
use crate::comm::tagged::TaggedCall;
use crate::error::Error;

verus! {

/// What an asynchronous operation does once its libfabric call was posted.
#[derive(Clone, Copy, Debug, PartialEq, Eq, Structural)]
pub enum AsyncStep {
    /// The call was accepted: wait for its completion on the completion queue `cq` (by
    /// handle).
    AwaitCompletion { cq: u64 },
    /// The call was accepted and generates no completion: the operation is done.
    Done,
    /// The call was refused with this error; nothing will complete.
    Failed(Error),
}

/// Which of an endpoint's completion queues reports the completion of an operation.
#[derive(Clone, Copy, Debug, PartialEq, Eq, Structural)]
pub enum AwaitedQueue {
    Transmit,
    Receive,
}

/// The queue an asynchronous message operation awaits: the transmit queue, for receives as
/// well as for sends; an inject generates no completion and awaits nothing.
pub fn msg_awaited_queue(call: &MsgCall) -> (r: Option<AwaitedQueue>)
    ensures
        (*call is Inject || *call is Injectdata) ==> r is None,
        !(*call is Inject || *call is Injectdata) ==> r == Some(AwaitedQueue::Transmit),
{
    match call {
        MsgCall::Inject { .. } | MsgCall::Injectdata { .. } => None,
        _ => Some(AwaitedQueue::Transmit),
    }
}

/// The queue an asynchronous tagged operation awaits: the receive queue for tagged receives,
/// the transmit queue for tagged sends; an inject awaits nothing.
pub fn tagged_awaited_queue(call: &TaggedCall) -> (r: Option<AwaitedQueue>)
    ensures
        (*call is Tinject || *call is Tinjectdata) ==> r is None,
        (*call is Trecv || *call is Trecvv || *call is Trecvmsg) ==> r == Some(AwaitedQueue::Receive),
        (*call is Tsend || *call is Tsendv || *call is Tsendmsg || *call is Tsenddata) ==> r == Some(
            AwaitedQueue::Transmit,
        ),
{
    match call {
        TaggedCall::Tinject { .. } | TaggedCall::Tinjectdata { .. } => None,
        TaggedCall::Trecv { .. } | TaggedCall::Trecvv { .. } | TaggedCall::Trecvmsg { .. } => Some(
            AwaitedQueue::Receive,
        ),
        _ => Some(AwaitedQueue::Transmit),
    }
}

/// The queue an asynchronous RMA operation awaits: the transmit queue, for reads as well as
/// for writes; an inject write awaits nothing.
pub fn rma_awaited_queue(call: &RmaCall) -> (r: Option<AwaitedQueue>)
    ensures
        (*call is InjectWrite || *call is InjectWritedata) ==> r is None,
        !(*call is InjectWrite || *call is InjectWritedata) ==> r == Some(AwaitedQueue::Transmit),
{
    match call {
        RmaCall::InjectWrite { .. } | RmaCall::InjectWritedata { .. } => None,
        _ => Some(AwaitedQueue::Transmit),
    }
}

/// Decides on a posted call from what it returned: a non-zero `err` is the negated error
/// number; on success an operation awaits its completion on the endpoint's transmit queue
/// `tx_cq` or receive queue `rx_cq`, as `awaited` says, and one that awaits nothing is done.
pub fn posted(err: isize, awaited: Option<AwaitedQueue>, tx_cq: u64, rx_cq: u64) -> (r: AsyncStep)
    requires
        err == 0 || (err < 0 && err > isize::MIN && -err <= u32::MAX),
    ensures
        err != 0 ==> r == AsyncStep::Failed(Error { c_err: (-err) as u32 }),
        err == 0 && awaited == Some(AwaitedQueue::Transmit) ==> r == (AsyncStep::AwaitCompletion { cq: tx_cq }),
        err == 0 && awaited == Some(AwaitedQueue::Receive) ==> r == (AsyncStep::AwaitCompletion { cq: rx_cq }),
        err == 0 && awaited is None ==> r == AsyncStep::Done,
{
    if err != 0 {
        AsyncStep::Failed(Error::from_err_code((-err) as u32))
    } else {
        match awaited {
            Some(AwaitedQueue::Transmit) => AsyncStep::AwaitCompletion { cq: tx_cq },
            Some(AwaitedQueue::Receive) => AsyncStep::AwaitCompletion { cq: rx_cq },
            None => AsyncStep::Done,
        }
    }
}

/// The outcome of an inject operation (`fi_inject`, `fi_injectdata`, `fi_inject_write`, ...),
/// which generates no completion: there is nothing to await, and the result is what the call
/// returned.
pub fn injected(err: isize) -> (r: Result<(), Error>)
    requires
        err == 0 || (err < 0 && err > isize::MIN && -err <= u32::MAX),
    ensures
        err == 0 ==> r == Ok::<(), Error>(()),
        err != 0 ==> r == Err::<(), Error>(Error { c_err: (-err) as u32 }),
{
    if err == 0 {
        Ok(())
    } else {
        Err(Error::from_err_code((-err) as u32))
    }
}

/// The outcome of an asynchronous transfer: a refused call is its error; an accepted one is
/// whatever its completion reported (`completion`, read only when the call was accepted).
pub fn transfer_outcome<C>(err: isize, completion: Result<C, Error>) -> (r: Result<C, Error>)
    requires
        err == 0 || (err < 0 && err > isize::MIN && -err <= u32::MAX),
    ensures
        err == 0 ==> r == completion,
        err != 0 ==> r == Err::<C, Error>(Error { c_err: (-err) as u32 }),
{
    if err == 0 {
        completion
    } else {
        Err(Error::from_err_code((-err) as u32))
    }
}

/// The outcome of an asynchronous RMA transfer, which hands back no completion
/// entry: a refused call is its error; an accepted one succeeds when its completion did, and
/// otherwise fails with the completion's error.
pub fn write_outcome<C>(err: isize, completion: Result<C, Error>) -> (r: Result<(), Error>)
    requires
        err == 0 || (err < 0 && err > isize::MIN && -err <= u32::MAX),
    ensures
        err != 0 ==> r == Err::<(), Error>(Error { c_err: (-err) as u32 }),
        err == 0 ==> (completion matches Ok(_) ==> r == Ok::<(), Error>(())),
        err == 0 ==> (completion matches Err(e) ==> r == Err::<(), Error>(e)),
{
    match transfer_outcome(err, completion) {
        Ok(_) => Ok(()),
        Err(e) => Err(e),
    }
}

} // verus!
