//! The decisions of the steady-state event loop.
//!
//! The interrupt handler and the main loop share one bounded queue;
//! the shell brackets each access with interrupt disable/enable and
//! performs the halts and the controller calls. What to do at each
//! step — enqueue a notification best-effort, sleep when the queue is
//! empty, or take the oldest message — is decided here.

use vstd::prelude::*;

use crate::queue::ArrayQueue;
use crate::{KernelError, KernelResult};

verus! {

/// Capacity of the handoff queue between the interrupt handler and
/// the main loop.
pub const MAIN_QUEUE_CAPACITY: usize = 32;

/// What a queued notification reports.
#[derive(Debug, Clone, Copy, PartialEq, Eq, Structural)]
pub enum MessageType {
    /// The xHCI controller raised its interrupt; its event ring wants
    /// draining.
    InterruptXhci,
}

/// One notification passed from the interrupt handler to the main
/// loop.
#[derive(Debug, Clone, Copy, PartialEq, Eq, Structural)]
pub struct Message(pub MessageType);

/// The interrupt handler's whole decision: record one xHCI
/// notification, and drop it when the queue is full — the later
/// event-ring drain empties everything regardless, so a lost
/// coalesced notification is acceptable, and the handler cannot wait.
pub fn isr_notify_xhci(queue: &mut ArrayQueue<Message, MAIN_QUEUE_CAPACITY>) -> (r:
    KernelResult<()>)
    requires old(queue).wf(),
    ensures
        final(queue).wf(),
        old(queue)@.len() == MAIN_QUEUE_CAPACITY ==> r == KernelResult::<()>::Err(
            KernelError::QueueFull,
        ) && final(queue)@ == old(queue)@,
        old(queue)@.len() < MAIN_QUEUE_CAPACITY ==> r == KernelResult::<()>::Ok(()) && final(queue)@ == old(queue)@.push(Message(MessageType::InterruptXhci)),
{
    queue.push(Message(MessageType::InterruptXhci))
}

/// The main loop's per-iteration decision, taken with interrupts
/// disabled: an empty queue means sleep — the shell re-enables
/// interrupts and halts with nothing in between, so no wakeup is
/// missed — and otherwise the oldest notification is removed and
/// handed out for dispatch after interrupts are back on.
pub fn poll_event(queue: &mut ArrayQueue<Message, MAIN_QUEUE_CAPACITY>) -> (r: Option<Message>)
    requires old(queue).wf(),
    ensures
        final(queue).wf(),
        old(queue)@.len() == 0 ==> r == Option::<Message>::None && final(queue)@ == old(queue)@,
        old(queue)@.len() > 0 ==> r == Option::Some(old(queue)@[0]) && final(queue)@ == old(queue)@.skip(1),
{
    if queue.count() == 0 {
        return None;
    }
    let msg = *queue.front();
    let popped = queue.pop();
    proof {
        assert(popped is Ok);
    }
    Some(msg)
}

} // verus!
