use kernel_core::KernelError;
use kernel_core::main_loop::{
    MAIN_QUEUE_CAPACITY, Message, MessageType, isr_notify_xhci, poll_event,
};
use kernel_core::queue::ArrayQueue;
use kernel_core::usb::XhciController;

fn empty_queue() -> ArrayQueue<Message, MAIN_QUEUE_CAPACITY> {
    ArrayQueue::new(Message(MessageType::InterruptXhci))
}

#[test]
fn notifications_flow_from_handler_to_loop() {
    let mut q = empty_queue();
    assert!(isr_notify_xhci(&mut q).is_ok());
    assert!(isr_notify_xhci(&mut q).is_ok());
    assert_eq!(q.count(), 2);

    assert_eq!(poll_event(&mut q), Some(Message(MessageType::InterruptXhci)));
    assert_eq!(q.count(), 1);
    assert_eq!(poll_event(&mut q), Some(Message(MessageType::InterruptXhci)));
    // Empty again: the loop would re-enable interrupts and halt.
    assert_eq!(poll_event(&mut q), None);
    assert_eq!(q.count(), 0);
}

#[test]
fn a_full_queue_drops_the_notification() {
    let mut q = empty_queue();
    for _ in 0..MAIN_QUEUE_CAPACITY {
        assert!(isr_notify_xhci(&mut q).is_ok());
    }
    assert_eq!(isr_notify_xhci(&mut q), Err(KernelError::QueueFull));
    assert_eq!(q.count(), MAIN_QUEUE_CAPACITY);
}

#[test]
fn controller_handle_keeps_its_register_base() {
    let xhc = XhciController::new(0xf000_0000);
    assert_eq!(xhc.mmio_base(), 0xf000_0000);
}
