use kernel_core::KernelError;
use kernel_core::interrupt::{
    Idt, InterruptDescriptor, InterruptVector, make_idt_attr, set_idt_entry,
};
use kernel_core::x86_descriptor::DescriptorType;

#[test]
fn attribute_round_trip_reproduces_every_field() {
    let attr = make_idt_attr(DescriptorType::InterruptGate(), 3, true, 5);
    assert!(attr.present());
    assert_eq!(attr.descriptor_privilege_level(), 3);
    assert_eq!(attr.descriptor_type(), 14);
    assert_eq!(attr.interrupt_stack_table(), 5);

    let attr = make_idt_attr(DescriptorType::TrapGate(), 0, false, 0);
    assert!(!attr.present());
    assert_eq!(attr.descriptor_privilege_level(), 0);
    assert_eq!(attr.descriptor_type(), 15);
    assert_eq!(attr.interrupt_stack_table(), 0);
}

#[test]
fn attribute_bits_sit_at_the_documented_positions() {
    let attr = make_idt_attr(DescriptorType::InterruptGate(), 2, true, 1);
    let expected: u16 = (1 << 15) | (2 << 13) | (14 << 8) | 1;
    assert_eq!(attr.0, expected);
}

#[test]
fn idt_entry_splits_the_handler_address() {
    let mut desc = InterruptDescriptor::new();
    let attr = make_idt_attr(DescriptorType::InterruptGate(), 0, true, 0);
    set_idt_entry(&mut desc, attr, 0x1234_5678_9abc_def0, 0x08);
    assert_eq!(desc.offset_low, 0xdef0);
    assert_eq!(desc.offset_middle, 0x9abc);
    assert_eq!(desc.offset_high, 0x1234_5678);
    assert_eq!(desc.segment_selector, 0x08);
    assert_eq!(desc.attr, attr);
}

#[test]
fn register_handler_refuses_a_claimed_vector() {
    let mut idt = Idt::new();
    let vector = InterruptVector::Xhci();
    assert_eq!(vector.get(), 0x40);

    let attr = make_idt_attr(DescriptorType::InterruptGate(), 0, true, 0);
    assert!(idt.register_handler(vector, attr, 0xdead_beef, 1 << 3).is_ok());

    let gate = idt.entry(0x40);
    assert_eq!(gate.offset_low, 0xbeef);
    assert_eq!(gate.offset_middle, 0xdead);
    assert_eq!(gate.offset_high, 0);
    assert_eq!(gate.segment_selector, 1 << 3);
    assert!(gate.attr.present());

    // The vector is now claimed.
    assert_eq!(
        idt.register_handler(vector, attr, 0x1111_2222, 1 << 3),
        Err(KernelError::VectorAlreadyClaimed)
    );
    // Other vectors stay free and zeroed.
    assert!(!idt.entry(0x41).attr.present());
    assert_eq!(idt.entry(0x41), InterruptDescriptor::new());
}

#[test]
fn idt_param_has_the_table_size_less_one() {
    let idt = Idt::new();
    let param = idt.param(0x7000);
    assert_eq!(param.limit, 256 * 16 - 1);
    assert_eq!(param.base, 0x7000);
}
