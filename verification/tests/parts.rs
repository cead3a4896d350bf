use hivemind::vcpu::cpu::VCPU16;
use hivemind::vcpu::hardware::HardwareRegistry;
use hivemind::vcpu::interrupts::InterruptController;
use hivemind::vcpu::machine::Device;

#[test]
fn queue_is_first_in_first_out() {
    let mut controller = InterruptController::new();
    assert!(!controller.queueing());
    assert_eq!(controller.len(), 0);
    assert_eq!(controller.dequeue(), None);
    assert!(controller.enqueue(10));
    assert!(controller.enqueue(20));
    assert!(controller.enqueue(30));
    assert_eq!(controller.len(), 3);
    assert_eq!(controller.dequeue(), Some(10));
    assert_eq!(controller.dequeue(), Some(20));
    assert!(controller.enqueue(40));
    assert_eq!(controller.dequeue(), Some(30));
    assert_eq!(controller.dequeue(), Some(40));
    assert_eq!(controller.dequeue(), None);
}

#[test]
fn queue_holds_256_and_no_more() {
    let mut controller = InterruptController::new();
    for n in 0..256u16 {
        assert!(controller.enqueue(n));
    }
    assert!(!controller.enqueue(999));
    assert_eq!(controller.len(), 256);
    assert_eq!(controller.dequeue(), Some(0));
    assert!(controller.enqueue(999));
    assert_eq!(controller.len(), 256);
}

#[test]
fn queueing_flag_and_clear() {
    let mut controller = InterruptController::new();
    controller.enqueue(1);
    controller.set_queueing(true);
    assert!(controller.queueing());
    assert_eq!(controller.len(), 1);
    controller.clear();
    assert!(!controller.queueing());
    assert_eq!(controller.len(), 0);
}

#[test]
fn registry_numbers_devices_in_order() {
    let first = Device { hardware_id: 0x0001_0002, version: 3, manufacturer_id: 0x0004_0005 };
    let second = Device { hardware_id: 6, version: 7, manufacturer_id: 8 };
    let third = Device { hardware_id: 9, version: 10, manufacturer_id: 11 };
    let mut registry = HardwareRegistry::new();
    assert_eq!(registry.count(), 0);
    assert_eq!(registry.get(0), None);
    assert_eq!(registry.attach(first), Some(0));
    assert_eq!(registry.attach(second), Some(1));
    assert_eq!(registry.attach(third), Some(2));
    assert_eq!(registry.count(), 3);
    assert_eq!(registry.get(1), Some(second));
    assert_eq!(registry.detach(1), Some(second));
    assert_eq!(registry.get(1), Some(third));
    assert_eq!(registry.get(2), None);
    assert_eq!(registry.detach(2), None);
    assert_eq!(registry.count(), 2);
}

#[test]
fn shape_leaves_the_processor_alone() {
    let mut cpu = VCPU16::new();
    cpu.set_memory(5, 6);
    cpu.trigger(7);
    cpu.shape();
    assert_eq!(cpu.get_memory(5), 6);
    assert_eq!(cpu.queued_interrupts(), 1);
}
