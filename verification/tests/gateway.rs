use syscore::kernel::{Kernel, Trap};
use syscore::syscalls::{allow16, command, memop, subscribe, unsubscribe, yieldk};
use syscore::NOOP_TRAMPOLINE;

#[test]
fn allow_then_command_observes_buffer() {
    let mut k = Kernel::new();
    let buf: [u8; 4] = [10, 20, 30, 40];
    let r = syscore::syscalls::allow(&mut k, 3, 7, &buf);
    assert_eq!(r, 0);
    let r = command(&mut k, 3, 7, 1, 2);
    assert_eq!(r, 0);
    // The kernel observes, for the command's descriptor, exactly the bytes
    // the allow was given.
    assert_eq!(k.shared_buffer(3, 7), Some(vec![10, 20, 30, 40]));
    assert_eq!(k.trap_count(), 2);
}

#[test]
fn allow_replaces_buffer_for_its_descriptor_only() {
    let mut k = Kernel::new();
    syscore::syscalls::allow(&mut k, 1, 1, &[1, 2]);
    syscore::syscalls::allow(&mut k, 9, 9, &[9]);
    syscore::syscalls::allow(&mut k, 1, 1, &[3, 4, 5]);
    assert_eq!(k.shared_buffer(1, 1), Some(vec![3, 4, 5]));
    assert_eq!(k.shared_buffer(9, 9), Some(vec![9]));
    assert_eq!(k.shared_buffer(2, 2), None);
}

#[test]
fn allow16_passes_two_bytes_per_unit_low_first() {
    let mut k = Kernel::new();
    let units: [u16; 2] = [0x1234, 0xabcd];
    let r = allow16(&mut k, 4, 4, &units);
    assert_eq!(r, 0);
    assert_eq!(k.shared_buffer(4, 4), Some(vec![0x34, 0x12, 0xcd, 0xab]));
}

#[test]
fn subscribe_records_registration() {
    let mut k = Kernel::new();
    let r = subscribe(&mut k, 2, 5, 77, 1234);
    assert_eq!(r, 0);
    assert_eq!(k.current_registration(2, 5), Some((77, 1234)));
    assert_eq!(k.current_registration(2, 6), None);
}

#[test]
fn resubscribe_is_last_write_wins() {
    let mut k = Kernel::new();
    subscribe(&mut k, 2, 5, 77, 1234);
    subscribe(&mut k, 2, 5, 88, 5678);
    assert_eq!(k.current_registration(2, 5), Some((88, 5678)));
}

#[test]
fn unsubscribe_registers_noop_and_zero() {
    let mut k = Kernel::new();
    subscribe(&mut k, 2, 5, 77, 1234);
    let r = unsubscribe(&mut k, 2, 5);
    assert_eq!(r, 0);
    assert_eq!(k.current_registration(2, 5), Some((NOOP_TRAMPOLINE, 0)));
}

#[test]
fn command_and_memop_are_logged_verbatim() {
    let mut k = Kernel::new();
    command(&mut k, 11, 22, 33, 44);
    memop(&mut k, 6, 4096);
    assert_eq!(k.trap_count(), 2);
    match &k.log[0] {
        Trap::Command { major, minor, arg1, arg2 } => {
            assert_eq!((*major, *minor, *arg1, *arg2), (11, 22, 33, 44));
        }
        _ => panic!("expected a command trap"),
    }
    match &k.log[1] {
        Trap::Memop { op, arg } => {
            assert_eq!((*op, *arg), (6, 4096));
        }
        _ => panic!("expected a memop trap"),
    }
}

#[test]
fn yieldk_logs_one_yield() {
    let mut k = Kernel::new();
    yieldk(&mut k);
    assert_eq!(k.trap_count(), 1);
    assert!(matches!(k.log[0], Trap::Yield));
}
