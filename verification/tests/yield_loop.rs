use syscore::kernel::Kernel;
use syscore::syscalls::yieldk_for;

#[test]
fn predicate_already_true_costs_no_trap() {
    let mut k = Kernel::new();
    let satisfied = yieldk_for(&mut k, |_k: &Kernel| true, 100);
    assert!(satisfied);
    assert_eq!(k.trap_count(), 0);
}

#[test]
fn returns_as_soon_as_predicate_first_true() {
    let mut k = Kernel::new();
    // The predicate becomes true once three traps have gone by; each trap
    // of this run is one yield, so the loop pays exactly three yields: one
    // per false evaluation, none after the first true one.
    let satisfied = yieldk_for(&mut k, |k: &Kernel| k.trap_count() >= 3, 100);
    assert!(satisfied);
    assert_eq!(k.trap_count(), 3);
}

#[test]
fn never_true_predicate_spends_the_whole_budget() {
    let mut k = Kernel::new();
    let satisfied = yieldk_for(&mut k, |_k: &Kernel| false, 5);
    assert!(!satisfied);
    assert_eq!(k.trap_count(), 5);
}
