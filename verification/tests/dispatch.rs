use syscore::callbacks::subscribe_new;
use syscore::echo::{EchoHandler, RawArguments};
use syscore::kernel::{Kernel, Trap};
use syscore::NOOP_TRAMPOLINE;

type Handler = EchoHandler<7, 1>;

#[test]
fn n_deliveries_give_n_typed_invocations_in_order() {
    let mut k = Kernel::new();
    let mut sub = subscribe_new::<RawArguments, Handler>(&mut k, EchoHandler::new());
    assert!(sub.deliver(&k, 1, 2, 3));
    assert!(sub.deliver(&k, 4, 5, 6));
    assert!(sub.deliver(&k, 7, 8, 9));
    assert_eq!(sub.callback.calls, vec![(1, 2, 3), (4, 5, 6), (7, 8, 9)]);
}

#[test]
fn converter_round_trip_reproduces_the_words() {
    let mut k = Kernel::new();
    let mut sub = subscribe_new::<RawArguments, Handler>(&mut k, EchoHandler::new());
    assert!(sub.deliver(&k, 0xdead, 0xbeef, 0x1234));
    assert_eq!(sub.callback.calls, vec![(0xdead, 0xbeef, 0x1234)]);
}

#[test]
fn unsubscribe_issues_exactly_one_noop_trap() {
    let mut k = Kernel::new();
    let sub = subscribe_new::<RawArguments, Handler>(&mut k, EchoHandler::new());
    let handler = sub.unsubscribe(&mut k);
    assert_eq!(handler.calls, vec![]);
    let noop_traps = k
        .log
        .iter()
        .filter(|t| {
            matches!(
                t,
                Trap::Subscribe { major: 7, minor: 1, trampoline: NOOP_TRAMPOLINE, userdata: 0 }
            )
        })
        .count();
    assert_eq!(noop_traps, 1);
    assert_eq!(k.current_registration(7, 1), Some((NOOP_TRAMPOLINE, 0)));
}

#[test]
fn no_delivery_reaches_a_handler_after_unsubscribe() {
    let mut k = Kernel::new();
    let first = subscribe_new::<RawArguments, Handler>(&mut k, EchoHandler::new());
    let mut second = subscribe_new::<RawArguments, Handler>(&mut k, EchoHandler::new());
    // The first handle's destruction clears the descriptor's registration,
    // so a later attempted delivery reaches no handler at all.
    first.unsubscribe(&mut k);
    assert!(!second.deliver(&k, 1, 1, 1));
    assert_eq!(second.callback.calls, vec![]);
    assert_eq!(k.current_registration(7, 1), Some((NOOP_TRAMPOLINE, 0)));
}

#[test]
fn second_subscription_on_same_descriptor_wins() {
    let mut k = Kernel::new();
    let mut first = subscribe_new::<RawArguments, Handler>(&mut k, EchoHandler::new());
    let mut second = subscribe_new::<RawArguments, Handler>(&mut k, EchoHandler::new());
    // Kernel-visible registration is last-write-wins: deliveries reach the
    // second handle, and the orphaned first handle sees none of them.
    assert_eq!(
        k.current_registration(7, 1),
        Some((second.trampoline, second.userdata))
    );
    assert!(!first.deliver(&k, 1, 2, 3));
    assert!(second.deliver(&k, 1, 2, 3));
    assert_eq!(first.callback.calls, vec![]);
    assert_eq!(second.callback.calls, vec![(1, 2, 3)]);
}
