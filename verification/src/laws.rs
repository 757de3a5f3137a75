//! The properties this library stands on, each stated over the mock
//! kernel's model and proved from the contracts of the functions it speaks
//! of.
use vstd::prelude::*;

use crate::callbacks::{ArgumentConverter, Callback, Subscription};
use crate::echo::{EchoHandler, RawArguments};
use crate::kernel::{buffer_of, is_allow_trap, registration_of, Trap};
use crate::NOOP_TRAMPOLINE;

verus! {

/// An allow followed at once by a command on the same descriptor: at the
/// command trap the kernel's buffer for that descriptor is exactly the
/// bytes the allow was given.
pub proof fn lemma_allow_then_command_sees_buffer(
    log0: Seq<Trap>,
    log1: Seq<Trap>,
    log2: Seq<Trap>,
    major: usize,
    minor: usize,
    bytes: Seq<u8>,
    arg1: usize,
    arg2: usize,
)
    requires
        log1.len() == log0.len() + 1,
        log1.drop_last() == log0,
        is_allow_trap(log1.last(), major, minor, bytes),
        log2 == log1.push(Trap::Command { major, minor, arg1, arg2 }),
    ensures
        buffer_of(log2, major, minor) == Some(bytes),
        buffer_of(log1, major, minor) == Some(bytes),
{
    crate::kernel::lemma_buffer_push(log1, Trap::Command { major, minor, arg1, arg2 }, major, minor);
}

/// Registration is last-write-wins: after a subscribe trap for a
/// descriptor, the kernel-visible registration there is that trap's pair,
/// whatever stood registered before.
pub proof fn lemma_last_write_wins(
    log: Seq<Trap>,
    major: usize,
    minor: usize,
    trampoline: usize,
    userdata: usize,
)
    ensures
        registration_of(log.push(Trap::Subscribe { major, minor, trampoline, userdata }), major, minor)
            == Some((trampoline, userdata)),
{
    crate::kernel::lemma_registration_push(
        log,
        Trap::Subscribe { major, minor, trampoline, userdata },
        major,
        minor,
    );
}

/// A second handle subscribed on a descriptor while the first is still
/// alive orphans the first: the kernel-visible registration is the second
/// handle's pair, deliveries are current for the second handle alone, and
/// the first's later unsubscribe is what will finally clear the
/// registration.
pub proof fn lemma_resubscribe_orphans_first<A, CB: Callback<A>>(
    first: Subscription<A, CB>,
    second: Subscription<A, CB>,
    log: Seq<Trap>,
)
    requires
        (first.trampoline, first.userdata) != (second.trampoline, second.userdata),
    ensures
        second.is_current(
            log.push(
                Trap::Subscribe {
                    major: CB::spec_driver_number(),
                    minor: CB::spec_subscribe_number(),
                    trampoline: second.trampoline,
                    userdata: second.userdata,
                },
            ),
        ),
        !first.is_current(
            log.push(
                Trap::Subscribe {
                    major: CB::spec_driver_number(),
                    minor: CB::spec_subscribe_number(),
                    trampoline: second.trampoline,
                    userdata: second.userdata,
                },
            ),
        ),
{
    lemma_last_write_wins(
        log,
        CB::spec_driver_number(),
        CB::spec_subscribe_number(),
        second.trampoline,
        second.userdata,
    );
}

/// After an unsubscribe trap a live handle is never reached again: the
/// kernel's registration for the descriptor is the no-op pair, which no
/// well-formed handle carries, so no delivery is current for it.
pub proof fn lemma_unsubscribed_blocks_delivery<A, CB: Callback<A>>(
    sub: Subscription<A, CB>,
    log: Seq<Trap>,
)
    requires
        sub.wf(),
        registration_of(log, CB::spec_driver_number(), CB::spec_subscribe_number()) == Some(
            (NOOP_TRAMPOLINE, 0usize),
        ),
    ensures
        !sub.is_current(log),
{
}

/// Converted deliveries land in delivery order: two in sequence to an
/// echoing handler leave its record extended by exactly their two argument
/// triples, the earlier one first.
pub proof fn lemma_echo_in_order<const MAJOR: usize, const MINOR: usize>(
    first: (usize, usize, usize),
    second: (usize, usize, usize),
    h0: EchoHandler<MAJOR, MINOR>,
    h1: EchoHandler<MAJOR, MINOR>,
    h2: EchoHandler<MAJOR, MINOR>,
)
    requires
        RawArguments::convert_post(first.0, first.1, first.2, h0, h1),
        RawArguments::convert_post(second.0, second.1, second.2, h1, h2),
    ensures
        h2.calls@ == h0.calls@ + seq![first, second],
{
    assert(h2.calls@ =~= h0.calls@ + seq![first, second]);
}

/// Round trip through the argument converter: one converted delivery to an
/// echoing handler reproduces the three raw argument words bit for bit at
/// the end of its record, and touches nothing recorded before.
pub proof fn lemma_echo_round_trip<const MAJOR: usize, const MINOR: usize>(
    arg0: usize,
    arg1: usize,
    arg2: usize,
    pre: EchoHandler<MAJOR, MINOR>,
    post: EchoHandler<MAJOR, MINOR>,
)
    requires
        RawArguments::convert_post(arg0, arg1, arg2, pre, post),
    ensures
        post.calls@.len() == pre.calls@.len() + 1,
        post.calls@.last() == (arg0, arg1, arg2),
        post.calls@.drop_last() == pre.calls@,
{
    assert(post.calls@.drop_last() =~= pre.calls@);
}

} // verus!
