//! The type-safety layer over the kernel's untyped four-word callback
//! convention. A handler type carries two capabilities: it knows its
//! descriptor (`Callback`), and some argument shape knows how to turn three
//! raw words into one typed invocation of it (`ArgumentConverter`). A
//! `Subscription` owns such a handler for as long as the kernel may call
//! back into it; on the real machine the kernel holds the handler's raw
//! address in the user-data word, and the subscription's whole reason to
//! exist is that the registration is cleared strictly before the handler's
//! storage goes away. The mock kernel holds address-like tokens instead of
//! raw pointers, so a simulated delivery reaches the typed handler exactly
//! when the kernel's current registration still carries this handle's
//! tokens.
use core::marker::PhantomData;
use vstd::prelude::*;

use crate::kernel::{registration_of, Kernel, Trap};
use crate::syscalls::{subscribe, unsubscribe};
use crate::NOOP_TRAMPOLINE;

verus! {

/// Capability: the handler type fixes which (driver, event) descriptor it
/// is registered under; registration and delivery must name the same pair.
pub trait Callback<A>: Sized {
    /// The driver number the handler belongs to.
    spec fn spec_driver_number() -> usize;

    /// The event number within that driver.
    spec fn spec_subscribe_number() -> usize;

    fn driver_number() -> (r: usize)
        ensures
            r == Self::spec_driver_number(),
    ;

    fn subscribe_number() -> (r: usize)
        ensures
            r == Self::spec_subscribe_number(),
    ;
}

/// Capability: the argument shape fixes how three raw kernel words become
/// one typed invocation of the handler. The fourth delivered word is the
/// dispatch machinery's own (it carries the handler's address) and never
/// reaches the converter.
pub trait ArgumentConverter<CB>: Sized {
    /// How one converted invocation relates the handler before the call to
    /// the handler after it.
    spec fn convert_post(arg0: usize, arg1: usize, arg2: usize, pre: CB, post: CB) -> bool;

    fn convert(arg0: usize, arg1: usize, arg2: usize, callback: &mut CB)
        ensures
            Self::convert_post(arg0, arg1, arg2, *old(callback), *final(callback)),
    ;
}

/// The typed core of the trampoline: one untyped delivery of three raw
/// words turned into exactly one typed invocation of the handler. On the
/// real machine the trampoline first reconstructs `callback` from the
/// user-data word; here the subscription, which owns the handler, passes it
/// in directly.
pub fn dispatch<A: ArgumentConverter<CB>, CB: Callback<A>>(
    arg0: usize,
    arg1: usize,
    arg2: usize,
    callback: &mut CB,
)
    ensures
        A::convert_post(arg0, arg1, arg2, *old(callback), *final(callback)),
{
    A::convert(arg0, arg1, arg2, callback);
}

/// An owned, scope-bound kernel registration: the handler, and the
/// trampoline and user-data words the kernel was given for it. While the
/// kernel's registration for the handler's descriptor still holds exactly
/// these words, deliveries reach this handler and no other.
pub struct Subscription<A, CB: Callback<A>> {
    pub callback: CB,
    pub trampoline: usize,
    pub userdata: usize,
    pub phantom_data: PhantomData<A>,
}

impl<A, CB: Callback<A>> Subscription<A, CB> {
    /// A handle never carries the no-op trampoline word: that word is
    /// reserved for the unregistered state.
    pub open spec fn wf(self) -> bool {
        self.trampoline != NOOP_TRAMPOLINE
    }

    /// Whether the kernel's registration for this handle's descriptor is
    /// still this handle's trampoline and user-data pair — the liveness
    /// contract under which a delivery reaches this handler.
    pub open spec fn is_current(self, log: Seq<Trap>) -> bool {
        registration_of(log, CB::spec_driver_number(), CB::spec_subscribe_number()) == Some(
            (self.trampoline, self.userdata),
        )
    }
}

/// Takes ownership of a handler and registers it: one subscribe trap for
/// the handler's descriptor, carrying a fresh trampoline word and a fresh
/// user-data word that stand for the trampoline's and the handler's
/// addresses. The trap's result word is discarded, as a design limitation
/// of this layer: registration is not fallible here.
pub fn subscribe_new<A: ArgumentConverter<CB>, CB: Callback<A>>(
    kern: &mut Kernel,
    callback: CB,
) -> (s: Subscription<A, CB>)
    requires
        old(kern).wf(),
        old(kern).next_token < usize::MAX - 1,
    ensures
        final(kern).wf(),
        s.wf(),
        s.trampoline == old(kern).next_token,
        s.userdata == old(kern).next_token + 1,
        s.callback == callback,
        final(kern).log@ == old(kern).log@.push(
            Trap::Subscribe {
                major: CB::spec_driver_number(),
                minor: CB::spec_subscribe_number(),
                trampoline: s.trampoline,
                userdata: s.userdata,
            },
        ),
        s.is_current(final(kern).log@),
        forall|m: usize, n: usize|
            !(m == CB::spec_driver_number() && n == CB::spec_subscribe_number())
                ==> registration_of(final(kern).log@, m, n) == registration_of(
                old(kern).log@,
                m,
                n,
            ),
        forall|m: usize, n: usize|
            crate::kernel::buffer_of(final(kern).log@, m, n) == crate::kernel::buffer_of(
                old(kern).log@,
                m,
                n,
            ),
        final(kern).next_token == old(kern).next_token + 2,
{
    let trampoline = kern.fresh_token();
    let userdata = kern.fresh_token();
    let major = CB::driver_number();
    let minor = CB::subscribe_number();
    subscribe(kern, major, minor, trampoline, userdata);
    Subscription { callback, trampoline, userdata, phantom_data: PhantomData }
}

impl<A: ArgumentConverter<CB>, CB: Callback<A>> Subscription<A, CB> {
    /// One simulated kernel delivery of three raw words for this handle's
    /// descriptor. The typed handler is invoked, exactly once and with the
    /// converted arguments, precisely when the kernel's current
    /// registration still carries this handle's words; a handle whose
    /// registration was replaced — by a later subscribe or by an
    /// unsubscribe — is never reached.
    pub fn deliver(&mut self, kern: &Kernel, arg0: usize, arg1: usize, arg2: usize) -> (hit: bool)
        ensures
            hit == old(self).is_current(kern.log@),
            hit ==> A::convert_post(arg0, arg1, arg2, old(self).callback, final(self).callback),
            !hit ==> final(self).callback == old(self).callback,
            final(self).trampoline == old(self).trampoline,
            final(self).userdata == old(self).userdata,
    {
        let major = CB::driver_number();
        let minor = CB::subscribe_number();
        match kern.current_registration(major, minor) {
            Some((trampoline, userdata)) => {
                if trampoline == self.trampoline && userdata == self.userdata {
                    dispatch::<A, CB>(arg0, arg1, arg2, &mut self.callback);
                    true
                } else {
                    false
                }
            },
            None => false,
        }
    }

    /// Ends the registration and gives the handler back: exactly one
    /// unsubscribe trap — the no-op trampoline and zero user-data — for
    /// this handle's descriptor, issued strictly before the handler leaves
    /// this handle. This mirrors the handle's destruction order on the real
    /// machine, where the unsubscribe must precede the release of the
    /// handler's storage on every exit path.
    pub fn unsubscribe(self, kern: &mut Kernel) -> (cb: CB)
        ensures
            cb == self.callback,
            final(kern).log@ == old(kern).log@.push(
                Trap::Subscribe {
                    major: CB::spec_driver_number(),
                    minor: CB::spec_subscribe_number(),
                    trampoline: NOOP_TRAMPOLINE,
                    userdata: 0,
                },
            ),
            registration_of(
                final(kern).log@,
                CB::spec_driver_number(),
                CB::spec_subscribe_number(),
            ) == Some((NOOP_TRAMPOLINE, 0usize)),
            forall|m: usize, n: usize|
                !(m == CB::spec_driver_number() && n == CB::spec_subscribe_number())
                    ==> registration_of(final(kern).log@, m, n) == registration_of(
                    old(kern).log@,
                    m,
                    n,
                ),
            forall|m: usize, n: usize|
                crate::kernel::buffer_of(final(kern).log@, m, n) == crate::kernel::buffer_of(
                    old(kern).log@,
                    m,
                    n,
                ),
            final(kern).next_token == old(kern).next_token,
    {
        let major = CB::driver_number();
        let minor = CB::subscribe_number();
        unsubscribe(kern, major, minor);
        self.callback
    }
}

} // verus!
