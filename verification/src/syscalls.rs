//! The trap gateway: the five kernel entry points, and the blocking yield
//! loop built on the first of them. On target each of these is a single
//! trap instruction with a fixed register layout — four argument registers
//! in, one result register out — and an opaque, non-reorderable operation:
//! the kernel may read or write process memory as a side effect, and
//! callback injection on the trap's return path may leave every
//! caller-saved register, the instruction-return-address register above
//! all, in an arbitrary state, even where the call is inlined. Treating
//! each gateway function as an ordinary, never-assumed-away call is
//! exactly that conservative contract. Here each one performs the
//! equivalent operation against the mock kernel, and its contract states
//! what the kernel is handed. A trap's signed result word is opaque to
//! this layer; the mock kernel answers every trap with success.
use vstd::prelude::*;

use crate::kernel::{buffer_of, is_allow_trap, lemma_buffer_push, lemma_registration_push,
    registration_of, Kernel, Trap};
use crate::NOOP_TRAMPOLINE;

verus! {

/// One yield trap: suspends the process so the kernel may run pending
/// callbacks before control returns. The mock kernel only records the
/// suspension; deliveries are simulated separately, so neither the
/// registrations nor the buffers the kernel holds change here.
pub fn yieldk(kern: &mut Kernel)
    ensures
        final(kern).log@ == old(kern).log@.push(Trap::Yield),
        final(kern).next_token == old(kern).next_token,
        forall|m: usize, n: usize|
            registration_of(final(kern).log@, m, n) == registration_of(old(kern).log@, m, n),
        forall|m: usize, n: usize|
            buffer_of(final(kern).log@, m, n) == buffer_of(old(kern).log@, m, n),
{
    kern.log.push(Trap::Yield);
    proof {
        assert forall|m: usize, n: usize|
            registration_of(kern.log@, m, n) == registration_of(old(kern).log@, m, n) by {
            lemma_registration_push(old(kern).log@, Trap::Yield, m, n);
        }
        assert forall|m: usize, n: usize|
            buffer_of(kern.log@, m, n) == buffer_of(old(kern).log@, m, n) by {
            lemma_buffer_push(old(kern).log@, Trap::Yield, m, n);
        }
    }
}

/// Yields until the predicate holds of the kernel, or until `max_yields`
/// yield traps have gone by without it coming true. This is the only
/// blocking primitive: the predicate is evaluated first, so a predicate
/// that already holds costs no trap at all, and each further yield is paid
/// for by one false evaluation. On target the loop is unbounded and a
/// predicate that can never come true simply never returns; here every
/// loop must end, so the caller sets the bound, and the result says whether
/// the predicate was seen true.
pub fn yieldk_for<F: Fn(&Kernel) -> bool>(
    kern: &mut Kernel,
    cond: F,
    max_yields: usize,
) -> (satisfied: bool)
    requires
        forall|k: Kernel| call_requires(cond, (&k,)),
    ensures
        satisfied ==> call_ensures(cond, (&*final(kern),), true),
        !satisfied ==> call_ensures(cond, (&*final(kern),), false) && final(kern).log@.len() == old(
            kern,
        ).log@.len() + max_yields,
        old(kern).log@.is_prefix_of(final(kern).log@),
        final(kern).log@.len() <= old(kern).log@.len() + max_yields,
        forall|i: int|
            old(kern).log@.len() <= i < final(kern).log@.len() ==> final(kern).log@[i]
                == Trap::Yield,
        final(kern).next_token == old(kern).next_token,
        forall|m: usize, n: usize|
            registration_of(final(kern).log@, m, n) == registration_of(old(kern).log@, m, n),
        forall|m: usize, n: usize|
            buffer_of(final(kern).log@, m, n) == buffer_of(old(kern).log@, m, n),
        (forall|b: bool| call_ensures(cond, (&*old(kern),), b) ==> b) ==> *final(kern) == *old(
            kern,
        ) && satisfied,
{
    let mut satisfied = cond(&*kern);
    let mut budget: usize = max_yields;
    while !satisfied && budget > 0
        invariant
            forall|k: Kernel| call_requires(cond, (&k,)),
            budget <= max_yields,
            old(kern).log@.is_prefix_of(kern.log@),
            kern.log@.len() == old(kern).log@.len() + max_yields - budget,
            forall|i: int|
                old(kern).log@.len() <= i < kern.log@.len() ==> kern.log@[i] == Trap::Yield,
            kern.next_token == old(kern).next_token,
            forall|m: usize, n: usize|
                registration_of(kern.log@, m, n) == registration_of(old(kern).log@, m, n),
            forall|m: usize, n: usize|
                buffer_of(kern.log@, m, n) == buffer_of(old(kern).log@, m, n),
            satisfied ==> call_ensures(cond, (&*kern,), true),
            !satisfied ==> call_ensures(cond, (&*kern,), false),
            (forall|b: bool| call_ensures(cond, (&*old(kern),), b) ==> b) ==> (*kern == *old(kern)
                && satisfied),
        decreases budget,
    {
        yieldk(kern);
        budget = budget - 1;
        proof {
            assert(old(kern).log@.is_prefix_of(kern.log@));
        }
        satisfied = cond(&*kern);
    }
    satisfied
}

/// One allow trap: shares a byte buffer with the kernel under the given
/// descriptor. The kernel is handed exactly the buffer's bytes; what it
/// already held for other descriptors, and every registration, is
/// untouched.
pub fn allow(kern: &mut Kernel, major: usize, minor: usize, slice: &[u8]) -> (r: isize)
    ensures
        r == 0,
        final(kern).log@.len() == old(kern).log@.len() + 1,
        final(kern).log@.drop_last() == old(kern).log@,
        is_allow_trap(final(kern).log@.last(), major, minor, slice@),
        buffer_of(final(kern).log@, major, minor) == Some(slice@),
        forall|m: usize, n: usize|
            !(m == major && n == minor) ==> buffer_of(final(kern).log@, m, n) == buffer_of(
                old(kern).log@,
                m,
                n,
            ),
        forall|m: usize, n: usize|
            registration_of(final(kern).log@, m, n) == registration_of(old(kern).log@, m, n),
        final(kern).next_token == old(kern).next_token,
{
    let data = crate::kernel::copy_bytes(slice);
    let t = Trap::Allow { major, minor, data };
    kern.log.push(t);
    proof {
        assert(kern.log@.drop_last() =~= old(kern).log@);
        assert forall|m: usize, n: usize|
            registration_of(kern.log@, m, n) == registration_of(old(kern).log@, m, n) by {
            lemma_registration_push(old(kern).log@, t, m, n);
        }
        assert forall|m: usize, n: usize| !(m == major && n == minor) implies buffer_of(
            kern.log@,
            m,
            n,
        ) == buffer_of(old(kern).log@, m, n) by {
            lemma_buffer_push(old(kern).log@, t, m, n);
        }
        lemma_buffer_push(old(kern).log@, t, major, minor);
    }
    0
}

/// One allow trap for a buffer of two-byte units: the kernel sees the same
/// descriptor space as `allow`, with each unit split into its low byte
/// followed by its high byte, twice as many bytes as units.
pub fn allow16(kern: &mut Kernel, major: usize, minor: usize, slice: &[u16]) -> (r: isize)
    ensures
        r == 0,
        final(kern).log@.len() == old(kern).log@.len() + 1,
        final(kern).log@.drop_last() == old(kern).log@,
        is_allow_trap(final(kern).log@.last(), major, minor, bytes_of_units(slice@)),
        buffer_of(final(kern).log@, major, minor) == Some(bytes_of_units(slice@)),
        forall|m: usize, n: usize|
            !(m == major && n == minor) ==> buffer_of(final(kern).log@, m, n) == buffer_of(
                old(kern).log@,
                m,
                n,
            ),
        forall|m: usize, n: usize|
            registration_of(final(kern).log@, m, n) == registration_of(old(kern).log@, m, n),
        final(kern).next_token == old(kern).next_token,
{
    let bytes = units_to_bytes(slice);
    allow(kern, major, minor, bytes.as_slice())
}

/// The bytes the kernel sees for a buffer of two-byte units: each unit in
/// order, low byte first.
pub open spec fn bytes_of_units(units: Seq<u16>) -> Seq<u8> {
    Seq::new(
        2 * units.len(),
        |i: int|
            if i % 2 == 0 {
                (units[i / 2] & 0xff) as u8
            } else {
                (units[i / 2] >> 8) as u8
            },
    )
}

/// Lays a buffer of two-byte units out as bytes, low byte of each unit
/// first.
pub fn units_to_bytes(units: &[u16]) -> (r: Vec<u8>)
    ensures
        r@ == bytes_of_units(units@),
{
    let mut r: Vec<u8> = Vec::new();
    let mut i: usize = 0;
    while i < units.len()
        invariant
            i <= units@.len(),
            r@.len() == 2 * i,
            r@ =~= bytes_of_units(units@).take(2 * i as int),
        decreases units@.len() - i,
    {
        let w = units[i];
        let lo: u8 = (w & 0xff) as u8;
        let hi: u8 = (w >> 8) as u8;
        proof {
            assert(w & 0xff < 256) by (bit_vector);
            assert(w >> 8 < 256) by (bit_vector);
        }
        r.push(lo);
        r.push(hi);
        i = i + 1;
        proof {
            assert(r@ =~= bytes_of_units(units@).take(2 * i as int));
        }
    }
    proof {
        assert(bytes_of_units(units@).take(2 * units@.len() as int) =~= bytes_of_units(units@));
    }
    r
}

/// One subscribe trap: registers a trampoline word and an opaque user-data
/// word as the handler for the descriptor. The kernel's registration for
/// that descriptor becomes exactly this pair — re-registering replaces what
/// was there — and nothing else the kernel holds changes.
pub fn subscribe(
    kern: &mut Kernel,
    major: usize,
    minor: usize,
    trampoline: usize,
    userdata: usize,
) -> (r: isize)
    ensures
        r == 0,
        final(kern).log@ == old(kern).log@.push(
            Trap::Subscribe { major, minor, trampoline, userdata },
        ),
        registration_of(final(kern).log@, major, minor) == Some((trampoline, userdata)),
        forall|m: usize, n: usize|
            !(m == major && n == minor) ==> registration_of(final(kern).log@, m, n)
                == registration_of(old(kern).log@, m, n),
        forall|m: usize, n: usize|
            buffer_of(final(kern).log@, m, n) == buffer_of(old(kern).log@, m, n),
        final(kern).next_token == old(kern).next_token,
{
    let t = Trap::Subscribe { major, minor, trampoline, userdata };
    kern.log.push(t);
    proof {
        lemma_registration_push(old(kern).log@, t, major, minor);
        assert forall|m: usize, n: usize| !(m == major && n == minor) implies registration_of(
            kern.log@,
            m,
            n,
        ) == registration_of(old(kern).log@, m, n) by {
            lemma_registration_push(old(kern).log@, t, m, n);
        }
        assert forall|m: usize, n: usize|
            buffer_of(kern.log@, m, n) == buffer_of(old(kern).log@, m, n) by {
            lemma_buffer_push(old(kern).log@, t, m, n);
        }
    }
    0
}

/// Clears the registration for a descriptor: one subscribe trap with the
/// designated no-op trampoline and zero user-data, after which no handler
/// is attached there.
pub fn unsubscribe(kern: &mut Kernel, major: usize, minor: usize) -> (r: isize)
    ensures
        r == 0,
        final(kern).log@ == old(kern).log@.push(
            Trap::Subscribe { major, minor, trampoline: NOOP_TRAMPOLINE, userdata: 0 },
        ),
        registration_of(final(kern).log@, major, minor) == Some((NOOP_TRAMPOLINE, 0usize)),
        forall|m: usize, n: usize|
            !(m == major && n == minor) ==> registration_of(final(kern).log@, m, n)
                == registration_of(old(kern).log@, m, n),
        forall|m: usize, n: usize|
            buffer_of(final(kern).log@, m, n) == buffer_of(old(kern).log@, m, n),
        final(kern).next_token == old(kern).next_token,
{
    subscribe(kern, major, minor, NOOP_TRAMPOLINE, 0)
}

/// One command trap: fires a synchronous driver operation with two argument
/// words. The kernel observes, for the command's descriptor, whatever
/// buffer stands shared there; it changes nothing this layer can see.
pub fn command(kern: &mut Kernel, major: usize, minor: usize, arg1: usize, arg2: usize) -> (r:
    isize)
    ensures
        r == 0,
        final(kern).log@ == old(kern).log@.push(Trap::Command { major, minor, arg1, arg2 }),
        forall|m: usize, n: usize|
            registration_of(final(kern).log@, m, n) == registration_of(old(kern).log@, m, n),
        forall|m: usize, n: usize|
            buffer_of(final(kern).log@, m, n) == buffer_of(old(kern).log@, m, n),
        final(kern).next_token == old(kern).next_token,
{
    let t = Trap::Command { major, minor, arg1, arg2 };
    kern.log.push(t);
    proof {
        assert forall|m: usize, n: usize|
            registration_of(kern.log@, m, n) == registration_of(old(kern).log@, m, n) by {
            lemma_registration_push(old(kern).log@, t, m, n);
        }
        assert forall|m: usize, n: usize|
            buffer_of(kern.log@, m, n) == buffer_of(old(kern).log@, m, n) by {
            lemma_buffer_push(old(kern).log@, t, m, n);
        }
    }
    0
}

/// One memop trap: queries or mutates the process memory layout. Like
/// command, it leaves every registration and buffer as it found them.
pub fn memop(kern: &mut Kernel, major: u32, arg1: usize) -> (r: isize)
    ensures
        r == 0,
        final(kern).log@ == old(kern).log@.push(Trap::Memop { op: major, arg: arg1 }),
        forall|m: usize, n: usize|
            registration_of(final(kern).log@, m, n) == registration_of(old(kern).log@, m, n),
        forall|m: usize, n: usize|
            buffer_of(final(kern).log@, m, n) == buffer_of(old(kern).log@, m, n),
        final(kern).next_token == old(kern).next_token,
{
    let t = Trap::Memop { op: major, arg: arg1 };
    kern.log.push(t);
    proof {
        assert forall|m: usize, n: usize|
            registration_of(kern.log@, m, n) == registration_of(old(kern).log@, m, n) by {
            lemma_registration_push(old(kern).log@, t, m, n);
        }
        assert forall|m: usize, n: usize|
            buffer_of(kern.log@, m, n) == buffer_of(old(kern).log@, m, n) by {
            lemma_buffer_push(old(kern).log@, t, m, n);
        }
    }
    0
}

} // verus!
