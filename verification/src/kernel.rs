//! The mock kernel: the test double that stands in for the hardware trap
//! instruction. Off target there is no real kernel, so the gateway records
//! every trap it is asked to perform in a log, and everything the kernel
//! could observe — the current callback registration for a descriptor, the
//! buffer shared for a descriptor — is a function of that log alone. In
//! particular, re-registering a descriptor replaces the prior registration:
//! the most recent subscribe trap wins.
use vstd::prelude::*;

verus! {

/// One kernel entry made through the trap gateway, as the mock kernel
/// records it: the operation and the argument words it carried. For an
/// allow trap the record keeps the bytes the kernel was given, since the
/// kernel may read them later.
pub enum Trap {
    Yield,
    Subscribe { major: usize, minor: usize, trampoline: usize, userdata: usize },
    Command { major: usize, minor: usize, arg1: usize, arg2: usize },
    Allow { major: usize, minor: usize, data: Vec<u8> },
    Memop { op: u32, arg: usize },
}

/// Holds when `t` is an allow trap for `(major, minor)` carrying exactly
/// the bytes `data`.
pub open spec fn is_allow_trap(t: Trap, major: usize, minor: usize, data: Seq<u8>) -> bool {
    &&& t matches Trap::Allow { major: m, minor: n, data: d }
    &&& m == major
    &&& n == minor
    &&& d@ == data
}

/// The kernel-visible registration for a descriptor: the trampoline word
/// and opaque user-data word of the most recent subscribe trap for it, or
/// `None` if the descriptor was never subscribed.
pub open spec fn registration_of(log: Seq<Trap>, major: usize, minor: usize) -> Option<(
    usize,
    usize,
)>
    decreases log.len(),
{
    if log.len() == 0 {
        None
    } else {
        match log.last() {
            Trap::Subscribe { major: m, minor: n, trampoline, userdata } => {
                if m == major && n == minor {
                    Some((trampoline, userdata))
                } else {
                    registration_of(log.drop_last(), major, minor)
                }
            },
            _ => registration_of(log.drop_last(), major, minor),
        }
    }
}

/// The kernel-visible buffer for a descriptor: the bytes of the most recent
/// allow trap for it, or `None` if the descriptor was never allowed.
pub open spec fn buffer_of(log: Seq<Trap>, major: usize, minor: usize) -> Option<Seq<u8>>
    decreases log.len(),
{
    if log.len() == 0 {
        None
    } else {
        match log.last() {
            Trap::Allow { major: m, minor: n, data } => {
                if m == major && n == minor {
                    Some(data@)
                } else {
                    buffer_of(log.drop_last(), major, minor)
                }
            },
            _ => buffer_of(log.drop_last(), major, minor),
        }
    }
}

/// Appending a trap changes the registration of a descriptor exactly when
/// the trap is a subscribe for that descriptor, and then to that trap's
/// trampoline and user-data pair.
pub proof fn lemma_registration_push(log: Seq<Trap>, t: Trap, major: usize, minor: usize)
    ensures
        registration_of(log.push(t), major, minor) == (match t {
            Trap::Subscribe { major: m, minor: n, trampoline, userdata } => {
                if m == major && n == minor {
                    Some((trampoline, userdata))
                } else {
                    registration_of(log, major, minor)
                }
            },
            _ => registration_of(log, major, minor),
        }),
{
    let l2 = log.push(t);
    assert(l2.last() == t);
    assert(l2.drop_last() =~= log);
}

/// Appending a trap changes the buffer of a descriptor exactly when the
/// trap is an allow for that descriptor, and then to that trap's bytes.
pub proof fn lemma_buffer_push(log: Seq<Trap>, t: Trap, major: usize, minor: usize)
    ensures
        buffer_of(log.push(t), major, minor) == (match t {
            Trap::Allow { major: m, minor: n, data } => {
                if m == major && n == minor {
                    Some(data@)
                } else {
                    buffer_of(log, major, minor)
                }
            },
            _ => buffer_of(log, major, minor),
        }),
{
    let l2 = log.push(t);
    assert(l2.last() == t);
    assert(l2.drop_last() =~= log);
}

/// The mock kernel's whole state: the log of traps performed so far, and a
/// counter handing out fresh nonzero words that stand in for the trampoline
/// and handler addresses a real process would register.
pub struct Kernel {
    pub log: Vec<Trap>,
    pub next_token: usize,
}

impl Kernel {
    /// The counter stays past zero, so every token it hands out differs
    /// from the designated no-op trampoline word.
    pub open spec fn wf(self) -> bool {
        self.next_token >= 1
    }

    /// A kernel that has performed no traps yet.
    pub fn new() -> (k: Kernel)
        ensures
            k.wf(),
            k.log@ =~= Seq::<Trap>::empty(),
            k.next_token == 1,
    {
        Kernel { log: Vec::new(), next_token: 1 }
    }

    /// Hands out the next address-like word; never zero, never repeated.
    pub fn fresh_token(&mut self) -> (t: usize)
        requires
            old(self).wf(),
            old(self).next_token < usize::MAX,
        ensures
            final(self).wf(),
            t == old(self).next_token,
            t >= 1,
            final(self).next_token == old(self).next_token + 1,
            final(self).log == old(self).log,
    {
        let t = self.next_token;
        self.next_token = self.next_token + 1;
        t
    }

    /// How many traps have been performed.
    pub fn trap_count(&self) -> (n: usize)
        ensures
            n == self.log@.len(),
    {
        self.log.len()
    }

    /// The registration the kernel currently holds for a descriptor, read
    /// back from the log: the most recent subscribe trap for it wins.
    pub fn current_registration(&self, major: usize, minor: usize) -> (r: Option<(usize, usize)>)
        ensures
            r == registration_of(self.log@, major, minor),
    {
        let mut i: usize = self.log.len();
        proof {
            assert(self.log@.take(i as int) =~= self.log@);
        }
        while i > 0
            invariant
                i <= self.log@.len(),
                registration_of(self.log@, major, minor) == registration_of(
                    self.log@.take(i as int),
                    major,
                    minor,
                ),
            decreases i,
        {
            i = i - 1;
            proof {
                assert(self.log@.take(i + 1 as int).last() == self.log@[i as int]);
                assert(self.log@.take(i + 1 as int).drop_last() =~= self.log@.take(i as int));
            }
            match &self.log[i] {
                Trap::Subscribe { major: m, minor: n, trampoline, userdata } => {
                    if *m == major && *n == minor {
                        return Some((*trampoline, *userdata));
                    }
                },
                _ => {},
            }
        }
        proof {
            assert(self.log@.take(0) =~= Seq::<Trap>::empty());
        }
        None
    }

    /// The buffer the kernel currently holds for a descriptor, copied out
    /// of the log: the most recent allow trap for it wins.
    pub fn shared_buffer(&self, major: usize, minor: usize) -> (r: Option<Vec<u8>>)
        ensures
            match r {
                Some(b) => buffer_of(self.log@, major, minor) == Some(b@),
                None => buffer_of(self.log@, major, minor) is None,
            },
    {
        let mut i: usize = self.log.len();
        proof {
            assert(self.log@.take(i as int) =~= self.log@);
        }
        while i > 0
            invariant
                i <= self.log@.len(),
                buffer_of(self.log@, major, minor) == buffer_of(self.log@.take(i as int), major, minor),
            decreases i,
        {
            i = i - 1;
            proof {
                assert(self.log@.take(i + 1 as int).last() == self.log@[i as int]);
                assert(self.log@.take(i + 1 as int).drop_last() =~= self.log@.take(i as int));
            }
            match &self.log[i] {
                Trap::Allow { major: m, minor: n, data } => {
                    if *m == major && *n == minor {
                        return Some(copy_bytes(data.as_slice()));
                    }
                },
                _ => {},
            }
        }
        proof {
            assert(self.log@.take(0) =~= Seq::<Trap>::empty());
        }
        None
    }
}

/// A fresh byte-for-byte copy of a slice.
pub fn copy_bytes(v: &[u8]) -> (r: Vec<u8>)
    ensures
        r@ == v@,
{
    let mut r: Vec<u8> = Vec::new();
    let mut i: usize = 0;
    while i < v.len()
        invariant
            i <= v@.len(),
            r@ =~= v@.take(i as int),
        decreases v@.len() - i,
    {
        r.push(v[i]);
        i = i + 1;
    }
    proof {
        assert(v@.take(v@.len() as int) =~= v@);
    }
    r
}

} // verus!
