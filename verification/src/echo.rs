//! A concrete handler for exercising the dispatch layer: it records every
//! typed invocation it receives, in delivery order, argument words
//! unchanged. Its descriptor is fixed at the type level, as a real
//! driver binding's would be.
use vstd::prelude::*;

use crate::callbacks::{ArgumentConverter, Callback};

verus! {

/// A handler that keeps each delivery's three argument words, in the order
/// the deliveries came.
pub struct EchoHandler<const MAJOR: usize, const MINOR: usize> {
    pub calls: Vec<(usize, usize, usize)>,
}

impl<const MAJOR: usize, const MINOR: usize> EchoHandler<MAJOR, MINOR> {
    /// A handler that has seen no deliveries yet.
    pub fn new() -> (h: EchoHandler<MAJOR, MINOR>)
        ensures
            h.calls@ =~= Seq::<(usize, usize, usize)>::empty(),
    {
        EchoHandler { calls: Vec::new() }
    }
}

/// The argument shape that passes the three raw words through unchanged.
pub struct RawArguments;

impl<const MAJOR: usize, const MINOR: usize> Callback<RawArguments> for EchoHandler<
    MAJOR,
    MINOR,
> {
    open spec fn spec_driver_number() -> usize {
        MAJOR
    }

    open spec fn spec_subscribe_number() -> usize {
        MINOR
    }

    fn driver_number() -> usize {
        MAJOR
    }

    fn subscribe_number() -> usize {
        MINOR
    }
}

impl<const MAJOR: usize, const MINOR: usize> ArgumentConverter<EchoHandler<MAJOR, MINOR>> for RawArguments {
    open spec fn convert_post(
        arg0: usize,
        arg1: usize,
        arg2: usize,
        pre: EchoHandler<MAJOR, MINOR>,
        post: EchoHandler<MAJOR, MINOR>,
    ) -> bool {
        post.calls@ == pre.calls@.push((arg0, arg1, arg2))
    }

    fn convert(
        arg0: usize,
        arg1: usize,
        arg2: usize,
        callback: &mut EchoHandler<MAJOR, MINOR>,
    ) {
        callback.calls.push((arg0, arg1, arg2));
    }
}

} // verus!
