//! Stamping a validated sheep with trustworthy timestamps at the ingestion
//! edge: `occurred_at` (when it happened) and `received_at` (when we received
//! it). Pure: the caller supplies `now`, so the clock stays at the edge.

use vstd::prelude::*;

use crate::sheep::Sheep;

verus! {

/// A validated sheep carrying two guaranteed, non-optional instants, each in
/// nanoseconds since the Unix epoch.
///
/// `occurred_at` is the client's CloudEvents `time`, or `received_at` when the
/// client sent none. `received_at` comes from our own clock and never from the
/// wire, so a client cannot forge or backdate it.
#[derive(Debug, PartialEq)]
pub struct AcceptedSheep {
    pub sheep: Sheep,
    pub occurred_at: i128,
    pub received_at: i128,
}

/// Stamp a validated sheep at the ingestion edge.
pub fn stamp(sheep: Sheep, now: i128) -> (r: AcceptedSheep)
    ensures
        r.sheep == sheep,
        r.received_at == now,
        r.occurred_at == match sheep.time {
            Some(t) => t,
            None => now,
        },
{
    let occurred_at = match sheep.time {
        Some(t) => t,
        None => now,
    };
    AcceptedSheep { sheep, occurred_at, received_at: now }
}

} // verus!
