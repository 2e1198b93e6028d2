//! Dining philosophers, verified.
//!
//! A ring of N forks is shared by N philosophers: seat i holds fork i on
//! its left and fork (i + 1) mod N on its right, so each fork is shared by
//! exactly two neighbouring seats. A philosopher alternates thinking
//! (emitting a message on a shared channel) with eating, for which it must
//! hold both of its forks at once. Acquisition is a non-blocking two-probe
//! protocol with full backoff: probe the left fork, probe the right fork,
//! and on anything short of both, put back whatever was taken and retry
//! later. A philosopher therefore never holds one fork while waiting on
//! the other, so a circular wait cannot persist.
//!
//! The modules model each piece as plain data so its rules can be proved:
//! the ring layout, a table recording who holds each fork, the attempt
//! state machine, the message channel with its terminal sentinel, and a
//! coordinator that runs a full dinner under a sequential schedule. The
//! embedding program supplies the real threads, locks and sleeps, and
//! drives the same state machine with the outcomes of its lock probes.

pub mod channel;
pub mod coordinator;
pub mod philosopher;
pub mod protocol;
pub mod ring;
pub mod table;
