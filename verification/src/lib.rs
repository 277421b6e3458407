//! Core of a networked, remotely addressable multi-light indicator.
//!
//! Free-form text commands (topic, id, field, payload) are interpreted into
//! per-light state, composed into RGB actuation values, and distributed to
//! per-light single-slot mailboxes with latest-wins semantics. A separate
//! pattern blinker turns button events into timed pulse-group patterns for a
//! status light. Network transport, peripheral setup and the cooperative
//! scheduler are external collaborators: they deliver decoded command tuples
//! and button snapshots, and carry out the actuation steps this library
//! computes.

use vstd::prelude::*;

pub mod blink;
pub mod channel;
pub mod interpreter;
pub mod leds;
pub mod mailbox;
pub mod parse;

verus! {

/// Number of addressable lights; command ids range over `[1, LIGHT_COUNT]`.
pub const LIGHT_COUNT: usize = 2;

} // verus!
