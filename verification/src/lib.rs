//! Pin logic for Unix-datagram-backed digital and analog pins.
//!
//! The wire format of a pin is governed by a [`Codec`]:
//! - [`BoolCodec`]: one ASCII byte, `b'0'` for LOW and `b'1'` for HIGH; any
//!   other datagram is ignored.
//! - [`F64PairCodec`]: sixteen bytes, two little-endian IEEE-754 doubles. The
//!   library carries each double as its 64-bit pattern.
//!
//! [`InputState`] is the state of an input pin: the latest value, updated from
//! received datagrams and injected values. [`Waiter`] decides when a wait on a
//! digital input is over. [`OutputState`] is the state of an output pin and
//! frames the datagram it emits. [`next_bind_step`] decides how a socket path
//! is claimed: a stale file is reclaimed, a live peer is never displaced.
mod codec;
mod input;
mod output;
mod reclaim;
mod waiter;

pub use codec::{BoolCodec, Codec, F64PairBits, F64PairCodec, HIGH, LOW, MAX_DATAGRAM};
pub use input::InputState;
pub use waiter::{WaitKind, Waiter};
pub use output::OutputState;
pub use reclaim::{next_bind_step, BindAction, BindPhase, StepOutcome};
