use vstd::prelude::*;

use crate::codec::{BoolCodec, Codec, MAX_DATAGRAM};
use crate::input::settle;

verus! {

/// What an output sends is what an input reads: once the datagram framed for
/// the value `sent` reaches an input, whatever it held, the input holds `sent`.
pub proof fn lemma_frame_reaches_input<C: Codec>(held: C::Value, sent: C::Value)
    ensures
        settle::<C>(held, seq![C::spec_encode(sent)]) == sent,
{
    C::lemma_round_trip(sent);
    assert(seq![C::spec_encode(sent)].last() == C::spec_encode(sent));
}

/// The state of an output pin: the last value set on it, which it emits as one
/// datagram per change.
pub struct OutputState<C: Codec> {
    state: C::Value,
}

impl<C: Codec> View for OutputState<C> {
    type V = C::Value;

    closed spec fn view(&self) -> C::Value {
        self.state
    }
}

impl<C: Codec> OutputState<C> {
    /// An output holding `initial`.
    pub fn new(initial: C::Value) -> (s: Self)
        ensures
            s@ == initial,
    {
        OutputState { state: initial }
    }

    /// Sets the output's value.
    pub fn set(&mut self, value: C::Value)
        ensures
            final(self)@ == value,
    {
        self.state = value;
    }

    /// The last value set on this output.
    pub fn get(&self) -> (v: C::Value)
        ensures
            v == self@,
    {
        self.state
    }

    /// Frames the datagram that announces the output's value: writes its
    /// encoding at the start of `buf` and returns its length.
    pub fn frame(&self, buf: &mut [u8]) -> (n: usize)
        requires
            old(buf)@.len() >= MAX_DATAGRAM,
        ensures
            n <= MAX_DATAGRAM,
            final(buf)@.len() == old(buf)@.len(),
            final(buf)@.subrange(0, n as int) == C::spec_encode(self@),
            final(buf)@.subrange(n as int, final(buf)@.len() as int) == old(buf)@.subrange(
                n as int,
                old(buf)@.len() as int,
            ),
    {
        C::encode(self.state, buf)
    }
}

impl OutputState<BoolCodec> {
    /// Whether the digital output is set HIGH.
    pub fn is_set_high(&self) -> (b: bool)
        ensures
            b == self@,
    {
        self.state
    }

    /// Whether the digital output is set LOW.
    pub fn is_set_low(&self) -> (b: bool)
        ensures
            b == !self@,
    {
        !self.state
    }
}

} // verus!
