use vstd::prelude::*;

use crate::codec::{BoolCodec, Codec};

verus! {

/// The value an input holds after it receives the datagrams `datagrams`, in
/// order, starting from `state`: the last datagram that decodes wins, and
/// datagrams outside the wire format leave the value as it was.
pub open spec fn settle<C: Codec>(state: C::Value, datagrams: Seq<Seq<u8>>) -> C::Value
    decreases datagrams.len(),
{
    if datagrams.len() == 0 {
        state
    } else {
        match C::spec_decode(datagrams.last()) {
            Some(v) => v,
            None => settle::<C>(state, datagrams.drop_last()),
        }
    }
}

/// The value an input holds after a drain: the received datagrams are applied
/// first, then the injected values, each in arrival order.
pub open spec fn drained<C: Codec>(
    state: C::Value,
    datagrams: Seq<Seq<u8>>,
    injections: Seq<C::Value>,
) -> C::Value {
    if injections.len() == 0 {
        settle::<C>(state, datagrams)
    } else {
        injections.last()
    }
}

/// A datagram in the wire format decides the value an input settles to,
/// whatever arrived before it, unparseable datagrams included.
pub proof fn lemma_valid_datagram_decides<C: Codec>(
    state: C::Value,
    datagrams: Seq<Seq<u8>>,
    sent: C::Value,
)
    ensures
        settle::<C>(state, datagrams.push(C::spec_encode(sent))) == sent,
{
    C::lemma_round_trip(sent);
    let ds = datagrams.push(C::spec_encode(sent));
    lemma_settles_to_last_decodable::<C>(state, ds, datagrams.len() as int);
}

/// An input settles to the last datagram in the wire format: when the datagram
/// at `j` decodes and none after it does, the input holds what it decodes to.
pub proof fn lemma_settles_to_last_decodable<C: Codec>(
    state: C::Value,
    datagrams: Seq<Seq<u8>>,
    j: int,
)
    requires
        0 <= j < datagrams.len(),
        C::spec_decode(datagrams[j]) is Some,
        forall|k: int| j < k < datagrams.len() ==> (#[trigger] C::spec_decode(datagrams[k])) is None,
    ensures
        settle::<C>(state, datagrams) == C::spec_decode(datagrams[j]).unwrap(),
    decreases datagrams.len(),
{
    if j < datagrams.len() - 1 {
        let rest = datagrams.drop_last();
        assert(C::spec_decode(datagrams[datagrams.len() - 1]) is None);
        assert forall|k: int| j < k < rest.len() implies (#[trigger] C::spec_decode(rest[k])) is None by {
            assert(rest[k] == datagrams[k]);
        }
        lemma_settles_to_last_decodable::<C>(state, rest, j);
    }
}

/// When no datagram is in the wire format, the input keeps the value it held.
pub proof fn lemma_nothing_decodable_keeps_value<C: Codec>(
    state: C::Value,
    datagrams: Seq<Seq<u8>>,
)
    requires
        forall|k: int| 0 <= k < datagrams.len() ==> (#[trigger] C::spec_decode(datagrams[k])) is None,
    ensures
        settle::<C>(state, datagrams) == state,
    decreases datagrams.len(),
{
    if datagrams.len() > 0 {
        let rest = datagrams.drop_last();
        assert(C::spec_decode(datagrams[datagrams.len() - 1]) is None);
        assert forall|k: int| 0 <= k < rest.len() implies (#[trigger] C::spec_decode(rest[k])) is None by {
            assert(rest[k] == datagrams[k]);
        }
        lemma_nothing_decodable_keeps_value::<C>(state, rest);
    }
}

/// Removing an unparseable datagram from any position of what an input
/// receives leaves the value it settles to unchanged.
pub proof fn lemma_unparseable_anywhere_is_ignored<C: Codec>(
    state: C::Value,
    datagrams: Seq<Seq<u8>>,
    k: int,
)
    requires
        0 <= k < datagrams.len(),
        C::spec_decode(datagrams[k]) is None,
    ensures
        settle::<C>(state, datagrams.remove(k)) == settle::<C>(state, datagrams),
    decreases datagrams.len(),
{
    let n = datagrams.len();
    if k == n - 1 {
        assert(datagrams.remove(k) =~= datagrams.drop_last());
    } else {
        let r = datagrams.remove(k);
        assert(r.last() == datagrams.last());
        assert(r.drop_last() =~= datagrams.drop_last().remove(k));
        assert(datagrams.drop_last()[k] == datagrams[k]);
        lemma_unparseable_anywhere_is_ignored::<C>(state, datagrams.drop_last(), k);
    }
}

/// A drain ends at the last value that was sent: applying the encodings of a
/// non-empty burst of values leaves the input at the last of them, whatever it
/// held before.
pub proof fn lemma_burst_settles_to_last<C: Codec>(state: C::Value, sent: Seq<C::Value>)
    requires
        sent.len() > 0,
    ensures
        settle::<C>(state, sent.map_values(|v: C::Value| C::spec_encode(v))) == sent.last(),
{
    let ds = sent.map_values(|v: C::Value| C::spec_encode(v));
    C::lemma_round_trip(sent.last());
    assert(ds.last() == C::spec_encode(sent.last()));
}

/// A datagram outside the wire format is ignored: appending it to what an
/// input receives does not change the value the input settles to.
pub proof fn lemma_unparseable_is_ignored<C: Codec>(
    state: C::Value,
    datagrams: Seq<Seq<u8>>,
    bad: Seq<u8>,
)
    requires
        C::spec_decode(bad) is None,
    ensures
        settle::<C>(state, datagrams.push(bad)) == settle::<C>(state, datagrams),
{
    assert(datagrams.push(bad).drop_last() =~= datagrams);
}

/// With nothing queued, a drain leaves the cached value as it was.
pub proof fn lemma_empty_drain_keeps_value<C: Codec>(state: C::Value)
    ensures
        drained::<C>(state, Seq::empty(), Seq::empty()) == state,
{
}

/// Injected values take precedence in a drain: when anything was injected, the
/// input ends at the last injected value, whatever datagrams arrived.
pub proof fn lemma_injection_overrides<C: Codec>(
    state: C::Value,
    datagrams: Seq<Seq<u8>>,
    injections: Seq<C::Value>,
)
    requires
        injections.len() > 0,
    ensures
        drained::<C>(state, datagrams, injections) == injections.last(),
{
}

/// The state of an input pin: the most recent value, fed by datagrams received
/// on its socket and by values injected in-process.
pub struct InputState<C: Codec> {
    state: C::Value,
}

impl<C: Codec> View for InputState<C> {
    type V = C::Value;

    closed spec fn view(&self) -> C::Value {
        self.state
    }
}

impl<C: Codec> InputState<C> {
    /// An input holding `initial`.
    pub fn new(initial: C::Value) -> (s: Self)
        ensures
            s@ == initial,
    {
        InputState { state: initial }
    }

    /// The value the input holds.
    pub fn value(&self) -> (v: C::Value)
        ensures
            v == self@,
    {
        self.state
    }

    /// Applies one received datagram. A datagram in the wire format replaces
    /// the value; any other leaves it unchanged. Returns whether the datagram
    /// was accepted.
    pub fn apply_datagram(&mut self, datagram: &[u8]) -> (accepted: bool)
        ensures
            accepted == C::spec_decode(datagram@) is Some,
            final(self)@ == (match C::spec_decode(datagram@) {
                Some(v) => v,
                None => old(self)@,
            }),
    {
        match C::decode(datagram) {
            Some(v) => {
                self.state = v;
                true
            },
            None => false,
        }
    }

    /// Applies one injected value, which replaces the value held.
    pub fn apply_injection(&mut self, value: C::Value)
        ensures
            final(self)@ == value,
    {
        self.state = value;
    }

    /// Applies everything that was queued: first the received datagrams, then
    /// the injected values, each in the order they arrived.
    pub fn drain(&mut self, datagrams: &Vec<Vec<u8>>, injections: &Vec<C::Value>)
        ensures
            final(self)@ == drained::<C>(old(self)@, datagrams.deep_view(), injections@),
    {
        let ghost start = self@;
        let ghost ds = datagrams.deep_view();
        let mut i: usize = 0;
        while i < datagrams.len()
            invariant
                0 <= i <= datagrams.len(),
                ds == datagrams.deep_view(),
                self@ == settle::<C>(start, ds.take(i as int)),
            decreases datagrams.len() - i,
        {
            let ghost before = self@;
            self.apply_datagram(datagrams[i].as_slice());
            assert(ds.take(i + 1).drop_last() =~= ds.take(i as int));
            assert(ds.take(i + 1).last() == datagrams[i as int]@);
            i = i + 1;
        }
        assert(ds.take(datagrams.len() as int) =~= ds);
        let mut j: usize = 0;
        while j < injections.len()
            invariant
                0 <= j <= injections.len(),
                ds == datagrams.deep_view(),
                self@ == drained::<C>(start, ds, injections@.take(j as int)),
            decreases injections.len() - j,
        {
            self.apply_injection(injections[j]);
            assert(injections@.take(j + 1).last() == injections@[j as int]);
            j = j + 1;
        }
        assert(injections@.take(injections.len() as int) =~= injections@);
    }
}

impl InputState<BoolCodec> {
    /// Whether the digital input is HIGH.
    pub fn is_high(&self) -> (b: bool)
        ensures
            b == self@,
    {
        self.state
    }

    /// Whether the digital input is LOW.
    pub fn is_low(&self) -> (b: bool)
        ensures
            b == !self@,
    {
        !self.state
    }
}

} // verus!
