use vstd::prelude::*;

verus! {

/// What a wait on a digital input waits for.
#[derive(Clone, Copy, Debug, PartialEq, Eq, Structural)]
pub enum WaitKind {
    /// The input is HIGH.
    High,
    /// The input is LOW.
    Low,
    /// The input goes from LOW to HIGH.
    RisingEdge,
    /// The input goes from HIGH to LOW.
    FallingEdge,
    /// The input changes level.
    AnyEdge,
}

/// Whether a wait of kind `kind`, whose reference level is `reference`, is
/// over when the input is observed at level `current`.
pub open spec fn wait_satisfied(kind: WaitKind, reference: bool, current: bool) -> bool {
    match kind {
        WaitKind::High => current,
        WaitKind::Low => !current,
        WaitKind::RisingEdge => !reference && current,
        WaitKind::FallingEdge => reference && !current,
        WaitKind::AnyEdge => reference != current,
    }
}

/// The reference level a wait keeps after observing `current`: edge waits
/// compare each observation with the one before it, except a wait for any
/// edge, which compares with the level it started from.
pub open spec fn next_reference(kind: WaitKind, reference: bool, current: bool) -> bool {
    match kind {
        WaitKind::AnyEdge => reference,
        _ => current,
    }
}

/// A level wait reads only the level it observes: a wait for HIGH is over
/// exactly when the input is HIGH and a wait for LOW exactly when it is LOW,
/// whatever the reference level.
pub proof fn lemma_level_wait_reads_level(reference: bool, current: bool)
    ensures
        wait_satisfied(WaitKind::High, reference, current) == current,
        wait_satisfied(WaitKind::Low, reference, current) == !current,
        wait_satisfied(WaitKind::High, reference, current) != wait_satisfied(
            WaitKind::Low,
            reference,
            current,
        ),
{
}

/// An edge wait is over exactly on a change of level in its direction: a
/// rising edge is a change that ends HIGH, a falling edge one that ends LOW,
/// and any edge any change.
pub proof fn lemma_edge_wait_is_a_change(reference: bool, current: bool)
    ensures
        wait_satisfied(WaitKind::RisingEdge, reference, current) <==> (reference != current
            && current),
        wait_satisfied(WaitKind::FallingEdge, reference, current) <==> (reference != current
            && !current),
        wait_satisfied(WaitKind::AnyEdge, reference, current) <==> reference != current,
{
}

/// An edge wait is never over on an observation equal to its reference: in
/// particular a freshly started edge wait does not end before an event changes
/// the level.
pub proof fn lemma_edge_needs_change(kind: WaitKind, level: bool)
    requires
        kind != WaitKind::High,
        kind != WaitKind::Low,
    ensures
        !wait_satisfied(kind, level, level),
{
}

/// Edge waits walk events one at a time: a queued LOW then HIGH completes a
/// rising-edge wait on the HIGH, whatever level it started from, and the LOW
/// alone does not.
pub proof fn lemma_rising_edge_sees_queued_pair(reference: bool)
    ensures
        !wait_satisfied(WaitKind::RisingEdge, reference, false),
        wait_satisfied(
            WaitKind::RisingEdge,
            next_reference(WaitKind::RisingEdge, reference, false),
            true,
        ),
{
}

/// A queued HIGH then LOW completes a falling-edge wait on the LOW, whatever
/// level it started from, and the HIGH alone does not.
pub proof fn lemma_falling_edge_sees_queued_pair(reference: bool)
    ensures
        !wait_satisfied(WaitKind::FallingEdge, reference, true),
        wait_satisfied(
            WaitKind::FallingEdge,
            next_reference(WaitKind::FallingEdge, reference, true),
            false,
        ),
{
}

/// A wait for any edge ends at the first observation that differs from the
/// level it started at: its reference never moves.
pub proof fn lemma_any_edge_keeps_start(reference: bool, current: bool)
    ensures
        next_reference(WaitKind::AnyEdge, reference, current) == reference,
        wait_satisfied(WaitKind::AnyEdge, reference, current) <==> current != reference,
{
}

/// A wait on a digital input in progress.
///
/// Level waits (`High`, `Low`) drain everything queued before each
/// observation, so they see the latest level. Edge waits observe one event at
/// a time and never drain first: draining would collapse a queued LOW, HIGH
/// pair into a single HIGH reading and lose the edge.
#[derive(Clone, Copy, Debug, PartialEq, Eq, Structural)]
pub struct Waiter {
    /// What the wait waits for.
    pub kind: WaitKind,
    /// The level that the next observation is compared with.
    pub reference: bool,
}

impl Waiter {
    /// Starts a wait of kind `kind` on an input currently at level `current`.
    pub fn new(kind: WaitKind, current: bool) -> (w: Self)
        ensures
            w.kind == kind,
            w.reference == current,
    {
        Waiter { kind, reference: current }
    }

    /// Whether the input must be drained before each observation.
    pub fn drains_first(&self) -> (b: bool)
        ensures
            b == (self.kind == WaitKind::High || self.kind == WaitKind::Low),
    {
        match self.kind {
            WaitKind::High | WaitKind::Low => true,
            _ => false,
        }
    }

    /// Observes the input at level `current`; returns whether the wait is over.
    pub fn observe(&mut self, current: bool) -> (done: bool)
        ensures
            done == wait_satisfied(old(self).kind, old(self).reference, current),
            final(self).kind == old(self).kind,
            final(self).reference == next_reference(old(self).kind, old(self).reference, current),
    {
        let done = match self.kind {
            WaitKind::High => current,
            WaitKind::Low => !current,
            WaitKind::RisingEdge => !self.reference && current,
            WaitKind::FallingEdge => self.reference && !current,
            WaitKind::AnyEdge => self.reference != current,
        };
        match self.kind {
            WaitKind::AnyEdge => {},
            _ => {
                self.reference = current;
            },
        }
        done
    }
}

} // verus!
