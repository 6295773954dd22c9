//! The events that travel from the producers to the publisher.
use vstd::prelude::*;

verus! {

/// Direction of a transition on a digital input line.
#[derive(Clone, Copy, Debug, PartialEq, Eq, Structural)]
pub enum Edge {
    /// Low to high.
    Rising,
    /// High to low.
    Falling,
}

/// An observation on its way to the publisher: exactly one of the two kinds.
#[derive(Clone, Copy, Debug, PartialEq, Eq, Structural)]
pub enum Event {
    /// A transition on line offset `line` of the chip at position `chip` of the
    /// configuration.
    LineTransition { chip: usize, line: u32, edge: Edge },
    /// A liveness tick.
    Heartbeat,
}

impl Event {
    pub fn line_transition(chip: usize, line: u32, edge: Edge) -> (r: Event)
        ensures
            r == (Event::LineTransition { chip, line, edge }),
    {
        Event::LineTransition { chip, line, edge }
    }

    pub fn heartbeat() -> (r: Event)
        ensures
            r == Event::Heartbeat,
    {
        Event::Heartbeat
    }
}

} // verus!
