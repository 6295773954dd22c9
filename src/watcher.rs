//! The per-chip producer: turns each hardware reading into an event.
use vstd::prelude::*;
use crate::config::{ChipConfig, PinConfig};
use crate::event::{Edge, Event};
use crate::wiring::{may_emit, Producer};

verus! {

/// What one blocking read on the requested lines of a chip gave.
#[derive(Clone, Copy, Debug, PartialEq, Eq, Structural)]
pub enum Reading {
    /// An edge on the requested line at position `bit` of the request.
    Transition { bit: u8, edge: Edge },
    /// The read failed.
    Failed,
}

/// What a watcher does after a reading.
#[derive(Clone, Copy, Debug, PartialEq, Eq, Structural)]
pub enum WatcherAction {
    /// Put the event on the bus and read again.
    Send(Event),
    /// Stop the whole process: the hardware can no longer be trusted.
    Fatal,
}

/// The line offsets to request from a chip, in the order of its pins.
pub open spec fn lines_of(pins: Seq<PinConfig>) -> Seq<u32> {
    pins.map_values(|p: PinConfig| p.line)
}

/// The decision of the watcher of chip `chip`, which requested `lines`, on
/// `reading`: an edge on a requested line becomes a transition on that line's
/// offset; a failed read, or a position outside the request, is fatal.
pub open spec fn watcher_action(chip: usize, lines: Seq<u32>, reading: Reading) -> WatcherAction {
    match reading {
        Reading::Transition { bit, edge } => if (bit as int) < lines.len() {
            WatcherAction::Send(Event::LineTransition { chip, line: lines[bit as int], edge })
        } else {
            WatcherAction::Fatal
        },
        Reading::Failed => WatcherAction::Fatal,
    }
}

/// The producer for one chip of the configuration.
pub struct LineWatcher {
    /// Position of the chip in the configuration.
    pub chip_index: usize,
    /// The requested line offsets, in the order of the chip's pins.
    pub lines: Vec<u32>,
}

/// The line offsets of `chip`'s pins, in order: what a watcher requests.
pub fn requested_lines(chip: &ChipConfig) -> (r: Vec<u32>)
    ensures
        r@ == lines_of(chip.pins@),
{
    let mut r: Vec<u32> = Vec::new();
    let mut i: usize = 0;
    while i < chip.pins.len()
        invariant
            i <= chip.pins@.len(),
            r@ == lines_of(chip.pins@.subrange(0, i as int)),
        decreases chip.pins@.len() - i,
    {
        r.push(chip.pins[i].line);
        i = i + 1;
        assert(chip.pins@.subrange(0, i as int).drop_last() =~= chip.pins@.subrange(0, i - 1));
        assert(r@ =~= lines_of(chip.pins@.subrange(0, i as int)));
    }
    assert(chip.pins@.subrange(0, i as int) =~= chip.pins@);
    r
}

impl LineWatcher {
    /// The watcher of `chip`, which stands at position `chip_index`.
    pub fn new(chip_index: usize, chip: &ChipConfig) -> (r: LineWatcher)
        ensures
            r.chip_index == chip_index,
            r.lines@ == lines_of(chip.pins@),
    {
        LineWatcher { chip_index, lines: requested_lines(chip) }
    }

    /// What to do after `reading`.
    pub fn on_reading(&self, reading: Reading) -> (r: WatcherAction)
        ensures
            r == watcher_action(self.chip_index, self.lines@, reading),
            r matches WatcherAction::Send(e) ==> may_emit(Producer::Watcher(self.chip_index), e),
    {
        match reading {
            Reading::Transition { bit, edge } => {
                if (bit as usize) < self.lines.len() {
                    WatcherAction::Send(
                        Event::LineTransition { chip: self.chip_index, line: self.lines[bit as usize], edge },
                    )
                } else {
                    WatcherAction::Fatal
                }
            },
            Reading::Failed => WatcherAction::Fatal,
        }
    }
}

} // verus!
