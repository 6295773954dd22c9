//! Which producers run, and what each of them may put on the bus.
use vstd::prelude::*;
use crate::event::Event;

verus! {

/// Seconds between two heartbeats.
pub const HEARTBEAT_PERIOD_SECS: u64 = 60;

/// One producer of the event bus.
#[derive(Clone, Copy, Debug, PartialEq, Eq, Structural)]
pub enum Producer {
    /// The watcher of the chip at this position of the configuration.
    Watcher(usize),
    /// The heartbeat ticker.
    Ticker,
}

/// `event` is one that `producer` can send: a watcher sends transitions of
/// its own chip, the ticker sends heartbeats.
pub open spec fn may_emit(producer: Producer, event: Event) -> bool {
    match producer {
        Producer::Watcher(c) => event matches Event::LineTransition { chip, .. } && chip == c,
        Producer::Ticker => event is Heartbeat,
    }
}

/// The producers for a configuration of `chip_count` chips: one watcher per
/// chip, in order, then the ticker.
pub open spec fn producers_for(chip_count: nat) -> Seq<Producer> {
    Seq::new(chip_count + 1, |i: int| if i < chip_count { Producer::Watcher(i as usize) } else { Producer::Ticker })
}

/// The producers to start for `chip_count` chips.
pub fn producers(chip_count: usize) -> (r: Vec<Producer>)
    requires
        chip_count < usize::MAX,
    ensures
        r@ == producers_for(chip_count as nat),
{
    let mut r: Vec<Producer> = Vec::new();
    let mut i: usize = 0;
    while i < chip_count
        invariant
            i <= chip_count,
            r@ =~= producers_for(chip_count as nat).subrange(0, i as int),
        decreases chip_count - i,
    {
        r.push(Producer::Watcher(i));
        i = i + 1;
        assert(r@ =~= producers_for(chip_count as nat).subrange(0, i as int));
    }
    r.push(Producer::Ticker);
    assert(r@ =~= producers_for(chip_count as nat));
    r
}

/// The event the ticker sends each period.
pub fn tick() -> (r: Event)
    ensures
        r == Event::Heartbeat,
        may_emit(Producer::Ticker, r),
{
    Event::heartbeat()
}

/// With no chips configured, every event that any started producer can send
/// is a heartbeat.
pub proof fn lemma_no_chips_only_heartbeats(producer: Producer, event: Event)
    requires
        producers_for(0).contains(producer),
        may_emit(producer, event),
    ensures
        event is Heartbeat,
{
    let i = choose|i: int| 0 <= i < producers_for(0).len() && producers_for(0)[i] == producer;
    assert(producers_for(0)[i] == Producer::Ticker);
}

} // verus!
