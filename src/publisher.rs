//! The single consumer: resolves pin names and renders each event into the
//! message that goes to the broker.
use vstd::prelude::*;
use crate::config::{ChipConfig, Config, PinConfig};
use crate::event::{Edge, Event};

verus! {

/// The label of a line offset that no configured pin of its chip carries.
pub open spec fn unknown_label() -> Seq<char> {
    "Unknown"@
}

/// Position `i` holds the first pin of `pins` whose offset is `line`.
pub open spec fn is_first_match(pins: Seq<PinConfig>, line: u32, i: int) -> bool {
    &&& 0 <= i < pins.len()
    &&& pins[i].line == line
    &&& forall|j: int| 0 <= j < i ==> pins[j].line != line
}

/// The display name of line offset `line`: the name of the first pin with
/// that offset, or the unknown label where there is none.
pub open spec fn resolved_name(pins: Seq<PinConfig>, line: u32) -> Seq<char> {
    if exists|i: int| is_first_match(pins, line, i) {
        pins[choose|i: int| is_first_match(pins, line, i)].name@
    } else {
        unknown_label()
    }
}

/// The pins of the chip at position `chip`, none where there is no such chip.
pub open spec fn chip_pins(chips: Seq<ChipConfig>, chip: int) -> Seq<PinConfig> {
    if 0 <= chip < chips.len() {
        chips[chip].pins@
    } else {
        Seq::empty()
    }
}

/// The wire code of an edge.
pub open spec fn edge_code(edge: Edge) -> Seq<char> {
    match edge {
        Edge::Rising => "1"@,
        Edge::Falling => "0"@,
    }
}

/// The payload of a line transition: topic, pin name and edge code, separated
/// by single spaces.
pub open spec fn transition_payload(topic: Seq<char>, name: Seq<char>, edge: Edge) -> Seq<char> {
    topic + " "@ + name + " "@ + edge_code(edge)
}

/// The payload of a heartbeat.
pub open spec fn heartbeat_payload(topic: Seq<char>) -> Seq<char> {
    topic + " heartbeat 1"@
}

/// The payload that `event` renders to under `topic` and `chips`.
pub open spec fn payload_of(topic: Seq<char>, chips: Seq<ChipConfig>, event: Event) -> Seq<char> {
    match event {
        Event::LineTransition { chip, line, edge } => transition_payload(
            topic,
            resolved_name(chip_pins(chips, chip as int), line),
            edge,
        ),
        Event::Heartbeat => heartbeat_payload(topic),
    }
}

/// Delivery level of every message: at most once.
pub const QOS_AT_MOST_ONCE: i32 = 0;

/// A message for the broker: where it goes and what it carries.
#[derive(Clone, Debug)]
pub struct Outgoing {
    pub topic: String,
    pub payload: String,
}

/// The wire code of an edge: "1" for rising, "0" for falling.
pub fn edge_code_str(edge: Edge) -> (r: &'static str)
    ensures
        r@ == edge_code(edge),
{
    match edge {
        Edge::Rising => "1",
        Edge::Falling => "0",
    }
}

/// The display name of `line` among `pins`; "Unknown" where no pin has that
/// offset. An unconfigured offset is never fatal.
pub fn resolve_pin_name(pins: &Vec<PinConfig>, line: u32) -> (r: String)
    ensures
        r@ == resolved_name(pins@, line),
{
    let mut i: usize = 0;
    while i < pins.len()
        invariant
            i <= pins@.len(),
            forall|j: int| 0 <= j < i ==> pins@[j].line != line,
        decreases pins@.len() - i,
    {
        if pins[i].line == line {
            assert(is_first_match(pins@, line, i as int));
            proof {
                let k = choose|k: int| is_first_match(pins@, line, k);
                assert(!(k < i as int));
                assert(!((i as int) < k));
            }
            return pins[i].name.clone();
        }
        i = i + 1;
    }
    assert(!exists|k: int| is_first_match(pins@, line, k));
    String::from_str("Unknown")
}

/// Renders a line transition on `pins` into its payload under `topic`.
pub fn render_transition(topic: &String, pins: &Vec<PinConfig>, line: u32, edge: Edge) -> (r: String)
    ensures
        r@ == transition_payload(topic@, resolved_name(pins@, line), edge),
{
    let name = resolve_pin_name(pins, line);
    let mut payload = topic.clone();
    payload.append(" ");
    payload.append(name.as_str());
    payload.append(" ");
    payload.append(edge_code_str(edge));
    payload
}

/// Renders a heartbeat into its payload under `topic`.
pub fn render_heartbeat(topic: &String) -> (r: String)
    ensures
        r@ == heartbeat_payload(topic@),
{
    let mut payload = topic.clone();
    payload.append(" heartbeat 1");
    payload
}

/// The consumer of the event bus: it owns what rendering needs.
pub struct Publisher {
    pub topic: String,
    pub chips: Vec<ChipConfig>,
}

impl Publisher {
    /// The publisher of `config`: its topic and its chips.
    pub fn new(config: Config) -> (r: Publisher)
        ensures
            r.topic@ == config.mqtt.topic@,
            r.chips@ == config.gpiochip@,
    {
        Publisher { topic: config.mqtt.topic, chips: config.gpiochip }
    }

    /// The payload of `event`.
    pub fn render(&self, event: &Event) -> (r: String)
        ensures
            r@ == payload_of(self.topic@, self.chips@, *event),
    {
        match *event {
            Event::LineTransition { chip, line, edge } => {
                if chip < self.chips.len() {
                    render_transition(&self.topic, &self.chips[chip].pins, line, edge)
                } else {
                    let none: Vec<PinConfig> = Vec::new();
                    render_transition(&self.topic, &none, line, edge)
                }
            },
            Event::Heartbeat => render_heartbeat(&self.topic),
        }
    }

    /// The message that `event` becomes: the configured topic and the payload.
    pub fn handle(&self, event: &Event) -> (r: Outgoing)
        ensures
            r.topic@ == self.topic@,
            r.payload@ == payload_of(self.topic@, self.chips@, *event),
    {
        Outgoing { topic: self.topic.clone(), payload: self.render(event) }
    }
}

/// The payloads published for the events `received`, in the order they were
/// received: the publisher handles one event at a time, in that order.
pub open spec fn published(topic: Seq<char>, chips: Seq<ChipConfig>, received: Seq<Event>) -> Seq<Seq<char>> {
    received.map_values(|e: Event| payload_of(topic, chips, e))
}

/// A transition on a line that a pin of its chip carries renders to the topic,
/// that pin's name and the edge's code, "1" for rising and "0" for falling,
/// separated by single spaces.
pub proof fn lemma_transition_payload(
    topic: Seq<char>,
    chips: Seq<ChipConfig>,
    chip: usize,
    line: u32,
    edge: Edge,
    i: int,
)
    requires
        is_first_match(chip_pins(chips, chip as int), line, i),
    ensures
        payload_of(topic, chips, Event::LineTransition { chip, line, edge }) == topic + " "@
            + chip_pins(chips, chip as int)[i].name@ + " "@ + edge_code(edge),
        edge_code(edge) == (if edge == Edge::Rising { "1"@ } else { "0"@ }),
{
    let pins = chip_pins(chips, chip as int);
    let k = choose|k: int| is_first_match(pins, line, k);
    assert(!(k < i));
    assert(!(i < k));
}

/// A heartbeat renders to the topic followed by " heartbeat 1", whatever the
/// chips and whenever it was sent.
pub proof fn lemma_heartbeat_payload(topic: Seq<char>, chips: Seq<ChipConfig>)
    ensures
        payload_of(topic, chips, Event::Heartbeat) == topic + " heartbeat 1"@,
{
}

/// A line offset that no pin of its chip carries resolves to "Unknown".
pub proof fn lemma_unconfigured_line_is_unknown(pins: Seq<PinConfig>, line: u32)
    requires
        forall|i: int| 0 <= i < pins.len() ==> pins[i].line != line,
    ensures
        resolved_name(pins, line) == "Unknown"@,
{
    assert(!exists|k: int| is_first_match(pins, line, k));
}

/// Publishing keeps the order of reception: the messages for events received
/// in `first` and then in `second` are those of `first` followed by those of
/// `second`.
pub proof fn lemma_published_in_order(
    topic: Seq<char>,
    chips: Seq<ChipConfig>,
    first: Seq<Event>,
    second: Seq<Event>,
)
    ensures
        published(topic, chips, first + second) == published(topic, chips, first) + published(
            topic,
            chips,
            second,
        ),
{
    assert(published(topic, chips, first + second) =~= published(topic, chips, first) + published(
        topic,
        chips,
        second,
    ));
}

/// Of two events received one after the other, the first one's message is
/// published first.
pub proof fn lemma_two_events_in_order(topic: Seq<char>, chips: Seq<ChipConfig>, e1: Event, e2: Event)
    ensures
        published(topic, chips, seq![e1, e2]) == seq![
            payload_of(topic, chips, e1),
            payload_of(topic, chips, e2),
        ],
{
    assert(published(topic, chips, seq![e1, e2]) =~= seq![
        payload_of(topic, chips, e1),
        payload_of(topic, chips, e2),
    ]);
}

} // verus!
