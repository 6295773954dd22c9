//! Configuration of the bridge: the broker and the watched chips.
use vstd::prelude::*;

verus! {

/// One watched input line: its display label and its offset on the chip.
#[derive(Clone, Debug)]
pub struct PinConfig {
    pub name: String,
    pub line: u32,
}

/// One hardware chip: its device path and its watched lines, in order.
#[derive(Clone, Debug)]
pub struct ChipConfig {
    pub path: String,
    pub pins: Vec<PinConfig>,
}

/// The broker's endpoint and the topic every message goes to.
#[derive(Clone, Debug)]
pub struct BrokerConfig {
    pub host: String,
    pub topic: String,
}

/// The whole configuration, loaded once and never changed afterwards.
#[derive(Clone, Debug)]
pub struct Config {
    pub mqtt: BrokerConfig,
    pub gpiochip: Vec<ChipConfig>,
}

impl PinConfig {
    pub fn new(name: String, line: u32) -> (r: PinConfig)
        ensures
            r.name@ == name@,
            r.line == line,
    {
        PinConfig { name, line }
    }
}

impl ChipConfig {
    pub fn new(path: String, pins: Vec<PinConfig>) -> (r: ChipConfig)
        ensures
            r.path@ == path@,
            r.pins@ == pins@,
    {
        ChipConfig { path, pins }
    }
}

impl BrokerConfig {
    pub fn new(host: String, topic: String) -> (r: BrokerConfig)
        ensures
            r.host@ == host@,
            r.topic@ == topic@,
    {
        BrokerConfig { host, topic }
    }
}

impl Config {
    pub fn new(mqtt: BrokerConfig, gpiochip: Vec<ChipConfig>) -> (r: Config)
        ensures
            r.mqtt == mqtt,
            r.gpiochip@ == gpiochip@,
    {
        Config { mqtt, gpiochip }
    }
}

} // verus!
