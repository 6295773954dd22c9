use gpio2mqtt::config::{BrokerConfig, ChipConfig, Config, PinConfig};
use gpio2mqtt::event::{Edge, Event};
use gpio2mqtt::publisher::{edge_code_str, render_heartbeat, render_transition, resolve_pin_name, Publisher};
use gpio2mqtt::watcher::{requested_lines, LineWatcher, Reading, WatcherAction};
use gpio2mqtt::wiring::{producers, tick, Producer, HEARTBEAT_PERIOD_SECS};

fn door_config() -> Config {
    Config::new(
        BrokerConfig::new("tcp://localhost:1883".to_string(), "home/gpio".to_string()),
        vec![ChipConfig::new(
            "chip0".to_string(),
            vec![PinConfig::new("door".to_string(), 3)],
        )],
    )
}

fn two_chip_config() -> Config {
    Config::new(
        BrokerConfig::new("tcp://broker:1883".to_string(), "house".to_string()),
        vec![
            ChipConfig::new(
                "chip0".to_string(),
                vec![
                    PinConfig::new("door".to_string(), 3),
                    PinConfig::new("window".to_string(), 7),
                ],
            ),
            ChipConfig::new(
                "chip1".to_string(),
                vec![PinConfig::new("garage".to_string(), 0)],
            ),
        ],
    )
}

#[test]
fn rising_on_configured_line_publishes_name_and_one() {
    let config = door_config();
    let watcher = LineWatcher::new(0, &config.gpiochip[0]);
    let publisher = Publisher::new(config);
    let action = watcher.on_reading(Reading::Transition { bit: 0, edge: Edge::Rising });
    let event = match action {
        WatcherAction::Send(e) => e,
        WatcherAction::Fatal => panic!("a configured line must give an event"),
    };
    assert_eq!(event, Event::LineTransition { chip: 0, line: 3, edge: Edge::Rising });
    let out = publisher.handle(&event);
    assert_eq!(out.topic, "home/gpio");
    assert_eq!(out.payload, "home/gpio door 1");
}

#[test]
fn falling_transition_uses_zero() {
    let publisher = Publisher::new(door_config());
    let out = publisher.handle(&Event::line_transition(0, 3, Edge::Falling));
    assert_eq!(out.payload, "home/gpio door 0");
}

#[test]
fn heartbeat_payload_is_fixed() {
    let publisher = Publisher::new(door_config());
    let out = publisher.handle(&tick());
    assert_eq!(out.topic, "home/gpio");
    assert_eq!(out.payload, "home/gpio heartbeat 1");
    let again = publisher.handle(&Event::heartbeat());
    assert_eq!(again.payload, out.payload);
}

#[test]
fn heartbeat_period_is_sixty_seconds() {
    assert_eq!(HEARTBEAT_PERIOD_SECS, 60);
}

#[test]
fn unconfigured_line_resolves_to_unknown() {
    let publisher = Publisher::new(door_config());
    for _ in 0..3 {
        let out = publisher.handle(&Event::line_transition(0, 9, Edge::Rising));
        assert_eq!(out.topic, "home/gpio");
        assert_eq!(out.payload, "home/gpio Unknown 1");
    }
}

#[test]
fn unknown_chip_resolves_to_unknown() {
    let publisher = Publisher::new(door_config());
    let out = publisher.handle(&Event::line_transition(5, 3, Edge::Falling));
    assert_eq!(out.payload, "home/gpio Unknown 0");
}

#[test]
fn resolution_is_by_offset_not_position() {
    let config = two_chip_config();
    let pins = &config.gpiochip[0].pins;
    assert_eq!(resolve_pin_name(pins, 7), "window");
    assert_eq!(resolve_pin_name(pins, 3), "door");
    assert_eq!(resolve_pin_name(pins, 0), "Unknown");
    assert_eq!(resolve_pin_name(pins, 1), "Unknown");
    assert_eq!(resolve_pin_name(&Vec::new(), 0), "Unknown");
}

#[test]
fn first_pin_wins_on_repeated_offset() {
    let pins = vec![
        PinConfig::new("first".to_string(), 4),
        PinConfig::new("second".to_string(), 4),
    ];
    assert_eq!(resolve_pin_name(&pins, 4), "first");
}

#[test]
fn render_functions_build_exact_payloads() {
    let topic = "t".to_string();
    let pins = vec![PinConfig::new("p".to_string(), 2)];
    assert_eq!(render_transition(&topic, &pins, 2, Edge::Rising), "t p 1");
    assert_eq!(render_transition(&topic, &pins, 2, Edge::Falling), "t p 0");
    assert_eq!(render_heartbeat(&topic), "t heartbeat 1");
    assert_eq!(render_heartbeat(&String::new()), " heartbeat 1");
    assert_eq!(edge_code_str(Edge::Rising), "1");
    assert_eq!(edge_code_str(Edge::Falling), "0");
}

#[test]
fn one_producer_is_published_in_order() {
    let config = two_chip_config();
    let watcher = LineWatcher::new(0, &config.gpiochip[0]);
    let publisher = Publisher::new(config);
    let readings = [
        Reading::Transition { bit: 1, edge: Edge::Rising },
        Reading::Transition { bit: 0, edge: Edge::Rising },
        Reading::Transition { bit: 1, edge: Edge::Falling },
    ];
    let mut payloads = Vec::new();
    for r in readings {
        match watcher.on_reading(r) {
            WatcherAction::Send(e) => payloads.push(publisher.handle(&e).payload),
            WatcherAction::Fatal => panic!("requested lines must give events"),
        }
    }
    assert_eq!(payloads, vec!["house window 1", "house door 1", "house window 0"]);
}

#[test]
fn watcher_maps_request_position_to_offset() {
    let config = two_chip_config();
    let watcher = LineWatcher::new(1, &config.gpiochip[1]);
    assert_eq!(watcher.chip_index, 1);
    assert_eq!(watcher.lines, vec![0]);
    assert_eq!(
        watcher.on_reading(Reading::Transition { bit: 0, edge: Edge::Falling }),
        WatcherAction::Send(Event::LineTransition { chip: 1, line: 0, edge: Edge::Falling })
    );
}

#[test]
fn watcher_is_fatal_on_failed_read() {
    let config = door_config();
    let watcher = LineWatcher::new(0, &config.gpiochip[0]);
    assert_eq!(watcher.on_reading(Reading::Failed), WatcherAction::Fatal);
}

#[test]
fn watcher_is_fatal_on_unrequested_position() {
    let config = door_config();
    let watcher = LineWatcher::new(0, &config.gpiochip[0]);
    assert_eq!(
        watcher.on_reading(Reading::Transition { bit: 1, edge: Edge::Rising }),
        WatcherAction::Fatal
    );
}

#[test]
fn requested_lines_follow_pin_order() {
    let config = two_chip_config();
    assert_eq!(requested_lines(&config.gpiochip[0]), vec![3, 7]);
    assert_eq!(requested_lines(&ChipConfig::new("c".to_string(), Vec::new())), Vec::<u32>::new());
}

#[test]
fn producers_one_watcher_per_chip_then_ticker() {
    assert_eq!(
        producers(2),
        vec![Producer::Watcher(0), Producer::Watcher(1), Producer::Ticker]
    );
}

#[test]
fn no_chips_only_ticker() {
    let ps = producers(0);
    assert_eq!(ps, vec![Producer::Ticker]);
    assert_eq!(tick(), Event::Heartbeat);
}
