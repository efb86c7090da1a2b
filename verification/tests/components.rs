use lynx_runner::config::{Input, RunnerConfig};
use lynx_runner::input::InputTracker;
use lynx_runner::ring::SampleRing;
use lynx_runner::timing::TimingConfig;

#[test]
fn ring_keeps_pushes_in_order_within_capacity() {
    let mut ring = SampleRing::new(8);
    let pairs = [(1i16, -1i16), (2, -2), (3, -3), (4, -4), (5, -5)];
    for p in pairs {
        assert!(ring.push(p));
    }
    assert_eq!(ring.len(), 5);
    for p in pairs {
        assert_eq!(ring.pop(), Some(p));
    }
    assert_eq!(ring.pop(), None);
}

#[test]
fn ring_overflow_drops_newest() {
    let mut ring = SampleRing::new(4);
    for i in 1i16..=4 {
        assert!(ring.push((i, i)));
    }
    assert!(!ring.push((5, 5)));
    assert!(!ring.push((6, 6)));
    assert_eq!(ring.len(), 4);
    for i in 1i16..=4 {
        assert_eq!(ring.pop(), Some((i, i)));
    }
    assert_eq!(ring.pop(), None);
}

#[test]
fn ring_capacity_one() {
    let mut ring = SampleRing::new(1);
    assert!(ring.push((7, 7)));
    assert!(!ring.push((8, 8)));
    assert_eq!(ring.pop(), Some((7, 7)));
    assert!(ring.push((9, 9)));
    assert_eq!(ring.pop(), Some((9, 9)));
}

#[test]
fn empty_ring_yields_silence_indefinitely() {
    let mut ring = SampleRing::new(4);
    for _ in 0..1000 {
        assert_eq!(ring.pop_or_silence(), (0, 0));
    }
    assert_eq!(ring.len(), 0);
}

#[test]
fn pop_or_silence_returns_queued_pairs_first() {
    let mut ring = SampleRing::new(4);
    ring.push((3, 4));
    assert_eq!(ring.pop_or_silence(), (3, 4));
    assert_eq!(ring.pop_or_silence(), (0, 0));
}

#[test]
fn nominal_group_period_is_500ns() {
    let t = TimingConfig::new(16_000_000, 8, 16_000);
    assert_eq!(t.group_period_nanos(), 500);
}

#[test]
fn nominal_decimation_is_one_pair_per_1000_ticks() {
    let t = TimingConfig::new(16_000_000, 8, 16_000);
    assert_eq!(t.ticks_per_sample(), 1000);
}

#[test]
fn other_timing_ratios() {
    let t = TimingConfig::new(16_000_000, 16, 8_000);
    assert_eq!(t.group_period_nanos(), 1000);
    assert_eq!(t.ticks_per_sample(), 2000);
}

#[test]
fn unchanged_snapshot_is_not_sent() {
    let mut tracker = InputTracker::new();
    assert_eq!(tracker.update(0, 0), None);
    assert_eq!(tracker.update(5, 0), Some((5, 0)));
    assert_eq!(tracker.update(5, 0), None);
    assert_eq!(tracker.update(5, 0), None);
    assert_eq!(tracker.update(5, 1), Some((5, 1)));
    assert_eq!(tracker.update(0, 1), Some((0, 1)));
    assert_eq!(tracker.update(0, 1), None);
}

#[test]
fn config_defaults() {
    let config = RunnerConfig::new();
    assert_eq!(*config.rom(), None);
    assert_eq!(*config.cartridge(), None);
    assert!(config.button_mapping().is_empty());
    assert!(!config.linear_filter());
    assert!(!config.mute());
    assert!(!config.comlynx());
    assert_eq!(config.comlynx_port(), 0);
}

#[test]
fn config_setters() {
    let mut config = RunnerConfig::new();
    config.set_rom(String::from("boot.img"));
    config.set_cartridge(String::from("game.lnx"));
    config.set_linear_filter(true);
    config.set_mute(true);
    config.set_comlynx(true);
    config.set_comlynx_port(4321);
    assert_eq!(*config.rom(), Some(String::from("boot.img")));
    assert_eq!(*config.cartridge(), Some(String::from("game.lnx")));
    assert!(config.linear_filter());
    assert!(config.mute());
    assert!(config.comlynx());
    assert_eq!(config.comlynx_port(), 4321);
}

#[test]
fn button_mapping_inserts_and_replaces() {
    let mut config = RunnerConfig::new();
    config.set_button_mapping(10, Input::Up);
    config.set_button_mapping(11, Input::Down);
    config.set_button_mapping(10, Input::Pause);
    assert_eq!(
        *config.button_mapping(),
        vec![(10, Input::Pause), (11, Input::Down)]
    );
}
