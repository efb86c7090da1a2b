use lynx_runner::config::RunnerConfig;
use lynx_runner::core_api::EmulationCore;
use lynx_runner::serial::SerialEvent;
use lynx_runner::timing::TimingConfig;
use lynx_runner::worker::{InitError, Worker, WorkerState};
use lynx_runner::Rotation;

/// A core whose reactions are scripted and recorded, so the scheduler's
/// behaviour can be observed from outside.
struct ScriptedCore {
    accept_rom: bool,
    accept_cartridge: bool,
    rotation: Rotation,
    redraw_every: Option<u64>,
    redraw_pending: bool,
    ticks: u64,
    next_sample: i16,
    rom_loads: usize,
    cartridge_loads: usize,
    joystick_calls: Vec<u8>,
    switches_calls: Vec<u8>,
    rx_bytes: Vec<u8>,
    cable_calls: Vec<bool>,
    tx_queue: Vec<u8>,
}

impl ScriptedCore {
    fn new() -> Self {
        ScriptedCore {
            accept_rom: true,
            accept_cartridge: true,
            rotation: Rotation::Normal,
            redraw_every: None,
            redraw_pending: false,
            ticks: 0,
            next_sample: 0,
            rom_loads: 0,
            cartridge_loads: 0,
            joystick_calls: Vec::new(),
            switches_calls: Vec::new(),
            rx_bytes: Vec::new(),
            cable_calls: Vec::new(),
            tx_queue: Vec::new(),
        }
    }
}

impl EmulationCore for ScriptedCore {
    fn load_rom(&mut self, _bytes: &[u8]) -> bool {
        self.rom_loads += 1;
        self.accept_rom
    }

    fn load_cartridge(&mut self, _bytes: &[u8]) -> bool {
        self.cartridge_loads += 1;
        self.accept_cartridge
    }

    fn tick(&mut self) {
        self.ticks += 1;
        if let Some(n) = self.redraw_every {
            if self.ticks % n == 0 {
                self.redraw_pending = true;
            }
        }
    }

    fn set_joystick(&mut self, bits: u8) {
        self.joystick_calls.push(bits);
    }

    fn set_switches(&mut self, bits: u8) {
        self.switches_calls.push(bits);
    }

    fn audio_sample(&mut self) -> (i16, i16) {
        self.next_sample += 1;
        (self.next_sample, -self.next_sample)
    }

    fn redraw_requested(&mut self) -> bool {
        let r = self.redraw_pending;
        self.redraw_pending = false;
        r
    }

    fn frame_pixels(&mut self) -> Vec<u8> {
        vec![7u8; 12]
    }

    fn rotation(&mut self) -> Rotation {
        self.rotation
    }

    fn set_cable_present(&mut self, present: bool) {
        self.cable_calls.push(present);
    }

    fn serial_rx(&mut self, byte: u8) {
        self.rx_bytes.push(byte);
    }

    fn serial_tx(&mut self) -> Option<u8> {
        if self.tx_queue.is_empty() {
            None
        } else {
            Some(self.tx_queue.remove(0))
        }
    }
}

struct Harness {
    worker: Worker<ScriptedCore>,
    input_tx: kanal::Sender<(u8, u8)>,
    frame_rx: kanal::Receiver<Vec<u8>>,
    rotation_rx: kanal::Receiver<Rotation>,
    sample_req_tx: kanal::Sender<()>,
    sample_out_rx: kanal::Receiver<(i16, i16)>,
    serial_events_tx: kanal::Sender<SerialEvent>,
    serial_out_rx: kanal::Receiver<u8>,
}

fn harness(core: ScriptedCore, serial: bool) -> Harness {
    let (input_tx, input_rx) = kanal::unbounded();
    let (frame_tx, frame_rx) = kanal::bounded(1);
    let (rotation_tx, rotation_rx) = kanal::unbounded();
    let (sample_req_tx, sample_req_rx) = kanal::unbounded();
    let (sample_out_tx, sample_out_rx) = kanal::unbounded();
    let (serial_events_tx, serial_events_rx) = kanal::unbounded();
    let (serial_out_tx, serial_out_rx) = kanal::unbounded();
    let mut config = RunnerConfig::new();
    config.set_cartridge(String::from("game.lnx"));
    config.set_comlynx(serial);
    let timing = TimingConfig::new(16_000_000, 8, 16_000);
    let worker = Worker::new(
        core,
        config,
        timing,
        input_rx,
        frame_tx,
        rotation_tx,
        sample_req_rx,
        sample_out_tx,
        if serial { Some(serial_events_rx) } else { None },
        if serial { Some(serial_out_tx) } else { None },
    );
    Harness {
        worker,
        input_tx,
        frame_rx,
        rotation_rx,
        sample_req_tx,
        sample_out_rx,
        serial_events_tx,
        serial_out_rx,
    }
}

#[test]
fn initialize_publishes_rotation_once_before_any_frame() {
    let mut core = ScriptedCore::new();
    core.rotation = Rotation::Rotate270;
    let mut h = harness(core, false);
    let rot = h.worker.initialize(None, b"cart").expect("cartridge accepted");
    assert!(matches!(
        rot,
        Rotation::Normal | Rotation::Rotate90 | Rotation::Rotate270
    ));
    assert_eq!(rot, Rotation::Rotate270);
    assert_eq!(h.worker.state(), WorkerState::Loaded);
    assert_eq!(h.rotation_rx.try_recv().unwrap(), Some(Rotation::Rotate270));
    assert_eq!(h.rotation_rx.try_recv().unwrap(), None);
    assert_eq!(h.frame_rx.try_recv().unwrap(), None);
}

#[test]
fn rejected_cartridge_is_fatal_and_publishes_nothing() {
    let mut core = ScriptedCore::new();
    core.accept_cartridge = false;
    let mut h = harness(core, false);
    let r = h.worker.initialize(None, b"bad");
    assert_eq!(r, Err(InitError::CartridgeRejected));
    assert_eq!(h.worker.state(), WorkerState::Uninitialized);
    assert_eq!(h.rotation_rx.try_recv().unwrap(), None);
}

#[test]
fn rejected_rom_override_is_fatal() {
    let mut core = ScriptedCore::new();
    core.accept_rom = false;
    let mut h = harness(core, false);
    let r = h.worker.initialize(Some(b"boot"), b"cart");
    assert_eq!(r, Err(InitError::RomRejected));
    assert_eq!(h.worker.state(), WorkerState::Uninitialized);
    assert_eq!(h.worker.core_ref().cartridge_loads, 0);
    assert_eq!(h.rotation_rx.try_recv().unwrap(), None);
}

#[test]
fn absent_rom_override_never_reports_rom_rejection() {
    let mut core = ScriptedCore::new();
    core.accept_rom = false;
    let mut h = harness(core, false);
    let r = h.worker.initialize(None, b"cart");
    assert!(r.is_ok());
    assert_eq!(h.worker.core_ref().rom_loads, 0);
}

#[test]
fn one_sample_pair_per_thousand_ticks() {
    let core = ScriptedCore::new();
    let mut h = harness(core, false);
    h.worker.initialize(None, b"cart").unwrap();
    let stopped = h.worker.run(125);
    assert!(!stopped);
    assert_eq!(h.worker.state(), WorkerState::Running);
    assert_eq!(h.worker.core_ref().ticks, 1000);
    assert_eq!(h.worker.audio_backlog(), 1);
    h.sample_req_tx.send(()).unwrap();
    assert!(h.worker.service_audio_request());
    assert_eq!(h.sample_out_rx.try_recv().unwrap(), Some((1, -1)));
    drop(h.input_tx);
}

#[test]
fn pacing_loop_can_be_reentered() {
    let core = ScriptedCore::new();
    let mut h = harness(core, false);
    h.worker.initialize(None, b"cart").unwrap();
    assert!(!h.worker.run(2));
    assert!(!h.worker.run(3));
    assert_eq!(h.worker.state(), WorkerState::Running);
    assert_eq!(h.worker.core_ref().ticks, 40);
    drop(h.input_tx);
}

#[test]
fn muted_worker_emits_no_samples() {
    let (input_tx, input_rx) = kanal::unbounded();
    let (frame_tx, _frame_rx) = kanal::bounded::<Vec<u8>>(1);
    let (rotation_tx, _rotation_rx) = kanal::unbounded();
    let (_sample_req_tx, sample_req_rx) = kanal::unbounded();
    let (sample_out_tx, _sample_out_rx) = kanal::unbounded();
    let mut config = RunnerConfig::new();
    config.set_cartridge(String::from("game.lnx"));
    config.set_mute(true);
    let timing = TimingConfig::new(16_000_000, 8, 16_000);
    let mut worker = Worker::new(
        ScriptedCore::new(),
        config,
        timing,
        input_rx,
        frame_tx,
        rotation_tx,
        sample_req_rx,
        sample_out_tx,
        None,
        None,
    );
    worker.initialize(None, b"cart").unwrap();
    assert!(!worker.run(125));
    assert_eq!(worker.core_ref().ticks, 1000);
    assert_eq!(worker.audio_backlog(), 0);
    drop(input_tx);
}

#[test]
fn empty_backlog_serves_silence_without_blocking() {
    let core = ScriptedCore::new();
    let mut h = harness(core, false);
    h.worker.initialize(None, b"cart").unwrap();
    for _ in 0..16 {
        h.sample_req_tx.send(()).unwrap();
        assert!(h.worker.service_audio_request());
        assert_eq!(h.sample_out_rx.try_recv().unwrap(), Some((0, 0)));
    }
    assert!(!h.worker.service_audio_request());
}

#[test]
fn closed_input_channel_stops_worker_within_one_iteration() {
    let core = ScriptedCore::new();
    let mut h = harness(core, false);
    h.worker.initialize(None, b"cart").unwrap();
    drop(h.input_tx);
    let stopped = h.worker.run(1_000_000);
    assert!(stopped);
    assert_eq!(h.worker.state(), WorkerState::Stopped);
    assert_eq!(h.worker.core_ref().ticks, 0);
}

#[test]
fn buffered_input_snapshot_is_applied_before_the_tick_group() {
    let core = ScriptedCore::new();
    let mut h = harness(core, false);
    h.worker.initialize(None, b"cart").unwrap();
    h.input_tx.send((0b1010, 0b01)).unwrap();
    assert!(!h.worker.run(1));
    let core = h.worker.core_ref();
    assert_eq!(core.joystick_calls, vec![0b1010]);
    assert_eq!(core.switches_calls, vec![0b01]);
    assert_eq!(core.ticks, 8);
    drop(h.input_tx);
}

#[test]
fn completed_frames_are_published_and_extras_dropped() {
    let mut core = ScriptedCore::new();
    core.redraw_every = Some(8);
    let mut h = harness(core, false);
    h.worker.initialize(None, b"cart").unwrap();
    assert!(!h.worker.run(3));
    let first = h.frame_rx.try_recv().unwrap();
    assert_eq!(first, Some(vec![7u8; 12]));
    drop(h.input_tx);
}

#[test]
fn full_frame_channel_never_stalls_the_loop() {
    let mut core = ScriptedCore::new();
    core.redraw_every = Some(8);
    let mut h = harness(core, false);
    h.worker.initialize(None, b"cart").unwrap();
    assert!(!h.worker.run(10));
    assert_eq!(h.worker.core_ref().ticks, 80);
    assert_eq!(h.frame_rx.try_recv().unwrap(), Some(vec![7u8; 12]));
    assert_eq!(h.frame_rx.try_recv().unwrap(), None);
    drop(h.input_tx);
}

#[test]
fn serial_session_delivers_bytes_in_order_then_drops_cable() {
    let core = ScriptedCore::new();
    let mut h = harness(core, true);
    h.worker.initialize(None, b"cart").unwrap();
    h.serial_events_tx.send(SerialEvent::Connected).unwrap();
    h.serial_events_tx
        .send(SerialEvent::Data(vec![1, 2, 3]))
        .unwrap();
    h.serial_events_tx.send(SerialEvent::Closed).unwrap();
    assert!(!h.worker.run(3));
    let core = h.worker.core_ref();
    assert_eq!(core.rx_bytes, vec![1, 2, 3]);
    assert_eq!(core.cable_calls, vec![true, false]);
    drop(h.input_tx);
}

#[test]
fn replacement_peer_keeps_cable_present() {
    let core = ScriptedCore::new();
    let mut h = harness(core, true);
    h.worker.initialize(None, b"cart").unwrap();
    h.serial_events_tx.send(SerialEvent::Connected).unwrap();
    h.serial_events_tx.send(SerialEvent::Connected).unwrap();
    assert!(!h.worker.run(2));
    assert_eq!(h.worker.core_ref().cable_calls, vec![true, true]);
    drop(h.input_tx);
}

#[test]
fn core_transmit_bytes_are_forwarded() {
    let mut core = ScriptedCore::new();
    core.tx_queue = vec![9, 8];
    let mut h = harness(core, true);
    h.worker.initialize(None, b"cart").unwrap();
    assert!(!h.worker.run(2));
    assert_eq!(h.serial_out_rx.try_recv().unwrap(), Some(9));
    assert_eq!(h.serial_out_rx.try_recv().unwrap(), Some(8));
    assert_eq!(h.serial_out_rx.try_recv().unwrap(), None);
    drop(h.input_tx);
}
