use vstd::prelude::*;
use crate::channel;
use crate::channel::{RecvOutcome, SendOutcome};
use crate::clock;
use crate::config::RunnerConfig;
use crate::core_api::EmulationCore;
use crate::ring;
use crate::ring::{push_model, SampleRing};
use crate::serial::{bridge_step, BridgeModel, SerialBridge, SerialEvent, SerialEventView};
use crate::timing::TimingConfig;
use crate::Rotation;

verus! {

/// Queue length above which the decimation interval is widened, and the
/// widening step. Throttling constants are tunable, not load-bearing.
pub const BACKLOG_HIGH_WATER: usize = 1100;

pub const THRESHOLD_STEP: u32 = 2;

/// Upper bound on pacing iterations and on busy-wait spins: large enough to
/// be unreachable in practice, so each loop's termination is evident.
pub const SPIN_LIMIT: u64 = u64::MAX;

/// Lifecycle of the worker: images are loaded once, the rotation handshake
/// is completed once, then the pacing loop runs until the input channel is
/// closed.
#[derive(Clone, Copy, Debug, PartialEq, Eq, Structural)]
pub enum WorkerState {
    Uninitialized,
    Loaded,
    Running,
    Stopped,
}

/// Why startup was aborted. Both are fatal: there is nothing meaningful to
/// run without an accepted cartridge image.
#[derive(Clone, Copy, Debug, PartialEq, Eq, Structural)]
pub enum InitError {
    /// The boot image override was rejected by the core.
    RomRejected,
    /// The cartridge image was rejected by the core.
    CartridgeRejected,
}

/// The decimation interval after one emission, given the queue backlog seen
/// at that emission: a long backlog widens the interval by one step.
pub open spec fn backlog_adjust(threshold: u32, backlog: nat) -> u32 {
    if backlog > BACKLOG_HIGH_WATER && threshold + THRESHOLD_STEP <= u32::MAX {
        (threshold + THRESHOLD_STEP) as u32
    } else {
        threshold
    }
}

/// The decimation interval after one consumer underrun: narrowed by one
/// step, but never below two ticks per sample.
pub open spec fn underrun_adjust(threshold: u32) -> u32 {
    if threshold >= 2 + THRESHOLD_STEP {
        (threshold - THRESHOLD_STEP) as u32
    } else {
        threshold
    }
}

/// Everything the audio derivation owns: the per-tick counter, the current
/// decimation interval, the queued pairs and the count of pairs emitted so
/// far. The worker's audio state evolves by exactly the two steps below.
#[verifier::ext_equal]
pub struct AudioModel {
    pub sound_tick: u32,
    pub sample_ticks: u32,
    pub ring: Seq<(i16, i16)>,
    pub emitted: nat,
}

/// One served playback pull: the oldest pair leaves the queue, or an
/// underrun narrows the decimation interval.
pub open spec fn audio_serve_step(m: AudioModel) -> AudioModel {
    if m.ring.len() > 0 {
        AudioModel { ring: m.ring.drop_first(), ..m }
    } else {
        AudioModel { sample_ticks: underrun_adjust(m.sample_ticks), ..m }
    }
}

/// One core tick of the decimation: the counter advances; when it reaches
/// the interval it clears, the interval widens if the queue has fallen
/// behind, and the drawn pair is queued (dropped when the queue is full).
pub open spec fn audio_tick_step(m: AudioModel, capacity: nat, pair: (i16, i16)) -> AudioModel {
    if m.sound_tick + 1 < m.sample_ticks {
        AudioModel { sound_tick: (m.sound_tick + 1) as u32, ..m }
    } else {
        AudioModel {
            sound_tick: 0,
            sample_ticks: backlog_adjust(m.sample_ticks, m.ring.len()),
            ring: push_model(m.ring, capacity, pair),
            emitted: m.emitted + 1,
        }
    }
}

/// The audio state after `n` served pulls.
pub open spec fn serve_run(m: AudioModel, n: nat) -> AudioModel
    decreases n,
{
    if n == 0 {
        m
    } else {
        serve_run(audio_serve_step(m), (n - 1) as nat)
    }
}

/// The audio state after one tick per element of `pairs` (each element is
/// the pair the core handed at that tick; a non-emitting tick ignores it).
pub open spec fn sound_run(m: AudioModel, capacity: nat, pairs: Seq<(i16, i16)>) -> AudioModel
    decreases pairs.len(),
{
    if pairs.len() == 0 {
        m
    } else {
        sound_run(audio_tick_step(m, capacity, pairs[0]), capacity, pairs.drop_first())
    }
}

/// What one pacing iteration does to the audio state: some number of served
/// pulls during the spin-wait, then exactly `ticks` decimation steps, one
/// per core tick of the group.
pub open spec fn step_audio(a: AudioModel, b: AudioModel, capacity: nat, ticks: nat) -> bool {
    exists|n: nat, pairs: Seq<(i16, i16)>|
        pairs.len() == ticks && b == sound_run(serve_run(a, n), capacity, pairs)
}

/// What `iters` pacing iterations do to the audio state.
pub open spec fn run_audio(
    a: AudioModel,
    b: AudioModel,
    capacity: nat,
    ticks: nat,
    iters: nat,
) -> bool
    decreases iters,
{
    if iters == 0 {
        b == a
    } else {
        exists|mid: AudioModel|
            step_audio(a, mid, capacity, ticks) && run_audio(mid, b, capacity, ticks, (iters - 1) as nat)
    }
}

/// Serving one more pull after `n` serves is the same as serving it last.
proof fn lemma_serve_run_snoc(m: AudioModel, n: nat)
    ensures
        serve_run(m, n + 1) == audio_serve_step(serve_run(m, n)),
    decreases n,
{
    if n == 0 {
        assert(serve_run(m, 1) == serve_run(audio_serve_step(m), 0));
    } else {
        lemma_serve_run_snoc(audio_serve_step(m), (n - 1) as nat);
        assert(serve_run(m, n + 1) == serve_run(audio_serve_step(m), n));
        assert(serve_run(m, n) == serve_run(audio_serve_step(m), (n - 1) as nat));
    }
}

/// Ticking one more pair after a run is the same as ticking it last.
proof fn lemma_sound_run_snoc(m: AudioModel, capacity: nat, pairs: Seq<(i16, i16)>, pair: (
    i16,
    i16,
))
    ensures
        sound_run(m, capacity, pairs.push(pair)) == audio_tick_step(
            sound_run(m, capacity, pairs),
            capacity,
            pair,
        ),
    decreases pairs.len(),
{
    if pairs.len() == 0 {
        assert(pairs.push(pair).drop_first() =~= Seq::<(i16, i16)>::empty());
        assert(pairs.push(pair)[0] == pair);
        assert(sound_run(m, capacity, pairs.push(pair)) == sound_run(
            audio_tick_step(m, capacity, pair),
            capacity,
            pairs.push(pair).drop_first(),
        ));
        assert(sound_run(audio_tick_step(m, capacity, pair), capacity, Seq::<(i16, i16)>::empty())
            == audio_tick_step(m, capacity, pair));
    } else {
        assert(pairs.push(pair)[0] == pairs[0]);
        assert(pairs.push(pair).drop_first() =~= pairs.drop_first().push(pair));
        lemma_sound_run_snoc(audio_tick_step(m, capacity, pairs[0]), capacity, pairs.drop_first(), pair);
        assert(sound_run(m, capacity, pairs.push(pair)) == sound_run(
            audio_tick_step(m, capacity, pairs[0]),
            capacity,
            pairs.drop_first().push(pair),
        ));
        assert(sound_run(m, capacity, pairs) == sound_run(
            audio_tick_step(m, capacity, pairs[0]),
            capacity,
            pairs.drop_first(),
        ));
    }
}

/// A run of pairs splits at any point.
proof fn lemma_sound_run_concat(
    m: AudioModel,
    capacity: nat,
    a: Seq<(i16, i16)>,
    b: Seq<(i16, i16)>,
)
    ensures
        sound_run(m, capacity, a + b) == sound_run(sound_run(m, capacity, a), capacity, b),
    decreases a.len(),
{
    if a.len() == 0 {
        assert(a + b =~= b);
    } else {
        assert((a + b)[0] == a[0]);
        assert((a + b).drop_first() =~= a.drop_first() + b);
        lemma_sound_run_concat(audio_tick_step(m, capacity, a[0]), capacity, a.drop_first(), b);
    }
}

/// One more pacing iteration after `iters` is the same as pacing it last.
proof fn lemma_run_audio_snoc(
    a: AudioModel,
    b: AudioModel,
    c: AudioModel,
    capacity: nat,
    ticks: nat,
    iters: nat,
)
    requires
        run_audio(a, b, capacity, ticks, iters),
        step_audio(b, c, capacity, ticks),
    ensures
        run_audio(a, c, capacity, ticks, iters + 1),
    decreases iters,
{
    if iters == 0 {
        assert(run_audio(b, c, capacity, ticks, 1)) by {
            assert(step_audio(b, c, capacity, ticks) && run_audio(c, c, capacity, ticks, 0));
        }
    } else {
        let mid = choose|mid: AudioModel|
            step_audio(a, mid, capacity, ticks) && run_audio(
                mid,
                b,
                capacity,
                ticks,
                (iters - 1) as nat,
            );
        lemma_run_audio_snoc(mid, b, c, capacity, ticks, (iters - 1) as nat);
    }
}

/// One full decimation period from a cleared counter: the counter comes
/// back to zero, exactly one pair was emitted, the interval is untouched
/// (the queue was short enough that no throttling engages), and the queue
/// grew by at most the one pair.
proof fn lemma_sound_run_period(m: AudioModel, capacity: nat, pairs: Seq<(i16, i16)>)
    requires
        m.sample_ticks >= 1,
        m.sound_tick < m.sample_ticks,
        m.ring.len() <= BACKLOG_HIGH_WATER,
        pairs.len() == m.sample_ticks - m.sound_tick,
    ensures
        ({
            let m2 = sound_run(m, capacity, pairs);
            &&& m2.sound_tick == 0
            &&& m2.sample_ticks == m.sample_ticks
            &&& m2.emitted == m.emitted + 1
            &&& m2.ring.len() <= m.ring.len() + 1
        }),
    decreases pairs.len(),
{
    if pairs.len() == 1 {
        assert(pairs.drop_first() =~= Seq::<(i16, i16)>::empty());
        assert(sound_run(m, capacity, pairs) == sound_run(
            audio_tick_step(m, capacity, pairs[0]),
            capacity,
            pairs.drop_first(),
        ));
        assert(sound_run(audio_tick_step(m, capacity, pairs[0]), capacity, pairs.drop_first())
            == audio_tick_step(m, capacity, pairs[0]));
    } else {
        lemma_sound_run_period(audio_tick_step(m, capacity, pairs[0]), capacity, pairs.drop_first());
        assert(sound_run(m, capacity, pairs) == sound_run(
            audio_tick_step(m, capacity, pairs[0]),
            capacity,
            pairs.drop_first(),
        ));
    }
}

/// Law: from a cleared counter, with the queue short enough that the
/// throttling heuristic never engages, a run of `k * sample_ticks` core
/// ticks emits exactly `k` sample pairs — one pair per `sample_ticks`
/// ticks. `Worker::step` and `Worker::run` couple the worker's audio state
/// to `sound_run`, so this fixes the decimation ratio of the scheduler
/// itself.
pub proof fn lemma_decimation_ratio(m: AudioModel, capacity: nat, pairs: Seq<(i16, i16)>, k: nat)
    requires
        m.sound_tick == 0,
        m.sample_ticks >= 1,
        pairs.len() == k * m.sample_ticks,
        m.ring.len() + k <= BACKLOG_HIGH_WATER,
    ensures
        sound_run(m, capacity, pairs).emitted == m.emitted + k,
        sound_run(m, capacity, pairs).sample_ticks == m.sample_ticks,
        sound_run(m, capacity, pairs).sound_tick == 0,
    decreases k,
{
    if k == 0 {
        assert(k * m.sample_ticks == 0) by (nonlinear_arith)
            requires
                k == 0,
        ;
    } else {
        let t = m.sample_ticks as nat;
        assert(k * t >= t && (k * t - t) as nat == (k - 1) as nat * t) by (nonlinear_arith)
            requires
                t >= 1,
                k >= 1,
        ;
        let first = pairs.take(t as int);
        let rest = pairs.skip(t as int);
        assert(first + rest =~= pairs);
        lemma_sound_run_concat(m, capacity, first, rest);
        lemma_sound_run_period(m, capacity, first);
        lemma_decimation_ratio(sound_run(m, capacity, first), capacity, rest, (k - 1) as nat);
    }
}

/// The scheduler: owns the emulation core exclusively, ticks it at its
/// paced cadence, derives the audio stream, publishes completed frames
/// without ever blocking the tick loop, applies buffered input, and relays
/// the serial link. The core itself is opaque: every guarantee here holds
/// whatever the core does.
pub struct Worker<C: EmulationCore> {
    core: C,
    config: RunnerConfig,
    timing: TimingConfig,
    state: WorkerState,
    ring: SampleRing,
    sound_tick: u32,
    sample_ticks: u32,
    next_trigger: std::time::Instant,
    joystick: u8,
    switches: u8,
    input_rx: kanal::Receiver<(u8, u8)>,
    frame_tx: kanal::Sender<Vec<u8>>,
    rotation_tx: kanal::Sender<Rotation>,
    sample_req_rx: kanal::Receiver<()>,
    sample_out_tx: kanal::Sender<(i16, i16)>,
    serial_events_rx: Option<kanal::Receiver<SerialEvent>>,
    serial_out_tx: Option<kanal::Sender<u8>>,
    bridge: SerialBridge,
    ticks: Ghost<nat>,
    samples_emitted: Ghost<nat>,
    input_log: Ghost<Seq<(u8, u8)>>,
    frame_log: Ghost<Seq<Seq<u8>>>,
    replies: Ghost<Seq<(i16, i16)>>,
    rotation_sent: Ghost<Option<Rotation>>,
}

impl<C: EmulationCore> Worker<C> {
    pub closed spec fn spec_state(self) -> WorkerState {
        self.state
    }

    pub closed spec fn spec_core(self) -> C {
        self.core
    }

    pub closed spec fn spec_config(self) -> RunnerConfig {
        self.config
    }

    pub closed spec fn spec_timing(self) -> TimingConfig {
        self.timing
    }

    pub closed spec fn spec_ring(self) -> Seq<(i16, i16)> {
        self.ring@
    }

    pub closed spec fn spec_ring_capacity(self) -> nat {
        self.ring.spec_capacity()
    }

    pub closed spec fn spec_sound_tick(self) -> u32 {
        self.sound_tick
    }

    pub closed spec fn spec_sample_ticks(self) -> u32 {
        self.sample_ticks
    }

    pub closed spec fn spec_joystick(self) -> u8 {
        self.joystick
    }

    pub closed spec fn spec_switches(self) -> u8 {
        self.switches
    }

    /// Total core ticks advanced so far.
    pub closed spec fn spec_ticks(self) -> nat {
        self.ticks@
    }

    /// Total sample pairs drawn from the core so far (pushed toward the
    /// ring; a full ring drops them).
    pub closed spec fn spec_samples_emitted(self) -> nat {
        self.samples_emitted@
    }

    /// The input snapshots applied to the core, in order.
    pub closed spec fn spec_input_log(self) -> Seq<(u8, u8)> {
        self.input_log@
    }

    /// The frame payloads actually handed to the frame channel, in order.
    pub closed spec fn spec_frame_log(self) -> Seq<Seq<u8>> {
        self.frame_log@
    }

    /// The sample pairs handed to the playback reply channel, in order.
    pub closed spec fn spec_replies(self) -> Seq<(i16, i16)> {
        self.replies@
    }

    /// The audio derivation's whole state, as one value of its step model.
    pub closed spec fn spec_audio(self) -> AudioModel {
        AudioModel {
            sound_tick: self.sound_tick,
            sample_ticks: self.sample_ticks,
            ring: self.ring@,
            emitted: self.samples_emitted@,
        }
    }

    pub closed spec fn spec_input_rx(self) -> kanal::Receiver<(u8, u8)> {
        self.input_rx
    }

    pub closed spec fn spec_frame_tx(self) -> kanal::Sender<Vec<u8>> {
        self.frame_tx
    }

    pub closed spec fn spec_rotation_tx(self) -> kanal::Sender<Rotation> {
        self.rotation_tx
    }

    pub closed spec fn spec_sample_req_rx(self) -> kanal::Receiver<()> {
        self.sample_req_rx
    }

    pub closed spec fn spec_sample_out_tx(self) -> kanal::Sender<(i16, i16)> {
        self.sample_out_tx
    }

    pub closed spec fn spec_serial_events_rx(self) -> Option<kanal::Receiver<SerialEvent>> {
        self.serial_events_rx
    }

    pub closed spec fn spec_serial_out_tx(self) -> Option<kanal::Sender<u8>> {
        self.serial_out_tx
    }

    /// The rotation published through the one-shot handshake, once done.
    pub closed spec fn spec_rotation_sent(self) -> Option<Rotation> {
        self.rotation_sent@
    }

    pub closed spec fn bridge_model(self) -> BridgeModel {
        self.bridge.model()
    }

    /// The configuration, pacing parameters and channel endpoints never
    /// change after construction.
    pub closed spec fn same_wiring(a: Self, b: Self) -> bool {
        &&& a.config == b.config
        &&& a.timing == b.timing
        &&& a.input_rx == b.input_rx
        &&& a.frame_tx == b.frame_tx
        &&& a.rotation_tx == b.rotation_tx
        &&& a.sample_req_rx == b.sample_req_rx
        &&& a.sample_out_tx == b.sample_out_tx
        &&& a.serial_events_rx == b.serial_events_rx
        &&& a.serial_out_tx == b.serial_out_tx
    }

    pub closed spec fn wf(self) -> bool {
        &&& self.timing.wf()
        &&& self.ring.wf()
        &&& self.ring.spec_capacity() == self.timing.sample_rate as nat
        &&& self.sample_ticks >= 1
        &&& ((self.state is Loaded || self.state is Running || self.state is Stopped)
            ==> self.rotation_sent@ is Some)
    }

    /// Build a worker around an exclusively owned core. The ring holds one
    /// second of audio at the configured sample rate; the decimation
    /// interval starts at the exact crystal-to-sample-rate ratio. The serial
    /// endpoints are present exactly when the serial bridge capability is
    /// enabled; link I/O stays with the caller, which reports `SerialEvent`s.
    pub fn new(
        core: C,
        config: RunnerConfig,
        timing: TimingConfig,
        input_rx: kanal::Receiver<(u8, u8)>,
        frame_tx: kanal::Sender<Vec<u8>>,
        rotation_tx: kanal::Sender<Rotation>,
        sample_req_rx: kanal::Receiver<()>,
        sample_out_tx: kanal::Sender<(i16, i16)>,
        serial_events_rx: Option<kanal::Receiver<SerialEvent>>,
        serial_out_tx: Option<kanal::Sender<u8>>,
    ) -> (w: Self)
        requires
            timing.wf(),
        ensures
            w.wf(),
            w.spec_state() is Uninitialized,
            w.spec_config() == config,
            w.spec_timing() == timing,
            w.spec_core() == core,
            w.spec_ring() == Seq::<(i16, i16)>::empty(),
            w.spec_ring_capacity() == timing.sample_rate as nat,
            w.spec_sound_tick() == 0,
            w.spec_sample_ticks() == timing.spec_ticks_per_sample(),
            w.spec_joystick() == 0,
            w.spec_switches() == 0,
            w.spec_ticks() == 0,
            w.spec_samples_emitted() == 0,
            w.spec_input_log() == Seq::<(u8, u8)>::empty(),
            w.spec_frame_log() == Seq::<Seq<u8>>::empty(),
            w.spec_replies() == Seq::<(i16, i16)>::empty(),
            w.spec_rotation_sent() is None,
            w.spec_input_rx() == input_rx,
            w.spec_frame_tx() == frame_tx,
            w.spec_rotation_tx() == rotation_tx,
            w.spec_sample_req_rx() == sample_req_rx,
            w.spec_sample_out_tx() == sample_out_tx,
            w.spec_serial_events_rx() == serial_events_rx,
            w.spec_serial_out_tx() == serial_out_tx,
            w.bridge_model().rx_log == Seq::<u8>::empty(),
            w.bridge_model().cable_log == Seq::<bool>::empty(),
            !w.bridge_model().connected,
    {
        let sample_ticks = timing.ticks_per_sample();
        let ring = SampleRing::new(timing.sample_rate as usize);
        let next_trigger = clock::instant_now();
        Worker {
            core,
            config,
            timing,
            state: WorkerState::Uninitialized,
            ring,
            sound_tick: 0,
            sample_ticks,
            next_trigger,
            joystick: 0,
            switches: 0,
            input_rx,
            frame_tx,
            rotation_tx,
            sample_req_rx,
            sample_out_tx,
            serial_events_rx,
            serial_out_tx,
            bridge: SerialBridge::new(),
            ticks: Ghost(0),
            samples_emitted: Ghost(0),
            input_log: Ghost(Seq::empty()),
            frame_log: Ghost(Seq::empty()),
            replies: Ghost(Seq::empty()),
            rotation_sent: Ghost(Option::None),
        }
    }

    pub fn state(&self) -> (s: WorkerState)
        ensures
            s == self.spec_state(),
    {
        self.state
    }

    /// Read access to the owned core.
    pub fn core_ref(&self) -> (c: &C)
        ensures
            *c == self.spec_core(),
    {
        &self.core
    }

    /// Number of sample pairs queued and not yet consumed.
    pub fn audio_backlog(&self) -> (n: usize)
        ensures
            n == self.spec_ring().len(),
    {
        self.ring.len()
    }

    /// Hand the images to the core and complete the one-shot rotation
    /// handshake. The cartridge is mandatory — the caller aborts startup
    /// before ever having a worker without one — while the boot image is an
    /// optional override. A rejected image aborts initialization with the
    /// matching error and publishes nothing; on success the rotation (one of
    /// exactly three values) is handed to the handshake channel exactly
    /// once, before any frame. Delivery is best effort: the recorded
    /// rotation means "handed to the channel", and a receiver that is
    /// already gone only means the supervisor has given up on the worker.
    pub fn initialize(&mut self, rom: Option<&[u8]>, cartridge: &[u8]) -> (r: Result<
        Rotation,
        InitError,
    >)
        requires
            old(self).wf(),
            old(self).spec_state() is Uninitialized,
        ensures
            final(self).wf(),
            Self::same_wiring(*old(self), *final(self)),
            final(self).spec_audio() == old(self).spec_audio(),
            final(self).spec_ticks() == old(self).spec_ticks(),
            final(self).spec_input_log() == old(self).spec_input_log(),
            final(self).spec_frame_log() == old(self).spec_frame_log(),
            final(self).spec_replies() == old(self).spec_replies(),
            final(self).bridge_model() == old(self).bridge_model(),
            (r matches Ok(rot) ==> final(self).spec_state() is Loaded
                && final(self).spec_rotation_sent() == Some(rot)),
            (r is Err ==> final(self).spec_state() is Uninitialized
                && final(self).spec_rotation_sent() == old(self).spec_rotation_sent()),
            rom is None ==> !(r matches Err(e) && e is RomRejected),
    {
        match rom {
            Some(bytes) => {
                if !self.core.load_rom(bytes) {
                    return Err(InitError::RomRejected);
                }
            },
            None => {},
        }
        if !self.core.load_cartridge(cartridge) {
            return Err(InitError::CartridgeRejected);
        }
        let rot = self.core.rotation();
        let _ = channel::ch_send(&self.rotation_tx, rot);
        self.rotation_sent = Ghost(Some(rot));
        self.state = WorkerState::Loaded;
        Ok(rot)
    }

    /// One step of the audio derivation, run after every core tick: count
    /// the tick, and when the count reaches the decimation interval, clear
    /// it, widen the interval if the queue has fallen behind, and queue one
    /// stereo pair drawn from the core (dropped when the ring is full).
    /// Skipped entirely when muted.
    fn sound(&mut self)
        requires
            old(self).wf(),
        ensures
            final(self).wf(),
            Self::same_wiring(*old(self), *final(self)),
            final(self).spec_state() == old(self).spec_state(),
            final(self).spec_ticks() == old(self).spec_ticks(),
            final(self).spec_rotation_sent() == old(self).spec_rotation_sent(),
            final(self).spec_joystick() == old(self).spec_joystick(),
            final(self).spec_switches() == old(self).spec_switches(),
            final(self).spec_input_log() == old(self).spec_input_log(),
            final(self).spec_frame_log() == old(self).spec_frame_log(),
            final(self).spec_replies() == old(self).spec_replies(),
            final(self).bridge_model() == old(self).bridge_model(),
            final(self).spec_ring_capacity() == old(self).spec_ring_capacity(),
            old(self).spec_config().spec_mute() ==> *final(self) == *old(self),
            (!old(self).spec_config().spec_mute() ==> (exists|p: (i16, i16)|
                final(self).spec_audio() == audio_tick_step(
                    old(self).spec_audio(),
                    old(self).spec_ring_capacity(),
                    p,
                ))),
            (!old(self).spec_config().spec_mute() && old(self).spec_sound_tick() + 1 < old(self).spec_sample_ticks()) ==> final(self).spec_core() == old(self).spec_core(),
    {
        if self.config.mute() {
            return ;
        }
        if self.sound_tick >= self.sample_ticks - 1 {
            if self.ring.len() > BACKLOG_HIGH_WATER {
                if self.sample_ticks <= u32::MAX - THRESHOLD_STEP {
                    self.sample_ticks = self.sample_ticks + THRESHOLD_STEP;
                }
            }
            self.sound_tick = 0;
            let pair = self.core.audio_sample();
            let _ = self.ring.push(pair);
            self.samples_emitted = Ghost(self.samples_emitted@ + 1);
            proof {
                assert(self.spec_audio() =~= audio_tick_step(
                    old(self).spec_audio(),
                    old(self).spec_ring_capacity(),
                    pair,
                ));
            }
        } else {
            self.sound_tick = self.sound_tick + 1;
            proof {
                assert(self.spec_audio() =~= audio_tick_step(
                    old(self).spec_audio(),
                    old(self).spec_ring_capacity(),
                    crate::ring::SILENCE,
                ));
            }
        }
    }

    /// Serve one pending pull from the playback adapter, if any: answer with
    /// the oldest queued pair, or with silence on an empty queue — the
    /// consumer never blocks and never errors. An underrun also narrows the
    /// decimation interval by one step.
    pub fn service_audio_request(&mut self) -> (served: bool)
        requires
            old(self).wf(),
        ensures
            final(self).wf(),
            Self::same_wiring(*old(self), *final(self)),
            final(self).spec_state() == old(self).spec_state(),
            final(self).spec_core() == old(self).spec_core(),
            final(self).spec_ticks() == old(self).spec_ticks(),
            final(self).spec_rotation_sent() == old(self).spec_rotation_sent(),
            final(self).spec_joystick() == old(self).spec_joystick(),
            final(self).spec_switches() == old(self).spec_switches(),
            final(self).spec_input_log() == old(self).spec_input_log(),
            final(self).spec_frame_log() == old(self).spec_frame_log(),
            final(self).spec_ring_capacity() == old(self).spec_ring_capacity(),
            final(self).bridge_model() == old(self).bridge_model(),
            !served ==> final(self).spec_audio() == old(self).spec_audio() && final(self).spec_replies() == old(self).spec_replies(),
            served ==> final(self).spec_audio() == audio_serve_step(old(self).spec_audio()),
            served ==> final(self).spec_replies() == old(self).spec_replies().push(
                if old(self).spec_ring().len() > 0 {
                    old(self).spec_ring()[0]
                } else {
                    ring::SILENCE
                },
            ),
    {
        match channel::ch_try_recv(&self.sample_req_rx) {
            RecvOutcome::Item(()) => {
                let pair = match self.ring.pop() {
                    Some(v) => v,
                    None => {
                        if self.sample_ticks >= 2 + THRESHOLD_STEP {
                            self.sample_ticks = self.sample_ticks - THRESHOLD_STEP;
                        }
                        ring::SILENCE
                    },
                };
                let _ = channel::ch_send(&self.sample_out_tx, pair);
                self.replies = Ghost(self.replies@.push(pair));
                proof {
                    assert(self.spec_audio() =~= audio_serve_step(old(self).spec_audio()));
                }
                true
            },
            RecvOutcome::Empty => false,
            RecvOutcome::Closed => false,
        }
    }

    /// Busy-wait until the scheduled trigger instant is reached, serving
    /// playback pulls while spinning. Spinning rather than sleeping keeps
    /// wake-up jitter below the tick period; the iteration cap only makes
    /// termination evident and is unreachable in practice.
    fn pace(&mut self)
        requires
            old(self).wf(),
        ensures
            final(self).wf(),
            Self::same_wiring(*old(self), *final(self)),
            final(self).spec_state() == old(self).spec_state(),
            final(self).spec_core() == old(self).spec_core(),
            final(self).spec_ticks() == old(self).spec_ticks(),
            final(self).spec_rotation_sent() == old(self).spec_rotation_sent(),
            final(self).spec_joystick() == old(self).spec_joystick(),
            final(self).spec_switches() == old(self).spec_switches(),
            final(self).spec_input_log() == old(self).spec_input_log(),
            final(self).spec_frame_log() == old(self).spec_frame_log(),
            final(self).spec_ring_capacity() == old(self).spec_ring_capacity(),
            final(self).bridge_model() == old(self).bridge_model(),
            (exists|n: nat| final(self).spec_audio() == serve_run(old(self).spec_audio(), n)),
    {
        let ghost w0 = *self;
        let ghost mut serves: nat = 0;
        let mut spins: u64 = 0;
        let mut reached = false;
        while !reached && spins < SPIN_LIMIT
            invariant
                self.wf(),
                Self::same_wiring(w0, *self),
                self.spec_state() == w0.spec_state(),
                self.spec_core() == w0.spec_core(),
                self.spec_ticks() == w0.spec_ticks(),
                self.spec_rotation_sent() == w0.spec_rotation_sent(),
                self.spec_joystick() == w0.spec_joystick(),
                self.spec_switches() == w0.spec_switches(),
                self.spec_input_log() == w0.spec_input_log(),
                self.spec_frame_log() == w0.spec_frame_log(),
                self.spec_ring_capacity() == w0.spec_ring_capacity(),
                self.bridge_model() == w0.bridge_model(),
                self.spec_audio() == serve_run(w0.spec_audio(), serves),
            decreases SPIN_LIMIT - spins,
        {
            let now = clock::instant_now();
            if clock::instant_reached(&now, &self.next_trigger) {
                reached = true;
            } else {
                let ghost before = self.spec_audio();
                let served = self.service_audio_request();
                proof {
                    if served {
                        lemma_serve_run_snoc(w0.spec_audio(), serves);
                        serves = serves + 1;
                    }
                }
            }
            spins = spins + 1;
        }
    }

    /// Schedule the next trigger one tick-group period from now. On the
    /// unreachable overflow of the clock's range the trigger stays at `now`,
    /// which only paces the next group early.
    fn advance_trigger(&mut self)
        requires
            old(self).wf(),
        ensures
            final(self).wf(),
            Self::same_wiring(*old(self), *final(self)),
            final(self).spec_state() == old(self).spec_state(),
            final(self).spec_core() == old(self).spec_core(),
            final(self).spec_audio() == old(self).spec_audio(),
            final(self).spec_ticks() == old(self).spec_ticks(),
            final(self).spec_rotation_sent() == old(self).spec_rotation_sent(),
            final(self).spec_joystick() == old(self).spec_joystick(),
            final(self).spec_switches() == old(self).spec_switches(),
            final(self).spec_input_log() == old(self).spec_input_log(),
            final(self).spec_frame_log() == old(self).spec_frame_log(),
            final(self).spec_replies() == old(self).spec_replies(),
            final(self).spec_ring_capacity() == old(self).spec_ring_capacity(),
            final(self).bridge_model() == old(self).bridge_model(),
    {
        let period = self.timing.group_period_nanos();
        let now = clock::instant_now();
        match clock::instant_plus_nanos(&now, period) {
            Some(t) => self.next_trigger = t,
            None => self.next_trigger = now,
        }
    }

    /// Drain at most one buffered input snapshot and apply it to the core
    /// before the next tick group, so a whole group observes one consistent
    /// input state. True exactly when the input channel reports that its
    /// send side is gone — the sole shutdown signal.
    fn poll_input(&mut self) -> (stop: bool)
        requires
            old(self).wf(),
        ensures
            final(self).wf(),
            Self::same_wiring(*old(self), *final(self)),
            final(self).spec_state() == old(self).spec_state(),
            final(self).spec_audio() == old(self).spec_audio(),
            final(self).spec_ticks() == old(self).spec_ticks(),
            final(self).spec_frame_log() == old(self).spec_frame_log(),
            final(self).spec_replies() == old(self).spec_replies(),
            final(self).spec_rotation_sent() == old(self).spec_rotation_sent(),
            final(self).spec_ring_capacity() == old(self).spec_ring_capacity(),
            final(self).bridge_model() == old(self).bridge_model(),
            (stop ==> final(self).spec_core() == old(self).spec_core()
                && final(self).spec_joystick() == old(self).spec_joystick()
                && final(self).spec_switches() == old(self).spec_switches()
                && final(self).spec_input_log() == old(self).spec_input_log()),
            (!stop ==> (final(self).spec_core() == old(self).spec_core()
                && final(self).spec_joystick() == old(self).spec_joystick()
                && final(self).spec_switches() == old(self).spec_switches()
                && final(self).spec_input_log() == old(self).spec_input_log())
                || final(self).spec_input_log() == old(self).spec_input_log().push(
                (final(self).spec_joystick(), final(self).spec_switches()),
            )),
    {
        if channel::ch_receiver_disconnected(&self.input_rx) {
            return true;
        }
        match channel::ch_try_recv(&self.input_rx) {
            RecvOutcome::Item((joy, sw)) => {
                self.core.set_joystick(joy);
                self.core.set_switches(sw);
                self.joystick = joy;
                self.switches = sw;
                self.input_log = Ghost(self.input_log@.push((joy, sw)));
            },
            RecvOutcome::Empty => {},
            RecvOutcome::Closed => {},
        }
        false
    }

    /// Publish the completed frame, if the core reports one, by a
    /// non-blocking send: a full channel drops the frame silently — the
    /// designed backpressure policy, which never stalls emulation.
    fn publish_frame(&mut self)
        requires
            old(self).wf(),
        ensures
            final(self).wf(),
            Self::same_wiring(*old(self), *final(self)),
            final(self).spec_state() == old(self).spec_state(),
            final(self).spec_audio() == old(self).spec_audio(),
            final(self).spec_ticks() == old(self).spec_ticks(),
            final(self).spec_input_log() == old(self).spec_input_log(),
            final(self).spec_replies() == old(self).spec_replies(),
            final(self).spec_rotation_sent() == old(self).spec_rotation_sent(),
            final(self).spec_joystick() == old(self).spec_joystick(),
            final(self).spec_switches() == old(self).spec_switches(),
            final(self).spec_ring_capacity() == old(self).spec_ring_capacity(),
            final(self).bridge_model() == old(self).bridge_model(),
            final(self).spec_frame_log() == old(self).spec_frame_log() || (exists|px: Seq<u8>|
                final(self).spec_frame_log() == old(self).spec_frame_log().push(px)),
    {
        if self.core.redraw_requested() {
            let pixels = self.core.frame_pixels();
            let ghost px = pixels@;
            match channel::ch_try_send(&self.frame_tx, pixels) {
                SendOutcome::Delivered => {
                    self.frame_log = Ghost(self.frame_log@.push(px));
                },
                SendOutcome::Full => {},
                SendOutcome::Closed => {},
            }
        }
    }

    /// Relay the serial link: apply at most one observed link event to the
    /// core, then forward at most one byte the core wants to transmit. Does
    /// nothing when the bridge capability is absent.
    fn relay_serial(&mut self)
        requires
            old(self).wf(),
        ensures
            final(self).wf(),
            Self::same_wiring(*old(self), *final(self)),
            final(self).spec_state() == old(self).spec_state(),
            final(self).spec_audio() == old(self).spec_audio(),
            final(self).spec_ticks() == old(self).spec_ticks(),
            final(self).spec_input_log() == old(self).spec_input_log(),
            final(self).spec_frame_log() == old(self).spec_frame_log(),
            final(self).spec_replies() == old(self).spec_replies(),
            final(self).spec_rotation_sent() == old(self).spec_rotation_sent(),
            final(self).spec_joystick() == old(self).spec_joystick(),
            final(self).spec_switches() == old(self).spec_switches(),
            final(self).spec_ring_capacity() == old(self).spec_ring_capacity(),
            final(self).bridge_model() == old(self).bridge_model() || (exists|e: SerialEventView|
                final(self).bridge_model() == bridge_step(old(self).bridge_model(), e)),
            old(self).spec_serial_events_rx() is None ==> final(self).bridge_model() == old(self).bridge_model(),
    {
        let event = match &self.serial_events_rx {
            Some(rx) => channel::ch_try_recv(rx),
            None => {
                return ;
            },
        };
        match event {
            RecvOutcome::Item(e) => {
                self.bridge.handle_event(&mut self.core, &e);
            },
            RecvOutcome::Empty => {},
            RecvOutcome::Closed => {},
        }
        match &self.serial_out_tx {
            Some(tx) => {
                self.bridge.relay_tx(&mut self.core, tx);
            },
            None => {},
        }
    }

    /// One pacing iteration: wait for the trigger instant (serving playback
    /// pulls), schedule the next trigger one group period on, apply buffered
    /// input, advance the core exactly one tick group (deriving audio after
    /// every tick), publish a completed frame, and relay the serial link.
    /// True exactly when the closed input channel stopped the worker — the
    /// stop is observed before any tick of the iteration.
    ///
    /// The contract pins the iteration's whole observable effect: the audio
    /// state moves by some served pulls followed by exactly one tick group
    /// of decimation steps (`step_audio`); at most one input snapshot is
    /// applied — before the group, so all its ticks observe one input
    /// state — and it is the one appended to the input log; at most one
    /// frame payload is appended to the frame log; and the serial bridge
    /// advances by at most one event step.
    pub fn step(&mut self) -> (stop: bool)
        requires
            old(self).wf(),
            old(self).spec_state() is Running,
        ensures
            final(self).wf(),
            Self::same_wiring(*old(self), *final(self)),
            final(self).spec_rotation_sent() == old(self).spec_rotation_sent(),
            final(self).spec_ring_capacity() == old(self).spec_ring_capacity(),
            (stop ==> final(self).spec_state() is Stopped
                && final(self).spec_ticks() == old(self).spec_ticks()
                && final(self).spec_input_log() == old(self).spec_input_log()
                && final(self).spec_frame_log() == old(self).spec_frame_log()
                && final(self).bridge_model() == old(self).bridge_model()
                && (exists|n: nat| final(self).spec_audio() == serve_run(old(self).spec_audio(), n))),
            (!stop ==> final(self).spec_state() is Running
                && final(self).spec_ticks() == old(self).spec_ticks() + old(self).spec_timing().tick_group
                && step_audio(
                    old(self).spec_audio(),
                    final(self).spec_audio(),
                    old(self).spec_ring_capacity(),
                    if old(self).spec_config().spec_mute() {
                        0nat
                    } else {
                        old(self).spec_timing().tick_group as nat
                    },
                )
                && (final(self).spec_input_log() == old(self).spec_input_log()
                    || final(self).spec_input_log() == old(self).spec_input_log().push(
                    (final(self).spec_joystick(), final(self).spec_switches()),
                ))
                && (final(self).spec_frame_log() == old(self).spec_frame_log() || (exists|
                    px: Seq<u8>,
                |
                    final(self).spec_frame_log() == old(self).spec_frame_log().push(px)))
                && (final(self).bridge_model() == old(self).bridge_model() || (exists|
                    e: SerialEventView,
                |
                    final(self).bridge_model() == bridge_step(old(self).bridge_model(), e)))),
    {
        let ghost a0 = old(self).spec_audio();
        let ghost cap = old(self).spec_ring_capacity();
        let ghost mute = old(self).spec_config().spec_mute();
        self.pace();
        let ghost serves = choose|n: nat| self.spec_audio() == serve_run(a0, n);
        self.advance_trigger();
        if self.poll_input() {
            self.state = WorkerState::Stopped;
            return true;
        }
        let ghost w1 = *self;
        let ghost mut pairs: Seq<(i16, i16)> = Seq::empty();
        let group = self.timing.tick_group;
        let mut i: u32 = 0;
        while i < group
            invariant
                i <= group,
                group == w1.spec_timing().tick_group,
                self.wf(),
                Self::same_wiring(w1, *self),
                self.spec_state() == w1.spec_state(),
                self.spec_ticks() == w1.spec_ticks() + i,
                self.spec_rotation_sent() == w1.spec_rotation_sent(),
                self.spec_joystick() == w1.spec_joystick(),
                self.spec_switches() == w1.spec_switches(),
                self.spec_input_log() == w1.spec_input_log(),
                self.spec_frame_log() == w1.spec_frame_log(),
                self.spec_ring_capacity() == w1.spec_ring_capacity(),
                self.bridge_model() == w1.bridge_model(),
                pairs.len() == if w1.spec_config().spec_mute() {
                    0nat
                } else {
                    i as nat
                },
                self.spec_audio() == sound_run(w1.spec_audio(), w1.spec_ring_capacity(), pairs),
            decreases group - i,
        {
            self.core.tick();
            self.ticks = Ghost(self.ticks@ + 1);
            let ghost a_pre = self.spec_audio();
            self.sound();
            proof {
                if !w1.spec_config().spec_mute() {
                    let p = choose|p: (i16, i16)|
                        self.spec_audio() == audio_tick_step(a_pre, w1.spec_ring_capacity(), p);
                    lemma_sound_run_snoc(w1.spec_audio(), w1.spec_ring_capacity(), pairs, p);
                    pairs = pairs.push(p);
                }
            }
            i = i + 1;
        }
        self.publish_frame();
        self.relay_serial();
        proof {
            assert(step_audio(
                a0,
                self.spec_audio(),
                cap,
                if mute {
                    0nat
                } else {
                    old(self).spec_timing().tick_group as nat
                },
            )) by {
                assert(pairs.len() == (if mute {
                    0nat
                } else {
                    old(self).spec_timing().tick_group as nat
                }) && self.spec_audio() == sound_run(serve_run(a0, serves), cap, pairs));
            }
        }
        false
    }

    /// Enter the pacing loop and run until the input channel closes (the
    /// sole, cooperative shutdown signal, polled once per iteration) or the
    /// iteration cap runs out. True exactly when the worker stopped.
    pub fn run(&mut self, max_iterations: u64) -> (stopped: bool)
        requires
            old(self).wf(),
            old(self).spec_state() is Loaded || old(self).spec_state() is Running,
        ensures
            final(self).wf(),
            Self::same_wiring(*old(self), *final(self)),
            final(self).spec_rotation_sent() == old(self).spec_rotation_sent(),
            final(self).spec_ring_capacity() == old(self).spec_ring_capacity(),
            stopped ==> final(self).spec_state() is Stopped,
            (!stopped ==> final(self).spec_state() is Running
                && final(self).spec_ticks() == old(self).spec_ticks() + max_iterations * old(self).spec_timing().tick_group
                && run_audio(
                    old(self).spec_audio(),
                    final(self).spec_audio(),
                    old(self).spec_ring_capacity(),
                    if old(self).spec_config().spec_mute() {
                        0nat
                    } else {
                        old(self).spec_timing().tick_group as nat
                    },
                    max_iterations as nat,
                )),
    {
        self.state = WorkerState::Running;
        self.next_trigger = clock::instant_now();
        let ghost tg = if old(self).spec_config().spec_mute() {
            0nat
        } else {
            old(self).spec_timing().tick_group as nat
        };
        let mut it: u64 = 0;
        while it < max_iterations
            invariant
                it <= max_iterations,
                self.wf(),
                self.spec_state() is Running,
                Self::same_wiring(*old(self), *self),
                self.spec_rotation_sent() == old(self).spec_rotation_sent(),
                self.spec_ring_capacity() == old(self).spec_ring_capacity(),
                self.spec_ticks() == old(self).spec_ticks() + it * old(
                    self,
                ).spec_timing().tick_group,
                tg == (if old(self).spec_config().spec_mute() {
                    0nat
                } else {
                    old(self).spec_timing().tick_group as nat
                }),
                run_audio(
                    old(self).spec_audio(),
                    self.spec_audio(),
                    old(self).spec_ring_capacity(),
                    tg,
                    it as nat,
                ),
            decreases max_iterations - it,
        {
            let ghost g = old(self).spec_timing().tick_group as int;
            let ghost it0 = it as int;
            let ghost a_pre = self.spec_audio();
            if self.step() {
                return true;
            }
            proof {
                assert((it0 + 1) * g == it0 * g + g) by (nonlinear_arith);
                lemma_run_audio_snoc(
                    old(self).spec_audio(),
                    a_pre,
                    self.spec_audio(),
                    old(self).spec_ring_capacity(),
                    tg,
                    it as nat,
                );
            }
            it = it + 1;
        }
        false
    }
}

} // verus!
