use vstd::prelude::*;
use crate::channel;
use crate::core_api::EmulationCore;

verus! {

/// One thing the host side of the serial link observed. The socket itself
/// lives with the caller (listening and reading a TCP peer is host I/O); the
/// caller reports what happened and the bridge decides what reaches the core.
pub enum SerialEvent {
    /// A peer connected; it silently replaces any earlier peer.
    Connected,
    /// One read's worth of bytes arrived from the peer, in wire order.
    Data(Vec<u8>),
    /// The peer closed the connection (a zero-length read).
    Closed,
}

/// Ghost image of a `SerialEvent`.
pub enum SerialEventView {
    Connected,
    Data(Seq<u8>),
    Closed,
}

impl View for SerialEvent {
    type V = SerialEventView;

    open spec fn view(&self) -> SerialEventView {
        match self {
            SerialEvent::Connected => SerialEventView::Connected,
            SerialEvent::Data(bytes) => SerialEventView::Data(bytes@),
            SerialEvent::Closed => SerialEventView::Closed,
        }
    }
}

/// Everything observable about the bridge: its connection flag and, in order,
/// the bytes it delivered to the core and the cable-present values it set.
pub struct BridgeModel {
    pub connected: bool,
    pub rx_log: Seq<u8>,
    pub cable_log: Seq<bool>,
}

/// How one observed event moves the bridge: a connect or a close mirrors the
/// link state into the core's cable-present flag, and data bytes are handed
/// to the core one at a time, preserving wire order.
pub open spec fn bridge_step(m: BridgeModel, e: SerialEventView) -> BridgeModel {
    match e {
        SerialEventView::Connected => BridgeModel {
            connected: true,
            cable_log: m.cable_log.push(true),
            ..m
        },
        SerialEventView::Data(bytes) => BridgeModel { rx_log: m.rx_log + bytes, ..m },
        SerialEventView::Closed => BridgeModel {
            connected: false,
            cable_log: m.cable_log.push(false),
            ..m
        },
    }
}

/// The bridge after a whole sequence of observed events.
pub open spec fn bridge_run(m: BridgeModel, events: Seq<SerialEventView>) -> BridgeModel
    decreases events.len(),
{
    if events.len() == 0 {
        m
    } else {
        bridge_run(bridge_step(m, events[0]), events.drop_first())
    }
}

/// Relay between an attached serial peer and the core: models a shared
/// serial cable where at most one peer is attached at a time. The ghost logs
/// record, in order, every byte delivered to the core and every cable-present
/// value set on it.
pub struct SerialBridge {
    connected: bool,
    rx_log: Ghost<Seq<u8>>,
    cable_log: Ghost<Seq<bool>>,
    tx_log: Ghost<Seq<u8>>,
}

impl SerialBridge {
    pub closed spec fn model(self) -> BridgeModel {
        BridgeModel { connected: self.connected, rx_log: self.rx_log@, cable_log: self.cable_log@ }
    }

    /// Bytes handed outward (toward the peer), in order.
    pub closed spec fn spec_tx_log(self) -> Seq<u8> {
        self.tx_log@
    }

    pub fn new() -> (b: Self)
        ensures
            !b.model().connected,
            b.model().rx_log == Seq::<u8>::empty(),
            b.model().cable_log == Seq::<bool>::empty(),
            b.spec_tx_log() == Seq::<u8>::empty(),
    {
        SerialBridge {
            connected: false,
            rx_log: Ghost(Seq::empty()),
            cable_log: Ghost(Seq::empty()),
            tx_log: Ghost(Seq::empty()),
        }
    }

    pub fn connected(&self) -> (r: bool)
        ensures
            r == self.model().connected,
    {
        self.connected
    }

    /// Apply one observed link event to the core: exactly the step the model
    /// describes, with data bytes delivered in order.
    pub fn handle_event<C: EmulationCore>(&mut self, core: &mut C, event: &SerialEvent)
        ensures
            final(self).model() == bridge_step(old(self).model(), event@),
            final(self).spec_tx_log() == old(self).spec_tx_log(),
    {
        match event {
            SerialEvent::Connected => {
                core.set_cable_present(true);
                self.connected = true;
                self.cable_log = Ghost(self.cable_log@.push(true));
            },
            SerialEvent::Data(bytes) => {
                let n = bytes.len();
                let mut i: usize = 0;
                while i < n
                    invariant
                        i <= n,
                        n == bytes@.len(),
                    decreases n - i,
                {
                    core.serial_rx(bytes[i]);
                    i = i + 1;
                }
                self.rx_log = Ghost(self.rx_log@ + bytes@);
            },
            SerialEvent::Closed => {
                core.set_cable_present(false);
                self.connected = false;
                self.cable_log = Ghost(self.cable_log@.push(false));
            },
        }
    }

    /// Forward at most one byte the core wants to transmit. The write to the
    /// peer is best effort: a full or closed channel loses the byte, as a
    /// physical cable would with a slow or absent peer.
    pub fn relay_tx<C: EmulationCore>(&mut self, core: &mut C, out_tx: &kanal::Sender<u8>)
        ensures
            final(self).model() == old(self).model(),
            final(self).spec_tx_log() == old(self).spec_tx_log() || exists|b: u8|
                final(self).spec_tx_log() == old(self).spec_tx_log().push(b),
    {
        match core.serial_tx() {
            Some(b) => {
                let _ = channel::ch_try_send(out_tx, b);
                self.tx_log = Ghost(self.tx_log@.push(b));
            },
            None => {},
        }
    }
}

/// Law: a session of one connect, one delivery of some bytes, then a peer
/// close reaches the core as exactly those bytes in order, and the cable-
/// present flag is raised at the connect and dropped at the close, in that
/// order, leaving the bridge disconnected.
pub proof fn lemma_serial_session(m: BridgeModel, bytes: Seq<u8>)
    ensures
        ({
            let f = bridge_run(
                m,
                seq![
                    SerialEventView::Connected,
                    SerialEventView::Data(bytes),
                    SerialEventView::Closed,
                ],
            );
            &&& f.rx_log == m.rx_log + bytes
            &&& f.cable_log == m.cable_log + seq![true, false]
            &&& !f.connected
        }),
{
    let events = seq![
        SerialEventView::Connected,
        SerialEventView::Data(bytes),
        SerialEventView::Closed,
    ];
    let m1 = bridge_step(m, events[0]);
    let m2 = bridge_step(m1, events[1]);
    let m3 = bridge_step(m2, events[2]);
    assert(events.drop_first() =~= seq![SerialEventView::Data(bytes), SerialEventView::Closed]);
    assert(events.drop_first().drop_first() =~= seq![SerialEventView::Closed]);
    assert(events.drop_first().drop_first().drop_first() =~= Seq::<SerialEventView>::empty());
    assert(bridge_run(m, events) == bridge_run(m1, events.drop_first()));
    assert(bridge_run(m1, events.drop_first()) == bridge_run(m2, events.drop_first().drop_first()));
    assert(bridge_run(m2, events.drop_first().drop_first()) == bridge_run(
        m3,
        events.drop_first().drop_first().drop_first(),
    ));
    assert(bridge_run(m, events) == m3);
    assert(m3.cable_log =~= m.cable_log + seq![true, false]);
}

} // verus!
