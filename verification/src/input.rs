use vstd::prelude::*;

verus! {

/// Edge trigger for input snapshots on the presentation side: a snapshot is
/// handed out for sending only when it differs from the last one handed out,
/// so an unchanged input state never grows the input channel.
pub struct InputTracker {
    joystick: u8,
    switches: u8,
}

impl InputTracker {
    pub closed spec fn spec_joystick(self) -> u8 {
        self.joystick
    }

    pub closed spec fn spec_switches(self) -> u8 {
        self.switches
    }

    /// Both bitfields start cleared: no direction held, no switch pressed.
    pub fn new() -> (t: Self)
        ensures
            t.spec_joystick() == 0,
            t.spec_switches() == 0,
    {
        InputTracker { joystick: 0, switches: 0 }
    }

    /// Decide whether the sampled pair `(joystick, switches)` must be sent.
    /// An unchanged pair yields nothing; a changed pair is returned for
    /// sending and becomes the new reference.
    pub fn update(&mut self, joystick: u8, switches: u8) -> (snap: Option<(u8, u8)>)
        ensures
            joystick == old(self).spec_joystick() && switches == old(self).spec_switches()
                ==> snap is None && *final(self) == *old(self),
            joystick != old(self).spec_joystick() || switches != old(self).spec_switches()
                ==> snap == Some((joystick, switches)) && final(self).spec_joystick() == joystick
                && final(self).spec_switches() == switches,
    {
        if joystick != self.joystick || switches != self.switches {
            self.joystick = joystick;
            self.switches = switches;
            Some((joystick, switches))
        } else {
            None
        }
    }
}

} // verus!
