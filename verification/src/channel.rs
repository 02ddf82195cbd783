use vstd::prelude::*;

verus! {

/// Number of MIDI controllers and of MIDI keys.
pub const CTRL_COUNT: usize = 128;

/// Controller number of the sustain pedal switch.
pub const SUSTAIN_SWITCH: usize = 64;

/// Per-MIDI-channel state read by the voice pool during control
/// broadcasts: the channel id, the controller vector, and per-key
/// aftertouch. The pool never mutates a channel.
#[derive(Clone, PartialEq, Debug)]
pub struct Channel {
    pub id: usize,
    pub cc: Vec<u8>,
    pub key_pressure: Vec<u8>,
}

impl Channel {
    pub open spec fn wf(self) -> bool {
        &&& self.cc@.len() == CTRL_COUNT
        &&& self.key_pressure@.len() == CTRL_COUNT
    }

    /// The sustain pedal is held when its controller is in the upper half
    /// of its range.
    pub open spec fn sustained(self) -> bool {
        self.cc@[SUSTAIN_SWITCH as int] >= 64
    }

    pub fn new(id: usize) -> (r: Channel)
        ensures
            r.wf(),
            r.id == id,
            forall|c: int| 0 <= c < CTRL_COUNT ==> r.cc@[c] == 0,
            forall|k: int| 0 <= k < CTRL_COUNT ==> r.key_pressure@[k] == 0,
            !r.sustained(),
    {
        let mut cc: Vec<u8> = Vec::new();
        let mut key_pressure: Vec<u8> = Vec::new();
        let mut i: usize = 0;
        while i < CTRL_COUNT
            invariant
                i <= CTRL_COUNT,
                cc@.len() == i,
                key_pressure@.len() == i,
                forall|c: int| 0 <= c < i ==> cc@[c] == 0,
                forall|c: int| 0 <= c < i ==> key_pressure@[c] == 0,
            decreases CTRL_COUNT - i,
        {
            cc.push(0);
            key_pressure.push(0);
            i += 1;
        }
        Channel { id, cc, key_pressure }
    }

    pub fn get_id(&self) -> (r: usize)
        ensures
            r == self.id,
    {
        self.id
    }

    pub fn is_sustained(&self) -> (r: bool)
        requires
            self.wf(),
        ensures
            r == self.sustained(),
    {
        self.cc[SUSTAIN_SWITCH] >= 64
    }

    /// Set a controller value; `SUSTAIN_SWITCH` at 64 or above holds the
    /// sustain pedal.
    pub fn set_cc(&mut self, ctrl: usize, value: u8)
        requires
            old(self).wf(),
            ctrl < CTRL_COUNT,
        ensures
            final(self).wf(),
            final(self).id == old(self).id,
            final(self).cc@ == old(self).cc@.update(ctrl as int, value),
            final(self).key_pressure@ == old(self).key_pressure@,
    {
        self.cc.set(ctrl, value);
    }

    pub fn set_key_pressure(&mut self, key: usize, value: u8)
        requires
            old(self).wf(),
            key < CTRL_COUNT,
        ensures
            final(self).wf(),
            final(self).id == old(self).id,
            final(self).cc@ == old(self).cc@,
            final(self).key_pressure@ == old(self).key_pressure@.update(key as int, value),
    {
        self.key_pressure.set(key, value);
    }
}

} // verus!
