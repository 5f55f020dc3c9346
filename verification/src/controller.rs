use vstd::prelude::*;

verus! {

/// The input pad's shift register: eight button states read out one bit per
/// read, restarted from the first button while the strobe line is held.
pub struct Controller {
    pub buttons: [bool; 8],
    pub index: usize,
    pub strobe: bool,
    pub strobeenable: bool,
}

impl Controller {
    /// The read position never runs past the end of the register.
    pub open spec fn wf(self) -> bool {
        self.index <= 8
    }

    pub fn new(strobeenable: bool) -> (r: Controller)
        ensures
            r.wf(),
            r.buttons@ == Seq::new(8, |i: int| false),
            r.index == 0,
            r.strobe,
            r.strobeenable == strobeenable,
    {
        let c = Controller { buttons: [false; 8], index: 0, strobe: true, strobeenable };
        proof {
            assert(c.buttons@ =~= Seq::new(8, |i: int| false));
        }
        c
    }

    /// Shifts out the next button bit: 1 if the current button is held,
    /// 0 otherwise and for every read past the eighth. While the strobe is
    /// held the position snaps back to the first button.
    pub fn read(&mut self) -> (r: u8)
        requires
            old(self).wf(),
        ensures
            final(self).wf(),
            r == (if old(self).index < 8 && old(self).buttons@[old(self).index as int] {
                1u8
            } else {
                0u8
            }),
            final(self).index == (if old(self).strobe {
                0usize
            } else if old(self).index < 8 {
                (old(self).index + 1) as usize
            } else {
                old(self).index
            }),
            final(self).buttons == old(self).buttons,
            final(self).strobe == old(self).strobe,
            final(self).strobeenable == old(self).strobeenable,
    {
        let mut value: u8 = 0;
        if self.index < 8 {
            value = if self.buttons[self.index] { 1 } else { 0 };
            self.index += 1;
        }
        if self.strobe {
            self.index = 0;
        }
        value
    }

    /// Drives the strobe line: any nonzero write raises it (when this pad
    /// honours the line at all) and snaps the read position back.
    pub fn write(&mut self, data: u8)
        requires
            old(self).wf(),
        ensures
            final(self).wf(),
            final(self).strobe == (data != 0 && old(self).strobeenable),
            final(self).index == (if data != 0 && old(self).strobeenable {
                0usize
            } else {
                old(self).index
            }),
            final(self).buttons == old(self).buttons,
            final(self).strobeenable == old(self).strobeenable,
    {
        self.strobe = data != 0 && self.strobeenable;
        if self.strobe {
            self.index = 0;
        }
    }

    /// Latches a whole set of button states, honoured only while the strobe
    /// is held (the register is frozen otherwise).
    pub fn set_all(&mut self, data: [bool; 8])
        requires
            old(self).wf(),
        ensures
            final(self).wf(),
            final(self).buttons == (if old(self).strobe { data } else { old(self).buttons }),
            final(self).index == old(self).index,
            final(self).strobe == old(self).strobe,
            final(self).strobeenable == old(self).strobeenable,
    {
        if self.strobe {
            self.buttons = data;
        }
    }
}

} // verus!
