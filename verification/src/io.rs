//! Controller input latches: two 8-bit shift registers that the bus reads
//! one bit at a time once the strobe has been toggled low.

use vstd::prelude::*;

verus! {

/// Mathematical state of the controller latches.
pub struct IoModel {
    pub ctrlstat1: u8,
    pub ctrlstat2: u8,
    pub latchstate1: u8,
    pub latchstate2: u8,
    pub ctrllatched: bool,
}

pub struct Io {
    pub ctrlstat1: u8,
    pub ctrlstat2: u8,
    pub latchstate1: u8,
    pub latchstate2: u8,
    pub ctrllatched: bool,
}

impl View for Io {
    type V = IoModel;

    open spec fn view(&self) -> IoModel {
        IoModel {
            ctrlstat1: self.ctrlstat1,
            ctrlstat2: self.ctrlstat2,
            latchstate1: self.latchstate1,
            latchstate2: self.latchstate2,
            ctrllatched: self.ctrllatched,
        }
    }
}

/// The reset state: no buttons held, nothing latched, strobe low.
pub open spec fn io_reset_model() -> IoModel {
    IoModel { ctrlstat1: 0, ctrlstat2: 0, latchstate1: 0, latchstate2: 0, ctrllatched: false }
}

/// One read of a controller port shifts the latch right and refills the
/// top bit, so eight reads drain the eight buttons in order.
pub open spec fn io_shift(m: IoModel, no: u8) -> IoModel {
    if no == 1 {
        IoModel { latchstate1: (m.latchstate1 >> 1) | 0x80, ..m }
    } else {
        IoModel { latchstate2: (m.latchstate2 >> 1) | 0x80, ..m }
    }
}

impl Io {
    pub fn new() -> (r: Io)
        ensures
            r@ == io_reset_model(),
    {
        Io { ctrlstat1: 0, ctrlstat2: 0, latchstate1: 0, latchstate2: 0, ctrllatched: false }
    }

    pub fn init(&mut self)
        ensures
            final(self)@ == io_reset_model(),
    {
        self.reset();
    }

    pub fn reset(&mut self)
        ensures
            final(self)@ == io_reset_model(),
    {
        self.ctrlstat1 = 0;
        self.ctrlstat2 = 0;
        self.latchstate1 = 0;
        self.latchstate2 = 0;
        self.ctrllatched = false;
    }

    pub fn set_ctrllatched(&mut self, state: bool)
        ensures
            final(self)@ == (IoModel { ctrllatched: state, ..old(self)@ }),
    {
        self.ctrllatched = state;
    }

    pub fn get_ctrllatched(&mut self) -> (r: bool)
        ensures
            r == old(self)@.ctrllatched,
            final(self)@ == old(self)@,
    {
        self.ctrllatched
    }

    pub fn set_ctrlstat1(&mut self, flg: u8)
        ensures
            final(self)@ == (IoModel { ctrlstat1: flg, ..old(self)@ }),
    {
        self.ctrlstat1 = flg;
    }

    pub fn get_ctrlstat1(&mut self) -> (r: u8)
        ensures
            r == old(self)@.ctrlstat1,
            final(self)@ == old(self)@,
    {
        self.ctrlstat1
    }

    pub fn set_ctrlstat2(&mut self, flg: u8)
        ensures
            final(self)@ == (IoModel { ctrlstat2: flg, ..old(self)@ }),
    {
        self.ctrlstat2 = flg;
    }

    pub fn get_ctrlstat2(&mut self) -> (r: u8)
        ensures
            r == old(self)@.ctrlstat2,
            final(self)@ == old(self)@,
    {
        self.ctrlstat2
    }

    /// While the strobe is high the shift registers follow the live
    /// button state.
    #[allow(non_snake_case)]
    pub fn hdCtrlLatch(&mut self)
        ensures
            final(self)@ == (IoModel {
                latchstate1: old(self)@.ctrlstat1,
                latchstate2: old(self)@.ctrlstat2,
                ..old(self)@
            }),
    {
        self.latchstate1 = self.ctrlstat1;
        self.latchstate2 = self.ctrlstat2;
    }

    pub fn set_latched_ctrl_state(&mut self, no: u8)
        ensures
            final(self)@ == io_shift(old(self)@, no),
    {
        if no == 1 {
            let mut val: u8 = self.latchstate1;
            val >>= 1;
            val |= 0x80;
            self.latchstate1 = val;
        } else {
            let mut val: u8 = self.latchstate2;
            val >>= 1;
            val |= 0x80;
            self.latchstate2 = val;
        }
    }

    pub fn get_latched_ctrl_state(&mut self, no: u8) -> (r: u8)
        ensures
            r == if no == 1 {
                old(self)@.latchstate1
            } else {
                old(self)@.latchstate2
            },
            final(self)@ == old(self)@,
    {
        if no == 1 {
            self.latchstate1
        } else {
            self.latchstate2
        }
    }
}

} // verus!
