//! The two sticky interrupt lines. The picture unit raises NMI on entering
//! vertical blank; the processor observes and clears it when it services
//! the interrupt. IRQ follows the same discipline, gated by the processor's
//! interrupt-disable flag.

use vstd::prelude::*;

verus! {

/// Mathematical state of the interrupt lines.
pub struct IrqModel {
    pub nmi: bool,
    pub irq: bool,
}

#[derive(Debug)]
pub struct Irq {
    pub nmi: bool,
    pub irq: bool,
}

impl View for Irq {
    type V = IrqModel;

    open spec fn view(&self) -> IrqModel {
        IrqModel { nmi: self.nmi, irq: self.irq }
    }
}

impl Irq {
    pub fn new() -> (r: Irq)
        ensures
            r@ == (IrqModel { nmi: false, irq: false }),
    {
        Irq { nmi: false, irq: false }
    }

    pub fn init(&mut self)
        ensures
            final(self)@ == (IrqModel { nmi: false, irq: false }),
    {
        self.clear();
    }

    pub fn set_nmi(&mut self, flg: bool)
        ensures
            final(self)@ == (IrqModel { nmi: flg, ..old(self)@ }),
    {
        self.nmi = flg;
    }

    pub fn get_nmi(&mut self) -> (r: bool)
        ensures
            r == old(self)@.nmi,
            final(self)@ == old(self)@,
    {
        self.nmi
    }

    pub fn set_irq(&mut self, flg: bool)
        ensures
            final(self)@ == (IrqModel { irq: flg, ..old(self)@ }),
    {
        self.irq = flg;
    }

    pub fn get_irq(&mut self) -> (r: bool)
        ensures
            r == old(self)@.irq,
            final(self)@ == old(self)@,
    {
        self.irq
    }

    pub fn clear_irq(&mut self)
        ensures
            final(self)@ == (IrqModel { irq: false, ..old(self)@ }),
    {
        self.irq = false;
    }

    pub fn clear_nmi(&mut self)
        ensures
            final(self)@ == (IrqModel { nmi: false, ..old(self)@ }),
    {
        self.nmi = false;
    }

    pub fn clear(&mut self)
        ensures
            final(self)@ == (IrqModel { nmi: false, irq: false }),
    {
        self.nmi = false;
        self.irq = false;
    }
}

} // verus!
