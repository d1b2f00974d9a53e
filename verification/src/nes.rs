//! The assembled console: the processor (which owns the bus, mapper,
//! picture unit and controller latches) and the interrupt lines the
//! frame driver threads between the processor and the picture unit.

use vstd::prelude::*;

use crate::cpu::Cpu;
use crate::io::Io;
use crate::irq::Irq;
use crate::irq::IrqModel;
use crate::mapper0::Mapper0;
use crate::mem::Mem;
use crate::ppu::Ppu;
use crate::rom::Rom;

verus! {

pub struct Nes {
    pub cpu: Cpu,
    pub irq: Irq,
}

impl Nes {
    /// Builds the whole machine in its power-on state.
    pub fn new() -> (r: Nes)
        ensures
            r.cpu@.mem.wf(),
            r.cpu.opcodes@.len() == 0,
            r.irq@ == (IrqModel { nmi: false, irq: false }),
    {
        let irq = Irq::new();
        let io = Io::new();
        let rom = Rom::new();
        let ppu = Ppu::new();
        let mapper = Mapper0::new(rom, ppu, io);
        let mem = Mem::new(mapper);
        Nes { cpu: Cpu::new(mem), irq }
    }

    /// Resets the processor, builds its decode table and clears the
    /// interrupt lines; the machine is then ready for a cartridge.
    pub fn init(&mut self)
        requires
            old(self).cpu@.mem.wf(),
            old(self).cpu.opcodes@.len() == 0,
        ensures
            final(self).cpu.wf(),
            final(self).irq@ == (IrqModel { nmi: false, irq: false }),
    {
        self.cpu.init();
        self.irq.init();
    }
}

} // verus!
