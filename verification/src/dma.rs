//! Sprite DMA: one bus write copies a whole 256-byte page of internal RAM
//! into the picture unit's sprite memory and signals the driver to charge
//! the processor a fixed stall.

use vstd::prelude::*;

use crate::ppu::Ppu;
use crate::ppu::PpuModel;

verus! {

/// The page of RAM a DMA transfer hands to sprite memory, read through
/// the 2 KB mirror.
pub open spec fn dma_copy(ram: Seq<u8>, page: u8) -> Seq<u8> {
    Seq::new(256nat, |i: int| ram[((page as int) * 256 + i) % 0x800])
}

#[derive(Debug)]
pub struct Dma {
    pub on: bool,
}

impl Dma {
    pub fn new() -> (r: Dma)
        ensures
            !r.on,
    {
        Dma { on: false }
    }

    /// Copies RAM page `data` into sprite memory and latches the stall
    /// signal.
    pub fn run(&mut self, data: u8, ram: &Vec<u8>, ppu: &mut Ppu)
        requires
            ram@.len() == 0x800,
            old(ppu)@.wf(),
        ensures
            final(self).on == true,
            final(ppu)@ == (PpuModel { sprite_ram: dma_copy(ram@, data), ..old(ppu)@ }),
            final(ppu)@.wf(),
    {
        let mut sprites: Vec<u8> = Vec::new();
        let base: usize = (data as usize) * 256;
        let mut i: usize = 0;
        while i < 0x100
            invariant
                i <= 0x100,
                base == (data as int) * 256,
                ram@.len() == 0x800,
                sprites@ == Seq::new(i as nat, |n: int| ram@[((data as int) * 256 + n) % 0x800]),
            decreases 0x100 - i,
        {
            sprites.push(ram[(base + i) % 0x800]);
            i += 1;
            proof {
                assert(sprites@ =~= Seq::new(
                    i as nat,
                    |n: int| ram@[((data as int) * 256 + n) % 0x800],
                ));
            }
        }
        ppu.sprite_ram = sprites;
        self.on = true;
    }

    pub fn get_status(&mut self) -> (r: bool)
        ensures
            r == old(self).on,
            *final(self) == *old(self),
    {
        self.on
    }

    pub fn clear(&mut self)
        ensures
            !final(self).on,
    {
        self.on = false;
    }
}

} // verus!
