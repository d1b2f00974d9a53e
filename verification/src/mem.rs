//! The memory bus: decodes a 16-bit address by its top three bits and
//! dispatches to internal RAM (2 KB, mirrored every 0x800), the picture
//! unit's register window (mirrored every 8 bytes), the controller and
//! DMA window, save-RAM space, or the mapper's program banks.
//!
//! `bus_read` and `bus_write` are the bus's wire contract: every `get`
//! and `set` is proved equal to them.

use vstd::prelude::*;

use crate::base::MapperBase;
use crate::bits::lemma_u16_and_le;
use crate::dma::dma_copy;
use crate::dma::Dma;
use crate::io::io_shift;
use crate::io::IoModel;
use crate::mapper0::Mapper0;
use crate::mapper0::MapperModel;
use crate::ppu::ppu_addr_write;
use crate::ppu::ppu_ctrl0_write;
use crate::ppu::ppu_ctrl1_write;
use crate::ppu::ppu_data_read;
use crate::ppu::ppu_data_write;
use crate::ppu::ppu_scroll_write;
use crate::ppu::ppu_sprite_addr_write;
use crate::ppu::ppu_sprite_data_read;
use crate::ppu::ppu_sprite_data_write;
use crate::ppu::ppu_status_read;
use crate::ppu::Port;
use crate::ppu::PpuModel;
use crate::rom::Rom;

verus! {

/// Mathematical state of the bus and everything behind it.
pub struct MemModel {
    pub ram: Seq<u8>,
    pub mapper: MapperModel,
    pub dma_on: bool,
}

impl MemModel {
    /// Structural facts that every reachable bus state satisfies.
    pub open spec fn wf(self) -> bool {
        &&& self.ram.len() == 0x800
        &&& self.mapper.wf()
    }
}

pub struct Mem {
    pub ram: Vec<u8>,
    pub mapper: Mapper0,
    pub dma: Dma,
}

impl View for Mem {
    type V = MemModel;

    open spec fn view(&self) -> MemModel {
        MemModel { ram: self.ram@, mapper: self.mapper@, dma_on: self.dma.on }
    }
}

/// What a bus read returns and what it does to the machine: RAM and
/// program-ROM reads are pure; picture-unit register reads (status, OAM
/// data, VRAM data) and controller reads have their documented side
/// effects.
///
/// Cartridge space (0x8000-0xFFFF) reads the program image directly,
/// with a single 16 KB bank mirrored across the window
/// (`Rom::prg_read_spec`): the fixed layout of the simplest mapper. The
/// 8 KB bank table the loader also fills plays no part in this decoding;
/// it is kept for mapper-facing callers (see `Rom::set_prgrom_page`).
#[verifier::opaque]
pub open spec fn bus_read(m: MemModel, addr: u16) -> (u8, MemModel) {
    let masked = addr & 0xe000;
    if masked == 0x0000 {
        (m.ram[(addr & 0x7ff) as int], m)
    } else if masked == 0x2000 {
        let reg = addr & 0x0007;
        if reg == 0x0002 {
            let r = ppu_status_read(m.mapper.ppu);
            (r.0, MemModel { mapper: MapperModel { ppu: r.1, ..m.mapper }, ..m })
        } else if reg == 0x0004 {
            (ppu_sprite_data_read(m.mapper.ppu), m)
        } else if reg == 0x0007 {
            let r = ppu_data_read(m.mapper.ppu);
            (r.0, MemModel { mapper: MapperModel { ppu: r.1, ..m.mapper }, ..m })
        } else {
            (0u8, m)
        }
    } else if masked == 0x4000 {
        if addr == 0x4016 {
            (
                m.mapper.io.latchstate1 & 1,
                MemModel {
                    mapper: MapperModel { io: io_shift(m.mapper.io, 1), ..m.mapper },
                    ..m
                },
            )
        } else if addr == 0x4017 {
            (
                m.mapper.io.latchstate2 & 1,
                MemModel {
                    mapper: MapperModel { io: io_shift(m.mapper.io, 2), ..m.mapper },
                    ..m
                },
            )
        } else {
            (0u8, m)
        }
    } else if masked == 0x6000 {
        (0u8, m)
    } else {
        (Rom::prg_read_spec(m.mapper.rom, addr), m)
    }
}

/// Two consecutive bus reads assembled little-endian into a word.
pub open spec fn bus_read16(m: MemModel, addr: u16) -> (u16, MemModel) {
    let lo = bus_read(m, addr);
    let hi = bus_read(lo.1, (addr + 1) as u16);
    ((lo.0 as u16) | ((hi.0 as u16) << 8u16), hi.1)
}

/// What a bus write does to the machine: RAM and picture-unit register
/// writes land in their stores, 0x4014 triggers sprite DMA, 0x4016
/// toggles the controller strobe, and everything else is inert.
#[verifier::opaque]
pub open spec fn bus_write(m: MemModel, addr: u16, data: u8) -> MemModel {
    let masked = addr & 0xe000;
    if masked == 0x0000 {
        MemModel { ram: m.ram.update((addr & 0x7ff) as int, data), ..m }
    } else if masked == 0x2000 {
        let reg = addr & 0x0007;
        let p = m.mapper.ppu;
        let p2 = if reg == 0x0000 {
            ppu_ctrl0_write(p, data)
        } else if reg == 0x0001 {
            ppu_ctrl1_write(p, data)
        } else if reg == 0x0003 {
            ppu_sprite_addr_write(p, data)
        } else if reg == 0x0004 {
            ppu_sprite_data_write(p, data)
        } else if reg == 0x0005 {
            ppu_scroll_write(p, data)
        } else if reg == 0x0006 {
            ppu_addr_write(p, data)
        } else if reg == 0x0007 {
            ppu_data_write(p, data)
        } else {
            p
        };
        MemModel { mapper: MapperModel { ppu: p2, ..m.mapper }, ..m }
    } else if masked == 0x4000 {
        if addr == 0x4014 {
            MemModel {
                mapper: MapperModel {
                    ppu: PpuModel { sprite_ram: dma_copy(m.ram, data), ..m.mapper.ppu },
                    ..m.mapper
                },
                dma_on: true,
                ..m
            }
        } else if addr == 0x4016 {
            MemModel {
                mapper: MapperModel {
                    io: IoModel { ctrllatched: data & 1 == 1, ..m.mapper.io },
                    ..m.mapper
                },
                ..m
            }
        } else {
            m
        }
    } else {
        m
    }
}

impl Mem {
    pub fn new(mapper: Mapper0) -> (r: Mem)
        ensures
            r@.ram == Seq::new(0x800nat, |i: int| 0u8),
            r@.mapper == mapper@,
            !r@.dma_on,
    {
        let ram: Vec<u8> = vec![0u8; 0x800];
        proof {
            assert(ram@ =~= Seq::new(0x800nat, |i: int| 0u8));
        }
        Mem { ram, mapper, dma: Dma::new() }
    }

    /// The reset hook leaves RAM as it is; power-on state comes from
    /// `new`.
    pub fn reset(&mut self)
        ensures
            final(self)@ == old(self)@,
    {
    }

    pub fn init(&mut self)
        requires
            old(self)@.wf(),
        ensures
            final(self)@ == (MemModel {
                mapper: MapperModel {
                    ppu: crate::ppu::ppu_reset_model(old(self)@.mapper.ppu),
                    io: crate::io::io_reset_model(),
                    ..old(self)@.mapper
                },
                ..old(self)@
            }),
            final(self)@.wf(),
    {
        self.reset();
        self.mapper.init();
    }

    pub fn get(&mut self, addr: u16) -> (r: u8)
        requires
            old(self)@.wf(),
        ensures
            (r, final(self)@) == bus_read(old(self)@, addr),
            final(self)@.wf(),
    {
        proof {
            reveal(bus_read);
        }
        let masked: u16 = addr & 0xe000;
        if masked == 0x0000 {
            proof {
                lemma_u16_and_le(addr, 0x7ff);
            }
            self.ram[(addr & 0x7ff) as usize]
        } else if masked == 0x2000 {
            let reg: u16 = addr & 0x0007;
            if reg == 0x0002 {
                self.mapper.ppu.read_ppu_status_reg()
            } else if reg == 0x0004 {
                self.mapper.ppu.read_sprite_data()
            } else if reg == 0x0007 {
                self.mapper.ppu.read_ppu_data_reg()
            } else {
                0
            }
        } else if masked == 0x4000 {
            if addr == 0x4016 {
                let v: u8 = self.mapper.io.get_latched_ctrl_state(1);
                self.mapper.io.set_latched_ctrl_state(1);
                v & 1
            } else if addr == 0x4017 {
                let v: u8 = self.mapper.io.get_latched_ctrl_state(2);
                self.mapper.io.set_latched_ctrl_state(2);
                v & 1
            } else {
                self.mapper.read_low(addr)
            }
        } else if masked == 0x6000 {
            0
        } else {
            proof {
                assert(addr & 0xe000 != 0 && addr & 0xe000 != 0x2000 && addr & 0xe000 != 0x4000
                    && addr & 0xe000 != 0x6000 ==> addr >= 0x8000) by (bit_vector);
            }
            self.mapper.rom.read_prg_rom(addr)
        }
    }

    /// A little-endian 16-bit read, used for the interrupt and reset
    /// vectors.
    pub fn get16(&mut self, addr: u16) -> (r: u16)
        requires
            old(self)@.wf(),
            addr <= 0xfffe,
        ensures
            (r, final(self)@) == bus_read16(old(self)@, addr),
            final(self)@.wf(),
    {
        let l: u8 = self.get(addr);
        let h: u8 = self.get(addr + 1);
        (l as u16) | ((h as u16) << 8)
    }

    #[verifier::rlimit(60)]
    pub fn set(&mut self, addr: u16, data: u8)
        requires
            old(self)@.wf(),
        ensures
            final(self)@ == bus_write(old(self)@, addr, data),
            final(self)@.wf(),
    {
        proof {
            reveal(bus_write);
        }
        let masked: u16 = addr & 0xe000;
        if masked == 0x0000 {
            proof {
                lemma_u16_and_le(addr, 0x7ff);
            }
            self.ram[(addr & 0x7ff) as usize] = data;
        } else if masked == 0x2000 {
            let reg: u16 = addr & 0x0007;
            if reg == 0x0000 {
                self.mapper.ppu.write_ppu_ctrl0_reg(data);
            } else if reg == 0x0001 {
                self.mapper.ppu.write_ppu_ctrl1_reg(data);
            } else if reg == 0x0003 {
                self.mapper.ppu.write_sprite_addr_reg(data);
            } else if reg == 0x0004 {
                self.mapper.ppu.write_sprite_data(data);
            } else if reg == 0x0005 {
                self.mapper.ppu.write_scroll_reg(data);
            } else if reg == 0x0006 {
                self.mapper.ppu.write_ppu_addr_reg(data);
            } else if reg == 0x0007 {
                self.mapper.ppu.write_ppu_data_reg(data);
            }
        } else if masked == 0x4000 {
            if addr == 0x4014 {
                self.dma.run(data, &self.ram, &mut self.mapper.ppu);
            } else if addr == 0x4016 {
                self.mapper.io.set_ctrllatched((data & 1) == 1);
            } else {
                self.mapper.write_low(addr, data);
            }
        } else if masked == 0x6000 {
        } else {
            self.mapper.write(addr, data);
        }
    }
}

} // verus!
