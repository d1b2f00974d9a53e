//! The simplest cartridge mapper: fixed program banks, pattern banks
//! handed straight to the picture unit, no bank-switching logic of its
//! own. It owns the cartridge, the picture unit and the controller
//! latches, and loading a cartridge wires all three.

use vstd::prelude::*;

use crate::base::MapperBase;
use crate::io::Io;
use crate::io::IoModel;
use crate::ppu::mirror_layout;
use crate::ppu::spbit_table;
use crate::ppu::Ppu;
use crate::ppu::PpuModel;
use crate::rom::chr_page_of;
use crate::rom::mirroring_of;
use crate::rom::prg_page_of;
use crate::rom::prg_start_of;
use crate::rom::Rom;
use crate::rom::RomModel;

verus! {

/// Mathematical state of the mapper and what it owns.
pub struct MapperModel {
    pub rom: RomModel,
    pub ppu: PpuModel,
    pub io: IoModel,
}

impl MapperModel {
    /// Structural facts that every reachable mapper state satisfies.
    pub open spec fn wf(self) -> bool {
        &&& self.rom.wf()
        &&& self.ppu.wf()
        &&& self.ppu.ppux <= 341
        &&& self.ppu.line <= 261
    }
}

pub struct Mapper0 {
    pub rom: Rom,
    pub ppu: Ppu,
    pub io: Io,
}

impl View for Mapper0 {
    type V = MapperModel;

    open spec fn view(&self) -> MapperModel {
        MapperModel { rom: self.rom@, ppu: self.ppu@, io: self.io@ }
    }
}

/// What loading a cartridge does to the mapper: the image is parsed, the
/// first program bank is mapped at the bottom of cartridge space and the
/// last at the top, the first pattern bank is installed, and the picture
/// unit is started with the cartridge's mirroring mode.
pub open spec fn mapper0_load(m: MapperModel, buf: Seq<u8>) -> MapperModel {
    let c = buf[4] as int;
    let ch = buf[5] as int;
    let r1 = RomModel {
        rom: buf,
        prg_rom: buf.subrange(prg_start_of(buf), prg_start_of(buf) + 0x4000 * buf[4]),
        chr_rom: buf.subrange(
            prg_start_of(buf) + 0x4000 * buf[4],
            prg_start_of(buf) + 0x4000 * buf[4] + 0x2000 * buf[5],
        ),
        prg_rom_page_count: buf[4] as usize,
        chr_rom_page_count: buf[5] as usize,
        screen_mirroring: mirroring_of(buf),
        sram_enable: buf[6] & 0x02 != 0,
        trainer_enable: buf[6] & 0x04 != 0,
        four_screen: buf[6] & 0x08 != 0,
        mapper_number: (buf[6] >> 4) | (buf[7] & 0xf0),
        prgrom_pages: Seq::new((2 * buf[4]) as nat, |i: int| prg_page_of(buf, i)),
        chrrom_pages: if buf[5] != 0 {
            Seq::new((8 * buf[5]) as nat, |i: int| chr_page_of(buf, c, i))
        } else {
            m.rom.chrrom_pages
        },
        ..m.rom
    };
    let r3 = RomModel {
        roms: r1.roms.update(0, r1.prgrom_pages[0int % (2 * c)]).update(
            1,
            r1.prgrom_pages[1int % (2 * c)],
        ).update(2, r1.prgrom_pages[(2 * (c - 1)) % (2 * c)]).update(
            3,
            r1.prgrom_pages[(2 * (c - 1) + 1) % (2 * c)],
        ),
        prgrom_state: r1.prgrom_state.update(0, (0int % (2 * c)) as i8).update(
            1,
            (1int % (2 * c)) as i8,
        ).update(2, ((2 * (c - 1)) % (2 * c)) as i8).update(
            3,
            ((2 * (c - 1) + 1) % (2 * c)) as i8,
        ),
        ..r1
    };
    let p1 = if ch > 0 {
        PpuModel {
            vram: Seq::new(
                16nat,
                |i: int|
                    if i < 8 {
                        r3.chrrom_pages[i % (8 * ch)]
                    } else {
                        m.ppu.vram[i]
                    },
            ),
            ..m.ppu
        }
    } else {
        m.ppu
    };
    let r4 = if ch > 0 {
        RomModel {
            chrrom_state: Seq::new(
                16nat,
                |i: int|
                    if i < 8 {
                        (i % (8 * ch)) as u8
                    } else {
                        r3.chrrom_state[i]
                    },
            ),
            ..r3
        }
    } else {
        r3
    };
    let lay = mirror_layout(r4.screen_mirroring);
    let p2 = PpuModel {
        spbit_pattern: spbit_table(),
        palette: Seq::new(33nat, |i: int| 0x0fu8),
        sprite_ram: Seq::new(256nat, |i: int| 0u8),
        bg_line_buffer: Seq::new(264nat, |i: int| 0u8),
        sp_line_buffer: Seq::new(264nat, |i: int| 0u16),
        screen_mirroring: r4.screen_mirroring,
        vram: p1.vram.update(8, p1.vrams[lay.0 + 8]).update(9, p1.vrams[lay.1 + 8]).update(
            10,
            p1.vrams[lay.2 + 8],
        ).update(11, p1.vrams[lay.3 + 8]),
        ppux: 341,
        line: 0,
        sprite_zero: false,
        imgok: false,
        ..p1
    };
    let r5 = RomModel {
        chrrom_state: r4.chrrom_state.update(8, (lay.0 + 8) as u8).update(
            9,
            (lay.1 + 8) as u8,
        ).update(10, (lay.2 + 8) as u8).update(11, (lay.3 + 8) as u8),
        ..r4
    };
    MapperModel { rom: r5, ppu: p2, io: m.io }
}

impl MapperBase for Mapper0 {
    fn read_low(&mut self, addr: u16) -> (r: u8)
        ensures
            r == 0,
            *final(self) == *old(self),
    {
        0x00
    }

    fn write_low(&mut self, addr: u16, data: u8)
        ensures
            *final(self) == *old(self),
    {
    }

    fn write(&mut self, addr: u16, data: u8)
        ensures
            *final(self) == *old(self),
    {
    }
}

impl Mapper0 {
    pub fn new(rom: Rom, ppu: Ppu, io: Io) -> (r: Mapper0)
        ensures
            r@ == (MapperModel { rom: rom@, ppu: ppu@, io: io@ }),
    {
        Mapper0 { rom, ppu, io }
    }

    /// Parses a cartridge image and wires the whole mapper for it. The
    /// caller must have checked the magic bytes and bank counts the simple
    /// mapper supports; a malformed image aborts the load on hardware.
    #[verifier::rlimit(60)]
    pub fn set_rom(&mut self, buf: Vec<u8>)
        requires
            old(self)@.wf(),
            buf@.len() >= 16,
            buf@[0] == 0x4e && buf@[1] == 0x45 && buf@[2] == 0x53 && buf@[3] == 0x1a,
            buf@.len() >= prg_start_of(buf@) + 0x4000 * buf@[4] + 0x2000 * buf@[5],
            1 <= buf@[4] <= 63,
            buf@[5] <= 31,
        ensures
            final(self)@ == mapper0_load(old(self)@, buf@),
            final(self)@.wf(),
    {
        let ghost buf_v = buf@;
        let count: usize = buf[4] as usize;
        self.rom.set_rom(buf);
        self.rom.set_prgrom_page(0, 0);
        self.rom.set_prgrom_page(1, count - 1);
        self.ppu.set_chr_rom_page(0, &mut self.rom);
        self.ppu.start(&mut self.rom);
        proof {
            let want = mapper0_load(old(self)@, buf_v);
            assert(self@.ppu.vram =~~= want.ppu.vram);
            assert(self@.rom.chrrom_state =~= want.rom.chrrom_state);
            assert(self@.rom.roms =~~= want.rom.roms);
            assert(self@.rom.prgrom_state =~= want.rom.prgrom_state);
            assert(self@.ppu == want.ppu);
            assert(self@.rom == want.rom);
        }
    }

    pub fn init(&mut self)
        requires
            old(self)@.wf(),
        ensures
            final(self)@ == (MapperModel {
                ppu: crate::ppu::ppu_reset_model(old(self)@.ppu),
                io: crate::io::io_reset_model(),
                ..old(self)@
            }),
            final(self)@.wf(),
    {
        self.ppu.init();
        self.io.init();
    }

    pub fn render(&mut self)
        ensures
            *final(self) == *old(self),
    {
    }
}

} // verus!
