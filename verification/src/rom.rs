//! The cartridge image: a 16-byte header (magic `N E S 0x1A`, bank counts,
//! mirroring and mapper bits), an optional 512-byte trainer, then program
//! banks in 16 KB units and pattern banks in 8 KB units. Once parsed the
//! image is read-only; the mapper pages 8 KB program banks in and out.

use vstd::prelude::*;

verus! {

#[allow(non_camel_case_types)]
#[derive(Clone, Copy, Debug, PartialEq, Eq, Structural)]
pub enum Mirroring {
    VERTICAL,
    HORIZONTAL,
    FOUR_SCREEN,
}

/// Mathematical state of a cartridge.
pub struct RomModel {
    pub rom: Seq<u8>,
    pub prg_rom: Seq<u8>,
    pub chr_rom: Seq<u8>,
    pub prg_rom_page_count: usize,
    pub chr_rom_page_count: usize,
    pub screen_mirroring: Mirroring,
    pub sram_enable: bool,
    pub trainer_enable: bool,
    pub four_screen: bool,
    pub mapper_number: u8,
    pub srams: Seq<u8>,
    pub roms: Seq<Seq<u8>>,
    pub prgrom_state: Seq<i8>,
    pub chrrom_state: Seq<u8>,
    pub prgrom_pages: Seq<Seq<u8>>,
    pub chrrom_pages: Seq<Seq<u8>>,
}

pub struct Rom {
    pub rom: Vec<u8>,
    pub prg_rom: Vec<u8>,
    pub chr_rom: Vec<u8>,
    pub prg_rom_page_count: usize,
    pub chr_rom_page_count: usize,
    pub screen_mirroring: Mirroring,
    pub sram_enable: bool,
    #[allow(non_snake_case)]
    pub trainer_Enable: bool,
    pub four_screen: bool,
    pub mapper_number: u8,
    pub srams: Vec<u8>,
    pub roms: Vec<Vec<u8>>,
    pub prgrom_state: Vec<i8>,
    pub chrrom_state: Vec<u8>,
    pub prgrom_pages: Vec<Vec<u8>>,
    pub chrrom_pages: Vec<Vec<u8>>,
}

impl View for Rom {
    type V = RomModel;

    open spec fn view(&self) -> RomModel {
        RomModel {
            rom: self.rom@,
            prg_rom: self.prg_rom@,
            chr_rom: self.chr_rom@,
            prg_rom_page_count: self.prg_rom_page_count,
            chr_rom_page_count: self.chr_rom_page_count,
            screen_mirroring: self.screen_mirroring,
            sram_enable: self.sram_enable,
            trainer_enable: self.trainer_Enable,
            four_screen: self.four_screen,
            mapper_number: self.mapper_number,
            srams: self.srams@,
            roms: self.roms.deep_view(),
            prgrom_state: self.prgrom_state@,
            chrrom_state: self.chrrom_state@,
            prgrom_pages: self.prgrom_pages.deep_view(),
            chrrom_pages: self.chrrom_pages.deep_view(),
        }
    }
}

impl RomModel {
    /// Structural facts that every reachable cartridge state satisfies.
    pub open spec fn wf(self) -> bool {
        &&& self.srams.len() == 0x2000
    &&& self.roms.len() == 4
        &&& self.prgrom_state.len() == 8
        &&& self.chrrom_state.len() == 16
        &&& self.prg_rom_page_count <= 255
        &&& self.chr_rom_page_count <= 255
        &&& (self.prg_rom_page_count > 0 ==> {
            &&& self.prgrom_pages.len() == 2 * self.prg_rom_page_count
            &&& forall|i: int|
                0 <= i < self.prgrom_pages.len() ==> (#[trigger] self.prgrom_pages[i]).len()
                    == 0x2000
        })
        &&& (self.chr_rom_page_count > 0 ==> {
            &&& self.chrrom_pages.len() == 8 * self.chr_rom_page_count
            &&& forall|i: int|
                0 <= i < self.chrrom_pages.len() ==> (#[trigger] self.chrrom_pages[i]).len()
                    == 0x1000
        })
    }
}

/// Where the program banks start in the image: right after the header,
/// or after the 512-byte trainer when the header announces one.
pub open spec fn prg_start_of(b: Seq<u8>) -> int {
    16 + if b[6] & 0x04 != 0 {
        512int
    } else {
        0int
    }
}

/// The mirroring mode announced by header byte 6.
pub open spec fn mirroring_of(b: Seq<u8>) -> Mirroring {
    if b[6] & 0x08 != 0 {
        Mirroring::FOUR_SCREEN
    } else if b[6] & 0x01 != 0 {
        Mirroring::VERTICAL
    } else {
        Mirroring::HORIZONTAL
    }
}

/// The `i`-th 8 KB half of a 16 KB program bank, as the image stores it.
pub open spec fn prg_page_of(rom: Seq<u8>, i: int) -> Seq<u8> {
    rom.subrange(16 + 0x2000 * i, 16 + 0x2000 * i + 0x2000)
}

/// The `i`-th 4 KB pattern slice, stepping 1 KB through the pattern banks
/// and zero-padded where the image runs out.
pub open spec fn chr_page_of(rom: Seq<u8>, prg_count: int, i: int) -> Seq<u8> {
    Seq::new(
        0x1000,
        |j: int|
            if 16 + 0x4000 * prg_count + 0x400 * i + j < rom.len() {
                rom[16 + 0x4000 * prg_count + 0x400 * i + j]
            } else {
                0u8
            },
    )
}

/// A vector of byte vectors, seen deeply, is just its rows' views.
pub proof fn lemma_rows_view(v: &Vec<Vec<u8>>)
    ensures
        v.deep_view().len() == v@.len(),
        forall|i: int| 0 <= i < v@.len() ==> #[trigger] v.deep_view()[i] == v@[i]@,
{
    assert forall|i: int| 0 <= i < v@.len() implies #[trigger] v.deep_view()[i] == v@[i]@ by {
        assert(v.deep_view()[i] =~= v@[i]@);
    }
}

/// Copies `src[start .. start + len]` into a fresh vector.
pub fn copy_range(src: &Vec<u8>, start: usize, len: usize) -> (r: Vec<u8>)
    requires
        start + len <= src.len(),
    ensures
        r@ == src@.subrange(start as int, start as int + len as int),
{
    let mut out: Vec<u8> = Vec::new();
    let mut j: usize = 0;
    while j < len
        invariant
            j <= len,
            start + len <= src.len(),
            out@ == src@.subrange(start as int, start as int + j as int),
        decreases len - j,
    {
        out.push(src[start + j]);
        j += 1;
        proof {
            assert(out@ =~= src@.subrange(start as int, start as int + j as int));
        }
    }
    out
}

/// Copies `len` bytes starting at `start`, substituting zero past the end
/// of `src`.
pub fn copy_range_padded(src: &Vec<u8>, start: usize, len: usize) -> (r: Vec<u8>)
    requires
        start + len <= usize::MAX,
    ensures
        r@ == Seq::new(
            len as nat,
            |j: int|
                if start + j < src.len() {
                    src@[start + j]
                } else {
                    0u8
                },
        ),
{
    let mut out: Vec<u8> = Vec::new();
    let mut j: usize = 0;
    while j < len
        invariant
            j <= len,
            start + len <= usize::MAX,
            out@ == Seq::new(
                j as nat,
                |k: int|
                    if start + k < src.len() {
                        src@[start + k]
                    } else {
                        0u8
                    },
            ),
        decreases len - j,
    {
        if start + j < src.len() {
            out.push(src[start + j]);
        } else {
            out.push(0);
        }
        j += 1;
        proof {
            assert(out@ =~= Seq::new(
                j as nat,
                |k: int|
                    if start + k < src.len() {
                        src@[start + k]
                    } else {
                        0u8
                    },
            ));
        }
    }
    out
}

impl Rom {
    pub fn new() -> (r: Rom)
        ensures
            r@.rom == Seq::new(1nat, |i: int| 0u8),
            r@.prg_rom == Seq::new(1nat, |i: int| 0u8),
            r@.chr_rom == Seq::new(1nat, |i: int| 0u8),
            r@.prg_rom_page_count == 0,
            r@.chr_rom_page_count == 0,
            r@.screen_mirroring == Mirroring::HORIZONTAL,
            !r@.sram_enable,
            !r@.trainer_enable,
            !r@.four_screen,
            r@.mapper_number == 0,
            r@.srams == Seq::new(0x2000nat, |i: int| 0u8),
            r@.roms == Seq::new(4nat, |i: int| Seq::new(4nat, |j: int| 0u8)),
            r@.prgrom_state == Seq::new(8nat, |i: int| 0i8),
            r@.chrrom_state == Seq::new(16nat, |i: int| 0u8),
            r@.prgrom_pages == Seq::new(1nat, |i: int| Seq::new(1nat, |j: int| 0u8)),
            r@.chrrom_pages == Seq::new(1nat, |i: int| Seq::new(1nat, |j: int| 0u8)),
            r@.wf(),
    {
        let mut roms: Vec<Vec<u8>> = Vec::new();
        let mut i: usize = 0;
        while i < 4
            invariant
                i <= 4,
                roms@.len() == i,
                forall|k: int|
                    0 <= k < i ==> (#[trigger] roms@[k])@ == Seq::new(4nat, |j: int| 0u8),
            decreases 4 - i,
        {
            let page: Vec<u8> = vec![0u8; 4];
            assert(page@ =~= Seq::new(4nat, |j: int| 0u8));
            roms.push(page);
            i += 1;
        }
        proof {
            lemma_rows_view(&roms);
            assert(roms.deep_view() =~= Seq::new(4nat, |i: int| Seq::new(4nat, |j: int| 0u8)));
        }
        let mut prgrom_pages: Vec<Vec<u8>> = Vec::new();
        let p0: Vec<u8> = vec![0u8; 1];
        assert(p0@ =~= Seq::new(1nat, |j: int| 0u8));
        prgrom_pages.push(p0);
        let mut chrrom_pages: Vec<Vec<u8>> = Vec::new();
        let c0: Vec<u8> = vec![0u8; 1];
        assert(c0@ =~= Seq::new(1nat, |j: int| 0u8));
        chrrom_pages.push(c0);
        let rom: Vec<u8> = vec![0u8; 1];
        let prg_rom: Vec<u8> = vec![0u8; 1];
        let chr_rom: Vec<u8> = vec![0u8; 1];
        let srams: Vec<u8> = vec![0u8; 0x2000];
        let prgrom_state: Vec<i8> = vec![0i8; 8];
        let chrrom_state: Vec<u8> = vec![0u8; 16];
        proof {
            assert(rom@ =~= Seq::new(1nat, |i: int| 0u8));
            assert(prg_rom@ =~= Seq::new(1nat, |i: int| 0u8));
            assert(chr_rom@ =~= Seq::new(1nat, |i: int| 0u8));
            assert(srams@ =~= Seq::new(0x2000nat, |i: int| 0u8));
            assert(prgrom_state@ =~= Seq::new(8nat, |i: int| 0i8));
            assert(chrrom_state@ =~= Seq::new(16nat, |i: int| 0u8));
            assert(prgrom_pages.deep_view() =~~= Seq::new(
                1nat,
                |i: int| Seq::new(1nat, |j: int| 0u8),
            ));
            assert(chrrom_pages.deep_view() =~~= Seq::new(
                1nat,
                |i: int| Seq::new(1nat, |j: int| 0u8),
            ));
        }
        Rom {
            rom,
            prg_rom,
            chr_rom,
            prg_rom_page_count: 0,
            chr_rom_page_count: 0,
            screen_mirroring: Mirroring::HORIZONTAL,
            sram_enable: false,
            trainer_Enable: false,
            four_screen: false,
            mapper_number: 0,
            srams,
            roms,
            prgrom_state,
            chrrom_state,
            prgrom_pages,
            chrrom_pages,
        }
    }

    /// Cuts the loaded image into 8 KB program pages and zero-padded 4 KB
    /// pattern slices.
    pub fn init(&mut self)
        requires
            old(self)@.prg_rom_page_count <= 255,
            old(self)@.chr_rom_page_count <= 255,
            old(self)@.prg_rom_page_count > 0 ==> old(self)@.rom.len() >= 16 + 0x4000 * old(
                self,
            )@.prg_rom_page_count,
        ensures
            final(self)@ == (RomModel {
                prgrom_pages: if old(self)@.prg_rom_page_count > 0 {
                    Seq::new(
                        (2 * old(self)@.prg_rom_page_count) as nat,
                        |i: int| prg_page_of(old(self)@.rom, i),
                    )
                } else {
                    old(self)@.prgrom_pages
                },
                chrrom_pages: if old(self)@.chr_rom_page_count > 0 {
                    Seq::new(
                        (8 * old(self)@.chr_rom_page_count) as nat,
                        |i: int| chr_page_of(
                            old(self)@.rom,
                            old(self)@.prg_rom_page_count as int,
                            i,
                        ),
                    )
                } else {
                    old(self)@.chrrom_pages
                },
                ..old(self)@
            }),
    {
        if self.prg_rom_page_count > 0 {
            let count: usize = self.prg_rom_page_count * 2;
            let mut pages: Vec<Vec<u8>> = Vec::new();
            let mut i: usize = 0;
            while i < count
                invariant
                    i <= count,
                    count == 2 * self@.prg_rom_page_count,
                    self@.prg_rom_page_count <= 255,
                    self@.rom.len() >= 16 + 0x2000 * count,
                    pages@.len() == i,
                    forall|k: int|
                        0 <= k < i ==> (#[trigger] pages@[k])@ == prg_page_of(self@.rom, k),
                decreases count - i,
            {
                let offset: usize = 16 + 0x2000 * i;
                let v: Vec<u8> = copy_range(&self.rom, offset, 0x2000);
                pages.push(v);
                i += 1;
            }
            proof {
                lemma_rows_view(&pages);
                assert(pages.deep_view() =~= Seq::new(
                    count as nat,
                    |k: int| prg_page_of(self@.rom, k),
                ));
            }
            self.prgrom_pages = pages;
        }
        if self.chr_rom_page_count > 0 {
            let count: usize = self.chr_rom_page_count * 8;
            let base: usize = 16 + 0x4000 * self.prg_rom_page_count;
            let mut pages: Vec<Vec<u8>> = Vec::new();
            let mut i: usize = 0;
            while i < count
                invariant
                    i <= count,
                    count == 8 * self@.chr_rom_page_count,
                    self@.chr_rom_page_count <= 255,
                    self@.prg_rom_page_count <= 255,
                    base == 16 + 0x4000 * self@.prg_rom_page_count,
                    pages@.len() == i,
                    forall|k: int|
                        0 <= k < i ==> (#[trigger] pages@[k])@ == chr_page_of(
                            self@.rom,
                            self@.prg_rom_page_count as int,
                            k,
                        ),
                decreases count - i,
            {
                let offset: usize = base + 0x400 * i;
                let v: Vec<u8> = copy_range_padded(&self.rom, offset, 0x1000);
                proof {
                    assert(v@ =~= chr_page_of(self@.rom, self@.prg_rom_page_count as int, i as int));
                }
                pages.push(v);
                i += 1;
            }
            proof {
                lemma_rows_view(&pages);
                assert(pages.deep_view() =~= Seq::new(
                    count as nat,
                    |k: int| chr_page_of(self@.rom, self@.prg_rom_page_count as int, k),
                ));
            }
            self.chrrom_pages = pages;
        }
    }

    /// Parses a raw cartridge image. The caller must have checked the four
    /// magic bytes and that the image holds the banks its header announces;
    /// on hardware a mismatch aborts the load.
    pub fn set_rom(&mut self, buf: Vec<u8>)
        requires
            buf@.len() >= 16,
            buf@[0] == 0x4e && buf@[1] == 0x45 && buf@[2] == 0x53 && buf@[3] == 0x1a,
            buf@.len() >= prg_start_of(buf@) + 0x4000 * buf@[4] + 0x2000 * buf@[5],
        ensures
            final(self)@ == (RomModel {
                rom: buf@,
                prg_rom: buf@.subrange(prg_start_of(buf@), prg_start_of(buf@) + 0x4000 * buf@[4]),
                chr_rom: buf@.subrange(
                    prg_start_of(buf@) + 0x4000 * buf@[4],
                    prg_start_of(buf@) + 0x4000 * buf@[4] + 0x2000 * buf@[5],
                ),
                prg_rom_page_count: buf@[4] as usize,
                chr_rom_page_count: buf@[5] as usize,
                screen_mirroring: mirroring_of(buf@),
                sram_enable: buf@[6] & 0x02 != 0,
                trainer_enable: buf@[6] & 0x04 != 0,
                four_screen: buf@[6] & 0x08 != 0,
                mapper_number: (buf@[6] >> 4) | (buf@[7] & 0xf0),
                prgrom_pages: if buf@[4] != 0 {
                    Seq::new((2 * buf@[4]) as nat, |i: int| prg_page_of(buf@, i))
                } else {
                    old(self)@.prgrom_pages
                },
                chrrom_pages: if buf@[5] != 0 {
                    Seq::new((8 * buf@[5]) as nat, |i: int| chr_page_of(buf@, buf@[4] as int, i))
                } else {
                    old(self)@.chrrom_pages
                },
                ..old(self)@
            }),
    {
        self.rom = buf;
        self.prg_rom_page_count = self.rom[4] as usize;
        self.chr_rom_page_count = self.rom[5] as usize;

        let four_screen: bool = self.rom[6] & 0x08 != 0;
        let vertical_mirroring: bool = self.rom[6] & 0x01 != 0;
        self.screen_mirroring = if four_screen {
            Mirroring::FOUR_SCREEN
        } else if vertical_mirroring {
            Mirroring::VERTICAL
        } else {
            Mirroring::HORIZONTAL
        };

        self.sram_enable = (self.rom[6] & 0x02) != 0;
        self.trainer_Enable = (self.rom[6] & 0x04) != 0;
        self.four_screen = four_screen;
        self.mapper_number = (self.rom[6] >> 4) | (self.rom[7] & 0xf0);

        let prg_rom_size: usize = self.rom[4] as usize * 0x4000;
        let chr_rom_size: usize = self.rom[5] as usize * 0x2000;

        let skip_trainer: bool = self.rom[6] & 0x04 != 0;
        let prg_rom_start: usize = 16 + if skip_trainer {
            512
        } else {
            0
        };
        let chr_rom_start: usize = prg_rom_start + prg_rom_size;

        self.prg_rom = copy_range(&self.rom, prg_rom_start, prg_rom_size);
        self.chr_rom = copy_range(&self.rom, chr_rom_start, chr_rom_size);
        self.init();
    }

    /// Maps every 8 KB window to an empty bank.
    pub fn clear_roms(&mut self)
        requires
            old(self)@.wf(),
        ensures
            final(self)@ == (RomModel {
                roms: Seq::new(4nat, |i: int| Seq::new(0x2000nat, |j: int| 0u8)),
                prgrom_state: old(self)@.prgrom_state.update(0, -1i8).update(1, -2i8).update(
                    2,
                    -3i8,
                ).update(3, -4i8),
                ..old(self)@
            }),
            final(self)@.wf(),
    {
        self.set_prgrom_page_8k(0, -1);
        self.set_prgrom_page_8k(1, -2);
        self.set_prgrom_page_8k(2, -3);
        self.set_prgrom_page_8k(3, -4);
        proof {
            assert(self@.roms =~~= Seq::new(4nat, |i: int| Seq::new(0x2000nat, |j: int| 0u8)));
        }
    }

    /// Points one 8 KB window of the processor's cartridge space at a bank:
    /// a non-negative `rompage` selects a program page modulo the page
    /// count, a negative one installs an empty bank.
    pub fn set_prgrom_page_8k(&mut self, page: isize, rompage: isize)
        requires
            0 <= page < 4,
            -128 <= rompage <= 127,
            old(self)@.wf(),
            rompage >= 0 ==> old(self)@.prg_rom_page_count > 0 && 2 * old(
                self,
            )@.prg_rom_page_count <= 127,
        ensures
            final(self)@ == (RomModel {
                roms: old(self)@.roms.update(
                    page as int,
                    if rompage < 0 {
                        Seq::new(0x2000nat, |j: int| 0u8)
                    } else {
                        old(self)@.prgrom_pages[(rompage as int) % (2 * old(
                            self,
                        )@.prg_rom_page_count as int)]
                    },
                ),
                prgrom_state: old(self)@.prgrom_state.update(
                    page as int,
                    if rompage < 0 {
                        rompage as i8
                    } else {
                        ((rompage as int) % (2 * old(self)@.prg_rom_page_count as int)) as i8
                    },
                ),
                ..old(self)@
            }),
            final(self)@.wf(),
    {
        if rompage < 0 {
            self.prgrom_state[page as usize] = rompage as i8;
            let zeros: Vec<u8> = vec![0u8; 0x2000];
            assert(zeros@ =~= Seq::new(0x2000nat, |j: int| 0u8));
            self.roms[page as usize] = zeros;
            proof {
                lemma_rows_view(&self.roms);
                lemma_rows_view(&old(self).roms);
                assert(self@.roms =~~= old(self)@.roms.update(
                    page as int,
                    Seq::new(0x2000nat, |j: int| 0u8),
                ));
            }
        } else {
            let count2: i8 = (self.prg_rom_page_count * 2) as i8;
            self.prgrom_state[page as usize] = rompage as i8 % count2;
            let idx: i8 = self.prgrom_state[page as usize];
            proof {
                lemma_rows_view(&self.prgrom_pages);
            }
            let v: Vec<u8> = copy_range(&self.prgrom_pages[idx as usize], 0, 0x2000);
            proof {
                assert(v@ =~= old(self)@.prgrom_pages[(rompage as int) % (2 * old(
                    self,
                )@.prg_rom_page_count as int)]);
            }
            self.roms[page as usize] = v;
            proof {
                lemma_rows_view(&self.roms);
                lemma_rows_view(&old(self).roms);
                assert(self@.roms =~~= old(self)@.roms.update(
                    page as int,
                    old(self)@.prgrom_pages[(rompage as int) % (2 * old(
                        self,
                    )@.prg_rom_page_count as int)],
                ));
            }
        }
    }

    /// Selects a 16 KB program bank by installing its two 8 KB halves.
    pub fn set_prgrom_page(&mut self, no: usize, num: usize)
        requires
            no < 2,
            num <= 62,
            old(self)@.wf(),
            old(self)@.prg_rom_page_count > 0,
            2 * old(self)@.prg_rom_page_count <= 127,
        ensures
            final(self)@ == (RomModel {
                roms: old(self)@.roms.update(
                    2 * no as int,
                    old(self)@.prgrom_pages[(2 * num) as int % (2 * old(
                        self,
                    )@.prg_rom_page_count as int)],
                ).update(
                    2 * no as int + 1,
                    old(self)@.prgrom_pages[(2 * num + 1) as int % (2 * old(
                        self,
                    )@.prg_rom_page_count as int)],
                ),
                prgrom_state: old(self)@.prgrom_state.update(
                    2 * no as int,
                    ((2 * num) as int % (2 * old(self)@.prg_rom_page_count as int)) as i8,
                ).update(
                    2 * no as int + 1,
                    ((2 * num + 1) as int % (2 * old(self)@.prg_rom_page_count as int)) as i8,
                ),
                ..old(self)@
            }),
            final(self)@.wf(),
    {
        self.set_prgrom_page_8k((no * 2) as isize, (num * 2) as isize);
        self.set_prgrom_page_8k((no * 2 + 1) as isize, (num * 2 + 1) as isize);
    }

    /// What the processor sees in cartridge space: the program image,
    /// with a single 16 KB bank mirrored across the 32 KB window, and zero
    /// where no image is loaded. This fixed layout is the whole of the
    /// simplest mapper's bus decoding; the 8 KB bank table that `set_rom`
    /// fills does not enter into it and exists for mapper-facing callers.
    pub open spec fn prg_read_spec(m: RomModel, addr: u16) -> u8 {
        let a = addr - 0x8000;
        let a2 = if m.prg_rom.len() == 0x4000 && a >= 0x4000 {
            a % 0x4000
        } else {
            a
        };
        if a2 < m.prg_rom.len() {
            m.prg_rom[a2]
        } else {
            0u8
        }
    }

    pub fn read_prg_rom(&self, addr: u16) -> (r: u8)
        requires
            addr >= 0x8000,
        ensures
            r == Rom::prg_read_spec(self@, addr),
    {
        let mut a: usize = (addr - 0x8000) as usize;
        if self.prg_rom.len() == 0x4000 && a >= 0x4000 {
            a = a % 0x4000;
        }
        if a < self.prg_rom.len() {
            self.prg_rom[a]
        } else {
            0
        }
    }
}

} // verus!
