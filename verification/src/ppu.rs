//! The picture-processing unit: a scanline/dot state machine that runs at
//! three dots per processor cycle, assembles background tiles and sprites
//! into an RGB frame buffer, and raises NMI on entering vertical blank.
//!
//! Every externally visible register access is pinned down by a transition
//! function on `PpuModel`; the scanline advance is pinned by timing clauses
//! and, while rendering is switched off, by a full transition function.

use vstd::prelude::*;

use crate::bits::lemma_u16_and_le;
use crate::bits::lemma_u32_and_le;
use crate::bits::lemma_u8_and_le;
use crate::bits::lemma_u8_or_le_sum;
use crate::bits::lemma_u8_bit5_keeps_high;
use crate::bits::lemma_u8_bit6_keeps_high;
use crate::bits::lemma_u8_status_bits;
use crate::bits::lemma_u8_render_disabled;
use crate::bits::lemma_rgb_offsets;
use crate::bits::lemma_u32_fine_y_step;
use crate::bits::lemma_u32_or_le_sum;
use crate::bits::lemma_u32_shl_bounds;
use crate::bits::lemma_u32_shr_le;
use crate::bits::lemma_u32_vram_page;
use crate::irq::Irq;
use crate::irq::IrqModel;
use crate::rom::copy_range;
use crate::rom::lemma_rows_view;
use crate::rom::Mirroring;
use crate::rom::Rom;
use crate::rom::RomModel;

verus! {

/// Palette indices for one background tile row: entries 0, 4, 8 and 12
/// alias the shared backdrop slot 0x10.
pub const PALLETE: [u8; 16] = [
    0x10,
    0x01,
    0x02,
    0x03,
    0x10,
    0x05,
    0x06,
    0x07,
    0x10,
    0x09,
    0x0a,
    0x0b,
    0x10,
    0x0d,
    0x0e,
    0x0f,
];

/// The 64 RGB triples of the console's master palette.
pub const PALLETE_TABLE: [(u8, u8, u8); 64] = [
    (101, 101, 101),
    (0, 45, 105),
    (19, 31, 127),
    (60, 19, 124),
    (96, 11, 98),
    (115, 10, 55),
    (113, 15, 7),
    (90, 26, 0),
    (52, 40, 0),
    (11, 52, 0),
    (0, 60, 0),
    (0, 61, 16),
    (0, 56, 64),
    (0, 0, 0),
    (0, 0, 0),
    (0, 0, 0),
    (174, 174, 174),
    (15, 99, 179),
    (64, 81, 208),
    (120, 65, 204),
    (167, 54, 169),
    (192, 52, 112),
    (189, 60, 48),
    (159, 74, 0),
    (109, 92, 0),
    (54, 109, 0),
    (7, 119, 4),
    (0, 121, 61),
    (0, 114, 125),
    (0, 0, 0),
    (0, 0, 0),
    (0, 0, 0),
    (254, 254, 255),
    (93, 179, 255),
    (143, 161, 255),
    (200, 144, 255),
    (247, 133, 250),
    (255, 131, 192),
    (255, 139, 127),
    (239, 154, 73),
    (189, 172, 44),
    (133, 188, 47),
    (85, 199, 83),
    (60, 201, 140),
    (62, 194, 205),
    (78, 78, 78),
    (0, 0, 0),
    (0, 0, 0),
    (254, 254, 255),
    (188, 223, 255),
    (209, 216, 255),
    (232, 209, 255),
    (251, 205, 253),
    (255, 204, 229),
    (255, 207, 202),
    (248, 213, 180),
    (228, 220, 168),
    (204, 227, 169),
    (185, 232, 184),
    (174, 232, 208),
    (175, 229, 234),
    (182, 182, 182),
    (0, 0, 0),
    (0, 0, 0),
];

/// Every entry of `PALLETE` stays inside the 33-entry palette RAM.
pub proof fn lemma_pallete_bound()
    ensures
        forall|i: int| 0 <= i < 16 ==> PALLETE[i] < 33,
{
    assert forall|i: int| 0 <= i < 16 implies PALLETE[i] < 33 by {
        if i == 0 {
        } else if i == 1 {
        } else if i == 2 {
        } else if i == 3 {
        } else if i == 4 {
        } else if i == 5 {
        } else if i == 6 {
        } else if i == 7 {
        } else if i == 8 {
        } else if i == 9 {
        } else if i == 10 {
        } else if i == 11 {
        } else if i == 12 {
        } else if i == 13 {
        } else if i == 14 {
        } else {
            assert(i == 15);
        }
    }
}

/// Mathematical state of the picture unit.
pub struct PpuModel {
    pub ppux: usize,
    pub line: usize,
    pub regs: Seq<u8>,
    pub imgdata: Seq<u8>,
    pub imgok: bool,
    pub imgidx: usize,
    pub sprite_zero: bool,
    pub scroll_reg_flg: bool,
    pub ppu_addr_buffer: u32,
    pub h_scroll_val: usize,
    pub ppu_addr_reg_flg: bool,
    pub ppu_addr: u32,
    pub ppu_read_buffer: u8,
    pub screen_mirroring: Mirroring,
    pub vram: Seq<Seq<u8>>,
    pub vrams: Seq<Seq<u8>>,
    pub bg_line_buffer: Seq<u8>,
    pub sp_line_buffer: Seq<u16>,
    pub palette: Seq<u8>,
    pub sprite_ram: Seq<u8>,
    pub spbit_pattern: Seq<Seq<Seq<u8>>>,
}

pub struct Ppu {
    pub ppux: usize,
    pub line: usize,
    pub regs: Vec<u8>,
    pub imgdata: Vec<u8>,
    pub imgok: bool,
    pub imgidx: usize,
    pub sprite_zero: bool,
    pub scroll_reg_flg: bool,
    pub ppu_addr_buffer: u32,
    pub h_scroll_val: usize,
    pub ppu_addr_reg_flg: bool,
    pub ppu_addr: u32,
    pub ppu_read_buffer: u8,
    pub screen_mirroring: Mirroring,
    pub vram: Vec<Vec<u8>>,
    pub vrams: Vec<Vec<u8>>,
    pub bg_line_buffer: Vec<u8>,
    pub sp_line_buffer: Vec<u16>,
    pub palette: Vec<u8>,
    pub sprite_ram: Vec<u8>,
    pub spbit_pattern: Vec<Vec<Vec<u8>>>,
}

impl View for Ppu {
    type V = PpuModel;

    open spec fn view(&self) -> PpuModel {
        PpuModel {
            ppux: self.ppux,
            line: self.line,
            regs: self.regs@,
            imgdata: self.imgdata@,
            imgok: self.imgok,
            imgidx: self.imgidx,
            sprite_zero: self.sprite_zero,
            scroll_reg_flg: self.scroll_reg_flg,
            ppu_addr_buffer: self.ppu_addr_buffer,
            h_scroll_val: self.h_scroll_val,
            ppu_addr_reg_flg: self.ppu_addr_reg_flg,
            ppu_addr: self.ppu_addr,
            ppu_read_buffer: self.ppu_read_buffer,
            screen_mirroring: self.screen_mirroring,
            vram: self.vram.deep_view(),
            vrams: self.vrams.deep_view(),
            bg_line_buffer: self.bg_line_buffer@,
            sp_line_buffer: self.sp_line_buffer@,
            palette: self.palette@,
            sprite_ram: self.sprite_ram@,
            spbit_pattern: self.spbit_pattern.deep_view(),
        }
    }
}

impl PpuModel {
    /// Structural facts that every reachable picture-unit state satisfies.
    pub open spec fn wf(self) -> bool {
        &&& self.regs.len() == 8
        &&& self.imgdata.len() == 256 * 240 * 3
        &&& self.imgidx <= self.imgdata.len()
        &&& self.ppu_addr <= 0xffff
        &&& self.ppu_addr_buffer <= 0xffff
        &&& self.h_scroll_val <= 7
        &&& self.vram.len() == 16
        &&& (forall|i: int|
            0 <= i < 16 ==> (#[trigger] self.vram[i]).len() == 0x1000 || self.vram[i].len()
                == 0x400)
        &&& (forall|i: int| 0 <= i < 8 ==> (#[trigger] self.vram[i]).len() == 0x1000)
        &&& self.vrams.len() == 16
        &&& (forall|i: int| 0 <= i < 16 ==> (#[trigger] self.vrams[i]).len() == 0x400)
        &&& self.bg_line_buffer.len() == 264
        &&& (forall|i: int| 0 <= i < 264 ==> (#[trigger] self.bg_line_buffer[i]) < 33)
        &&& self.sp_line_buffer.len() == 264
        &&& self.palette.len() == 33
        &&& (forall|i: int| 0 <= i < 33 ==> (#[trigger] self.palette[i]) < 64)
        &&& self.sprite_ram.len() == 256
        &&& self.spbit_pattern.len() == 256
        &&& (forall|i: int| 0 <= i < 256 ==> (#[trigger] self.spbit_pattern[i]).len() == 256)
        &&& (forall|i: int, j: int|
            0 <= i < 256 && 0 <= j < 256 ==> (#[trigger] self.spbit_pattern[i][j]).len() == 8)
        &&& (forall|i: int, j: int, k: int|
            0 <= i < 256 && 0 <= j < 256 && 0 <= k < 8 ==> (#[trigger] self.spbit_pattern[i][j][k])
                <= 3)
    }
}

/// The state the picture unit is built in.
pub open spec fn ppu_new_model() -> PpuModel {
    PpuModel {
        ppux: 341,
        line: 0,
        regs: Seq::new(8nat, |i: int| 0u8),
        imgdata: Seq::new((256 * 240 * 3) as nat, |i: int| 0u8),
        imgok: false,
        imgidx: 0,
        sprite_zero: false,
        scroll_reg_flg: false,
        ppu_addr_buffer: 0,
        h_scroll_val: 0,
        ppu_addr_reg_flg: false,
        ppu_addr: 0,
        ppu_read_buffer: 0,
        screen_mirroring: Mirroring::HORIZONTAL,
        vram: Seq::new(16nat, |i: int| Seq::new(0x1000nat, |j: int| 0u8)),
        vrams: Seq::new(16nat, |i: int| Seq::new(0x400nat, |j: int| 0u8)),
        bg_line_buffer: Seq::new(264nat, |i: int| 0u8),
        sp_line_buffer: Seq::new(264nat, |i: int| 0u16),
        palette: Seq::new(33nat, |i: int| 0x0fu8),
        sprite_ram: Seq::new(256nat, |i: int| 0u8),
        spbit_pattern: Seq::new(
            256nat,
            |i: int| Seq::new(256nat, |j: int| Seq::new(8nat, |k: int| 0u8)),
        ),
    }
}

/// What a reset keeps and what it clears: memories survive, the write
/// latches, counters and cursors return to their power-on values.
pub open spec fn ppu_reset_model(p: PpuModel) -> PpuModel {
    PpuModel {
        imgidx: 0,
        scroll_reg_flg: false,
        ppu_addr_reg_flg: false,
        ppu_addr_buffer: 0,
        ppu_read_buffer: 0,
        ppu_addr: 0,
        h_scroll_val: 0,
        ppux: 341,
        line: 0,
        sprite_zero: false,
        imgok: false,
        ..p
    }
}

/// Writing control register 0 also reloads the nametable-select bits of
/// the address buffer.
pub open spec fn ppu_ctrl0_write(p: PpuModel, value: u8) -> PpuModel {
    PpuModel {
        regs: p.regs.update(0, value),
        ppu_addr_buffer: (p.ppu_addr_buffer & 0xf3ff) | (((value & 0x03) as u32) << 10u32),
        ..p
    }
}

/// Control register 1 holds the show/mask bits unchanged.
pub open spec fn ppu_ctrl1_write(p: PpuModel, value: u8) -> PpuModel {
    PpuModel { regs: p.regs.update(1, value), ..p }
}

/// Reading the status register hands out the status byte, then clears the
/// vblank bit and resets both first/second write toggles.
pub open spec fn ppu_status_read(p: PpuModel) -> (u8, PpuModel) {
    (
        p.regs[2],
        PpuModel {
            regs: p.regs.update(2, p.regs[2] & 0x1f),
            scroll_reg_flg: false,
            ppu_addr_reg_flg: false,
            ..p
        },
    )
}

/// A scroll write alternates: first the coarse/fine X bits, then the
/// coarse/fine Y bits, toggling the shared flip-flop.
pub open spec fn ppu_scroll_write(p: PpuModel, value: u8) -> PpuModel {
    if p.scroll_reg_flg {
        PpuModel {
            regs: p.regs.update(5, value),
            ppu_addr_buffer: (p.ppu_addr_buffer & 0x8c1f) | (((value & 0xf8) as u32) << 2u32) | ((
            (value & 0x07) as u32) << 12u32),
            scroll_reg_flg: false,
            ..p
        }
    } else {
        PpuModel {
            regs: p.regs.update(5, value),
            ppu_addr_buffer: (p.ppu_addr_buffer & 0xffe0) | (((value & 0xf8) as u32) >> 3u32),
            h_scroll_val: (value & 7) as usize,
            scroll_reg_flg: true,
            ..p
        }
    }
}

/// An address write takes the high byte first; the second (low) write
/// commits the buffer to the active render address.
pub open spec fn ppu_addr_write(p: PpuModel, value: u8) -> PpuModel {
    if p.ppu_addr_reg_flg {
        let buf = (p.ppu_addr_buffer & 0xff00) | (value as u32);
        PpuModel {
            regs: p.regs.update(6, value),
            ppu_addr_buffer: buf,
            ppu_addr: buf,
            ppu_addr_reg_flg: false,
            ..p
        }
    } else {
        PpuModel {
            regs: p.regs.update(6, value),
            ppu_addr_buffer: (p.ppu_addr_buffer & 0x00ff) | (((value & 0x3f) as u32) << 8u32),
            ppu_addr_reg_flg: true,
            ..p
        }
    }
}

/// How far a data-port access moves the render address: 32 in column mode,
/// 1 otherwise.
pub open spec fn ppu_addr_increment(p: PpuModel) -> u32 {
    if p.regs[0] & 0x04 == 0x04 {
        32u32
    } else {
        1u32
    }
}

/// A data-port read is buffered: it returns the previous buffer, refills
/// the buffer from VRAM and advances the render address.
pub open spec fn ppu_data_read(p: PpuModel) -> (u8, PpuModel) {
    let addr = p.ppu_addr & 0x3fff;
    (
        p.ppu_read_buffer,
        PpuModel {
            ppu_read_buffer: p.vram[(addr >> 10u32) as int][(addr & 0x3ff) as int],
            ppu_addr: ((p.ppu_addr + ppu_addr_increment(p)) as u32) & 0xffff,
            ..p
        },
    )
}

/// A data-port write stores into VRAM; nametable mirrors at 0x3000-0x3EFE
/// are written through to their canonical page, and palette writes land in
/// palette RAM with entries 0x00/0x10 aliased. The address then advances.
pub open spec fn ppu_data_write(p: PpuModel, value: u8) -> PpuModel {
    let addr = p.ppu_addr & 0x3fff;
    let vram1 = p.vram.update(
        (addr >> 10u32) as int,
        p.vram[(addr >> 10u32) as int].update((addr & 0x3ff) as int, value),
    );
    let advanced = ((p.ppu_addr + ppu_addr_increment(p)) as u32) & 0xffff;
    let with_reg = p.regs.update(7, value);
    if addr < 0x3000 {
        PpuModel { regs: with_reg, vram: vram1, ppu_addr: advanced, ..p }
    } else if addr < 0x3eff {
        let a2 = (addr - 0x1000) as u32;
        PpuModel {
            regs: with_reg,
            vram: vram1.update(
                (a2 >> 10u32) as int,
                vram1[(a2 >> 10u32) as int].update((a2 & 0x3ff) as int, value),
            ),
            ppu_addr: advanced,
            ..p
        }
    } else {
        let pal_no = addr & 0x1f;
        let palette1 = if pal_no == 0x00 || pal_no == 0x10 {
            p.palette.update(0x10, value & 0x3f).update(0x00, value & 0x3f)
        } else {
            p.palette.update(pal_no as int, value & 0x3f)
        };
        PpuModel { regs: with_reg, vram: vram1, palette: palette1, ppu_addr: advanced, ..p }
    }
}

/// A sprite-data write stores at the OAM cursor and advances it, wrapping
/// at the end of sprite memory.
pub open spec fn ppu_sprite_data_write(p: PpuModel, value: u8) -> PpuModel {
    PpuModel {
        sprite_ram: p.sprite_ram.update(p.regs[3] as int, value),
        regs: p.regs.update(3, ((p.regs[3] as u16 + 1) as u16 & 0xff) as u8),
        ..p
    }
}

/// A sprite-address write just repositions the OAM cursor.
pub open spec fn ppu_sprite_addr_write(p: PpuModel, value: u8) -> PpuModel {
    PpuModel { regs: p.regs.update(3, value), ..p }
}

/// What a sprite-data read returns: the OAM byte under the cursor.
pub open spec fn ppu_sprite_data_read(p: PpuModel) -> u8 {
    p.sprite_ram[p.regs[3] as int]
}

/// The register interface the bus drives: the eight externally
/// addressable ports of the picture unit.
pub trait Port {
    /// What a register file asks of its state before an access.
    spec fn port_inv(&self) -> bool;

    fn write_scroll_reg(&mut self, value: u8)
        requires
            old(self).port_inv(),
    ;

    fn write_ppu_ctrl0_reg(&mut self, value: u8)
        requires
            old(self).port_inv(),
    ;

    fn write_ppu_ctrl1_reg(&mut self, value: u8)
        requires
            old(self).port_inv(),
    ;

    fn read_ppu_status_reg(&mut self) -> u8
        requires
            old(self).port_inv(),
    ;

    fn write_ppu_addr_reg(&mut self, value: u8)
        requires
            old(self).port_inv(),
    ;

    fn read_ppu_data_reg(&mut self) -> u8
        requires
            old(self).port_inv(),
    ;

    fn write_ppu_data_reg(&mut self, value: u8)
        requires
            old(self).port_inv(),
    ;

    fn write_sprite_data(&mut self, value: u8)
        requires
            old(self).port_inv(),
    ;

    fn write_sprite_addr_reg(&mut self, value: u8)
        requires
            old(self).port_inv(),
    ;
}

/// Builds a byte vector holding `n` copies of `v`.
fn make_bytes(n: usize, v: u8) -> (r: Vec<u8>)
    ensures
        r@ == Seq::new(n as nat, |i: int| v),
{
    let r: Vec<u8> = vec![v; n];
    proof {
        assert(r@ =~= Seq::new(n as nat, |i: int| v));
    }
    r
}

/// Builds a word vector holding `n` copies of `v`.
fn make_words(n: usize, v: u16) -> (r: Vec<u16>)
    ensures
        r@ == Seq::new(n as nat, |i: int| v),
{
    let r: Vec<u16> = vec![v; n];
    proof {
        assert(r@ =~= Seq::new(n as nat, |i: int| v));
    }
    r
}

/// Builds `rows` zeroed byte vectors of `cols` bytes each.
fn make_rows(rows: usize, cols: usize) -> (r: Vec<Vec<u8>>)
    ensures
        r.deep_view() == Seq::new(rows as nat, |i: int| Seq::new(cols as nat, |j: int| 0u8)),
{
    let mut r: Vec<Vec<u8>> = Vec::new();
    let mut i: usize = 0;
    while i < rows
        invariant
            i <= rows,
            r@.len() == i,
            forall|k: int|
                0 <= k < i ==> (#[trigger] r@[k])@ == Seq::new(cols as nat, |j: int| 0u8),
        decreases rows - i,
    {
        let row: Vec<u8> = make_bytes(cols, 0);
        r.push(row);
        i += 1;
    }
    proof {
        lemma_rows_view(&r);
        assert(r.deep_view() =~= Seq::new(
            rows as nat,
            |i: int| Seq::new(cols as nat, |j: int| 0u8),
        ));
    }
    r
}

/// A three-deep vector of bytes, seen deeply, is its planes' deep views.
pub proof fn lemma_cube_view(v: &Vec<Vec<Vec<u8>>>)
    ensures
        v.deep_view().len() == v@.len(),
        forall|i: int| 0 <= i < v@.len() ==> #[trigger] v.deep_view()[i] == v@[i].deep_view(),
{
    assert forall|i: int| 0 <= i < v@.len() implies #[trigger] v.deep_view()[i]
        == v@[i].deep_view() by {
        assert(v.deep_view()[i] == v@[i].deep_view());
    }
}

/// The two-bit pixel value that bit position `k` of pattern bytes `i`
/// (low plane) and `j` (high plane) decodes to.
pub open spec fn spbit(i: int, j: int, k: int) -> u8 {
    (((((i as u32) << (k as u32)) as u32 & 0x80) >> 7u32) | ((((j as u32) << (k as u32)) as u32
        & 0x80) >> 6u32)) as u8
}

/// The fully decoded pattern lookup table.
pub open spec fn spbit_table() -> Seq<Seq<Seq<u8>>> {
    Seq::new(256nat, |i: int| Seq::new(256nat, |j: int| Seq::new(8nat, |k: int| spbit(i, j, k))))
}

/// Pattern lookup values are two-bit pixels.
pub proof fn lemma_spbit_le3(i: int, j: int, k: int)
    ensures
        spbit(i, j, k) <= 3,
{
    let x = i as u32;
    let y = j as u32;
    let s = k as u32;
    assert(((((x << s) as u32 & 0x80) >> 7u32) | ((((y << s)) as u32 & 0x80) >> 6u32)) <= 3)
        by (bit_vector);
}

impl Ppu {
    pub fn new() -> (r: Ppu)
        ensures
            r@ == ppu_new_model(),
            r@.wf(),
    {
        let regs: Vec<u8> = make_bytes(8, 0);
        let imgdata: Vec<u8> = make_bytes(256 * 240 * 3, 0);
        let vram: Vec<Vec<u8>> = make_rows(16, 0x1000);
        let vrams: Vec<Vec<u8>> = make_rows(16, 0x400);
        let bg_line_buffer: Vec<u8> = make_bytes(264, 0);
        let sp_line_buffer: Vec<u16> = make_words(264, 0);
        let palette: Vec<u8> = make_bytes(33, 0x0f);
        let sprite_ram: Vec<u8> = make_bytes(256, 0);
        let mut spbit_pattern: Vec<Vec<Vec<u8>>> = Vec::new();
        let mut i: usize = 0;
        while i < 256
            invariant
                i <= 256,
                spbit_pattern@.len() == i,
                forall|k: int|
                    0 <= k < i ==> (#[trigger] spbit_pattern@[k]).deep_view() == Seq::new(
                        256nat,
                        |a: int| Seq::new(8nat, |b: int| 0u8),
                    ),
            decreases 256 - i,
        {
            let plane: Vec<Vec<u8>> = make_rows(256, 8);
            spbit_pattern.push(plane);
            i += 1;
        }
        proof {
            lemma_cube_view(&spbit_pattern);
            assert(spbit_pattern.deep_view() =~= Seq::new(
                256nat,
                |i: int| Seq::new(256nat, |j: int| Seq::new(8nat, |k: int| 0u8)),
            ));
        }
        let r = Ppu {
            ppux: 341,
            line: 0,
            regs,
            imgdata,
            imgok: false,
            imgidx: 0,
            sprite_zero: false,
            scroll_reg_flg: false,
            ppu_addr_buffer: 0,
            h_scroll_val: 0,
            ppu_addr_reg_flg: false,
            ppu_addr: 0,
            ppu_read_buffer: 0,
            screen_mirroring: Mirroring::HORIZONTAL,
            vram,
            vrams,
            bg_line_buffer,
            sp_line_buffer,
            palette,
            sprite_ram,
            spbit_pattern,
        };
        proof {
            assert(r@ == ppu_new_model());
        }
        r
    }

    pub fn init(&mut self)
        requires
            old(self)@.wf(),
        ensures
            final(self)@ == ppu_reset_model(old(self)@),
            final(self)@.wf(),
    {
        self.reset();
    }

    /// Returns the write-side latches, counters and cursors to their
    /// power-on values; memories are kept.
    pub fn reset(&mut self)
        requires
            old(self)@.wf(),
        ensures
            final(self)@ == ppu_reset_model(old(self)@),
            final(self)@.wf(),
    {
        self.imgidx = 0;
        self.scroll_reg_flg = false;
        self.ppu_addr_reg_flg = false;
        self.ppu_addr_buffer = 0;
        self.ppu_read_buffer = 0;
        self.ppu_addr = 0;
        self.h_scroll_val = 0;
        self.ppux = 341;
        self.line = 0;
        self.sprite_zero = false;
        self.imgok = false;
    }

    /// Precomputes, for every low-plane byte, high-plane byte and bit
    /// position, the two-bit pixel value the pair decodes to.
    fn crate_spbit_array(&mut self)
        requires
            old(self)@.wf(),
        ensures
            final(self)@ == (PpuModel { spbit_pattern: spbit_table(), ..old(self)@ }),
            final(self)@.wf(),
    {
        let mut cube: Vec<Vec<Vec<u8>>> = Vec::new();
        let mut i: usize = 0;
        while i < 256
            invariant
                i <= 256,
                cube@.len() == i,
                forall|a: int|
                    0 <= a < i ==> (#[trigger] cube@[a]).deep_view() == Seq::new(
                        256nat,
                        |j: int| Seq::new(8nat, |k: int| spbit(a, j, k)),
                    ),
            decreases 256 - i,
        {
            let mut plane: Vec<Vec<u8>> = Vec::new();
            let mut j: usize = 0;
            while j < 256
                invariant
                    i < 256,
                    j <= 256,
                    plane@.len() == j,
                    forall|b: int|
                        0 <= b < j ==> (#[trigger] plane@[b])@ == Seq::new(
                            8nat,
                            |k: int| spbit(i as int, b, k),
                        ),
                decreases 256 - j,
            {
                let mut bits8: Vec<u8> = Vec::new();
                let mut k: usize = 0;
                while k < 8
                    invariant
                        i < 256,
                        j < 256,
                        k <= 8,
                        bits8@.len() == k,
                        forall|c: int| 0 <= c < k ==> bits8@[c] == spbit(i as int, j as int, c),
                    decreases 8 - k,
                {
                    let lval: u32 = ((i as u32) << (k as u32)) & 0x80;
                    let rval: u32 = ((j as u32) << (k as u32)) & 0x80;
                    let val: u32 = (lval >> 7) | (rval >> 6);
                    proof {
                        lemma_spbit_le3(i as int, j as int, k as int);
                    }
                    bits8.push(val as u8);
                    k += 1;
                }
                proof {
                    assert(bits8@ =~= Seq::new(8nat, |c: int| spbit(i as int, j as int, c)));
                }
                plane.push(bits8);
                j += 1;
            }
            proof {
                lemma_rows_view(&plane);
                assert(plane.deep_view() =~= Seq::new(
                    256nat,
                    |b: int| Seq::new(8nat, |k: int| spbit(i as int, b, k)),
                ));
            }
            cube.push(plane);
            i += 1;
        }
        proof {
            lemma_cube_view(&cube);
            assert(cube.deep_view() =~~= spbit_table());
        }
        self.spbit_pattern = cube;
        proof {
            assert forall|a: int, b: int, c: int|
                0 <= a < 256 && 0 <= b < 256 && 0 <= c < 8 implies #[trigger] self@.spbit_pattern[a][b][c]
                <= 3 by {
                lemma_spbit_le3(a, b, c);
            }
        }
    }
}

/// How many dots a batch of processor cycles is worth, counted from the
/// current dot position: the picture unit runs three dots per cycle.
pub open spec fn dots_of(p: PpuModel, clk: usize) -> int {
    p.ppux + 3 * clk
}

/// How many whole scanlines those dots complete.
pub open spec fn crossings_of(p: PpuModel, clk: usize) -> nat {
    (dots_of(p, clk) / 341) as nat
}

/// One step of the scanline counter: 262 lines per frame, wrapping to 0.
pub open spec fn line_step(l: int) -> int {
    if l + 1 == 262 {
        0
    } else {
        l + 1
    }
}

/// The scanline counter after `k` whole scanlines.
pub open spec fn line_after(l: int, k: nat) -> int
    decreases k,
{
    if k == 0 {
        l
    } else {
        line_step(line_after(l, (k - 1) as nat))
    }
}

/// Whether one of the next `k` scanline steps enters vertical blank
/// (reaches scanline 240).
pub open spec fn crossed_vblank(l: int, k: nat) -> bool
    decreases k,
{
    k > 0 && (line_after(l, k) == 240 || crossed_vblank(l, (k - 1) as nat))
}

/// Whether one of the next `k` scanline steps completes a frame
/// (wraps the counter back to 0).
pub open spec fn crossed_frame_end(l: int, k: nat) -> bool
    decreases k,
{
    k > 0 && (line_after(l, k) == 0 || crossed_frame_end(l, (k - 1) as nat))
}

/// The scanline counter stays within one frame.
pub proof fn lemma_line_after_bounds(l: int, k: nat)
    requires
        0 <= l <= 261,
    ensures
        0 <= line_after(l, k) <= 261,
    decreases k,
{
    if k > 0 {
        lemma_line_after_bounds(l, (k - 1) as nat);
    }
}

/// One vertical step of the render address after the horizontal reload:
/// fine Y advances; on overflow it clears and carries into coarse Y,
/// which wraps at row 29 toggling the vertical nametable bit, or at row
/// 31 without the toggle.
pub open spec fn y_step_spec(a: u32) -> u32 {
    if a & 0x7000 == 0x7000 {
        let b = a & 0x8fff;
        if b & 0x03e0 == 0x03a0 {
            (b ^ 0x0800) & 0xfc1f
        } else if b & 0x03e0 == 0x03e0 {
            b & 0xfc1f
        } else {
            (b + 0x0020) as u32
        }
    } else {
        (a + 0x1000) as u32
    }
}

/// Rendering is switched off and no sprite-zero hit is pending: in this
/// state the scanline machine is a pure function of its inputs.
pub open spec fn quiescent(p: PpuModel) -> bool {
    p.regs[1] & 0x18 == 0 && !p.sprite_zero
}

/// 256 backdrop pixels written into the frame buffer at `idx`.
pub open spec fn fill_backdrop(img: Seq<u8>, idx: int, rgb: (u8, u8, u8)) -> Seq<u8> {
    Seq::new(
        img.len(),
        |n: int|
            if idx <= n < idx + 768 {
                if (n - idx) % 3 == 0 {
                    rgb.0
                } else if (n - idx) % 3 == 1 {
                    rgb.1
                } else {
                    rgb.2
                }
            } else {
                img[n]
            },
    )
}

/// One scanline of the machine with rendering switched off: visible lines
/// paint the backdrop colour, line 240 enters vertical blank (setting the
/// status bit and, when enabled, NMI), line 262 wraps and completes the
/// frame.
pub open spec fn quiet_line_step(p: PpuModel, q: IrqModel) -> (PpuModel, IrqModel) {
    let l1 = p.line + 1;
    if l1 < 240 {
        let paint = 8 <= l1 < 232 && p.imgidx + 768 <= p.imgdata.len();
        (
            PpuModel {
                line: l1 as usize,
                sprite_zero: false,
                imgdata: if paint {
                    fill_backdrop(p.imgdata, p.imgidx as int, PALLETE_TABLE[p.palette[0x10] as int])
                } else {
                    p.imgdata
                },
                imgidx: if paint {
                    (p.imgidx + 768) as usize
                } else {
                    p.imgidx
                },
                ..p
            },
            q,
        )
    } else if l1 == 240 {
        (
            PpuModel {
                line: 240,
                sprite_zero: false,
                scroll_reg_flg: false,
                regs: p.regs.update(2, (p.regs[2] & 0x1f) | 0x80),
                ..p
            },
            IrqModel { nmi: q.nmi || p.regs[0] & 0x80 == 0x80, ..q },
        )
    } else if l1 == 262 {
        (
            PpuModel {
                line: 0,
                sprite_zero: false,
                regs: p.regs.update(2, p.regs[2] & 0x7f),
                imgok: true,
                ..p
            },
            q,
        )
    } else {
        (PpuModel { line: l1 as usize, sprite_zero: false, ..p }, q)
    }
}

/// `k` scanlines of the quiescent machine.
pub open spec fn quiet_lines(p: PpuModel, q: IrqModel, k: nat) -> (PpuModel, IrqModel)
    decreases k,
{
    if k == 0 {
        (p, q)
    } else {
        let r = quiet_lines(p, q, (k - 1) as nat);
        quiet_line_step(r.0, r.1)
    }
}

impl Port for Ppu {
    open spec fn port_inv(&self) -> bool {
        self@.wf()
    }

    fn write_scroll_reg(&mut self, value: u8)
        ensures
            final(self)@ == ppu_scroll_write(old(self)@, value),
            final(self)@.wf(),
    {
        self.regs[5] = value;
        if self.scroll_reg_flg {
            proof {
                lemma_u32_and_le(self.ppu_addr_buffer, 0x8c1f);
                lemma_u8_and_le(value, 0xf8);
                lemma_u8_and_le(value, 0x07);
                lemma_u32_shl_bounds((value & 0xf8) as u32);
                lemma_u32_shl_bounds((value & 0x07) as u32);
                lemma_u32_or_le_sum(self.ppu_addr_buffer & 0x8c1f, ((value & 0xf8) as u32) << 2);
                lemma_u32_or_le_sum(
                    (self.ppu_addr_buffer & 0x8c1f) | (((value & 0xf8) as u32) << 2),
                    ((value & 0x07) as u32) << 12,
                );
            }
            self.ppu_addr_buffer = (self.ppu_addr_buffer & 0x8c1f) | (((value & 0xf8) as u32) << 2)
                | (((value & 0x07) as u32) << 12);
        } else {
            proof {
                lemma_u32_and_le(self.ppu_addr_buffer, 0xffe0);
                lemma_u32_shl_bounds((value & 0xf8) as u32);
                lemma_u32_or_le_sum(self.ppu_addr_buffer & 0xffe0, ((value & 0xf8) as u32) >> 3);
            }
            self.ppu_addr_buffer = (self.ppu_addr_buffer & 0xffe0) | (((value & 0xf8) as u32) >> 3);
            proof {
                lemma_u8_and_le(value, 7);
            }
            self.h_scroll_val = (value & 7) as usize;
        }
        self.scroll_reg_flg = !self.scroll_reg_flg;
    }

    fn write_ppu_ctrl0_reg(&mut self, value: u8)
        ensures
            final(self)@ == ppu_ctrl0_write(old(self)@, value),
            final(self)@.wf(),
    {
        self.regs[0] = value;
        proof {
            lemma_u32_and_le(self.ppu_addr_buffer, 0xf3ff);
            lemma_u8_and_le(value, 0x03);
            lemma_u32_shl_bounds((value & 0x03) as u32);
            lemma_u32_or_le_sum(self.ppu_addr_buffer & 0xf3ff, ((value & 0x03) as u32) << 10);
        }
        self.ppu_addr_buffer = (self.ppu_addr_buffer & 0xf3ff) | (((value & 0x03) as u32) << 10);
    }

    fn write_ppu_ctrl1_reg(&mut self, value: u8)
        ensures
            final(self)@ == ppu_ctrl1_write(old(self)@, value),
            final(self)@.wf(),
    {
        self.regs[1] = value;
    }

    fn read_ppu_status_reg(&mut self) -> (r: u8)
        ensures
            (r, final(self)@) == ppu_status_read(old(self)@),
            final(self)@.wf(),
    {
        let result: u8 = self.regs[2];
        self.regs[2] = self.regs[2] & 0x1f;
        self.scroll_reg_flg = false;
        self.ppu_addr_reg_flg = false;
        result
    }

    fn write_ppu_addr_reg(&mut self, value: u8)
        ensures
            final(self)@ == ppu_addr_write(old(self)@, value),
            final(self)@.wf(),
    {
        self.regs[6] = value;
        if self.ppu_addr_reg_flg {
            proof {
                lemma_u32_and_le(self.ppu_addr_buffer, 0xff00);
                lemma_u32_or_le_sum(self.ppu_addr_buffer & 0xff00, value as u32);
            }
            self.ppu_addr_buffer = (self.ppu_addr_buffer & 0xff00) | (value as u32);
            self.ppu_addr = self.ppu_addr_buffer;
        } else {
            proof {
                lemma_u32_and_le(self.ppu_addr_buffer, 0x00ff);
                lemma_u8_and_le(value, 0x3f);
                lemma_u32_shl_bounds((value & 0x3f) as u32);
                lemma_u32_or_le_sum(self.ppu_addr_buffer & 0x00ff, ((value & 0x3f) as u32) << 8);
            }
            self.ppu_addr_buffer = (self.ppu_addr_buffer & 0x00ff) | (((value & 0x3f) as u32) << 8);
        }
        self.ppu_addr_reg_flg = !self.ppu_addr_reg_flg;
    }

    fn read_ppu_data_reg(&mut self) -> (r: u8)
        ensures
            (r, final(self)@) == ppu_data_read(old(self)@),
            final(self)@.wf(),
    {
        let tmp: u8 = self.ppu_read_buffer;
        let addr: u32 = self.ppu_addr & 0x3fff;
        proof {
            lemma_u32_vram_page(self.ppu_addr);
            lemma_rows_view(&self.vram);
            assert(self.vram@.len() == 16);
            assert(self@.vram[(addr >> 10) as int].len() >= 0x400);
            assert(self.vram@[(addr >> 10) as int]@ == self@.vram[(addr >> 10) as int]);
        }
        let rb_page: &Vec<u8> = &self.vram[(addr >> 10) as usize];
        self.ppu_read_buffer = rb_page[(addr & 0x3ff) as usize];
        let val: u32 = if (self.regs[0] & 0x04) == 0x04 {
            32
        } else {
            1
        };
        proof {
            lemma_u32_and_le((self.ppu_addr + val) as u32, 0xffff);
        }
        self.ppu_addr = (self.ppu_addr + val) & 0xffff;
        tmp
    }

    fn write_ppu_data_reg(&mut self, value: u8)
        ensures
            final(self)@ == ppu_data_write(old(self)@, value),
            final(self)@.wf(),
    {
        self.regs[7] = value;
        let tmp_addr: u32 = self.ppu_addr & 0x3fff;
        proof {
            lemma_u32_vram_page(self.ppu_addr);
            lemma_rows_view(&self.vram);
            lemma_u8_and_le(value, 0x3f);
        }
        let page: &mut Vec<u8> = &mut self.vram[(tmp_addr >> 10) as usize];
        page[(tmp_addr & 0x3ff) as usize] = value;
        proof {
            lemma_rows_view(&self.vram);
            assert(self@.vram =~~= old(self)@.vram.update(
                (tmp_addr >> 10) as int,
                old(self)@.vram[(tmp_addr >> 10) as int].update((tmp_addr & 0x3ff) as int, value),
            ));
        }
        let val: u32 = if (self.regs[0] & 0x04) == 0x04 {
            32
        } else {
            1
        };

        if tmp_addr < 0x3000 {
            proof {
                lemma_u32_and_le((self.ppu_addr + val) as u32, 0xffff);
            }
            self.ppu_addr = (self.ppu_addr + val) & 0xffff;
            return ;
        }
        if tmp_addr < 0x3eff {
            let a2: u32 = tmp_addr - 0x1000;
            proof {
                lemma_u32_vram_page(a2);
                assert(a2 & 0x3fff == a2) by (bit_vector)
                    requires
                        a2 < 0x3000,
                ;
                lemma_rows_view(&self.vram);
            }
            let ghost mid = self@.vram;
            let page2: &mut Vec<u8> = &mut self.vram[(a2 >> 10) as usize];
            page2[(a2 & 0x3ff) as usize] = value;
            proof {
                lemma_rows_view(&self.vram);
                assert(self@.vram =~~= mid.update(
                    (a2 >> 10) as int,
                    mid[(a2 >> 10) as int].update((a2 & 0x3ff) as int, value),
                ));
                lemma_u32_and_le((self.ppu_addr + val) as u32, 0xffff);
            }
            self.ppu_addr = (self.ppu_addr + val) & 0xffff;
            return ;
        }
        let pal_no: u32 = tmp_addr & 0x001f;
        proof {
            lemma_u32_and_le(tmp_addr, 0x001f);
        }
        if pal_no == 0x00 || pal_no == 0x10 {
            self.palette[0x10] = value & 0x3f;
            let v: u8 = self.palette[0x10];
            self.palette[0x00] = v;
        } else {
            self.palette[pal_no as usize] = value & 0x3f;
        }
        proof {
            lemma_u32_and_le((self.ppu_addr + val) as u32, 0xffff);
        }
        self.ppu_addr = (self.ppu_addr + val) & 0xffff;
    }

    fn write_sprite_data(&mut self, value: u8)
        ensures
            final(self)@ == ppu_sprite_data_write(old(self)@, value),
            final(self)@.wf(),
    {
        let idx: u8 = self.regs[3];
        self.sprite_ram[idx as usize] = value;
        self.regs[3] = ((self.regs[3] as u16 + 1) & 0xff) as u8;
        proof {
            lemma_u16_and_le((old(self)@.regs[3] as u16 + 1) as u16, 0xff);
        }
    }

    fn write_sprite_addr_reg(&mut self, value: u8)
        ensures
            final(self)@ == ppu_sprite_addr_write(old(self)@, value),
            final(self)@.wf(),
    {
        self.regs[3] = value;
    }
}

/// What a VRAM page read returns: the stored byte, or zero past the end
/// of a short page (pattern indexing is total; see the bus contract).
pub open spec fn vram_read_spec(p: PpuModel, page: int, idx: int) -> u8 {
    if 0 <= idx < p.vram[page].len() {
        p.vram[page][idx]
    } else {
        0u8
    }
}

impl Ppu {
    /// Reads one byte of a VRAM page, total in the index.
    fn vram_byte(&self, page: usize, idx: usize) -> (r: u8)
        requires
            self@.wf(),
            page < 16,
        ensures
            r == vram_read_spec(self@, page as int, idx as int),
    {
        proof {
            lemma_rows_view(&self.vram);
        }
        let pg: &Vec<u8> = &self.vram[page];
        if idx < pg.len() {
            pg[idx]
        } else {
            0
        }
    }

    /// Writes one RGB triple at the frame-buffer cursor.
    fn set_img_data(&mut self, plt: (u8, u8, u8))
        requires
            old(self)@.wf(),
            old(self)@.imgidx + 3 <= old(self)@.imgdata.len(),
        ensures
            final(self)@ == (PpuModel {
                imgdata: old(self)@.imgdata.update(old(self)@.imgidx as int, plt.0).update(
                    old(self)@.imgidx + 1,
                    plt.1,
                ).update(old(self)@.imgidx + 2, plt.2),
                imgidx: (old(self)@.imgidx + 3) as usize,
                ..old(self)@
            }),
            final(self)@.wf(),
    {
        self.imgdata[self.imgidx] = plt.0;
        self.imgdata[self.imgidx + 1] = plt.1;
        self.imgdata[self.imgidx + 2] = plt.2;
        self.imgidx += 3;
    }

    /// Reads the OAM byte under the cursor without moving it.
    pub fn read_sprite_data(&self) -> (r: u8)
        requires
            self@.wf(),
        ensures
            r == ppu_sprite_data_read(self@),
    {
        self.sprite_ram[self.regs[3] as usize]
    }

    pub fn clear_img(&mut self)
        requires
            old(self)@.wf(),
        ensures
            final(self)@ == (PpuModel { imgidx: 0, imgok: false, ..old(self)@ }),
            final(self)@.wf(),
    {
        self.imgidx = 0;
        self.imgok = false;
    }

    pub fn get_img_status(&self) -> (r: (bool, &Vec<u8>))
        ensures
            r.0 == self@.imgok,
            r.1@ == self@.imgdata,
    {
        (self.imgok, &self.imgdata)
    }

    fn is_screen_enable(&self) -> (r: bool)
        requires
            self@.wf(),
        ensures
            r == (self@.regs[1] & 0x08 == 0x08),
    {
        (self.regs[1] & 0x08) == 0x08
    }

    fn is_sprite_enable(&self) -> (r: bool)
        requires
            self@.wf(),
        ensures
            r == (self@.regs[1] & 0x10 == 0x10),
    {
        (self.regs[1] & 0x10) == 0x10
    }

    fn is_bigsize(&self) -> (r: usize)
        requires
            self@.wf(),
        ensures
            r == if self@.regs[0] & 0x20 == 0x20 {
                16int
            } else {
                8int
            },
    {
        if (self.regs[0] & 0x20) == 0x20 {
            16
        } else {
            8
        }
    }

    /// Enters vertical blank: sets the vblank status bit, resets the
    /// scroll toggle, and raises NMI when the control register asks for it.
    fn in_vblank(&mut self, irq: &mut Irq)
        requires
            old(self)@.wf(),
        ensures
            final(self)@ == (PpuModel {
                scroll_reg_flg: false,
                regs: old(self)@.regs.update(2, (old(self)@.regs[2] & 0x1f) | 0x80),
                ..old(self)@
            }),
            final(self)@.wf(),
            final(irq)@ == (IrqModel {
                nmi: old(irq)@.nmi || old(self)@.regs[0] & 0x80 == 0x80,
                irq: old(irq)@.irq,
            }),
    {
        self.scroll_reg_flg = false;
        self.regs[2] = (self.regs[2] & 0x1f) | 0x80;
        if (self.regs[0] & 0x80) == 0x80 {
            irq.set_nmi(true);
        }
    }

    /// Completes a frame: wraps the scanline counter, reloads the render
    /// address from the buffer when rendering is on, clears the vblank bit
    /// and publishes the frame buffer.
    fn post_render(&mut self)
        requires
            old(self)@.wf(),
        ensures
            final(self)@ == (PpuModel {
                line: 0,
                ppu_addr: if old(self)@.regs[1] & 0x08 == 0x08 || old(self)@.regs[1] & 0x10 == 0x10 {
                    old(self)@.ppu_addr_buffer
                } else {
                    old(self)@.ppu_addr
                },
                regs: old(self)@.regs.update(2, old(self)@.regs[2] & 0x7f),
                imgok: true,
                ..old(self)@
            }),
            final(self)@.wf(),
    {
        self.line = 0;
        if self.is_screen_enable() || self.is_sprite_enable() {
            self.ppu_addr = self.ppu_addr_buffer;
        }
        self.regs[2] = self.regs[2] & 0x7f;
        self.imgok = true;
    }

    /// Assembles one scanline of background pixels into the line buffer
    /// from the nametable and pattern pages under the render address.
    fn build_bg_line(&mut self)
        requires
            old(self)@.wf(),
        ensures
            final(self)@ == (PpuModel {
                bg_line_buffer: final(self)@.bg_line_buffer,
                ..old(self)@
            }),
            final(self)@.wf(),
    {
        let nameaddr: u32 = 0x2000 | (self.ppu_addr & 0x0fff);
        let tableaddr: u32 = ((self.ppu_addr & 0x7000) >> 12) | (((self.regs[0] & 0x10) as u32)
            << 8);
        proof {
            lemma_u32_and_le(self.ppu_addr, 0x0fff);
            lemma_u32_and_le(self.ppu_addr, 0x7000);
            lemma_u32_shr_le(self.ppu_addr & 0x7000, 12);
            lemma_u8_and_le(self.regs[0], 0x10);
            lemma_u32_shl_bounds((self.regs[0] & 0x10) as u32);
            lemma_u32_or_le_sum((self.ppu_addr & 0x7000) >> 12, ((self.regs[0] & 0x10) as u32)
                << 8);
            let pa = self.ppu_addr;
            assert(((pa & 0x7000) >> 12) <= 7) by (bit_vector);
            assert(((0x2000u32 | (pa & 0x0fff)) >> 10) < 16 && ((0x2000u32 | (pa & 0x0fff))
                & 0x03ff) < 0x400) by (bit_vector);
        }
        let mut name_addr_h: u32 = nameaddr >> 10;
        let mut name_addr_l: u32 = nameaddr & 0x03ff;
        let mut pre_name_addrh: u32 = name_addr_h;
        let mut s: usize = self.h_scroll_val;
        let mut q: usize = 0;
        let mut p: usize = 0;
        while p < 33
            invariant
                self@.wf(),
                p <= 33,
                q <= 8 * p,
                name_addr_l < 0x400,
                name_addr_h < 16,
                pre_name_addrh < 16,
                tableaddr <= 0x1007,
                s <= 7,
                self@ == (PpuModel { bg_line_buffer: self@.bg_line_buffer, ..old(self)@ }),
            decreases 33 - p,
        {
            let vram_page: usize = pre_name_addrh as usize;
            let tile: u8 = self.vram_byte(vram_page, name_addr_l as usize);
            let mut ptndist: u32 = ((tile as u32) << 4) | tableaddr;
            proof {
                lemma_u32_shl_bounds(tile as u32);
                lemma_u32_or_le_sum((tile as u32) << 4, tableaddr);
                let d = ptndist;
                assert(d <= 0x1fff ==> (d >> 10) < 8) by (bit_vector);
            }
            let pattern_page: usize = (ptndist >> 10) as usize;
            proof {
                lemma_u32_and_le(ptndist, 0x03ff);
            }
            ptndist = ptndist & 0x03ff;

            proof {
                let y = name_addr_l;
                assert((y & 0x0380) >> 4 <= 0x38 && ((y & 0x001c) >> 2) <= 7 && (y & 0x0040) >> 4
                    <= 4 && (y & 0x0002) <= 2) by (bit_vector);
            }
            let lval: u32 = (name_addr_l & 0x0380) >> 4;
            let rval: u32 = ((name_addr_l & 0x001c) >> 2) + 0x03c0;
            let lval2: u32 = (name_addr_l & 0x0040) >> 4;
            let rval2: u32 = name_addr_l & 0x0002;
            proof {
                lemma_u32_or_le_sum(lval, rval);
            }
            let attr_byte: u8 = self.vram_byte(vram_page, (lval | rval) as usize);
            proof {
                let a = lval2;
                let b = rval2;
                assert(a <= 4 && b <= 2 ==> (a | b) <= 6) by (bit_vector);
            }
            let attr: u32 = (((attr_byte as u32) << 2) >> ((lval2 | rval2) as u32)) & 0x0c;
            proof {
                lemma_u32_and_le(((attr_byte as u32) << 2) >> ((lval2 | rval2) as u32), 0x0c);
            }
            let spbidx1: u8 = self.vram_byte(pattern_page, ptndist as usize);
            let spbidx2: u8 = self.vram_byte(pattern_page, (ptndist + 8) as usize);

            while s < 8
                invariant
                    self@.wf(),
                    p < 33,
                    s <= 8,
                    q <= 8 * p + s,
                    attr <= 0x0c,
                    self@ == (PpuModel { bg_line_buffer: self@.bg_line_buffer, ..old(self)@ }),
                decreases 8 - s,
            {
                proof {
                    lemma_cube_view(&self.spbit_pattern);
                }
                let plane: &Vec<Vec<u8>> = &self.spbit_pattern[spbidx1 as usize];
                proof {
                    lemma_rows_view(plane);
                    assert(plane@[spbidx2 as int]@ == self@.spbit_pattern[spbidx1 as int][spbidx2 as int]);
                }
                let row: &Vec<u8> = &plane[spbidx2 as usize];
                let tptn: u8 = row[s];
                let idx: u8 = tptn | (attr as u8);
                proof {
                    lemma_u8_or_le_sum(tptn, attr as u8);
                    lemma_pallete_bound();
                }
                if q < 264 {
                    self.bg_line_buffer[q] = PALLETE[idx as usize];
                }
                q += 1;
                s += 1;
                proof {
                    assert(self@ == (PpuModel {
                        bg_line_buffer: self@.bg_line_buffer,
                        ..old(self)@
                    }));
                }
            }
            s = 0;

            if (name_addr_l & 0x001f) == 0x001f {
                proof {
                    let y = name_addr_l;
                    let h = name_addr_h;
                    assert(y < 0x400 ==> (y & 0xffe0) < 0x400) by (bit_vector);
                    assert(h < 16 ==> (h ^ 0x01) < 16) by (bit_vector);
                }
                name_addr_l = name_addr_l & 0xffe0;
                name_addr_h = name_addr_h ^ 0x01;
                pre_name_addrh = name_addr_h;
            } else {
                proof {
                    let y = name_addr_l;
                    assert(y < 0x400 && (y & 0x001f) != 0x001f ==> y + 1 < 0x400) by (bit_vector);
                }
                name_addr_l = name_addr_l + 1;
            }
            p += 1;
        }
    }

    /// Fills the background line buffer for one scanline, or blanks it
    /// when background rendering is off or the left column is masked.
    fn build_bg(&mut self)
        requires
            old(self)@.wf(),
        ensures
            final(self)@ == (PpuModel {
                bg_line_buffer: final(self)@.bg_line_buffer,
                ..old(self)@
            }),
            final(self)@.wf(),
    {
        if (self.regs[1] & 0x08) != 0x08 {
            let mut p: usize = 0;
            while p < 264
                invariant
                    self@.wf(),
                    p <= 264,
                    self@ == (PpuModel { bg_line_buffer: self@.bg_line_buffer, ..old(self)@ }),
                decreases 264 - p,
            {
                self.bg_line_buffer[p] = 0x10;
                p += 1;
            }
            return ;
        }
        self.build_bg_line();
        if (self.regs[1] & 0x02) != 0x02 {
            let mut x: usize = 0;
            while x < 8
                invariant
                    self@.wf(),
                    x <= 8,
                    self@ == (PpuModel { bg_line_buffer: self@.bg_line_buffer, ..old(self)@ }),
                decreases 8 - x,
            {
                self.bg_line_buffer[x] = 0x10;
                x += 1;
            }
        }
    }
}

impl Ppu {
    /// Evaluates up to eight sprites against the current scanline,
    /// recording which sprite owns each dot and compositing opaque sprite
    /// pixels over the background per the priority bit. With the sprite
    /// layer disabled it does nothing.
    fn build_sp_line(&mut self)
        requires
            old(self)@.wf(),
        ensures
            final(self)@ == (PpuModel {
                bg_line_buffer: final(self)@.bg_line_buffer,
                sp_line_buffer: final(self)@.sp_line_buffer,
                sprite_zero: final(self)@.sprite_zero,
                regs: final(self)@.regs,
                ..old(self)@
            }),
            final(self)@.regs == old(self)@.regs || final(self)@.regs == old(self)@.regs.update(
                2,
                old(self)@.regs[2] | 0x20,
            ) || final(self)@.regs == old(self)@.regs.update(2, old(self)@.regs[2] & 0xdf),
            old(self)@.regs[1] & 0x10 != 0x10 ==> final(self)@ == old(self)@,
            final(self)@.wf(),
    {
        let spclip: usize = if (self.regs[1] & 0x04) == 0x04 {
            0
        } else {
            8
        };
        if (self.regs[1] & 0x10) == 0x10 {
            let mut p: usize = 0;
            while p < 264
                invariant
                    self@.wf(),
                    p <= 264,
                    self@ == (PpuModel { sp_line_buffer: self@.sp_line_buffer, ..old(self)@ }),
                decreases 264 - p,
            {
                self.sp_line_buffer[p] = 256;
                p += 1;
            }

            let spptableaddr: u32 = ((self.regs[0] & 0x08) as u32) << 9;
            proof {
                lemma_u8_and_le(self.regs[0], 0x08);
                lemma_u32_shl_bounds((self.regs[0] & 0x08) as u32);
            }
            let mut count: usize = 0;
            let bzsize: usize = self.is_bigsize();

            let mut i: usize = 0;
            while i <= 252
                invariant_except_break
                    count <= 8,
                invariant
                    self@.wf(),
                    i <= 256,
                    spptableaddr <= 0x1000,
                    bzsize == 8 || bzsize == 16,
                    self@ == (PpuModel {
                        bg_line_buffer: self@.bg_line_buffer,
                        sp_line_buffer: self@.sp_line_buffer,
                        sprite_zero: self@.sprite_zero,
                        ..old(self)@
                    }),
                ensures
                    self@.wf(),
                    self@ == (PpuModel {
                        bg_line_buffer: self@.bg_line_buffer,
                        sp_line_buffer: self@.sp_line_buffer,
                        sprite_zero: self@.sprite_zero,
                        ..old(self)@
                    }),
                decreases 256 - i,
            {
                let isy: usize = self.sprite_ram[i] as usize + 1;
                if !(isy > self.line || isy + bzsize <= self.line) {
                    if i == 0 {
                        self.sprite_zero = true;
                    }
                    count += 1;
                    if count == 9 {
                        break ;
                    }

                    let attr: u8 = self.sprite_ram[i + 2];
                    let attribute: u8 = ((attr & 0x03) << 2) | 0x10;
                    proof {
                        lemma_u8_and_le(attr, 0x03);
                        assert(((attr & 0x03) << 2) <= 0x0c && (((attr & 0x03) << 2) | 0x10)
                            <= 0x1c) by (bit_vector);
                    }
                    let bgsp: bool = (attr & 0x20) == 0x00;

                    let mut x: usize = self.sprite_ram[i + 3] as usize;
                    let mut ex: usize = x + 8;
                    if ex > 256 {
                        ex = 256;
                    }

                    let iy: u32 = if (attr & 0x80) == 0x80 {
                        (bzsize - 1 - (self.line - isy)) as u32
                    } else {
                        (self.line - isy) as u32
                    };

                    let sid: u32 = self.sprite_ram[i + 1] as u32;
                    proof {
                        lemma_u32_shl_bounds(sid);
                        lemma_u32_and_le(sid, 0xfe);
                        lemma_u32_and_le(sid, 0x01);
                        lemma_u32_shl_bounds(sid & 0xfe);
                        lemma_u32_shl_bounds(sid & 0x01);
                        lemma_u32_and_le(iy, 0x08);
                        lemma_u32_and_le(iy, 0x07);
                        lemma_u32_shl_bounds(iy & 0x08);
                    }
                    let lval: u32 = (sid << 4) + spptableaddr;
                    let rval: u32 = ((sid & 0xfe) << 4) + ((sid & 0x01) << 12);
                    let sval: u32 = if bzsize == 8 {
                        lval
                    } else {
                        rval
                    };
                    let tilenum: u32 = ((iy & 0x08) << 1) + (iy & 0x07) + sval;
                    let tlow: u32 = tilenum & 0x03ff;
                    proof {
                        let t = tilenum;
                        assert(t <= 0x2007 ==> (t >> 10) < 16) by (bit_vector);
                        lemma_u32_and_le(tilenum, 0x03ff);
                    }

                    let flip: bool = (attr & 0x40) != 0x00;

                    let ptnidxl: u8 = self.vram_byte((tilenum >> 10) as usize, tlow as usize);
                    let ptnidxr: u8 = self.vram_byte(
                        (tilenum >> 10) as usize,
                        (tlow + 8) as usize,
                    );

                    let mut step: usize = 0;
                    while x < ex
                        invariant
                            self@.wf(),
                            i <= 252,
                            ex <= 256,
                            step + (ex - x) <= 8,
                            attribute <= 0x1c,
                            self@ == (PpuModel {
                                bg_line_buffer: self@.bg_line_buffer,
                                sp_line_buffer: self@.sp_line_buffer,
                                sprite_zero: self@.sprite_zero,
                                ..old(self)@
                            }),
                        decreases ex - x,
                    {
                        let is: usize = if flip {
                            7 - step
                        } else {
                            step
                        };
                        proof {
                            lemma_cube_view(&self.spbit_pattern);
                        }
                        let plane: &Vec<Vec<u8>> = &self.spbit_pattern[ptnidxl as usize];
                        proof {
                            lemma_rows_view(plane);
                            assert(plane.deep_view() == self@.spbit_pattern[ptnidxl as int]);
                            assert(plane@.len() == 256);
                            assert(plane@[ptnidxr as int]@ == self@.spbit_pattern[ptnidxl as int][ptnidxr as int]);
                        }
                        let row: &Vec<u8> = &plane[ptnidxr as usize];
                        let tptn: u8 = row[is];
                        if tptn != 0x00 && self.sp_line_buffer[x] == 256 {
                            self.sp_line_buffer[x] = i as u16;
                            if x >= spclip && (bgsp || self.bg_line_buffer[x] == 0x10) {
                                proof {
                                    lemma_u8_or_le_sum(tptn, attribute);
                                }
                                self.bg_line_buffer[x] = tptn | attribute;
                            }
                        }
                        x += 1;
                        step += 1;
                    }
                }
                i += 4;
            }

            if 8 <= count {
                proof {
                    lemma_u8_bit5_keeps_high(self@.regs[2]);
                }
                self.regs[2] = self.regs[2] | 0x20;
            } else {
                proof {
                    lemma_u8_bit5_keeps_high(self@.regs[2]);
                }
                self.regs[2] = self.regs[2] & 0xdf;
            }
        }
    }

    /// Renders one visible scanline: restores the horizontal scroll bits,
    /// assembles background and sprite pixels into the frame buffer, and
    /// steps the render address to the next row. With rendering switched
    /// off it paints the backdrop colour instead.
    fn render_frame(&mut self)
        requires
            old(self)@.wf(),
            1 <= old(self)@.line < 240,
        ensures
            old(self)@.regs[1] & 0x18 != 0 ==> final(self)@.ppu_addr == y_step_spec(
                (old(self)@.ppu_addr & 0xfbe0) | (old(self)@.ppu_addr_buffer & 0x041f),
            ),
            final(self)@ == (PpuModel {
                regs: final(self)@.regs,
                imgdata: final(self)@.imgdata,
                imgidx: final(self)@.imgidx,
                bg_line_buffer: final(self)@.bg_line_buffer,
                sp_line_buffer: final(self)@.sp_line_buffer,
                sprite_zero: final(self)@.sprite_zero,
                ppu_addr: final(self)@.ppu_addr,
                ..old(self)@
            }),
            final(self)@.regs == old(self)@.regs || final(self)@.regs == old(self)@.regs.update(
                2,
                old(self)@.regs[2] | 0x20,
            ) || final(self)@.regs == old(self)@.regs.update(2, old(self)@.regs[2] & 0xdf),
            old(self)@.regs[1] & 0x18 == 0 ==> final(self)@ == (PpuModel {
                imgdata: if 8 <= old(self)@.line < 232 && old(self)@.imgidx + 768 <= old(
                    self,
                )@.imgdata.len() {
                    fill_backdrop(
                        old(self)@.imgdata,
                        old(self)@.imgidx as int,
                        PALLETE_TABLE[old(self)@.palette[0x10] as int],
                    )
                } else {
                    old(self)@.imgdata
                },
                imgidx: if 8 <= old(self)@.line < 232 && old(self)@.imgidx + 768 <= old(
                    self,
                )@.imgdata.len() {
                    (old(self)@.imgidx + 768) as usize
                } else {
                    old(self)@.imgidx
                },
                ..old(self)@
            }),
            final(self)@.wf(),
    {
        proof {
            lemma_u8_render_disabled(self@.regs[1]);
        }
        if self.is_screen_enable() || self.is_sprite_enable() {
            proof {
                lemma_u32_and_le(self.ppu_addr, 0xfbe0);
                lemma_u32_and_le(self.ppu_addr_buffer, 0x041f);
                lemma_u32_or_le_sum(self.ppu_addr & 0xfbe0, self.ppu_addr_buffer & 0x041f);
            }
            self.ppu_addr = (self.ppu_addr & 0xfbe0) | (self.ppu_addr_buffer & 0x041f);

            if 8 <= self.line && self.line < 232 {
                self.build_bg();
                self.build_sp_line();
                if self.imgidx + 768 <= self.imgdata.len() {
                    let ghost start = self@.imgidx;
                    let mut p: usize = 0;
                    while p < 256
                        invariant
                            self@.wf(),
                            p <= 256,
                            self@.ppu_addr == (old(self)@.ppu_addr & 0xfbe0) | (old(
                                self,
                            )@.ppu_addr_buffer & 0x041f),
                            self@.imgidx == start + 3 * p,
                            self@.imgidx + 3 * (256 - p) <= self@.imgdata.len(),
                            self@ == (PpuModel {
                                imgdata: self@.imgdata,
                                imgidx: self@.imgidx,
                                regs: self@.regs,
                                bg_line_buffer: self@.bg_line_buffer,
                                sp_line_buffer: self@.sp_line_buffer,
                                sprite_zero: self@.sprite_zero,
                                ppu_addr: self@.ppu_addr,
                                ..old(self)@
                            }),
                            self@.regs == old(self)@.regs || self@.regs == old(
                                self,
                            )@.regs.update(2, old(self)@.regs[2] | 0x20) || self@.regs == old(
                                self,
                            )@.regs.update(2, old(self)@.regs[2] & 0xdf),
                        decreases 256 - p,
                    {
                        let bg_v: u8 = self.bg_line_buffer[p];
                        let idx: u8 = self.palette[bg_v as usize];
                        let pal: (u8, u8, u8) = PALLETE_TABLE[idx as usize];
                        self.set_img_data(pal);
                        p += 1;
                    }
                }
            } else {
                let mut p: usize = 0;
                while p < 264
                    invariant
                        self@.wf(),
                        p <= 264,
                        self@.ppu_addr == (old(self)@.ppu_addr & 0xfbe0) | (old(
                            self,
                        )@.ppu_addr_buffer & 0x041f),
                        self@ == (PpuModel {
                            bg_line_buffer: self@.bg_line_buffer,
                            ppu_addr: self@.ppu_addr,
                            ..old(self)@
                        }),
                    decreases 264 - p,
                {
                    self.bg_line_buffer[p] = 0x10;
                    p += 1;
                }
                self.build_sp_line();
            }

            if (self.ppu_addr & 0x7000) == 0x7000 {
                proof {
                    lemma_u32_and_le(self.ppu_addr, 0x8fff);
                }
                self.ppu_addr = self.ppu_addr & 0x8fff;

                if (self.ppu_addr & 0x03e0) == 0x03a0 {
                    proof {
                        lemma_u32_and_le(self.ppu_addr ^ 0x0800, 0xfc1f);
                    }
                    self.ppu_addr = (self.ppu_addr ^ 0x0800) & 0xfc1f;
                } else if (self.ppu_addr & 0x03e0) == 0x03e0 {
                    proof {
                        lemma_u32_and_le(self.ppu_addr, 0xfc1f);
                    }
                    self.ppu_addr = self.ppu_addr & 0xfc1f;
                } else {
                    self.ppu_addr = self.ppu_addr + 0x0020;
                }
            } else {
                proof {
                    lemma_u32_fine_y_step(self.ppu_addr);
                }
                self.ppu_addr = self.ppu_addr + 0x1000;
            }
        } else if 8 <= self.line && self.line < 232 {
            let idx: u8 = self.palette[0x10];
            let pal: (u8, u8, u8) = PALLETE_TABLE[idx as usize];
            if self.imgidx + 768 <= self.imgdata.len() {
                let ghost start = self@.imgidx;
                let mut p: usize = 0;
                while p < 256
                    invariant
                        self@.wf(),
                        p <= 256,
                        pal == PALLETE_TABLE[old(self)@.palette[0x10] as int],
                        self@.imgidx == start + 3 * p,
                        start == old(self)@.imgidx,
                        start + 768 <= self@.imgdata.len(),
                        self@.imgdata == Seq::new(
                            old(self)@.imgdata.len(),
                            |n: int|
                                if start <= n < start + 3 * p {
                                    if (n - start) % 3 == 0 {
                                        pal.0
                                    } else if (n - start) % 3 == 1 {
                                        pal.1
                                    } else {
                                        pal.2
                                    }
                                } else {
                                    old(self)@.imgdata[n]
                                },
                        ),
                        self@ == (PpuModel {
                            imgdata: self@.imgdata,
                            imgidx: self@.imgidx,
                            ..old(self)@
                        }),
                    decreases 256 - p,
                {
                    self.set_img_data(pal);
                    proof {
                        lemma_rgb_offsets(p as int);
                        assert(self@.imgdata =~= Seq::new(
                            old(self)@.imgdata.len(),
                            |n: int|
                                if start <= n < start + 3 * (p + 1) {
                                    if (n - start) % 3 == 0 {
                                        pal.0
                                    } else if (n - start) % 3 == 1 {
                                        pal.1
                                    } else {
                                        pal.2
                                    }
                                } else {
                                    old(self)@.imgdata[n]
                                },
                        ));
                    }
                    p += 1;
                }
                proof {
                    assert(self@.imgdata =~= fill_backdrop(
                        old(self)@.imgdata,
                        start as int,
                        pal,
                    ));
                }
            }
        }
    }
}

impl Ppu {
    /// Advances the scanline machine by `cpuclock` processor cycles'
    /// worth of dots. Timing, the NMI line, vertical-blank status and
    /// frame completion are stated exactly; while rendering is switched
    /// off the whole transition is the function `quiet_lines`.
    pub fn run(&mut self, cpuclock: usize, irq: &mut Irq)
        requires
            old(self)@.wf(),
            old(self)@.ppux <= 341,
            old(self)@.line <= 261,
            cpuclock <= 0x10000000,
        ensures
            final(self)@.wf(),
            final(self)@.ppux <= 340,
            final(self)@.line <= 261,
            final(self)@.ppux == dots_of(old(self)@, cpuclock) % 341,
            final(self)@.line == line_after(
                old(self)@.line as int,
                crossings_of(old(self)@, cpuclock),
            ),
            final(irq)@.nmi == (old(irq)@.nmi || (old(self)@.regs[0] & 0x80 == 0x80
                && crossed_vblank(old(self)@.line as int, crossings_of(old(self)@, cpuclock)))),
            final(irq)@.irq == old(irq)@.irq,
            final(self)@.imgok == (old(self)@.imgok || crossed_frame_end(
                old(self)@.line as int,
                crossings_of(old(self)@, cpuclock),
            )),
            final(self)@.scroll_reg_flg == (old(self)@.scroll_reg_flg && !crossed_vblank(
                old(self)@.line as int,
                crossings_of(old(self)@, cpuclock),
            )),
            final(self)@ == (PpuModel {
                ppux: final(self)@.ppux,
                line: final(self)@.line,
                regs: final(self)@.regs,
                imgdata: final(self)@.imgdata,
                imgidx: final(self)@.imgidx,
                imgok: final(self)@.imgok,
                sprite_zero: final(self)@.sprite_zero,
                scroll_reg_flg: final(self)@.scroll_reg_flg,
                ppu_addr: final(self)@.ppu_addr,
                bg_line_buffer: final(self)@.bg_line_buffer,
                sp_line_buffer: final(self)@.sp_line_buffer,
                ..old(self)@
            }),
            final(self)@.regs.len() == 8,
            final(self)@.regs[0] == old(self)@.regs[0],
            final(self)@.regs[1] == old(self)@.regs[1],
            final(self)@.regs[3] == old(self)@.regs[3],
            final(self)@.regs[4] == old(self)@.regs[4],
            final(self)@.regs[5] == old(self)@.regs[5],
            final(self)@.regs[6] == old(self)@.regs[6],
            final(self)@.regs[7] == old(self)@.regs[7],
            final(self)@.regs[2] & 0x80 == (if crossed_vblank(
                old(self)@.line as int,
                crossings_of(old(self)@, cpuclock),
            ) && line_after(old(self)@.line as int, crossings_of(old(self)@, cpuclock)) >= 240 {
                0x80u8
            } else if crossed_frame_end(
                old(self)@.line as int,
                crossings_of(old(self)@, cpuclock),
            ) && line_after(old(self)@.line as int, crossings_of(old(self)@, cpuclock)) < 240 {
                0u8
            } else {
                (old(self)@.regs[2] & 0x80) as u8
            }),
            quiescent(old(self)@) ==> final(self)@ == (PpuModel {
                ppux: final(self)@.ppux,
                ..quiet_lines(old(self)@, old(irq)@, crossings_of(old(self)@, cpuclock)).0
            }) && final(irq)@ == quiet_lines(
                old(self)@,
                old(irq)@,
                crossings_of(old(self)@, cpuclock),
            ).1,
    {
        let ghost p0 = old(self)@;
        let ghost q0 = old(irq)@;
        let ghost l0 = old(self)@.line as int;
        let ghost dots = dots_of(old(self)@, cpuclock);
        let mut tmpx: usize = self.ppux;
        self.ppux = self.ppux + cpuclock * 3;
        let ghost mut k: nat = 0nat;
        while 341 <= self.ppux
            invariant
                self@.wf(),
                0 <= l0 <= 261,
                341 * k + self@.ppux == dots,
                self@.line == line_after(l0, k),
                self@.line <= 261,
                irq@.nmi == (q0.nmi || (p0.regs[0] & 0x80 == 0x80 && crossed_vblank(l0, k))),
                irq@.irq == q0.irq,
                self@.imgok == (p0.imgok || crossed_frame_end(l0, k)),
                self@.scroll_reg_flg == (p0.scroll_reg_flg && !crossed_vblank(l0, k)),
                self@ == (PpuModel {
                    ppux: self@.ppux,
                    line: self@.line,
                    regs: self@.regs,
                    imgdata: self@.imgdata,
                    imgidx: self@.imgidx,
                    imgok: self@.imgok,
                    sprite_zero: self@.sprite_zero,
                    scroll_reg_flg: self@.scroll_reg_flg,
                    ppu_addr: self@.ppu_addr,
                    bg_line_buffer: self@.bg_line_buffer,
                    sp_line_buffer: self@.sp_line_buffer,
                    ..p0
                }),
                self@.regs.len() == 8,
                self@.regs[0] == p0.regs[0],
                self@.regs[1] == p0.regs[1],
                self@.regs[3] == p0.regs[3],
                self@.regs[4] == p0.regs[4],
                self@.regs[5] == p0.regs[5],
                self@.regs[6] == p0.regs[6],
                self@.regs[7] == p0.regs[7],
                self@.regs[2] & 0x80 == (if crossed_vblank(l0, k) && line_after(l0, k) >= 240 {
                    0x80u8
                } else if crossed_frame_end(l0, k) && line_after(l0, k) < 240 {
                    0u8
                } else {
                    (p0.regs[2] & 0x80) as u8
                }),
                quiescent(p0) ==> (PpuModel { ppux: p0.ppux, ..self@ }) == quiet_lines(
                    p0,
                    q0,
                    k,
                ).0 && irq@ == quiet_lines(p0, q0, k).1,
            decreases self@.ppux,
        {
            self.ppux = self.ppux - 341;
            self.line = self.line + 1;
            tmpx = 0;
            self.sprite_zero = false;
            let ghost pre = self@;
            let ghost qpre = irq@;

            if self.line < 240 {
                self.render_frame();
            } else if self.line == 240 {
                self.in_vblank(irq);
            } else if self.line == 262 {
                self.post_render();
            }

            proof {
                k = k + 1nat;
                assert(line_after(l0, k) == line_step(line_after(l0, (k - 1) as nat)));
                lemma_line_after_bounds(l0, k);
                lemma_u8_bit5_keeps_high(pre.regs[2]);
                lemma_u8_status_bits(pre.regs[2]);
                lemma_u8_render_disabled(p0.regs[1]);
                if quiescent(p0) {
                    assert(quiet_lines(p0, q0, k) == quiet_line_step(
                        quiet_lines(p0, q0, (k - 1) as nat).0,
                        quiet_lines(p0, q0, (k - 1) as nat).1,
                    ));
                    assert((PpuModel { ppux: p0.ppux, ..self@ }) == quiet_lines(p0, q0, k).0);
                }
            }
        }
        proof {
            assert(k == dots / 341 && self@.ppux == dots % 341) by (nonlinear_arith)
                requires
                    341 * k + self@.ppux == dots,
                    0 <= self@.ppux < 341,
                    k >= 0,
            ;
        }

        let ghost mid = self@;
        if self.sprite_zero && (self.regs[2] & 0x40) != 0x40 {
            let hit_end: usize = if self.ppux > 255 {
                255
            } else {
                self.ppux
            };
            while tmpx <= hit_end
                invariant_except_break
                    self@.regs == mid.regs,
                invariant
                    self@.wf(),
                    hit_end <= 255,
                    self@ == (PpuModel { regs: self@.regs, ..mid }),
                ensures
                    self@.wf(),
                    self@ == (PpuModel { regs: self@.regs, ..mid }),
                    self@.regs == mid.regs || self@.regs == mid.regs.update(
                        2,
                        mid.regs[2] | 0x40,
                    ),
                decreases hit_end + 1 - tmpx,
            {
                if self.sp_line_buffer[tmpx] == 0 {
                    self.regs[2] = self.regs[2] | 0x40;
                    break ;
                }
                tmpx += 1;
            }
        }
        proof {
            lemma_u8_bit6_keeps_high(mid.regs[2]);
        }
    }
}

/// Which of the four logical nametable pages alias which physical bank,
/// by mirroring mode.
pub open spec fn mirror_layout(m: Mirroring) -> (int, int, int, int) {
    match m {
        Mirroring::VERTICAL => (0int, 1int, 0int, 1int),
        Mirroring::HORIZONTAL => (0int, 0int, 1int, 1int),
        Mirroring::FOUR_SCREEN => (0int, 1int, 2int, 3int),
    }
}

impl Ppu {
    /// Points one 1 KB VRAM page either at an internal nametable bank
    /// (`rom_page >= 0x100`) or at a slice of the cartridge's pattern
    /// banks, recording the assignment in the cartridge state.
    fn set_chr_rom_data1k(&mut self, page: isize, rom_page: isize, rom: &mut Rom)
        requires
            old(self)@.wf(),
            old(rom)@.wf(),
            0 <= page < 16,
            0 <= rom_page < 0x200,
            rom_page >= 0x100 ==> 8 <= page && rom_page - 0x100 < 16,
            rom_page < 0x100 ==> old(rom)@.chr_rom_page_count <= 31,
        ensures
            final(self)@.wf(),
            final(rom)@.wf(),
            rom_page >= 0x100 ==> final(self)@ == (PpuModel {
                vram: old(self)@.vram.update(page as int, old(self)@.vrams[rom_page - 0x100]),
                ..old(self)@
            }) && final(rom)@ == (RomModel {
                chrrom_state: old(rom)@.chrrom_state.update(page as int, (rom_page - 0x100) as u8),
                ..old(rom)@
            }),
            rom_page < 0x100 && old(rom)@.chr_rom_page_count > 0 ==> final(self)@ == (PpuModel {
                vram: old(self)@.vram.update(
                    page as int,
                    old(rom)@.chrrom_pages[rom_page as int % (8 * old(
                        rom,
                    )@.chr_rom_page_count as int)],
                ),
                ..old(self)@
            }) && final(rom)@ == (RomModel {
                chrrom_state: old(rom)@.chrrom_state.update(
                    page as int,
                    (rom_page as int % (8 * old(rom)@.chr_rom_page_count as int)) as u8,
                ),
                ..old(rom)@
            }),
            rom_page < 0x100 && old(rom)@.chr_rom_page_count == 0 ==> final(self)@ == old(self)@
                && final(rom)@ == old(rom)@,
    {
        let rp: u32 = rom_page as u32;
        if rp >= 0x100 {
            proof {
                assert(0x100 <= rp < 0x200 ==> rp & 0xff == rp - 0x100) by (bit_vector);
            }
            rom.chrrom_state[page as usize] = (rp & 0xff) as u8;
            proof {
                lemma_rows_view(&self.vrams);
            }
            let v: Vec<u8> = copy_range(&self.vrams[(rp & 0xff) as usize], 0, 0x400);
            proof {
                assert(v@ =~= old(self)@.vrams[rom_page - 0x100]);
            }
            self.vram[page as usize] = v;
            proof {
                lemma_rows_view(&self.vram);
                assert(self@.vram =~~= old(self)@.vram.update(
                    page as int,
                    old(self)@.vrams[rom_page - 0x100],
                ));
            }
        } else if rom.chr_rom_page_count > 0 {
            let count8: u32 = (rom.chr_rom_page_count as u32) * 8;
            let tmp: u32 = rp % count8;
            rom.chrrom_state[page as usize] = tmp as u8;
            proof {
                lemma_rows_view(&rom.chrrom_pages);
            }
            let v: Vec<u8> = copy_range(&rom.chrrom_pages[tmp as usize], 0, 0x1000);
            proof {
                assert(v@ =~= old(rom)@.chrrom_pages[rom_page as int % (8 * old(
                    rom,
                )@.chr_rom_page_count as int)]);
            }
            self.vram[page as usize] = v;
            proof {
                lemma_rows_view(&self.vram);
                assert(self@.vram =~~= old(self)@.vram.update(
                    page as int,
                    old(rom)@.chrrom_pages[rom_page as int % (8 * old(
                        rom,
                    )@.chr_rom_page_count as int)],
                ));
            }
        }
    }

    /// Selects an 8 KB pattern bank: its eight 1 KB slices are installed
    /// into VRAM pages 0-7, each taken modulo the cartridge's slice count.
    pub fn set_chr_rom_page(&mut self, num: isize, rom: &mut Rom)
        requires
            old(self)@.wf(),
            old(rom)@.wf(),
            0 <= num <= 30,
            old(rom)@.chr_rom_page_count <= 31,
        ensures
            final(self)@.wf(),
            final(rom)@.wf(),
            old(rom)@.chr_rom_page_count > 0 ==> final(self)@ == (PpuModel {
                vram: Seq::new(
                    16nat,
                    |i: int|
                        if i < 8 {
                            old(rom)@.chrrom_pages[(8 * num + i) % (8 * old(
                                rom,
                            )@.chr_rom_page_count as int)]
                        } else {
                            old(self)@.vram[i]
                        },
                ),
                ..old(self)@
            }) && final(rom)@ == (RomModel {
                chrrom_state: Seq::new(
                    16nat,
                    |i: int|
                        if i < 8 {
                            ((8 * num + i) % (8 * old(rom)@.chr_rom_page_count as int)) as u8
                        } else {
                            old(rom)@.chrrom_state[i]
                        },
                ),
                ..old(rom)@
            }),
            old(rom)@.chr_rom_page_count == 0 ==> final(self)@ == old(self)@ && final(rom)@ == old(
                rom,
            )@,
    {
        let base: isize = num * 8;
        let mut i: isize = 0;
        proof {
            if old(rom)@.chr_rom_page_count > 0 {
                assert(self@.vram =~~= Seq::new(
                    16nat,
                    |n: int|
                        if n < i {
                            old(rom)@.chrrom_pages[(8 * num + n) % (8 * old(
                                rom,
                            )@.chr_rom_page_count as int)]
                        } else {
                            old(self)@.vram[n]
                        },
                ));
                assert(rom@.chrrom_state =~= Seq::new(
                    16nat,
                    |n: int|
                        if n < i {
                            ((8 * num + n) % (8 * old(rom)@.chr_rom_page_count as int)) as u8
                        } else {
                            old(rom)@.chrrom_state[n]
                        },
                ));
            }
        }
        while i < 8
            invariant
                0 <= i <= 8,
                0 <= num <= 30,
                base == num * 8,
                self@.wf(),
                rom@.wf(),
                rom@.chr_rom_page_count == old(rom)@.chr_rom_page_count,
                old(rom)@.chr_rom_page_count <= 31,
                old(rom)@.chr_rom_page_count > 0 ==> self@ == (PpuModel {
                    vram: Seq::new(
                        16nat,
                        |n: int|
                            if n < i {
                                old(rom)@.chrrom_pages[(8 * num + n) % (8 * old(
                                    rom,
                                )@.chr_rom_page_count as int)]
                            } else {
                                old(self)@.vram[n]
                            },
                    ),
                    ..old(self)@
                }) && rom@ == (RomModel {
                    chrrom_state: Seq::new(
                        16nat,
                        |n: int|
                            if n < i {
                                ((8 * num + n) % (8 * old(rom)@.chr_rom_page_count as int)) as u8
                            } else {
                                old(rom)@.chrrom_state[n]
                            },
                    ),
                    ..old(rom)@
                }),
                old(rom)@.chr_rom_page_count == 0 ==> self@ == old(self)@ && rom@ == old(rom)@,
            decreases 8 - i,
        {
            proof {
                if old(rom)@.chr_rom_page_count > 0 {
                    assert(self@.vram =~~= Seq::new(
                        16nat,
                        |n: int|
                            if n < i {
                                old(rom)@.chrrom_pages[(8 * num + n) % (8 * old(
                                    rom,
                                )@.chr_rom_page_count as int)]
                            } else {
                                old(self)@.vram[n]
                            },
                    ));
                }
            }
            self.set_chr_rom_data1k(i, base + i, rom);
            i += 1;
            proof {
                if old(rom)@.chr_rom_page_count > 0 {
                    assert(self@.vram =~~= Seq::new(
                        16nat,
                        |n: int|
                            if n < i {
                                old(rom)@.chrrom_pages[(8 * num + n) % (8 * old(
                                    rom,
                                )@.chr_rom_page_count as int)]
                            } else {
                                old(self)@.vram[n]
                            },
                    ));
                    assert(rom@.chrrom_state =~= Seq::new(
                        16nat,
                        |n: int|
                            if n < i {
                                ((8 * num + n) % (8 * old(rom)@.chr_rom_page_count as int)) as u8
                            } else {
                                old(rom)@.chrrom_state[n]
                            },
                    ));
                }
            }
        }
    }

    /// Installs the four logical nametable pages.
    fn init_mirrors(&mut self, value0: isize, value1: isize, value2: isize, value3: isize, rom: &mut Rom)
        requires
            old(self)@.wf(),
            old(rom)@.wf(),
            0 <= value0 <= 3,
            0 <= value1 <= 3,
            0 <= value2 <= 3,
            0 <= value3 <= 3,
        ensures
            final(self)@.wf(),
            final(rom)@.wf(),
            final(self)@ == (PpuModel {
                vram: old(self)@.vram.update(8, old(self)@.vrams[value0 + 8]).update(
                    9,
                    old(self)@.vrams[value1 + 8],
                ).update(10, old(self)@.vrams[value2 + 8]).update(
                    11,
                    old(self)@.vrams[value3 + 8],
                ),
                ..old(self)@
            }),
            final(rom)@ == (RomModel {
                chrrom_state: old(rom)@.chrrom_state.update(8, (value0 + 8) as u8).update(
                    9,
                    (value1 + 8) as u8,
                ).update(10, (value2 + 8) as u8).update(11, (value3 + 8) as u8),
                ..old(rom)@
            }),
    {
        self.set_chr_rom_data1k(8, value0 + 8 + 0x0100, rom);
        self.set_chr_rom_data1k(9, value1 + 8 + 0x0100, rom);
        self.set_chr_rom_data1k(10, value2 + 8 + 0x0100, rom);
        self.set_chr_rom_data1k(11, value3 + 8 + 0x0100, rom);
    }

    /// Assigns the nametable aliasing for a mirroring mode: horizontal
    /// when `value` is set, vertical otherwise.
    fn set_mode_mirror(&mut self, value: bool, rom: &mut Rom)
        requires
            old(self)@.wf(),
            old(rom)@.wf(),
        ensures
            final(self)@.wf(),
            final(rom)@.wf(),
            final(self)@ == (PpuModel {
                vram: if value {
                    old(self)@.vram.update(8, old(self)@.vrams[8]).update(
                        9,
                        old(self)@.vrams[8],
                    ).update(10, old(self)@.vrams[9]).update(11, old(self)@.vrams[9])
                } else {
                    old(self)@.vram.update(8, old(self)@.vrams[8]).update(
                        9,
                        old(self)@.vrams[9],
                    ).update(10, old(self)@.vrams[8]).update(11, old(self)@.vrams[9])
                },
                ..old(self)@
            }),
            final(rom)@ == (RomModel {
                chrrom_state: if value {
                    old(rom)@.chrrom_state.update(8, 8u8).update(9, 8u8).update(10, 9u8).update(
                        11,
                        9u8,
                    )
                } else {
                    old(rom)@.chrrom_state.update(8, 8u8).update(9, 9u8).update(10, 8u8).update(
                        11,
                        9u8,
                    )
                },
                ..old(rom)@
            }),
    {
        if value {
            self.init_mirrors(0, 0, 1, 1, rom);
        } else {
            self.init_mirrors(0, 1, 0, 1, rom);
        }
    }

    /// Prepares the unit for a freshly loaded cartridge: builds the
    /// pattern lookup table, clears palette RAM, sprite memory and the
    /// line buffers, and wires the nametable pages per the cartridge's
    /// mirroring mode.
    pub fn start(&mut self, rom: &mut Rom)
        requires
            old(self)@.wf(),
            old(rom)@.wf(),
        ensures
            final(self)@.wf(),
            final(rom)@.wf(),
            final(self)@ == (PpuModel {
                spbit_pattern: spbit_table(),
                palette: Seq::new(33nat, |i: int| 0x0fu8),
                sprite_ram: Seq::new(256nat, |i: int| 0u8),
                bg_line_buffer: Seq::new(264nat, |i: int| 0u8),
                sp_line_buffer: Seq::new(264nat, |i: int| 0u16),
                screen_mirroring: old(rom)@.screen_mirroring,
                vram: old(self)@.vram.update(
                    8,
                    old(self)@.vrams[mirror_layout(old(rom)@.screen_mirroring).0 + 8],
                ).update(9, old(self)@.vrams[mirror_layout(old(rom)@.screen_mirroring).1 + 8]).update(
                    10,
                    old(self)@.vrams[mirror_layout(old(rom)@.screen_mirroring).2 + 8],
                ).update(11, old(self)@.vrams[mirror_layout(old(rom)@.screen_mirroring).3 + 8]),
                ppux: 341,
                line: 0,
                sprite_zero: false,
                imgok: false,
                ..old(self)@
            }),
            final(rom)@ == (RomModel {
                chrrom_state: old(rom)@.chrrom_state.update(
                    8,
                    (mirror_layout(old(rom)@.screen_mirroring).0 + 8) as u8,
                ).update(9, (mirror_layout(old(rom)@.screen_mirroring).1 + 8) as u8).update(
                    10,
                    (mirror_layout(old(rom)@.screen_mirroring).2 + 8) as u8,
                ).update(11, (mirror_layout(old(rom)@.screen_mirroring).3 + 8) as u8),
                ..old(rom)@
            }),
    {
        self.crate_spbit_array();
        self.palette = make_bytes(33, 0x0f);
        self.sprite_ram = make_bytes(256, 0);
        self.bg_line_buffer = make_bytes(264, 0);
        self.sp_line_buffer = make_words(264, 0);

        self.screen_mirroring = rom.screen_mirroring.clone();
        match self.screen_mirroring {
            Mirroring::VERTICAL => {
                self.set_mode_mirror(false, rom);
            },
            Mirroring::HORIZONTAL => {
                self.set_mode_mirror(true, rom);
            },
            Mirroring::FOUR_SCREEN => {
                self.init_mirrors(0, 1, 2, 3, rom);
            },
        }

        self.ppux = 341;
        self.line = 0;
        self.sprite_zero = false;
        self.imgok = false;
    }
}

} // verus!
