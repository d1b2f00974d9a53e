//! The 6502-family processor: fetch, decode and execute one instruction
//! per step, with exact cycle accounting. Every step is pinned to the
//! transition function `cpu_step` over `CpuModel`, so the processor's
//! behaviour is a mathematical function of the machine state.

use vstd::prelude::*;

use crate::irq::Irq;
use crate::irq::IrqModel;
use crate::mem::bus_read;
use crate::mem::bus_read16;
use crate::mem::bus_write;
use crate::mem::Mem;
use crate::mem::MemModel;
use crate::opcode::opcode_spec;
use crate::opcode::AddrMode;
use crate::opcode::Mnemonic;
use crate::opcode::Opcode;

verus! {

/// Cycle counters stay below this cap so one more step cannot overflow
/// them; it is astronomically beyond any real run.
pub const CLOCK_CAP: u64 = 0x7fff_ffff_ffff_ffff;

/// Mathematical state of the processor and the bus it owns.
pub struct CpuModel {
    pub a: u8,
    pub x: u8,
    pub y: u8,
    pub sp: u8,
    pub pc: u16,
    pub negative: bool,
    pub overflow: bool,
    pub decimal: bool,
    pub interrupt: bool,
    pub zero: bool,
    pub carry: bool,
    pub cpuclock: u64,
    pub totalcycle: u64,
    pub steps: u64,
    pub mem: MemModel,
}

pub struct Cpu {
    pub a: u8,
    pub x: u8,
    pub y: u8,
    pub sp: u8,
    pub pc: u16,
    pub negative: bool,
    pub overflow: bool,
    pub decimal: bool,
    pub interrupt: bool,
    pub zero: bool,
    pub carry: bool,
    pub cpuclock: u64,
    pub totalcycle: u64,
    pub steps: u64,
    pub mem: Mem,
    pub opcodes: Vec<Opcode>,
}

impl View for Cpu {
    type V = CpuModel;

    open spec fn view(&self) -> CpuModel {
        CpuModel {
            a: self.a,
            x: self.x,
            y: self.y,
            sp: self.sp,
            pc: self.pc,
            negative: self.negative,
            overflow: self.overflow,
            decimal: self.decimal,
            interrupt: self.interrupt,
            zero: self.zero,
            carry: self.carry,
            cpuclock: self.cpuclock,
            totalcycle: self.totalcycle,
            steps: self.steps,
            mem: self.mem@,
        }
    }
}

impl Cpu {
    /// The decode table is built and the bus is structurally sound.
    pub open spec fn wf(&self) -> bool {
        &&& self.opcodes@.len() == 258
        &&& (forall|i: int| 0 <= i < 258 ==> self.opcodes@[i] == opcode_spec(i))
        &&& self@.mem.wf()
    }
}

/// The program counter, advanced by one with 16-bit wraparound.
pub open spec fn pc_inc(pc: u16) -> u16 {
    ((((pc as u32) + 1) as u32) & 0xffff) as u16
}

/// The program counter, moved back by one with 16-bit wraparound.
pub open spec fn pc_dec(pc: u16) -> u16 {
    ((((pc as u32) + 0xffff) as u32) & 0xffff) as u16
}

/// The stack pointer, advanced by one within page 0x0100-0x01FF.
pub open spec fn sp_inc(sp: u8) -> u8 {
    ((((sp as u16) + 1) as u16) & 0xff) as u8
}

/// The stack pointer, moved back by one within page 0x0100-0x01FF.
pub open spec fn sp_dec(sp: u8) -> u8 {
    ((((sp as u16) + 0xff) as u16) & 0xff) as u8
}

/// A bus read threaded through the processor model.
pub open spec fn mread(m: CpuModel, addr: u16) -> (u8, CpuModel) {
    let r = bus_read(m.mem, addr);
    (r.0, CpuModel { mem: r.1, ..m })
}

/// A bus write threaded through the processor model.
pub open spec fn mwrite(m: CpuModel, addr: u16, v: u8) -> CpuModel {
    CpuModel { mem: bus_write(m.mem, addr, v), ..m }
}

/// The zero and negative flags an operation result leaves behind.
pub open spec fn set_zn(m: CpuModel, val: u8) -> CpuModel {
    CpuModel { zero: val == 0, negative: val > 0x7f, ..m }
}

/// A push: the byte lands at the current stack slot, then the pointer
/// moves down, wrapping within the stack page.
pub open spec fn push_spec(m: CpuModel, v: u8) -> CpuModel {
    mwrite(CpuModel { sp: sp_dec(m.sp), ..m }, (0x100 + m.sp as u16) as u16, v)
}

/// A pull: the pointer moves up first, then the byte is read from the
/// new stack slot.
pub open spec fn pull_spec(m: CpuModel) -> (u8, CpuModel) {
    mread(CpuModel { sp: sp_inc(m.sp), ..m }, (0x100 + sp_inc(m.sp) as u16) as u16)
}

/// The packed status byte: bit 5 is always set, bit 4 only for software
/// breaks.
pub open spec fn pack_p(m: CpuModel, b_flag: bool) -> u8 {
    (((((((0u8 | (if m.negative {
        0x80u8
    } else {
        0u8
    })) | (if m.overflow {
        0x40u8
    } else {
        0u8
    })) | (if m.decimal {
        0x08u8
    } else {
        0u8
    })) | (if m.interrupt {
        0x04u8
    } else {
        0u8
    })) | (if m.zero {
        0x02u8
    } else {
        0u8
    })) | (if m.carry {
        0x01u8
    } else {
        0u8
    })) | 0x20u8) | (if b_flag {
        0x10u8
    } else {
        0u8
    })
}

/// The flags a status byte unpacks to; bits 4 and 5 are discarded.
pub open spec fn unpack_p(m: CpuModel, value: u8) -> CpuModel {
    CpuModel {
        negative: (value & 0x80) > 0,
        overflow: (value & 0x40) > 0,
        decimal: (value & 0x08) > 0,
        interrupt: (value & 0x04) > 0,
        zero: (value & 0x02) > 0,
        carry: (value & 0x01) > 0,
        ..m
    }
}

/// A taken branch costs one extra cycle, and one more when the target
/// lies in a different page than the instruction that follows the
/// branch. The displacement is a signed 8-bit offset.
pub open spec fn branch_spec(m: CpuModel, test: bool, reladr: u16) -> CpuModel {
    if test {
        let m1 = CpuModel { cpuclock: (m.cpuclock + 1) as u64, ..m };
        let u8val = reladr as u8;
        let adr = if u8val > 127 {
            (((m.pc as u32) + 0x10000 - (256 - u8val as u32)) as u32 & 0xffff) as u16
        } else {
            (((m.pc as u32) + (u8val as u32)) as u32 & 0xffff) as u16
        };
        let m2 = if m.pc >> 8u16 != adr >> 8u16 {
            CpuModel { cpuclock: (m1.cpuclock + 1) as u64, ..m1 }
        } else {
            m1
        };
        CpuModel { pc: adr, ..m2 }
    } else {
        m
    }
}

/// What addressing-mode resolution returns and does: operand fetches
/// advance the program counter, indexed modes with an `R` tag charge the
/// page-cross penalty cycle.
#[verifier::opaque]
pub open spec fn addr_spec(m: CpuModel, mode: AddrMode) -> (u16, CpuModel) {
    match mode {
        AddrMode::IMP => (0u16, m),
        AddrMode::IMM => (m.pc, CpuModel { pc: pc_inc(m.pc), ..m }),
        AddrMode::ZP => {
            let r = mread(CpuModel { pc: pc_inc(m.pc), ..m }, m.pc);
            (r.0 as u16, r.1)
        },
        AddrMode::ZPX => {
            let r = mread(CpuModel { pc: pc_inc(m.pc), ..m }, m.pc);
            ((((r.0 as u16) + (m.x as u16)) as u16 & 0xff) as u16, r.1)
        },
        AddrMode::ZPY => {
            let r = mread(CpuModel { pc: pc_inc(m.pc), ..m }, m.pc);
            ((((r.0 as u16) + (m.y as u16)) as u16 & 0xff) as u16, r.1)
        },
        AddrMode::IZX => {
            let r0 = mread(CpuModel { pc: pc_inc(m.pc), ..m }, m.pc);
            let adr = (((r0.0 as u16) + (m.x as u16)) as u16 & 0xff) as u16;
            let rh = mread(r0.1, (((adr + 1) as u16) & 0xff) as u16);
            let rl = mread(rh.1, adr);
            (((rl.0 as u16) | ((rh.0 as u16) << 8u16)) as u16, rl.1)
        },
        AddrMode::IZY => {
            let r0 = mread(CpuModel { pc: pc_inc(m.pc), ..m }, m.pc);
            let adr = r0.0 as u16;
            let rh = mread(r0.1, (((adr + 1) as u16) & 0xff) as u16);
            let rl = mread(rh.1, adr);
            let radr = ((rl.0 as u16) | ((rh.0 as u16) << 8u16)) as u16;
            (((((radr as u32) + (m.y as u32)) as u32) & 0xffff) as u16, rl.1)
        },
        AddrMode::IZYR => {
            let r0 = mread(CpuModel { pc: pc_inc(m.pc), ..m }, m.pc);
            let adr = r0.0 as u16;
            let rh = mread(r0.1, (((adr + 1) as u16) & 0xff) as u16);
            let rl = mread(rh.1, adr);
            let radr = ((rl.0 as u16) | ((rh.0 as u16) << 8u16)) as u16;
            let dest = ((((radr as u32) + (m.y as u32)) as u32) & 0xffff) as u16;
            let m2 = if radr >> 8u16 != dest >> 8u16 {
                CpuModel { cpuclock: (rl.1.cpuclock + 1) as u64, ..rl.1 }
            } else {
                rl.1
            };
            (dest, m2)
        },
        AddrMode::ABS => {
            let rl = mread(CpuModel { pc: pc_inc(m.pc), ..m }, m.pc);
            let rh = mread(CpuModel { pc: pc_inc(rl.1.pc), ..rl.1 }, rl.1.pc);
            (((rl.0 as u16) | ((rh.0 as u16) << 8u16)) as u16, rh.1)
        },
        AddrMode::ABX => {
            let rl = mread(CpuModel { pc: pc_inc(m.pc), ..m }, m.pc);
            let rh = mread(CpuModel { pc: pc_inc(rl.1.pc), ..rl.1 }, rl.1.pc);
            let base = ((rl.0 as u16) | ((rh.0 as u16) << 8u16)) as u16;
            (((((base as u32) + (m.x as u32)) as u32) & 0xffff) as u16, rh.1)
        },
        AddrMode::ABXR => {
            let rl = mread(CpuModel { pc: pc_inc(m.pc), ..m }, m.pc);
            let rh = mread(CpuModel { pc: pc_inc(rl.1.pc), ..rl.1 }, rl.1.pc);
            let base = ((rl.0 as u16) | ((rh.0 as u16) << 8u16)) as u16;
            let dest = ((((base as u32) + (m.x as u32)) as u32) & 0xffff) as u16;
            let m2 = if base >> 8u16 != dest >> 8u16 {
                CpuModel { cpuclock: (rh.1.cpuclock + 1) as u64, ..rh.1 }
            } else {
                rh.1
            };
            (dest, m2)
        },
        AddrMode::ABY => {
            let rl = mread(CpuModel { pc: pc_inc(m.pc), ..m }, m.pc);
            let rh = mread(CpuModel { pc: pc_inc(rl.1.pc), ..rl.1 }, rl.1.pc);
            let base = ((rl.0 as u16) | ((rh.0 as u16) << 8u16)) as u16;
            (((((base as u32) + (m.y as u32)) as u32) & 0xffff) as u16, rh.1)
        },
        AddrMode::ABYR => {
            let rl = mread(CpuModel { pc: pc_inc(m.pc), ..m }, m.pc);
            let rh = mread(CpuModel { pc: pc_inc(rl.1.pc), ..rl.1 }, rl.1.pc);
            let base = ((rl.0 as u16) | ((rh.0 as u16) << 8u16)) as u16;
            let dest = ((((base as u32) + (m.y as u32)) as u32) & 0xffff) as u16;
            let m2 = if base >> 8u16 != dest >> 8u16 {
                CpuModel { cpuclock: (rh.1.cpuclock + 1) as u64, ..rh.1 }
            } else {
                rh.1
            };
            (dest, m2)
        },
        AddrMode::IND => {
            let rl = mread(CpuModel { pc: pc_inc(m.pc), ..m }, m.pc);
            let rh = mread(CpuModel { pc: pc_inc(rl.1.pc), ..rl.1 }, rl.1.pc);
            let lo = rl.0 as u16;
            let hi = rh.0 as u16;
            let r2 = mread(rh.1, (lo | ((hi as u16) << 8u16)) as u16);
            let r3 = mread(r2.1, ((((lo + 1) as u16) & 0xff) | ((hi as u16) << 8u16)) as u16);
            (((r2.0 as u16) | ((r3.0 as u16) << 8u16)) as u16, r3.1)
        },
        AddrMode::REL => {
            let r = mread(CpuModel { pc: pc_inc(m.pc), ..m }, m.pc);
            (r.0 as u16, r.1)
        },
        AddrMode::NMI => (0u16, m),
        AddrMode::IRQ => (0u16, m),
    }
}

impl Cpu {
    pub fn new(mem: Mem) -> (r: Cpu)
        ensures
            r@ == (CpuModel {
                a: 0,
                x: 0,
                y: 0,
                sp: 0,
                pc: 0,
                negative: false,
                overflow: false,
                decimal: false,
                interrupt: true,
                zero: false,
                carry: false,
                cpuclock: 7,
                totalcycle: 0,
                steps: 0,
                mem: mem@,
            }),
            r.opcodes@.len() == 0,
{
        Cpu {
            a: 0,
            x: 0,
            y: 0,
            sp: 0,
            pc: 0,
            negative: false,
            overflow: false,
            decimal: false,
            interrupt: true,
            zero: false,
            carry: false,
            cpuclock: 7,
            totalcycle: 0,
            steps: 0,
            mem,
            opcodes: Vec::new(),
        }
    }

    /// Returns registers and flags to their power-on values; the reset
    /// base cost of seven cycles is charged.
    pub fn reset(&mut self)
        ensures
            final(self)@ == (CpuModel {
                a: 0,
                x: 0,
                y: 0,
                sp: 0xfd,
                pc: 0,
                negative: false,
                overflow: false,
                decimal: false,
                interrupt: true,
                zero: false,
                carry: false,
                cpuclock: 7,
                totalcycle: 7,
                steps: 0,
                mem: old(self)@.mem,
            }),
            final(self).opcodes == old(self).opcodes,
{
        self.a = 0;
        self.x = 0;
        self.y = 0;
        self.sp = 0xfd;
        self.pc = 0;
        self.negative = false;
        self.overflow = false;
        self.decimal = false;
        self.interrupt = true;
        self.zero = false;
        self.carry = false;
        self.cpuclock = 7;
        self.totalcycle = 7;
        self.steps = 0;
    }

    /// Resets, then loads the program counter from the reset vector at
    /// 0xFFFC.
    pub fn start(&mut self)
        requires
            old(self).wf(),
        ensures
            final(self).wf(),
            ({
                let m1 = CpuModel {
                    a: 0,
                    x: 0,
                    y: 0,
                    sp: 0xfd,
                    pc: 0,
                    negative: false,
                    overflow: false,
                    decimal: false,
                    interrupt: true,
                    zero: false,
                    carry: false,
                    cpuclock: 7,
                    totalcycle: 7,
                    steps: 0,
                    mem: old(self)@.mem,
                };
                let r = bus_read16(m1.mem, 0xfffc);
                final(self)@ == (CpuModel { pc: r.0, mem: r.1, ..m1 })
            }),
{
        self.reset();
        let data: u16 = self.mem.get16(0xfffc);
        self.pc = data;
    }

    /// Resets and starts execution at the fixed entry point the
    /// instruction-trace harness uses.
    pub fn init_nestest(&mut self)
        ensures
            final(self)@ == (CpuModel {
                a: 0,
                x: 0,
                y: 0,
                sp: 0xfd,
                pc: 0xc000,
                negative: false,
                overflow: false,
                decimal: false,
                interrupt: true,
                zero: false,
                carry: false,
                cpuclock: 7,
                totalcycle: 7,
                steps: 0,
                mem: old(self)@.mem,
            }),
            final(self).opcodes == old(self).opcodes,
{
        self.reset();
        self.pc = 0xc000;
    }

    pub fn clear_cpucycle(&mut self)
        ensures
            final(self)@ == (CpuModel { cpuclock: 0, ..old(self)@ }),
            final(self).opcodes == old(self).opcodes,
{
        self.cpuclock = 0;
    }

    /// Builds the bus and decode table; the processor is then ready to
    /// run.
    pub fn init(&mut self)
        requires
            old(self)@.mem.wf(),
            old(self).opcodes@.len() == 0,
        ensures
            final(self).wf(),
            final(self)@ == (CpuModel {
                a: 0,
                x: 0,
                y: 0,
                sp: 0xfd,
                pc: 0,
                negative: false,
                overflow: false,
                decimal: false,
                interrupt: true,
                zero: false,
                carry: false,
                cpuclock: 7,
                totalcycle: 7,
                steps: 0,
                mem: (MemModel {
                    mapper: crate::mapper0::MapperModel {
                        ppu: crate::ppu::ppu_reset_model(old(self)@.mem.mapper.ppu),
                        io: crate::io::io_reset_model(),
                        ..old(self)@.mem.mapper
                    },
                    ..old(self)@.mem
                }),
            }),
{
        self.mem.init();
        self.reset();
        self.create_opcodes();
    }

    pub(crate) fn set_zero_and_ng(&mut self, rval: u8)
        ensures
            final(self)@ == set_zn(old(self)@, rval),
            final(self).opcodes == old(self).opcodes,
{
        self.zero = rval == 0;
        self.negative = rval > 0x7f;
    }

    pub(crate) fn post_incpc(&mut self) -> (r: u16)
        ensures
            r == old(self)@.pc,
            final(self)@ == (CpuModel { pc: pc_inc(old(self)@.pc), ..old(self)@ }),
            final(self).opcodes == old(self).opcodes,
{
        let pc: u16 = self.pc;
        self.pc = ((self.pc as u32 + 1) & 0xffff) as u16;
        pc
    }

    pub(crate) fn decpc(&mut self) -> (r: u16)
        ensures
            r == pc_dec(old(self)@.pc),
            final(self)@ == (CpuModel { pc: pc_dec(old(self)@.pc), ..old(self)@ }),
            final(self).opcodes == old(self).opcodes,
{
        self.pc = ((self.pc as u32 + 0xffff) & 0xffff) as u16;
        self.pc
    }

    pub(crate) fn pre_incsp(&mut self) -> (r: u8)
        ensures
            r == sp_inc(old(self)@.sp),
            final(self)@ == (CpuModel { sp: sp_inc(old(self)@.sp), ..old(self)@ }),
            final(self).opcodes == old(self).opcodes,
{
        self.sp = ((self.sp as u16 + 1) & 0xff) as u8;
        self.sp
    }

    pub(crate) fn post_incsp(&mut self) -> (r: u8)
        ensures
            r == old(self)@.sp,
            final(self)@ == (CpuModel { sp: sp_inc(old(self)@.sp), ..old(self)@ }),
            final(self).opcodes == old(self).opcodes,
{
        let sp: u8 = self.sp;
        self.sp = ((self.sp as u16 + 1) & 0xff) as u8;
        sp
    }

    pub(crate) fn post_decsp(&mut self) -> (r: u8)
        ensures
            r == old(self)@.sp,
            final(self)@ == (CpuModel { sp: sp_dec(old(self)@.sp), ..old(self)@ }),
            final(self).opcodes == old(self).opcodes,
{
        let sp: u8 = self.sp;
        self.sp = ((self.sp as u16 + 0xff) & 0xff) as u8;
        sp
    }

    pub(crate) fn setp(&mut self, value: u8)
        ensures
            final(self)@ == unpack_p(old(self)@, value),
            final(self).opcodes == old(self).opcodes,
{
        self.negative = (value & 0x80) > 0;
        self.overflow = (value & 0x40) > 0;
        self.decimal = (value & 0x08) > 0;
        self.interrupt = (value & 0x04) > 0;
        self.zero = (value & 0x02) > 0;
        self.carry = (value & 0x01) > 0;
    }

    /// Packs the status byte; bit 4 is set only when `b_flag` asks for a
    /// software-break frame.
    pub fn getp(&mut self, b_flag: bool) -> (r: u8)
        ensures
            r == pack_p(old(self)@, b_flag),
            final(self)@ == old(self)@,
            final(self).opcodes == old(self).opcodes,
{
        let mut value: u8 = 0;
        value |= if self.negative {
            0x80
        } else {
            0
        };
        value |= if self.overflow {
            0x40
        } else {
            0
        };
        value |= if self.decimal {
            0x08
        } else {
            0
        };
        value |= if self.interrupt {
            0x04
        } else {
            0
        };
        value |= if self.zero {
            0x02
        } else {
            0
        };
        value |= if self.carry {
            0x01
        } else {
            0
        };
        value |= 0x20;
        value |= if b_flag {
            0x10
        } else {
            0
        };
        value
    }

    #[allow(non_snake_case)]
    pub(crate) fn doBranch(&mut self, test: bool, reladr: u16)
        requires
            old(self)@.cpuclock <= CLOCK_CAP,
        ensures
            final(self)@ == branch_spec(old(self)@, test, reladr),
            final(self).opcodes == old(self).opcodes,
{
        if test {
            self.cpuclock = self.cpuclock + 1;
            let u8val: u8 = reladr as u8;
            let adr: u16 = if u8val > 127 {
                (((self.pc as u32) + 0x10000 - (256 - u8val as u32)) & 0xffff) as u16
            } else {
                (((self.pc as u32) + (u8val as u32)) & 0xffff) as u16
            };
            if self.pc >> 8 != adr >> 8 {
                self.cpuclock = self.cpuclock + 1;
            }
            self.pc = adr;
        }
    }

    pub(crate) fn create_opcode(&mut self, op: Mnemonic, adm: AddrMode, cycle: u64)
        ensures
            final(self)@ == old(self)@,
            final(self).opcodes@ == old(self).opcodes@.push(
                Opcode { op, adm, cycle },
            ),
{
        self.opcodes.push(Opcode { op, adm, cycle });
    }


    /// Fills the decode table in opcode-byte order.
    fn create_opcodes(&mut self)
        requires
            old(self).opcodes@.len() == 0,
        ensures
            final(self)@ == old(self)@,
            final(self).opcodes@.len() == 258,
            forall|i: int| 0 <= i < 258 ==> final(self).opcodes@[i] == opcode_spec(i),
{
        self.create_opcodes_a();
        self.create_opcodes_b();
        self.create_opcodes_c();
        self.create_opcodes_d();
        self.create_opcodes_e();
        self.create_opcodes_f();
    }

    #[verifier::rlimit(100)]
    fn create_opcodes_a(&mut self)
        requires
            old(self).opcodes@.len() == 0,
        ensures
            final(self)@ == old(self)@,
            final(self).opcodes@.len() == 43,
            forall|i: int|
                0 <= i < 0 ==> final(self).opcodes@[i] == old(self).opcodes@[i],
            forall|i: int|
                0 <= i < 43 ==> final(self).opcodes@[i] == opcode_spec(i),
{
        self.create_opcode(Mnemonic::BRK, AddrMode::IMP, 7);
        self.create_opcode(Mnemonic::ORA, AddrMode::IZX, 6);
        self.create_opcode(Mnemonic::KIL, AddrMode::IMP, 2);
        self.create_opcode(Mnemonic::SLO, AddrMode::IZX, 8);
        self.create_opcode(Mnemonic::NOP, AddrMode::ZP, 3);
        self.create_opcode(Mnemonic::ORA, AddrMode::ZP, 3);
        self.create_opcode(Mnemonic::ASL, AddrMode::ZP, 5);
        self.create_opcode(Mnemonic::SLO, AddrMode::ZP, 5);
        self.create_opcode(Mnemonic::PHP, AddrMode::IMP, 3);
        self.create_opcode(Mnemonic::ORA, AddrMode::IMM, 2);
        self.create_opcode(Mnemonic::ASLA, AddrMode::IMP, 2);
        self.create_opcode(Mnemonic::ANC, AddrMode::IMM, 2);
        self.create_opcode(Mnemonic::NOP, AddrMode::ABS, 4);
        self.create_opcode(Mnemonic::ORA, AddrMode::ABS, 4);
        self.create_opcode(Mnemonic::ASL, AddrMode::ABS, 6);
        self.create_opcode(Mnemonic::SLO, AddrMode::ABS, 6);
        self.create_opcode(Mnemonic::BPL, AddrMode::REL, 2);
        self.create_opcode(Mnemonic::ORA, AddrMode::IZYR, 5);
        self.create_opcode(Mnemonic::KIL, AddrMode::IMP, 2);
        self.create_opcode(Mnemonic::SLO, AddrMode::IZY, 8);
        self.create_opcode(Mnemonic::NOP, AddrMode::ZPX, 4);
        self.create_opcode(Mnemonic::ORA, AddrMode::ZPX, 4);
        self.create_opcode(Mnemonic::ASL, AddrMode::ZPX, 6);
        self.create_opcode(Mnemonic::SLO, AddrMode::ZPX, 6);
        self.create_opcode(Mnemonic::CLC, AddrMode::IMP, 2);
        self.create_opcode(Mnemonic::ORA, AddrMode::ABYR, 4);
        self.create_opcode(Mnemonic::NOP, AddrMode::IMP, 2);
        self.create_opcode(Mnemonic::SLO, AddrMode::ABY, 7);
        self.create_opcode(Mnemonic::NOP, AddrMode::ABXR, 4);
        self.create_opcode(Mnemonic::ORA, AddrMode::ABXR, 4);
        self.create_opcode(Mnemonic::ASL, AddrMode::ABX, 7);
        self.create_opcode(Mnemonic::SLO, AddrMode::ABX, 7);
        self.create_opcode(Mnemonic::JSR, AddrMode::ABS, 6);
        self.create_opcode(Mnemonic::AND, AddrMode::IZX, 6);
        self.create_opcode(Mnemonic::KIL, AddrMode::IMP, 2);
        self.create_opcode(Mnemonic::RLA, AddrMode::IZX, 8);
        self.create_opcode(Mnemonic::BIT, AddrMode::ZP, 3);
        self.create_opcode(Mnemonic::AND, AddrMode::ZP, 3);
        self.create_opcode(Mnemonic::ROL, AddrMode::ZP, 5);
        self.create_opcode(Mnemonic::RLA, AddrMode::ZP, 5);
        self.create_opcode(Mnemonic::PLP, AddrMode::IMP, 4);
        self.create_opcode(Mnemonic::AND, AddrMode::IMM, 2);
        self.create_opcode(Mnemonic::ROLA, AddrMode::IMP, 2);
        proof {
            reveal(opcode_spec);
            assert(self.opcodes@[0] == opcode_spec(0));
            assert(self.opcodes@[1] == opcode_spec(1));
            assert(self.opcodes@[2] == opcode_spec(2));
            assert(self.opcodes@[3] == opcode_spec(3));
            assert(self.opcodes@[4] == opcode_spec(4));
            assert(self.opcodes@[5] == opcode_spec(5));
            assert(self.opcodes@[6] == opcode_spec(6));
            assert(self.opcodes@[7] == opcode_spec(7));
            assert(self.opcodes@[8] == opcode_spec(8));
            assert(self.opcodes@[9] == opcode_spec(9));
            assert(self.opcodes@[10] == opcode_spec(10));
            assert(self.opcodes@[11] == opcode_spec(11));
            assert(self.opcodes@[12] == opcode_spec(12));
            assert(self.opcodes@[13] == opcode_spec(13));
            assert(self.opcodes@[14] == opcode_spec(14));
            assert(self.opcodes@[15] == opcode_spec(15));
            assert(self.opcodes@[16] == opcode_spec(16));
            assert(self.opcodes@[17] == opcode_spec(17));
            assert(self.opcodes@[18] == opcode_spec(18));
            assert(self.opcodes@[19] == opcode_spec(19));
            assert(self.opcodes@[20] == opcode_spec(20));
            assert(self.opcodes@[21] == opcode_spec(21));
            assert(self.opcodes@[22] == opcode_spec(22));
            assert(self.opcodes@[23] == opcode_spec(23));
            assert(self.opcodes@[24] == opcode_spec(24));
            assert(self.opcodes@[25] == opcode_spec(25));
            assert(self.opcodes@[26] == opcode_spec(26));
            assert(self.opcodes@[27] == opcode_spec(27));
            assert(self.opcodes@[28] == opcode_spec(28));
            assert(self.opcodes@[29] == opcode_spec(29));
            assert(self.opcodes@[30] == opcode_spec(30));
            assert(self.opcodes@[31] == opcode_spec(31));
            assert(self.opcodes@[32] == opcode_spec(32));
            assert(self.opcodes@[33] == opcode_spec(33));
            assert(self.opcodes@[34] == opcode_spec(34));
            assert(self.opcodes@[35] == opcode_spec(35));
            assert(self.opcodes@[36] == opcode_spec(36));
            assert(self.opcodes@[37] == opcode_spec(37));
            assert(self.opcodes@[38] == opcode_spec(38));
            assert(self.opcodes@[39] == opcode_spec(39));
            assert(self.opcodes@[40] == opcode_spec(40));
            assert(self.opcodes@[41] == opcode_spec(41));
            assert(self.opcodes@[42] == opcode_spec(42));
        }
    }

    #[verifier::rlimit(100)]
    fn create_opcodes_b(&mut self)
        requires
            old(self).opcodes@.len() == 43,
        ensures
            final(self)@ == old(self)@,
            final(self).opcodes@.len() == 86,
            forall|i: int|
                0 <= i < 43 ==> final(self).opcodes@[i] == old(self).opcodes@[i],
            forall|i: int|
                43 <= i < 86 ==> final(self).opcodes@[i] == opcode_spec(i),
{
        self.create_opcode(Mnemonic::ANC, AddrMode::IMM, 2);
        self.create_opcode(Mnemonic::BIT, AddrMode::ABS, 4);
        self.create_opcode(Mnemonic::AND, AddrMode::ABS, 4);
        self.create_opcode(Mnemonic::ROL, AddrMode::ABS, 6);
        self.create_opcode(Mnemonic::RLA, AddrMode::ABS, 6);
        self.create_opcode(Mnemonic::BMI, AddrMode::REL, 2);
        self.create_opcode(Mnemonic::AND, AddrMode::IZYR, 5);
        self.create_opcode(Mnemonic::KIL, AddrMode::IMP, 2);
        self.create_opcode(Mnemonic::RLA, AddrMode::IZY, 8);
        self.create_opcode(Mnemonic::NOP, AddrMode::ZPX, 4);
        self.create_opcode(Mnemonic::AND, AddrMode::ZPX, 4);
        self.create_opcode(Mnemonic::ROL, AddrMode::ZPX, 6);
        self.create_opcode(Mnemonic::RLA, AddrMode::ZPX, 6);
        self.create_opcode(Mnemonic::SEC, AddrMode::IMP, 2);
        self.create_opcode(Mnemonic::AND, AddrMode::ABYR, 4);
        self.create_opcode(Mnemonic::NOP, AddrMode::IMP, 2);
        self.create_opcode(Mnemonic::RLA, AddrMode::ABY, 7);
        self.create_opcode(Mnemonic::NOP, AddrMode::ABXR, 4);
        self.create_opcode(Mnemonic::AND, AddrMode::ABXR, 4);
        self.create_opcode(Mnemonic::ROL, AddrMode::ABX, 7);
        self.create_opcode(Mnemonic::RLA, AddrMode::ABX, 7);
        self.create_opcode(Mnemonic::RTI, AddrMode::IMP, 6);
        self.create_opcode(Mnemonic::EOR, AddrMode::IZX, 6);
        self.create_opcode(Mnemonic::KIL, AddrMode::IMP, 2);
        self.create_opcode(Mnemonic::SRE, AddrMode::IZX, 8);
        self.create_opcode(Mnemonic::NOP, AddrMode::ZP, 3);
        self.create_opcode(Mnemonic::EOR, AddrMode::ZP, 3);
        self.create_opcode(Mnemonic::LSR, AddrMode::ZP, 5);
        self.create_opcode(Mnemonic::SRE, AddrMode::ZP, 5);
        self.create_opcode(Mnemonic::PHA, AddrMode::IMP, 3);
        self.create_opcode(Mnemonic::EOR, AddrMode::IMM, 2);
        self.create_opcode(Mnemonic::LSRA, AddrMode::IMP, 2);
        self.create_opcode(Mnemonic::ALR, AddrMode::IMM, 2);
        self.create_opcode(Mnemonic::JMP, AddrMode::ABS, 3);
        self.create_opcode(Mnemonic::EOR, AddrMode::ABS, 4);
        self.create_opcode(Mnemonic::LSR, AddrMode::ABS, 6);
        self.create_opcode(Mnemonic::SRE, AddrMode::ABS, 6);
        self.create_opcode(Mnemonic::BVC, AddrMode::REL, 2);
        self.create_opcode(Mnemonic::EOR, AddrMode::IZYR, 5);
        self.create_opcode(Mnemonic::KIL, AddrMode::IMP, 2);
        self.create_opcode(Mnemonic::SRE, AddrMode::IZY, 8);
        self.create_opcode(Mnemonic::NOP, AddrMode::ZPX, 4);
        self.create_opcode(Mnemonic::EOR, AddrMode::ZPX, 4);
        proof {
            reveal(opcode_spec);
            assert(self.opcodes@[43] == opcode_spec(43));
            assert(self.opcodes@[44] == opcode_spec(44));
            assert(self.opcodes@[45] == opcode_spec(45));
            assert(self.opcodes@[46] == opcode_spec(46));
            assert(self.opcodes@[47] == opcode_spec(47));
            assert(self.opcodes@[48] == opcode_spec(48));
            assert(self.opcodes@[49] == opcode_spec(49));
            assert(self.opcodes@[50] == opcode_spec(50));
            assert(self.opcodes@[51] == opcode_spec(51));
            assert(self.opcodes@[52] == opcode_spec(52));
            assert(self.opcodes@[53] == opcode_spec(53));
            assert(self.opcodes@[54] == opcode_spec(54));
            assert(self.opcodes@[55] == opcode_spec(55));
            assert(self.opcodes@[56] == opcode_spec(56));
            assert(self.opcodes@[57] == opcode_spec(57));
            assert(self.opcodes@[58] == opcode_spec(58));
            assert(self.opcodes@[59] == opcode_spec(59));
            assert(self.opcodes@[60] == opcode_spec(60));
            assert(self.opcodes@[61] == opcode_spec(61));
            assert(self.opcodes@[62] == opcode_spec(62));
            assert(self.opcodes@[63] == opcode_spec(63));
            assert(self.opcodes@[64] == opcode_spec(64));
            assert(self.opcodes@[65] == opcode_spec(65));
            assert(self.opcodes@[66] == opcode_spec(66));
            assert(self.opcodes@[67] == opcode_spec(67));
            assert(self.opcodes@[68] == opcode_spec(68));
            assert(self.opcodes@[69] == opcode_spec(69));
            assert(self.opcodes@[70] == opcode_spec(70));
            assert(self.opcodes@[71] == opcode_spec(71));
            assert(self.opcodes@[72] == opcode_spec(72));
            assert(self.opcodes@[73] == opcode_spec(73));
            assert(self.opcodes@[74] == opcode_spec(74));
            assert(self.opcodes@[75] == opcode_spec(75));
            assert(self.opcodes@[76] == opcode_spec(76));
            assert(self.opcodes@[77] == opcode_spec(77));
            assert(self.opcodes@[78] == opcode_spec(78));
            assert(self.opcodes@[79] == opcode_spec(79));
            assert(self.opcodes@[80] == opcode_spec(80));
            assert(self.opcodes@[81] == opcode_spec(81));
            assert(self.opcodes@[82] == opcode_spec(82));
            assert(self.opcodes@[83] == opcode_spec(83));
            assert(self.opcodes@[84] == opcode_spec(84));
            assert(self.opcodes@[85] == opcode_spec(85));
        }
    }

    #[verifier::rlimit(100)]
    fn create_opcodes_c(&mut self)
        requires
            old(self).opcodes@.len() == 86,
        ensures
            final(self)@ == old(self)@,
            final(self).opcodes@.len() == 129,
            forall|i: int|
                0 <= i < 86 ==> final(self).opcodes@[i] == old(self).opcodes@[i],
            forall|i: int|
                86 <= i < 129 ==> final(self).opcodes@[i] == opcode_spec(i),
{
        self.create_opcode(Mnemonic::LSR, AddrMode::ZPX, 6);
        self.create_opcode(Mnemonic::SRE, AddrMode::ZPX, 6);
        self.create_opcode(Mnemonic::CLI, AddrMode::IMP, 2);
        self.create_opcode(Mnemonic::EOR, AddrMode::ABYR, 4);
        self.create_opcode(Mnemonic::NOP, AddrMode::IMP, 2);
        self.create_opcode(Mnemonic::SRE, AddrMode::ABY, 7);
        self.create_opcode(Mnemonic::NOP, AddrMode::ABXR, 4);
        self.create_opcode(Mnemonic::EOR, AddrMode::ABXR, 4);
        self.create_opcode(Mnemonic::LSR, AddrMode::ABX, 7);
        self.create_opcode(Mnemonic::SRE, AddrMode::ABX, 7);
        self.create_opcode(Mnemonic::RTS, AddrMode::IMP, 6);
        self.create_opcode(Mnemonic::ADC, AddrMode::IZX, 6);
        self.create_opcode(Mnemonic::KIL, AddrMode::IMP, 2);
        self.create_opcode(Mnemonic::RRA, AddrMode::IZX, 8);
        self.create_opcode(Mnemonic::NOP, AddrMode::ZP, 3);
        self.create_opcode(Mnemonic::ADC, AddrMode::ZP, 3);
        self.create_opcode(Mnemonic::ROR, AddrMode::ZP, 5);
        self.create_opcode(Mnemonic::RRA, AddrMode::ZP, 5);
        self.create_opcode(Mnemonic::PLA, AddrMode::IMP, 4);
        self.create_opcode(Mnemonic::ADC, AddrMode::IMM, 2);
        self.create_opcode(Mnemonic::RORA, AddrMode::IMP, 2);
        self.create_opcode(Mnemonic::ARR, AddrMode::IMM, 2);
        self.create_opcode(Mnemonic::JMP, AddrMode::IND, 5);
        self.create_opcode(Mnemonic::ADC, AddrMode::ABS, 4);
        self.create_opcode(Mnemonic::ROR, AddrMode::ABS, 6);
        self.create_opcode(Mnemonic::RRA, AddrMode::ABS, 6);
        self.create_opcode(Mnemonic::BVS, AddrMode::REL, 2);
        self.create_opcode(Mnemonic::ADC, AddrMode::IZYR, 5);
        self.create_opcode(Mnemonic::KIL, AddrMode::IMP, 2);
        self.create_opcode(Mnemonic::RRA, AddrMode::IZY, 8);
        self.create_opcode(Mnemonic::NOP, AddrMode::ZPX, 4);
        self.create_opcode(Mnemonic::ADC, AddrMode::ZPX, 4);
        self.create_opcode(Mnemonic::ROR, AddrMode::ZPX, 6);
        self.create_opcode(Mnemonic::RRA, AddrMode::ZPX, 6);
        self.create_opcode(Mnemonic::SEI, AddrMode::IMP, 2);
        self.create_opcode(Mnemonic::ADC, AddrMode::ABYR, 4);
        self.create_opcode(Mnemonic::NOP, AddrMode::IMP, 2);
        self.create_opcode(Mnemonic::RRA, AddrMode::ABY, 7);
        self.create_opcode(Mnemonic::NOP, AddrMode::ABXR, 4);
        self.create_opcode(Mnemonic::ADC, AddrMode::ABXR, 4);
        self.create_opcode(Mnemonic::ROR, AddrMode::ABX, 7);
        self.create_opcode(Mnemonic::RRA, AddrMode::ABX, 7);
        self.create_opcode(Mnemonic::NOP, AddrMode::IMM, 2);
        proof {
            reveal(opcode_spec);
            assert(self.opcodes@[86] == opcode_spec(86));
            assert(self.opcodes@[87] == opcode_spec(87));
            assert(self.opcodes@[88] == opcode_spec(88));
            assert(self.opcodes@[89] == opcode_spec(89));
            assert(self.opcodes@[90] == opcode_spec(90));
            assert(self.opcodes@[91] == opcode_spec(91));
            assert(self.opcodes@[92] == opcode_spec(92));
            assert(self.opcodes@[93] == opcode_spec(93));
            assert(self.opcodes@[94] == opcode_spec(94));
            assert(self.opcodes@[95] == opcode_spec(95));
            assert(self.opcodes@[96] == opcode_spec(96));
            assert(self.opcodes@[97] == opcode_spec(97));
            assert(self.opcodes@[98] == opcode_spec(98));
            assert(self.opcodes@[99] == opcode_spec(99));
            assert(self.opcodes@[100] == opcode_spec(100));
            assert(self.opcodes@[101] == opcode_spec(101));
            assert(self.opcodes@[102] == opcode_spec(102));
            assert(self.opcodes@[103] == opcode_spec(103));
            assert(self.opcodes@[104] == opcode_spec(104));
            assert(self.opcodes@[105] == opcode_spec(105));
            assert(self.opcodes@[106] == opcode_spec(106));
            assert(self.opcodes@[107] == opcode_spec(107));
            assert(self.opcodes@[108] == opcode_spec(108));
            assert(self.opcodes@[109] == opcode_spec(109));
            assert(self.opcodes@[110] == opcode_spec(110));
            assert(self.opcodes@[111] == opcode_spec(111));
            assert(self.opcodes@[112] == opcode_spec(112));
            assert(self.opcodes@[113] == opcode_spec(113));
            assert(self.opcodes@[114] == opcode_spec(114));
            assert(self.opcodes@[115] == opcode_spec(115));
            assert(self.opcodes@[116] == opcode_spec(116));
            assert(self.opcodes@[117] == opcode_spec(117));
            assert(self.opcodes@[118] == opcode_spec(118));
            assert(self.opcodes@[119] == opcode_spec(119));
            assert(self.opcodes@[120] == opcode_spec(120));
            assert(self.opcodes@[121] == opcode_spec(121));
            assert(self.opcodes@[122] == opcode_spec(122));
            assert(self.opcodes@[123] == opcode_spec(123));
            assert(self.opcodes@[124] == opcode_spec(124));
            assert(self.opcodes@[125] == opcode_spec(125));
            assert(self.opcodes@[126] == opcode_spec(126));
            assert(self.opcodes@[127] == opcode_spec(127));
            assert(self.opcodes@[128] == opcode_spec(128));
        }
    }

    #[verifier::rlimit(100)]
    fn create_opcodes_d(&mut self)
        requires
            old(self).opcodes@.len() == 129,
        ensures
            final(self)@ == old(self)@,
            final(self).opcodes@.len() == 172,
            forall|i: int|
                0 <= i < 129 ==> final(self).opcodes@[i] == old(self).opcodes@[i],
            forall|i: int|
                129 <= i < 172 ==> final(self).opcodes@[i] == opcode_spec(i),
{
        self.create_opcode(Mnemonic::STA, AddrMode::IZX, 6);
        self.create_opcode(Mnemonic::NOP, AddrMode::IMM, 2);
        self.create_opcode(Mnemonic::SAX, AddrMode::IZX, 6);
        self.create_opcode(Mnemonic::STY, AddrMode::ZP, 3);
        self.create_opcode(Mnemonic::STA, AddrMode::ZP, 3);
        self.create_opcode(Mnemonic::STX, AddrMode::ZP, 3);
        self.create_opcode(Mnemonic::SAX, AddrMode::ZP, 3);
        self.create_opcode(Mnemonic::DEY, AddrMode::IMP, 2);
        self.create_opcode(Mnemonic::NOP, AddrMode::IMM, 2);
        self.create_opcode(Mnemonic::TXA, AddrMode::IMP, 2);
        self.create_opcode(Mnemonic::UNI, AddrMode::IMM, 2);
        self.create_opcode(Mnemonic::STY, AddrMode::ABS, 4);
        self.create_opcode(Mnemonic::STA, AddrMode::ABS, 4);
        self.create_opcode(Mnemonic::STX, AddrMode::ABS, 4);
        self.create_opcode(Mnemonic::SAX, AddrMode::ABS, 4);
        self.create_opcode(Mnemonic::BCC, AddrMode::REL, 2);
        self.create_opcode(Mnemonic::STA, AddrMode::IZY, 6);
        self.create_opcode(Mnemonic::KIL, AddrMode::IMP, 2);
        self.create_opcode(Mnemonic::UNI, AddrMode::IZY, 6);
        self.create_opcode(Mnemonic::STY, AddrMode::ZPX, 4);
        self.create_opcode(Mnemonic::STA, AddrMode::ZPX, 4);
        self.create_opcode(Mnemonic::STX, AddrMode::ZPY, 4);
        self.create_opcode(Mnemonic::SAX, AddrMode::ZPY, 4);
        self.create_opcode(Mnemonic::TYA, AddrMode::IMP, 2);
        self.create_opcode(Mnemonic::STA, AddrMode::ABY, 5);
        self.create_opcode(Mnemonic::TXS, AddrMode::IMP, 2);
        self.create_opcode(Mnemonic::UNI, AddrMode::ABY, 5);
        self.create_opcode(Mnemonic::UNI, AddrMode::ABX, 5);
        self.create_opcode(Mnemonic::STA, AddrMode::ABX, 5);
        self.create_opcode(Mnemonic::UNI, AddrMode::ABY, 5);
        self.create_opcode(Mnemonic::UNI, AddrMode::ABY, 5);
        self.create_opcode(Mnemonic::LDY, AddrMode::IMM, 2);
        self.create_opcode(Mnemonic::LDA, AddrMode::IZX, 6);
        self.create_opcode(Mnemonic::LDX, AddrMode::IMM, 2);
        self.create_opcode(Mnemonic::LAX, AddrMode::IZX, 6);
        self.create_opcode(Mnemonic::LDY, AddrMode::ZP, 3);
        self.create_opcode(Mnemonic::LDA, AddrMode::ZP, 3);
        self.create_opcode(Mnemonic::LDX, AddrMode::ZP, 3);
        self.create_opcode(Mnemonic::LAX, AddrMode::ZP, 3);
        self.create_opcode(Mnemonic::TAY, AddrMode::IMP, 2);
        self.create_opcode(Mnemonic::LDA, AddrMode::IMM, 2);
        self.create_opcode(Mnemonic::TAX, AddrMode::IMP, 2);
        self.create_opcode(Mnemonic::UNI, AddrMode::IMM, 2);
        proof {
            reveal(opcode_spec);
            assert(self.opcodes@[129] == opcode_spec(129));
            assert(self.opcodes@[130] == opcode_spec(130));
            assert(self.opcodes@[131] == opcode_spec(131));
            assert(self.opcodes@[132] == opcode_spec(132));
            assert(self.opcodes@[133] == opcode_spec(133));
            assert(self.opcodes@[134] == opcode_spec(134));
            assert(self.opcodes@[135] == opcode_spec(135));
            assert(self.opcodes@[136] == opcode_spec(136));
            assert(self.opcodes@[137] == opcode_spec(137));
            assert(self.opcodes@[138] == opcode_spec(138));
            assert(self.opcodes@[139] == opcode_spec(139));
            assert(self.opcodes@[140] == opcode_spec(140));
            assert(self.opcodes@[141] == opcode_spec(141));
            assert(self.opcodes@[142] == opcode_spec(142));
            assert(self.opcodes@[143] == opcode_spec(143));
            assert(self.opcodes@[144] == opcode_spec(144));
            assert(self.opcodes@[145] == opcode_spec(145));
            assert(self.opcodes@[146] == opcode_spec(146));
            assert(self.opcodes@[147] == opcode_spec(147));
            assert(self.opcodes@[148] == opcode_spec(148));
            assert(self.opcodes@[149] == opcode_spec(149));
            assert(self.opcodes@[150] == opcode_spec(150));
            assert(self.opcodes@[151] == opcode_spec(151));
            assert(self.opcodes@[152] == opcode_spec(152));
            assert(self.opcodes@[153] == opcode_spec(153));
            assert(self.opcodes@[154] == opcode_spec(154));
            assert(self.opcodes@[155] == opcode_spec(155));
            assert(self.opcodes@[156] == opcode_spec(156));
            assert(self.opcodes@[157] == opcode_spec(157));
            assert(self.opcodes@[158] == opcode_spec(158));
            assert(self.opcodes@[159] == opcode_spec(159));
            assert(self.opcodes@[160] == opcode_spec(160));
            assert(self.opcodes@[161] == opcode_spec(161));
            assert(self.opcodes@[162] == opcode_spec(162));
            assert(self.opcodes@[163] == opcode_spec(163));
            assert(self.opcodes@[164] == opcode_spec(164));
            assert(self.opcodes@[165] == opcode_spec(165));
            assert(self.opcodes@[166] == opcode_spec(166));
            assert(self.opcodes@[167] == opcode_spec(167));
            assert(self.opcodes@[168] == opcode_spec(168));
            assert(self.opcodes@[169] == opcode_spec(169));
            assert(self.opcodes@[170] == opcode_spec(170));
            assert(self.opcodes@[171] == opcode_spec(171));
        }
    }

    #[verifier::rlimit(100)]
    fn create_opcodes_e(&mut self)
        requires
            old(self).opcodes@.len() == 172,
        ensures
            final(self)@ == old(self)@,
            final(self).opcodes@.len() == 215,
            forall|i: int|
                0 <= i < 172 ==> final(self).opcodes@[i] == old(self).opcodes@[i],
            forall|i: int|
                172 <= i < 215 ==> final(self).opcodes@[i] == opcode_spec(i),
{
        self.create_opcode(Mnemonic::LDY, AddrMode::ABS, 4);
        self.create_opcode(Mnemonic::LDA, AddrMode::ABS, 4);
        self.create_opcode(Mnemonic::LDX, AddrMode::ABS, 4);
        self.create_opcode(Mnemonic::LAX, AddrMode::ABS, 4);
        self.create_opcode(Mnemonic::BCS, AddrMode::REL, 2);
        self.create_opcode(Mnemonic::LDA, AddrMode::IZYR, 5);
        self.create_opcode(Mnemonic::KIL, AddrMode::IMP, 2);
        self.create_opcode(Mnemonic::LAX, AddrMode::IZYR, 5);
        self.create_opcode(Mnemonic::LDY, AddrMode::ZPX, 4);
        self.create_opcode(Mnemonic::LDA, AddrMode::ZPX, 4);
        self.create_opcode(Mnemonic::LDX, AddrMode::ZPY, 4);
        self.create_opcode(Mnemonic::LAX, AddrMode::ZPY, 4);
        self.create_opcode(Mnemonic::CLV, AddrMode::IMP, 2);
        self.create_opcode(Mnemonic::LDA, AddrMode::ABYR, 4);
        self.create_opcode(Mnemonic::TSX, AddrMode::IMP, 2);
        self.create_opcode(Mnemonic::UNI, AddrMode::ABYR, 4);
        self.create_opcode(Mnemonic::LDY, AddrMode::ABXR, 4);
        self.create_opcode(Mnemonic::LDA, AddrMode::ABXR, 4);
        self.create_opcode(Mnemonic::LDX, AddrMode::ABYR, 4);
        self.create_opcode(Mnemonic::LAX, AddrMode::ABYR, 4);
        self.create_opcode(Mnemonic::CPY, AddrMode::IMM, 2);
        self.create_opcode(Mnemonic::CMP, AddrMode::IZX, 6);
        self.create_opcode(Mnemonic::NOP, AddrMode::IMM, 2);
        self.create_opcode(Mnemonic::DCP, AddrMode::IZX, 8);
        self.create_opcode(Mnemonic::CPY, AddrMode::ZP, 3);
        self.create_opcode(Mnemonic::CMP, AddrMode::ZP, 3);
        self.create_opcode(Mnemonic::DEC, AddrMode::ZP, 5);
        self.create_opcode(Mnemonic::DCP, AddrMode::ZP, 5);
        self.create_opcode(Mnemonic::INY, AddrMode::IMP, 2);
        self.create_opcode(Mnemonic::CMP, AddrMode::IMM, 2);
        self.create_opcode(Mnemonic::DEX, AddrMode::IMP, 2);
        self.create_opcode(Mnemonic::AXS, AddrMode::IMM, 2);
        self.create_opcode(Mnemonic::CPY, AddrMode::ABS, 4);
        self.create_opcode(Mnemonic::CMP, AddrMode::ABS, 4);
        self.create_opcode(Mnemonic::DEC, AddrMode::ABS, 6);
        self.create_opcode(Mnemonic::DCP, AddrMode::ABS, 6);
        self.create_opcode(Mnemonic::BNE, AddrMode::REL, 2);
        self.create_opcode(Mnemonic::CMP, AddrMode::IZYR, 5);
        self.create_opcode(Mnemonic::KIL, AddrMode::IMP, 2);
        self.create_opcode(Mnemonic::DCP, AddrMode::IZY, 8);
        self.create_opcode(Mnemonic::NOP, AddrMode::ZPX, 4);
        self.create_opcode(Mnemonic::CMP, AddrMode::ZPX, 4);
        self.create_opcode(Mnemonic::DEC, AddrMode::ZPX, 6);
        proof {
            reveal(opcode_spec);
            assert(self.opcodes@[172] == opcode_spec(172));
            assert(self.opcodes@[173] == opcode_spec(173));
            assert(self.opcodes@[174] == opcode_spec(174));
            assert(self.opcodes@[175] == opcode_spec(175));
            assert(self.opcodes@[176] == opcode_spec(176));
            assert(self.opcodes@[177] == opcode_spec(177));
            assert(self.opcodes@[178] == opcode_spec(178));
            assert(self.opcodes@[179] == opcode_spec(179));
            assert(self.opcodes@[180] == opcode_spec(180));
            assert(self.opcodes@[181] == opcode_spec(181));
            assert(self.opcodes@[182] == opcode_spec(182));
            assert(self.opcodes@[183] == opcode_spec(183));
            assert(self.opcodes@[184] == opcode_spec(184));
            assert(self.opcodes@[185] == opcode_spec(185));
            assert(self.opcodes@[186] == opcode_spec(186));
            assert(self.opcodes@[187] == opcode_spec(187));
            assert(self.opcodes@[188] == opcode_spec(188));
            assert(self.opcodes@[189] == opcode_spec(189));
            assert(self.opcodes@[190] == opcode_spec(190));
            assert(self.opcodes@[191] == opcode_spec(191));
            assert(self.opcodes@[192] == opcode_spec(192));
            assert(self.opcodes@[193] == opcode_spec(193));
            assert(self.opcodes@[194] == opcode_spec(194));
            assert(self.opcodes@[195] == opcode_spec(195));
            assert(self.opcodes@[196] == opcode_spec(196));
            assert(self.opcodes@[197] == opcode_spec(197));
            assert(self.opcodes@[198] == opcode_spec(198));
            assert(self.opcodes@[199] == opcode_spec(199));
            assert(self.opcodes@[200] == opcode_spec(200));
            assert(self.opcodes@[201] == opcode_spec(201));
            assert(self.opcodes@[202] == opcode_spec(202));
            assert(self.opcodes@[203] == opcode_spec(203));
            assert(self.opcodes@[204] == opcode_spec(204));
            assert(self.opcodes@[205] == opcode_spec(205));
            assert(self.opcodes@[206] == opcode_spec(206));
            assert(self.opcodes@[207] == opcode_spec(207));
            assert(self.opcodes@[208] == opcode_spec(208));
            assert(self.opcodes@[209] == opcode_spec(209));
            assert(self.opcodes@[210] == opcode_spec(210));
            assert(self.opcodes@[211] == opcode_spec(211));
            assert(self.opcodes@[212] == opcode_spec(212));
            assert(self.opcodes@[213] == opcode_spec(213));
            assert(self.opcodes@[214] == opcode_spec(214));
        }
    }

    #[verifier::rlimit(100)]
    fn create_opcodes_f(&mut self)
        requires
            old(self).opcodes@.len() == 215,
        ensures
            final(self)@ == old(self)@,
            final(self).opcodes@.len() == 258,
            forall|i: int|
                0 <= i < 215 ==> final(self).opcodes@[i] == old(self).opcodes@[i],
            forall|i: int|
                215 <= i < 258 ==> final(self).opcodes@[i] == opcode_spec(i),
{
        self.create_opcode(Mnemonic::DCP, AddrMode::ZPX, 6);
        self.create_opcode(Mnemonic::CLD, AddrMode::IMP, 2);
        self.create_opcode(Mnemonic::CMP, AddrMode::ABYR, 4);
        self.create_opcode(Mnemonic::NOP, AddrMode::IMP, 2);
        self.create_opcode(Mnemonic::DCP, AddrMode::ABY, 7);
        self.create_opcode(Mnemonic::NOP, AddrMode::ABXR, 4);
        self.create_opcode(Mnemonic::CMP, AddrMode::ABXR, 4);
        self.create_opcode(Mnemonic::DEC, AddrMode::ABX, 7);
        self.create_opcode(Mnemonic::DCP, AddrMode::ABX, 7);
        self.create_opcode(Mnemonic::CPX, AddrMode::IMM, 2);
        self.create_opcode(Mnemonic::SBC, AddrMode::IZX, 6);
        self.create_opcode(Mnemonic::NOP, AddrMode::IMM, 2);
        self.create_opcode(Mnemonic::ISC, AddrMode::IZX, 8);
        self.create_opcode(Mnemonic::CPX, AddrMode::ZP, 3);
        self.create_opcode(Mnemonic::SBC, AddrMode::ZP, 3);
        self.create_opcode(Mnemonic::INC, AddrMode::ZP, 5);
        self.create_opcode(Mnemonic::ISC, AddrMode::ZP, 5);
        self.create_opcode(Mnemonic::INX, AddrMode::IMP, 2);
        self.create_opcode(Mnemonic::SBC, AddrMode::IMM, 2);
        self.create_opcode(Mnemonic::NOP, AddrMode::IMP, 2);
        self.create_opcode(Mnemonic::SBC, AddrMode::IMM, 2);
        self.create_opcode(Mnemonic::CPX, AddrMode::ABS, 4);
        self.create_opcode(Mnemonic::SBC, AddrMode::ABS, 4);
        self.create_opcode(Mnemonic::INC, AddrMode::ABS, 6);
        self.create_opcode(Mnemonic::ISC, AddrMode::ABS, 6);
        self.create_opcode(Mnemonic::BEQ, AddrMode::REL, 2);
        self.create_opcode(Mnemonic::SBC, AddrMode::IZYR, 5);
        self.create_opcode(Mnemonic::KIL, AddrMode::IMP, 2);
        self.create_opcode(Mnemonic::ISC, AddrMode::IZY, 8);
        self.create_opcode(Mnemonic::NOP, AddrMode::ZPX, 4);
        self.create_opcode(Mnemonic::SBC, AddrMode::ZPX, 4);
        self.create_opcode(Mnemonic::INC, AddrMode::ZPX, 6);
        self.create_opcode(Mnemonic::ISC, AddrMode::ZPX, 6);
        self.create_opcode(Mnemonic::SED, AddrMode::IMP, 2);
        self.create_opcode(Mnemonic::SBC, AddrMode::ABYR, 4);
        self.create_opcode(Mnemonic::NOP, AddrMode::IMP, 2);
        self.create_opcode(Mnemonic::ISC, AddrMode::ABY, 7);
        self.create_opcode(Mnemonic::NOP, AddrMode::ABXR, 4);
        self.create_opcode(Mnemonic::SBC, AddrMode::ABXR, 4);
        self.create_opcode(Mnemonic::INC, AddrMode::ABX, 7);
        self.create_opcode(Mnemonic::ISC, AddrMode::ABX, 7);
        self.create_opcode(Mnemonic::NMI, AddrMode::NMI, 0);
        self.create_opcode(Mnemonic::IRQ, AddrMode::IRQ, 0);
        proof {
            reveal(opcode_spec);
            assert(self.opcodes@[215] == opcode_spec(215));
            assert(self.opcodes@[216] == opcode_spec(216));
            assert(self.opcodes@[217] == opcode_spec(217));
            assert(self.opcodes@[218] == opcode_spec(218));
            assert(self.opcodes@[219] == opcode_spec(219));
            assert(self.opcodes@[220] == opcode_spec(220));
            assert(self.opcodes@[221] == opcode_spec(221));
            assert(self.opcodes@[222] == opcode_spec(222));
            assert(self.opcodes@[223] == opcode_spec(223));
            assert(self.opcodes@[224] == opcode_spec(224));
            assert(self.opcodes@[225] == opcode_spec(225));
            assert(self.opcodes@[226] == opcode_spec(226));
            assert(self.opcodes@[227] == opcode_spec(227));
            assert(self.opcodes@[228] == opcode_spec(228));
            assert(self.opcodes@[229] == opcode_spec(229));
            assert(self.opcodes@[230] == opcode_spec(230));
            assert(self.opcodes@[231] == opcode_spec(231));
            assert(self.opcodes@[232] == opcode_spec(232));
            assert(self.opcodes@[233] == opcode_spec(233));
            assert(self.opcodes@[234] == opcode_spec(234));
            assert(self.opcodes@[235] == opcode_spec(235));
            assert(self.opcodes@[236] == opcode_spec(236));
            assert(self.opcodes@[237] == opcode_spec(237));
            assert(self.opcodes@[238] == opcode_spec(238));
            assert(self.opcodes@[239] == opcode_spec(239));
            assert(self.opcodes@[240] == opcode_spec(240));
            assert(self.opcodes@[241] == opcode_spec(241));
            assert(self.opcodes@[242] == opcode_spec(242));
            assert(self.opcodes@[243] == opcode_spec(243));
            assert(self.opcodes@[244] == opcode_spec(244));
            assert(self.opcodes@[245] == opcode_spec(245));
            assert(self.opcodes@[246] == opcode_spec(246));
            assert(self.opcodes@[247] == opcode_spec(247));
            assert(self.opcodes@[248] == opcode_spec(248));
            assert(self.opcodes@[249] == opcode_spec(249));
            assert(self.opcodes@[250] == opcode_spec(250));
            assert(self.opcodes@[251] == opcode_spec(251));
            assert(self.opcodes@[252] == opcode_spec(252));
            assert(self.opcodes@[253] == opcode_spec(253));
            assert(self.opcodes@[254] == opcode_spec(254));
            assert(self.opcodes@[255] == opcode_spec(255));
            assert(self.opcodes@[256] == opcode_spec(256));
            assert(self.opcodes@[257] == opcode_spec(257));
        }
    }

    /// Resolves the effective address for an addressing mode, consuming
    /// operand bytes and charging any page-cross penalty.
    pub(crate) fn get_addr(&mut self, mode: AddrMode) -> (r: u16)
        requires
            old(self).wf(),
            old(self)@.cpuclock <= CLOCK_CAP,
        ensures
            (r, final(self)@) == addr_spec(old(self)@, mode),
            final(self).wf(),
            final(self).opcodes == old(self).opcodes,
            final(self)@.cpuclock <= old(self)@.cpuclock + 1,
            final(self)@.totalcycle == old(self)@.totalcycle,
            final(self)@.steps == old(self)@.steps,
{
        proof {
            reveal(addr_spec);
        }
        match mode {
            AddrMode::IMP => self.addr_imp(),
            AddrMode::IMM => self.addr_imm(),
            AddrMode::ZP => self.addr_zp(),
            AddrMode::ZPX => self.addr_zpx(),
            AddrMode::ZPY => self.addr_zpy(),
            AddrMode::IZX => self.addr_izx(),
            AddrMode::IZY => self.addr_izy(),
            AddrMode::IZYR => self.addr_izyr(),
            AddrMode::ABS => self.addr_abs(),
            AddrMode::ABX => self.addr_abx(),
            AddrMode::ABXR => self.addr_abxr(),
            AddrMode::ABY => self.addr_aby(),
            AddrMode::ABYR => self.addr_abyr(),
            AddrMode::IND => self.addr_ind(),
            AddrMode::REL => self.addr_rel(),
            AddrMode::NMI => self.addr_nmi(),
            AddrMode::IRQ => self.addr_irq(),
        }
    }

    pub(crate) fn addr_imp(&mut self) -> (r: u16)
        requires
            old(self).wf(),
            old(self)@.cpuclock <= CLOCK_CAP,
        ensures
            (r, final(self)@) == addr_spec(old(self)@, AddrMode::IMP),
            final(self).wf(),
            final(self).opcodes == old(self).opcodes,
            final(self)@.cpuclock <= old(self)@.cpuclock + 1,
{
                proof {
                    reveal(addr_spec);
                }
                0
    }

    pub(crate) fn addr_imm(&mut self) -> (r: u16)
        requires
            old(self).wf(),
            old(self)@.cpuclock <= CLOCK_CAP,
        ensures
            (r, final(self)@) == addr_spec(old(self)@, AddrMode::IMM),
            final(self).wf(),
            final(self).opcodes == old(self).opcodes,
            final(self)@.cpuclock <= old(self)@.cpuclock + 1,
{
                proof {
                    reveal(addr_spec);
                }
                self.post_incpc()
    }

    pub(crate) fn addr_zp(&mut self) -> (r: u16)
        requires
            old(self).wf(),
            old(self)@.cpuclock <= CLOCK_CAP,
        ensures
            (r, final(self)@) == addr_spec(old(self)@, AddrMode::ZP),
            final(self).wf(),
            final(self).opcodes == old(self).opcodes,
            final(self)@.cpuclock <= old(self)@.cpuclock + 1,
{
                proof {
                    reveal(addr_spec);
                }
                let adr: u16 = self.post_incpc();
                self.mem.get(adr) as u16
    }

    pub(crate) fn addr_zpx(&mut self) -> (r: u16)
        requires
            old(self).wf(),
            old(self)@.cpuclock <= CLOCK_CAP,
        ensures
            (r, final(self)@) == addr_spec(old(self)@, AddrMode::ZPX),
            final(self).wf(),
            final(self).opcodes == old(self).opcodes,
            final(self)@.cpuclock <= old(self)@.cpuclock + 1,
{
                proof {
                    reveal(addr_spec);
                }
                let adr: u16 = self.post_incpc();
                let v: u8 = self.mem.get(adr);
                ((v as u16 + self.x as u16) & 0xff) as u16
    }

    pub(crate) fn addr_zpy(&mut self) -> (r: u16)
        requires
            old(self).wf(),
            old(self)@.cpuclock <= CLOCK_CAP,
        ensures
            (r, final(self)@) == addr_spec(old(self)@, AddrMode::ZPY),
            final(self).wf(),
            final(self).opcodes == old(self).opcodes,
            final(self)@.cpuclock <= old(self)@.cpuclock + 1,
{
                proof {
                    reveal(addr_spec);
                }
                let adr: u16 = self.post_incpc();
                let v: u8 = self.mem.get(adr);
                ((v as u16 + self.y as u16) & 0xff) as u16
    }

    pub(crate) fn addr_izx(&mut self) -> (r: u16)
        requires
            old(self).wf(),
            old(self)@.cpuclock <= CLOCK_CAP,
        ensures
            (r, final(self)@) == addr_spec(old(self)@, AddrMode::IZX),
            final(self).wf(),
            final(self).opcodes == old(self).opcodes,
            final(self)@.cpuclock <= old(self)@.cpuclock + 1,
{
                proof {
                    reveal(addr_spec);
                }
                let pcadr: u16 = self.post_incpc();
                let mdata: u8 = self.mem.get(pcadr);
                proof {
                    crate::bits::lemma_u16_and_le((mdata as u16 + self.x as u16) as u16, 0xff);
                }
                let adr: u16 = ((mdata as u16 + self.x as u16) & 0xff) as u16;
                let hi: u8 = self.mem.get((adr + 1) & 0xff);
                let lo: u8 = self.mem.get(adr);
                (lo as u16) | ((hi as u16) << 8)
    }

    pub(crate) fn addr_izy(&mut self) -> (r: u16)
        requires
            old(self).wf(),
            old(self)@.cpuclock <= CLOCK_CAP,
        ensures
            (r, final(self)@) == addr_spec(old(self)@, AddrMode::IZY),
            final(self).wf(),
            final(self).opcodes == old(self).opcodes,
            final(self)@.cpuclock <= old(self)@.cpuclock + 1,
{
                proof {
                    reveal(addr_spec);
                }
                let pcadr: u16 = self.post_incpc();
                let adr: u16 = self.mem.get(pcadr) as u16;
                let hi: u8 = self.mem.get((adr + 1) & 0xff);
                let lo: u8 = self.mem.get(adr);
                let radr: u16 = (lo as u16) | ((hi as u16) << 8);
                (((radr as u32) + (self.y as u32)) & 0xffff) as u16
    }

    #[verifier::rlimit(60)]
    pub(crate) fn addr_izyr(&mut self) -> (r: u16)
        requires
            old(self).wf(),
            old(self)@.cpuclock <= CLOCK_CAP,
        ensures
            (r, final(self)@) == addr_spec(old(self)@, AddrMode::IZYR),
            final(self).wf(),
            final(self).opcodes == old(self).opcodes,
            final(self)@.cpuclock <= old(self)@.cpuclock + 1,
{
                proof {
                    reveal(addr_spec);
                }
                let pcadr: u16 = self.post_incpc();
                let adr: u16 = self.mem.get(pcadr) as u16;
                let hi: u8 = self.mem.get((adr + 1) & 0xff);
                let lo: u8 = self.mem.get(adr);
                let radr: u16 = (lo as u16) | ((hi as u16) << 8);
                let dest: u16 = (((radr as u32) + (self.y as u32)) & 0xffff) as u16;
                if radr >> 8 != dest >> 8 {
                    self.cpuclock = self.cpuclock + 1;
                }
                dest
    }

    pub(crate) fn addr_abs(&mut self) -> (r: u16)
        requires
            old(self).wf(),
            old(self)@.cpuclock <= CLOCK_CAP,
        ensures
            (r, final(self)@) == addr_spec(old(self)@, AddrMode::ABS),
            final(self).wf(),
            final(self).opcodes == old(self).opcodes,
            final(self)@.cpuclock <= old(self)@.cpuclock + 1,
{
                proof {
                    reveal(addr_spec);
                }
                let a1: u16 = self.post_incpc();
                let lo: u8 = self.mem.get(a1);
                let a2: u16 = self.post_incpc();
                let hi: u8 = self.mem.get(a2);
                (lo as u16) | ((hi as u16) << 8)
    }

    pub(crate) fn addr_abx(&mut self) -> (r: u16)
        requires
            old(self).wf(),
            old(self)@.cpuclock <= CLOCK_CAP,
        ensures
            (r, final(self)@) == addr_spec(old(self)@, AddrMode::ABX),
            final(self).wf(),
            final(self).opcodes == old(self).opcodes,
            final(self)@.cpuclock <= old(self)@.cpuclock + 1,
{
                proof {
                    reveal(addr_spec);
                }
                let a1: u16 = self.post_incpc();
                let lo: u8 = self.mem.get(a1);
                let a2: u16 = self.post_incpc();
                let hi: u8 = self.mem.get(a2);
                let base: u16 = (lo as u16) | ((hi as u16) << 8);
                (((base as u32) + (self.x as u32)) & 0xffff) as u16
    }

    #[verifier::rlimit(60)]
    pub(crate) fn addr_abxr(&mut self) -> (r: u16)
        requires
            old(self).wf(),
            old(self)@.cpuclock <= CLOCK_CAP,
        ensures
            (r, final(self)@) == addr_spec(old(self)@, AddrMode::ABXR),
            final(self).wf(),
            final(self).opcodes == old(self).opcodes,
            final(self)@.cpuclock <= old(self)@.cpuclock + 1,
{
                proof {
                    reveal(addr_spec);
                }
                let a1: u16 = self.post_incpc();
                let lo: u8 = self.mem.get(a1);
                let a2: u16 = self.post_incpc();
                let hi: u8 = self.mem.get(a2);
                let base: u16 = (lo as u16) | ((hi as u16) << 8);
                let dest: u16 = (((base as u32) + (self.x as u32)) & 0xffff) as u16;
                if base >> 8 != dest >> 8 {
                    self.cpuclock = self.cpuclock + 1;
                }
                dest
    }

    pub(crate) fn addr_aby(&mut self) -> (r: u16)
        requires
            old(self).wf(),
            old(self)@.cpuclock <= CLOCK_CAP,
        ensures
            (r, final(self)@) == addr_spec(old(self)@, AddrMode::ABY),
            final(self).wf(),
            final(self).opcodes == old(self).opcodes,
            final(self)@.cpuclock <= old(self)@.cpuclock + 1,
{
                proof {
                    reveal(addr_spec);
                }
                let a1: u16 = self.post_incpc();
                let lo: u8 = self.mem.get(a1);
                let a2: u16 = self.post_incpc();
                let hi: u8 = self.mem.get(a2);
                let base: u16 = (lo as u16) | ((hi as u16) << 8);
                (((base as u32) + (self.y as u32)) & 0xffff) as u16
    }

    #[verifier::rlimit(60)]
    pub(crate) fn addr_abyr(&mut self) -> (r: u16)
        requires
            old(self).wf(),
            old(self)@.cpuclock <= CLOCK_CAP,
        ensures
            (r, final(self)@) == addr_spec(old(self)@, AddrMode::ABYR),
            final(self).wf(),
            final(self).opcodes == old(self).opcodes,
            final(self)@.cpuclock <= old(self)@.cpuclock + 1,
{
                proof {
                    reveal(addr_spec);
                }
                let a1: u16 = self.post_incpc();
                let lo: u8 = self.mem.get(a1);
                let a2: u16 = self.post_incpc();
                let hi: u8 = self.mem.get(a2);
                let base: u16 = (lo as u16) | ((hi as u16) << 8);
                let dest: u16 = (((base as u32) + (self.y as u32)) & 0xffff) as u16;
                if base >> 8 != dest >> 8 {
                    self.cpuclock = self.cpuclock + 1;
                }
                dest
    }

    pub(crate) fn addr_ind(&mut self) -> (r: u16)
        requires
            old(self).wf(),
            old(self)@.cpuclock <= CLOCK_CAP,
        ensures
            (r, final(self)@) == addr_spec(old(self)@, AddrMode::IND),
            final(self).wf(),
            final(self).opcodes == old(self).opcodes,
            final(self)@.cpuclock <= old(self)@.cpuclock + 1,
{
                proof {
                    reveal(addr_spec);
                }
                let a1: u16 = self.post_incpc();
                let lo: u8 = self.mem.get(a1);
                let a2: u16 = self.post_incpc();
                let hi: u8 = self.mem.get(a2);
                let l2: u8 = self.mem.get((lo as u16) | ((hi as u16) << 8));
                let h2: u8 = self.mem.get((((lo as u16) + 1) & 0xff) | ((hi as u16) << 8));
                (l2 as u16) | ((h2 as u16) << 8)
    }

    pub(crate) fn addr_rel(&mut self) -> (r: u16)
        requires
            old(self).wf(),
            old(self)@.cpuclock <= CLOCK_CAP,
        ensures
            (r, final(self)@) == addr_spec(old(self)@, AddrMode::REL),
            final(self).wf(),
            final(self).opcodes == old(self).opcodes,
            final(self)@.cpuclock <= old(self)@.cpuclock + 1,
{
                proof {
                    reveal(addr_spec);
                }
                let adr: u16 = self.post_incpc();
                self.mem.get(adr) as u16
    }

    pub(crate) fn addr_nmi(&mut self) -> (r: u16)
        requires
            old(self).wf(),
            old(self)@.cpuclock <= CLOCK_CAP,
        ensures
            (r, final(self)@) == addr_spec(old(self)@, AddrMode::NMI),
            final(self).wf(),
            final(self).opcodes == old(self).opcodes,
            final(self)@.cpuclock <= old(self)@.cpuclock + 1,
{
                proof {
                    reveal(addr_spec);
                }
                0
    }

    pub(crate) fn addr_irq(&mut self) -> (r: u16)
        requires
            old(self).wf(),
            old(self)@.cpuclock <= CLOCK_CAP,
        ensures
            (r, final(self)@) == addr_spec(old(self)@, AddrMode::IRQ),
            final(self).wf(),
            final(self).opcodes == old(self).opcodes,
            final(self)@.cpuclock <= old(self)@.cpuclock + 1,
{
                proof {
                    reveal(addr_spec);
                }
                0
    }
}

/// An 8-bit decrement with wraparound.
pub open spec fn dec8(v: u8) -> u8 {
    if v == 0 {
        0xffu8
    } else {
        (v - 1) as u8
    }
}

/// An 8-bit increment with wraparound.
pub open spec fn inc8(v: u8) -> u8 {
    if v == 0xff {
        0u8
    } else {
        (v + 1) as u8
    }
}

/// Add-with-carry into the accumulator: the standard two's-complement
/// carry and signed-overflow rules. Subtraction passes the operand's
/// one's-complement.
pub open spec fn adc_spec(m: CpuModel, value: u8) -> CpuModel {
    let result = (((m.a as u16) + (value as u16) + (if m.carry {
        1u16
    } else {
        0u16
    })) as u16) as u16;
    let resb = (result & 0xff) as u8;
    set_zn(
        CpuModel {
            a: resb,
            carry: result > 0xff,
            overflow: (m.a & 0x80) == (value & 0x80) && (value & 0x80) != (resb & 0x80),
            ..m
        },
        resb,
    )
}

/// A register compare: carry set when the register is at least the
/// operand, zero and negative from the difference byte. Registers are
/// left alone.
pub open spec fn cmp_spec(m: CpuModel, reg: u8, v: u8) -> CpuModel {
    let result = (((reg as u16) + ((v ^ 0xff) as u16) + 1) as u16) as u16;
    set_zn(CpuModel { carry: result > 0xff, ..m }, (result & 0xff) as u8)
}

/// The hardware interrupt sequence: push the program counter and the
/// status byte with the break bit clear, set interrupt-disable, and load
/// the handler address from `vector`.
pub open spec fn interrupt_spec(m: CpuModel, vector: u16) -> CpuModel {
    let m1 = push_spec(m, ((m.pc >> 8u16) & 0xff) as u8);
    let m2 = push_spec(m1, (m.pc & 0xff) as u8);
    let m3 = push_spec(m2, pack_p(m2, false));
    let m4 = CpuModel { interrupt: true, ..m3 };
    let rl = mread(m4, vector);
    let rh = mread(rl.1, (vector + 1) as u16);
    CpuModel { pc: ((rl.0 as u16) | ((rh.0 as u16) << 8u16)) as u16, ..rh.1 }
}

/// The loads, stores, bitwise logic, bit test and inert encodings.
#[verifier::opaque]
pub open spec fn instr_load_spec(m: CpuModel, op: Mnemonic, addr: u16) -> CpuModel {
    match op {
        Mnemonic::ORA => {
            let r = mread(m, addr);
            let a = m.a | r.0;
            set_zn(CpuModel { a: a, ..r.1 }, a)
        },
        Mnemonic::AND => {
            let r = mread(m, addr);
            let a = m.a & r.0;
            set_zn(CpuModel { a: a, ..r.1 }, a)
        },
        Mnemonic::EOR => {
            let r = mread(m, addr);
            let a = m.a ^ r.0;
            set_zn(CpuModel { a: a, ..r.1 }, a)
        },
        Mnemonic::LDA => {
            let r = mread(m, addr);
            set_zn(CpuModel { a: r.0, ..r.1 }, r.0)
        },
        Mnemonic::LDX => {
            let r = mread(m, addr);
            set_zn(CpuModel { x: r.0, ..r.1 }, r.0)
        },
        Mnemonic::LDY => {
            let r = mread(m, addr);
            set_zn(CpuModel { y: r.0, ..r.1 }, r.0)
        },
        Mnemonic::STA => mwrite(m, addr, m.a),
        Mnemonic::STX => mwrite(m, addr, m.x),
        Mnemonic::STY => mwrite(m, addr, m.y),
        Mnemonic::LAX => {
            let r = mread(m, addr);
            set_zn(CpuModel { a: r.0, x: r.0, ..r.1 }, r.0)
        },
        Mnemonic::SAX => mwrite(m, addr, m.a & m.x),
        Mnemonic::BIT => {
            let r = mread(m, addr);
            CpuModel {
                negative: (r.0 & 0x80) > 0,
                overflow: (r.0 & 0x40) > 0,
                zero: (m.a & r.0) == 0,
                ..r.1
            }
        },
        Mnemonic::NOP => m,
        Mnemonic::UNI => m,
        Mnemonic::KIL => CpuModel { pc: pc_dec(m.pc), ..m },
        _ => m,
    }
}

/// The add, subtract, compare, increment and decrement family.
#[verifier::opaque]
pub open spec fn instr_arith_spec(m: CpuModel, op: Mnemonic, addr: u16) -> CpuModel {
    match op {
        Mnemonic::ADC => {
            let r = mread(m, addr);
            adc_spec(r.1, r.0)
        },
        Mnemonic::SBC => {
            let r = mread(m, addr);
            adc_spec(r.1, r.0 ^ 0xff)
        },
        Mnemonic::CMP => {
            let r = mread(m, addr);
            cmp_spec(r.1, m.a, r.0)
        },
        Mnemonic::CPX => {
            let r = mread(m, addr);
            cmp_spec(r.1, m.x, r.0)
        },
        Mnemonic::CPY => {
            let r = mread(m, addr);
            cmp_spec(r.1, m.y, r.0)
        },
        Mnemonic::DEC => {
            let r = mread(m, addr);
            let d = dec8(r.0);
            mwrite(set_zn(r.1, d), addr, d)
        },
        Mnemonic::DEX => set_zn(CpuModel { x: dec8(m.x), ..m }, dec8(m.x)),
        Mnemonic::DEY => set_zn(CpuModel { y: dec8(m.y), ..m }, dec8(m.y)),
        Mnemonic::INC => {
            let r = mread(m, addr);
            let d = inc8(r.0);
            mwrite(set_zn(r.1, d), addr, d)
        },
        Mnemonic::INX => set_zn(CpuModel { x: inc8(m.x), ..m }, inc8(m.x)),
        Mnemonic::INY => set_zn(CpuModel { y: inc8(m.y), ..m }, inc8(m.y)),
        Mnemonic::AXS => {
            let r = mread(m, addr);
            let result = ((((m.a & m.x) as u16) + ((r.0 ^ 0xff) as u16) + 1) as u16) as u16;
            let resb = (result & 0xff) as u8;
            set_zn(CpuModel { carry: result > 0xff, x: resb, ..r.1 }, resb)
        },
        _ => m,
    }
}

/// The shift and rotate family.
#[verifier::opaque]
pub open spec fn instr_shift_spec(m: CpuModel, op: Mnemonic, addr: u16) -> CpuModel {
    match op {
        Mnemonic::ASLA => {
            let result = (((m.a as u16) << 1u16)) as u16;
            let resb = (result & 0xff) as u8;
            set_zn(CpuModel { a: resb, carry: result > 0xff, ..m }, resb)
        },
        Mnemonic::ASL => {
            let r = mread(m, addr);
            let result = (((r.0 as u16) << 1u16)) as u16;
            let resb = (result & 0xff) as u8;
            mwrite(set_zn(CpuModel { carry: result > 0xff, ..r.1 }, resb), addr, resb)
        },
        Mnemonic::ROLA => {
            let result = ((((m.a as u16) << 1u16)) | (if m.carry {
                1u16
            } else {
                0u16
            })) as u16;
            let resb = (result & 0xff) as u8;
            set_zn(CpuModel { a: resb, carry: result > 0xff, ..m }, resb)
        },
        Mnemonic::ROL => {
            let r = mread(m, addr);
            let result = ((((r.0 as u16) << 1u16)) | (if m.carry {
                1u16
            } else {
                0u16
            })) as u16;
            let resb = (result & 0xff) as u8;
            mwrite(set_zn(CpuModel { carry: result > 0xff, ..r.1 }, resb), addr, resb)
        },
        Mnemonic::LSRA => {
            let resb = (m.a >> 1u8) as u8;
            set_zn(CpuModel { a: resb, carry: (m.a & 1) > 0, ..m }, resb)
        },
        Mnemonic::LSR => {
            let r = mread(m, addr);
            let resb = (r.0 >> 1u8) as u8;
            mwrite(set_zn(CpuModel { carry: (r.0 & 1) > 0, ..r.1 }, resb), addr, resb)
        },
        Mnemonic::RORA => {
            let resb = ((m.a >> 1u8) | (if m.carry {
                0x80u8
            } else {
                0u8
            })) as u8;
            set_zn(CpuModel { a: resb, carry: (m.a & 1) > 0, ..m }, resb)
        },
        Mnemonic::ROR => {
            let r = mread(m, addr);
            let resb = ((r.0 >> 1u8) | (if m.carry {
                0x80u8
            } else {
                0u8
            })) as u8;
            mwrite(set_zn(CpuModel { carry: (r.0 & 1) > 0, ..r.1 }, resb), addr, resb)
        },
        _ => m,
    }
}

/// The undocumented combined read-modify-write and immediate forms.
#[verifier::opaque]
pub open spec fn instr_undoc_spec(m: CpuModel, op: Mnemonic, addr: u16) -> CpuModel {
    match op {
        Mnemonic::SLO => {
            let r = mread(m, addr);
            let result = (((r.0 as u16) << 1u16)) as u16;
            let resb = (result & 0xff) as u8;
            let m1 = mwrite(CpuModel { carry: result > 0xff, ..r.1 }, addr, resb);
            let a2 = m.a | resb;
            set_zn(CpuModel { a: a2, ..m1 }, a2)
        },
        Mnemonic::RLA => {
            let r = mread(m, addr);
            let result = ((((r.0 as u16) << 1u16)) | (if m.carry {
                1u16
            } else {
                0u16
            })) as u16;
            let resb = (result & 0xff) as u8;
            let m1 = mwrite(CpuModel { carry: result > 0xff, ..r.1 }, addr, resb);
            let a2 = m.a & resb;
            set_zn(CpuModel { a: a2, ..m1 }, a2)
        },
        Mnemonic::SRE => {
            let r = mread(m, addr);
            let resb = (r.0 >> 1u8) as u8;
            let m1 = mwrite(CpuModel { carry: (r.0 & 1) > 0, ..r.1 }, addr, resb);
            let a2 = m.a ^ resb;
            set_zn(CpuModel { a: a2, ..m1 }, a2)
        },
        Mnemonic::RRA => {
            let r = mread(m, addr);
            let cb = (r.0 & 1) as u8;
            let resb = ((r.0 >> 1u8) | (if m.carry {
                0x80u8
            } else {
                0u8
            })) as u8;
            let m1 = mwrite(r.1, addr, resb);
            let data = (((m.a as u16) + (resb as u16) + (cb as u16)) as u16) as u16;
            let db = (data & 0xff) as u8;
            set_zn(
                CpuModel {
                    a: db,
                    carry: data > 0xff,
                    overflow: (m.a & 0x80) == (resb & 0x80) && (resb & 0x80) != (db & 0x80),
                    ..m1
                },
                db,
            )
        },
        Mnemonic::DCP => {
            let r = mread(m, addr);
            let d = dec8(r.0);
            let m1 = mwrite(r.1, addr, d);
            cmp_spec(m1, m.a, d)
        },
        Mnemonic::ISC => {
            let r = mread(m, addr);
            let d = inc8(r.0);
            let m1 = mwrite(r.1, addr, d);
            adc_spec(m1, d ^ 0xff)
        },
        Mnemonic::ANC => {
            let r = mread(m, addr);
            let a2 = m.a & r.0;
            let m1 = set_zn(CpuModel { a: a2, ..r.1 }, a2);
            CpuModel { carry: m1.negative, ..m1 }
        },
        Mnemonic::ALR => {
            let r = mread(m, addr);
            let a2 = m.a & r.0;
            let resb = (a2 >> 1u8) as u8;
            set_zn(CpuModel { a: resb, carry: (a2 & 1) > 0, ..r.1 }, resb)
        },
        Mnemonic::ARR => {
            let r = mread(m, addr);
            let a2 = m.a & r.0;
            let resb = ((a2 >> 1u8) | (if m.carry {
                0x80u8
            } else {
                0u8
            })) as u8;
            set_zn(
                CpuModel {
                    a: resb,
                    carry: (resb & 0x40) > 0,
                    overflow: ((resb & 0x40) ^ ((resb & 0x20) << 1u8)) > 0,
                    ..r.1
                },
                resb,
            )
        },
        _ => m,
    }
}

/// The stack, jump, subroutine and interrupt sequences.
#[verifier::opaque]
pub open spec fn instr_stack_spec(m: CpuModel, op: Mnemonic, addr: u16) -> CpuModel {
    match op {
        Mnemonic::PLA => {
            let r = pull_spec(m);
            set_zn(CpuModel { a: r.0, ..r.1 }, r.0)
        },
        Mnemonic::PHA => push_spec(m, m.a),
        Mnemonic::PLP => {
            let r = pull_spec(m);
            unpack_p(r.1, r.0)
        },
        Mnemonic::PHP => push_spec(m, pack_p(m, true)),
        Mnemonic::BRK => {
            let pushpc = pc_inc(m.pc);
            let m1 = push_spec(m, ((pushpc >> 8u16) & 0xff) as u8);
            let m2 = push_spec(m1, (pushpc & 0xff) as u8);
            let m3 = push_spec(m2, pack_p(m2, true));
            let m4 = CpuModel { interrupt: true, ..m3 };
            let rl = mread(m4, 0xfffe);
            let rh = mread(rl.1, 0xffff);
            CpuModel { pc: ((rl.0 as u16) | ((rh.0 as u16) << 8u16)) as u16, ..rh.1 }
        },
        Mnemonic::RTI => {
            let rp = pull_spec(m);
            let m1 = unpack_p(rp.1, rp.0);
            let rl = pull_spec(m1);
            let rh = pull_spec(rl.1);
            CpuModel { pc: ((rl.0 as u16) | ((rh.0 as u16) << 8u16)) as u16, ..rh.1 }
        },
        Mnemonic::JSR => {
            let pushpc = pc_dec(m.pc);
            let m1 = push_spec(m, ((pushpc >> 8u16) & 0xff) as u8);
            let m2 = push_spec(m1, (pushpc & 0xff) as u8);
            CpuModel { pc: addr, ..m2 }
        },
        Mnemonic::RTS => {
            let rl = pull_spec(m);
            let rh = pull_spec(rl.1);
            let pp = ((rl.0 as u16) | ((rh.0 as u16) << 8u16)) as u16;
            CpuModel { pc: pc_inc(pp), ..rh.1 }
        },
        Mnemonic::JMP => CpuModel { pc: addr, ..m },
        Mnemonic::NMI => interrupt_spec(m, 0xfffa),
        Mnemonic::IRQ => interrupt_spec(m, 0xfffe),
        _ => m,
    }
}

/// The branches, flag sets and clears, and register transfers.
#[verifier::opaque]
pub open spec fn instr_branch_spec(m: CpuModel, op: Mnemonic, addr: u16) -> CpuModel {
    match op {
        Mnemonic::BPL => branch_spec(m, !m.negative, addr),
        Mnemonic::BMI => branch_spec(m, m.negative, addr),
        Mnemonic::BVC => branch_spec(m, !m.overflow, addr),
        Mnemonic::BVS => branch_spec(m, m.overflow, addr),
        Mnemonic::BCC => branch_spec(m, !m.carry, addr),
        Mnemonic::BCS => branch_spec(m, m.carry, addr),
        Mnemonic::BNE => branch_spec(m, !m.zero, addr),
        Mnemonic::BEQ => branch_spec(m, m.zero, addr),
        Mnemonic::CLC => CpuModel { carry: false, ..m },
        Mnemonic::SEC => CpuModel { carry: true, ..m },
        Mnemonic::CLD => CpuModel { decimal: false, ..m },
        Mnemonic::SED => CpuModel { decimal: true, ..m },
        Mnemonic::CLI => CpuModel { interrupt: false, ..m },
        Mnemonic::SEI => CpuModel { interrupt: true, ..m },
        Mnemonic::CLV => CpuModel { overflow: false, ..m },
        Mnemonic::TAX => set_zn(CpuModel { x: m.a, ..m }, m.a),
        Mnemonic::TXA => set_zn(CpuModel { a: m.x, ..m }, m.x),
        Mnemonic::TAY => set_zn(CpuModel { y: m.a, ..m }, m.a),
        Mnemonic::TYA => set_zn(CpuModel { a: m.y, ..m }, m.y),
        Mnemonic::TSX => set_zn(CpuModel { x: m.sp, ..m }, m.sp),
        Mnemonic::TXS => CpuModel { sp: m.x, ..m },
        _ => m,
    }
}

/// What one instruction body does to the machine: the documented (and
/// undocumented) register, flag, stack and bus effects of each mnemonic,
/// `addr` being the effective address its addressing mode resolved.
#[verifier::opaque]
pub open spec fn instr_spec(m: CpuModel, op: Mnemonic, addr: u16) -> CpuModel {
    match op {
        Mnemonic::ORA | Mnemonic::AND | Mnemonic::EOR | Mnemonic::LDA | Mnemonic::LDX | Mnemonic::LDY | Mnemonic::STA | Mnemonic::STX | Mnemonic::STY | Mnemonic::LAX | Mnemonic::SAX | Mnemonic::BIT | Mnemonic::NOP | Mnemonic::UNI | Mnemonic::KIL => instr_load_spec(m, op, addr),
        Mnemonic::ADC | Mnemonic::SBC | Mnemonic::CMP | Mnemonic::CPX | Mnemonic::CPY | Mnemonic::DEC | Mnemonic::DEX | Mnemonic::DEY | Mnemonic::INC | Mnemonic::INX | Mnemonic::INY | Mnemonic::AXS => instr_arith_spec(m, op, addr),
        Mnemonic::ASLA | Mnemonic::ASL | Mnemonic::ROLA | Mnemonic::ROL | Mnemonic::LSRA | Mnemonic::LSR | Mnemonic::RORA | Mnemonic::ROR => instr_shift_spec(m, op, addr),
        Mnemonic::SLO | Mnemonic::RLA | Mnemonic::SRE | Mnemonic::RRA | Mnemonic::DCP | Mnemonic::ISC | Mnemonic::ANC | Mnemonic::ALR | Mnemonic::ARR => instr_undoc_spec(m, op, addr),
        Mnemonic::PLA | Mnemonic::PHA | Mnemonic::PLP | Mnemonic::PHP | Mnemonic::BRK | Mnemonic::RTI | Mnemonic::JSR | Mnemonic::RTS | Mnemonic::JMP | Mnemonic::NMI | Mnemonic::IRQ => instr_stack_spec(m, op, addr),
        Mnemonic::BPL | Mnemonic::BMI | Mnemonic::BVC | Mnemonic::BVS | Mnemonic::BCC | Mnemonic::BCS | Mnemonic::BNE | Mnemonic::BEQ | Mnemonic::CLC | Mnemonic::SEC | Mnemonic::CLD | Mnemonic::SED | Mnemonic::CLI | Mnemonic::SEI | Mnemonic::CLV | Mnemonic::TAX | Mnemonic::TXA | Mnemonic::TAY | Mnemonic::TYA | Mnemonic::TSX | Mnemonic::TXS => instr_branch_spec(m, op, addr),
    }
}


impl Cpu {
    /// A stack push: the byte lands in page one at the stack pointer,
    /// which then moves down with wraparound.
    pub(crate) fn push8(&mut self, v: u8)
        requires
            old(self).wf(),
        ensures
            final(self).wf(),
            final(self)@ == push_spec(old(self)@, v),
            final(self).opcodes == old(self).opcodes,
    {
        let sp: u8 = self.post_decsp();
        self.mem.set(0x100u16 + sp as u16, v);
    }

    /// A stack pull: the stack pointer moves up with wraparound, then the
    /// byte under it is read.
    pub(crate) fn pull8(&mut self) -> (r: u8)
        requires
            old(self).wf(),
        ensures
            final(self).wf(),
            (r, final(self)@) == pull_spec(old(self)@),
            final(self).opcodes == old(self).opcodes,
    {
        let sp: u8 = self.pre_incsp();
        self.mem.get(0x100u16 + sp as u16)
    }

    /// Loads, stores, bitwise logic, the bit test and the inert
    /// encodings.
    #[verifier::rlimit(100)]
    pub(crate) fn exe_load(&mut self, op: Mnemonic, addr: u16)
        requires
            old(self).wf(),
            op == Mnemonic::ORA || op == Mnemonic::AND || op == Mnemonic::EOR || op
                == Mnemonic::LDA || op == Mnemonic::LDX || op == Mnemonic::LDY || op
                == Mnemonic::STA || op == Mnemonic::STX || op == Mnemonic::STY || op
                == Mnemonic::LAX || op == Mnemonic::SAX || op == Mnemonic::BIT || op
                == Mnemonic::NOP || op == Mnemonic::UNI || op == Mnemonic::KIL,
        ensures
            final(self).wf(),
            final(self)@ == instr_load_spec(old(self)@, op, addr),
            final(self).opcodes == old(self).opcodes,
            final(self)@.cpuclock == old(self)@.cpuclock,
            final(self)@.totalcycle == old(self)@.totalcycle,
            final(self)@.steps == old(self)@.steps,
    {
        proof {
            reveal(instr_load_spec);
        }
        match op {
            Mnemonic::ORA => {
                let v: u8 = self.mem.get(addr);
                let a: u8 = self.a | v;
                self.a = a;
                self.set_zero_and_ng(a);
            },
            Mnemonic::AND => {
                let v: u8 = self.mem.get(addr);
                let a: u8 = self.a & v;
                self.a = a;
                self.set_zero_and_ng(a);
            },
            Mnemonic::EOR => {
                let v: u8 = self.mem.get(addr);
                let a: u8 = self.a ^ v;
                self.a = a;
                self.set_zero_and_ng(a);
            },
            Mnemonic::LDA => {
                let v: u8 = self.mem.get(addr);
                self.a = v;
                self.set_zero_and_ng(v);
            },
            Mnemonic::LDX => {
                let v: u8 = self.mem.get(addr);
                self.x = v;
                self.set_zero_and_ng(v);
            },
            Mnemonic::LDY => {
                let v: u8 = self.mem.get(addr);
                self.y = v;
                self.set_zero_and_ng(v);
            },
            Mnemonic::STA => {
                let a: u8 = self.a;
                self.mem.set(addr, a);
            },
            Mnemonic::STX => {
                let x: u8 = self.x;
                self.mem.set(addr, x);
            },
            Mnemonic::STY => {
                let y: u8 = self.y;
                self.mem.set(addr, y);
            },
            Mnemonic::LAX => {
                let v: u8 = self.mem.get(addr);
                self.a = v;
                self.x = v;
                self.set_zero_and_ng(v);
            },
            Mnemonic::SAX => {
                let v: u8 = self.a & self.x;
                self.mem.set(addr, v);
            },
            Mnemonic::BIT => {
                let v: u8 = self.mem.get(addr);
                self.negative = (v & 0x80) > 0;
                self.overflow = (v & 0x40) > 0;
                self.zero = (self.a & v) == 0;
            },
            Mnemonic::NOP => {},
            Mnemonic::UNI => {},
            Mnemonic::KIL => {
                self.decpc();
            },
            _ => {},
        }
    }

    /// Arithmetic: add, subtract, the compares, increments and
    /// decrements, and the combined compare-and-keep of index X.
    #[verifier::rlimit(100)]
    pub(crate) fn exe_arith(&mut self, op: Mnemonic, addr: u16)
        requires
            old(self).wf(),
            op == Mnemonic::ADC || op == Mnemonic::SBC || op == Mnemonic::CMP || op
                == Mnemonic::CPX || op == Mnemonic::CPY || op == Mnemonic::DEC || op
                == Mnemonic::DEX || op == Mnemonic::DEY || op == Mnemonic::INC || op
                == Mnemonic::INX || op == Mnemonic::INY || op == Mnemonic::AXS,
        ensures
            final(self).wf(),
            final(self)@ == instr_arith_spec(old(self)@, op, addr),
            final(self).opcodes == old(self).opcodes,
            final(self)@.cpuclock == old(self)@.cpuclock,
            final(self)@.totalcycle == old(self)@.totalcycle,
            final(self)@.steps == old(self)@.steps,
    {
        proof {
            reveal(instr_arith_spec);
        }
        match op {
            Mnemonic::ADC => {
                let v: u8 = self.mem.get(addr);
                self.do_adc(v);
            },
            Mnemonic::SBC => {
                let v: u8 = self.mem.get(addr);
                self.do_adc(v ^ 0xff);
            },
            Mnemonic::CMP => {
                let v: u8 = self.mem.get(addr);
                let a: u8 = self.a;
                self.do_cmp(a, v);
            },
            Mnemonic::CPX => {
                let v: u8 = self.mem.get(addr);
                let x: u8 = self.x;
                self.do_cmp(x, v);
            },
            Mnemonic::CPY => {
                let v: u8 = self.mem.get(addr);
                let y: u8 = self.y;
                self.do_cmp(y, v);
            },
            Mnemonic::DEC => {
                let v: u8 = self.mem.get(addr);
                let d: u8 = if v == 0 {
                    0xff
                } else {
                    v - 1
                };
                self.set_zero_and_ng(d);
                self.mem.set(addr, d);
            },
            Mnemonic::DEX => {
                let d: u8 = if self.x == 0 {
                    0xff
                } else {
                    self.x - 1
                };
                self.x = d;
                self.set_zero_and_ng(d);
            },
            Mnemonic::DEY => {
                let d: u8 = if self.y == 0 {
                    0xff
                } else {
                    self.y - 1
                };
                self.y = d;
                self.set_zero_and_ng(d);
            },
            Mnemonic::INC => {
                let v: u8 = self.mem.get(addr);
                let d: u8 = if v == 0xff {
                    0
                } else {
                    v + 1
                };
                self.set_zero_and_ng(d);
                self.mem.set(addr, d);
            },
            Mnemonic::INX => {
                let d: u8 = if self.x == 0xff {
                    0
                } else {
                    self.x + 1
                };
                self.x = d;
                self.set_zero_and_ng(d);
            },
            Mnemonic::INY => {
                let d: u8 = if self.y == 0xff {
                    0
                } else {
                    self.y + 1
                };
                self.y = d;
                self.set_zero_and_ng(d);
            },
            Mnemonic::AXS => {
                let v: u8 = self.mem.get(addr);
                let result: u16 = ((self.a & self.x) as u16) + ((v ^ 0xff) as u16) + 1;
                proof {
                    crate::bits::lemma_u16_and_le(result, 0xff);
                }
                let resb: u8 = (result & 0xff) as u8;
                self.carry = result > 0xff;
                self.x = resb;
                self.set_zero_and_ng(resb);
            },
            _ => {},
        }
    }

    /// The accumulator add shared by the documented and undocumented
    /// arithmetic forms.
    #[verifier::rlimit(100)]
    pub(crate) fn do_adc(&mut self, value: u8)
        ensures
            final(self)@ == adc_spec(old(self)@, value),
            final(self).opcodes == old(self).opcodes,
    {
        let result: u16 = (self.a as u16) + (value as u16) + (if self.carry {
            1
        } else {
            0
        });
        proof {
            crate::bits::lemma_u16_and_le(result, 0xff);
        }
        let resb: u8 = (result & 0xff) as u8;
        self.carry = result > 0xff;
        self.overflow = (self.a & 0x80) == (value & 0x80) && (value & 0x80) != (resb & 0x80);
        self.a = resb;
        self.set_zero_and_ng(resb);
    }

    /// The register compare shared by the three compare instructions.
    #[verifier::rlimit(100)]
    pub(crate) fn do_cmp(&mut self, reg: u8, v: u8)
        ensures
            final(self)@ == cmp_spec(old(self)@, reg, v),
            final(self).opcodes == old(self).opcodes,
    {
        let result: u16 = (reg as u16) + ((v ^ 0xff) as u16) + 1;
        proof {
            crate::bits::lemma_u16_and_le(result, 0xff);
        }
        let resb: u8 = (result & 0xff) as u8;
        self.carry = result > 0xff;
        self.set_zero_and_ng(resb);
    }
}

impl Cpu {
    /// The shift and rotate family, on the accumulator and on memory.
    #[verifier::rlimit(100)]
    pub(crate) fn exe_shift(&mut self, op: Mnemonic, addr: u16)
        requires
            old(self).wf(),
            op == Mnemonic::ASLA || op == Mnemonic::ASL || op == Mnemonic::ROLA || op
                == Mnemonic::ROL || op == Mnemonic::LSRA || op == Mnemonic::LSR || op
                == Mnemonic::RORA || op == Mnemonic::ROR,
        ensures
            final(self).wf(),
            final(self)@ == instr_shift_spec(old(self)@, op, addr),
            final(self).opcodes == old(self).opcodes,
            final(self)@.cpuclock == old(self)@.cpuclock,
            final(self)@.totalcycle == old(self)@.totalcycle,
            final(self)@.steps == old(self)@.steps,
    {
        proof {
            reveal(instr_shift_spec);
        }
        match op {
            Mnemonic::ASLA => {
                let result: u16 = (self.a as u16) << 1;
                proof {
                    crate::bits::lemma_u16_and_le(result, 0xff);
                }
                let resb: u8 = (result & 0xff) as u8;
                self.carry = result > 0xff;
                self.a = resb;
                self.set_zero_and_ng(resb);
            },
            Mnemonic::ASL => {
                let v: u8 = self.mem.get(addr);
                let result: u16 = (v as u16) << 1;
                proof {
                    crate::bits::lemma_u16_and_le(result, 0xff);
                }
                let resb: u8 = (result & 0xff) as u8;
                self.carry = result > 0xff;
                self.set_zero_and_ng(resb);
                self.mem.set(addr, resb);
            },
            Mnemonic::ROLA => {
                let result: u16 = ((self.a as u16) << 1) | (if self.carry {
                    1
                } else {
                    0
                });
                proof {
                    crate::bits::lemma_u16_and_le(result, 0xff);
                }
                let resb: u8 = (result & 0xff) as u8;
                self.carry = result > 0xff;
                self.a = resb;
                self.set_zero_and_ng(resb);
            },
            Mnemonic::ROL => {
                let v: u8 = self.mem.get(addr);
                let result: u16 = ((v as u16) << 1) | (if self.carry {
                    1
                } else {
                    0
                });
                proof {
                    crate::bits::lemma_u16_and_le(result, 0xff);
                }
                let resb: u8 = (result & 0xff) as u8;
                self.carry = result > 0xff;
                self.set_zero_and_ng(resb);
                self.mem.set(addr, resb);
            },
            Mnemonic::LSRA => {
                let resb: u8 = self.a >> 1;
                self.carry = (self.a & 1) > 0;
                self.a = resb;
                self.set_zero_and_ng(resb);
            },
            Mnemonic::LSR => {
                let v: u8 = self.mem.get(addr);
                let resb: u8 = v >> 1;
                self.carry = (v & 1) > 0;
                self.set_zero_and_ng(resb);
                self.mem.set(addr, resb);
            },
            Mnemonic::RORA => {
                let resb: u8 = (self.a >> 1) | (if self.carry {
                    0x80
                } else {
                    0
                });
                self.carry = (self.a & 1) > 0;
                self.a = resb;
                self.set_zero_and_ng(resb);
            },
            Mnemonic::ROR => {
                let v: u8 = self.mem.get(addr);
                let resb: u8 = (v >> 1) | (if self.carry {
                    0x80
                } else {
                    0
                });
                self.carry = (v & 1) > 0;
                self.set_zero_and_ng(resb);
                self.mem.set(addr, resb);
            },
            _ => {},
        }
    }

    /// The undocumented combined read-modify-write and immediate forms.
    #[verifier::rlimit(100)]
    pub(crate) fn exe_undoc(&mut self, op: Mnemonic, addr: u16)
        requires
            old(self).wf(),
            op == Mnemonic::SLO || op == Mnemonic::RLA || op == Mnemonic::SRE || op
                == Mnemonic::RRA || op == Mnemonic::DCP || op == Mnemonic::ISC || op
                == Mnemonic::ANC || op == Mnemonic::ALR || op == Mnemonic::ARR,
        ensures
            final(self).wf(),
            final(self)@ == instr_undoc_spec(old(self)@, op, addr),
            final(self).opcodes == old(self).opcodes,
            final(self)@.cpuclock == old(self)@.cpuclock,
            final(self)@.totalcycle == old(self)@.totalcycle,
            final(self)@.steps == old(self)@.steps,
    {
        proof {
            reveal(instr_undoc_spec);
        }
        match op {
            Mnemonic::SLO => {
                let v: u8 = self.mem.get(addr);
                let result: u16 = (v as u16) << 1;
                proof {
                    crate::bits::lemma_u16_and_le(result, 0xff);
                }
                let resb: u8 = (result & 0xff) as u8;
                self.carry = result > 0xff;
                self.mem.set(addr, resb);
                let a2: u8 = self.a | resb;
                self.a = a2;
                self.set_zero_and_ng(a2);
            },
            Mnemonic::RLA => {
                let v: u8 = self.mem.get(addr);
                let result: u16 = ((v as u16) << 1) | (if self.carry {
                    1
                } else {
                    0
                });
                proof {
                    crate::bits::lemma_u16_and_le(result, 0xff);
                }
                let resb: u8 = (result & 0xff) as u8;
                self.carry = result > 0xff;
                self.mem.set(addr, resb);
                let a2: u8 = self.a & resb;
                self.a = a2;
                self.set_zero_and_ng(a2);
            },
            Mnemonic::SRE => {
                let v: u8 = self.mem.get(addr);
                let resb: u8 = v >> 1;
                self.carry = (v & 1) > 0;
                self.mem.set(addr, resb);
                let a2: u8 = self.a ^ resb;
                self.a = a2;
                self.set_zero_and_ng(a2);
            },
            Mnemonic::RRA => {
                let v: u8 = self.mem.get(addr);
                let cb: u8 = v & 1;
                let resb: u8 = (v >> 1) | (if self.carry {
                    0x80
                } else {
                    0
                });
                self.mem.set(addr, resb);
                let data: u16 = (self.a as u16) + (resb as u16) + (cb as u16);
                proof {
                    crate::bits::lemma_u16_and_le(data, 0xff);
                }
                let db: u8 = (data & 0xff) as u8;
                self.carry = data > 0xff;
                self.overflow = (self.a & 0x80) == (resb & 0x80) && (resb & 0x80) != (db & 0x80);
                self.a = db;
                self.set_zero_and_ng(db);
            },
            Mnemonic::DCP => {
                let v: u8 = self.mem.get(addr);
                let d: u8 = if v == 0 {
                    0xff
                } else {
                    v - 1
                };
                self.mem.set(addr, d);
                let a: u8 = self.a;
                self.do_cmp(a, d);
            },
            Mnemonic::ISC => {
                let v: u8 = self.mem.get(addr);
                let d: u8 = if v == 0xff {
                    0
                } else {
                    v + 1
                };
                self.mem.set(addr, d);
                self.do_adc(d ^ 0xff);
            },
            Mnemonic::ANC => {
                let v: u8 = self.mem.get(addr);
                let a2: u8 = self.a & v;
                self.a = a2;
                self.set_zero_and_ng(a2);
                self.carry = self.negative;
            },
            Mnemonic::ALR => {
                let v: u8 = self.mem.get(addr);
                let a2: u8 = self.a & v;
                let resb: u8 = a2 >> 1;
                self.carry = (a2 & 1) > 0;
                self.a = resb;
                self.set_zero_and_ng(resb);
            },
            Mnemonic::ARR => {
                let v: u8 = self.mem.get(addr);
                let a2: u8 = self.a & v;
                let resb: u8 = (a2 >> 1) | (if self.carry {
                    0x80
                } else {
                    0
                });
                self.carry = (resb & 0x40) > 0;
                self.overflow = ((resb & 0x40) ^ ((resb & 0x20) << 1)) > 0;
                self.a = resb;
                self.set_zero_and_ng(resb);
            },
            _ => {},
        }
    }

    /// The stack, jump, subroutine and interrupt sequences.
    #[verifier::rlimit(100)]
    pub(crate) fn exe_stack(&mut self, op: Mnemonic, addr: u16)
        requires
            old(self).wf(),
            op == Mnemonic::PLA || op == Mnemonic::PHA || op == Mnemonic::PLP || op
                == Mnemonic::PHP || op == Mnemonic::BRK || op == Mnemonic::RTI || op
                == Mnemonic::JSR || op == Mnemonic::RTS || op == Mnemonic::JMP || op
                == Mnemonic::NMI || op == Mnemonic::IRQ,
        ensures
            final(self).wf(),
            final(self)@ == instr_stack_spec(old(self)@, op, addr),
            final(self).opcodes == old(self).opcodes,
            final(self)@.cpuclock == old(self)@.cpuclock,
            final(self)@.totalcycle == old(self)@.totalcycle,
            final(self)@.steps == old(self)@.steps,
    {
        proof {
            reveal(instr_stack_spec);
        }
        match op {
            Mnemonic::PLA => {
                let v: u8 = self.pull8();
                self.a = v;
                self.set_zero_and_ng(v);
            },
            Mnemonic::PHA => {
                let a: u8 = self.a;
                self.push8(a);
            },
            Mnemonic::PLP => {
                let v: u8 = self.pull8();
                self.setp(v);
            },
            Mnemonic::PHP => {
                let p: u8 = self.getp(true);
                self.push8(p);
            },
            Mnemonic::BRK => {
                let pushpc: u16 = ((self.pc as u32 + 1) & 0xffff) as u16;
                proof {
                    crate::bits::lemma_u16_and_le(pushpc >> 8, 0xff);
                    crate::bits::lemma_u16_and_le(pushpc, 0xff);
                }
                self.push8(((pushpc >> 8) & 0xff) as u8);
                self.push8((pushpc & 0xff) as u8);
                let p: u8 = self.getp(true);
                self.push8(p);
                self.interrupt = true;
                let lo: u8 = self.mem.get(0xfffe);
                let hi: u8 = self.mem.get(0xffff);
                self.pc = (lo as u16) | ((hi as u16) << 8);
            },
            Mnemonic::RTI => {
                let pv: u8 = self.pull8();
                self.setp(pv);
                let lo: u8 = self.pull8();
                let hi: u8 = self.pull8();
                self.pc = (lo as u16) | ((hi as u16) << 8);
            },
            Mnemonic::JSR => {
                let pushpc: u16 = ((self.pc as u32 + 0xffff) & 0xffff) as u16;
                proof {
                    crate::bits::lemma_u16_and_le(pushpc >> 8, 0xff);
                    crate::bits::lemma_u16_and_le(pushpc, 0xff);
                }
                self.push8(((pushpc >> 8) & 0xff) as u8);
                self.push8((pushpc & 0xff) as u8);
                self.pc = addr;
            },
            Mnemonic::RTS => {
                let lo: u8 = self.pull8();
                let hi: u8 = self.pull8();
                let pp: u16 = (lo as u16) | ((hi as u16) << 8);
                self.pc = ((pp as u32 + 1) & 0xffff) as u16;
            },
            Mnemonic::JMP => {
                self.pc = addr;
            },
            Mnemonic::NMI => {
                self.do_interrupt(0xfffa);
            },
            Mnemonic::IRQ => {
                self.do_interrupt(0xfffe);
            },
            _ => {},
        }
    }

    /// The hardware interrupt sequence shared by the two synthetic
    /// entries.
    #[verifier::rlimit(100)]
    pub(crate) fn do_interrupt(&mut self, vector: u16)
        requires
            old(self).wf(),
            vector <= 0xfffe,
        ensures
            final(self).wf(),
            final(self)@ == interrupt_spec(old(self)@, vector),
            final(self).opcodes == old(self).opcodes,
    {
        let pushpc: u16 = self.pc;
        proof {
            crate::bits::lemma_u16_and_le(pushpc >> 8, 0xff);
            crate::bits::lemma_u16_and_le(pushpc, 0xff);
        }
        self.push8(((pushpc >> 8) & 0xff) as u8);
        self.push8((pushpc & 0xff) as u8);
        let p: u8 = self.getp(false);
        self.push8(p);
        self.interrupt = true;
        let lo: u8 = self.mem.get(vector);
        let hi: u8 = self.mem.get(vector + 1);
        self.pc = (lo as u16) | ((hi as u16) << 8);
    }

    /// The branches, flag sets and clears, and the register transfers.
    #[verifier::rlimit(100)]
    pub(crate) fn exe_branch(&mut self, op: Mnemonic, addr: u16)
        requires
            old(self).wf(),
            old(self)@.cpuclock <= CLOCK_CAP,
            op == Mnemonic::BPL || op == Mnemonic::BMI || op == Mnemonic::BVC || op
                == Mnemonic::BVS || op == Mnemonic::BCC || op == Mnemonic::BCS || op
                == Mnemonic::BNE || op == Mnemonic::BEQ || op == Mnemonic::CLC || op
                == Mnemonic::SEC || op == Mnemonic::CLD || op == Mnemonic::SED || op
                == Mnemonic::CLI || op == Mnemonic::SEI || op == Mnemonic::CLV || op
                == Mnemonic::TAX || op == Mnemonic::TXA || op == Mnemonic::TAY || op
                == Mnemonic::TYA || op == Mnemonic::TSX || op == Mnemonic::TXS,
        ensures
            final(self).wf(),
            final(self)@ == instr_branch_spec(old(self)@, op, addr),
            final(self).opcodes == old(self).opcodes,
            final(self)@.cpuclock <= old(self)@.cpuclock + 2,
            final(self)@.totalcycle == old(self)@.totalcycle,
            final(self)@.steps == old(self)@.steps,
    {
        proof {
            reveal(instr_branch_spec);
        }
        match op {
            Mnemonic::BPL => {
                let t: bool = !self.negative;
                self.doBranch(t, addr);
            },
            Mnemonic::BMI => {
                let t: bool = self.negative;
                self.doBranch(t, addr);
            },
            Mnemonic::BVC => {
                let t: bool = !self.overflow;
                self.doBranch(t, addr);
            },
            Mnemonic::BVS => {
                let t: bool = self.overflow;
                self.doBranch(t, addr);
            },
            Mnemonic::BCC => {
                let t: bool = !self.carry;
                self.doBranch(t, addr);
            },
            Mnemonic::BCS => {
                let t: bool = self.carry;
                self.doBranch(t, addr);
            },
            Mnemonic::BNE => {
                let t: bool = !self.zero;
                self.doBranch(t, addr);
            },
            Mnemonic::BEQ => {
                let t: bool = self.zero;
                self.doBranch(t, addr);
            },
            Mnemonic::CLC => {
                self.carry = false;
            },
            Mnemonic::SEC => {
                self.carry = true;
            },
            Mnemonic::CLD => {
                self.decimal = false;
            },
            Mnemonic::SED => {
                self.decimal = true;
            },
            Mnemonic::CLI => {
                self.interrupt = false;
            },
            Mnemonic::SEI => {
                self.interrupt = true;
            },
            Mnemonic::CLV => {
                self.overflow = false;
            },
            Mnemonic::TAX => {
                let a: u8 = self.a;
                self.x = a;
                self.set_zero_and_ng(a);
            },
            Mnemonic::TXA => {
                let x: u8 = self.x;
                self.a = x;
                self.set_zero_and_ng(x);
            },
            Mnemonic::TAY => {
                let a: u8 = self.a;
                self.y = a;
                self.set_zero_and_ng(a);
            },
            Mnemonic::TYA => {
                let y: u8 = self.y;
                self.a = y;
                self.set_zero_and_ng(y);
            },
            Mnemonic::TSX => {
                let sp: u8 = self.sp;
                self.x = sp;
                self.set_zero_and_ng(sp);
            },
            Mnemonic::TXS => {
                self.sp = self.x;
            },
            _ => {},
        }
    }

    /// Executes one decoded instruction: exactly the transition
    /// `instr_spec`.
    #[verifier::rlimit(100)]
    pub(crate) fn exe_instruction(&mut self, op: Mnemonic, addr: u16)
        requires
            old(self).wf(),
            old(self)@.cpuclock <= CLOCK_CAP,
        ensures
            final(self).wf(),
            final(self)@ == instr_spec(old(self)@, op, addr),
            final(self).opcodes == old(self).opcodes,
            final(self)@.cpuclock <= old(self)@.cpuclock + 2,
            final(self)@.totalcycle == old(self)@.totalcycle,
            final(self)@.steps == old(self)@.steps,
    {
        proof {
            reveal(instr_spec);
        }
        match op {
            Mnemonic::ORA | Mnemonic::AND | Mnemonic::EOR | Mnemonic::LDA | Mnemonic::LDX
                | Mnemonic::LDY | Mnemonic::STA | Mnemonic::STX | Mnemonic::STY | Mnemonic::LAX
                | Mnemonic::SAX | Mnemonic::BIT | Mnemonic::NOP | Mnemonic::UNI
                | Mnemonic::KIL => self.exe_load(op, addr),
            Mnemonic::ADC | Mnemonic::SBC | Mnemonic::CMP | Mnemonic::CPX | Mnemonic::CPY
                | Mnemonic::DEC | Mnemonic::DEX | Mnemonic::DEY | Mnemonic::INC | Mnemonic::INX
                | Mnemonic::INY | Mnemonic::AXS => self.exe_arith(op, addr),
            Mnemonic::ASLA | Mnemonic::ASL | Mnemonic::ROLA | Mnemonic::ROL | Mnemonic::LSRA
                | Mnemonic::LSR | Mnemonic::RORA | Mnemonic::ROR => self.exe_shift(op, addr),
            Mnemonic::SLO | Mnemonic::RLA | Mnemonic::SRE | Mnemonic::RRA | Mnemonic::DCP
                | Mnemonic::ISC | Mnemonic::ANC | Mnemonic::ALR | Mnemonic::ARR => self.exe_undoc(
                op,
                addr,
            ),
            Mnemonic::PLA | Mnemonic::PHA | Mnemonic::PLP | Mnemonic::PHP | Mnemonic::BRK
                | Mnemonic::RTI | Mnemonic::JSR | Mnemonic::RTS | Mnemonic::JMP | Mnemonic::NMI
                | Mnemonic::IRQ => self.exe_stack(op, addr),
            Mnemonic::BPL | Mnemonic::BMI | Mnemonic::BVC | Mnemonic::BVS | Mnemonic::BCC
                | Mnemonic::BCS | Mnemonic::BNE | Mnemonic::BEQ | Mnemonic::CLC | Mnemonic::SEC
                | Mnemonic::CLD | Mnemonic::SED | Mnemonic::CLI | Mnemonic::SEI | Mnemonic::CLV
                | Mnemonic::TAX | Mnemonic::TXA | Mnemonic::TAY | Mnemonic::TYA | Mnemonic::TSX
                | Mnemonic::TXS => self.exe_branch(op, addr),
        }
    }

    /// Services the pending interrupt: clears the line, charges the fixed
    /// seven-cycle cost and runs the synthetic interrupt sequence.
    #[verifier::rlimit(100)]
    pub fn exec_nmi(&mut self, irq: &mut Irq)
        requires
            old(self).wf(),
            old(self)@.cpuclock <= 0x1000_0000,
        ensures
            final(self).wf(),
            final(self)@ == instr_spec(
                CpuModel { cpuclock: (old(self)@.cpuclock + 7) as u64, ..old(self)@ },
                Mnemonic::NMI,
                0,
            ),
            final(irq)@ == (IrqModel { nmi: false, irq: old(irq)@.irq }),
            final(self).opcodes == old(self).opcodes,
            final(self)@.cpuclock <= old(self)@.cpuclock + 9,
            final(self)@.totalcycle == old(self)@.totalcycle,
            final(self)@.steps == old(self)@.steps,
    {
        irq.clear_nmi();
        self.cpuclock = self.cpuclock + 7;
        self.exe_instruction(Mnemonic::NMI, 0);
    }

    /// One step of the processor against the interrupt lines: exactly the
    /// transition `cpu_step`. A pending NMI is serviced; otherwise one
    /// instruction is fetched, decoded and executed, with its base and
    /// penalty cycles charged.
    /// Fetches, decodes and executes the instruction under the program
    /// counter: exactly the transition `fetch_exec`.
    #[verifier::rlimit(100)]
    pub(crate) fn run_instr(&mut self)
        requires
            old(self).wf(),
            old(self)@.cpuclock <= 0x1000_0000,
        ensures
            final(self).wf(),
            final(self)@ == fetch_exec(old(self)@),
            final(self).opcodes == old(self).opcodes,
            final(self)@.cpuclock <= old(self)@.cpuclock + 11,
            final(self)@.totalcycle == old(self)@.totalcycle,
            final(self)@.steps == old(self)@.steps,
    {
        let pcaddr: u16 = self.post_incpc();
        let instr: u8 = self.mem.get(pcaddr);
        let opc: Opcode = self.opcodes[instr as usize];
        proof {
            crate::opcode::lemma_opcode_cycle(instr as int);
        }
        self.cpuclock = self.cpuclock + opc.cycle;
        let adrm: u16 = self.get_addr(opc.adm);
        self.exe_instruction(opc.op, adrm);
        proof {
            reveal(fetch_exec);
        }
    }

    #[verifier::rlimit(100)]
    pub fn run(&mut self, irq: &mut Irq)
        requires
            old(self).wf(),
            old(self)@.cpuclock <= 0x1000_0000,
            old(self)@.totalcycle <= CLOCK_CAP,
            old(self)@.steps <= CLOCK_CAP,
        ensures
            final(self).wf(),
            (final(self)@, final(irq)@) == cpu_step(old(self)@, old(irq)@),
            final(self).opcodes == old(self).opcodes,
    {
        let nmi: bool = irq.get_nmi();
        if nmi {
            self.exec_nmi(irq);
        } else {
            self.run_instr();
        }
        self.totalcycle = self.totalcycle + self.cpuclock;
        self.steps = self.steps + 1;
        proof {
            reveal(cpu_step);
        }
    }
}

/// One processor step against the interrupt lines: a pending NMI is
/// serviced (the line cleared, seven cycles charged, the interrupt
/// sequence run); otherwise the opcode byte is fetched, its base cycle
/// cost charged, the addressing mode resolved and the instruction
/// executed. Either way the step lands in the running cycle total and
/// the step counter.
/// The fetch-decode-execute path of one step: the opcode byte is read
/// at the program counter, its table entry charged, the addressing mode
/// resolved and the instruction executed.
#[verifier::opaque]
pub open spec fn fetch_exec(m: CpuModel) -> CpuModel {
    let f = mread(CpuModel { pc: pc_inc(m.pc), ..m }, m.pc);
    let o = opcode_spec(f.0 as int);
    let m1 = CpuModel { cpuclock: (f.1.cpuclock + o.cycle) as u64, ..f.1 };
    let r = addr_spec(m1, o.adm);
    instr_spec(r.1, o.op, r.0)
}

#[verifier::opaque]
pub open spec fn cpu_step(m: CpuModel, q: IrqModel) -> (CpuModel, IrqModel) {
    if q.nmi {
        let m1 = instr_spec(
            CpuModel { cpuclock: (m.cpuclock + 7) as u64, ..m },
            Mnemonic::NMI,
            0,
        );
        (
            CpuModel {
                totalcycle: (m1.totalcycle + m1.cpuclock) as u64,
                steps: (m1.steps + 1) as u64,
                ..m1
            },
            IrqModel { nmi: false, ..q },
        )
    } else {
        let m2 = fetch_exec(m);
        (
            CpuModel {
                totalcycle: (m2.totalcycle + m2.cpuclock) as u64,
                steps: (m2.steps + 1) as u64,
                ..m2
            },
            q,
        )
    }
}

} // verus!
