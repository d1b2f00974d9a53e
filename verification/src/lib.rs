//! Cycle-accurate core of an 8-bit game console: a 6502-family processor,
//! a scanline-driven picture unit, and the address-decoded bus that joins
//! them to a cartridge mapper, a DMA engine and two controller latches.
//!
//! Every state transition of the processor and of the bus is pinned down by
//! a mathematical model (`CpuModel`, `MemModel`, `PpuModel`, ...): the
//! `ensures` of each step function states exactly which model state the
//! machine reaches, so the machine is a function of its inputs.

pub mod bits;



pub mod ppu;

pub mod dma;

pub mod base;

pub mod mapper0;

pub mod mem;

pub mod nes;

pub mod opcode;

pub mod cpu;



pub mod io;

pub mod irq;

pub mod rom;





