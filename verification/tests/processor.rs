use nes_core::cpu::Cpu;
use nes_core::io::Io;
use nes_core::irq::Irq;
use nes_core::mapper0::Mapper0;
use nes_core::mem::Mem;
use nes_core::ppu::Ppu;
use nes_core::rom::Rom;

fn new_cpu() -> Cpu {
    let rom = Rom::new();
    let ppu = Ppu::new();
    let io = Io::new();
    let mem = Mem::new(Mapper0::new(rom, ppu, io));
    let mut cpu = Cpu::new(mem);
    cpu.init();
    cpu
}

#[test]
fn adc_signed_overflow_case() {
    // LDA #$50 then ADC #$50: 0x50 + 0x50 overflows as a signed add.
    let mut cpu = new_cpu();
    let mut irq = Irq::new();
    cpu.mem.set(0x0200, 0xa9);
    cpu.mem.set(0x0201, 0x50);
    cpu.mem.set(0x0202, 0x69);
    cpu.mem.set(0x0203, 0x50);
    cpu.pc = 0x0200;
    cpu.run(&mut irq);
    cpu.run(&mut irq);
    assert_eq!(cpu.a, 0xa0);
    assert!(cpu.overflow);
    assert!(!cpu.carry);
    assert!(cpu.negative);
    assert!(!cpu.zero);
}

#[test]
fn sbc_is_one_complement_adc() {
    // LDA #$50, SEC, SBC #$F0: 0x50 + (0xF0 ^ 0xFF) + 1 = 0x60, no carry out.
    let mut cpu = new_cpu();
    let mut irq = Irq::new();
    cpu.mem.set(0x0200, 0xa9);
    cpu.mem.set(0x0201, 0x50);
    cpu.mem.set(0x0202, 0x38);
    cpu.mem.set(0x0203, 0xe9);
    cpu.mem.set(0x0204, 0xf0);
    cpu.pc = 0x0200;
    cpu.run(&mut irq);
    cpu.run(&mut irq);
    cpu.run(&mut irq);
    assert_eq!(cpu.a, 0x60);
    assert!(!cpu.carry);
    assert!(!cpu.overflow);
    assert!(!cpu.negative);
    assert!(!cpu.zero);
}

#[test]
fn absolute_x_cycle_cost_without_page_cross() {
    // LDA $1234,X with X=1: effective 0x1235, same page, 4 cycles.
    let mut cpu = new_cpu();
    let mut irq = Irq::new();
    cpu.mem.set(0x0200, 0xbd);
    cpu.mem.set(0x0201, 0x34);
    cpu.mem.set(0x0202, 0x12);
    cpu.pc = 0x0200;
    cpu.x = 0x01;
    let before = cpu.cpuclock;
    cpu.run(&mut irq);
    assert_eq!(cpu.cpuclock - before, 4);
}

#[test]
fn absolute_x_cycle_cost_with_page_cross() {
    // LDA $12FF,X with X=1: effective 0x1300 crosses a page, 5 cycles.
    let mut cpu = new_cpu();
    let mut irq = Irq::new();
    cpu.mem.set(0x0200, 0xbd);
    cpu.mem.set(0x0201, 0xff);
    cpu.mem.set(0x0202, 0x12);
    cpu.pc = 0x0200;
    cpu.x = 0x01;
    let before = cpu.cpuclock;
    cpu.run(&mut irq);
    assert_eq!(cpu.cpuclock - before, 5);
}

#[test]
fn branch_taken_costs_extra_cycle() {
    // BNE +2 with the zero flag clear: 2 base cycles plus 1 for taking it.
    let mut cpu = new_cpu();
    let mut irq = Irq::new();
    cpu.mem.set(0x0200, 0xd0);
    cpu.mem.set(0x0201, 0x02);
    cpu.pc = 0x0200;
    cpu.zero = false;
    let before = cpu.cpuclock;
    cpu.run(&mut irq);
    assert_eq!(cpu.cpuclock - before, 3);
    assert_eq!(cpu.pc, 0x0204);
}

#[test]
fn stack_wraps_over_256_pushes_and_pulls() {
    // 256 pushes walk the pointer around the whole stack page; 256 pulls
    // then hand the bytes back in reverse order and restore the pointer.
    let mut cpu = new_cpu();
    let mut irq = Irq::new();
    cpu.mem.set(0x0200, 0x48); // PHA
    cpu.mem.set(0x0201, 0x68); // PLA
    let sp0 = cpu.sp;
    for i in 0..256u32 {
        cpu.a = i as u8;
        cpu.pc = 0x0200;
        cpu.run(&mut irq);
    }
    assert_eq!(cpu.sp, sp0);
    for i in 0..256u32 {
        cpu.pc = 0x0201;
        cpu.run(&mut irq);
        assert_eq!(cpu.a, (255 - i) as u8);
    }
    assert_eq!(cpu.sp, sp0);
}

#[test]
fn nmi_service_clears_line_and_pushes_three_bytes() {
    let mut cpu = new_cpu();
    let mut irq = Irq::new();
    irq.set_nmi(true);
    let sp0 = cpu.sp;
    let before = cpu.cpuclock;
    cpu.run(&mut irq);
    assert!(!irq.get_nmi());
    assert_eq!(cpu.sp, sp0.wrapping_sub(3));
    assert_eq!(cpu.cpuclock - before, 7);
    // with no cartridge the vector reads as zero
    assert_eq!(cpu.pc, 0x0000);
    assert!(cpu.interrupt);
}

#[test]
fn status_byte_round_trips_through_the_stack() {
    // PHP pushes with bits 5 and 4 set; PLP restores the six flags.
    let mut cpu = new_cpu();
    let mut irq = Irq::new();
    cpu.mem.set(0x0200, 0x08); // PHP
    cpu.mem.set(0x0201, 0x68); // PLA
    cpu.pc = 0x0200;
    cpu.carry = true;
    cpu.negative = true;
    cpu.run(&mut irq);
    cpu.run(&mut irq);
    assert_eq!(cpu.a & 0x30, 0x30);
    assert!(cpu.a & 0x01 == 0x01);
    assert!(cpu.a & 0x80 == 0x80);
}
