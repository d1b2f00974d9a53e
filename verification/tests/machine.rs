use nes_core::io::Io;
use nes_core::irq::Irq;
use nes_core::mapper0::Mapper0;
use nes_core::mem::Mem;
use nes_core::ppu::Ppu;
use nes_core::rom::Rom;

fn new_mem() -> Mem {
    let rom = Rom::new();
    let ppu = Ppu::new();
    let io = Io::new();
    Mem::new(Mapper0::new(rom, ppu, io))
}

#[test]
fn ram_mirrors_alias_one_byte() {
    let mut mem = new_mem();
    mem.set(0x0000, 0xab);
    assert_eq!(mem.get(0x0000), 0xab);
    assert_eq!(mem.get(0x0800), 0xab);
    assert_eq!(mem.get(0x1000), 0xab);
    assert_eq!(mem.get(0x1800), 0xab);
    mem.set(0x1800, 0x5c);
    assert_eq!(mem.get(0x0000), 0x5c);
}

#[test]
fn status_read_clears_vblank_and_toggles() {
    let mut mem = new_mem();
    // writing the address register twice commits the buffer
    mem.set(0x2006, 0x21);
    mem.set(0x2006, 0x08);
    // a status read resets the first/second-write toggle
    let _ = mem.get(0x2002);
    let second = mem.get(0x2002);
    assert_eq!(second & 0x80, 0);
}

#[test]
fn ppu_data_read_is_buffered() {
    let mut mem = new_mem();
    mem.set(0x2006, 0x20);
    mem.set(0x2006, 0x00);
    mem.set(0x2007, 0x77);
    mem.set(0x2006, 0x20);
    mem.set(0x2006, 0x00);
    let first = mem.get(0x2007);
    let second = mem.get(0x2007);
    let _ = first;
    assert_eq!(second, 0x77);
}

#[test]
fn vblank_sets_nmi_once_per_frame() {
    let mut mem = new_mem();
    let mut irq = Irq::new();
    // enable NMI on vertical blank
    mem.set(0x2000, 0x80);
    // one full frame of dots: 262 scanlines at 341 dots, 3 dots per cycle
    mem.mapper.ppu.run(262 * 341 / 3 + 4, &mut irq);
    assert!(irq.get_nmi());
    irq.clear_nmi();
    // a handful of early scanlines raise no second interrupt
    mem.mapper.ppu.run(341, &mut irq);
    assert!(!irq.get_nmi());
}
