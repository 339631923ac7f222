use nes_core::ppu::Mirroring;
use nes_core::ppu::NesPPU;
use nes_core::ppu::PPU;
use nes_core::registers::AddrRegister;

#[test]
fn test_addr_latch_two_writes() {
    let mut ppu = NesPPU::new(Vec::new(), Mirroring::Vertical);
    ppu.write_to_ppu_addr(0x21);
    ppu.write_to_ppu_addr(0x00);
    assert_eq!(ppu.addr.get(), 0x2100);
    // a third write starts a new high/low pair
    ppu.write_to_ppu_addr(0x23);
    ppu.write_to_ppu_addr(0x05);
    assert_eq!(ppu.addr.get(), 0x2305);
}

#[test]
fn test_addr_latch_masks_into_address_space() {
    let mut ppu = NesPPU::new(Vec::new(), Mirroring::Horizontal);
    ppu.write_to_ppu_addr(0xff);
    ppu.write_to_ppu_addr(0xff);
    assert_eq!(ppu.addr.get(), 0x3fff);
}

#[test]
fn test_addr_register_increment_wraps() {
    let mut reg = AddrRegister::new();
    reg.update(0x3f);
    reg.update(0xff);
    assert_eq!(reg.get(), 0x3fff);
    reg.increment(1);
    assert_eq!(reg.get(), 0x0000);
    reg.increment(32);
    assert_eq!(reg.get(), 0x0020);
}

#[test]
fn test_vertical_mirroring_pairs() {
    let ppu = NesPPU::new(Vec::new(), Mirroring::Vertical);
    assert_eq!(ppu.mirror_vram_addr(0x2800), ppu.mirror_vram_addr(0x2000));
    assert_eq!(ppu.mirror_vram_addr(0x2c05), ppu.mirror_vram_addr(0x2405));
}

#[test]
fn test_horizontal_mirroring_pairs() {
    let ppu = NesPPU::new(Vec::new(), Mirroring::Horizontal);
    assert_eq!(ppu.mirror_vram_addr(0x2400), ppu.mirror_vram_addr(0x2000));
    assert_eq!(ppu.mirror_vram_addr(0x2c00), ppu.mirror_vram_addr(0x2800));
}

#[test]
fn test_mirroring_always_lands_in_vram() {
    let vert = NesPPU::new(Vec::new(), Mirroring::Vertical);
    let horiz = NesPPU::new(Vec::new(), Mirroring::Horizontal);
    let mut a: u16 = 0x2000;
    while a < 0x3eff {
        assert!(vert.mirror_vram_addr(a) < 2048);
        assert!(horiz.mirror_vram_addr(a) < 2048);
        a += 0xff;
    }
}

#[test]
fn test_buffered_read_lags_one_read() {
    let mut ppu = NesPPU::new(Vec::new(), Mirroring::Vertical);
    ppu.write_to_ppu_addr(0x23);
    ppu.write_to_ppu_addr(0x05);
    // the first data-port read of a fresh session returns the initial buffer
    assert_eq!(ppu.read_data(), 0);

    let cell = ppu.mirror_vram_addr(0x2305) as usize;
    ppu.vram[cell] = 0x66;
    ppu.write_to_ppu_addr(0x23);
    ppu.write_to_ppu_addr(0x05);
    // still the old buffered value: the write is visible one read late
    assert_eq!(ppu.read_data(), 0);
    assert_eq!(ppu.read_data(), 0x66);
}

#[test]
fn test_palette_read_has_no_latency() {
    let mut ppu = NesPPU::new(Vec::new(), Mirroring::Vertical);
    ppu.palette_table[5] = 0x44;
    ppu.write_to_ppu_addr(0x3f);
    ppu.write_to_ppu_addr(0x05);
    // no second read needed: the just-written value comes back at once
    assert_eq!(ppu.read_data(), 0x44);
}

#[test]
fn test_pattern_table_read_is_buffered() {
    let mut chr = vec![0u8; 0x2000];
    chr[0x0105] = 0x77;
    let mut ppu = NesPPU::new(chr, Mirroring::Vertical);
    ppu.write_to_ppu_addr(0x01);
    ppu.write_to_ppu_addr(0x05);
    assert_eq!(ppu.read_data(), 0);
    assert_eq!(ppu.read_data(), 0x77);
}

#[test]
fn test_data_port_read_increments_address() {
    let mut ppu = NesPPU::new(Vec::new(), Mirroring::Vertical);
    ppu.write_to_ppu_addr(0x21);
    ppu.write_to_ppu_addr(0x00);
    ppu.read_data();
    assert_eq!(ppu.addr.get(), 0x2101);

    // control bit 2 selects the 32-byte step
    ppu.write_to_ctrl(0x04);
    ppu.read_data();
    assert_eq!(ppu.addr.get(), 0x2121);
}
