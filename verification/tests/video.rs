use nes::errors::NesError;
use nes::ppu::{palette_rgb, PPU};

fn make_ppu() -> PPU {
    PPU::new(vec![0u8; 0x2000])
}

#[test]
fn counters_stay_in_range_over_a_frame() {
    let mut ppu = make_ppu();
    for _ in 0..(341 * 262) {
        ppu.cycle();
        assert!(ppu.timing.cycle <= 340);
        assert!(ppu.timing.scanline <= 261);
    }
}

#[test]
fn frame_period_returns_to_origin_with_parity_toggled() {
    let mut ppu = make_ppu();
    assert!(!ppu.timing.oddframe);
    for _ in 0..(341 * 262) {
        ppu.cycle();
    }
    assert_eq!(ppu.timing.cycle, 0);
    assert_eq!(ppu.timing.scanline, 0);
    assert!(ppu.timing.oddframe);
    for _ in 0..(341 * 262) {
        ppu.cycle();
    }
    assert_eq!(ppu.timing.cycle, 0);
    assert_eq!(ppu.timing.scanline, 0);
    assert!(!ppu.timing.oddframe);
}

#[test]
fn vblank_rises_at_241_1_and_falls_at_261_1() {
    let mut ppu = make_ppu();
    ppu.write_control_1(0x80);
    for _ in 0..(241 * 341) {
        ppu.cycle();
        assert!(!ppu.regs.flag_vblank);
    }
    ppu.cycle();
    assert_eq!(ppu.timing.scanline, 241);
    assert_eq!(ppu.timing.cycle, 1);
    assert!(ppu.regs.flag_vblank);
    assert!(ppu.regs.nmi);
    for _ in 0..(20 * 341 - 1) {
        ppu.cycle();
        assert!(ppu.regs.flag_vblank);
    }
    ppu.cycle();
    assert_eq!(ppu.timing.scanline, 261);
    assert_eq!(ppu.timing.cycle, 1);
    assert!(!ppu.regs.flag_vblank);
}

#[test]
fn vblank_without_enable_raises_no_interrupt() {
    let mut ppu = make_ppu();
    for _ in 0..(241 * 341 + 1) {
        ppu.cycle();
    }
    assert!(ppu.regs.flag_vblank);
    assert!(!ppu.regs.nmi);
}

#[test]
fn scroll_port_two_writes_compose_and_reset_toggle() {
    let mut ppu = make_ppu();
    assert!(!ppu.timing.write_toggle);
    ppu.write_scroll_offset(0x10);
    assert!(ppu.timing.write_toggle);
    assert_eq!(ppu.timing.temp_addr, 0x0002);
    assert_eq!(ppu.timing.x, 0);
    ppu.write_scroll_offset(0x10);
    assert!(!ppu.timing.write_toggle);
    // Coarse X 2, coarse Y 2, fine Y 0.
    assert_eq!(ppu.timing.temp_addr, 0x0042);
}

#[test]
fn scroll_port_keeps_fine_x() {
    let mut ppu = make_ppu();
    ppu.write_scroll_offset(0x0f);
    assert_eq!(ppu.timing.x, 0x07);
    assert_eq!(ppu.timing.temp_addr, 0x0001);
}

#[test]
fn address_port_two_writes_publish_address() {
    let mut ppu = make_ppu();
    ppu.write_addr_offset(0x3f);
    assert!(ppu.timing.write_toggle);
    assert_eq!(ppu.timing.vram_addr, 0);
    ppu.write_addr_offset(0x10);
    assert!(!ppu.timing.write_toggle);
    assert_eq!(ppu.timing.temp_addr, 0x3f10);
    assert_eq!(ppu.timing.vram_addr, 0x3f10);
}

#[test]
fn data_port_writes_and_steps_by_one() {
    let mut ppu = make_ppu();
    ppu.write_addr_offset(0x20);
    ppu.write_addr_offset(0x05);
    ppu.write_ppudata(0xab).unwrap();
    assert_eq!(ppu.memory.vram[0x005], 0xab);
    assert_eq!(ppu.timing.vram_addr, 0x2006);
}

#[test]
fn data_port_vertical_mode_steps_by_thirty_two() {
    let mut ppu = make_ppu();
    ppu.write_control_1(0x04);
    ppu.write_addr_offset(0x20);
    ppu.write_addr_offset(0x00);
    ppu.write_ppudata(0x55).unwrap();
    assert_eq!(ppu.timing.vram_addr, 0x2020);
}

#[test]
fn data_port_refuses_pattern_memory() {
    let mut ppu = make_ppu();
    ppu.write_addr_offset(0x00);
    ppu.write_addr_offset(0x05);
    assert_eq!(
        ppu.write_ppudata(0x55),
        Err(NesError::InvalidMemoryAccess { address: 0x0005 })
    );
    assert_eq!(ppu.timing.vram_addr, 0x0005);
}

#[test]
fn palette_port_writes_mirror_every_32() {
    let mut ppu = make_ppu();
    ppu.write_addr_offset(0x3f);
    ppu.write_addr_offset(0x21);
    ppu.write_ppudata(0x17).unwrap();
    assert_eq!(ppu.memory.palettes[0x01], 0x17);
}

#[test]
fn status_byte_packs_the_three_bits() {
    let mut ppu = make_ppu();
    assert_eq!(ppu.read_status(), 0x00);
    ppu.regs.flag_vblank = true;
    assert_eq!(ppu.read_status(), 0x80);
    ppu.regs.flag_overflow = true;
    ppu.regs.flag_hit = true;
    assert_eq!(ppu.read_status(), 0xe0);
    // Reading leaves the flag and the write toggle alone.
    assert!(ppu.regs.flag_vblank);
    assert!(!ppu.timing.write_toggle);
}

#[test]
fn write_only_and_unfinished_ports_are_refused() {
    let mut ppu = make_ppu();
    assert_eq!(ppu.read_control_1(), Err(NesError::InvalidPortAccess { port: 0 }));
    assert_eq!(ppu.read_scroll_offset(), Err(NesError::InvalidPortAccess { port: 5 }));
    assert_eq!(ppu.read_oamdata(), Err(NesError::UnimplementedPort { port: 4 }));
    assert_eq!(ppu.read_ppudata(), Err(NesError::UnimplementedPort { port: 7 }));
    assert_eq!(ppu.write_status(0x00), Err(NesError::InvalidPortAccess { port: 2 }));
    assert_eq!(ppu.write_oamdata(0x00), Err(NesError::UnimplementedPort { port: 4 }));
}

#[test]
fn hardware_palette_spot_checks() {
    assert_eq!(palette_rgb(0), (0x7c, 0x7c, 0x7c));
    assert_eq!(palette_rgb(1), (0x00, 0x00, 0xfc));
    assert_eq!(palette_rgb(3), (0x44, 0x28, 0xbc));
    assert_eq!(palette_rgb(63), (0x00, 0x00, 0x00));
}

#[test]
fn visible_dot_writes_a_pixel() {
    let mut ppu = make_ppu();
    ppu.write_control_2(0x08);
    assert_eq!(ppu.pixeldata[0], 0);
    ppu.cycle();
    assert_eq!(ppu.timing.cycle, 1);
    assert_eq!(ppu.timing.scanline, 0);
    // An empty composition register selects palette entry zero.
    assert_eq!(ppu.pixeldata[0], 0x7c);
    assert_eq!(ppu.pixeldata[1], 0x7c);
    assert_eq!(ppu.pixeldata[2], 0x7c);
}

#[test]
fn odd_frame_skips_final_dot_when_rendering() {
    let mut ppu = make_ppu();
    ppu.write_control_2(0x08);
    ppu.timing.oddframe = true;
    ppu.timing.scanline = 261;
    ppu.timing.cycle = 339;
    ppu.cycle();
    assert_eq!(ppu.timing.scanline, 0);
    assert_eq!(ppu.timing.cycle, 0);
    assert!(!ppu.timing.oddframe);
}

#[test]
fn coarse_x_increment_wraps_nametable() {
    let mut ppu = make_ppu();
    ppu.timing.vram_addr = 0x001f;
    ppu.increment_x();
    assert_eq!(ppu.timing.vram_addr, 0x0400);
    ppu.timing.vram_addr = 0x0005;
    ppu.increment_x();
    assert_eq!(ppu.timing.vram_addr, 0x0006);
}

#[test]
fn coarse_y_increment_wraps_at_row_thirty() {
    let mut ppu = make_ppu();
    // Fine Y below 7 steps fine Y.
    ppu.timing.vram_addr = 0x0000;
    ppu.increment_y();
    assert_eq!(ppu.timing.vram_addr, 0x1000);
    // Fine Y 7, coarse Y 29: both clear, vertical nametable toggles.
    ppu.timing.vram_addr = 0x7000 | (29 << 5);
    ppu.increment_y();
    assert_eq!(ppu.timing.vram_addr, 0x0800);
}
