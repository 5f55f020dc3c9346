use nes::cartridge::Cartridge;
use nes::errors::NesError;
use nes::memory::{CPUMemoryMap, PPUMemoryMap};
use nes::ppu::PPU;

fn make_bus() -> CPUMemoryMap {
    let mut prg = vec![0u8; 0x4000];
    for i in 0..0x4000 {
        prg[i] = (i % 251) as u8;
    }
    let chr = vec![0u8; 0x2000];
    let cart = Cartridge { prg, chr };
    let ppu = PPU::new(cart.chr.clone());
    CPUMemoryMap::new(cart, ppu)
}

#[test]
fn console_memory_mirrors_every_2k() {
    let mut bus = make_bus();
    bus.write(0xab, 0x0005).unwrap();
    assert_eq!(bus.read(0x0005), Ok(0xab));
    assert_eq!(bus.read(0x0805), Ok(0xab));
    assert_eq!(bus.read(0x1005), Ok(0xab));
    assert_eq!(bus.read(0x1805), Ok(0xab));
    bus.write(0xcd, 0x1805).unwrap();
    assert_eq!(bus.read(0x0005), Ok(0xcd));
}

#[test]
fn program_memory_mirrors_across_upper_half() {
    let bus = make_bus();
    assert_eq!(bus.read(0x8000), bus.read(0xc000));
    assert_eq!(bus.read(0x8123), bus.read(0xc123));
    assert_eq!(bus.read(0x8000), Ok(0));
    assert_eq!(bus.read(0x8005), Ok(5));
}

#[test]
fn read16_is_little_endian() {
    let mut bus = make_bus();
    bus.write(0x34, 0x0010).unwrap();
    bus.write(0x12, 0x0011).unwrap();
    assert_eq!(bus.read16(0x0010), Ok(0x1234));
}

#[test]
fn controller_ports_read_inert_zero() {
    let bus = make_bus();
    assert_eq!(bus.read(0x4016), Ok(0));
    assert_eq!(bus.read(0x4017), Ok(0));
}

#[test]
fn audio_ports_swallow_writes_and_refuse_reads() {
    let mut bus = make_bus();
    assert_eq!(bus.write(0x55, 0x4000), Ok(()));
    assert_eq!(bus.write(0x55, 0x4015), Ok(()));
    assert_eq!(
        bus.read(0x4000),
        Err(NesError::InvalidMemoryAccess { address: 0x4000 })
    );
}

#[test]
fn unmapped_ranges_are_refused() {
    let mut bus = make_bus();
    assert_eq!(
        bus.read(0x5000),
        Err(NesError::InvalidMemoryAccess { address: 0x5000 })
    );
    assert_eq!(
        bus.read(0x6000),
        Err(NesError::InvalidMemoryAccess { address: 0x6000 })
    );
    assert_eq!(
        bus.write(0x01, 0x4018),
        Err(NesError::InvalidMemoryAccess { address: 0x4018 })
    );
    assert_eq!(
        bus.write(0x01, 0x8000),
        Err(NesError::InvalidMemoryAccess { address: 0x8000 })
    );
}

#[test]
fn video_register_ports_decode_modulo_eight() {
    let mut bus = make_bus();
    // Port 0 mirrored at 0x2008.
    bus.write(0x80, 0x2008).unwrap();
    assert!(bus.ppu.regs.flag_vblank_enable);
    // Port 2 read returns the status byte wherever it is mirrored.
    assert_eq!(bus.read(0x2002), Ok(0));
    assert_eq!(bus.read(0x3ffa), Ok(0));
    // Port 0 read is refused.
    assert_eq!(bus.read(0x2000), Err(NesError::InvalidPortAccess { port: 0 }));
    assert_eq!(bus.read(0x2004), Err(NesError::UnimplementedPort { port: 4 }));
}

#[test]
fn oam_block_copy_latches_a_whole_page() {
    let mut bus = make_bus();
    for i in 0..256u16 {
        bus.write(i as u8, 0x0200 + i).unwrap();
    }
    bus.write(0x02, 0x4014).unwrap();
    for i in 0..256usize {
        assert_eq!(bus.ppu.oam[i], i as u8);
    }
}

#[test]
fn oam_block_copy_from_ports_is_refused_whole() {
    let mut bus = make_bus();
    bus.ppu.oam[0] = 0x99;
    assert_eq!(
        bus.write(0x20, 0x4014),
        Err(NesError::InvalidPortAccess { port: 0 })
    );
    assert_eq!(bus.ppu.oam[0], 0x99);
}

#[test]
fn video_space_regions_and_mirrors() {
    let mut map = PPUMemoryMap::new(vec![7u8; 0x2000]);
    assert_eq!(map.read(0x0000), Ok(7));
    assert_eq!(map.read(0x1fff), Ok(7));
    assert_eq!(
        map.write(0x01, 0x0000),
        Err(NesError::InvalidMemoryAccess { address: 0 })
    );
    map.write(0x42, 0x2abc).unwrap();
    assert_eq!(map.read(0x2abc), Ok(0x42));
    // Nametable memory mirrors every 2 KiB within its window.
    assert_eq!(map.read(0x32bc), Ok(0x42));
    map.write(0x17, 0x3f05).unwrap();
    assert_eq!(map.read(0x3f25), Ok(0x17));
    assert_eq!(
        map.read(0x4000),
        Err(NesError::InvalidMemoryAccess { address: 0x4000 })
    );
}
