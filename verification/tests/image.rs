use nes::cartridge::Cartridge;
use nes::controller::Controller;
use nes::errors::NesError;
use nes::ines::{check_header, INesInfo};

fn image(prg_units: u8, chr_units: u8) -> Vec<u8> {
    let mut data = vec![0x4e, 0x45, 0x53, 0x1a];
    data.push(prg_units);
    data.push(chr_units);
    data.resize(16, 0);
    for i in 0..(0x4000 * prg_units as usize) {
        data.push((i % 7) as u8);
    }
    for i in 0..(0x2000 * chr_units as usize) {
        data.push((i % 5) as u8);
    }
    data
}

#[test]
fn header_check_accepts_magic_and_rejects_others() {
    assert!(check_header(&vec![0x4e, 0x45, 0x53, 0x1a, 0x01]));
    assert!(!check_header(&vec![0x4e, 0x45, 0x53, 0x00, 0x01]));
    assert!(!check_header(&vec![0x4e, 0x45]));
    assert!(!check_header(&Vec::new()));
}

#[test]
fn parse_splits_program_and_pattern_regions() {
    let info = INesInfo::new(image(1, 1)).unwrap();
    assert_eq!(info.prgunits, 1);
    assert_eq!(info.chrunits, 1);
    assert_eq!(info.prgrom.len(), 0x4000);
    assert_eq!(info.chrrom.len(), 0x2000);
    assert_eq!(info.prgrom[0], 0);
    assert_eq!(info.prgrom[8], 1);
    assert_eq!(info.chrrom[0], 0);
    assert_eq!(info.chrrom[6], 1);
}

#[test]
fn parse_rejects_bad_magic() {
    let mut data = image(1, 1);
    data[0] = 0x00;
    assert!(matches!(INesInfo::new(data), Err(NesError::MalformedImage)));
}

#[test]
fn parse_rejects_truncated_image() {
    let mut data = image(1, 1);
    data.truncate(100);
    assert!(matches!(INesInfo::new(data), Err(NesError::MalformedImage)));
}

#[test]
fn cartridge_accepts_single_bank_layout() {
    let cart = Cartridge::new(INesInfo::new(image(1, 1)).unwrap()).unwrap();
    assert_eq!(cart.prg.len(), 0x4000);
    assert_eq!(cart.chr.len(), 0x2000);
    assert_eq!(cart.read(0x0008), 1);
    // The single bank repeats every 16 KiB of offset.
    assert_eq!(cart.read(0x4008), 1);
}

#[test]
fn cartridge_refuses_other_layouts() {
    assert!(matches!(
        Cartridge::new(INesInfo::new(image(2, 1)).unwrap()),
        Err(NesError::UnsupportedCartridge)
    ));
}

#[test]
fn cartridge_program_memory_is_read_only() {
    let mut cart = Cartridge::new(INesInfo::new(image(1, 1)).unwrap()).unwrap();
    assert_eq!(
        cart.write(0x01, 0x0010),
        Err(NesError::InvalidMemoryAccess { address: 0x0010 })
    );
    assert_eq!(cart.read(0x0010), cart.prg[0x0010]);
}

#[test]
fn controller_shifts_buttons_one_bit_per_read() {
    let mut pad = Controller::new(true);
    // While the strobe is held, every read reports the first button.
    pad.set_all([true, false, true, false, false, false, false, true]);
    assert_eq!(pad.read(), 1);
    assert_eq!(pad.read(), 1);
    // Dropping the strobe walks the register.
    pad.write(0);
    assert_eq!(pad.read(), 1);
    assert_eq!(pad.read(), 0);
    assert_eq!(pad.read(), 1);
    for _ in 0..4 {
        pad.read();
    }
    assert_eq!(pad.read(), 1);
    // Past the eighth button only zeros come out.
    assert_eq!(pad.read(), 0);
    assert_eq!(pad.read(), 0);
}

#[test]
fn controller_ignores_buttons_without_strobe() {
    let mut pad = Controller::new(true);
    pad.write(0);
    pad.set_all([true; 8]);
    assert_eq!(pad.read(), 0);
}

#[test]
fn controller_strobe_line_can_be_disabled() {
    let mut pad = Controller::new(false);
    pad.write(1);
    assert!(!pad.strobe);
}
