use nes::cartridge::Cartridge;
use nes::cpu::{Interrupt, CPU};
use nes::errors::NesError;
use nes::instructions::{AddressingMode, Op};
use nes::memory::CPUMemoryMap;
use nes::ppu::PPU;

fn make_cpu(prog: &[u8], reset: u16, nmi_vec: u16) -> CPU {
    let mut prg = vec![0u8; 0x4000];
    for (i, b) in prog.iter().enumerate() {
        prg[i] = *b;
    }
    prg[0x3ffa] = (nmi_vec & 0xff) as u8;
    prg[0x3ffb] = (nmi_vec >> 8) as u8;
    prg[0x3ffc] = (reset & 0xff) as u8;
    prg[0x3ffd] = (reset >> 8) as u8;
    let chr = vec![0u8; 0x2000];
    let cart = Cartridge { prg, chr };
    let ppu = PPU::new(cart.chr.clone());
    let mem = CPUMemoryMap::new(cart, ppu);
    CPU::new(mem)
}

#[test]
fn reset_vector_loads_program_counter() {
    let cpu = make_cpu(&[], 0x8000, 0x9000);
    assert_eq!(cpu.regs.pc, 0x8000);
    assert_eq!(cpu.regs.sp, 0xfd);
    assert_eq!(cpu.regs.a, 0);
}

#[test]
fn stack_roundtrip_restores_value_and_pointer() {
    let mut cpu = make_cpu(&[], 0x8000, 0x9000);
    for start in [0x00u8, 0x01, 0x80, 0xfd, 0xff] {
        cpu.regs.sp = start;
        cpu.push16(0xbeef);
        assert_eq!(cpu.regs.sp, start.wrapping_sub(2));
        let back = cpu.pop16();
        assert_eq!(back, 0xbeef);
        assert_eq!(cpu.regs.sp, start);
    }
}

#[test]
fn lda_immediate_zero_sets_zero_clears_negative() {
    let mut cpu = make_cpu(&[0xa9, 0x00], 0x8000, 0x9000);
    let cycles = cpu.step(Interrupt::IntNone).unwrap();
    assert_eq!(cycles, 2);
    assert_eq!(cpu.regs.a, 0x00);
    assert!(cpu.regs.z);
    assert!(!cpu.regs.n);
    assert_eq!(cpu.regs.pc, 0x8002);
}

#[test]
fn lda_immediate_negative_sets_negative_clears_zero() {
    let mut cpu = make_cpu(&[0xa9, 0x80], 0x8000, 0x9000);
    cpu.step(Interrupt::IntNone).unwrap();
    assert_eq!(cpu.regs.a, 0x80);
    assert!(!cpu.regs.z);
    assert!(cpu.regs.n);
}

#[test]
fn flags_follow_result_for_arithmetic() {
    // LDX #$01; then ADC #$FF with A=1: result 0, carry out.
    let mut cpu = make_cpu(&[0xa9, 0x01, 0x69, 0xff], 0x8000, 0x9000);
    cpu.step(Interrupt::IntNone).unwrap();
    cpu.step(Interrupt::IntNone).unwrap();
    assert_eq!(cpu.regs.a, 0x00);
    assert!(cpu.regs.z);
    assert!(!cpu.regs.n);
    assert!(cpu.regs.c);
}

#[test]
fn adc_signed_overflow() {
    // A = 0x50 + 0x50 = 0xA0: signed overflow, negative set.
    let mut cpu = make_cpu(&[0xa9, 0x50, 0x69, 0x50], 0x8000, 0x9000);
    cpu.step(Interrupt::IntNone).unwrap();
    cpu.step(Interrupt::IntNone).unwrap();
    assert_eq!(cpu.regs.a, 0xa0);
    assert!(cpu.regs.v);
    assert!(cpu.regs.n);
    assert!(!cpu.regs.c);
}

#[test]
fn sbc_with_carry_set_subtracts_exactly() {
    // SEC; LDA #$05; SBC #$03 -> 2, carry kept (no borrow).
    let mut cpu = make_cpu(&[0x38, 0xa9, 0x05, 0xe9, 0x03], 0x8000, 0x9000);
    cpu.step(Interrupt::IntNone).unwrap();
    cpu.step(Interrupt::IntNone).unwrap();
    cpu.step(Interrupt::IntNone).unwrap();
    assert_eq!(cpu.regs.a, 0x02);
    assert!(cpu.regs.c);
    assert!(!cpu.regs.z);
    assert!(!cpu.regs.n);
}

#[test]
fn absolute_indexed_page_cross_reports_and_costs_one_extra_cycle() {
    // Resolution at the documented corner: base 0x20FF plus 1 crosses into 0x2100.
    let mut cpu = make_cpu(&[], 0x8000, 0x9000);
    cpu.regs.pc = 0x0000;
    cpu.memory.ram[1] = 0xff;
    cpu.memory.ram[2] = 0x20;
    cpu.regs.x = 1;
    let (addr, crossed) = cpu.resolve(AddressingMode::AbsoluteX).unwrap();
    assert_eq!(addr, 0x2100);
    assert!(crossed);

    // The same cross against console memory shows the extra cycle.
    let mut cpu = make_cpu(&[0xa2, 0x01, 0xbd, 0xff, 0x10], 0x8000, 0x9000);
    cpu.step(Interrupt::IntNone).unwrap();
    let cycles = cpu.step(Interrupt::IntNone).unwrap();
    assert_eq!(cycles, 5);

    // Without a cross the base cost stands.
    let mut cpu = make_cpu(&[0xa2, 0x01, 0xbd, 0x00, 0x10], 0x8000, 0x9000);
    cpu.step(Interrupt::IntNone).unwrap();
    let cycles = cpu.step(Interrupt::IntNone).unwrap();
    assert_eq!(cycles, 4);
}

#[test]
fn nmi_sequence_pushes_and_vectors() {
    let mut cpu = make_cpu(&[], 0x8000, 0x9000);
    assert_eq!(cpu.regs.pc, 0x8000);
    assert_eq!(cpu.regs.sp, 0xfd);
    cpu.nmi();
    assert_eq!(cpu.memory.ram[0x1fd], 0x80);
    assert_eq!(cpu.memory.ram[0x1fc], 0x00);
    assert_eq!(cpu.memory.ram[0x1fb], 0x00);
    assert_eq!(cpu.regs.sp, 0xfa);
    assert!(cpu.regs.i);
    assert_eq!(cpu.regs.pc, 0x9000);
}

#[test]
fn nmi_step_accounts_seven_extra_cycles() {
    let mut cpu = make_cpu(&[], 0x8000, 0x9000);
    // A NOP waits at the interrupt vector.
    cpu.memory.cart.prg[0x1000] = 0xea;
    let cycles = cpu.step(Interrupt::IntNMI).unwrap();
    assert_eq!(cycles, 2 + 7);
    assert_eq!(cpu.regs.pc, 0x9001);
}

#[test]
fn maskable_interrupt_is_refused() {
    let mut cpu = make_cpu(&[0xea], 0x8000, 0x9000);
    assert_eq!(cpu.step(Interrupt::IntIRQ), Err(NesError::UnsupportedInterrupt));
}

#[test]
fn unimplemented_opcode_fails_loudly() {
    let mut cpu = make_cpu(&[0x00], 0x8000, 0x9000);
    assert_eq!(
        cpu.step(Interrupt::IntNone),
        Err(NesError::UnimplementedInstruction { op: Op::Brk })
    );
}

#[test]
fn load_outside_decode_ranges_is_refused() {
    let mut cpu = make_cpu(&[0xad, 0x00, 0x50], 0x8000, 0x9000);
    assert_eq!(
        cpu.step(Interrupt::IntNone),
        Err(NesError::InvalidMemoryAccess { address: 0x5000 })
    );
}

#[test]
fn store_to_program_memory_is_refused() {
    let mut cpu = make_cpu(&[0x8d, 0x00, 0x90], 0x8000, 0x9000);
    assert_eq!(
        cpu.step(Interrupt::IntNone),
        Err(NesError::InvalidMemoryAccess { address: 0x9000 })
    );
}

#[test]
fn branch_taken_moves_to_target() {
    // BNE forward by 4 with zero clear.
    let mut cpu = make_cpu(&[0xa9, 0x01, 0xd0, 0x04], 0x8000, 0x9000);
    cpu.step(Interrupt::IntNone).unwrap();
    cpu.step(Interrupt::IntNone).unwrap();
    assert_eq!(cpu.regs.pc, 0x8008);
}

#[test]
fn branch_not_taken_falls_through() {
    // BEQ with zero clear falls through.
    let mut cpu = make_cpu(&[0xa9, 0x01, 0xf0, 0x04], 0x8000, 0x9000);
    cpu.step(Interrupt::IntNone).unwrap();
    cpu.step(Interrupt::IntNone).unwrap();
    assert_eq!(cpu.regs.pc, 0x8004);
}

#[test]
fn jsr_rts_roundtrip() {
    // JSR $8010 ... at $8010 RTS comes back to the next instruction.
    let mut prog = vec![0x20, 0x10, 0x80];
    prog.resize(0x10, 0xea);
    prog.push(0x60);
    let mut cpu = make_cpu(&prog, 0x8000, 0x9000);
    cpu.step(Interrupt::IntNone).unwrap();
    assert_eq!(cpu.regs.pc, 0x8010);
    cpu.step(Interrupt::IntNone).unwrap();
    assert_eq!(cpu.regs.pc, 0x8003);
}

#[test]
fn shifts_update_carry_and_result() {
    // LDA #$81; ASL A -> 0x02, carry set.
    let mut cpu = make_cpu(&[0xa9, 0x81, 0x0a], 0x8000, 0x9000);
    cpu.step(Interrupt::IntNone).unwrap();
    cpu.step(Interrupt::IntNone).unwrap();
    assert_eq!(cpu.regs.a, 0x02);
    assert!(cpu.regs.c);
    // LSR A -> 0x01, carry clear.
    let mut cpu = make_cpu(&[0xa9, 0x02, 0x4a], 0x8000, 0x9000);
    cpu.step(Interrupt::IntNone).unwrap();
    cpu.step(Interrupt::IntNone).unwrap();
    assert_eq!(cpu.regs.a, 0x01);
    assert!(!cpu.regs.c);
}

#[test]
fn rotate_through_carry() {
    // SEC; LDA #$80; ROL A -> 0x01 with carry out set.
    let mut cpu = make_cpu(&[0x38, 0xa9, 0x80, 0x2a], 0x8000, 0x9000);
    cpu.step(Interrupt::IntNone).unwrap();
    cpu.step(Interrupt::IntNone).unwrap();
    cpu.step(Interrupt::IntNone).unwrap();
    assert_eq!(cpu.regs.a, 0x01);
    assert!(cpu.regs.c);
}

#[test]
fn php_plp_status_byte_layout() {
    // SEC; PHP leaves carry in bit 0 of the pushed byte.
    let mut cpu = make_cpu(&[0x38, 0x08], 0x8000, 0x9000);
    cpu.step(Interrupt::IntNone).unwrap();
    cpu.step(Interrupt::IntNone).unwrap();
    assert_eq!(cpu.memory.ram[0x1fd], 0x01);
}

#[test]
fn inc_dec_memory_wraps_and_sets_flags() {
    // INC $10 over 0xFF wraps to zero.
    let mut cpu = make_cpu(&[0xe6, 0x10], 0x8000, 0x9000);
    cpu.memory.ram[0x10] = 0xff;
    cpu.step(Interrupt::IntNone).unwrap();
    assert_eq!(cpu.memory.ram[0x10], 0x00);
    assert!(cpu.regs.z);
    // DEC $10 from zero wraps to 0xFF, negative.
    let mut cpu = make_cpu(&[0xc6, 0x10], 0x8000, 0x9000);
    cpu.step(Interrupt::IntNone).unwrap();
    assert_eq!(cpu.memory.ram[0x10], 0xff);
    assert!(cpu.regs.n);
}

#[test]
fn compare_sets_carry_zero_negative() {
    // LDA #$05; CMP #$05 -> equal: carry and zero.
    let mut cpu = make_cpu(&[0xa9, 0x05, 0xc9, 0x05], 0x8000, 0x9000);
    cpu.step(Interrupt::IntNone).unwrap();
    cpu.step(Interrupt::IntNone).unwrap();
    assert!(cpu.regs.c);
    assert!(cpu.regs.z);
    assert!(!cpu.regs.n);
    // LDA #$03; CMP #$05 -> borrow: carry clear, negative from 0xFE.
    let mut cpu = make_cpu(&[0xa9, 0x03, 0xc9, 0x05], 0x8000, 0x9000);
    cpu.step(Interrupt::IntNone).unwrap();
    cpu.step(Interrupt::IntNone).unwrap();
    assert!(!cpu.regs.c);
    assert!(!cpu.regs.z);
    assert!(cpu.regs.n);
}

#[test]
fn flags_string_lists_raised_flags() {
    let mut cpu = make_cpu(&[], 0x8000, 0x9000);
    assert_eq!(cpu.flags_str(), "");
    cpu.regs.n = true;
    cpu.regs.c = true;
    cpu.regs.z = true;
    assert_eq!(cpu.flags_str(), "ncz");
}

#[test]
fn maskable_interrupt_line_reports_unsupported() {
    let mut cpu = make_cpu(&[], 0x8000, 0x9000);
    assert_eq!(cpu.irq(), Err(NesError::UnsupportedInterrupt));
}

#[test]
fn zero_page_indexed_stays_in_page_zero() {
    let mut cpu = make_cpu(&[], 0x8000, 0x9000);
    cpu.regs.pc = 0x0000;
    cpu.memory.ram[1] = 0xff;
    cpu.regs.x = 2;
    let (addr, crossed) = cpu.resolve(AddressingMode::ZeroPageX).unwrap();
    assert_eq!(addr, 0x0001);
    assert!(!crossed);
}

#[test]
fn indirect_jump_follows_pointer() {
    // JMP ($0010) with the pointer naming $8005.
    let mut cpu = make_cpu(&[0x6c, 0x10, 0x00], 0x8000, 0x9000);
    cpu.memory.ram[0x10] = 0x05;
    cpu.memory.ram[0x11] = 0x80;
    cpu.step(Interrupt::IntNone).unwrap();
    assert_eq!(cpu.regs.pc, 0x8005);
}

#[test]
fn indirect_indexed_reads_pointer_then_adds_index() {
    let mut cpu = make_cpu(&[], 0x8000, 0x9000);
    cpu.regs.pc = 0x0000;
    cpu.memory.ram[1] = 0x10;
    cpu.memory.ram[0x10] = 0xfe;
    cpu.memory.ram[0x11] = 0x01;
    cpu.regs.y = 3;
    let (addr, crossed) = cpu.resolve(AddressingMode::IndirectIndexed).unwrap();
    assert_eq!(addr, 0x0201);
    assert!(crossed);
}

#[test]
fn rti_restores_flags_and_program_counter() {
    // Hand-build an interrupt frame on the stack, then RTI.
    let mut cpu = make_cpu(&[0x40], 0x8000, 0x9000);
    cpu.regs.sp = 0xfa;
    cpu.memory.ram[0x1fb] = 0x81;  // carry and negative
    cpu.memory.ram[0x1fc] = 0x34;
    cpu.memory.ram[0x1fd] = 0x82;
    cpu.step(Interrupt::IntNone).unwrap();
    assert_eq!(cpu.regs.pc, 0x8234);
    assert!(cpu.regs.c);
    assert!(cpu.regs.n);
    assert!(!cpu.regs.z);
    assert_eq!(cpu.regs.sp, 0xfd);
}

#[test]
fn logic_operations_update_accumulator() {
    // LDA #$F0; AND #$3C -> 0x30.
    let mut cpu = make_cpu(&[0xa9, 0xf0, 0x29, 0x3c], 0x8000, 0x9000);
    cpu.step(Interrupt::IntNone).unwrap();
    cpu.step(Interrupt::IntNone).unwrap();
    assert_eq!(cpu.regs.a, 0x30);
    // LDA #$F0; ORA #$0C -> 0xFC, negative.
    let mut cpu = make_cpu(&[0xa9, 0xf0, 0x09, 0x0c], 0x8000, 0x9000);
    cpu.step(Interrupt::IntNone).unwrap();
    cpu.step(Interrupt::IntNone).unwrap();
    assert_eq!(cpu.regs.a, 0xfc);
    assert!(cpu.regs.n);
    // LDA #$FF; EOR #$0F -> 0xF0; flags follow the accumulator.
    let mut cpu = make_cpu(&[0xa9, 0xff, 0x49, 0x0f], 0x8000, 0x9000);
    cpu.step(Interrupt::IntNone).unwrap();
    cpu.step(Interrupt::IntNone).unwrap();
    assert_eq!(cpu.regs.a, 0xf0);
    assert!(cpu.regs.n);
    assert!(!cpu.regs.z);
}

#[test]
fn stores_write_registers_to_memory() {
    // LDA #$AA; STA $10; LDX #$BB; STX $11; LDY #$CC; STY $12.
    let mut cpu = make_cpu(
        &[0xa9, 0xaa, 0x85, 0x10, 0xa2, 0xbb, 0x86, 0x11, 0xa0, 0xcc, 0x84, 0x12],
        0x8000,
        0x9000,
    );
    for _ in 0..6 {
        cpu.step(Interrupt::IntNone).unwrap();
    }
    assert_eq!(cpu.memory.ram[0x10], 0xaa);
    assert_eq!(cpu.memory.ram[0x11], 0xbb);
    assert_eq!(cpu.memory.ram[0x12], 0xcc);
}

#[test]
fn cycle_counter_accumulates_across_steps() {
    let mut cpu = make_cpu(&[0xa9, 0x01, 0xea], 0x8000, 0x9000);
    cpu.step(Interrupt::IntNone).unwrap();
    cpu.step(Interrupt::IntNone).unwrap();
    assert_eq!(cpu.cycles, 4);
    assert_eq!(cpu.this_cycles, 2);
}
