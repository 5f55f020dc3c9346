use nes::instructions::{instruction_for, mnemonic, AddressingMode, Op};

fn mode_bytes(mode: AddressingMode) -> u8 {
    match mode {
        AddressingMode::Implicit | AddressingMode::Accumulator => 1,
        AddressingMode::Absolute
        | AddressingMode::AbsoluteX
        | AddressingMode::AbsoluteY
        | AddressingMode::Indirect => 3,
        _ => 2,
    }
}

#[test]
fn descriptor_table_is_total_and_sane() {
    for opcode in 0..=255u8 {
        let instr = instruction_for(opcode);
        let name = mnemonic(instr.op);
        assert!(!name.is_empty());
        assert_eq!(name.len(), 3);
        assert!(instr.size >= 1);
        assert!(instr.size <= 3);
        assert_eq!(instr.size, mode_bytes(instr.addr_mode));
        assert!(instr.cycles >= 2);
        assert!(instr.cycles <= 8);
        assert!(instr.page_delay <= 1);
    }
}

#[test]
fn descriptor_spot_checks() {
    let lda_imm = instruction_for(0xa9);
    assert_eq!(lda_imm.op, Op::Lda);
    assert_eq!(lda_imm.addr_mode, AddressingMode::Immediate);
    assert_eq!(lda_imm.cycles, 2);
    assert_eq!(lda_imm.size, 2);

    let brk = instruction_for(0x00);
    assert_eq!(brk.op, Op::Brk);
    assert_eq!(brk.addr_mode, AddressingMode::Implicit);
    assert_eq!(brk.cycles, 7);

    let jmp_ind = instruction_for(0x6c);
    assert_eq!(jmp_ind.op, Op::Jmp);
    assert_eq!(jmp_ind.addr_mode, AddressingMode::Indirect);
    assert_eq!(jmp_ind.cycles, 5);
    assert_eq!(jmp_ind.size, 3);

    let lda_absx = instruction_for(0xbd);
    assert_eq!(lda_absx.op, Op::Lda);
    assert_eq!(lda_absx.addr_mode, AddressingMode::AbsoluteX);
    assert_eq!(lda_absx.page_delay, 1);

    let sta_absx = instruction_for(0x9d);
    assert_eq!(sta_absx.op, Op::Sta);
    assert_eq!(sta_absx.page_delay, 0);
    assert_eq!(sta_absx.cycles, 5);
}

#[test]
fn mnemonic_names() {
    assert_eq!(mnemonic(Op::Adc), "ADC");
    assert_eq!(mnemonic(Op::Kil), "KIL");
    assert_eq!(mnemonic(Op::Txs), "TXS");
}
