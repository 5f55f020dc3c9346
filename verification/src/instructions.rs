use vstd::prelude::*;

verus! {

/// How an instruction names its operand: a closed set of thirteen ways to
/// turn the bytes after the opcode into an effective address.
#[derive(Clone, Copy, Debug, PartialEq, Eq, Structural)]
pub enum AddressingMode {
    Implicit,
    Accumulator,
    Immediate,
    ZeroPage,
    ZeroPageX,
    ZeroPageY,
    Relative,
    Absolute,
    AbsoluteX,
    AbsoluteY,
    Indirect,
    IndexedIndirect,
    IndirectIndexed,
}

/// The operation an opcode performs, one variant per mnemonic; the opcode
/// byte is decoded to one of these and dispatched on it.
#[derive(Clone, Copy, Debug, PartialEq, Eq, Structural)]
pub enum Op {
    Adc,
    Ahx,
    Alr,
    Anc,
    And,
    Arr,
    Asl,
    Axs,
    Bcc,
    Bcs,
    Beq,
    Bit,
    Bmi,
    Bne,
    Bpl,
    Brk,
    Bvc,
    Bvs,
    Clc,
    Cld,
    Cli,
    Clv,
    Cmp,
    Cpx,
    Cpy,
    Dcp,
    Dec,
    Dex,
    Dey,
    Eor,
    Inc,
    Inx,
    Iny,
    Isc,
    Jmp,
    Jsr,
    Kil,
    Las,
    Lax,
    Lda,
    Ldx,
    Ldy,
    Lsr,
    Nop,
    Ora,
    Pha,
    Php,
    Pla,
    Plp,
    Rla,
    Rol,
    Ror,
    Rra,
    Rti,
    Rts,
    Sax,
    Sbc,
    Sec,
    Sed,
    Sei,
    Shx,
    Shy,
    Slo,
    Sre,
    Sta,
    Stx,
    Sty,
    Tas,
    Tax,
    Tay,
    Tsx,
    Txa,
    Txs,
    Tya,
    Xaa,
}

/// One entry of the opcode descriptor table.
#[derive(Clone, Copy, Debug, PartialEq, Eq, Structural)]
pub struct Instruction {
    /// The operation to dispatch to.
    pub op: Op,
    /// Addressing mode used in the operand lookup.
    pub addr_mode: AddressingMode,
    /// Clock cycles the instruction costs before any penalty.
    pub cycles: u8,
    /// The extra cycle paid when the operand lookup crosses a page.
    pub page_delay: u8,
    /// Whole length of the instruction in bytes, opcode included.
    pub size: u8,
}

/// How many bytes an instruction with this addressing mode occupies,
/// opcode byte included.
pub open spec fn mode_len(mode: AddressingMode) -> u8 {
    match mode {
        AddressingMode::Implicit => 1,
        AddressingMode::Accumulator => 1,
        AddressingMode::Immediate => 2,
        AddressingMode::ZeroPage => 2,
        AddressingMode::ZeroPageX => 2,
        AddressingMode::ZeroPageY => 2,
        AddressingMode::Relative => 2,
        AddressingMode::Absolute => 3,
        AddressingMode::AbsoluteX => 3,
        AddressingMode::AbsoluteY => 3,
        AddressingMode::Indirect => 3,
        AddressingMode::IndexedIndirect => 2,
        AddressingMode::IndirectIndexed => 2,
    }
}

/// The descriptor table: entry `i` decodes opcode byte `i`. It is total
/// over all 256 byte values, so no fetch can miss.
pub open spec fn instr_spec(opcode: u8) -> Instruction {
    match opcode {
        0x00 => Instruction { op: Op::Brk, addr_mode: AddressingMode::Implicit, cycles: 7, page_delay: 0, size: 1 },
        0x01 => Instruction { op: Op::Ora, addr_mode: AddressingMode::IndexedIndirect, cycles: 6, page_delay: 0, size: 2 },
        0x02 => Instruction { op: Op::Kil, addr_mode: AddressingMode::Implicit, cycles: 2, page_delay: 0, size: 1 },
        0x03 => Instruction { op: Op::Slo, addr_mode: AddressingMode::IndexedIndirect, cycles: 8, page_delay: 0, size: 2 },
        0x04 => Instruction { op: Op::Nop, addr_mode: AddressingMode::ZeroPage, cycles: 3, page_delay: 0, size: 2 },
        0x05 => Instruction { op: Op::Ora, addr_mode: AddressingMode::ZeroPage, cycles: 3, page_delay: 0, size: 2 },
        0x06 => Instruction { op: Op::Asl, addr_mode: AddressingMode::ZeroPage, cycles: 5, page_delay: 0, size: 2 },
        0x07 => Instruction { op: Op::Slo, addr_mode: AddressingMode::ZeroPage, cycles: 5, page_delay: 0, size: 2 },
        0x08 => Instruction { op: Op::Php, addr_mode: AddressingMode::Implicit, cycles: 3, page_delay: 0, size: 1 },
        0x09 => Instruction { op: Op::Ora, addr_mode: AddressingMode::Immediate, cycles: 2, page_delay: 0, size: 2 },
        0x0a => Instruction { op: Op::Asl, addr_mode: AddressingMode::Accumulator, cycles: 2, page_delay: 0, size: 1 },
        0x0b => Instruction { op: Op::Anc, addr_mode: AddressingMode::Immediate, cycles: 2, page_delay: 0, size: 2 },
        0x0c => Instruction { op: Op::Nop, addr_mode: AddressingMode::Absolute, cycles: 4, page_delay: 0, size: 3 },
        0x0d => Instruction { op: Op::Ora, addr_mode: AddressingMode::Absolute, cycles: 4, page_delay: 0, size: 3 },
        0x0e => Instruction { op: Op::Asl, addr_mode: AddressingMode::Absolute, cycles: 6, page_delay: 0, size: 3 },
        0x0f => Instruction { op: Op::Slo, addr_mode: AddressingMode::Absolute, cycles: 6, page_delay: 0, size: 3 },
        0x10 => Instruction { op: Op::Bpl, addr_mode: AddressingMode::Relative, cycles: 2, page_delay: 1, size: 2 },
        0x11 => Instruction { op: Op::Ora, addr_mode: AddressingMode::IndirectIndexed, cycles: 5, page_delay: 1, size: 2 },
        0x12 => Instruction { op: Op::Kil, addr_mode: AddressingMode::Implicit, cycles: 2, page_delay: 0, size: 1 },
        0x13 => Instruction { op: Op::Slo, addr_mode: AddressingMode::IndirectIndexed, cycles: 8, page_delay: 0, size: 2 },
        0x14 => Instruction { op: Op::Nop, addr_mode: AddressingMode::ZeroPageX, cycles: 4, page_delay: 0, size: 2 },
        0x15 => Instruction { op: Op::Ora, addr_mode: AddressingMode::ZeroPageX, cycles: 4, page_delay: 0, size: 2 },
        0x16 => Instruction { op: Op::Asl, addr_mode: AddressingMode::ZeroPageX, cycles: 6, page_delay: 0, size: 2 },
        0x17 => Instruction { op: Op::Slo, addr_mode: AddressingMode::ZeroPageX, cycles: 6, page_delay: 0, size: 2 },
        0x18 => Instruction { op: Op::Clc, addr_mode: AddressingMode::Implicit, cycles: 2, page_delay: 0, size: 1 },
        0x19 => Instruction { op: Op::Ora, addr_mode: AddressingMode::AbsoluteY, cycles: 4, page_delay: 1, size: 3 },
        0x1a => Instruction { op: Op::Nop, addr_mode: AddressingMode::Implicit, cycles: 2, page_delay: 0, size: 1 },
        0x1b => Instruction { op: Op::Slo, addr_mode: AddressingMode::AbsoluteY, cycles: 7, page_delay: 0, size: 3 },
        0x1c => Instruction { op: Op::Nop, addr_mode: AddressingMode::AbsoluteX, cycles: 4, page_delay: 1, size: 3 },
        0x1d => Instruction { op: Op::Ora, addr_mode: AddressingMode::AbsoluteX, cycles: 4, page_delay: 1, size: 3 },
        0x1e => Instruction { op: Op::Asl, addr_mode: AddressingMode::AbsoluteX, cycles: 7, page_delay: 0, size: 3 },
        0x1f => Instruction { op: Op::Slo, addr_mode: AddressingMode::AbsoluteX, cycles: 7, page_delay: 0, size: 3 },
        0x20 => Instruction { op: Op::Jsr, addr_mode: AddressingMode::Absolute, cycles: 6, page_delay: 0, size: 3 },
        0x21 => Instruction { op: Op::And, addr_mode: AddressingMode::IndexedIndirect, cycles: 6, page_delay: 0, size: 2 },
        0x22 => Instruction { op: Op::Kil, addr_mode: AddressingMode::Implicit, cycles: 2, page_delay: 0, size: 1 },
        0x23 => Instruction { op: Op::Rla, addr_mode: AddressingMode::IndexedIndirect, cycles: 8, page_delay: 0, size: 2 },
        0x24 => Instruction { op: Op::Bit, addr_mode: AddressingMode::ZeroPage, cycles: 3, page_delay: 0, size: 2 },
        0x25 => Instruction { op: Op::And, addr_mode: AddressingMode::ZeroPage, cycles: 3, page_delay: 0, size: 2 },
        0x26 => Instruction { op: Op::Rol, addr_mode: AddressingMode::ZeroPage, cycles: 5, page_delay: 0, size: 2 },
        0x27 => Instruction { op: Op::Rla, addr_mode: AddressingMode::ZeroPage, cycles: 5, page_delay: 0, size: 2 },
        0x28 => Instruction { op: Op::Plp, addr_mode: AddressingMode::Implicit, cycles: 4, page_delay: 0, size: 1 },
        0x29 => Instruction { op: Op::And, addr_mode: AddressingMode::Immediate, cycles: 2, page_delay: 0, size: 2 },
        0x2a => Instruction { op: Op::Rol, addr_mode: AddressingMode::Accumulator, cycles: 2, page_delay: 0, size: 1 },
        0x2b => Instruction { op: Op::Anc, addr_mode: AddressingMode::Immediate, cycles: 2, page_delay: 0, size: 2 },
        0x2c => Instruction { op: Op::Bit, addr_mode: AddressingMode::Absolute, cycles: 4, page_delay: 0, size: 3 },
        0x2d => Instruction { op: Op::And, addr_mode: AddressingMode::Absolute, cycles: 4, page_delay: 0, size: 3 },
        0x2e => Instruction { op: Op::Rol, addr_mode: AddressingMode::Absolute, cycles: 6, page_delay: 0, size: 3 },
        0x2f => Instruction { op: Op::Rla, addr_mode: AddressingMode::Absolute, cycles: 6, page_delay: 0, size: 3 },
        0x30 => Instruction { op: Op::Bmi, addr_mode: AddressingMode::Relative, cycles: 2, page_delay: 1, size: 2 },
        0x31 => Instruction { op: Op::And, addr_mode: AddressingMode::IndirectIndexed, cycles: 5, page_delay: 1, size: 2 },
        0x32 => Instruction { op: Op::Kil, addr_mode: AddressingMode::Implicit, cycles: 2, page_delay: 0, size: 1 },
        0x33 => Instruction { op: Op::Rla, addr_mode: AddressingMode::IndirectIndexed, cycles: 8, page_delay: 0, size: 2 },
        0x34 => Instruction { op: Op::Nop, addr_mode: AddressingMode::ZeroPageX, cycles: 4, page_delay: 0, size: 2 },
        0x35 => Instruction { op: Op::And, addr_mode: AddressingMode::ZeroPageX, cycles: 4, page_delay: 0, size: 2 },
        0x36 => Instruction { op: Op::Rol, addr_mode: AddressingMode::ZeroPageX, cycles: 6, page_delay: 0, size: 2 },
        0x37 => Instruction { op: Op::Rla, addr_mode: AddressingMode::ZeroPageX, cycles: 6, page_delay: 0, size: 2 },
        0x38 => Instruction { op: Op::Sec, addr_mode: AddressingMode::Implicit, cycles: 2, page_delay: 0, size: 1 },
        0x39 => Instruction { op: Op::And, addr_mode: AddressingMode::AbsoluteY, cycles: 4, page_delay: 1, size: 3 },
        0x3a => Instruction { op: Op::Nop, addr_mode: AddressingMode::Implicit, cycles: 2, page_delay: 0, size: 1 },
        0x3b => Instruction { op: Op::Rla, addr_mode: AddressingMode::AbsoluteY, cycles: 7, page_delay: 0, size: 3 },
        0x3c => Instruction { op: Op::Nop, addr_mode: AddressingMode::AbsoluteX, cycles: 4, page_delay: 1, size: 3 },
        0x3d => Instruction { op: Op::And, addr_mode: AddressingMode::AbsoluteX, cycles: 4, page_delay: 1, size: 3 },
        0x3e => Instruction { op: Op::Rol, addr_mode: AddressingMode::AbsoluteX, cycles: 7, page_delay: 0, size: 3 },
        0x3f => Instruction { op: Op::Rla, addr_mode: AddressingMode::AbsoluteX, cycles: 7, page_delay: 0, size: 3 },
        0x40 => Instruction { op: Op::Rti, addr_mode: AddressingMode::Implicit, cycles: 6, page_delay: 0, size: 1 },
        0x41 => Instruction { op: Op::Eor, addr_mode: AddressingMode::IndexedIndirect, cycles: 6, page_delay: 0, size: 2 },
        0x42 => Instruction { op: Op::Kil, addr_mode: AddressingMode::Implicit, cycles: 2, page_delay: 0, size: 1 },
        0x43 => Instruction { op: Op::Sre, addr_mode: AddressingMode::IndexedIndirect, cycles: 8, page_delay: 0, size: 2 },
        0x44 => Instruction { op: Op::Nop, addr_mode: AddressingMode::ZeroPage, cycles: 3, page_delay: 0, size: 2 },
        0x45 => Instruction { op: Op::Eor, addr_mode: AddressingMode::ZeroPage, cycles: 3, page_delay: 0, size: 2 },
        0x46 => Instruction { op: Op::Lsr, addr_mode: AddressingMode::ZeroPage, cycles: 5, page_delay: 0, size: 2 },
        0x47 => Instruction { op: Op::Sre, addr_mode: AddressingMode::ZeroPage, cycles: 5, page_delay: 0, size: 2 },
        0x48 => Instruction { op: Op::Pha, addr_mode: AddressingMode::Implicit, cycles: 3, page_delay: 0, size: 1 },
        0x49 => Instruction { op: Op::Eor, addr_mode: AddressingMode::Immediate, cycles: 2, page_delay: 0, size: 2 },
        0x4a => Instruction { op: Op::Lsr, addr_mode: AddressingMode::Accumulator, cycles: 2, page_delay: 0, size: 1 },
        0x4b => Instruction { op: Op::Alr, addr_mode: AddressingMode::Immediate, cycles: 2, page_delay: 0, size: 2 },
        0x4c => Instruction { op: Op::Jmp, addr_mode: AddressingMode::Absolute, cycles: 3, page_delay: 0, size: 3 },
        0x4d => Instruction { op: Op::Eor, addr_mode: AddressingMode::Absolute, cycles: 4, page_delay: 0, size: 3 },
        0x4e => Instruction { op: Op::Lsr, addr_mode: AddressingMode::Absolute, cycles: 6, page_delay: 0, size: 3 },
        0x4f => Instruction { op: Op::Sre, addr_mode: AddressingMode::Absolute, cycles: 6, page_delay: 0, size: 3 },
        0x50 => Instruction { op: Op::Bvc, addr_mode: AddressingMode::Relative, cycles: 2, page_delay: 1, size: 2 },
        0x51 => Instruction { op: Op::Eor, addr_mode: AddressingMode::IndirectIndexed, cycles: 5, page_delay: 1, size: 2 },
        0x52 => Instruction { op: Op::Kil, addr_mode: AddressingMode::Implicit, cycles: 2, page_delay: 0, size: 1 },
        0x53 => Instruction { op: Op::Sre, addr_mode: AddressingMode::IndirectIndexed, cycles: 8, page_delay: 0, size: 2 },
        0x54 => Instruction { op: Op::Nop, addr_mode: AddressingMode::ZeroPageX, cycles: 4, page_delay: 0, size: 2 },
        0x55 => Instruction { op: Op::Eor, addr_mode: AddressingMode::ZeroPageX, cycles: 4, page_delay: 0, size: 2 },
        0x56 => Instruction { op: Op::Lsr, addr_mode: AddressingMode::ZeroPageX, cycles: 6, page_delay: 0, size: 2 },
        0x57 => Instruction { op: Op::Sre, addr_mode: AddressingMode::ZeroPageX, cycles: 6, page_delay: 0, size: 2 },
        0x58 => Instruction { op: Op::Cli, addr_mode: AddressingMode::Implicit, cycles: 2, page_delay: 0, size: 1 },
        0x59 => Instruction { op: Op::Eor, addr_mode: AddressingMode::AbsoluteY, cycles: 4, page_delay: 1, size: 3 },
        0x5a => Instruction { op: Op::Nop, addr_mode: AddressingMode::Implicit, cycles: 2, page_delay: 0, size: 1 },
        0x5b => Instruction { op: Op::Sre, addr_mode: AddressingMode::AbsoluteY, cycles: 7, page_delay: 0, size: 3 },
        0x5c => Instruction { op: Op::Nop, addr_mode: AddressingMode::AbsoluteX, cycles: 4, page_delay: 1, size: 3 },
        0x5d => Instruction { op: Op::Eor, addr_mode: AddressingMode::AbsoluteX, cycles: 4, page_delay: 1, size: 3 },
        0x5e => Instruction { op: Op::Lsr, addr_mode: AddressingMode::AbsoluteX, cycles: 7, page_delay: 0, size: 3 },
        0x5f => Instruction { op: Op::Sre, addr_mode: AddressingMode::AbsoluteX, cycles: 7, page_delay: 0, size: 3 },
        0x60 => Instruction { op: Op::Rts, addr_mode: AddressingMode::Implicit, cycles: 6, page_delay: 0, size: 1 },
        0x61 => Instruction { op: Op::Adc, addr_mode: AddressingMode::IndexedIndirect, cycles: 6, page_delay: 0, size: 2 },
        0x62 => Instruction { op: Op::Kil, addr_mode: AddressingMode::Implicit, cycles: 2, page_delay: 0, size: 1 },
        0x63 => Instruction { op: Op::Rra, addr_mode: AddressingMode::IndexedIndirect, cycles: 8, page_delay: 0, size: 2 },
        0x64 => Instruction { op: Op::Nop, addr_mode: AddressingMode::ZeroPage, cycles: 3, page_delay: 0, size: 2 },
        0x65 => Instruction { op: Op::Adc, addr_mode: AddressingMode::ZeroPage, cycles: 3, page_delay: 0, size: 2 },
        0x66 => Instruction { op: Op::Ror, addr_mode: AddressingMode::ZeroPage, cycles: 5, page_delay: 0, size: 2 },
        0x67 => Instruction { op: Op::Rra, addr_mode: AddressingMode::ZeroPage, cycles: 5, page_delay: 0, size: 2 },
        0x68 => Instruction { op: Op::Pla, addr_mode: AddressingMode::Implicit, cycles: 4, page_delay: 0, size: 1 },
        0x69 => Instruction { op: Op::Adc, addr_mode: AddressingMode::Immediate, cycles: 2, page_delay: 0, size: 2 },
        0x6a => Instruction { op: Op::Ror, addr_mode: AddressingMode::Accumulator, cycles: 2, page_delay: 0, size: 1 },
        0x6b => Instruction { op: Op::Arr, addr_mode: AddressingMode::Immediate, cycles: 2, page_delay: 0, size: 2 },
        0x6c => Instruction { op: Op::Jmp, addr_mode: AddressingMode::Indirect, cycles: 5, page_delay: 0, size: 3 },
        0x6d => Instruction { op: Op::Adc, addr_mode: AddressingMode::Absolute, cycles: 4, page_delay: 0, size: 3 },
        0x6e => Instruction { op: Op::Ror, addr_mode: AddressingMode::Absolute, cycles: 6, page_delay: 0, size: 3 },
        0x6f => Instruction { op: Op::Rra, addr_mode: AddressingMode::Absolute, cycles: 6, page_delay: 0, size: 3 },
        0x70 => Instruction { op: Op::Bvs, addr_mode: AddressingMode::Relative, cycles: 2, page_delay: 1, size: 2 },
        0x71 => Instruction { op: Op::Adc, addr_mode: AddressingMode::IndirectIndexed, cycles: 5, page_delay: 1, size: 2 },
        0x72 => Instruction { op: Op::Kil, addr_mode: AddressingMode::Implicit, cycles: 2, page_delay: 0, size: 1 },
        0x73 => Instruction { op: Op::Rra, addr_mode: AddressingMode::IndirectIndexed, cycles: 8, page_delay: 0, size: 2 },
        0x74 => Instruction { op: Op::Nop, addr_mode: AddressingMode::ZeroPageX, cycles: 4, page_delay: 0, size: 2 },
        0x75 => Instruction { op: Op::Adc, addr_mode: AddressingMode::ZeroPageX, cycles: 4, page_delay: 0, size: 2 },
        0x76 => Instruction { op: Op::Ror, addr_mode: AddressingMode::ZeroPageX, cycles: 6, page_delay: 0, size: 2 },
        0x77 => Instruction { op: Op::Rra, addr_mode: AddressingMode::ZeroPageX, cycles: 6, page_delay: 0, size: 2 },
        0x78 => Instruction { op: Op::Sei, addr_mode: AddressingMode::Implicit, cycles: 2, page_delay: 0, size: 1 },
        0x79 => Instruction { op: Op::Adc, addr_mode: AddressingMode::AbsoluteY, cycles: 4, page_delay: 1, size: 3 },
        0x7a => Instruction { op: Op::Nop, addr_mode: AddressingMode::Implicit, cycles: 2, page_delay: 0, size: 1 },
        0x7b => Instruction { op: Op::Rra, addr_mode: AddressingMode::AbsoluteY, cycles: 7, page_delay: 0, size: 3 },
        0x7c => Instruction { op: Op::Nop, addr_mode: AddressingMode::AbsoluteX, cycles: 4, page_delay: 1, size: 3 },
        0x7d => Instruction { op: Op::Adc, addr_mode: AddressingMode::AbsoluteX, cycles: 4, page_delay: 1, size: 3 },
        0x7e => Instruction { op: Op::Ror, addr_mode: AddressingMode::AbsoluteX, cycles: 7, page_delay: 0, size: 3 },
        0x7f => Instruction { op: Op::Rra, addr_mode: AddressingMode::AbsoluteX, cycles: 7, page_delay: 0, size: 3 },
        0x80 => Instruction { op: Op::Nop, addr_mode: AddressingMode::Immediate, cycles: 2, page_delay: 0, size: 2 },
        0x81 => Instruction { op: Op::Sta, addr_mode: AddressingMode::IndexedIndirect, cycles: 6, page_delay: 0, size: 2 },
        0x82 => Instruction { op: Op::Nop, addr_mode: AddressingMode::Immediate, cycles: 2, page_delay: 0, size: 2 },
        0x83 => Instruction { op: Op::Sax, addr_mode: AddressingMode::IndexedIndirect, cycles: 6, page_delay: 0, size: 2 },
        0x84 => Instruction { op: Op::Sty, addr_mode: AddressingMode::ZeroPage, cycles: 3, page_delay: 0, size: 2 },
        0x85 => Instruction { op: Op::Sta, addr_mode: AddressingMode::ZeroPage, cycles: 3, page_delay: 0, size: 2 },
        0x86 => Instruction { op: Op::Stx, addr_mode: AddressingMode::ZeroPage, cycles: 3, page_delay: 0, size: 2 },
        0x87 => Instruction { op: Op::Sax, addr_mode: AddressingMode::ZeroPage, cycles: 3, page_delay: 0, size: 2 },
        0x88 => Instruction { op: Op::Dey, addr_mode: AddressingMode::Implicit, cycles: 2, page_delay: 0, size: 1 },
        0x89 => Instruction { op: Op::Nop, addr_mode: AddressingMode::Immediate, cycles: 2, page_delay: 0, size: 2 },
        0x8a => Instruction { op: Op::Txa, addr_mode: AddressingMode::Implicit, cycles: 2, page_delay: 0, size: 1 },
        0x8b => Instruction { op: Op::Xaa, addr_mode: AddressingMode::Immediate, cycles: 2, page_delay: 0, size: 2 },
        0x8c => Instruction { op: Op::Sty, addr_mode: AddressingMode::Absolute, cycles: 4, page_delay: 0, size: 3 },
        0x8d => Instruction { op: Op::Sta, addr_mode: AddressingMode::Absolute, cycles: 4, page_delay: 0, size: 3 },
        0x8e => Instruction { op: Op::Stx, addr_mode: AddressingMode::Absolute, cycles: 4, page_delay: 0, size: 3 },
        0x8f => Instruction { op: Op::Sax, addr_mode: AddressingMode::Absolute, cycles: 4, page_delay: 0, size: 3 },
        0x90 => Instruction { op: Op::Bcc, addr_mode: AddressingMode::Relative, cycles: 2, page_delay: 1, size: 2 },
        0x91 => Instruction { op: Op::Sta, addr_mode: AddressingMode::IndirectIndexed, cycles: 6, page_delay: 0, size: 2 },
        0x92 => Instruction { op: Op::Kil, addr_mode: AddressingMode::Implicit, cycles: 2, page_delay: 0, size: 1 },
        0x93 => Instruction { op: Op::Ahx, addr_mode: AddressingMode::IndirectIndexed, cycles: 6, page_delay: 0, size: 2 },
        0x94 => Instruction { op: Op::Sty, addr_mode: AddressingMode::ZeroPageX, cycles: 4, page_delay: 0, size: 2 },
        0x95 => Instruction { op: Op::Sta, addr_mode: AddressingMode::ZeroPageX, cycles: 4, page_delay: 0, size: 2 },
        0x96 => Instruction { op: Op::Stx, addr_mode: AddressingMode::ZeroPageY, cycles: 4, page_delay: 0, size: 2 },
        0x97 => Instruction { op: Op::Sax, addr_mode: AddressingMode::ZeroPageY, cycles: 4, page_delay: 0, size: 2 },
        0x98 => Instruction { op: Op::Tya, addr_mode: AddressingMode::Implicit, cycles: 2, page_delay: 0, size: 1 },
        0x99 => Instruction { op: Op::Sta, addr_mode: AddressingMode::AbsoluteY, cycles: 5, page_delay: 0, size: 3 },
        0x9a => Instruction { op: Op::Txs, addr_mode: AddressingMode::Implicit, cycles: 2, page_delay: 0, size: 1 },
        0x9b => Instruction { op: Op::Tas, addr_mode: AddressingMode::AbsoluteY, cycles: 5, page_delay: 0, size: 3 },
        0x9c => Instruction { op: Op::Shy, addr_mode: AddressingMode::AbsoluteX, cycles: 5, page_delay: 0, size: 3 },
        0x9d => Instruction { op: Op::Sta, addr_mode: AddressingMode::AbsoluteX, cycles: 5, page_delay: 0, size: 3 },
        0x9e => Instruction { op: Op::Shx, addr_mode: AddressingMode::AbsoluteY, cycles: 5, page_delay: 0, size: 3 },
        0x9f => Instruction { op: Op::Ahx, addr_mode: AddressingMode::AbsoluteY, cycles: 5, page_delay: 0, size: 3 },
        0xa0 => Instruction { op: Op::Ldy, addr_mode: AddressingMode::Immediate, cycles: 2, page_delay: 0, size: 2 },
        0xa1 => Instruction { op: Op::Lda, addr_mode: AddressingMode::IndexedIndirect, cycles: 6, page_delay: 0, size: 2 },
        0xa2 => Instruction { op: Op::Ldx, addr_mode: AddressingMode::Immediate, cycles: 2, page_delay: 0, size: 2 },
        0xa3 => Instruction { op: Op::Lax, addr_mode: AddressingMode::IndexedIndirect, cycles: 6, page_delay: 0, size: 2 },
        0xa4 => Instruction { op: Op::Ldy, addr_mode: AddressingMode::ZeroPage, cycles: 3, page_delay: 0, size: 2 },
        0xa5 => Instruction { op: Op::Lda, addr_mode: AddressingMode::ZeroPage, cycles: 3, page_delay: 0, size: 2 },
        0xa6 => Instruction { op: Op::Ldx, addr_mode: AddressingMode::ZeroPage, cycles: 3, page_delay: 0, size: 2 },
        0xa7 => Instruction { op: Op::Lax, addr_mode: AddressingMode::ZeroPage, cycles: 3, page_delay: 0, size: 2 },
        0xa8 => Instruction { op: Op::Tay, addr_mode: AddressingMode::Implicit, cycles: 2, page_delay: 0, size: 1 },
        0xa9 => Instruction { op: Op::Lda, addr_mode: AddressingMode::Immediate, cycles: 2, page_delay: 0, size: 2 },
        0xaa => Instruction { op: Op::Tax, addr_mode: AddressingMode::Implicit, cycles: 2, page_delay: 0, size: 1 },
        0xab => Instruction { op: Op::Lax, addr_mode: AddressingMode::Immediate, cycles: 2, page_delay: 0, size: 2 },
        0xac => Instruction { op: Op::Ldy, addr_mode: AddressingMode::Absolute, cycles: 4, page_delay: 0, size: 3 },
        0xad => Instruction { op: Op::Lda, addr_mode: AddressingMode::Absolute, cycles: 4, page_delay: 0, size: 3 },
        0xae => Instruction { op: Op::Ldx, addr_mode: AddressingMode::Absolute, cycles: 4, page_delay: 0, size: 3 },
        0xaf => Instruction { op: Op::Lax, addr_mode: AddressingMode::Absolute, cycles: 4, page_delay: 0, size: 3 },
        0xb0 => Instruction { op: Op::Bcs, addr_mode: AddressingMode::Relative, cycles: 2, page_delay: 1, size: 2 },
        0xb1 => Instruction { op: Op::Lda, addr_mode: AddressingMode::IndirectIndexed, cycles: 5, page_delay: 1, size: 2 },
        0xb2 => Instruction { op: Op::Kil, addr_mode: AddressingMode::Implicit, cycles: 2, page_delay: 0, size: 1 },
        0xb3 => Instruction { op: Op::Lax, addr_mode: AddressingMode::IndirectIndexed, cycles: 5, page_delay: 1, size: 2 },
        0xb4 => Instruction { op: Op::Ldy, addr_mode: AddressingMode::ZeroPageX, cycles: 4, page_delay: 0, size: 2 },
        0xb5 => Instruction { op: Op::Lda, addr_mode: AddressingMode::ZeroPageX, cycles: 4, page_delay: 0, size: 2 },
        0xb6 => Instruction { op: Op::Ldx, addr_mode: AddressingMode::ZeroPageY, cycles: 4, page_delay: 0, size: 2 },
        0xb7 => Instruction { op: Op::Lax, addr_mode: AddressingMode::ZeroPageY, cycles: 4, page_delay: 0, size: 2 },
        0xb8 => Instruction { op: Op::Clv, addr_mode: AddressingMode::Implicit, cycles: 2, page_delay: 0, size: 1 },
        0xb9 => Instruction { op: Op::Lda, addr_mode: AddressingMode::AbsoluteY, cycles: 4, page_delay: 1, size: 3 },
        0xba => Instruction { op: Op::Tsx, addr_mode: AddressingMode::Implicit, cycles: 2, page_delay: 0, size: 1 },
        0xbb => Instruction { op: Op::Las, addr_mode: AddressingMode::AbsoluteY, cycles: 4, page_delay: 1, size: 3 },
        0xbc => Instruction { op: Op::Ldy, addr_mode: AddressingMode::AbsoluteX, cycles: 4, page_delay: 1, size: 3 },
        0xbd => Instruction { op: Op::Lda, addr_mode: AddressingMode::AbsoluteX, cycles: 4, page_delay: 1, size: 3 },
        0xbe => Instruction { op: Op::Ldx, addr_mode: AddressingMode::AbsoluteY, cycles: 4, page_delay: 1, size: 3 },
        0xbf => Instruction { op: Op::Lax, addr_mode: AddressingMode::AbsoluteY, cycles: 4, page_delay: 1, size: 3 },
        0xc0 => Instruction { op: Op::Cpy, addr_mode: AddressingMode::Immediate, cycles: 2, page_delay: 0, size: 2 },
        0xc1 => Instruction { op: Op::Cmp, addr_mode: AddressingMode::IndexedIndirect, cycles: 6, page_delay: 0, size: 2 },
        0xc2 => Instruction { op: Op::Nop, addr_mode: AddressingMode::Immediate, cycles: 2, page_delay: 0, size: 2 },
        0xc3 => Instruction { op: Op::Dcp, addr_mode: AddressingMode::IndexedIndirect, cycles: 8, page_delay: 0, size: 2 },
        0xc4 => Instruction { op: Op::Cpy, addr_mode: AddressingMode::ZeroPage, cycles: 3, page_delay: 0, size: 2 },
        0xc5 => Instruction { op: Op::Cmp, addr_mode: AddressingMode::ZeroPage, cycles: 3, page_delay: 0, size: 2 },
        0xc6 => Instruction { op: Op::Dec, addr_mode: AddressingMode::ZeroPage, cycles: 5, page_delay: 0, size: 2 },
        0xc7 => Instruction { op: Op::Dcp, addr_mode: AddressingMode::ZeroPage, cycles: 5, page_delay: 0, size: 2 },
        0xc8 => Instruction { op: Op::Iny, addr_mode: AddressingMode::Implicit, cycles: 2, page_delay: 0, size: 1 },
        0xc9 => Instruction { op: Op::Cmp, addr_mode: AddressingMode::Immediate, cycles: 2, page_delay: 0, size: 2 },
        0xca => Instruction { op: Op::Dex, addr_mode: AddressingMode::Implicit, cycles: 2, page_delay: 0, size: 1 },
        0xcb => Instruction { op: Op::Axs, addr_mode: AddressingMode::Immediate, cycles: 2, page_delay: 0, size: 2 },
        0xcc => Instruction { op: Op::Cpy, addr_mode: AddressingMode::Absolute, cycles: 4, page_delay: 0, size: 3 },
        0xcd => Instruction { op: Op::Cmp, addr_mode: AddressingMode::Absolute, cycles: 4, page_delay: 0, size: 3 },
        0xce => Instruction { op: Op::Dec, addr_mode: AddressingMode::Absolute, cycles: 6, page_delay: 0, size: 3 },
        0xcf => Instruction { op: Op::Dcp, addr_mode: AddressingMode::Absolute, cycles: 6, page_delay: 0, size: 3 },
        0xd0 => Instruction { op: Op::Bne, addr_mode: AddressingMode::Relative, cycles: 2, page_delay: 1, size: 2 },
        0xd1 => Instruction { op: Op::Cmp, addr_mode: AddressingMode::IndirectIndexed, cycles: 5, page_delay: 1, size: 2 },
        0xd2 => Instruction { op: Op::Kil, addr_mode: AddressingMode::Implicit, cycles: 2, page_delay: 0, size: 1 },
        0xd3 => Instruction { op: Op::Dcp, addr_mode: AddressingMode::IndirectIndexed, cycles: 8, page_delay: 0, size: 2 },
        0xd4 => Instruction { op: Op::Nop, addr_mode: AddressingMode::ZeroPageX, cycles: 4, page_delay: 0, size: 2 },
        0xd5 => Instruction { op: Op::Cmp, addr_mode: AddressingMode::ZeroPageX, cycles: 4, page_delay: 0, size: 2 },
        0xd6 => Instruction { op: Op::Dec, addr_mode: AddressingMode::ZeroPageX, cycles: 6, page_delay: 0, size: 2 },
        0xd7 => Instruction { op: Op::Dcp, addr_mode: AddressingMode::ZeroPageX, cycles: 6, page_delay: 0, size: 2 },
        0xd8 => Instruction { op: Op::Cld, addr_mode: AddressingMode::Implicit, cycles: 2, page_delay: 0, size: 1 },
        0xd9 => Instruction { op: Op::Cmp, addr_mode: AddressingMode::AbsoluteY, cycles: 4, page_delay: 1, size: 3 },
        0xda => Instruction { op: Op::Nop, addr_mode: AddressingMode::Implicit, cycles: 2, page_delay: 0, size: 1 },
        0xdb => Instruction { op: Op::Dcp, addr_mode: AddressingMode::AbsoluteY, cycles: 7, page_delay: 0, size: 3 },
        0xdc => Instruction { op: Op::Nop, addr_mode: AddressingMode::AbsoluteX, cycles: 4, page_delay: 1, size: 3 },
        0xdd => Instruction { op: Op::Cmp, addr_mode: AddressingMode::AbsoluteX, cycles: 4, page_delay: 1, size: 3 },
        0xde => Instruction { op: Op::Dec, addr_mode: AddressingMode::AbsoluteX, cycles: 7, page_delay: 0, size: 3 },
        0xdf => Instruction { op: Op::Dcp, addr_mode: AddressingMode::AbsoluteX, cycles: 7, page_delay: 0, size: 3 },
        0xe0 => Instruction { op: Op::Cpx, addr_mode: AddressingMode::Immediate, cycles: 2, page_delay: 0, size: 2 },
        0xe1 => Instruction { op: Op::Sbc, addr_mode: AddressingMode::IndexedIndirect, cycles: 6, page_delay: 0, size: 2 },
        0xe2 => Instruction { op: Op::Nop, addr_mode: AddressingMode::Immediate, cycles: 2, page_delay: 0, size: 2 },
        0xe3 => Instruction { op: Op::Isc, addr_mode: AddressingMode::IndexedIndirect, cycles: 8, page_delay: 0, size: 2 },
        0xe4 => Instruction { op: Op::Cpx, addr_mode: AddressingMode::ZeroPage, cycles: 3, page_delay: 0, size: 2 },
        0xe5 => Instruction { op: Op::Sbc, addr_mode: AddressingMode::ZeroPage, cycles: 3, page_delay: 0, size: 2 },
        0xe6 => Instruction { op: Op::Inc, addr_mode: AddressingMode::ZeroPage, cycles: 5, page_delay: 0, size: 2 },
        0xe7 => Instruction { op: Op::Isc, addr_mode: AddressingMode::ZeroPage, cycles: 5, page_delay: 0, size: 2 },
        0xe8 => Instruction { op: Op::Inx, addr_mode: AddressingMode::Implicit, cycles: 2, page_delay: 0, size: 1 },
        0xe9 => Instruction { op: Op::Sbc, addr_mode: AddressingMode::Immediate, cycles: 2, page_delay: 0, size: 2 },
        0xea => Instruction { op: Op::Nop, addr_mode: AddressingMode::Implicit, cycles: 2, page_delay: 0, size: 1 },
        0xeb => Instruction { op: Op::Sbc, addr_mode: AddressingMode::Immediate, cycles: 2, page_delay: 0, size: 2 },
        0xec => Instruction { op: Op::Cpx, addr_mode: AddressingMode::Absolute, cycles: 4, page_delay: 0, size: 3 },
        0xed => Instruction { op: Op::Sbc, addr_mode: AddressingMode::Absolute, cycles: 4, page_delay: 0, size: 3 },
        0xee => Instruction { op: Op::Inc, addr_mode: AddressingMode::Absolute, cycles: 6, page_delay: 0, size: 3 },
        0xef => Instruction { op: Op::Isc, addr_mode: AddressingMode::Absolute, cycles: 6, page_delay: 0, size: 3 },
        0xf0 => Instruction { op: Op::Beq, addr_mode: AddressingMode::Relative, cycles: 2, page_delay: 1, size: 2 },
        0xf1 => Instruction { op: Op::Sbc, addr_mode: AddressingMode::IndirectIndexed, cycles: 5, page_delay: 1, size: 2 },
        0xf2 => Instruction { op: Op::Kil, addr_mode: AddressingMode::Implicit, cycles: 2, page_delay: 0, size: 1 },
        0xf3 => Instruction { op: Op::Isc, addr_mode: AddressingMode::IndirectIndexed, cycles: 8, page_delay: 0, size: 2 },
        0xf4 => Instruction { op: Op::Nop, addr_mode: AddressingMode::ZeroPageX, cycles: 4, page_delay: 0, size: 2 },
        0xf5 => Instruction { op: Op::Sbc, addr_mode: AddressingMode::ZeroPageX, cycles: 4, page_delay: 0, size: 2 },
        0xf6 => Instruction { op: Op::Inc, addr_mode: AddressingMode::ZeroPageX, cycles: 6, page_delay: 0, size: 2 },
        0xf7 => Instruction { op: Op::Isc, addr_mode: AddressingMode::ZeroPageX, cycles: 6, page_delay: 0, size: 2 },
        0xf8 => Instruction { op: Op::Sed, addr_mode: AddressingMode::Implicit, cycles: 2, page_delay: 0, size: 1 },
        0xf9 => Instruction { op: Op::Sbc, addr_mode: AddressingMode::AbsoluteY, cycles: 4, page_delay: 1, size: 3 },
        0xfa => Instruction { op: Op::Nop, addr_mode: AddressingMode::Implicit, cycles: 2, page_delay: 0, size: 1 },
        0xfb => Instruction { op: Op::Isc, addr_mode: AddressingMode::AbsoluteY, cycles: 7, page_delay: 0, size: 3 },
        0xfc => Instruction { op: Op::Nop, addr_mode: AddressingMode::AbsoluteX, cycles: 4, page_delay: 1, size: 3 },
        0xfd => Instruction { op: Op::Sbc, addr_mode: AddressingMode::AbsoluteX, cycles: 4, page_delay: 1, size: 3 },
        0xfe => Instruction { op: Op::Inc, addr_mode: AddressingMode::AbsoluteX, cycles: 7, page_delay: 0, size: 3 },
        0xff => Instruction { op: Op::Isc, addr_mode: AddressingMode::AbsoluteX, cycles: 7, page_delay: 0, size: 3 },
    }
}

/// Looks an opcode byte up in the descriptor table.
pub fn instruction_for(opcode: u8) -> (r: Instruction)
    ensures
        r == instr_spec(opcode),
{
    match opcode {
        0x00 => Instruction { op: Op::Brk, addr_mode: AddressingMode::Implicit, cycles: 7, page_delay: 0, size: 1 },
        0x01 => Instruction { op: Op::Ora, addr_mode: AddressingMode::IndexedIndirect, cycles: 6, page_delay: 0, size: 2 },
        0x02 => Instruction { op: Op::Kil, addr_mode: AddressingMode::Implicit, cycles: 2, page_delay: 0, size: 1 },
        0x03 => Instruction { op: Op::Slo, addr_mode: AddressingMode::IndexedIndirect, cycles: 8, page_delay: 0, size: 2 },
        0x04 => Instruction { op: Op::Nop, addr_mode: AddressingMode::ZeroPage, cycles: 3, page_delay: 0, size: 2 },
        0x05 => Instruction { op: Op::Ora, addr_mode: AddressingMode::ZeroPage, cycles: 3, page_delay: 0, size: 2 },
        0x06 => Instruction { op: Op::Asl, addr_mode: AddressingMode::ZeroPage, cycles: 5, page_delay: 0, size: 2 },
        0x07 => Instruction { op: Op::Slo, addr_mode: AddressingMode::ZeroPage, cycles: 5, page_delay: 0, size: 2 },
        0x08 => Instruction { op: Op::Php, addr_mode: AddressingMode::Implicit, cycles: 3, page_delay: 0, size: 1 },
        0x09 => Instruction { op: Op::Ora, addr_mode: AddressingMode::Immediate, cycles: 2, page_delay: 0, size: 2 },
        0x0a => Instruction { op: Op::Asl, addr_mode: AddressingMode::Accumulator, cycles: 2, page_delay: 0, size: 1 },
        0x0b => Instruction { op: Op::Anc, addr_mode: AddressingMode::Immediate, cycles: 2, page_delay: 0, size: 2 },
        0x0c => Instruction { op: Op::Nop, addr_mode: AddressingMode::Absolute, cycles: 4, page_delay: 0, size: 3 },
        0x0d => Instruction { op: Op::Ora, addr_mode: AddressingMode::Absolute, cycles: 4, page_delay: 0, size: 3 },
        0x0e => Instruction { op: Op::Asl, addr_mode: AddressingMode::Absolute, cycles: 6, page_delay: 0, size: 3 },
        0x0f => Instruction { op: Op::Slo, addr_mode: AddressingMode::Absolute, cycles: 6, page_delay: 0, size: 3 },
        0x10 => Instruction { op: Op::Bpl, addr_mode: AddressingMode::Relative, cycles: 2, page_delay: 1, size: 2 },
        0x11 => Instruction { op: Op::Ora, addr_mode: AddressingMode::IndirectIndexed, cycles: 5, page_delay: 1, size: 2 },
        0x12 => Instruction { op: Op::Kil, addr_mode: AddressingMode::Implicit, cycles: 2, page_delay: 0, size: 1 },
        0x13 => Instruction { op: Op::Slo, addr_mode: AddressingMode::IndirectIndexed, cycles: 8, page_delay: 0, size: 2 },
        0x14 => Instruction { op: Op::Nop, addr_mode: AddressingMode::ZeroPageX, cycles: 4, page_delay: 0, size: 2 },
        0x15 => Instruction { op: Op::Ora, addr_mode: AddressingMode::ZeroPageX, cycles: 4, page_delay: 0, size: 2 },
        0x16 => Instruction { op: Op::Asl, addr_mode: AddressingMode::ZeroPageX, cycles: 6, page_delay: 0, size: 2 },
        0x17 => Instruction { op: Op::Slo, addr_mode: AddressingMode::ZeroPageX, cycles: 6, page_delay: 0, size: 2 },
        0x18 => Instruction { op: Op::Clc, addr_mode: AddressingMode::Implicit, cycles: 2, page_delay: 0, size: 1 },
        0x19 => Instruction { op: Op::Ora, addr_mode: AddressingMode::AbsoluteY, cycles: 4, page_delay: 1, size: 3 },
        0x1a => Instruction { op: Op::Nop, addr_mode: AddressingMode::Implicit, cycles: 2, page_delay: 0, size: 1 },
        0x1b => Instruction { op: Op::Slo, addr_mode: AddressingMode::AbsoluteY, cycles: 7, page_delay: 0, size: 3 },
        0x1c => Instruction { op: Op::Nop, addr_mode: AddressingMode::AbsoluteX, cycles: 4, page_delay: 1, size: 3 },
        0x1d => Instruction { op: Op::Ora, addr_mode: AddressingMode::AbsoluteX, cycles: 4, page_delay: 1, size: 3 },
        0x1e => Instruction { op: Op::Asl, addr_mode: AddressingMode::AbsoluteX, cycles: 7, page_delay: 0, size: 3 },
        0x1f => Instruction { op: Op::Slo, addr_mode: AddressingMode::AbsoluteX, cycles: 7, page_delay: 0, size: 3 },
        0x20 => Instruction { op: Op::Jsr, addr_mode: AddressingMode::Absolute, cycles: 6, page_delay: 0, size: 3 },
        0x21 => Instruction { op: Op::And, addr_mode: AddressingMode::IndexedIndirect, cycles: 6, page_delay: 0, size: 2 },
        0x22 => Instruction { op: Op::Kil, addr_mode: AddressingMode::Implicit, cycles: 2, page_delay: 0, size: 1 },
        0x23 => Instruction { op: Op::Rla, addr_mode: AddressingMode::IndexedIndirect, cycles: 8, page_delay: 0, size: 2 },
        0x24 => Instruction { op: Op::Bit, addr_mode: AddressingMode::ZeroPage, cycles: 3, page_delay: 0, size: 2 },
        0x25 => Instruction { op: Op::And, addr_mode: AddressingMode::ZeroPage, cycles: 3, page_delay: 0, size: 2 },
        0x26 => Instruction { op: Op::Rol, addr_mode: AddressingMode::ZeroPage, cycles: 5, page_delay: 0, size: 2 },
        0x27 => Instruction { op: Op::Rla, addr_mode: AddressingMode::ZeroPage, cycles: 5, page_delay: 0, size: 2 },
        0x28 => Instruction { op: Op::Plp, addr_mode: AddressingMode::Implicit, cycles: 4, page_delay: 0, size: 1 },
        0x29 => Instruction { op: Op::And, addr_mode: AddressingMode::Immediate, cycles: 2, page_delay: 0, size: 2 },
        0x2a => Instruction { op: Op::Rol, addr_mode: AddressingMode::Accumulator, cycles: 2, page_delay: 0, size: 1 },
        0x2b => Instruction { op: Op::Anc, addr_mode: AddressingMode::Immediate, cycles: 2, page_delay: 0, size: 2 },
        0x2c => Instruction { op: Op::Bit, addr_mode: AddressingMode::Absolute, cycles: 4, page_delay: 0, size: 3 },
        0x2d => Instruction { op: Op::And, addr_mode: AddressingMode::Absolute, cycles: 4, page_delay: 0, size: 3 },
        0x2e => Instruction { op: Op::Rol, addr_mode: AddressingMode::Absolute, cycles: 6, page_delay: 0, size: 3 },
        0x2f => Instruction { op: Op::Rla, addr_mode: AddressingMode::Absolute, cycles: 6, page_delay: 0, size: 3 },
        0x30 => Instruction { op: Op::Bmi, addr_mode: AddressingMode::Relative, cycles: 2, page_delay: 1, size: 2 },
        0x31 => Instruction { op: Op::And, addr_mode: AddressingMode::IndirectIndexed, cycles: 5, page_delay: 1, size: 2 },
        0x32 => Instruction { op: Op::Kil, addr_mode: AddressingMode::Implicit, cycles: 2, page_delay: 0, size: 1 },
        0x33 => Instruction { op: Op::Rla, addr_mode: AddressingMode::IndirectIndexed, cycles: 8, page_delay: 0, size: 2 },
        0x34 => Instruction { op: Op::Nop, addr_mode: AddressingMode::ZeroPageX, cycles: 4, page_delay: 0, size: 2 },
        0x35 => Instruction { op: Op::And, addr_mode: AddressingMode::ZeroPageX, cycles: 4, page_delay: 0, size: 2 },
        0x36 => Instruction { op: Op::Rol, addr_mode: AddressingMode::ZeroPageX, cycles: 6, page_delay: 0, size: 2 },
        0x37 => Instruction { op: Op::Rla, addr_mode: AddressingMode::ZeroPageX, cycles: 6, page_delay: 0, size: 2 },
        0x38 => Instruction { op: Op::Sec, addr_mode: AddressingMode::Implicit, cycles: 2, page_delay: 0, size: 1 },
        0x39 => Instruction { op: Op::And, addr_mode: AddressingMode::AbsoluteY, cycles: 4, page_delay: 1, size: 3 },
        0x3a => Instruction { op: Op::Nop, addr_mode: AddressingMode::Implicit, cycles: 2, page_delay: 0, size: 1 },
        0x3b => Instruction { op: Op::Rla, addr_mode: AddressingMode::AbsoluteY, cycles: 7, page_delay: 0, size: 3 },
        0x3c => Instruction { op: Op::Nop, addr_mode: AddressingMode::AbsoluteX, cycles: 4, page_delay: 1, size: 3 },
        0x3d => Instruction { op: Op::And, addr_mode: AddressingMode::AbsoluteX, cycles: 4, page_delay: 1, size: 3 },
        0x3e => Instruction { op: Op::Rol, addr_mode: AddressingMode::AbsoluteX, cycles: 7, page_delay: 0, size: 3 },
        0x3f => Instruction { op: Op::Rla, addr_mode: AddressingMode::AbsoluteX, cycles: 7, page_delay: 0, size: 3 },
        0x40 => Instruction { op: Op::Rti, addr_mode: AddressingMode::Implicit, cycles: 6, page_delay: 0, size: 1 },
        0x41 => Instruction { op: Op::Eor, addr_mode: AddressingMode::IndexedIndirect, cycles: 6, page_delay: 0, size: 2 },
        0x42 => Instruction { op: Op::Kil, addr_mode: AddressingMode::Implicit, cycles: 2, page_delay: 0, size: 1 },
        0x43 => Instruction { op: Op::Sre, addr_mode: AddressingMode::IndexedIndirect, cycles: 8, page_delay: 0, size: 2 },
        0x44 => Instruction { op: Op::Nop, addr_mode: AddressingMode::ZeroPage, cycles: 3, page_delay: 0, size: 2 },
        0x45 => Instruction { op: Op::Eor, addr_mode: AddressingMode::ZeroPage, cycles: 3, page_delay: 0, size: 2 },
        0x46 => Instruction { op: Op::Lsr, addr_mode: AddressingMode::ZeroPage, cycles: 5, page_delay: 0, size: 2 },
        0x47 => Instruction { op: Op::Sre, addr_mode: AddressingMode::ZeroPage, cycles: 5, page_delay: 0, size: 2 },
        0x48 => Instruction { op: Op::Pha, addr_mode: AddressingMode::Implicit, cycles: 3, page_delay: 0, size: 1 },
        0x49 => Instruction { op: Op::Eor, addr_mode: AddressingMode::Immediate, cycles: 2, page_delay: 0, size: 2 },
        0x4a => Instruction { op: Op::Lsr, addr_mode: AddressingMode::Accumulator, cycles: 2, page_delay: 0, size: 1 },
        0x4b => Instruction { op: Op::Alr, addr_mode: AddressingMode::Immediate, cycles: 2, page_delay: 0, size: 2 },
        0x4c => Instruction { op: Op::Jmp, addr_mode: AddressingMode::Absolute, cycles: 3, page_delay: 0, size: 3 },
        0x4d => Instruction { op: Op::Eor, addr_mode: AddressingMode::Absolute, cycles: 4, page_delay: 0, size: 3 },
        0x4e => Instruction { op: Op::Lsr, addr_mode: AddressingMode::Absolute, cycles: 6, page_delay: 0, size: 3 },
        0x4f => Instruction { op: Op::Sre, addr_mode: AddressingMode::Absolute, cycles: 6, page_delay: 0, size: 3 },
        0x50 => Instruction { op: Op::Bvc, addr_mode: AddressingMode::Relative, cycles: 2, page_delay: 1, size: 2 },
        0x51 => Instruction { op: Op::Eor, addr_mode: AddressingMode::IndirectIndexed, cycles: 5, page_delay: 1, size: 2 },
        0x52 => Instruction { op: Op::Kil, addr_mode: AddressingMode::Implicit, cycles: 2, page_delay: 0, size: 1 },
        0x53 => Instruction { op: Op::Sre, addr_mode: AddressingMode::IndirectIndexed, cycles: 8, page_delay: 0, size: 2 },
        0x54 => Instruction { op: Op::Nop, addr_mode: AddressingMode::ZeroPageX, cycles: 4, page_delay: 0, size: 2 },
        0x55 => Instruction { op: Op::Eor, addr_mode: AddressingMode::ZeroPageX, cycles: 4, page_delay: 0, size: 2 },
        0x56 => Instruction { op: Op::Lsr, addr_mode: AddressingMode::ZeroPageX, cycles: 6, page_delay: 0, size: 2 },
        0x57 => Instruction { op: Op::Sre, addr_mode: AddressingMode::ZeroPageX, cycles: 6, page_delay: 0, size: 2 },
        0x58 => Instruction { op: Op::Cli, addr_mode: AddressingMode::Implicit, cycles: 2, page_delay: 0, size: 1 },
        0x59 => Instruction { op: Op::Eor, addr_mode: AddressingMode::AbsoluteY, cycles: 4, page_delay: 1, size: 3 },
        0x5a => Instruction { op: Op::Nop, addr_mode: AddressingMode::Implicit, cycles: 2, page_delay: 0, size: 1 },
        0x5b => Instruction { op: Op::Sre, addr_mode: AddressingMode::AbsoluteY, cycles: 7, page_delay: 0, size: 3 },
        0x5c => Instruction { op: Op::Nop, addr_mode: AddressingMode::AbsoluteX, cycles: 4, page_delay: 1, size: 3 },
        0x5d => Instruction { op: Op::Eor, addr_mode: AddressingMode::AbsoluteX, cycles: 4, page_delay: 1, size: 3 },
        0x5e => Instruction { op: Op::Lsr, addr_mode: AddressingMode::AbsoluteX, cycles: 7, page_delay: 0, size: 3 },
        0x5f => Instruction { op: Op::Sre, addr_mode: AddressingMode::AbsoluteX, cycles: 7, page_delay: 0, size: 3 },
        0x60 => Instruction { op: Op::Rts, addr_mode: AddressingMode::Implicit, cycles: 6, page_delay: 0, size: 1 },
        0x61 => Instruction { op: Op::Adc, addr_mode: AddressingMode::IndexedIndirect, cycles: 6, page_delay: 0, size: 2 },
        0x62 => Instruction { op: Op::Kil, addr_mode: AddressingMode::Implicit, cycles: 2, page_delay: 0, size: 1 },
        0x63 => Instruction { op: Op::Rra, addr_mode: AddressingMode::IndexedIndirect, cycles: 8, page_delay: 0, size: 2 },
        0x64 => Instruction { op: Op::Nop, addr_mode: AddressingMode::ZeroPage, cycles: 3, page_delay: 0, size: 2 },
        0x65 => Instruction { op: Op::Adc, addr_mode: AddressingMode::ZeroPage, cycles: 3, page_delay: 0, size: 2 },
        0x66 => Instruction { op: Op::Ror, addr_mode: AddressingMode::ZeroPage, cycles: 5, page_delay: 0, size: 2 },
        0x67 => Instruction { op: Op::Rra, addr_mode: AddressingMode::ZeroPage, cycles: 5, page_delay: 0, size: 2 },
        0x68 => Instruction { op: Op::Pla, addr_mode: AddressingMode::Implicit, cycles: 4, page_delay: 0, size: 1 },
        0x69 => Instruction { op: Op::Adc, addr_mode: AddressingMode::Immediate, cycles: 2, page_delay: 0, size: 2 },
        0x6a => Instruction { op: Op::Ror, addr_mode: AddressingMode::Accumulator, cycles: 2, page_delay: 0, size: 1 },
        0x6b => Instruction { op: Op::Arr, addr_mode: AddressingMode::Immediate, cycles: 2, page_delay: 0, size: 2 },
        0x6c => Instruction { op: Op::Jmp, addr_mode: AddressingMode::Indirect, cycles: 5, page_delay: 0, size: 3 },
        0x6d => Instruction { op: Op::Adc, addr_mode: AddressingMode::Absolute, cycles: 4, page_delay: 0, size: 3 },
        0x6e => Instruction { op: Op::Ror, addr_mode: AddressingMode::Absolute, cycles: 6, page_delay: 0, size: 3 },
        0x6f => Instruction { op: Op::Rra, addr_mode: AddressingMode::Absolute, cycles: 6, page_delay: 0, size: 3 },
        0x70 => Instruction { op: Op::Bvs, addr_mode: AddressingMode::Relative, cycles: 2, page_delay: 1, size: 2 },
        0x71 => Instruction { op: Op::Adc, addr_mode: AddressingMode::IndirectIndexed, cycles: 5, page_delay: 1, size: 2 },
        0x72 => Instruction { op: Op::Kil, addr_mode: AddressingMode::Implicit, cycles: 2, page_delay: 0, size: 1 },
        0x73 => Instruction { op: Op::Rra, addr_mode: AddressingMode::IndirectIndexed, cycles: 8, page_delay: 0, size: 2 },
        0x74 => Instruction { op: Op::Nop, addr_mode: AddressingMode::ZeroPageX, cycles: 4, page_delay: 0, size: 2 },
        0x75 => Instruction { op: Op::Adc, addr_mode: AddressingMode::ZeroPageX, cycles: 4, page_delay: 0, size: 2 },
        0x76 => Instruction { op: Op::Ror, addr_mode: AddressingMode::ZeroPageX, cycles: 6, page_delay: 0, size: 2 },
        0x77 => Instruction { op: Op::Rra, addr_mode: AddressingMode::ZeroPageX, cycles: 6, page_delay: 0, size: 2 },
        0x78 => Instruction { op: Op::Sei, addr_mode: AddressingMode::Implicit, cycles: 2, page_delay: 0, size: 1 },
        0x79 => Instruction { op: Op::Adc, addr_mode: AddressingMode::AbsoluteY, cycles: 4, page_delay: 1, size: 3 },
        0x7a => Instruction { op: Op::Nop, addr_mode: AddressingMode::Implicit, cycles: 2, page_delay: 0, size: 1 },
        0x7b => Instruction { op: Op::Rra, addr_mode: AddressingMode::AbsoluteY, cycles: 7, page_delay: 0, size: 3 },
        0x7c => Instruction { op: Op::Nop, addr_mode: AddressingMode::AbsoluteX, cycles: 4, page_delay: 1, size: 3 },
        0x7d => Instruction { op: Op::Adc, addr_mode: AddressingMode::AbsoluteX, cycles: 4, page_delay: 1, size: 3 },
        0x7e => Instruction { op: Op::Ror, addr_mode: AddressingMode::AbsoluteX, cycles: 7, page_delay: 0, size: 3 },
        0x7f => Instruction { op: Op::Rra, addr_mode: AddressingMode::AbsoluteX, cycles: 7, page_delay: 0, size: 3 },
        0x80 => Instruction { op: Op::Nop, addr_mode: AddressingMode::Immediate, cycles: 2, page_delay: 0, size: 2 },
        0x81 => Instruction { op: Op::Sta, addr_mode: AddressingMode::IndexedIndirect, cycles: 6, page_delay: 0, size: 2 },
        0x82 => Instruction { op: Op::Nop, addr_mode: AddressingMode::Immediate, cycles: 2, page_delay: 0, size: 2 },
        0x83 => Instruction { op: Op::Sax, addr_mode: AddressingMode::IndexedIndirect, cycles: 6, page_delay: 0, size: 2 },
        0x84 => Instruction { op: Op::Sty, addr_mode: AddressingMode::ZeroPage, cycles: 3, page_delay: 0, size: 2 },
        0x85 => Instruction { op: Op::Sta, addr_mode: AddressingMode::ZeroPage, cycles: 3, page_delay: 0, size: 2 },
        0x86 => Instruction { op: Op::Stx, addr_mode: AddressingMode::ZeroPage, cycles: 3, page_delay: 0, size: 2 },
        0x87 => Instruction { op: Op::Sax, addr_mode: AddressingMode::ZeroPage, cycles: 3, page_delay: 0, size: 2 },
        0x88 => Instruction { op: Op::Dey, addr_mode: AddressingMode::Implicit, cycles: 2, page_delay: 0, size: 1 },
        0x89 => Instruction { op: Op::Nop, addr_mode: AddressingMode::Immediate, cycles: 2, page_delay: 0, size: 2 },
        0x8a => Instruction { op: Op::Txa, addr_mode: AddressingMode::Implicit, cycles: 2, page_delay: 0, size: 1 },
        0x8b => Instruction { op: Op::Xaa, addr_mode: AddressingMode::Immediate, cycles: 2, page_delay: 0, size: 2 },
        0x8c => Instruction { op: Op::Sty, addr_mode: AddressingMode::Absolute, cycles: 4, page_delay: 0, size: 3 },
        0x8d => Instruction { op: Op::Sta, addr_mode: AddressingMode::Absolute, cycles: 4, page_delay: 0, size: 3 },
        0x8e => Instruction { op: Op::Stx, addr_mode: AddressingMode::Absolute, cycles: 4, page_delay: 0, size: 3 },
        0x8f => Instruction { op: Op::Sax, addr_mode: AddressingMode::Absolute, cycles: 4, page_delay: 0, size: 3 },
        0x90 => Instruction { op: Op::Bcc, addr_mode: AddressingMode::Relative, cycles: 2, page_delay: 1, size: 2 },
        0x91 => Instruction { op: Op::Sta, addr_mode: AddressingMode::IndirectIndexed, cycles: 6, page_delay: 0, size: 2 },
        0x92 => Instruction { op: Op::Kil, addr_mode: AddressingMode::Implicit, cycles: 2, page_delay: 0, size: 1 },
        0x93 => Instruction { op: Op::Ahx, addr_mode: AddressingMode::IndirectIndexed, cycles: 6, page_delay: 0, size: 2 },
        0x94 => Instruction { op: Op::Sty, addr_mode: AddressingMode::ZeroPageX, cycles: 4, page_delay: 0, size: 2 },
        0x95 => Instruction { op: Op::Sta, addr_mode: AddressingMode::ZeroPageX, cycles: 4, page_delay: 0, size: 2 },
        0x96 => Instruction { op: Op::Stx, addr_mode: AddressingMode::ZeroPageY, cycles: 4, page_delay: 0, size: 2 },
        0x97 => Instruction { op: Op::Sax, addr_mode: AddressingMode::ZeroPageY, cycles: 4, page_delay: 0, size: 2 },
        0x98 => Instruction { op: Op::Tya, addr_mode: AddressingMode::Implicit, cycles: 2, page_delay: 0, size: 1 },
        0x99 => Instruction { op: Op::Sta, addr_mode: AddressingMode::AbsoluteY, cycles: 5, page_delay: 0, size: 3 },
        0x9a => Instruction { op: Op::Txs, addr_mode: AddressingMode::Implicit, cycles: 2, page_delay: 0, size: 1 },
        0x9b => Instruction { op: Op::Tas, addr_mode: AddressingMode::AbsoluteY, cycles: 5, page_delay: 0, size: 3 },
        0x9c => Instruction { op: Op::Shy, addr_mode: AddressingMode::AbsoluteX, cycles: 5, page_delay: 0, size: 3 },
        0x9d => Instruction { op: Op::Sta, addr_mode: AddressingMode::AbsoluteX, cycles: 5, page_delay: 0, size: 3 },
        0x9e => Instruction { op: Op::Shx, addr_mode: AddressingMode::AbsoluteY, cycles: 5, page_delay: 0, size: 3 },
        0x9f => Instruction { op: Op::Ahx, addr_mode: AddressingMode::AbsoluteY, cycles: 5, page_delay: 0, size: 3 },
        0xa0 => Instruction { op: Op::Ldy, addr_mode: AddressingMode::Immediate, cycles: 2, page_delay: 0, size: 2 },
        0xa1 => Instruction { op: Op::Lda, addr_mode: AddressingMode::IndexedIndirect, cycles: 6, page_delay: 0, size: 2 },
        0xa2 => Instruction { op: Op::Ldx, addr_mode: AddressingMode::Immediate, cycles: 2, page_delay: 0, size: 2 },
        0xa3 => Instruction { op: Op::Lax, addr_mode: AddressingMode::IndexedIndirect, cycles: 6, page_delay: 0, size: 2 },
        0xa4 => Instruction { op: Op::Ldy, addr_mode: AddressingMode::ZeroPage, cycles: 3, page_delay: 0, size: 2 },
        0xa5 => Instruction { op: Op::Lda, addr_mode: AddressingMode::ZeroPage, cycles: 3, page_delay: 0, size: 2 },
        0xa6 => Instruction { op: Op::Ldx, addr_mode: AddressingMode::ZeroPage, cycles: 3, page_delay: 0, size: 2 },
        0xa7 => Instruction { op: Op::Lax, addr_mode: AddressingMode::ZeroPage, cycles: 3, page_delay: 0, size: 2 },
        0xa8 => Instruction { op: Op::Tay, addr_mode: AddressingMode::Implicit, cycles: 2, page_delay: 0, size: 1 },
        0xa9 => Instruction { op: Op::Lda, addr_mode: AddressingMode::Immediate, cycles: 2, page_delay: 0, size: 2 },
        0xaa => Instruction { op: Op::Tax, addr_mode: AddressingMode::Implicit, cycles: 2, page_delay: 0, size: 1 },
        0xab => Instruction { op: Op::Lax, addr_mode: AddressingMode::Immediate, cycles: 2, page_delay: 0, size: 2 },
        0xac => Instruction { op: Op::Ldy, addr_mode: AddressingMode::Absolute, cycles: 4, page_delay: 0, size: 3 },
        0xad => Instruction { op: Op::Lda, addr_mode: AddressingMode::Absolute, cycles: 4, page_delay: 0, size: 3 },
        0xae => Instruction { op: Op::Ldx, addr_mode: AddressingMode::Absolute, cycles: 4, page_delay: 0, size: 3 },
        0xaf => Instruction { op: Op::Lax, addr_mode: AddressingMode::Absolute, cycles: 4, page_delay: 0, size: 3 },
        0xb0 => Instruction { op: Op::Bcs, addr_mode: AddressingMode::Relative, cycles: 2, page_delay: 1, size: 2 },
        0xb1 => Instruction { op: Op::Lda, addr_mode: AddressingMode::IndirectIndexed, cycles: 5, page_delay: 1, size: 2 },
        0xb2 => Instruction { op: Op::Kil, addr_mode: AddressingMode::Implicit, cycles: 2, page_delay: 0, size: 1 },
        0xb3 => Instruction { op: Op::Lax, addr_mode: AddressingMode::IndirectIndexed, cycles: 5, page_delay: 1, size: 2 },
        0xb4 => Instruction { op: Op::Ldy, addr_mode: AddressingMode::ZeroPageX, cycles: 4, page_delay: 0, size: 2 },
        0xb5 => Instruction { op: Op::Lda, addr_mode: AddressingMode::ZeroPageX, cycles: 4, page_delay: 0, size: 2 },
        0xb6 => Instruction { op: Op::Ldx, addr_mode: AddressingMode::ZeroPageY, cycles: 4, page_delay: 0, size: 2 },
        0xb7 => Instruction { op: Op::Lax, addr_mode: AddressingMode::ZeroPageY, cycles: 4, page_delay: 0, size: 2 },
        0xb8 => Instruction { op: Op::Clv, addr_mode: AddressingMode::Implicit, cycles: 2, page_delay: 0, size: 1 },
        0xb9 => Instruction { op: Op::Lda, addr_mode: AddressingMode::AbsoluteY, cycles: 4, page_delay: 1, size: 3 },
        0xba => Instruction { op: Op::Tsx, addr_mode: AddressingMode::Implicit, cycles: 2, page_delay: 0, size: 1 },
        0xbb => Instruction { op: Op::Las, addr_mode: AddressingMode::AbsoluteY, cycles: 4, page_delay: 1, size: 3 },
        0xbc => Instruction { op: Op::Ldy, addr_mode: AddressingMode::AbsoluteX, cycles: 4, page_delay: 1, size: 3 },
        0xbd => Instruction { op: Op::Lda, addr_mode: AddressingMode::AbsoluteX, cycles: 4, page_delay: 1, size: 3 },
        0xbe => Instruction { op: Op::Ldx, addr_mode: AddressingMode::AbsoluteY, cycles: 4, page_delay: 1, size: 3 },
        0xbf => Instruction { op: Op::Lax, addr_mode: AddressingMode::AbsoluteY, cycles: 4, page_delay: 1, size: 3 },
        0xc0 => Instruction { op: Op::Cpy, addr_mode: AddressingMode::Immediate, cycles: 2, page_delay: 0, size: 2 },
        0xc1 => Instruction { op: Op::Cmp, addr_mode: AddressingMode::IndexedIndirect, cycles: 6, page_delay: 0, size: 2 },
        0xc2 => Instruction { op: Op::Nop, addr_mode: AddressingMode::Immediate, cycles: 2, page_delay: 0, size: 2 },
        0xc3 => Instruction { op: Op::Dcp, addr_mode: AddressingMode::IndexedIndirect, cycles: 8, page_delay: 0, size: 2 },
        0xc4 => Instruction { op: Op::Cpy, addr_mode: AddressingMode::ZeroPage, cycles: 3, page_delay: 0, size: 2 },
        0xc5 => Instruction { op: Op::Cmp, addr_mode: AddressingMode::ZeroPage, cycles: 3, page_delay: 0, size: 2 },
        0xc6 => Instruction { op: Op::Dec, addr_mode: AddressingMode::ZeroPage, cycles: 5, page_delay: 0, size: 2 },
        0xc7 => Instruction { op: Op::Dcp, addr_mode: AddressingMode::ZeroPage, cycles: 5, page_delay: 0, size: 2 },
        0xc8 => Instruction { op: Op::Iny, addr_mode: AddressingMode::Implicit, cycles: 2, page_delay: 0, size: 1 },
        0xc9 => Instruction { op: Op::Cmp, addr_mode: AddressingMode::Immediate, cycles: 2, page_delay: 0, size: 2 },
        0xca => Instruction { op: Op::Dex, addr_mode: AddressingMode::Implicit, cycles: 2, page_delay: 0, size: 1 },
        0xcb => Instruction { op: Op::Axs, addr_mode: AddressingMode::Immediate, cycles: 2, page_delay: 0, size: 2 },
        0xcc => Instruction { op: Op::Cpy, addr_mode: AddressingMode::Absolute, cycles: 4, page_delay: 0, size: 3 },
        0xcd => Instruction { op: Op::Cmp, addr_mode: AddressingMode::Absolute, cycles: 4, page_delay: 0, size: 3 },
        0xce => Instruction { op: Op::Dec, addr_mode: AddressingMode::Absolute, cycles: 6, page_delay: 0, size: 3 },
        0xcf => Instruction { op: Op::Dcp, addr_mode: AddressingMode::Absolute, cycles: 6, page_delay: 0, size: 3 },
        0xd0 => Instruction { op: Op::Bne, addr_mode: AddressingMode::Relative, cycles: 2, page_delay: 1, size: 2 },
        0xd1 => Instruction { op: Op::Cmp, addr_mode: AddressingMode::IndirectIndexed, cycles: 5, page_delay: 1, size: 2 },
        0xd2 => Instruction { op: Op::Kil, addr_mode: AddressingMode::Implicit, cycles: 2, page_delay: 0, size: 1 },
        0xd3 => Instruction { op: Op::Dcp, addr_mode: AddressingMode::IndirectIndexed, cycles: 8, page_delay: 0, size: 2 },
        0xd4 => Instruction { op: Op::Nop, addr_mode: AddressingMode::ZeroPageX, cycles: 4, page_delay: 0, size: 2 },
        0xd5 => Instruction { op: Op::Cmp, addr_mode: AddressingMode::ZeroPageX, cycles: 4, page_delay: 0, size: 2 },
        0xd6 => Instruction { op: Op::Dec, addr_mode: AddressingMode::ZeroPageX, cycles: 6, page_delay: 0, size: 2 },
        0xd7 => Instruction { op: Op::Dcp, addr_mode: AddressingMode::ZeroPageX, cycles: 6, page_delay: 0, size: 2 },
        0xd8 => Instruction { op: Op::Cld, addr_mode: AddressingMode::Implicit, cycles: 2, page_delay: 0, size: 1 },
        0xd9 => Instruction { op: Op::Cmp, addr_mode: AddressingMode::AbsoluteY, cycles: 4, page_delay: 1, size: 3 },
        0xda => Instruction { op: Op::Nop, addr_mode: AddressingMode::Implicit, cycles: 2, page_delay: 0, size: 1 },
        0xdb => Instruction { op: Op::Dcp, addr_mode: AddressingMode::AbsoluteY, cycles: 7, page_delay: 0, size: 3 },
        0xdc => Instruction { op: Op::Nop, addr_mode: AddressingMode::AbsoluteX, cycles: 4, page_delay: 1, size: 3 },
        0xdd => Instruction { op: Op::Cmp, addr_mode: AddressingMode::AbsoluteX, cycles: 4, page_delay: 1, size: 3 },
        0xde => Instruction { op: Op::Dec, addr_mode: AddressingMode::AbsoluteX, cycles: 7, page_delay: 0, size: 3 },
        0xdf => Instruction { op: Op::Dcp, addr_mode: AddressingMode::AbsoluteX, cycles: 7, page_delay: 0, size: 3 },
        0xe0 => Instruction { op: Op::Cpx, addr_mode: AddressingMode::Immediate, cycles: 2, page_delay: 0, size: 2 },
        0xe1 => Instruction { op: Op::Sbc, addr_mode: AddressingMode::IndexedIndirect, cycles: 6, page_delay: 0, size: 2 },
        0xe2 => Instruction { op: Op::Nop, addr_mode: AddressingMode::Immediate, cycles: 2, page_delay: 0, size: 2 },
        0xe3 => Instruction { op: Op::Isc, addr_mode: AddressingMode::IndexedIndirect, cycles: 8, page_delay: 0, size: 2 },
        0xe4 => Instruction { op: Op::Cpx, addr_mode: AddressingMode::ZeroPage, cycles: 3, page_delay: 0, size: 2 },
        0xe5 => Instruction { op: Op::Sbc, addr_mode: AddressingMode::ZeroPage, cycles: 3, page_delay: 0, size: 2 },
        0xe6 => Instruction { op: Op::Inc, addr_mode: AddressingMode::ZeroPage, cycles: 5, page_delay: 0, size: 2 },
        0xe7 => Instruction { op: Op::Isc, addr_mode: AddressingMode::ZeroPage, cycles: 5, page_delay: 0, size: 2 },
        0xe8 => Instruction { op: Op::Inx, addr_mode: AddressingMode::Implicit, cycles: 2, page_delay: 0, size: 1 },
        0xe9 => Instruction { op: Op::Sbc, addr_mode: AddressingMode::Immediate, cycles: 2, page_delay: 0, size: 2 },
        0xea => Instruction { op: Op::Nop, addr_mode: AddressingMode::Implicit, cycles: 2, page_delay: 0, size: 1 },
        0xeb => Instruction { op: Op::Sbc, addr_mode: AddressingMode::Immediate, cycles: 2, page_delay: 0, size: 2 },
        0xec => Instruction { op: Op::Cpx, addr_mode: AddressingMode::Absolute, cycles: 4, page_delay: 0, size: 3 },
        0xed => Instruction { op: Op::Sbc, addr_mode: AddressingMode::Absolute, cycles: 4, page_delay: 0, size: 3 },
        0xee => Instruction { op: Op::Inc, addr_mode: AddressingMode::Absolute, cycles: 6, page_delay: 0, size: 3 },
        0xef => Instruction { op: Op::Isc, addr_mode: AddressingMode::Absolute, cycles: 6, page_delay: 0, size: 3 },
        0xf0 => Instruction { op: Op::Beq, addr_mode: AddressingMode::Relative, cycles: 2, page_delay: 1, size: 2 },
        0xf1 => Instruction { op: Op::Sbc, addr_mode: AddressingMode::IndirectIndexed, cycles: 5, page_delay: 1, size: 2 },
        0xf2 => Instruction { op: Op::Kil, addr_mode: AddressingMode::Implicit, cycles: 2, page_delay: 0, size: 1 },
        0xf3 => Instruction { op: Op::Isc, addr_mode: AddressingMode::IndirectIndexed, cycles: 8, page_delay: 0, size: 2 },
        0xf4 => Instruction { op: Op::Nop, addr_mode: AddressingMode::ZeroPageX, cycles: 4, page_delay: 0, size: 2 },
        0xf5 => Instruction { op: Op::Sbc, addr_mode: AddressingMode::ZeroPageX, cycles: 4, page_delay: 0, size: 2 },
        0xf6 => Instruction { op: Op::Inc, addr_mode: AddressingMode::ZeroPageX, cycles: 6, page_delay: 0, size: 2 },
        0xf7 => Instruction { op: Op::Isc, addr_mode: AddressingMode::ZeroPageX, cycles: 6, page_delay: 0, size: 2 },
        0xf8 => Instruction { op: Op::Sed, addr_mode: AddressingMode::Implicit, cycles: 2, page_delay: 0, size: 1 },
        0xf9 => Instruction { op: Op::Sbc, addr_mode: AddressingMode::AbsoluteY, cycles: 4, page_delay: 1, size: 3 },
        0xfa => Instruction { op: Op::Nop, addr_mode: AddressingMode::Implicit, cycles: 2, page_delay: 0, size: 1 },
        0xfb => Instruction { op: Op::Isc, addr_mode: AddressingMode::AbsoluteY, cycles: 7, page_delay: 0, size: 3 },
        0xfc => Instruction { op: Op::Nop, addr_mode: AddressingMode::AbsoluteX, cycles: 4, page_delay: 1, size: 3 },
        0xfd => Instruction { op: Op::Sbc, addr_mode: AddressingMode::AbsoluteX, cycles: 4, page_delay: 1, size: 3 },
        0xfe => Instruction { op: Op::Inc, addr_mode: AddressingMode::AbsoluteX, cycles: 7, page_delay: 0, size: 3 },
        0xff => Instruction { op: Op::Isc, addr_mode: AddressingMode::AbsoluteX, cycles: 7, page_delay: 0, size: 3 },
    }
}

/// The three-letter mnemonic of an operation, for diagnostics.
pub fn mnemonic(op: Op) -> (r: &'static str)
    ensures
        r@.len() == 3,
{
    match op {
        Op::Adc => { proof { reveal_strlit("ADC"); } "ADC" },
        Op::Ahx => { proof { reveal_strlit("AHX"); } "AHX" },
        Op::Alr => { proof { reveal_strlit("ALR"); } "ALR" },
        Op::Anc => { proof { reveal_strlit("ANC"); } "ANC" },
        Op::And => { proof { reveal_strlit("AND"); } "AND" },
        Op::Arr => { proof { reveal_strlit("ARR"); } "ARR" },
        Op::Asl => { proof { reveal_strlit("ASL"); } "ASL" },
        Op::Axs => { proof { reveal_strlit("AXS"); } "AXS" },
        Op::Bcc => { proof { reveal_strlit("BCC"); } "BCC" },
        Op::Bcs => { proof { reveal_strlit("BCS"); } "BCS" },
        Op::Beq => { proof { reveal_strlit("BEQ"); } "BEQ" },
        Op::Bit => { proof { reveal_strlit("BIT"); } "BIT" },
        Op::Bmi => { proof { reveal_strlit("BMI"); } "BMI" },
        Op::Bne => { proof { reveal_strlit("BNE"); } "BNE" },
        Op::Bpl => { proof { reveal_strlit("BPL"); } "BPL" },
        Op::Brk => { proof { reveal_strlit("BRK"); } "BRK" },
        Op::Bvc => { proof { reveal_strlit("BVC"); } "BVC" },
        Op::Bvs => { proof { reveal_strlit("BVS"); } "BVS" },
        Op::Clc => { proof { reveal_strlit("CLC"); } "CLC" },
        Op::Cld => { proof { reveal_strlit("CLD"); } "CLD" },
        Op::Cli => { proof { reveal_strlit("CLI"); } "CLI" },
        Op::Clv => { proof { reveal_strlit("CLV"); } "CLV" },
        Op::Cmp => { proof { reveal_strlit("CMP"); } "CMP" },
        Op::Cpx => { proof { reveal_strlit("CPX"); } "CPX" },
        Op::Cpy => { proof { reveal_strlit("CPY"); } "CPY" },
        Op::Dcp => { proof { reveal_strlit("DCP"); } "DCP" },
        Op::Dec => { proof { reveal_strlit("DEC"); } "DEC" },
        Op::Dex => { proof { reveal_strlit("DEX"); } "DEX" },
        Op::Dey => { proof { reveal_strlit("DEY"); } "DEY" },
        Op::Eor => { proof { reveal_strlit("EOR"); } "EOR" },
        Op::Inc => { proof { reveal_strlit("INC"); } "INC" },
        Op::Inx => { proof { reveal_strlit("INX"); } "INX" },
        Op::Iny => { proof { reveal_strlit("INY"); } "INY" },
        Op::Isc => { proof { reveal_strlit("ISC"); } "ISC" },
        Op::Jmp => { proof { reveal_strlit("JMP"); } "JMP" },
        Op::Jsr => { proof { reveal_strlit("JSR"); } "JSR" },
        Op::Kil => { proof { reveal_strlit("KIL"); } "KIL" },
        Op::Las => { proof { reveal_strlit("LAS"); } "LAS" },
        Op::Lax => { proof { reveal_strlit("LAX"); } "LAX" },
        Op::Lda => { proof { reveal_strlit("LDA"); } "LDA" },
        Op::Ldx => { proof { reveal_strlit("LDX"); } "LDX" },
        Op::Ldy => { proof { reveal_strlit("LDY"); } "LDY" },
        Op::Lsr => { proof { reveal_strlit("LSR"); } "LSR" },
        Op::Nop => { proof { reveal_strlit("NOP"); } "NOP" },
        Op::Ora => { proof { reveal_strlit("ORA"); } "ORA" },
        Op::Pha => { proof { reveal_strlit("PHA"); } "PHA" },
        Op::Php => { proof { reveal_strlit("PHP"); } "PHP" },
        Op::Pla => { proof { reveal_strlit("PLA"); } "PLA" },
        Op::Plp => { proof { reveal_strlit("PLP"); } "PLP" },
        Op::Rla => { proof { reveal_strlit("RLA"); } "RLA" },
        Op::Rol => { proof { reveal_strlit("ROL"); } "ROL" },
        Op::Ror => { proof { reveal_strlit("ROR"); } "ROR" },
        Op::Rra => { proof { reveal_strlit("RRA"); } "RRA" },
        Op::Rti => { proof { reveal_strlit("RTI"); } "RTI" },
        Op::Rts => { proof { reveal_strlit("RTS"); } "RTS" },
        Op::Sax => { proof { reveal_strlit("SAX"); } "SAX" },
        Op::Sbc => { proof { reveal_strlit("SBC"); } "SBC" },
        Op::Sec => { proof { reveal_strlit("SEC"); } "SEC" },
        Op::Sed => { proof { reveal_strlit("SED"); } "SED" },
        Op::Sei => { proof { reveal_strlit("SEI"); } "SEI" },
        Op::Shx => { proof { reveal_strlit("SHX"); } "SHX" },
        Op::Shy => { proof { reveal_strlit("SHY"); } "SHY" },
        Op::Slo => { proof { reveal_strlit("SLO"); } "SLO" },
        Op::Sre => { proof { reveal_strlit("SRE"); } "SRE" },
        Op::Sta => { proof { reveal_strlit("STA"); } "STA" },
        Op::Stx => { proof { reveal_strlit("STX"); } "STX" },
        Op::Sty => { proof { reveal_strlit("STY"); } "STY" },
        Op::Tas => { proof { reveal_strlit("TAS"); } "TAS" },
        Op::Tax => { proof { reveal_strlit("TAX"); } "TAX" },
        Op::Tay => { proof { reveal_strlit("TAY"); } "TAY" },
        Op::Tsx => { proof { reveal_strlit("TSX"); } "TSX" },
        Op::Txa => { proof { reveal_strlit("TXA"); } "TXA" },
        Op::Txs => { proof { reveal_strlit("TXS"); } "TXS" },
        Op::Tya => { proof { reveal_strlit("TYA"); } "TYA" },
        Op::Xaa => { proof { reveal_strlit("XAA"); } "XAA" },
    }
}

/// Every entry of the descriptor table names an instruction of at least one
/// byte, and exactly as many bytes as its addressing mode implies.
#[verifier::rlimit(100)]
pub proof fn lemma_descriptor_table_total()
    ensures
        forall|opcode: u8| 1 <= #[trigger] instr_spec(opcode).size <= 3,
        forall|opcode: u8|
            #[trigger] instr_spec(opcode).size == mode_len(instr_spec(opcode).addr_mode),
{
    assert forall|opcode: u8| 1 <= #[trigger] instr_spec(opcode).size <= 3 by {
        let i = instr_spec(opcode);
    }
    assert forall|opcode: u8|
        #[trigger] instr_spec(opcode).size == mode_len(instr_spec(opcode).addr_mode) by {
        let i = instr_spec(opcode);
    }
}

/// Every entry's base cycle cost stays within the hardware's range and
/// the page-cross penalty is zero or one.
#[verifier::rlimit(100)]
pub proof fn lemma_descriptor_cycle_bounds()
    ensures
        forall|opcode: u8| #[trigger] instr_spec(opcode).cycles <= 8,
        forall|opcode: u8| #[trigger] instr_spec(opcode).page_delay <= 1,
{
    assert forall|opcode: u8| #[trigger] instr_spec(opcode).cycles <= 8 by {
        let i = instr_spec(opcode);
    }
    assert forall|opcode: u8| #[trigger] instr_spec(opcode).page_delay <= 1 by {
        let i = instr_spec(opcode);
    }
}

} // verus!
