use vstd::prelude::*;

use crate::errors::NesError;
use crate::errors::evolves_to;
use crate::instructions::AddressingMode;
use crate::instructions::Op;
use crate::instructions::instr_spec;
use crate::instructions::instruction_for;
use crate::memory::CPUMemoryMap;
use crate::memory::MemView;
use crate::memory::cpu_read16_spec;
use crate::memory::cpu_read_spec;
use crate::memory::cpu_write_spec;

verus! {

/// The processor's register file: program counter, stack pointer, the
/// three 8-bit registers, and the seven status flags (with the unused
/// bit), each tracked as its own bit.
#[derive(Clone, Copy, Debug, PartialEq, Eq, Structural)]
pub struct CpuRegs {
    /// Program counter.
    pub pc: u16,
    /// Stack pointer: an index into the fixed stack page, wrapping
    /// modulo 256.
    pub sp: u8,
    /// Accumulator.
    pub a: u8,
    /// Index register X.
    pub x: u8,
    /// Index register Y.
    pub y: u8,
    /// Carry flag, status bit 0.
    pub c: bool,
    /// Zero flag, status bit 1.
    pub z: bool,
    /// Interrupt-disable flag, status bit 2.
    pub i: bool,
    /// Decimal flag, status bit 3: tracked but never alters arithmetic on
    /// this processor variant.
    pub d: bool,
    /// Break flag, status bit 4: tracked only.
    pub b: bool,
    /// Unused flag, status bit 5.
    pub u: bool,
    /// Overflow flag, status bit 6.
    pub v: bool,
    /// Negative flag, status bit 7.
    pub n: bool,
}

/// The instruction engine: fetches, decodes and executes one instruction
/// per step, reporting the elapsed clock cycles, and serves the
/// non-maskable interrupt before the fetch when the driver requests it.
pub struct CPU {
    /// The register file.
    pub regs: CpuRegs,
    /// The processor-visible address space.
    pub memory: CPUMemoryMap,
    /// Clock cycles accumulated over all steps, wrapping at the counter's
    /// width.
    pub cycles: u64,
    /// Clock cycles of the latest step.
    pub this_cycles: u8,
}

/// The mathematical content of the engine's state.
#[verifier::ext_equal]
pub ghost struct CpuView {
    pub regs: CpuRegs,
    pub mem: MemView,
    pub cycles: u64,
    pub this_cycles: u8,
}

impl View for CPU {
    type V = CpuView;

    open spec fn view(&self) -> CpuView {
        CpuView {
            regs: self.regs,
            mem: self.memory@,
            cycles: self.cycles,
            this_cycles: self.this_cycles,
        }
    }
}

impl CpuView {
    /// The engine is well formed when its address space is.
    pub open spec fn wf(self) -> bool {
        self.mem.wf()
    }
}

/// The driver's interrupt request for one step.
#[derive(Clone, Copy, Debug, PartialEq, Eq, Structural)]
pub enum Interrupt {
    IntNMI,
    IntIRQ,
    IntNone,
}

/// Whether two addresses fall in different 256-byte pages.
pub open spec fn pages_differ_spec(one: u16, two: u16) -> bool {
    (one & 0xff00) != (two & 0xff00)
}

/// Whether two addresses fall in different 256-byte pages.
pub fn pages_differ(one: u16, two: u16) -> (r: bool)
    ensures
        r == pages_differ_spec(one, two),
{
    one & 0xff00 != two & 0xff00
}


/// The diagnostic flag string: one letter for each raised flag, in the
/// order negative, break, interrupt-disable, carry, zero.
pub open spec fn flags_str_spec(r: CpuRegs) -> Seq<char> {
    (if r.n { "n"@ } else { Seq::<char>::empty() }) + (if r.b {
        "b"@
    } else {
        Seq::<char>::empty()
    }) + (if r.i { "i"@ } else { Seq::<char>::empty() }) + (if r.c {
        "c"@
    } else {
        Seq::<char>::empty()
    }) + (if r.z { "z"@ } else { Seq::<char>::empty() })
}

/// The status byte: carry in bit 0 up through negative in bit 7.
pub open spec fn flags_spec(r: CpuRegs) -> u8 {
    (if r.c { 0x01u8 } else { 0u8 }) | (if r.z { 0x02u8 } else { 0u8 }) | (if r.i {
        0x04u8
    } else {
        0u8
    }) | (if r.d { 0x08u8 } else { 0u8 }) | (if r.b { 0x10u8 } else { 0u8 }) | (if r.u {
        0x20u8
    } else {
        0u8
    }) | (if r.v { 0x40u8 } else { 0u8 }) | (if r.n { 0x80u8 } else { 0u8 })
}

/// The register file with its flags taken from a status byte, everything
/// else untouched.
pub open spec fn set_flags_spec(r: CpuRegs, f: u8) -> CpuRegs {
    CpuRegs {
        c: f & 0x01 != 0,
        z: f & 0x02 != 0,
        i: f & 0x04 != 0,
        d: f & 0x08 != 0,
        b: f & 0x10 != 0,
        u: f & 0x20 != 0,
        v: f & 0x40 != 0,
        n: f & 0x80 != 0,
        ..r
    }
}

/// One byte pushed: written at the stack pointer's slot in the fixed
/// stack page, the pointer stepping down with wraparound.
pub open spec fn push_spec(c: CpuView, data: u8) -> CpuView {
    CpuView {
        mem: MemView { ram: c.mem.ram.update(0x100 + c.regs.sp as int, data), ..c.mem },
        regs: CpuRegs { sp: c.regs.sp.wrapping_sub(1), ..c.regs },
        ..c
    }
}

/// One byte popped: the pointer steps up with wraparound and the byte at
/// its new slot comes back.
pub open spec fn pop_spec(c: CpuView) -> (CpuView, u8) {
    let sp2 = c.regs.sp.wrapping_add(1);
    (CpuView { regs: CpuRegs { sp: sp2, ..c.regs }, ..c }, c.mem.ram[0x100 + sp2 as int])
}

/// A 16-bit value pushed: high byte first, then low.
pub open spec fn push16_spec(c: CpuView, data: u16) -> CpuView {
    push_spec(push_spec(c, ((data >> 8) & 0xff) as u8), (data & 0xff) as u8)
}

/// A 16-bit value popped: low byte first, then high.
pub open spec fn pop16_spec(c: CpuView) -> (CpuView, u16) {
    let t1 = pop_spec(c);
    let t2 = pop_spec(t1.0);
    (t2.0, ((t2.1 as u16) << 8) | (t1.1 as u16))
}

/// The non-maskable interrupt sequence: the program counter and a status
/// byte with the break flag cleared go onto the stack, the
/// interrupt-disable flag rises, and the program counter is loaded from
/// the fixed interrupt vector.
pub open spec fn nmi_spec(c: CpuView) -> CpuView {
    let c1 = push16_spec(c, c.regs.pc);
    let c2 = push_spec(c1, flags_spec(c1.regs) & 0xef);
    CpuView {
        regs: CpuRegs { pc: cpu_read16_spec(c2.mem, 0xfffa)->Ok_0, i: true, ..c2.regs },
        ..c2
    }
}

/// The engine's power-on state over an address space: the program counter
/// comes from the reset vector, the stack pointer from its fixed power-on
/// slot, and everything else is clear.
pub open spec fn cpu_init_spec(m: MemView) -> CpuView {
    CpuView {
        regs: CpuRegs {
            pc: cpu_read16_spec(m, 0xfffc)->Ok_0,
            sp: 0xfd,
            a: 0,
            x: 0,
            y: 0,
            c: false,
            z: false,
            i: false,
            d: false,
            b: false,
            u: false,
            v: false,
            n: false,
        },
        mem: m,
        cycles: 0,
        this_cycles: 0,
    }
}

/// The effective address an addressing mode names, with the page-cross
/// signal for the three indexed modes and for branch targets, as a pure
/// function of the registers and the address space.
pub open spec fn resolve_spec(c: CpuView, mode: AddressingMode) -> Result<
    (u16, bool),
    NesError,
> {
    match mode {
        AddressingMode::Implicit => Ok((0u16, false)),
        AddressingMode::Accumulator => Ok((0u16, false)),
        AddressingMode::Immediate => Ok((c.regs.pc.wrapping_add(1), false)),
        AddressingMode::ZeroPage => match cpu_read_spec(c.mem, c.regs.pc.wrapping_add(1)) {
            Ok(b) => Ok((b as u16, false)),
            Err(e) => Err(e),
        },
        AddressingMode::ZeroPageX => match cpu_read_spec(c.mem, c.regs.pc.wrapping_add(1)) {
            Ok(b) => Ok((b.wrapping_add(c.regs.x) as u16, false)),
            Err(e) => Err(e),
        },
        AddressingMode::ZeroPageY => match cpu_read_spec(c.mem, c.regs.pc.wrapping_add(1)) {
            Ok(b) => Ok((b.wrapping_add(c.regs.y) as u16, false)),
            Err(e) => Err(e),
        },
        AddressingMode::Relative => match cpu_read_spec(c.mem, c.regs.pc.wrapping_add(1)) {
            Ok(b) => {
                let next = c.regs.pc.wrapping_add(2);
                let target = next.wrapping_add(b as i8 as u16);
                Ok((target, pages_differ_spec(next, target)))
            },
            Err(e) => Err(e),
        },
        AddressingMode::Absolute => match cpu_read16_spec(c.mem, c.regs.pc.wrapping_add(1)) {
            Ok(w) => Ok((w, false)),
            Err(e) => Err(e),
        },
        AddressingMode::AbsoluteX => match cpu_read16_spec(c.mem, c.regs.pc.wrapping_add(1)) {
            Ok(w) => {
                let addr = w.wrapping_add(c.regs.x as u16);
                Ok((addr, pages_differ_spec(w, addr)))
            },
            Err(e) => Err(e),
        },
        AddressingMode::AbsoluteY => match cpu_read16_spec(c.mem, c.regs.pc.wrapping_add(1)) {
            Ok(w) => {
                let addr = w.wrapping_add(c.regs.y as u16);
                Ok((addr, pages_differ_spec(w, addr)))
            },
            Err(e) => Err(e),
        },
        AddressingMode::Indirect => match cpu_read16_spec(c.mem, c.regs.pc.wrapping_add(1)) {
            Ok(w) => match cpu_read16_spec(c.mem, w) {
                Ok(w2) => Ok((w2, false)),
                Err(e) => Err(e),
            },
            Err(e) => Err(e),
        },
        AddressingMode::IndexedIndirect => match cpu_read_spec(
            c.mem,
            c.regs.pc.wrapping_add(1),
        ) {
            Ok(b) => match cpu_read16_spec(c.mem, (b as u16 + c.regs.x as u16) as u16) {
                Ok(w) => Ok((w, false)),
                Err(e) => Err(e),
            },
            Err(e) => Err(e),
        },
        AddressingMode::IndirectIndexed => match cpu_read_spec(
            c.mem,
            c.regs.pc.wrapping_add(1),
        ) {
            Ok(b) => match cpu_read16_spec(c.mem, b as u16) {
                Ok(w) => {
                    let addr = w.wrapping_add(c.regs.y as u16);
                    Ok((addr, pages_differ_spec(w, addr)))
                },
                Err(e) => Err(e),
            },
            Err(e) => Err(e),
        },
    }
}

impl CPU {
    /// Builds the engine over a wired address space, reading the initial
    /// program counter from the reset vector before any instruction runs.
    pub fn new(mem: CPUMemoryMap) -> (r: CPU)
        requires
            mem@.wf(),
        ensures
            r@ == cpu_init_spec(mem@),
            r@.wf(),
    {
        let pcval = match mem.read16(0xfffc) {
            Ok(w) => w,
            Err(_) => 0,
        };
        CPU {
            regs: CpuRegs {
                pc: pcval,
                sp: 0xfd,
                a: 0,
                x: 0,
                y: 0,
                c: false,
                z: false,
                i: false,
                d: false,
                b: false,
                u: false,
                v: false,
                n: false,
            },
            memory: mem,
            cycles: 0,
            this_cycles: 0,
        }
    }

    /// The packed status byte.
    pub fn flags(&self) -> (f: u8)
        ensures
            f == flags_spec(self@.regs),
    {
        (if self.regs.c { 0x01u8 } else { 0u8 }) | (if self.regs.z { 0x02u8 } else { 0u8 }) | (
        if self.regs.i { 0x04u8 } else { 0u8 }) | (if self.regs.d { 0x08u8 } else { 0u8 }) | (
        if self.regs.b { 0x10u8 } else { 0u8 }) | (if self.regs.u { 0x20u8 } else { 0u8 }) | (
        if self.regs.v { 0x40u8 } else { 0u8 }) | (if self.regs.n { 0x80u8 } else { 0u8 })
    }

    /// Unpacks a status byte into the flags.
    pub fn set_flags(&mut self, f: u8)
        ensures
            final(self)@ == (CpuView { regs: set_flags_spec(old(self)@.regs, f), ..old(self)@ }),
    {
        self.regs = CpuRegs {
            c: f & 0x01 != 0,
            z: f & 0x02 != 0,
            i: f & 0x04 != 0,
            d: f & 0x08 != 0,
            b: f & 0x10 != 0,
            u: f & 0x20 != 0,
            v: f & 0x40 != 0,
            n: f & 0x80 != 0,
            ..self.regs
        };
    }

    /// Pushes one byte onto the stack. The stack page lies inside console
    /// memory, so a push never fails.
    pub fn push(&mut self, data: u8)
        requires
            old(self)@.wf(),
        ensures
            final(self)@.wf(),
            final(self)@ == push_spec(old(self)@, data),
    {
        let slot: usize = 0x100 + (self.regs.sp as usize);
        self.memory.ram[slot] = data;
        self.regs = CpuRegs { sp: self.regs.sp.wrapping_sub(1), ..self.regs };
    }

    /// Pops one byte off the stack.
    pub fn pop(&mut self) -> (r: u8)
        requires
            old(self)@.wf(),
        ensures
            final(self)@.wf(),
            (final(self)@, r) == pop_spec(old(self)@),
    {
        self.regs = CpuRegs { sp: self.regs.sp.wrapping_add(1), ..self.regs };
        let slot: usize = 0x100 + (self.regs.sp as usize);
        self.memory.ram[slot]
    }

    /// Pushes a 16-bit value, high byte first.
    pub fn push16(&mut self, data: u16)
        requires
            old(self)@.wf(),
        ensures
            final(self)@.wf(),
            final(self)@ == push16_spec(old(self)@, data),
    {
        self.push(((data >> 8) & 0xff) as u8);
        self.push((data & 0xff) as u8);
    }

    /// Pops a 16-bit value, low byte first.
    pub fn pop16(&mut self) -> (r: u16)
        requires
            old(self)@.wf(),
        ensures
            final(self)@.wf(),
            (final(self)@, r) == pop16_spec(old(self)@),
    {
        let lo = self.pop();
        let hi = self.pop();
        ((hi as u16) << 8) | (lo as u16)
    }


    /// Renders the raised flags as letters, for diagnostics.
    pub fn flags_str(&self) -> (r: String)
        ensures
            r@ == flags_str_spec(self@.regs),
    {
        let mut status = String::new();
        proof {
            reveal_strlit("");
        }
        if self.regs.n {
            status.append("n");
        }
        proof {
            assert(status@ =~= (if self.regs.n { "n"@ } else { Seq::<char>::empty() }));
        }
        if self.regs.b {
            status.append("b");
        }
        if self.regs.i {
            status.append("i");
        }
        if self.regs.c {
            status.append("c");
        }
        if self.regs.z {
            status.append("z");
        }
        proof {
            assert(status@ =~= flags_str_spec(self@.regs));
        }
        status
    }

    /// The maskable interrupt line: acknowledged but not supported, and
    /// surfaced as such rather than silently ignored.
    pub fn irq(&mut self) -> (r: Result<(), NesError>)
        ensures
            *final(self) == *old(self),
            r == Err::<(), NesError>(NesError::UnsupportedInterrupt),
    {
        Err(NesError::UnsupportedInterrupt)
    }

    /// Serves the non-maskable interrupt: pushes the program counter and
    /// a status byte with the break flag cleared, raises the
    /// interrupt-disable flag and jumps through the fixed vector.
    pub fn nmi(&mut self)
        requires
            old(self)@.wf(),
        ensures
            final(self)@.wf(),
            final(self)@ == nmi_spec(old(self)@),
    {
        let pc = self.regs.pc;
        self.push16(pc);
        let f = self.flags();
        self.push(f & 0xef);
        let v = match self.memory.read16(0xfffa) {
            Ok(w) => w,
            Err(_) => 0,
        };
        self.regs = CpuRegs { pc: v, i: true, ..self.regs };
    }

    /// Resolves the effective address of the current instruction's
    /// operand, with the page-cross signal where the mode defines one.
    pub fn resolve(&self, mode: AddressingMode) -> (r: Result<(u16, bool), NesError>)
        requires
            self@.wf(),
        ensures
            r == resolve_spec(self@, mode),
    {
        match mode {
            AddressingMode::Implicit => Ok((0u16, false)),
            AddressingMode::Accumulator => Ok((0u16, false)),
            AddressingMode::Immediate => Ok((self.regs.pc.wrapping_add(1), false)),
            AddressingMode::ZeroPage => match self.memory.read(self.regs.pc.wrapping_add(1)) {
                Ok(b) => Ok((b as u16, false)),
                Err(e) => Err(e),
            },
            AddressingMode::ZeroPageX => match self.memory.read(self.regs.pc.wrapping_add(1)) {
                Ok(b) => Ok((b.wrapping_add(self.regs.x) as u16, false)),
                Err(e) => Err(e),
            },
            AddressingMode::ZeroPageY => match self.memory.read(self.regs.pc.wrapping_add(1)) {
                Ok(b) => Ok((b.wrapping_add(self.regs.y) as u16, false)),
                Err(e) => Err(e),
            },
            AddressingMode::Relative => match self.memory.read(self.regs.pc.wrapping_add(1)) {
                Ok(b) => {
                    let next = self.regs.pc.wrapping_add(2);
                    let target = next.wrapping_add(b as i8 as u16);
                    Ok((target, pages_differ(next, target)))
                },
                Err(e) => Err(e),
            },
            AddressingMode::Absolute => match self.memory.read16(self.regs.pc.wrapping_add(1)) {
                Ok(w) => Ok((w, false)),
                Err(e) => Err(e),
            },
            AddressingMode::AbsoluteX => match self.memory.read16(self.regs.pc.wrapping_add(1)) {
                Ok(w) => {
                    let addr = w.wrapping_add(self.regs.x as u16);
                    Ok((addr, pages_differ(w, addr)))
                },
                Err(e) => Err(e),
            },
            AddressingMode::AbsoluteY => match self.memory.read16(self.regs.pc.wrapping_add(1)) {
                Ok(w) => {
                    let addr = w.wrapping_add(self.regs.y as u16);
                    Ok((addr, pages_differ(w, addr)))
                },
                Err(e) => Err(e),
            },
            AddressingMode::Indirect => match self.memory.read16(self.regs.pc.wrapping_add(1)) {
                Ok(w) => match self.memory.read16(w) {
                    Ok(w2) => Ok((w2, false)),
                    Err(e) => Err(e),
                },
                Err(e) => Err(e),
            },
            AddressingMode::IndexedIndirect => match self.memory.read(
                self.regs.pc.wrapping_add(1),
            ) {
                Ok(b) => match self.memory.read16((b as u16) + (self.regs.x as u16)) {
                    Ok(w) => Ok((w, false)),
                    Err(e) => Err(e),
                },
                Err(e) => Err(e),
            },
            AddressingMode::IndirectIndexed => match self.memory.read(
                self.regs.pc.wrapping_add(1),
            ) {
                Ok(b) => match self.memory.read16(b as u16) {
                    Ok(w) => {
                        let addr = w.wrapping_add(self.regs.y as u16);
                        Ok((addr, pages_differ(w, addr)))
                    },
                    Err(e) => Err(e),
                },
                Err(e) => Err(e),
            },
        }
    }
}

/// Loads the accumulator, setting the zero and negative flags from the loaded byte.
pub open spec fn lda_spec(c: CpuView, address: u16) -> Result<CpuView, NesError> {
    match cpu_read_spec(c.mem, address) {
        Ok(m) => Ok(CpuView { regs: CpuRegs { a: m, z: m == 0, n: (m & 0x80) != 0, ..c.regs }, ..c }),
        Err(e) => Err(e),
    }
}

/// Loads index register X, setting the zero and negative flags from the loaded byte.
pub open spec fn ldx_spec(c: CpuView, address: u16) -> Result<CpuView, NesError> {
    match cpu_read_spec(c.mem, address) {
        Ok(m) => Ok(CpuView { regs: CpuRegs { x: m, z: m == 0, n: (m & 0x80) != 0, ..c.regs }, ..c }),
        Err(e) => Err(e),
    }
}

/// Loads index register Y, setting the zero and negative flags from the loaded byte.
pub open spec fn ldy_spec(c: CpuView, address: u16) -> Result<CpuView, NesError> {
    match cpu_read_spec(c.mem, address) {
        Ok(m) => Ok(CpuView { regs: CpuRegs { y: m, z: m == 0, n: (m & 0x80) != 0, ..c.regs }, ..c }),
        Err(e) => Err(e),
    }
}

/// Bitwise AND of the accumulator with memory, flags from the result.
pub open spec fn and_spec(c: CpuView, address: u16) -> Result<CpuView, NesError> {
    match cpu_read_spec(c.mem, address) {
        Ok(m) => {
            let res = c.regs.a & m;
            Ok(
                CpuView {
                    regs: CpuRegs { a: res, z: res == 0, n: (res & 0x80) != 0, ..c.regs },
                    ..c
                },
            )
        },
        Err(e) => Err(e),
    }
}

/// Bitwise OR of the accumulator with memory, flags from the result.
pub open spec fn ora_spec(c: CpuView, address: u16) -> Result<CpuView, NesError> {
    match cpu_read_spec(c.mem, address) {
        Ok(m) => {
            let res = c.regs.a | m;
            Ok(
                CpuView {
                    regs: CpuRegs { a: res, z: res == 0, n: (res & 0x80) != 0, ..c.regs },
                    ..c
                },
            )
        },
        Err(e) => Err(e),
    }
}

/// Bitwise exclusive OR of the accumulator with memory, flags from the result.
pub open spec fn eor_spec(c: CpuView, address: u16) -> Result<CpuView, NesError> {
    match cpu_read_spec(c.mem, address) {
        Ok(m) => {
            let res = c.regs.a ^ m;
            Ok(
                CpuView {
                    regs: CpuRegs { a: res, z: res == 0, n: (res & 0x80) != 0, ..c.regs },
                    ..c
                },
            )
        },
        Err(e) => Err(e),
    }
}

/// Adds memory and the carry into the accumulator; the carry flag takes
/// the unsigned overflow, the overflow flag the signed one, and the zero
/// and negative flags follow the result byte.
pub open spec fn adc_spec(c: CpuView, address: u16) -> Result<CpuView, NesError> {
    match cpu_read_spec(c.mem, address) {
        Ok(m) => {
            let sum = (c.regs.a as u16) + (m as u16) + (if c.regs.c { 1u16 } else { 0u16 });
            let res = (sum % 256) as u8;
            Ok(
                CpuView {
                    regs: CpuRegs {
                        a: res,
                        z: res == 0,
                        n: (res & 0x80) != 0,
                        c: sum > 0xff,
                        v: ((c.regs.a ^ res) & (m ^ res) & 0x80) != 0,
                        ..c.regs
                    },
                    ..c
                },
            )
        },
        Err(e) => Err(e),
    }
}

/// Subtracts memory and the borrow from the accumulator; the carry flag
/// reports that no borrow was needed, the overflow flag the signed
/// overflow, and the zero and negative flags follow the result byte.
pub open spec fn sbc_spec(c: CpuView, address: u16) -> Result<CpuView, NesError> {
    match cpu_read_spec(c.mem, address) {
        Ok(m) => {
            let borrow: u8 = if c.regs.c { 0u8 } else { 1u8 };
            let res = c.regs.a.wrapping_sub(m).wrapping_sub(borrow);
            Ok(
                CpuView {
                    regs: CpuRegs {
                        a: res,
                        z: res == 0,
                        n: (res & 0x80) != 0,
                        c: (c.regs.a as u16) >= (m as u16) + (borrow as u16),
                        v: ((c.regs.a ^ m) & (c.regs.a ^ res) & 0x80) != 0,
                        ..c.regs
                    },
                    ..c
                },
            )
        },
        Err(e) => Err(e),
    }
}

/// Compares the accumulator with memory: carry when no borrow, zero on equality, negative from the difference.
pub open spec fn cmp_spec(c: CpuView, address: u16) -> Result<CpuView, NesError> {
    match cpu_read_spec(c.mem, address) {
        Ok(m) => {
            let res = c.regs.a.wrapping_sub(m);
            Ok(
                CpuView {
                    regs: CpuRegs {
                        c: c.regs.a >= m,
                        z: c.regs.a == m,
                        n: (res & 0x80) != 0,
                        ..c.regs
                    },
                    ..c
                },
            )
        },
        Err(e) => Err(e),
    }
}

/// Compares index register X with memory: carry when no borrow, zero on equality, negative from the difference.
pub open spec fn cpx_spec(c: CpuView, address: u16) -> Result<CpuView, NesError> {
    match cpu_read_spec(c.mem, address) {
        Ok(m) => {
            let res = c.regs.x.wrapping_sub(m);
            Ok(
                CpuView {
                    regs: CpuRegs {
                        c: c.regs.x >= m,
                        z: c.regs.x == m,
                        n: (res & 0x80) != 0,
                        ..c.regs
                    },
                    ..c
                },
            )
        },
        Err(e) => Err(e),
    }
}

/// Compares index register Y with memory: carry when no borrow, zero on equality, negative from the difference.
pub open spec fn cpy_spec(c: CpuView, address: u16) -> Result<CpuView, NesError> {
    match cpu_read_spec(c.mem, address) {
        Ok(m) => {
            let res = c.regs.y.wrapping_sub(m);
            Ok(
                CpuView {
                    regs: CpuRegs {
                        c: c.regs.y >= m,
                        z: c.regs.y == m,
                        n: (res & 0x80) != 0,
                        ..c.regs
                    },
                    ..c
                },
            )
        },
        Err(e) => Err(e),
    }
}

/// Steps the byte at the address up by one, writing it back; zero and negative flags follow the result.
pub open spec fn inc_spec(c: CpuView, address: u16) -> Result<CpuView, NesError> {
    match cpu_read_spec(c.mem, address) {
        Ok(m) => {
            let res = m.wrapping_add(1);
            match cpu_write_spec(c.mem, res, address) {
                Ok(m2) => Ok(
                    CpuView {
                        mem: m2,
                        regs: CpuRegs { z: res == 0, n: (res & 0x80) != 0, ..c.regs },
                        ..c
                    },
                ),
                Err(e) => Err(e),
            }
        },
        Err(e) => Err(e),
    }
}

/// Steps the byte at the address down by one, writing it back; zero and negative flags follow the result.
pub open spec fn dec_spec(c: CpuView, address: u16) -> Result<CpuView, NesError> {
    match cpu_read_spec(c.mem, address) {
        Ok(m) => {
            let res = m.wrapping_sub(1);
            match cpu_write_spec(c.mem, res, address) {
                Ok(m2) => Ok(
                    CpuView {
                        mem: m2,
                        regs: CpuRegs { z: res == 0, n: (res & 0x80) != 0, ..c.regs },
                        ..c
                    },
                ),
                Err(e) => Err(e),
            }
        },
        Err(e) => Err(e),
    }
}

/// Steps index register X up by one; zero and negative flags follow it.
pub open spec fn inx_spec(c: CpuView) -> Result<CpuView, NesError> {
    let res = c.regs.x.wrapping_add(1);
    Ok(CpuView { regs: CpuRegs { x: res, z: res == 0, n: (res & 0x80) != 0, ..c.regs }, ..c })
}

/// Steps index register Y up by one; zero and negative flags follow it.
pub open spec fn iny_spec(c: CpuView) -> Result<CpuView, NesError> {
    let res = c.regs.y.wrapping_add(1);
    Ok(CpuView { regs: CpuRegs { y: res, z: res == 0, n: (res & 0x80) != 0, ..c.regs }, ..c })
}

/// Steps index register X down by one; zero and negative flags follow it.
pub open spec fn dex_spec(c: CpuView) -> Result<CpuView, NesError> {
    let res = c.regs.x.wrapping_sub(1);
    Ok(CpuView { regs: CpuRegs { x: res, z: res == 0, n: (res & 0x80) != 0, ..c.regs }, ..c })
}

/// Steps index register Y down by one; zero and negative flags follow it.
pub open spec fn dey_spec(c: CpuView) -> Result<CpuView, NesError> {
    let res = c.regs.y.wrapping_sub(1);
    Ok(CpuView { regs: CpuRegs { y: res, z: res == 0, n: (res & 0x80) != 0, ..c.regs }, ..c })
}

/// Copies the accumulator into index register X; zero and negative flags follow it.
pub open spec fn tax_spec(c: CpuView) -> Result<CpuView, NesError> {
    let res = c.regs.a;
    Ok(CpuView { regs: CpuRegs { x: res, z: res == 0, n: (res & 0x80) != 0, ..c.regs }, ..c })
}

/// Copies the accumulator into index register Y; zero and negative flags follow it.
pub open spec fn tay_spec(c: CpuView) -> Result<CpuView, NesError> {
    let res = c.regs.a;
    Ok(CpuView { regs: CpuRegs { y: res, z: res == 0, n: (res & 0x80) != 0, ..c.regs }, ..c })
}

/// Copies index register X into the accumulator; zero and negative flags follow it.
pub open spec fn txa_spec(c: CpuView) -> Result<CpuView, NesError> {
    let res = c.regs.x;
    Ok(CpuView { regs: CpuRegs { a: res, z: res == 0, n: (res & 0x80) != 0, ..c.regs }, ..c })
}

/// Copies index register Y into the accumulator; zero and negative flags follow it.
pub open spec fn tya_spec(c: CpuView) -> Result<CpuView, NesError> {
    let res = c.regs.y;
    Ok(CpuView { regs: CpuRegs { a: res, z: res == 0, n: (res & 0x80) != 0, ..c.regs }, ..c })
}

/// Copies the stack pointer into index register X, touching no flags.
pub open spec fn tsx_spec(c: CpuView) -> Result<CpuView, NesError> {
    Ok(CpuView { regs: CpuRegs { x: c.regs.sp, ..c.regs }, ..c })
}

/// Copies index register X into the stack pointer, touching no flags.
pub open spec fn txs_spec(c: CpuView) -> Result<CpuView, NesError> {
    Ok(CpuView { regs: CpuRegs { sp: c.regs.x, ..c.regs }, ..c })
}

/// Clears the carry flag.
pub open spec fn clc_spec(c: CpuView) -> Result<CpuView, NesError> {
    Ok(CpuView { regs: CpuRegs { c: false, ..c.regs }, ..c })
}

/// Clears the decimal flag.
pub open spec fn cld_spec(c: CpuView) -> Result<CpuView, NesError> {
    Ok(CpuView { regs: CpuRegs { d: false, ..c.regs }, ..c })
}

/// Clears the interrupt-disable flag.
pub open spec fn cli_spec(c: CpuView) -> Result<CpuView, NesError> {
    Ok(CpuView { regs: CpuRegs { i: false, ..c.regs }, ..c })
}

/// Clears the overflow flag.
pub open spec fn clv_spec(c: CpuView) -> Result<CpuView, NesError> {
    Ok(CpuView { regs: CpuRegs { v: false, ..c.regs }, ..c })
}

/// Sets the carry flag.
pub open spec fn sec_spec(c: CpuView) -> Result<CpuView, NesError> {
    Ok(CpuView { regs: CpuRegs { c: true, ..c.regs }, ..c })
}

/// Sets the decimal flag.
pub open spec fn sed_spec(c: CpuView) -> Result<CpuView, NesError> {
    Ok(CpuView { regs: CpuRegs { d: true, ..c.regs }, ..c })
}

/// Sets the interrupt-disable flag.
pub open spec fn sei_spec(c: CpuView) -> Result<CpuView, NesError> {
    Ok(CpuView { regs: CpuRegs { i: true, ..c.regs }, ..c })
}

/// Branches to the resolved target when the carry flag is clear.
pub open spec fn bcc_spec(c: CpuView, address: u16) -> Result<CpuView, NesError> {
    if !c.regs.c {
        Ok(CpuView { regs: CpuRegs { pc: address, ..c.regs }, ..c })
    } else {
        Ok(c)
    }
}

/// Branches to the resolved target when the carry flag is set.
pub open spec fn bcs_spec(c: CpuView, address: u16) -> Result<CpuView, NesError> {
    if c.regs.c {
        Ok(CpuView { regs: CpuRegs { pc: address, ..c.regs }, ..c })
    } else {
        Ok(c)
    }
}

/// Branches to the resolved target when the zero flag is set.
pub open spec fn beq_spec(c: CpuView, address: u16) -> Result<CpuView, NesError> {
    if c.regs.z {
        Ok(CpuView { regs: CpuRegs { pc: address, ..c.regs }, ..c })
    } else {
        Ok(c)
    }
}

/// Branches to the resolved target when the zero flag is clear.
pub open spec fn bne_spec(c: CpuView, address: u16) -> Result<CpuView, NesError> {
    if !c.regs.z {
        Ok(CpuView { regs: CpuRegs { pc: address, ..c.regs }, ..c })
    } else {
        Ok(c)
    }
}

/// Branches to the resolved target when the negative flag is set.
pub open spec fn bmi_spec(c: CpuView, address: u16) -> Result<CpuView, NesError> {
    if c.regs.n {
        Ok(CpuView { regs: CpuRegs { pc: address, ..c.regs }, ..c })
    } else {
        Ok(c)
    }
}

/// Branches to the resolved target when the negative flag is clear.
pub open spec fn bpl_spec(c: CpuView, address: u16) -> Result<CpuView, NesError> {
    if !c.regs.n {
        Ok(CpuView { regs: CpuRegs { pc: address, ..c.regs }, ..c })
    } else {
        Ok(c)
    }
}

/// Branches to the resolved target when the overflow flag is set.
pub open spec fn bvs_spec(c: CpuView, address: u16) -> Result<CpuView, NesError> {
    if c.regs.v {
        Ok(CpuView { regs: CpuRegs { pc: address, ..c.regs }, ..c })
    } else {
        Ok(c)
    }
}

/// Branches to the resolved target when the overflow flag is clear.
pub open spec fn bvc_spec(c: CpuView, address: u16) -> Result<CpuView, NesError> {
    if !c.regs.v {
        Ok(CpuView { regs: CpuRegs { pc: address, ..c.regs }, ..c })
    } else {
        Ok(c)
    }
}

/// Stores the accumulator at the resolved address.
pub open spec fn sta_spec(c: CpuView, address: u16) -> Result<CpuView, NesError> {
    match cpu_write_spec(c.mem, c.regs.a, address) {
        Ok(m2) => Ok(CpuView { mem: m2, ..c }),
        Err(e) => Err(e),
    }
}

/// Stores index register X at the resolved address.
pub open spec fn stx_spec(c: CpuView, address: u16) -> Result<CpuView, NesError> {
    match cpu_write_spec(c.mem, c.regs.x, address) {
        Ok(m2) => Ok(CpuView { mem: m2, ..c }),
        Err(e) => Err(e),
    }
}

/// Stores index register Y at the resolved address.
pub open spec fn sty_spec(c: CpuView, address: u16) -> Result<CpuView, NesError> {
    match cpu_write_spec(c.mem, c.regs.y, address) {
        Ok(m2) => Ok(CpuView { mem: m2, ..c }),
        Err(e) => Err(e),
    }
}

/// Shifts left by one, in the accumulator or in memory; the carry takes the bit shifted out, the zero and negative flags follow the result.
pub open spec fn asl_spec(c: CpuView, address: u16, mode: AddressingMode) -> Result<
    CpuView,
    NesError,
> {
    match mode {
        AddressingMode::Accumulator => {
            let m0 = c.regs.a;
            let res = m0 << 1;
            Ok(
                CpuView {
                    regs: CpuRegs {
                        a: res,
                        c: (m0 & 0x80) != 0,
                        z: res == 0,
                        n: (res & 0x80) != 0,
                        ..c.regs
                    },
                    ..c
                },
            )
        },
        _ => match cpu_read_spec(c.mem, address) {
            Ok(m0) => {
                let res = m0 << 1;
                match cpu_write_spec(c.mem, res, address) {
                    Ok(m2) => Ok(
                        CpuView {
                            mem: m2,
                            regs: CpuRegs {
                                c: (m0 & 0x80) != 0,
                                z: res == 0,
                                n: (res & 0x80) != 0,
                                ..c.regs
                            },
                            ..c
                        },
                    ),
                    Err(e) => Err(e),
                }
            },
            Err(e) => Err(e),
        },
    }
}

/// Shifts right by one, in the accumulator or in memory; the carry takes the bit shifted out, the zero and negative flags follow the result.
pub open spec fn lsr_spec(c: CpuView, address: u16, mode: AddressingMode) -> Result<
    CpuView,
    NesError,
> {
    match mode {
        AddressingMode::Accumulator => {
            let m0 = c.regs.a;
            let res = m0 >> 1;
            Ok(
                CpuView {
                    regs: CpuRegs {
                        a: res,
                        c: (m0 & 0x01) != 0,
                        z: res == 0,
                        n: (res & 0x80) != 0,
                        ..c.regs
                    },
                    ..c
                },
            )
        },
        _ => match cpu_read_spec(c.mem, address) {
            Ok(m0) => {
                let res = m0 >> 1;
                match cpu_write_spec(c.mem, res, address) {
                    Ok(m2) => Ok(
                        CpuView {
                            mem: m2,
                            regs: CpuRegs {
                                c: (m0 & 0x01) != 0,
                                z: res == 0,
                                n: (res & 0x80) != 0,
                                ..c.regs
                            },
                            ..c
                        },
                    ),
                    Err(e) => Err(e),
                }
            },
            Err(e) => Err(e),
        },
    }
}

/// Rotates left by one through the carry, in the accumulator or in memory; the carry takes the bit rotated out, the zero and negative flags follow the result.
pub open spec fn rol_spec(c: CpuView, address: u16, mode: AddressingMode) -> Result<
    CpuView,
    NesError,
> {
    match mode {
        AddressingMode::Accumulator => {
            let m0 = c.regs.a;
            let res = (m0 << 1) | (if c.regs.c { 1u8 } else { 0u8 });
            Ok(
                CpuView {
                    regs: CpuRegs {
                        a: res,
                        c: (m0 & 0x80) != 0,
                        z: res == 0,
                        n: (res & 0x80) != 0,
                        ..c.regs
                    },
                    ..c
                },
            )
        },
        _ => match cpu_read_spec(c.mem, address) {
            Ok(m0) => {
                let res = (m0 << 1) | (if c.regs.c { 1u8 } else { 0u8 });
                match cpu_write_spec(c.mem, res, address) {
                    Ok(m2) => Ok(
                        CpuView {
                            mem: m2,
                            regs: CpuRegs {
                                c: (m0 & 0x80) != 0,
                                z: res == 0,
                                n: (res & 0x80) != 0,
                                ..c.regs
                            },
                            ..c
                        },
                    ),
                    Err(e) => Err(e),
                }
            },
            Err(e) => Err(e),
        },
    }
}

/// Rotates right by one through the carry, in the accumulator or in memory; the carry takes the bit rotated out, the zero and negative flags follow the result.
pub open spec fn ror_spec(c: CpuView, address: u16, mode: AddressingMode) -> Result<
    CpuView,
    NesError,
> {
    match mode {
        AddressingMode::Accumulator => {
            let m0 = c.regs.a;
            let res = (m0 >> 1) | (if c.regs.c { 0x80u8 } else { 0u8 });
            Ok(
                CpuView {
                    regs: CpuRegs {
                        a: res,
                        c: (m0 & 0x01) != 0,
                        z: res == 0,
                        n: (res & 0x80) != 0,
                        ..c.regs
                    },
                    ..c
                },
            )
        },
        _ => match cpu_read_spec(c.mem, address) {
            Ok(m0) => {
                let res = (m0 >> 1) | (if c.regs.c { 0x80u8 } else { 0u8 });
                match cpu_write_spec(c.mem, res, address) {
                    Ok(m2) => Ok(
                        CpuView {
                            mem: m2,
                            regs: CpuRegs {
                                c: (m0 & 0x01) != 0,
                                z: res == 0,
                                n: (res & 0x80) != 0,
                                ..c.regs
                            },
                            ..c
                        },
                    ),
                    Err(e) => Err(e),
                }
            },
            Err(e) => Err(e),
        },
    }
}

/// Pushes the accumulator.
pub open spec fn pha_spec(c: CpuView) -> Result<CpuView, NesError> {
    Ok(push_spec(c, c.regs.a))
}

/// Pushes the packed status byte.
pub open spec fn php_spec(c: CpuView) -> Result<CpuView, NesError> {
    Ok(push_spec(c, flags_spec(c.regs)))
}

/// Pops into the accumulator; zero and negative flags follow it.
pub open spec fn pla_spec(c: CpuView) -> Result<CpuView, NesError> {
    let t = pop_spec(c);
    Ok(
        CpuView {
            regs: CpuRegs { a: t.1, z: t.1 == 0, n: (t.1 & 0x80) != 0, ..t.0.regs },
            ..t.0
        },
    )
}

/// Jumps to the resolved address.
pub open spec fn jmp_spec(c: CpuView, address: u16) -> Result<CpuView, NesError> {
    Ok(CpuView { regs: CpuRegs { pc: address, ..c.regs }, ..c })
}

/// Calls a subroutine: the address of the instruction's last byte goes
/// onto the stack, then control moves to the resolved address.
pub open spec fn jsr_spec(c: CpuView, address: u16) -> Result<CpuView, NesError> {
    let c1 = push16_spec(c, c.regs.pc.wrapping_sub(1));
    Ok(CpuView { regs: CpuRegs { pc: address, ..c1.regs }, ..c1 })
}

/// Returns from a subroutine: the popped address plus one becomes the
/// program counter.
pub open spec fn rts_spec(c: CpuView) -> Result<CpuView, NesError> {
    let t = pop16_spec(c);
    Ok(CpuView { regs: CpuRegs { pc: t.1.wrapping_add(1), ..t.0.regs }, ..t.0 })
}

/// Returns from an interrupt: the popped status byte restores the flags,
/// then the popped address becomes the program counter.
pub open spec fn rti_spec(c: CpuView) -> Result<CpuView, NesError> {
    let t1 = pop_spec(c);
    let c1 = CpuView { regs: set_flags_spec(t1.0.regs, t1.1), ..t1.0 };
    let t2 = pop16_spec(c1);
    Ok(CpuView { regs: CpuRegs { pc: t2.1, ..t2.0.regs }, ..t2.0 })
}

/// Does nothing.
pub open spec fn nop_spec(c: CpuView) -> Result<CpuView, NesError> {
    Ok(c)
}

/// What one operation does to the whole machine, dispatched on the
/// decoded operation.
pub open spec fn execute_spec(op: Op, c: CpuView, address: u16, mode: AddressingMode) -> Result<
    CpuView,
    NesError,
> {
    match op {
        Op::Adc => adc_spec(c, address),
        Op::Ahx => Err(NesError::UnimplementedInstruction { op: Op::Ahx }),
        Op::Alr => Err(NesError::UnimplementedInstruction { op: Op::Alr }),
        Op::Anc => Err(NesError::UnimplementedInstruction { op: Op::Anc }),
        Op::And => and_spec(c, address),
        Op::Arr => Err(NesError::UnimplementedInstruction { op: Op::Arr }),
        Op::Asl => asl_spec(c, address, mode),
        Op::Axs => Err(NesError::UnimplementedInstruction { op: Op::Axs }),
        Op::Bcc => bcc_spec(c, address),
        Op::Bcs => bcs_spec(c, address),
        Op::Beq => beq_spec(c, address),
        Op::Bit => Err(NesError::UnimplementedInstruction { op: Op::Bit }),
        Op::Bmi => bmi_spec(c, address),
        Op::Bne => bne_spec(c, address),
        Op::Bpl => bpl_spec(c, address),
        Op::Brk => Err(NesError::UnimplementedInstruction { op: Op::Brk }),
        Op::Bvc => bvc_spec(c, address),
        Op::Bvs => bvs_spec(c, address),
        Op::Clc => clc_spec(c),
        Op::Cld => cld_spec(c),
        Op::Cli => cli_spec(c),
        Op::Clv => clv_spec(c),
        Op::Cmp => cmp_spec(c, address),
        Op::Cpx => cpx_spec(c, address),
        Op::Cpy => cpy_spec(c, address),
        Op::Dcp => Err(NesError::UnimplementedInstruction { op: Op::Dcp }),
        Op::Dec => dec_spec(c, address),
        Op::Dex => dex_spec(c),
        Op::Dey => dey_spec(c),
        Op::Eor => eor_spec(c, address),
        Op::Inc => inc_spec(c, address),
        Op::Inx => inx_spec(c),
        Op::Iny => iny_spec(c),
        Op::Isc => Err(NesError::UnimplementedInstruction { op: Op::Isc }),
        Op::Jmp => jmp_spec(c, address),
        Op::Jsr => jsr_spec(c, address),
        Op::Kil => Err(NesError::UnimplementedInstruction { op: Op::Kil }),
        Op::Las => Err(NesError::UnimplementedInstruction { op: Op::Las }),
        Op::Lax => Err(NesError::UnimplementedInstruction { op: Op::Lax }),
        Op::Lda => lda_spec(c, address),
        Op::Ldx => ldx_spec(c, address),
        Op::Ldy => ldy_spec(c, address),
        Op::Lsr => lsr_spec(c, address, mode),
        Op::Nop => nop_spec(c),
        Op::Ora => ora_spec(c, address),
        Op::Pha => pha_spec(c),
        Op::Php => php_spec(c),
        Op::Pla => pla_spec(c),
        Op::Plp => Err(NesError::UnimplementedInstruction { op: Op::Plp }),
        Op::Rla => Err(NesError::UnimplementedInstruction { op: Op::Rla }),
        Op::Rol => rol_spec(c, address, mode),
        Op::Ror => ror_spec(c, address, mode),
        Op::Rra => Err(NesError::UnimplementedInstruction { op: Op::Rra }),
        Op::Rti => rti_spec(c),
        Op::Rts => rts_spec(c),
        Op::Sax => Err(NesError::UnimplementedInstruction { op: Op::Sax }),
        Op::Sbc => sbc_spec(c, address),
        Op::Sec => sec_spec(c),
        Op::Sed => sed_spec(c),
        Op::Sei => sei_spec(c),
        Op::Shx => Err(NesError::UnimplementedInstruction { op: Op::Shx }),
        Op::Shy => Err(NesError::UnimplementedInstruction { op: Op::Shy }),
        Op::Slo => Err(NesError::UnimplementedInstruction { op: Op::Slo }),
        Op::Sre => Err(NesError::UnimplementedInstruction { op: Op::Sre }),
        Op::Sta => sta_spec(c, address),
        Op::Stx => stx_spec(c, address),
        Op::Sty => sty_spec(c, address),
        Op::Tas => Err(NesError::UnimplementedInstruction { op: Op::Tas }),
        Op::Tax => tax_spec(c),
        Op::Tay => tay_spec(c),
        Op::Tsx => tsx_spec(c),
        Op::Txa => txa_spec(c),
        Op::Txs => txs_spec(c),
        Op::Tya => tya_spec(c),
        Op::Xaa => Err(NesError::UnimplementedInstruction { op: Op::Xaa }),
    }
}

/// One whole step of the instruction engine: the interrupt service if one
/// is pending, then fetch, decode, operand resolution, the cycle count
/// (base cost plus the page-cross penalty, plus seven for the interrupt
/// sequence), the program counter stepping over the instruction, and the
/// operation itself. The pair carries the machine as the step leaves it,
/// beside the elapsed cycles or the error.
pub open spec fn step_spec(c: CpuView, pending: Interrupt) -> (CpuView, Result<u8, NesError>) {
    if pending is IntIRQ {
        (c, Err(NesError::UnsupportedInterrupt))
    } else {
        let c0 = if pending is IntNMI { nmi_spec(c) } else { c };
        let extra: u8 = if pending is IntNMI { 7 } else { 0 };
        match cpu_read_spec(c0.mem, c0.regs.pc) {
            Err(e) => (c0, Err(e)),
            Ok(opcode) => {
                let instr = instr_spec(opcode);
                match resolve_spec(c0, instr.addr_mode) {
                    Err(e) => (c0, Err(e)),
                    Ok(t) => {
                        let total = (instr.cycles + (if t.1 { instr.page_delay } else { 0u8 })
                            + extra) as u8;
                        let c1 = CpuView {
                            regs: CpuRegs {
                                pc: c0.regs.pc.wrapping_add(instr.size as u16),
                                ..c0.regs
                            },
                            cycles: c0.cycles.wrapping_add(total as u64),
                            this_cycles: total,
                            ..c0
                        };
                        match execute_spec(instr.op, c1, t.0, instr.addr_mode) {
                            Ok(c2) => (c2, Ok(total)),
                            Err(e) => (c1, Err(e)),
                        }
                    },
                }
            },
        }
    }
}

impl CPU {
    /// Loads the accumulator, setting the zero and negative flags from the loaded byte.
    pub fn lda(&mut self, address: u16) -> (r: Result<(), NesError>)
        requires
            old(self)@.wf(),
        ensures
            final(self)@.wf(),
            evolves_to(old(self)@, final(self)@, r, lda_spec(old(self)@, address)),
    {
        let m = match self.memory.read(address) {
            Ok(v) => v,
            Err(e) => return Err(e),
        };
        self.regs = CpuRegs { a: m, z: m == 0, n: (m & 0x80) != 0, ..self.regs };
        Ok(())
    }

    /// Loads index register X, setting the zero and negative flags from the loaded byte.
    pub fn ldx(&mut self, address: u16) -> (r: Result<(), NesError>)
        requires
            old(self)@.wf(),
        ensures
            final(self)@.wf(),
            evolves_to(old(self)@, final(self)@, r, ldx_spec(old(self)@, address)),
    {
        let m = match self.memory.read(address) {
            Ok(v) => v,
            Err(e) => return Err(e),
        };
        self.regs = CpuRegs { x: m, z: m == 0, n: (m & 0x80) != 0, ..self.regs };
        Ok(())
    }

    /// Loads index register Y, setting the zero and negative flags from the loaded byte.
    pub fn ldy(&mut self, address: u16) -> (r: Result<(), NesError>)
        requires
            old(self)@.wf(),
        ensures
            final(self)@.wf(),
            evolves_to(old(self)@, final(self)@, r, ldy_spec(old(self)@, address)),
    {
        let m = match self.memory.read(address) {
            Ok(v) => v,
            Err(e) => return Err(e),
        };
        self.regs = CpuRegs { y: m, z: m == 0, n: (m & 0x80) != 0, ..self.regs };
        Ok(())
    }

    /// Bitwise AND of the accumulator with memory, flags from the result.
    pub fn and(&mut self, address: u16) -> (r: Result<(), NesError>)
        requires
            old(self)@.wf(),
        ensures
            final(self)@.wf(),
            evolves_to(old(self)@, final(self)@, r, and_spec(old(self)@, address)),
    {
        let m = match self.memory.read(address) {
            Ok(v) => v,
            Err(e) => return Err(e),
        };
        let res = self.regs.a & m;
        self.regs = CpuRegs { a: res, z: res == 0, n: (res & 0x80) != 0, ..self.regs };
        Ok(())
    }

    /// Bitwise OR of the accumulator with memory, flags from the result.
    pub fn ora(&mut self, address: u16) -> (r: Result<(), NesError>)
        requires
            old(self)@.wf(),
        ensures
            final(self)@.wf(),
            evolves_to(old(self)@, final(self)@, r, ora_spec(old(self)@, address)),
    {
        let m = match self.memory.read(address) {
            Ok(v) => v,
            Err(e) => return Err(e),
        };
        let res = self.regs.a | m;
        self.regs = CpuRegs { a: res, z: res == 0, n: (res & 0x80) != 0, ..self.regs };
        Ok(())
    }

    /// Bitwise exclusive OR of the accumulator with memory, flags from the result.
    pub fn eor(&mut self, address: u16) -> (r: Result<(), NesError>)
        requires
            old(self)@.wf(),
        ensures
            final(self)@.wf(),
            evolves_to(old(self)@, final(self)@, r, eor_spec(old(self)@, address)),
    {
        let m = match self.memory.read(address) {
            Ok(v) => v,
            Err(e) => return Err(e),
        };
        let res = self.regs.a ^ m;
        self.regs = CpuRegs { a: res, z: res == 0, n: (res & 0x80) != 0, ..self.regs };
        Ok(())
    }

    /// Adds memory and the carry into the accumulator; the carry flag takes
    /// the unsigned overflow, the overflow flag the signed one, and the
    /// zero and negative flags follow the result byte.
    pub fn adc(&mut self, address: u16) -> (r: Result<(), NesError>)
        requires
            old(self)@.wf(),
        ensures
            final(self)@.wf(),
            evolves_to(old(self)@, final(self)@, r, adc_spec(old(self)@, address)),
    {
        let m = match self.memory.read(address) {
            Ok(v) => v,
            Err(e) => return Err(e),
        };
        let sum: u16 = (self.regs.a as u16) + (m as u16) + (if self.regs.c { 1u16 } else { 0u16 });
        let res = (sum % 256) as u8;
        self.regs = CpuRegs {
            a: res,
            z: res == 0,
            n: (res & 0x80) != 0,
            c: sum > 0xff,
            v: ((self.regs.a ^ res) & (m ^ res) & 0x80) != 0,
            ..self.regs
        };
        Ok(())
    }

    /// Subtracts memory and the borrow from the accumulator; the carry
    /// flag reports that no borrow was needed, the overflow flag the
    /// signed overflow, and the zero and negative flags follow the result
    /// byte.
    pub fn sbc(&mut self, address: u16) -> (r: Result<(), NesError>)
        requires
            old(self)@.wf(),
        ensures
            final(self)@.wf(),
            evolves_to(old(self)@, final(self)@, r, sbc_spec(old(self)@, address)),
    {
        let m = match self.memory.read(address) {
            Ok(v) => v,
            Err(e) => return Err(e),
        };
        let borrow: u8 = if self.regs.c { 0u8 } else { 1u8 };
        let res = self.regs.a.wrapping_sub(m).wrapping_sub(borrow);
        self.regs = CpuRegs {
            a: res,
            z: res == 0,
            n: (res & 0x80) != 0,
            c: (self.regs.a as u16) >= (m as u16) + (borrow as u16),
            v: ((self.regs.a ^ m) & (self.regs.a ^ res) & 0x80) != 0,
            ..self.regs
        };
        Ok(())
    }

    /// Compares the accumulator with memory: carry when no borrow, zero on equality, negative from the difference.
    pub fn cmp(&mut self, address: u16) -> (r: Result<(), NesError>)
        requires
            old(self)@.wf(),
        ensures
            final(self)@.wf(),
            evolves_to(old(self)@, final(self)@, r, cmp_spec(old(self)@, address)),
    {
        let m = match self.memory.read(address) {
            Ok(v) => v,
            Err(e) => return Err(e),
        };
        let res = self.regs.a.wrapping_sub(m);
        self.regs = CpuRegs {
            c: self.regs.a >= m,
            z: self.regs.a == m,
            n: (res & 0x80) != 0,
            ..self.regs
        };
        Ok(())
    }

    /// Compares index register X with memory: carry when no borrow, zero on equality, negative from the difference.
    pub fn cpx(&mut self, address: u16) -> (r: Result<(), NesError>)
        requires
            old(self)@.wf(),
        ensures
            final(self)@.wf(),
            evolves_to(old(self)@, final(self)@, r, cpx_spec(old(self)@, address)),
    {
        let m = match self.memory.read(address) {
            Ok(v) => v,
            Err(e) => return Err(e),
        };
        let res = self.regs.x.wrapping_sub(m);
        self.regs = CpuRegs {
            c: self.regs.x >= m,
            z: self.regs.x == m,
            n: (res & 0x80) != 0,
            ..self.regs
        };
        Ok(())
    }

    /// Compares index register Y with memory: carry when no borrow, zero on equality, negative from the difference.
    pub fn cpy(&mut self, address: u16) -> (r: Result<(), NesError>)
        requires
            old(self)@.wf(),
        ensures
            final(self)@.wf(),
            evolves_to(old(self)@, final(self)@, r, cpy_spec(old(self)@, address)),
    {
        let m = match self.memory.read(address) {
            Ok(v) => v,
            Err(e) => return Err(e),
        };
        let res = self.regs.y.wrapping_sub(m);
        self.regs = CpuRegs {
            c: self.regs.y >= m,
            z: self.regs.y == m,
            n: (res & 0x80) != 0,
            ..self.regs
        };
        Ok(())
    }

    /// Steps the byte at the address up by one, writing it back; zero and negative flags follow the result.
    pub fn inc(&mut self, address: u16) -> (r: Result<(), NesError>)
        requires
            old(self)@.wf(),
        ensures
            final(self)@.wf(),
            evolves_to(old(self)@, final(self)@, r, inc_spec(old(self)@, address)),
    {
        let m = match self.memory.read(address) {
            Ok(v) => v,
            Err(e) => return Err(e),
        };
        let res = m.wrapping_add(1);
        match self.memory.write(res, address) {
            Ok(_) => {
                self.regs = CpuRegs { z: res == 0, n: (res & 0x80) != 0, ..self.regs };
                Ok(())
            },
            Err(e) => Err(e),
        }
    }

    /// Steps the byte at the address down by one, writing it back; zero and negative flags follow the result.
    pub fn dec(&mut self, address: u16) -> (r: Result<(), NesError>)
        requires
            old(self)@.wf(),
        ensures
            final(self)@.wf(),
            evolves_to(old(self)@, final(self)@, r, dec_spec(old(self)@, address)),
    {
        let m = match self.memory.read(address) {
            Ok(v) => v,
            Err(e) => return Err(e),
        };
        let res = m.wrapping_sub(1);
        match self.memory.write(res, address) {
            Ok(_) => {
                self.regs = CpuRegs { z: res == 0, n: (res & 0x80) != 0, ..self.regs };
                Ok(())
            },
            Err(e) => Err(e),
        }
    }

    /// Steps index register X up by one; zero and negative flags follow it.
    pub fn inx(&mut self) -> (r: Result<(), NesError>)
        requires
            old(self)@.wf(),
        ensures
            final(self)@.wf(),
            evolves_to(old(self)@, final(self)@, r, inx_spec(old(self)@)),
    {
        let res = self.regs.x.wrapping_add(1);
        self.regs = CpuRegs { x: res, z: res == 0, n: (res & 0x80) != 0, ..self.regs };
        Ok(())
    }

    /// Steps index register Y up by one; zero and negative flags follow it.
    pub fn iny(&mut self) -> (r: Result<(), NesError>)
        requires
            old(self)@.wf(),
        ensures
            final(self)@.wf(),
            evolves_to(old(self)@, final(self)@, r, iny_spec(old(self)@)),
    {
        let res = self.regs.y.wrapping_add(1);
        self.regs = CpuRegs { y: res, z: res == 0, n: (res & 0x80) != 0, ..self.regs };
        Ok(())
    }

    /// Steps index register X down by one; zero and negative flags follow it.
    pub fn dex(&mut self) -> (r: Result<(), NesError>)
        requires
            old(self)@.wf(),
        ensures
            final(self)@.wf(),
            evolves_to(old(self)@, final(self)@, r, dex_spec(old(self)@)),
    {
        let res = self.regs.x.wrapping_sub(1);
        self.regs = CpuRegs { x: res, z: res == 0, n: (res & 0x80) != 0, ..self.regs };
        Ok(())
    }

    /// Steps index register Y down by one; zero and negative flags follow it.
    pub fn dey(&mut self) -> (r: Result<(), NesError>)
        requires
            old(self)@.wf(),
        ensures
            final(self)@.wf(),
            evolves_to(old(self)@, final(self)@, r, dey_spec(old(self)@)),
    {
        let res = self.regs.y.wrapping_sub(1);
        self.regs = CpuRegs { y: res, z: res == 0, n: (res & 0x80) != 0, ..self.regs };
        Ok(())
    }

    /// Copies the accumulator into index register X; zero and negative flags follow it.
    pub fn tax(&mut self) -> (r: Result<(), NesError>)
        requires
            old(self)@.wf(),
        ensures
            final(self)@.wf(),
            evolves_to(old(self)@, final(self)@, r, tax_spec(old(self)@)),
    {
        let res = self.regs.a;
        self.regs = CpuRegs { x: res, z: res == 0, n: (res & 0x80) != 0, ..self.regs };
        Ok(())
    }

    /// Copies the accumulator into index register Y; zero and negative flags follow it.
    pub fn tay(&mut self) -> (r: Result<(), NesError>)
        requires
            old(self)@.wf(),
        ensures
            final(self)@.wf(),
            evolves_to(old(self)@, final(self)@, r, tay_spec(old(self)@)),
    {
        let res = self.regs.a;
        self.regs = CpuRegs { y: res, z: res == 0, n: (res & 0x80) != 0, ..self.regs };
        Ok(())
    }

    /// Copies index register X into the accumulator; zero and negative flags follow it.
    pub fn txa(&mut self) -> (r: Result<(), NesError>)
        requires
            old(self)@.wf(),
        ensures
            final(self)@.wf(),
            evolves_to(old(self)@, final(self)@, r, txa_spec(old(self)@)),
    {
        let res = self.regs.x;
        self.regs = CpuRegs { a: res, z: res == 0, n: (res & 0x80) != 0, ..self.regs };
        Ok(())
    }

    /// Copies index register Y into the accumulator; zero and negative flags follow it.
    pub fn tya(&mut self) -> (r: Result<(), NesError>)
        requires
            old(self)@.wf(),
        ensures
            final(self)@.wf(),
            evolves_to(old(self)@, final(self)@, r, tya_spec(old(self)@)),
    {
        let res = self.regs.y;
        self.regs = CpuRegs { a: res, z: res == 0, n: (res & 0x80) != 0, ..self.regs };
        Ok(())
    }

    /// Copies the stack pointer into index register X, touching no flags.
    pub fn tsx(&mut self) -> (r: Result<(), NesError>)
        requires
            old(self)@.wf(),
        ensures
            final(self)@.wf(),
            evolves_to(old(self)@, final(self)@, r, tsx_spec(old(self)@)),
    {
        self.regs = CpuRegs { x: self.regs.sp, ..self.regs };
        Ok(())
    }

    /// Copies index register X into the stack pointer, touching no flags.
    pub fn txs(&mut self) -> (r: Result<(), NesError>)
        requires
            old(self)@.wf(),
        ensures
            final(self)@.wf(),
            evolves_to(old(self)@, final(self)@, r, txs_spec(old(self)@)),
    {
        self.regs = CpuRegs { sp: self.regs.x, ..self.regs };
        Ok(())
    }

    /// Clears the carry flag.
    pub fn clc(&mut self) -> (r: Result<(), NesError>)
        requires
            old(self)@.wf(),
        ensures
            final(self)@.wf(),
            evolves_to(old(self)@, final(self)@, r, clc_spec(old(self)@)),
    {
        self.regs = CpuRegs { c: false, ..self.regs };
        Ok(())
    }

    /// Clears the decimal flag.
    pub fn cld(&mut self) -> (r: Result<(), NesError>)
        requires
            old(self)@.wf(),
        ensures
            final(self)@.wf(),
            evolves_to(old(self)@, final(self)@, r, cld_spec(old(self)@)),
    {
        self.regs = CpuRegs { d: false, ..self.regs };
        Ok(())
    }

    /// Clears the interrupt-disable flag.
    pub fn cli(&mut self) -> (r: Result<(), NesError>)
        requires
            old(self)@.wf(),
        ensures
            final(self)@.wf(),
            evolves_to(old(self)@, final(self)@, r, cli_spec(old(self)@)),
    {
        self.regs = CpuRegs { i: false, ..self.regs };
        Ok(())
    }

    /// Clears the overflow flag.
    pub fn clv(&mut self) -> (r: Result<(), NesError>)
        requires
            old(self)@.wf(),
        ensures
            final(self)@.wf(),
            evolves_to(old(self)@, final(self)@, r, clv_spec(old(self)@)),
    {
        self.regs = CpuRegs { v: false, ..self.regs };
        Ok(())
    }

    /// Sets the carry flag.
    pub fn sec(&mut self) -> (r: Result<(), NesError>)
        requires
            old(self)@.wf(),
        ensures
            final(self)@.wf(),
            evolves_to(old(self)@, final(self)@, r, sec_spec(old(self)@)),
    {
        self.regs = CpuRegs { c: true, ..self.regs };
        Ok(())
    }

    /// Sets the decimal flag.
    pub fn sed(&mut self) -> (r: Result<(), NesError>)
        requires
            old(self)@.wf(),
        ensures
            final(self)@.wf(),
            evolves_to(old(self)@, final(self)@, r, sed_spec(old(self)@)),
    {
        self.regs = CpuRegs { d: true, ..self.regs };
        Ok(())
    }

    /// Sets the interrupt-disable flag.
    pub fn sei(&mut self) -> (r: Result<(), NesError>)
        requires
            old(self)@.wf(),
        ensures
            final(self)@.wf(),
            evolves_to(old(self)@, final(self)@, r, sei_spec(old(self)@)),
    {
        self.regs = CpuRegs { i: true, ..self.regs };
        Ok(())
    }

    /// Branches to the resolved target when the carry flag is clear.
    pub fn bcc(&mut self, address: u16) -> (r: Result<(), NesError>)
        requires
            old(self)@.wf(),
        ensures
            final(self)@.wf(),
            evolves_to(old(self)@, final(self)@, r, bcc_spec(old(self)@, address)),
    {
        if !self.regs.c {
            self.regs = CpuRegs { pc: address, ..self.regs };
        }
        Ok(())
    }

    /// Branches to the resolved target when the carry flag is set.
    pub fn bcs(&mut self, address: u16) -> (r: Result<(), NesError>)
        requires
            old(self)@.wf(),
        ensures
            final(self)@.wf(),
            evolves_to(old(self)@, final(self)@, r, bcs_spec(old(self)@, address)),
    {
        if self.regs.c {
            self.regs = CpuRegs { pc: address, ..self.regs };
        }
        Ok(())
    }

    /// Branches to the resolved target when the zero flag is set.
    pub fn beq(&mut self, address: u16) -> (r: Result<(), NesError>)
        requires
            old(self)@.wf(),
        ensures
            final(self)@.wf(),
            evolves_to(old(self)@, final(self)@, r, beq_spec(old(self)@, address)),
    {
        if self.regs.z {
            self.regs = CpuRegs { pc: address, ..self.regs };
        }
        Ok(())
    }

    /// Branches to the resolved target when the zero flag is clear.
    pub fn bne(&mut self, address: u16) -> (r: Result<(), NesError>)
        requires
            old(self)@.wf(),
        ensures
            final(self)@.wf(),
            evolves_to(old(self)@, final(self)@, r, bne_spec(old(self)@, address)),
    {
        if !self.regs.z {
            self.regs = CpuRegs { pc: address, ..self.regs };
        }
        Ok(())
    }

    /// Branches to the resolved target when the negative flag is set.
    pub fn bmi(&mut self, address: u16) -> (r: Result<(), NesError>)
        requires
            old(self)@.wf(),
        ensures
            final(self)@.wf(),
            evolves_to(old(self)@, final(self)@, r, bmi_spec(old(self)@, address)),
    {
        if self.regs.n {
            self.regs = CpuRegs { pc: address, ..self.regs };
        }
        Ok(())
    }

    /// Branches to the resolved target when the negative flag is clear.
    pub fn bpl(&mut self, address: u16) -> (r: Result<(), NesError>)
        requires
            old(self)@.wf(),
        ensures
            final(self)@.wf(),
            evolves_to(old(self)@, final(self)@, r, bpl_spec(old(self)@, address)),
    {
        if !self.regs.n {
            self.regs = CpuRegs { pc: address, ..self.regs };
        }
        Ok(())
    }

    /// Branches to the resolved target when the overflow flag is set.
    pub fn bvs(&mut self, address: u16) -> (r: Result<(), NesError>)
        requires
            old(self)@.wf(),
        ensures
            final(self)@.wf(),
            evolves_to(old(self)@, final(self)@, r, bvs_spec(old(self)@, address)),
    {
        if self.regs.v {
            self.regs = CpuRegs { pc: address, ..self.regs };
        }
        Ok(())
    }

    /// Branches to the resolved target when the overflow flag is clear.
    pub fn bvc(&mut self, address: u16) -> (r: Result<(), NesError>)
        requires
            old(self)@.wf(),
        ensures
            final(self)@.wf(),
            evolves_to(old(self)@, final(self)@, r, bvc_spec(old(self)@, address)),
    {
        if !self.regs.v {
            self.regs = CpuRegs { pc: address, ..self.regs };
        }
        Ok(())
    }

    /// Stores the accumulator at the resolved address.
    pub fn sta(&mut self, address: u16) -> (r: Result<(), NesError>)
        requires
            old(self)@.wf(),
        ensures
            final(self)@.wf(),
            evolves_to(old(self)@, final(self)@, r, sta_spec(old(self)@, address)),
    {
        let data = self.regs.a;
        match self.memory.write(data, address) {
            Ok(_) => Ok(()),
            Err(e) => Err(e),
        }
    }

    /// Stores index register X at the resolved address.
    pub fn stx(&mut self, address: u16) -> (r: Result<(), NesError>)
        requires
            old(self)@.wf(),
        ensures
            final(self)@.wf(),
            evolves_to(old(self)@, final(self)@, r, stx_spec(old(self)@, address)),
    {
        let data = self.regs.x;
        match self.memory.write(data, address) {
            Ok(_) => Ok(()),
            Err(e) => Err(e),
        }
    }

    /// Stores index register Y at the resolved address.
    pub fn sty(&mut self, address: u16) -> (r: Result<(), NesError>)
        requires
            old(self)@.wf(),
        ensures
            final(self)@.wf(),
            evolves_to(old(self)@, final(self)@, r, sty_spec(old(self)@, address)),
    {
        let data = self.regs.y;
        match self.memory.write(data, address) {
            Ok(_) => Ok(()),
            Err(e) => Err(e),
        }
    }

    /// Shifts left by one, in the accumulator or in memory; the carry takes the bit shifted out, the zero and negative flags follow the result.
    pub fn asl(&mut self, address: u16, mode: AddressingMode) -> (r: Result<(), NesError>)
        requires
            old(self)@.wf(),
        ensures
            final(self)@.wf(),
            evolves_to(old(self)@, final(self)@, r, asl_spec(old(self)@, address, mode)),
    {
        match mode {
            AddressingMode::Accumulator => {
                let m0 = self.regs.a;
                let res = m0 << 1;
                self.regs = CpuRegs {
                    a: res,
                    c: (m0 & 0x80) != 0,
                    z: res == 0,
                    n: (res & 0x80) != 0,
                    ..self.regs
                };
                Ok(())
            },
            _ => {
                let m0 = match self.memory.read(address) {
                    Ok(v) => v,
                    Err(e) => return Err(e),
                };
                let res = m0 << 1;
                match self.memory.write(res, address) {
                    Ok(_) => {
                        self.regs = CpuRegs {
                            c: (m0 & 0x80) != 0,
                            z: res == 0,
                            n: (res & 0x80) != 0,
                            ..self.regs
                        };
                        Ok(())
                    },
                    Err(e) => Err(e),
                }
            },
        }
    }

    /// Shifts right by one, in the accumulator or in memory; the carry takes the bit shifted out, the zero and negative flags follow the result.
    pub fn lsr(&mut self, address: u16, mode: AddressingMode) -> (r: Result<(), NesError>)
        requires
            old(self)@.wf(),
        ensures
            final(self)@.wf(),
            evolves_to(old(self)@, final(self)@, r, lsr_spec(old(self)@, address, mode)),
    {
        match mode {
            AddressingMode::Accumulator => {
                let m0 = self.regs.a;
                let res = m0 >> 1;
                self.regs = CpuRegs {
                    a: res,
                    c: (m0 & 0x01) != 0,
                    z: res == 0,
                    n: (res & 0x80) != 0,
                    ..self.regs
                };
                Ok(())
            },
            _ => {
                let m0 = match self.memory.read(address) {
                    Ok(v) => v,
                    Err(e) => return Err(e),
                };
                let res = m0 >> 1;
                match self.memory.write(res, address) {
                    Ok(_) => {
                        self.regs = CpuRegs {
                            c: (m0 & 0x01) != 0,
                            z: res == 0,
                            n: (res & 0x80) != 0,
                            ..self.regs
                        };
                        Ok(())
                    },
                    Err(e) => Err(e),
                }
            },
        }
    }

    /// Rotates left by one through the carry, in the accumulator or in memory; the carry takes the bit rotated out, the zero and negative flags follow the result.
    pub fn rol(&mut self, address: u16, mode: AddressingMode) -> (r: Result<(), NesError>)
        requires
            old(self)@.wf(),
        ensures
            final(self)@.wf(),
            evolves_to(old(self)@, final(self)@, r, rol_spec(old(self)@, address, mode)),
    {
        match mode {
            AddressingMode::Accumulator => {
                let m0 = self.regs.a;
                let res = (m0 << 1) | (if self.regs.c { 1u8 } else { 0u8 });
                self.regs = CpuRegs {
                    a: res,
                    c: (m0 & 0x80) != 0,
                    z: res == 0,
                    n: (res & 0x80) != 0,
                    ..self.regs
                };
                Ok(())
            },
            _ => {
                let m0 = match self.memory.read(address) {
                    Ok(v) => v,
                    Err(e) => return Err(e),
                };
                let res = (m0 << 1) | (if self.regs.c { 1u8 } else { 0u8 });
                match self.memory.write(res, address) {
                    Ok(_) => {
                        self.regs = CpuRegs {
                            c: (m0 & 0x80) != 0,
                            z: res == 0,
                            n: (res & 0x80) != 0,
                            ..self.regs
                        };
                        Ok(())
                    },
                    Err(e) => Err(e),
                }
            },
        }
    }

    /// Rotates right by one through the carry, in the accumulator or in memory; the carry takes the bit rotated out, the zero and negative flags follow the result.
    pub fn ror(&mut self, address: u16, mode: AddressingMode) -> (r: Result<(), NesError>)
        requires
            old(self)@.wf(),
        ensures
            final(self)@.wf(),
            evolves_to(old(self)@, final(self)@, r, ror_spec(old(self)@, address, mode)),
    {
        match mode {
            AddressingMode::Accumulator => {
                let m0 = self.regs.a;
                let res = (m0 >> 1) | (if self.regs.c { 0x80u8 } else { 0u8 });
                self.regs = CpuRegs {
                    a: res,
                    c: (m0 & 0x01) != 0,
                    z: res == 0,
                    n: (res & 0x80) != 0,
                    ..self.regs
                };
                Ok(())
            },
            _ => {
                let m0 = match self.memory.read(address) {
                    Ok(v) => v,
                    Err(e) => return Err(e),
                };
                let res = (m0 >> 1) | (if self.regs.c { 0x80u8 } else { 0u8 });
                match self.memory.write(res, address) {
                    Ok(_) => {
                        self.regs = CpuRegs {
                            c: (m0 & 0x01) != 0,
                            z: res == 0,
                            n: (res & 0x80) != 0,
                            ..self.regs
                        };
                        Ok(())
                    },
                    Err(e) => Err(e),
                }
            },
        }
    }

    /// Pushes the accumulator.
    pub fn pha(&mut self) -> (r: Result<(), NesError>)
        requires
            old(self)@.wf(),
        ensures
            final(self)@.wf(),
            evolves_to(old(self)@, final(self)@, r, pha_spec(old(self)@)),
    {
        let a = self.regs.a;
        self.push(a);
        Ok(())
    }

    /// Pushes the packed status byte.
    pub fn php(&mut self) -> (r: Result<(), NesError>)
        requires
            old(self)@.wf(),
        ensures
            final(self)@.wf(),
            evolves_to(old(self)@, final(self)@, r, php_spec(old(self)@)),
    {
        let f = self.flags();
        self.push(f);
        Ok(())
    }

    /// Pops into the accumulator; zero and negative flags follow it.
    pub fn pla(&mut self) -> (r: Result<(), NesError>)
        requires
            old(self)@.wf(),
        ensures
            final(self)@.wf(),
            evolves_to(old(self)@, final(self)@, r, pla_spec(old(self)@)),
    {
        let v = self.pop();
        self.regs = CpuRegs { a: v, z: v == 0, n: (v & 0x80) != 0, ..self.regs };
        Ok(())
    }

    /// Jumps to the resolved address.
    pub fn jmp(&mut self, address: u16) -> (r: Result<(), NesError>)
        requires
            old(self)@.wf(),
        ensures
            final(self)@.wf(),
            evolves_to(old(self)@, final(self)@, r, jmp_spec(old(self)@, address)),
    {
        self.regs = CpuRegs { pc: address, ..self.regs };
        Ok(())
    }

    /// Calls a subroutine: the address of the instruction's last byte
    /// goes onto the stack, then control moves to the resolved address.
    pub fn jsr(&mut self, address: u16) -> (r: Result<(), NesError>)
        requires
            old(self)@.wf(),
        ensures
            final(self)@.wf(),
            evolves_to(old(self)@, final(self)@, r, jsr_spec(old(self)@, address)),
    {
        let ret = self.regs.pc.wrapping_sub(1);
        self.push16(ret);
        self.regs = CpuRegs { pc: address, ..self.regs };
        Ok(())
    }

    /// Returns from a subroutine: the popped address plus one becomes the
    /// program counter.
    pub fn rts(&mut self) -> (r: Result<(), NesError>)
        requires
            old(self)@.wf(),
        ensures
            final(self)@.wf(),
            evolves_to(old(self)@, final(self)@, r, rts_spec(old(self)@)),
    {
        let w = self.pop16();
        self.regs = CpuRegs { pc: w.wrapping_add(1), ..self.regs };
        Ok(())
    }

    /// Returns from an interrupt: the popped status byte restores the
    /// flags, then the popped address becomes the program counter.
    pub fn rti(&mut self) -> (r: Result<(), NesError>)
        requires
            old(self)@.wf(),
        ensures
            final(self)@.wf(),
            evolves_to(old(self)@, final(self)@, r, rti_spec(old(self)@)),
    {
        let f = self.pop();
        self.set_flags(f);
        let w = self.pop16();
        self.regs = CpuRegs { pc: w, ..self.regs };
        Ok(())
    }

    /// Does nothing.
    pub fn nop(&mut self) -> (r: Result<(), NesError>)
        requires
            old(self)@.wf(),
        ensures
            final(self)@.wf(),
            evolves_to(old(self)@, final(self)@, r, nop_spec(old(self)@)),
    {
        Ok(())
    }

    /// This operation's semantics were never completed; it fails loudly
    /// rather than running as a silent no-op.
    pub fn ahx(&mut self) -> (r: Result<(), NesError>)
        ensures
            *final(self) == *old(self),
            r == Err::<(), NesError>(NesError::UnimplementedInstruction { op: Op::Ahx }),
    {
        Err(NesError::UnimplementedInstruction { op: Op::Ahx })
    }

    /// This operation's semantics were never completed; it fails loudly
    /// rather than running as a silent no-op.
    pub fn alr(&mut self) -> (r: Result<(), NesError>)
        ensures
            *final(self) == *old(self),
            r == Err::<(), NesError>(NesError::UnimplementedInstruction { op: Op::Alr }),
    {
        Err(NesError::UnimplementedInstruction { op: Op::Alr })
    }

    /// This operation's semantics were never completed; it fails loudly
    /// rather than running as a silent no-op.
    pub fn anc(&mut self) -> (r: Result<(), NesError>)
        ensures
            *final(self) == *old(self),
            r == Err::<(), NesError>(NesError::UnimplementedInstruction { op: Op::Anc }),
    {
        Err(NesError::UnimplementedInstruction { op: Op::Anc })
    }

    /// This operation's semantics were never completed; it fails loudly
    /// rather than running as a silent no-op.
    pub fn arr(&mut self) -> (r: Result<(), NesError>)
        ensures
            *final(self) == *old(self),
            r == Err::<(), NesError>(NesError::UnimplementedInstruction { op: Op::Arr }),
    {
        Err(NesError::UnimplementedInstruction { op: Op::Arr })
    }

    /// This operation's semantics were never completed; it fails loudly
    /// rather than running as a silent no-op.
    pub fn axs(&mut self) -> (r: Result<(), NesError>)
        ensures
            *final(self) == *old(self),
            r == Err::<(), NesError>(NesError::UnimplementedInstruction { op: Op::Axs }),
    {
        Err(NesError::UnimplementedInstruction { op: Op::Axs })
    }

    /// This operation's semantics were never completed; it fails loudly
    /// rather than running as a silent no-op.
    pub fn bit(&mut self) -> (r: Result<(), NesError>)
        ensures
            *final(self) == *old(self),
            r == Err::<(), NesError>(NesError::UnimplementedInstruction { op: Op::Bit }),
    {
        Err(NesError::UnimplementedInstruction { op: Op::Bit })
    }

    /// This operation's semantics were never completed; it fails loudly
    /// rather than running as a silent no-op.
    pub fn brk(&mut self) -> (r: Result<(), NesError>)
        ensures
            *final(self) == *old(self),
            r == Err::<(), NesError>(NesError::UnimplementedInstruction { op: Op::Brk }),
    {
        Err(NesError::UnimplementedInstruction { op: Op::Brk })
    }

    /// This operation's semantics were never completed; it fails loudly
    /// rather than running as a silent no-op.
    pub fn dcp(&mut self) -> (r: Result<(), NesError>)
        ensures
            *final(self) == *old(self),
            r == Err::<(), NesError>(NesError::UnimplementedInstruction { op: Op::Dcp }),
    {
        Err(NesError::UnimplementedInstruction { op: Op::Dcp })
    }

    /// This operation's semantics were never completed; it fails loudly
    /// rather than running as a silent no-op.
    pub fn isc(&mut self) -> (r: Result<(), NesError>)
        ensures
            *final(self) == *old(self),
            r == Err::<(), NesError>(NesError::UnimplementedInstruction { op: Op::Isc }),
    {
        Err(NesError::UnimplementedInstruction { op: Op::Isc })
    }

    /// This operation's semantics were never completed; it fails loudly
    /// rather than running as a silent no-op.
    pub fn kil(&mut self) -> (r: Result<(), NesError>)
        ensures
            *final(self) == *old(self),
            r == Err::<(), NesError>(NesError::UnimplementedInstruction { op: Op::Kil }),
    {
        Err(NesError::UnimplementedInstruction { op: Op::Kil })
    }

    /// This operation's semantics were never completed; it fails loudly
    /// rather than running as a silent no-op.
    pub fn las(&mut self) -> (r: Result<(), NesError>)
        ensures
            *final(self) == *old(self),
            r == Err::<(), NesError>(NesError::UnimplementedInstruction { op: Op::Las }),
    {
        Err(NesError::UnimplementedInstruction { op: Op::Las })
    }

    /// This operation's semantics were never completed; it fails loudly
    /// rather than running as a silent no-op.
    pub fn lax(&mut self) -> (r: Result<(), NesError>)
        ensures
            *final(self) == *old(self),
            r == Err::<(), NesError>(NesError::UnimplementedInstruction { op: Op::Lax }),
    {
        Err(NesError::UnimplementedInstruction { op: Op::Lax })
    }

    /// This operation's semantics were never completed; it fails loudly
    /// rather than running as a silent no-op.
    pub fn plp(&mut self) -> (r: Result<(), NesError>)
        ensures
            *final(self) == *old(self),
            r == Err::<(), NesError>(NesError::UnimplementedInstruction { op: Op::Plp }),
    {
        Err(NesError::UnimplementedInstruction { op: Op::Plp })
    }

    /// This operation's semantics were never completed; it fails loudly
    /// rather than running as a silent no-op.
    pub fn rla(&mut self) -> (r: Result<(), NesError>)
        ensures
            *final(self) == *old(self),
            r == Err::<(), NesError>(NesError::UnimplementedInstruction { op: Op::Rla }),
    {
        Err(NesError::UnimplementedInstruction { op: Op::Rla })
    }

    /// This operation's semantics were never completed; it fails loudly
    /// rather than running as a silent no-op.
    pub fn rra(&mut self) -> (r: Result<(), NesError>)
        ensures
            *final(self) == *old(self),
            r == Err::<(), NesError>(NesError::UnimplementedInstruction { op: Op::Rra }),
    {
        Err(NesError::UnimplementedInstruction { op: Op::Rra })
    }

    /// This operation's semantics were never completed; it fails loudly
    /// rather than running as a silent no-op.
    pub fn sax(&mut self) -> (r: Result<(), NesError>)
        ensures
            *final(self) == *old(self),
            r == Err::<(), NesError>(NesError::UnimplementedInstruction { op: Op::Sax }),
    {
        Err(NesError::UnimplementedInstruction { op: Op::Sax })
    }

    /// This operation's semantics were never completed; it fails loudly
    /// rather than running as a silent no-op.
    pub fn shx(&mut self) -> (r: Result<(), NesError>)
        ensures
            *final(self) == *old(self),
            r == Err::<(), NesError>(NesError::UnimplementedInstruction { op: Op::Shx }),
    {
        Err(NesError::UnimplementedInstruction { op: Op::Shx })
    }

    /// This operation's semantics were never completed; it fails loudly
    /// rather than running as a silent no-op.
    pub fn shy(&mut self) -> (r: Result<(), NesError>)
        ensures
            *final(self) == *old(self),
            r == Err::<(), NesError>(NesError::UnimplementedInstruction { op: Op::Shy }),
    {
        Err(NesError::UnimplementedInstruction { op: Op::Shy })
    }

    /// This operation's semantics were never completed; it fails loudly
    /// rather than running as a silent no-op.
    pub fn slo(&mut self) -> (r: Result<(), NesError>)
        ensures
            *final(self) == *old(self),
            r == Err::<(), NesError>(NesError::UnimplementedInstruction { op: Op::Slo }),
    {
        Err(NesError::UnimplementedInstruction { op: Op::Slo })
    }

    /// This operation's semantics were never completed; it fails loudly
    /// rather than running as a silent no-op.
    pub fn sre(&mut self) -> (r: Result<(), NesError>)
        ensures
            *final(self) == *old(self),
            r == Err::<(), NesError>(NesError::UnimplementedInstruction { op: Op::Sre }),
    {
        Err(NesError::UnimplementedInstruction { op: Op::Sre })
    }

    /// This operation's semantics were never completed; it fails loudly
    /// rather than running as a silent no-op.
    pub fn tas(&mut self) -> (r: Result<(), NesError>)
        ensures
            *final(self) == *old(self),
            r == Err::<(), NesError>(NesError::UnimplementedInstruction { op: Op::Tas }),
    {
        Err(NesError::UnimplementedInstruction { op: Op::Tas })
    }

    /// This operation's semantics were never completed; it fails loudly
    /// rather than running as a silent no-op.
    pub fn xaa(&mut self) -> (r: Result<(), NesError>)
        ensures
            *final(self) == *old(self),
            r == Err::<(), NesError>(NesError::UnimplementedInstruction { op: Op::Xaa }),
    {
        Err(NesError::UnimplementedInstruction { op: Op::Xaa })
    }

    /// Dispatches one decoded operation.
    fn execute(&mut self, op: Op, address: u16, mode: AddressingMode) -> (r: Result<
        (),
        NesError,
    >)
        requires
            old(self)@.wf(),
        ensures
            final(self)@.wf(),
            evolves_to(old(self)@, final(self)@, r, execute_spec(op, old(self)@, address, mode)),
    {
        match op {
            Op::Adc => self.adc(address),
            Op::Ahx => self.ahx(),
            Op::Alr => self.alr(),
            Op::Anc => self.anc(),
            Op::And => self.and(address),
            Op::Arr => self.arr(),
            Op::Asl => self.asl(address, mode),
            Op::Axs => self.axs(),
            Op::Bcc => self.bcc(address),
            Op::Bcs => self.bcs(address),
            Op::Beq => self.beq(address),
            Op::Bit => self.bit(),
            Op::Bmi => self.bmi(address),
            Op::Bne => self.bne(address),
            Op::Bpl => self.bpl(address),
            Op::Brk => self.brk(),
            Op::Bvc => self.bvc(address),
            Op::Bvs => self.bvs(address),
            Op::Clc => self.clc(),
            Op::Cld => self.cld(),
            Op::Cli => self.cli(),
            Op::Clv => self.clv(),
            Op::Cmp => self.cmp(address),
            Op::Cpx => self.cpx(address),
            Op::Cpy => self.cpy(address),
            Op::Dcp => self.dcp(),
            Op::Dec => self.dec(address),
            Op::Dex => self.dex(),
            Op::Dey => self.dey(),
            Op::Eor => self.eor(address),
            Op::Inc => self.inc(address),
            Op::Inx => self.inx(),
            Op::Iny => self.iny(),
            Op::Isc => self.isc(),
            Op::Jmp => self.jmp(address),
            Op::Jsr => self.jsr(address),
            Op::Kil => self.kil(),
            Op::Las => self.las(),
            Op::Lax => self.lax(),
            Op::Lda => self.lda(address),
            Op::Ldx => self.ldx(address),
            Op::Ldy => self.ldy(address),
            Op::Lsr => self.lsr(address, mode),
            Op::Nop => self.nop(),
            Op::Ora => self.ora(address),
            Op::Pha => self.pha(),
            Op::Php => self.php(),
            Op::Pla => self.pla(),
            Op::Plp => self.plp(),
            Op::Rla => self.rla(),
            Op::Rol => self.rol(address, mode),
            Op::Ror => self.ror(address, mode),
            Op::Rra => self.rra(),
            Op::Rti => self.rti(),
            Op::Rts => self.rts(),
            Op::Sax => self.sax(),
            Op::Sbc => self.sbc(address),
            Op::Sec => self.sec(),
            Op::Sed => self.sed(),
            Op::Sei => self.sei(),
            Op::Shx => self.shx(),
            Op::Shy => self.shy(),
            Op::Slo => self.slo(),
            Op::Sre => self.sre(),
            Op::Sta => self.sta(address),
            Op::Stx => self.stx(address),
            Op::Sty => self.sty(address),
            Op::Tas => self.tas(),
            Op::Tax => self.tax(),
            Op::Tay => self.tay(),
            Op::Tsx => self.tsx(),
            Op::Txa => self.txa(),
            Op::Txs => self.txs(),
            Op::Tya => self.tya(),
            Op::Xaa => self.xaa(),
        }
    }

    /// Runs one whole step: serves a pending non-maskable interrupt, then
    /// fetches, decodes and executes one instruction, returning the
    /// elapsed clock cycles. A maskable interrupt request is not
    /// supported and is refused rather than silently ignored. The step is
    /// atomic: it runs to completion before returning.
    pub fn step(&mut self, pending: Interrupt) -> (r: Result<u8, NesError>)
        requires
            old(self)@.wf(),
        ensures
            final(self)@.wf(),
            (final(self)@, r) == step_spec(old(self)@, pending),
    {
        match pending {
            Interrupt::IntIRQ => {
                return Err(NesError::UnsupportedInterrupt);
            },
            Interrupt::IntNMI => {
                self.nmi();
            },
            Interrupt::IntNone => {},
        }
        let extra: u8 = match pending {
            Interrupt::IntNMI => 7,
            _ => 0,
        };
        let opcode = match self.memory.read(self.regs.pc) {
            Ok(b) => b,
            Err(e) => return Err(e),
        };
        let instr = instruction_for(opcode);
        let (address, crossed) = match self.resolve(instr.addr_mode) {
            Ok(t) => t,
            Err(e) => return Err(e),
        };
        proof {
            crate::instructions::lemma_descriptor_cycle_bounds();
        }
        let total: u8 = instr.cycles + (if crossed { instr.page_delay } else { 0u8 }) + extra;
        self.this_cycles = total;
        self.cycles = self.cycles.wrapping_add(total as u64);
        self.regs = CpuRegs { pc: self.regs.pc.wrapping_add(instr.size as u16), ..self.regs };
        match self.execute(instr.op, address, instr.addr_mode) {
            Ok(_) => Ok(total),
            Err(e) => Err(e),
        }
    }

}

/// The stack round-trip law: pushing a 16-bit value and popping it back
/// returns the original value and restores the stack pointer, for every
/// starting stack pointer, the wraparound at the page boundary included.
pub proof fn lemma_stack_roundtrip(c: CpuView, val: u16)
    requires
        c.wf(),
    ensures
        pop16_spec(push16_spec(c, val)).1 == val,
        pop16_spec(push16_spec(c, val)).0.regs == c.regs,
        pop16_spec(push16_spec(c, val)).0.cycles == c.cycles,
        pop16_spec(push16_spec(c, val)).0.this_cycles == c.this_cycles,
{
    let sp = c.regs.sp;
    lemma_sp_wrap(sp);
    let hi = ((val >> 8) & 0xff) as u8;
    let lo = (val & 0xff) as u8;
    assert((((((val >> 8) & 0xff) as u8) as u16) << 8) | (((val & 0xff) as u8) as u16) == val)
        by (bit_vector);
}

/// Stepping the stack pointer down twice and up twice lands where it
/// began, and the two slots on the way differ.
proof fn lemma_sp_wrap(sp: u8)
    by (bit_vector)
    ensures
        sp.wrapping_sub(1).wrapping_sub(1).wrapping_add(1) == sp.wrapping_sub(1),
        sp.wrapping_sub(1).wrapping_add(1) == sp,
        sp.wrapping_sub(1) != sp,
{
}

/// The flag law for loads and arithmetic: after any of these operations,
/// the zero flag says exactly that the result byte is zero and the
/// negative flag mirrors its top bit.
pub proof fn lemma_load_arith_flags(c: CpuView, address: u16)
    ensures
        lda_spec(c, address) matches Ok(q) ==> q.regs.z == (q.regs.a == 0) && q.regs.n == ((
        q.regs.a & 0x80) != 0),
        ldx_spec(c, address) matches Ok(q) ==> q.regs.z == (q.regs.x == 0) && q.regs.n == ((
        q.regs.x & 0x80) != 0),
        ldy_spec(c, address) matches Ok(q) ==> q.regs.z == (q.regs.y == 0) && q.regs.n == ((
        q.regs.y & 0x80) != 0),
        adc_spec(c, address) matches Ok(q) ==> q.regs.z == (q.regs.a == 0) && q.regs.n == ((
        q.regs.a & 0x80) != 0),
        sbc_spec(c, address) matches Ok(q) ==> q.regs.z == (q.regs.a == 0) && q.regs.n == ((
        q.regs.a & 0x80) != 0),
        and_spec(c, address) matches Ok(q) ==> q.regs.z == (q.regs.a == 0) && q.regs.n == ((
        q.regs.a & 0x80) != 0),
        ora_spec(c, address) matches Ok(q) ==> q.regs.z == (q.regs.a == 0) && q.regs.n == ((
        q.regs.a & 0x80) != 0),
        eor_spec(c, address) matches Ok(q) ==> q.regs.z == (q.regs.a == 0) && q.regs.n == ((
        q.regs.a & 0x80) != 0),
        pla_spec(c) matches Ok(q) ==> q.regs.z == (q.regs.a == 0) && q.regs.n == ((q.regs.a
            & 0x80) != 0),
        inx_spec(c) matches Ok(q) ==> q.regs.z == (q.regs.x == 0) && q.regs.n == ((q.regs.x
            & 0x80) != 0),
        iny_spec(c) matches Ok(q) ==> q.regs.z == (q.regs.y == 0) && q.regs.n == ((q.regs.y
            & 0x80) != 0),
        dex_spec(c) matches Ok(q) ==> q.regs.z == (q.regs.x == 0) && q.regs.n == ((q.regs.x
            & 0x80) != 0),
        dey_spec(c) matches Ok(q) ==> q.regs.z == (q.regs.y == 0) && q.regs.n == ((q.regs.y
            & 0x80) != 0),
        inc_spec(c, address) matches Ok(q) ==> q.regs.z == (cpu_read_spec(
            c.mem,
            address,
        )->Ok_0.wrapping_add(1) == 0) && q.regs.n == ((cpu_read_spec(
            c.mem,
            address,
        )->Ok_0.wrapping_add(1) & 0x80) != 0),
        dec_spec(c, address) matches Ok(q) ==> q.regs.z == (cpu_read_spec(
            c.mem,
            address,
        )->Ok_0.wrapping_sub(1) == 0) && q.regs.n == ((cpu_read_spec(
            c.mem,
            address,
        )->Ok_0.wrapping_sub(1) & 0x80) != 0),
{
}

} // verus!
