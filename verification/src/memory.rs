use vstd::prelude::*;

use crate::cartridge::CartView;
use crate::cartridge::Cartridge;
use crate::errors::NesError;
use crate::errors::evolves_to;
use crate::ppu::PPU;
use crate::ppu::PpuRegs;
use crate::ppu::PpuView;
use crate::ppu::addr_write_spec;
use crate::ppu::control_1_spec;
use crate::ppu::control_2_spec;
use crate::ppu::ppudata_write_spec;
use crate::ppu::scroll_write_spec;
use crate::ppu::status_byte_spec;

verus! {

/// The video pipeline's own address space: pattern memory from the
/// cartridge in the bottom 8 KiB, 2 KiB of nametable memory mirrored across
/// the next window, and the 32-byte palette memory mirrored over the top of
/// the space. Nothing here is reachable from the processor's address space
/// except through the register ports.
pub struct PPUMemoryMap {
    /// The cartridge's pattern bank; read-only on the fixed mapping.
    pub pattern: Vec<u8>,
    /// Nametable memory.
    pub vram: Vec<u8>,
    /// Palette memory.
    pub palettes: Vec<u8>,
}

/// The mathematical content of the video address space.
#[verifier::ext_equal]
pub ghost struct PPUMemView {
    pub pattern: Seq<u8>,
    pub vram: Seq<u8>,
    pub palettes: Seq<u8>,
}

impl View for PPUMemoryMap {
    type V = PPUMemView;

    open spec fn view(&self) -> PPUMemView {
        PPUMemView { pattern: self.pattern@, vram: self.vram@, palettes: self.palettes@ }
    }
}

impl PPUMemView {
    /// The three regions have their fixed hardware sizes.
    pub open spec fn wf(self) -> bool {
        &&& self.pattern.len() == 0x2000
        &&& self.vram.len() == 0x800
        &&& self.palettes.len() == 0x20
    }
}

/// What a video-space read at `address` yields.
pub open spec fn ppu_read_spec(m: PPUMemView, address: u16) -> Result<u8, NesError> {
    if address <= 0x1fff {
        Ok(m.pattern[address as int])
    } else if address <= 0x3eff {
        Ok(m.vram[(address % 0x800) as int])
    } else if address <= 0x3fff {
        Ok(m.palettes[(address % 0x20) as int])
    } else {
        Err(NesError::InvalidMemoryAccess { address })
    }
}

/// What a video-space write at `address` leaves behind: the new map on
/// success, an error (and no change) on a write to read-only pattern memory
/// or outside the space.
pub open spec fn ppu_write_spec(m: PPUMemView, data: u8, address: u16) -> Result<
    PPUMemView,
    NesError,
> {
    if address <= 0x1fff {
        Err(NesError::InvalidMemoryAccess { address })
    } else if address <= 0x3eff {
        Ok(PPUMemView { vram: m.vram.update((address % 0x800) as int, data), ..m })
    } else if address <= 0x3fff {
        Ok(PPUMemView { palettes: m.palettes.update((address % 0x20) as int, data), ..m })
    } else {
        Err(NesError::InvalidMemoryAccess { address })
    }
}

impl PPUMemoryMap {
    /// Wires the map to the cartridge's pattern bank and clears the
    /// console-owned memories.
    pub fn new(pattern: Vec<u8>) -> (r: PPUMemoryMap)
        requires
            pattern@.len() == 0x2000,
        ensures
            r@.wf(),
            r@.pattern == pattern@,
            r@.vram == Seq::new(0x800, |i: int| 0u8),
            r@.palettes == Seq::new(0x20, |i: int| 0u8),
    {
        PPUMemoryMap { pattern, vram: zero_vec(0x800), palettes: zero_vec(0x20) }
    }

    /// Reads one byte of video memory, decoding the region and its
    /// mirroring; addresses above the video space are refused.
    pub fn read(&self, address: u16) -> (r: Result<u8, NesError>)
        requires
            self@.wf(),
        ensures
            r == ppu_read_spec(self@, address),
    {
        if address <= 0x1fff {
            Ok(self.pattern[address as usize])
        } else if address <= 0x3eff {
            Ok(self.vram[(address % 0x800) as usize])
        } else if address <= 0x3fff {
            Ok(self.palettes[(address % 0x20) as usize])
        } else {
            Err(NesError::InvalidMemoryAccess { address })
        }
    }

    /// Writes one byte of video memory; pattern memory is read-only and
    /// addresses above the video space are refused, leaving the map as it
    /// was.
    pub fn write(&mut self, data: u8, address: u16) -> (r: Result<(), NesError>)
        requires
            old(self)@.wf(),
        ensures
            final(self)@.wf(),
            match ppu_write_spec(old(self)@, data, address) {
                Ok(mm) => r is Ok && final(self)@ == mm,
                Err(e) => r == Err::<(), NesError>(e) && final(self)@ == old(self)@,
            },
    {
        if address <= 0x1fff {
            Err(NesError::InvalidMemoryAccess { address })
        } else if address <= 0x3eff {
            self.vram[(address % 0x800) as usize] = data;
            Ok(())
        } else if address <= 0x3fff {
            self.palettes[(address % 0x20) as usize] = data;
            Ok(())
        } else {
            Err(NesError::InvalidMemoryAccess { address })
        }
    }
}


/// The processor-visible address space: 2 KiB of console memory mirrored
/// four times, the eight video register ports mirrored across their
/// window, a handful of inert or special ports, and the cartridge's
/// program bank mirrored across the upper half.
pub struct CPUMemoryMap {
    /// Console memory.
    pub ram: Vec<u8>,
    /// The cartridge, read through its program window.
    pub cart: Cartridge,
    /// The video pipeline, reached through its register ports.
    pub ppu: PPU,
}

/// The mathematical content of the processor's address space.
#[verifier::ext_equal]
pub ghost struct MemView {
    pub ram: Seq<u8>,
    pub cart: CartView,
    pub ppu: PpuView,
}

impl View for CPUMemoryMap {
    type V = MemView;

    open spec fn view(&self) -> MemView {
        MemView { ram: self.ram@, cart: self.cart@, ppu: self.ppu@ }
    }
}

impl MemView {
    /// Console memory, cartridge and video pipeline all keep their fixed
    /// shapes.
    pub open spec fn wf(self) -> bool {
        &&& self.ram.len() == 0x800
        &&& self.cart.wf()
        &&& self.ppu.wf()
    }
}

/// What a processor-space read at `address` yields. Reads have no side
/// effect anywhere in this space (the status port's read is side-effect
/// free here, as documented on the pipeline).
pub open spec fn cpu_read_spec(m: MemView, address: u16) -> Result<u8, NesError> {
    if address <= 0x1fff {
        Ok(m.ram[(address % 0x800) as int])
    } else if address <= 0x3fff {
        let port = (address % 8) as u8;
        if port == 2 {
            Ok(status_byte_spec(m.ppu))
        } else if port == 4 || port == 7 {
            Err(NesError::UnimplementedPort { port })
        } else {
            Err(NesError::InvalidPortAccess { port })
        }
    } else if address == 0x4016 || address == 0x4017 {
        Ok(0)
    } else if address <= 0x7fff {
        Err(NesError::InvalidMemoryAccess { address })
    } else {
        Ok(m.cart.prg[((address - 0x8000) % 0x4000) as int])
    }
}

/// A little-endian 16-bit read: the low byte at `address`, the high byte
/// just past it; the first failing byte's error wins.
pub open spec fn cpu_read16_spec(m: MemView, address: u16) -> Result<u16, NesError> {
    match cpu_read_spec(m, address) {
        Ok(lo) => match cpu_read_spec(m, address.wrapping_add(1)) {
            Ok(hi) => Ok(((hi as u16) << 8) | (lo as u16)),
            Err(e) => Err(e),
        },
        Err(e) => Err(e),
    }
}

/// The bytes a sprite-memory block copy would read: `n` consecutive
/// processor-space reads upward from `base`, or the first failing read's
/// error.
pub open spec fn dma_bytes_spec(m: MemView, base: u16, n: nat) -> Result<Seq<u8>, NesError>
    decreases n,
{
    if n == 0 {
        Ok(Seq::empty())
    } else {
        match dma_bytes_spec(m, base, (n - 1) as nat) {
            Ok(s) => match cpu_read_spec(m, (base + (n - 1)) as u16) {
                Ok(b) => Ok(s.push(b)),
                Err(e) => Err(e),
            },
            Err(e) => Err(e),
        }
    }
}

/// What a processor-space write at `address` does: console memory and the
/// video register ports take the byte, the inert ports swallow it, the
/// block-copy port copies a 256-byte page into sprite memory, and
/// everything else (the cartridge's program bank included) refuses it.
pub open spec fn cpu_write_spec(m: MemView, data: u8, address: u16) -> Result<MemView, NesError> {
    if address <= 0x1fff {
        Ok(MemView { ram: m.ram.update((address % 0x800) as int, data), ..m })
    } else if address <= 0x3fff {
        let port = (address % 8) as u8;
        if port == 0 {
            Ok(MemView { ppu: control_1_spec(m.ppu, data), ..m })
        } else if port == 1 {
            Ok(MemView { ppu: control_2_spec(m.ppu, data), ..m })
        } else if port == 2 {
            Err(NesError::InvalidPortAccess { port })
        } else if port == 3 {
            Ok(MemView { ppu: PpuView { regs: PpuRegs { oamaddr: data, ..m.ppu.regs }, ..m.ppu }, ..m })
        } else if port == 4 {
            Err(NesError::UnimplementedPort { port })
        } else if port == 5 {
            Ok(MemView { ppu: scroll_write_spec(m.ppu, data), ..m })
        } else if port == 6 {
            Ok(MemView { ppu: addr_write_spec(m.ppu, data), ..m })
        } else {
            match ppudata_write_spec(m.ppu, data) {
                Ok(p) => Ok(MemView { ppu: p, ..m }),
                Err(e) => Err(e),
            }
        }
    } else if address == 0x4014 {
        match dma_bytes_spec(m, (data as u16) << 8, 256) {
            Ok(s) => Ok(MemView { ppu: PpuView { oam: s, ..m.ppu }, ..m }),
            Err(e) => Err(e),
        }
    } else if address <= 0x4013 || address == 0x4015 || address == 0x4016 || address == 0x4017 {
        Ok(m)
    } else {
        Err(NesError::InvalidMemoryAccess { address })
    }
}

impl CPUMemoryMap {
    /// Wires console memory, the cartridge and the video pipeline
    /// together.
    pub fn new(cart: Cartridge, ppu: PPU) -> (r: CPUMemoryMap)
        ensures
            r@.ram == Seq::new(0x800, |i: int| 0u8),
            r@.cart == cart@,
            r@.ppu == ppu@,
    {
        CPUMemoryMap { ram: zero_vec(0x800), cart, ppu }
    }

    /// Reads one byte of the processor's address space.
    pub fn read(&self, address: u16) -> (r: Result<u8, NesError>)
        requires
            self@.wf(),
        ensures
            r == cpu_read_spec(self@, address),
    {
        if address <= 0x1fff {
            Ok(self.ram[(address % 0x800) as usize])
        } else if address <= 0x3fff {
            let port = (address % 8) as u8;
            if port == 0 {
                self.ppu.read_control_1()
            } else if port == 1 {
                self.ppu.read_control_2()
            } else if port == 2 {
                Ok(self.ppu.read_status())
            } else if port == 3 {
                self.ppu.read_oamaddr()
            } else if port == 4 {
                self.ppu.read_oamdata()
            } else if port == 5 {
                self.ppu.read_scroll_offset()
            } else if port == 6 {
                self.ppu.read_addr_offset()
            } else {
                self.ppu.read_ppudata()
            }
        } else if address == 0x4016 || address == 0x4017 {
            Ok(0)
        } else if address <= 0x7fff {
            Err(NesError::InvalidMemoryAccess { address })
        } else {
            Ok(self.cart.read(address.wrapping_sub(0x8000)))
        }
    }

    /// Reads a little-endian 16-bit value.
    pub fn read16(&self, address: u16) -> (r: Result<u16, NesError>)
        requires
            self@.wf(),
        ensures
            r == cpu_read16_spec(self@, address),
    {
        match self.read(address) {
            Ok(lo) => match self.read(address.wrapping_add(1)) {
                Ok(hi) => Ok(((hi as u16) << 8) | (lo as u16)),
                Err(e) => Err(e),
            },
            Err(e) => Err(e),
        }
    }

    /// Writes one byte of the processor's address space; refused writes
    /// leave everything as it was.
    pub fn write(&mut self, data: u8, address: u16) -> (r: Result<(), NesError>)
        requires
            old(self)@.wf(),
        ensures
            final(self)@.wf(),
            evolves_to(old(self)@, final(self)@, r, cpu_write_spec(old(self)@, data, address)),
    {
        if address <= 0x1fff {
            self.ram[(address % 0x800) as usize] = data;
            Ok(())
        } else if address <= 0x3fff {
            let port = (address % 8) as u8;
            if port == 0 {
                self.ppu.write_control_1(data);
                Ok(())
            } else if port == 1 {
                self.ppu.write_control_2(data);
                Ok(())
            } else if port == 2 {
                self.ppu.write_status(data)
            } else if port == 3 {
                self.ppu.write_oamaddr(data);
                Ok(())
            } else if port == 4 {
                self.ppu.write_oamdata(data)
            } else if port == 5 {
                self.ppu.write_scroll_offset(data);
                Ok(())
            } else if port == 6 {
                self.ppu.write_addr_offset(data);
                Ok(())
            } else {
                self.ppu.write_ppudata(data)
            }
        } else if address == 0x4014 {
            self.oam_dma(data)
        } else if address <= 0x4013 || address == 0x4015 || address == 0x4016 || address == 0x4017 {
            Ok(())
        } else {
            Err(NesError::InvalidMemoryAccess { address })
        }
    }

    /// The sprite-memory block copy: 256 consecutive reads from the page
    /// `data` names, latched into sprite memory as one piece. A failing
    /// read refuses the whole copy and nothing moves.
    fn oam_dma(&mut self, data: u8) -> (r: Result<(), NesError>)
        requires
            old(self)@.wf(),
        ensures
            final(self)@.wf(),
            evolves_to(
                old(self)@,
                final(self)@,
                r,
                match dma_bytes_spec(old(self)@, (data as u16) << 8, 256) {
                    Ok(s) => Ok(
                        MemView { ppu: PpuView { oam: s, ..old(self)@.ppu }, ..old(self)@ },
                    ),
                    Err(e) => Err(e),
                },
            ),
    {
        let base: u16 = (data as u16) << 8;
        proof {
            lemma_dma_base_bound(data);
        }
        let mut buf: Vec<u8> = Vec::new();
        let mut i: usize = 0;
        while i < 256
            invariant
                i <= 256,
                base == (data as u16) << 8,
                base <= 0xff00,
                self@.wf(),
                self@ == old(self)@,
                buf@.len() == i,
                dma_bytes_spec(self@, base, i as nat) == Ok::<Seq<u8>, NesError>(buf@),
            decreases 256 - i,
        {
            match self.read(base + (i as u16)) {
                Ok(b) => {
                    buf.push(b);
                },
                Err(e) => {
                    proof {
                        lemma_dma_err(self@, base, i as nat, 256, e);
                    }
                    return Err(e);
                },
            }
            i += 1;
        }
        self.ppu.oam = buf;
        Ok(())
    }
}

/// A block-copy base page never reaches past the top of the address
/// space.
proof fn lemma_dma_base_bound(data: u8)
    by (bit_vector)
    ensures
        ((data as u16) << 8) <= 0xff00,
{
}

/// Once one read of a block copy fails, the whole copy fails with that
/// same error.
proof fn lemma_dma_err(m: MemView, base: u16, i: nat, n: nat, e: NesError)
    requires
        i < n,
        base + 256 <= 0x10000,
        dma_bytes_spec(m, base, i) is Ok,
        cpu_read_spec(m, (base + i) as u16) == Err::<u8, NesError>(e),
    ensures
        dma_bytes_spec(m, base, n) == Err::<Seq<u8>, NesError>(e),
    decreases n,
{
    if n == i + 1 {
    } else {
        lemma_dma_err(m, base, i, (n - 1) as nat, e);
    }
}

/// A vector of `n` zero bytes.
pub fn zero_vec(n: usize) -> (r: Vec<u8>)
    ensures
        r@ == Seq::new(n as nat, |i: int| 0u8),
{
    let mut out: Vec<u8> = Vec::new();
    let mut i: usize = 0;
    while i < n
        invariant
            i <= n,
            out@ == Seq::new(i as nat, |j: int| 0u8),
        decreases n - i,
    {
        out.push(0);
        proof {
            assert(out@ =~= Seq::new((i + 1) as nat, |j: int| 0u8));
        }
        i += 1;
    }
    out
}

} // verus!
