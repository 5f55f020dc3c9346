use vstd::prelude::*;

use crate::errors::NesError;
use crate::errors::evolves_to;
use crate::memory::PPUMemoryMap;
use crate::memory::PPUMemView;
use crate::memory::ppu_read_spec;
use crate::memory::ppu_write_spec;
use crate::memory::zero_vec;

verus! {

/// The dot and scanline counters, the frame parity, and the scroll
/// machinery: the two 15-bit video addresses, the fine horizontal scroll
/// and the write toggle shared by the two-write ports.
#[derive(Clone, Copy, Debug, PartialEq, Eq, Structural)]
pub struct PpuTiming {
    /// Dot counter within the current scanline.
    pub cycle: u16,
    /// Current scanline number.
    pub scanline: u16,
    /// Current video memory address, 15 bits.
    pub vram_addr: u16,
    /// Temporary video memory address composed by the two-write ports.
    pub temp_addr: u16,
    /// Fine horizontal scroll, 3 bits.
    pub x: u8,
    /// Frame parity: true during an odd frame.
    pub oddframe: bool,
    /// Which half of a two-write port sequence comes next.
    pub write_toggle: bool,
}

/// The decoded register-port bit fields and the status bits.
#[derive(Clone, Copy, Debug, PartialEq, Eq, Structural)]
pub struct PpuRegs {
    /// Control port one, bits 0 and 1: nametable base select.
    pub flag_table_address: u8,
    /// Control port one, bit 2: step the video address by 32 instead of 1.
    pub flag_vertical_write: bool,
    /// Control port one, bit 3: sprite pattern table select.
    pub flag_sprite_table_address: bool,
    /// Control port one, bit 4: background pattern table select.
    pub flag_screen_table_address: bool,
    /// Control port one, bit 5: 8x16 sprite mode.
    pub flag_sprite_size: bool,
    /// Control port one, bit 7: raise the interrupt request at vertical
    /// blank.
    pub flag_vblank_enable: bool,
    /// Control port two, bit 1: show the background's left edge.
    pub flag_image_mask: bool,
    /// Control port two, bit 2: show the sprites' left edge.
    pub flag_sprite_mask: bool,
    /// Control port two, bit 3: background rendering enable.
    pub flag_screen_enable: bool,
    /// Control port two, bit 4: sprite rendering enable.
    pub flag_sprites_enable: bool,
    /// Control port two, bit 5: colour emphasis.
    pub flag_emphasize_red: bool,
    /// Control port two, bit 6: colour emphasis.
    pub flag_emphasize_blue: bool,
    /// Control port two, bit 7: colour emphasis.
    pub flag_emphasize_green: bool,
    /// Status port bit 5: sprite overflow.
    pub flag_overflow: bool,
    /// Status port bit 6: sprite zero hit.
    pub flag_hit: bool,
    /// Status port bit 7: the vertical-blank flag.
    pub flag_vblank: bool,
    /// The interrupt-request signal, consumed and cleared by the driver.
    pub nmi: bool,
    /// Sprite memory address port.
    pub oamaddr: u8,
}

/// The background fetch latches and the pixel composition register.
#[derive(Clone, Copy, Debug, PartialEq, Eq, Structural)]
pub struct PpuFetch {
    /// Latched nametable byte of the tile being fetched.
    pub nametablebyte: u8,
    /// Latched low pattern byte of the tile being fetched.
    pub lowtilebyte: u8,
    /// Latched high pattern byte of the tile being fetched.
    pub hightilebyte: u8,
    /// Latched 2-bit palette select, pre-shifted into bits 2 and 3.
    pub attributebyte: u8,
    /// Pixel composition register: four bits per slot for 16 upcoming
    /// pixels.
    pub tiledata: u64,
}

/// The video timing pipeline: a per-dot state machine that walks 341 dots
/// by 262 scanlines each frame, fetches tile data from video memory on a
/// fixed cadence, shifts it into a pixel composition register, and emits
/// one framebuffer pixel per visible dot.
pub struct PPU {
    /// Counters, video addresses and scroll state.
    pub timing: PpuTiming,
    /// Decoded register-port fields and status bits.
    pub regs: PpuRegs,
    /// Background fetch latches.
    pub fetch: PpuFetch,
    /// The pipeline's own address space.
    pub memory: PPUMemoryMap,
    /// Sprite attribute memory, 256 bytes.
    pub oam: Vec<u8>,
    /// The output framebuffer: 256 by 240 pixels, three bytes each.
    pub pixeldata: Vec<u8>,
}

/// The mathematical content of the pipeline's state.
#[verifier::ext_equal]
pub ghost struct PpuView {
    pub timing: PpuTiming,
    pub regs: PpuRegs,
    pub fetch: PpuFetch,
    pub mem: PPUMemView,
    pub oam: Seq<u8>,
    pub pixeldata: Seq<u8>,
}

impl View for PPU {
    type V = PpuView;

    open spec fn view(&self) -> PpuView {
        PpuView {
            timing: self.timing,
            regs: self.regs,
            fetch: self.fetch,
            mem: self.memory@,
            oam: self.oam@,
            pixeldata: self.pixeldata@,
        }
    }
}

impl PpuView {
    /// The pipeline's standing invariant: the dot and scanline counters
    /// stay inside one frame, the two video addresses stay within 15 bits,
    /// the fine scroll stays within 3 bits, and the memories keep their
    /// fixed sizes.
    pub open spec fn wf(self) -> bool {
        &&& self.timing.cycle <= 340
        &&& self.timing.scanline <= 261
        &&& self.timing.vram_addr < 0x8000
        &&& self.timing.temp_addr < 0x8000
        &&& self.timing.x <= 7
        &&& self.mem.wf()
        &&& self.oam.len() == 256
        &&& self.pixeldata.len() == 256 * 240 * 3
    }

    /// Background and sprite rendering taken together.
    pub open spec fn rendering_enabled(self) -> bool {
        self.regs.flag_screen_enable || self.regs.flag_sprites_enable
    }
}

/// The pipeline's power-on state, wired to a cartridge pattern bank.
pub open spec fn ppu_init_spec(pattern: Seq<u8>) -> PpuView {
    PpuView {
        timing: PpuTiming {
            cycle: 0,
            scanline: 0,
            vram_addr: 0,
            temp_addr: 0,
            x: 0,
            oddframe: false,
            write_toggle: false,
        },
        regs: PpuRegs {
            flag_table_address: 0,
            flag_vertical_write: false,
            flag_sprite_table_address: false,
            flag_screen_table_address: false,
            flag_sprite_size: false,
            flag_vblank_enable: false,
            flag_image_mask: false,
            flag_sprite_mask: false,
            flag_screen_enable: false,
            flag_sprites_enable: false,
            flag_emphasize_red: false,
            flag_emphasize_blue: false,
            flag_emphasize_green: false,
            flag_overflow: false,
            flag_hit: false,
            flag_vblank: false,
            nmi: false,
            oamaddr: 0,
        },
        fetch: PpuFetch {
            nametablebyte: 0,
            lowtilebyte: 0,
            hightilebyte: 0,
            attributebyte: 0,
            tiledata: 0,
        },
        mem: PPUMemView {
            pattern: pattern,
            vram: Seq::new(0x800, |i: int| 0u8),
            palettes: Seq::new(0x20, |i: int| 0u8),
        },
        oam: Seq::new(256, |i: int| 0u8),
        pixeldata: Seq::new(256 * 240 * 3, |i: int| 0u8),
    }
}

/// What a write to control port one decodes to.
pub open spec fn control_1_spec(p: PpuView, data: u8) -> PpuView {
    PpuView {
        regs: PpuRegs {
            flag_table_address: data & 0x03,
            flag_vertical_write: (data >> 2) & 1 == 1,
            flag_sprite_table_address: (data >> 3) & 1 == 1,
            flag_screen_table_address: (data >> 4) & 1 == 1,
            flag_sprite_size: (data >> 5) & 1 == 1,
            flag_vblank_enable: (data >> 7) & 1 == 1,
            ..p.regs
        },
        ..p
    }
}

/// What a write to control port two decodes to.
pub open spec fn control_2_spec(p: PpuView, data: u8) -> PpuView {
    PpuView {
        regs: PpuRegs {
            flag_image_mask: (data >> 1) & 1 == 1,
            flag_sprite_mask: (data >> 2) & 1 == 1,
            flag_screen_enable: (data >> 3) & 1 == 1,
            flag_sprites_enable: (data >> 4) & 1 == 1,
            flag_emphasize_red: (data >> 5) & 1 == 1,
            flag_emphasize_blue: (data >> 6) & 1 == 1,
            flag_emphasize_green: (data >> 7) & 1 == 1,
            ..p.regs
        },
        ..p
    }
}

/// The packed status byte: sprite overflow in bit 5, sprite zero hit in
/// bit 6, vertical blank in bit 7.
pub open spec fn status_byte_spec(p: PpuView) -> u8 {
    ((if p.regs.flag_overflow { 0x20u8 } else { 0u8 }) | (if p.regs.flag_hit {
        0x40u8
    } else {
        0u8
    }) | (if p.regs.flag_vblank { 0x80u8 } else { 0u8 }))
}

/// What a write to the scroll port does: the first write of a pair takes
/// coarse and fine horizontal scroll, the second takes coarse and fine
/// vertical scroll, and the toggle alternates between them.
pub open spec fn scroll_write_spec(p: PpuView, data: u8) -> PpuView {
    if !p.timing.write_toggle {
        PpuView {
            timing: PpuTiming {
                temp_addr: (p.timing.temp_addr & 0xffe0) | ((data as u16) >> 3),
                x: data & 0x07,
                write_toggle: true,
                ..p.timing
            },
            ..p
        }
    } else {
        PpuView {
            timing: PpuTiming {
                temp_addr: (((p.timing.temp_addr & 0x8fff) | (((data as u16) & 0x07) << 12))
                    & 0xfc1f) | (((data as u16) & 0xf8) << 2),
                write_toggle: false,
                ..p.timing
            },
            ..p
        }
    }
}

/// What a write to the address port does: high six bits first, low byte
/// second; the second write publishes the composed address.
pub open spec fn addr_write_spec(p: PpuView, data: u8) -> PpuView {
    if !p.timing.write_toggle {
        PpuView {
            timing: PpuTiming {
                temp_addr: (p.timing.temp_addr & 0x80ff) | (((data as u16) & 0x3f) << 8),
                write_toggle: true,
                ..p.timing
            },
            ..p
        }
    } else {
        let t = (p.timing.temp_addr & 0xff00) | (data as u16);
        PpuView {
            timing: PpuTiming { temp_addr: t, vram_addr: t, write_toggle: false, ..p.timing },
            ..p
        }
    }
}

/// What a write to the data port does: the byte goes to video memory at
/// the current video address, which then steps forward by 1 or 32 and is
/// masked back to 15 bits.
pub open spec fn ppudata_write_spec(p: PpuView, data: u8) -> Result<PpuView, NesError> {
    match ppu_write_spec(p.mem, data, p.timing.vram_addr) {
        Ok(m) => {
            let inc: u16 = if p.regs.flag_vertical_write { 32 } else { 1 };
            Ok(
                PpuView {
                    mem: m,
                    timing: PpuTiming {
                        vram_addr: ((p.timing.vram_addr + inc) as u16) & 0x7fff,
                        ..p.timing
                    },
                    ..p
                },
            )
        },
        Err(e) => Err(e),
    }
}

impl PPU {
    /// Builds the pipeline over the cartridge's pattern bank, everything
    /// else cleared.
    pub fn new(pattern: Vec<u8>) -> (r: PPU)
        requires
            pattern@.len() == 0x2000,
        ensures
            r@ == ppu_init_spec(pattern@),
            r@.wf(),
    {
        let r = PPU {
            timing: PpuTiming {
                cycle: 0,
                scanline: 0,
                vram_addr: 0,
                temp_addr: 0,
                x: 0,
                oddframe: false,
                write_toggle: false,
            },
            regs: PpuRegs {
                flag_table_address: 0,
                flag_vertical_write: false,
                flag_sprite_table_address: false,
                flag_screen_table_address: false,
                flag_sprite_size: false,
                flag_vblank_enable: false,
                flag_image_mask: false,
                flag_sprite_mask: false,
                flag_screen_enable: false,
                flag_sprites_enable: false,
                flag_emphasize_red: false,
                flag_emphasize_blue: false,
                flag_emphasize_green: false,
                flag_overflow: false,
                flag_hit: false,
                flag_vblank: false,
                nmi: false,
                oamaddr: 0,
            },
            fetch: PpuFetch {
                nametablebyte: 0,
                lowtilebyte: 0,
                hightilebyte: 0,
                attributebyte: 0,
                tiledata: 0,
            },
            memory: PPUMemoryMap::new(pattern),
            oam: zero_vec(256),
            pixeldata: zero_vec(256 * 240 * 3),
        };
        proof {
            assert(r@ =~~= ppu_init_spec(pattern@));
        }
        r
    }

    /// Control port one is write-only.
    pub fn read_control_1(&self) -> (r: Result<u8, NesError>)
        ensures
            r == Err::<u8, NesError>(NesError::InvalidPortAccess { port: 0 }),
    {
        Err(NesError::InvalidPortAccess { port: 0 })
    }

    /// Control port two is write-only.
    pub fn read_control_2(&self) -> (r: Result<u8, NesError>)
        ensures
            r == Err::<u8, NesError>(NesError::InvalidPortAccess { port: 1 }),
    {
        Err(NesError::InvalidPortAccess { port: 1 })
    }

    /// Reads the packed status byte. Reading has no side effect here: the
    /// write toggle and the vertical-blank flag stay as they are, a
    /// documented simplification of the usual hardware behaviour, kept so
    /// that the rest of the core's contracts describe one consistent
    /// machine.
    pub fn read_status(&self) -> (r: u8)
        ensures
            r == status_byte_spec(self@),
    {
        (if self.regs.flag_overflow { 0x20u8 } else { 0u8 })
        | (if self.regs.flag_hit { 0x40u8 } else { 0u8 })
        | (if self.regs.flag_vblank { 0x80u8 } else { 0u8 })
    }

    /// The sprite memory address port is write-only.
    pub fn read_oamaddr(&self) -> (r: Result<u8, NesError>)
        ensures
            r == Err::<u8, NesError>(NesError::InvalidPortAccess { port: 3 }),
    {
        Err(NesError::InvalidPortAccess { port: 3 })
    }

    /// Reading sprite memory through the port was never completed.
    pub fn read_oamdata(&self) -> (r: Result<u8, NesError>)
        ensures
            r == Err::<u8, NesError>(NesError::UnimplementedPort { port: 4 }),
    {
        Err(NesError::UnimplementedPort { port: 4 })
    }

    /// The scroll port is write-only.
    pub fn read_scroll_offset(&self) -> (r: Result<u8, NesError>)
        ensures
            r == Err::<u8, NesError>(NesError::InvalidPortAccess { port: 5 }),
    {
        Err(NesError::InvalidPortAccess { port: 5 })
    }

    /// The address port is write-only.
    pub fn read_addr_offset(&self) -> (r: Result<u8, NesError>)
        ensures
            r == Err::<u8, NesError>(NesError::InvalidPortAccess { port: 6 }),
    {
        Err(NesError::InvalidPortAccess { port: 6 })
    }

    /// Reading video memory through the data port was never completed.
    pub fn read_ppudata(&self) -> (r: Result<u8, NesError>)
        ensures
            r == Err::<u8, NesError>(NesError::UnimplementedPort { port: 7 }),
    {
        Err(NesError::UnimplementedPort { port: 7 })
    }

    /// Decodes control port one into its flag fields; no other state moves.
    pub fn write_control_1(&mut self, data: u8)
        requires
            old(self)@.wf(),
        ensures
            final(self)@.wf(),
            final(self)@ == control_1_spec(old(self)@, data),
    {
        self.regs = PpuRegs {
            flag_table_address: data & 0x03,
            flag_vertical_write: (data >> 2) & 1 == 1,
            flag_sprite_table_address: (data >> 3) & 1 == 1,
            flag_screen_table_address: (data >> 4) & 1 == 1,
            flag_sprite_size: (data >> 5) & 1 == 1,
            flag_vblank_enable: (data >> 7) & 1 == 1,
            ..self.regs
        };
    }

    /// Decodes control port two into its flag fields; no other state moves.
    pub fn write_control_2(&mut self, data: u8)
        requires
            old(self)@.wf(),
        ensures
            final(self)@.wf(),
            final(self)@ == control_2_spec(old(self)@, data),
    {
        self.regs = PpuRegs {
            flag_image_mask: (data >> 1) & 1 == 1,
            flag_sprite_mask: (data >> 2) & 1 == 1,
            flag_screen_enable: (data >> 3) & 1 == 1,
            flag_sprites_enable: (data >> 4) & 1 == 1,
            flag_emphasize_red: (data >> 5) & 1 == 1,
            flag_emphasize_blue: (data >> 6) & 1 == 1,
            flag_emphasize_green: (data >> 7) & 1 == 1,
            ..self.regs
        };
    }

    /// The status port is read-only.
    pub fn write_status(&mut self, data: u8) -> (r: Result<(), NesError>)
        ensures
            *final(self) == *old(self),
            r == Err::<(), NesError>(NesError::InvalidPortAccess { port: 2 }),
    {
        let _ = data;
        Err(NesError::InvalidPortAccess { port: 2 })
    }

    /// Latches the sprite memory address.
    pub fn write_oamaddr(&mut self, data: u8)
        requires
            old(self)@.wf(),
        ensures
            final(self)@.wf(),
            final(self)@ == (PpuView { regs: PpuRegs { oamaddr: data, ..old(self)@.regs }, ..old(
                self,
            )@ }),
    {
        self.regs = PpuRegs { oamaddr: data, ..self.regs };
    }

    /// Writing sprite memory through the port was never completed.
    pub fn write_oamdata(&mut self, data: u8) -> (r: Result<(), NesError>)
        ensures
            *final(self) == *old(self),
            r == Err::<(), NesError>(NesError::UnimplementedPort { port: 4 }),
    {
        let _ = data;
        Err(NesError::UnimplementedPort { port: 4 })
    }

    /// One write of the scroll pair: horizontal scroll first, vertical
    /// second, by the write toggle.
    pub fn write_scroll_offset(&mut self, data: u8)
        requires
            old(self)@.wf(),
        ensures
            final(self)@.wf(),
            final(self)@ == scroll_write_spec(old(self)@, data),
    {
        if !self.timing.write_toggle {
            proof {
                lemma_scroll_first_bounds(self.timing.temp_addr, data);
            }
            self.timing = PpuTiming {
                temp_addr: (self.timing.temp_addr & 0xffe0) | ((data as u16) >> 3),
                x: data & 0x07,
                write_toggle: true,
                ..self.timing
            };
        } else {
            proof {
                lemma_scroll_second_bounds(self.timing.temp_addr, data);
            }
            self.timing = PpuTiming {
                temp_addr: (((self.timing.temp_addr & 0x8fff) | (((data as u16) & 0x07) << 12))
                    & 0xfc1f) | (((data as u16) & 0xf8) << 2),
                write_toggle: false,
                ..self.timing
            };
        }
    }

    /// One write of the address pair: the high six bits first, the low
    /// byte second; the second write publishes the address.
    pub fn write_addr_offset(&mut self, data: u8)
        requires
            old(self)@.wf(),
        ensures
            final(self)@.wf(),
            final(self)@ == addr_write_spec(old(self)@, data),
    {
        proof {
            lemma_addr_write_bounds(self.timing.temp_addr, data);
        }
        if !self.timing.write_toggle {
            self.timing = PpuTiming {
                temp_addr: (self.timing.temp_addr & 0x80ff) | (((data as u16) & 0x3f) << 8),
                write_toggle: true,
                ..self.timing
            };
        } else {
            let t = (self.timing.temp_addr & 0xff00) | (data as u16);
            self.timing = PpuTiming {
                temp_addr: t,
                vram_addr: t,
                write_toggle: false,
                ..self.timing
            };
        }
    }

    /// Writes through the data port to video memory at the current video
    /// address, then steps the address by 1 or 32, masked to 15 bits. On a
    /// refused address nothing moves.
    pub fn write_ppudata(&mut self, data: u8) -> (r: Result<(), NesError>)
        requires
            old(self)@.wf(),
        ensures
            final(self)@.wf(),
            evolves_to(old(self)@, final(self)@, r, ppudata_write_spec(old(self)@, data)),
    {
        let a = self.timing.vram_addr;
        let inc: u16 = if self.regs.flag_vertical_write { 32 } else { 1 };
        let stepped: u16 = a + inc;
        proof {
            lemma_mask_15_bounds(stepped);
        }
        if a <= 0x1fff {
            Err(NesError::InvalidMemoryAccess { address: a })
        } else if a <= 0x3eff {
            self.memory.vram[(a % 0x800) as usize] = data;
            self.timing = PpuTiming { vram_addr: stepped & 0x7fff, ..self.timing };
            Ok(())
        } else if a <= 0x3fff {
            self.memory.palettes[(a % 0x20) as usize] = data;
            self.timing = PpuTiming { vram_addr: stepped & 0x7fff, ..self.timing };
            Ok(())
        } else {
            Err(NesError::InvalidMemoryAccess { address: a })
        }
    }
}

/// The first scroll write keeps the composed address within 15 bits.
proof fn lemma_scroll_first_bounds(t: u16, data: u8)
    by (bit_vector)
    requires
        t < 0x8000,
    ensures
        ((t & 0xffe0) | ((data as u16) >> 3)) < 0x8000,
        data & 0x07 <= 7,
{
}

/// The second scroll write keeps the composed address within 15 bits.
proof fn lemma_scroll_second_bounds(t: u16, data: u8)
    by (bit_vector)
    requires
        t < 0x8000,
    ensures
        ((((t & 0x8fff) | (((data as u16) & 0x07) << 12)) & 0xfc1f) | (((data as u16) & 0xf8)
            << 2)) < 0x8000,
{
}

/// Both address-port writes keep the composed address within 15 bits.
proof fn lemma_addr_write_bounds(t: u16, data: u8)
    by (bit_vector)
    requires
        t < 0x8000,
    ensures
        ((t & 0x80ff) | (((data as u16) & 0x3f) << 8)) < 0x8000,
        ((t & 0xff00) | (data as u16)) < 0x8000,
{
}

/// Masking to 15 bits lands within 15 bits.
proof fn lemma_mask_15_bounds(v: u16)
    by (bit_vector)
    ensures
        (v & 0x7fff) < 0x8000,
{
}

/// One step of the background packer: shifts one more pixel's two pattern
/// bits, joined with the palette select, into the 32-bit nibble stream.
pub open spec fn pack_iter(data: u32, a: u8, lo: u8, hi: u8, n: nat) -> (u32, u8, u8)
    decreases n,
{
    if n == 0 {
        (data, lo, hi)
    } else {
        let t = pack_iter(data, a, lo, hi, (n - 1) as nat);
        (
            (t.0 << 4) | ((a | ((t.1 & 0x80) >> 7) | ((t.2 & 0x80) >> 6)) as u32),
            (t.1 << 1) as u8,
            (t.2 << 1) as u8,
        )
    }
}

/// One tick of the dot/scanline state machine: the odd-frame skip from the
/// last dot of the pre-render line when rendering, else dot plus one,
/// wrapping into the next scanline and the next frame, toggling the frame
/// parity at each wrap.
pub open spec fn tick_spec(p: PpuView) -> PpuView {
    let t = p.timing;
    if p.rendering_enabled() && t.oddframe && t.scanline == 261 && t.cycle == 339 {
        PpuView { timing: PpuTiming { cycle: 0, scanline: 0, oddframe: false, ..t }, ..p }
    } else if t.cycle >= 340 {
        if t.scanline >= 261 {
            PpuView {
                timing: PpuTiming { cycle: 0, scanline: 0, oddframe: !t.oddframe, ..t },
                ..p
            }
        } else {
            PpuView {
                timing: PpuTiming { cycle: 0, scanline: (t.scanline + 1) as u16, ..t },
                ..p
            }
        }
    } else {
        PpuView { timing: PpuTiming { cycle: (t.cycle + 1) as u16, ..t }, ..p }
    }
}

/// The vertical-blank events: the flag rises at scanline 241, dot 1 (and
/// the interrupt request with it, when enabled), and falls at scanline
/// 261, dot 1.
pub open spec fn vblank_spec(p: PpuView) -> PpuView {
    let t = p.timing;
    if t.scanline == 241 && t.cycle == 1 {
        PpuView {
            regs: PpuRegs {
                flag_vblank: true,
                nmi: p.regs.nmi || p.regs.flag_vblank_enable,
                ..p.regs
            },
            ..p
        }
    } else if t.scanline == 261 && t.cycle == 1 {
        PpuView { regs: PpuRegs { flag_vblank: false, ..p.regs }, ..p }
    } else {
        p
    }
}

/// The 4-bit palette index of the current dot, taken from the pixel
/// composition register at the slot the fine scroll selects.
pub open spec fn bg_pixel_spec(p: PpuView) -> u8 {
    (((((p.fetch.tiledata >> 32) as u32) >> (((7 - p.timing.x) * 4) as u32)) & 0x0f) as u8)
}

/// The framebuffer write of a visible dot on a visible scanline, when
/// rendering is enabled; nothing otherwise.
pub open spec fn pixel_spec(p: PpuView) -> PpuView {
    let t = p.timing;
    if p.rendering_enabled() && t.cycle >= 1 && t.cycle <= 256 && t.scanline < 240 {
        let offset = (t.scanline * 256 + t.cycle - 1) * 3;
        let c = palette_spec(bg_pixel_spec(p));
        PpuView {
            pixeldata: p.pixeldata.update(offset as int, c.0).update(offset + 1, c.1).update(
                offset + 2,
                c.2,
            ),
            ..p
        }
    } else {
        p
    }
}

/// The 8-dot tile fetch cadence on a render line: the nametable byte, the
/// attribute byte, the two pattern bytes, and the packing of a finished
/// tile into the composition register, each on its fixed dot; the register
/// shifts by one slot on every fetch dot.
pub open spec fn fetch_spec(p: PpuView) -> PpuView {
    let t = p.timing;
    let render_line = t.scanline < 240 || t.scanline == 261;
    let fetch_cycle = (t.cycle >= 1 && t.cycle <= 256) || (t.cycle >= 321 && t.cycle <= 336);
    if p.rendering_enabled() && render_line && fetch_cycle {
        let f = PpuFetch { tiledata: p.fetch.tiledata << 4, ..p.fetch };
        if t.cycle % 8 == 0 {
            let packed = pack_iter(0, f.attributebyte, f.lowtilebyte, f.hightilebyte, 8);
            PpuView {
                fetch: PpuFetch {
                    tiledata: f.tiledata | (packed.0 as u64),
                    lowtilebyte: packed.1,
                    hightilebyte: packed.2,
                    ..f
                },
                ..p
            }
        } else if t.cycle % 8 == 1 {
            let b = ppu_read_spec(p.mem, 0x2000 | (t.vram_addr & 0x0fff))->Ok_0;
            PpuView { fetch: PpuFetch { nametablebyte: b, ..f }, ..p }
        } else if t.cycle % 8 == 3 {
            let address = 0x23c0 | (t.vram_addr & 0x0c00) | ((t.vram_addr >> 4) & 0x38) | ((
            t.vram_addr >> 2) & 0x07);
            let shift = ((t.vram_addr >> 4) & 4) | (t.vram_addr & 2);
            let b = ((ppu_read_spec(p.mem, address)->Ok_0 >> shift) & 3) << 2;
            PpuView { fetch: PpuFetch { attributebyte: b, ..f }, ..p }
        } else if t.cycle % 8 == 5 {
            let fine_y = (t.vram_addr >> 12) & 7;
            let baseaddr: u16 = if p.regs.flag_screen_table_address { 0x1000 } else { 0 };
            let address = (baseaddr + (p.fetch.nametablebyte as u16) * 16 + fine_y) as u16;
            let b = ppu_read_spec(p.mem, address)->Ok_0;
            PpuView { fetch: PpuFetch { lowtilebyte: b, ..f }, ..p }
        } else if t.cycle % 8 == 7 {
            let fine_y = (t.vram_addr >> 12) & 7;
            let baseaddr: u16 = if p.regs.flag_screen_table_address { 0x1000 } else { 0 };
            let address = (baseaddr + (p.fetch.nametablebyte as u16) * 16 + fine_y) as u16;
            let b = ppu_read_spec(p.mem, (address + 8) as u16)->Ok_0;
            PpuView { fetch: PpuFetch { hightilebyte: b, ..f }, ..p }
        } else {
            PpuView { fetch: f, ..p }
        }
    } else {
        p
    }
}

/// The coarse-X increment with horizontal nametable wraparound.
pub open spec fn increment_x_spec(p: PpuView) -> PpuView {
    let v = p.timing.vram_addr;
    let v2: u16 = if (v & 0x001f) == 31 {
        (v & 0xffe0) ^ 0x0400
    } else {
        (v + 1) as u16
    };
    PpuView { timing: PpuTiming { vram_addr: v2, ..p.timing }, ..p }
}

/// The fine/coarse-Y increment with wraparound at the 30-row nametable
/// boundary, toggling the vertical nametable.
pub open spec fn increment_y_spec(p: PpuView) -> PpuView {
    let v = p.timing.vram_addr;
    let v2: u16 = if (v & 0x7000) != 0x7000 {
        (v + 0x1000) as u16
    } else {
        let v3 = v & 0x8fff;
        let y = (v3 & 0x03e0) >> 5;
        let t = if y == 29 {
            ((v3 ^ 0x0800), 0u16)
        } else if y == 31 {
            (v3, 0u16)
        } else {
            (v3, (y + 1) as u16)
        };
        (t.0 & 0xfc1f) | (t.1 << 5)
    };
    PpuView { timing: PpuTiming { vram_addr: v2, ..p.timing }, ..p }
}

/// Copies the horizontal scroll bits from the temporary address.
pub open spec fn copy_x_spec(p: PpuView) -> PpuView {
    let v2 = (p.timing.vram_addr & 0xfbe0) | (p.timing.temp_addr & 0x041f);
    PpuView { timing: PpuTiming { vram_addr: v2, ..p.timing }, ..p }
}

/// Copies the vertical scroll bits from the temporary address.
pub open spec fn copy_y_spec(p: PpuView) -> PpuView {
    let v2 = (p.timing.vram_addr & 0x841f) | (p.timing.temp_addr & 0x7be0);
    PpuView { timing: PpuTiming { vram_addr: v2, ..p.timing }, ..p }
}

/// The per-dot scroll bookkeeping: the vertical copy during the pre-render
/// window, the coarse-X step on every eighth fetch dot, the Y increment at
/// dot 256 and the horizontal copy at dot 257.
pub open spec fn scroll_spec(p: PpuView) -> PpuView {
    let t = p.timing;
    let render_line = t.scanline < 240 || t.scanline == 261;
    let fetch_cycle = (t.cycle >= 1 && t.cycle <= 256) || (t.cycle >= 321 && t.cycle <= 336);
    if p.rendering_enabled() {
        let p1 = if t.scanline == 261 && t.cycle >= 280 && t.cycle <= 304 {
            copy_y_spec(p)
        } else {
            p
        };
        let p2 = if render_line && fetch_cycle && t.cycle % 8 == 0 {
            increment_x_spec(p1)
        } else {
            p1
        };
        let p3 = if render_line && t.cycle == 256 {
            increment_y_spec(p2)
        } else {
            p2
        };
        if render_line && t.cycle == 257 {
            copy_x_spec(p3)
        } else {
            p3
        }
    } else {
        p
    }
}

/// One whole dot: the counter tick, the vertical-blank events, and, when
/// rendering is enabled, the pixel output, the fetch cadence and the
/// scroll bookkeeping, in that order.
pub open spec fn cycle_spec(p: PpuView) -> PpuView {
    scroll_spec(fetch_spec(pixel_spec(vblank_spec(tick_spec(p)))))
}

/// `n` dots, applied one after another.
pub open spec fn cycle_n_spec(p: PpuView, n: nat) -> PpuView
    decreases n,
{
    if n == 0 {
        p
    } else {
        cycle_spec(cycle_n_spec(p, (n - 1) as nat))
    }
}

impl PPU {
    /// Advances the dot and scanline counters by one tick.
    pub fn tick(&mut self)
        requires
            old(self)@.wf(),
        ensures
            final(self)@.wf(),
            final(self)@ == tick_spec(old(self)@),
    {
        let t = self.timing;
        if (self.regs.flag_screen_enable || self.regs.flag_sprites_enable) && t.oddframe
            && t.scanline == 261 && t.cycle == 339 {
            self.timing = PpuTiming { cycle: 0, scanline: 0, oddframe: false, ..t };
        } else if t.cycle >= 340 {
            if t.scanline >= 261 {
                self.timing = PpuTiming { cycle: 0, scanline: 0, oddframe: !t.oddframe, ..t };
            } else {
                self.timing = PpuTiming { cycle: 0, scanline: t.scanline + 1, ..t };
            }
        } else {
            self.timing = PpuTiming { cycle: t.cycle + 1, ..t };
        }
    }

    /// Raises and clears the vertical-blank flag at its two fixed points
    /// in the frame, raising the interrupt request when enabled.
    fn vblank_update(&mut self)
        requires
            old(self)@.wf(),
        ensures
            final(self)@.wf(),
            final(self)@ == vblank_spec(old(self)@),
    {
        if self.timing.scanline == 241 && self.timing.cycle == 1 {
            self.regs = PpuRegs {
                flag_vblank: true,
                nmi: self.regs.nmi || self.regs.flag_vblank_enable,
                ..self.regs
            };
        } else if self.timing.scanline == 261 && self.timing.cycle == 1 {
            self.regs = PpuRegs { flag_vblank: false, ..self.regs };
        }
    }

    /// The 4-bit palette index of the current dot.
    pub fn get_background_pixel(&self) -> (r: u8)
        requires
            self@.wf(),
        ensures
            r == bg_pixel_spec(self@),
            r < 16,
    {
        let data = ((self.fetch.tiledata >> 32) as u32) >> (((7 - self.timing.x) * 4) as u32);
        proof {
            lemma_low_nibble_bound(data);
        }
        (data & 0x0f) as u8
    }

    /// Writes the current dot's colour into the framebuffer when it lands
    /// on a visible pixel and rendering is enabled.
    fn draw_pixel(&mut self)
        requires
            old(self)@.wf(),
        ensures
            final(self)@.wf(),
            final(self)@ == pixel_spec(old(self)@),
    {
        let t = self.timing;
        if (self.regs.flag_screen_enable || self.regs.flag_sprites_enable) && t.cycle >= 1
            && t.cycle <= 256 && t.scanline < 240 {
            let index = self.get_background_pixel();
            let c = palette_rgb(index);
            let offset: usize = ((t.scanline as usize) * 256 + (t.cycle as usize) - 1) * 3;
            self.pixeldata[offset] = c.0;
            self.pixeldata[offset + 1] = c.1;
            self.pixeldata[offset + 2] = c.2;
        }
    }

    /// Runs the tile fetch cadence for the current dot.
    fn fetch_step(&mut self)
        requires
            old(self)@.wf(),
        ensures
            final(self)@.wf(),
            final(self)@ == fetch_spec(old(self)@),
    {
        let t = self.timing;
        let render_line = t.scanline < 240 || t.scanline == 261;
        let fetch_cycle = (t.cycle >= 1 && t.cycle <= 256) || (t.cycle >= 321 && t.cycle <= 336);
        if (self.regs.flag_screen_enable || self.regs.flag_sprites_enable) && render_line
            && fetch_cycle {
            self.fetch = PpuFetch { tiledata: self.fetch.tiledata << 4, ..self.fetch };
            if t.cycle % 8 == 0 {
                let a = self.fetch.attributebyte;
                let mut lo = self.fetch.lowtilebyte;
                let mut hi = self.fetch.hightilebyte;
                let mut data: u32 = 0;
                let ghost lo0 = lo;
                let ghost hi0 = hi;
                let mut i: usize = 0;
                while i < 8
                    invariant
                        i <= 8,
                        (data, lo, hi) == pack_iter(0, a, lo0, hi0, i as nat),
                    decreases 8 - i,
                {
                    let p1 = (lo & 0x80) >> 7;
                    let p2 = (hi & 0x80) >> 6;
                    data = (data << 4) | ((a | p1 | p2) as u32);
                    lo = lo << 1;
                    hi = hi << 1;
                    i += 1;
                }
                self.fetch = PpuFetch {
                    tiledata: self.fetch.tiledata | (data as u64),
                    lowtilebyte: lo,
                    hightilebyte: hi,
                    ..self.fetch
                };
            } else if t.cycle % 8 == 1 {
                let address = 0x2000 | (t.vram_addr & 0x0fff);
                proof {
                    lemma_nametable_addr_bound(t.vram_addr);
                }
                let b = read_ok(&self.memory, address);
                self.fetch = PpuFetch { nametablebyte: b, ..self.fetch };
            } else if t.cycle % 8 == 3 {
                let address = 0x23c0 | (t.vram_addr & 0x0c00) | ((t.vram_addr >> 4) & 0x38) | ((
                t.vram_addr >> 2) & 0x07);
                let shift = ((t.vram_addr >> 4) & 4) | (t.vram_addr & 2);
                proof {
                    lemma_attribute_addr_bound(t.vram_addr);
                }
                let b = ((read_ok(&self.memory, address) >> shift) & 3) << 2;
                self.fetch = PpuFetch { attributebyte: b, ..self.fetch };
            } else if t.cycle % 8 == 5 {
                let fine_y = (t.vram_addr >> 12) & 7;
                proof {
                    lemma_fine_y_bound(t.vram_addr);
                }
                let baseaddr: u16 = if self.regs.flag_screen_table_address { 0x1000 } else { 0 };
                let address = baseaddr + (self.fetch.nametablebyte as u16) * 16 + fine_y;
                let b = read_ok(&self.memory, address);
                self.fetch = PpuFetch { lowtilebyte: b, ..self.fetch };
            } else if t.cycle % 8 == 7 {
                let fine_y = (t.vram_addr >> 12) & 7;
                proof {
                    lemma_fine_y_bound(t.vram_addr);
                }
                let baseaddr: u16 = if self.regs.flag_screen_table_address { 0x1000 } else { 0 };
                let address = baseaddr + (self.fetch.nametablebyte as u16) * 16 + fine_y;
                let b = read_ok(&self.memory, address + 8);
                self.fetch = PpuFetch { hightilebyte: b, ..self.fetch };
            }
        }
    }

    /// Steps coarse X.
    pub fn increment_x(&mut self)
        requires
            old(self)@.wf(),
        ensures
            final(self)@.wf(),
            final(self)@ == increment_x_spec(old(self)@),
    {
        let v = self.timing.vram_addr;
        proof {
            lemma_increment_x_bound(v);
        }
        if (v & 0x001f) == 31 {
            self.timing = PpuTiming { vram_addr: (v & 0xffe0) ^ 0x0400, ..self.timing };
        } else {
            self.timing = PpuTiming { vram_addr: v + 1, ..self.timing };
        }
    }

    /// Steps fine and coarse Y.
    pub fn increment_y(&mut self)
        requires
            old(self)@.wf(),
        ensures
            final(self)@.wf(),
            final(self)@ == increment_y_spec(old(self)@),
    {
        let v = self.timing.vram_addr;
        proof {
            lemma_increment_y_bound(v);
        }
        if (v & 0x7000) != 0x7000 {
            self.timing = PpuTiming { vram_addr: v + 0x1000, ..self.timing };
        } else {
            let v3 = v & 0x8fff;
            let y = (v3 & 0x03e0) >> 5;
            let (v4, y2): (u16, u16) = if y == 29 {
                (v3 ^ 0x0800, 0)
            } else if y == 31 {
                (v3, 0)
            } else {
                (v3, y + 1)
            };
            self.timing = PpuTiming { vram_addr: (v4 & 0xfc1f) | (y2 << 5), ..self.timing };
        }
    }

    /// Copies the horizontal scroll bits from the temporary address.
    pub fn copy_x(&mut self)
        requires
            old(self)@.wf(),
        ensures
            final(self)@.wf(),
            final(self)@ == copy_x_spec(old(self)@),
    {
        proof {
            lemma_copy_bounds(self.timing.vram_addr, self.timing.temp_addr);
        }
        self.timing = PpuTiming {
            vram_addr: (self.timing.vram_addr & 0xfbe0) | (self.timing.temp_addr & 0x041f),
            ..self.timing
        };
    }

    /// Copies the vertical scroll bits from the temporary address.
    pub fn copy_y(&mut self)
        requires
            old(self)@.wf(),
        ensures
            final(self)@.wf(),
            final(self)@ == copy_y_spec(old(self)@),
    {
        proof {
            lemma_copy_bounds(self.timing.vram_addr, self.timing.temp_addr);
        }
        self.timing = PpuTiming {
            vram_addr: (self.timing.vram_addr & 0x841f) | (self.timing.temp_addr & 0x7be0),
            ..self.timing
        };
    }

    /// The scroll bookkeeping of the current dot.
    fn scroll_step(&mut self)
        requires
            old(self)@.wf(),
        ensures
            final(self)@.wf(),
            final(self)@ == scroll_spec(old(self)@),
    {
        let t = self.timing;
        let render_line = t.scanline < 240 || t.scanline == 261;
        let fetch_cycle = (t.cycle >= 1 && t.cycle <= 256) || (t.cycle >= 321 && t.cycle <= 336);
        if self.regs.flag_screen_enable || self.regs.flag_sprites_enable {
            if t.scanline == 261 && t.cycle >= 280 && t.cycle <= 304 {
                self.copy_y();
            }
            if render_line && fetch_cycle && t.cycle % 8 == 0 {
                self.increment_x();
            }
            if render_line && t.cycle == 256 {
                self.increment_y();
            }
            if render_line && t.cycle == 257 {
                self.copy_x();
            }
        }
    }

    /// Advances the pipeline by one dot.
    pub fn cycle(&mut self)
        requires
            old(self)@.wf(),
        ensures
            final(self)@.wf(),
            final(self)@ == cycle_spec(old(self)@),
    {
        self.tick();
        self.vblank_update();
        self.draw_pixel();
        self.fetch_step();
        self.scroll_step();
    }

    /// Advances the pipeline by `cycles` dots, one at a time.
    pub fn step(&mut self, cycles: u8)
        requires
            old(self)@.wf(),
        ensures
            final(self)@.wf(),
            final(self)@ == cycle_n_spec(old(self)@, cycles as nat),
    {
        let mut i: u8 = 0;
        while i < cycles
            invariant
                i <= cycles,
                self@.wf(),
                self@ == cycle_n_spec(old(self)@, i as nat),
            decreases cycles - i,
        {
            self.cycle();
            i += 1;
        }
    }
}

/// Reads video memory at an address known to lie inside the video space.
fn read_ok(m: &PPUMemoryMap, address: u16) -> (r: u8)
    requires
        m@.wf(),
        address <= 0x3fff,
    ensures
        r == ppu_read_spec(m@, address)->Ok_0,
{
    match m.read(address) {
        Ok(b) => b,
        Err(_) => 0,
    }
}

/// The fixed 64-entry hardware palette, as red, green and blue bytes.
pub open spec fn palette_spec(index: u8) -> (u8, u8, u8) {
    match index {
        0 => (0x7c, 0x7c, 0x7c),
        1 => (0x00, 0x00, 0xfc),
        2 => (0x00, 0x00, 0xbc),
        3 => (0x44, 0x28, 0xbc),
        4 => (0x94, 0x00, 0x84),
        5 => (0xa8, 0x00, 0x20),
        6 => (0xa8, 0x10, 0x00),
        7 => (0x88, 0x14, 0x00),
        8 => (0x50, 0x30, 0x00),
        9 => (0x00, 0x78, 0x00),
        10 => (0x00, 0x68, 0x00),
        11 => (0x00, 0x58, 0x00),
        12 => (0x00, 0x40, 0x58),
        13 => (0x00, 0x00, 0x00),
        14 => (0x00, 0x00, 0x00),
        15 => (0x00, 0x00, 0x00),
        16 => (0xbc, 0xbc, 0xbc),
        17 => (0x00, 0x78, 0xf8),
        18 => (0x00, 0x58, 0xf8),
        19 => (0x68, 0x44, 0xfc),
        20 => (0xd8, 0x00, 0xcc),
        21 => (0xe4, 0x00, 0x58),
        22 => (0xf8, 0x38, 0x00),
        23 => (0xe4, 0x5c, 0x10),
        24 => (0xac, 0x7c, 0x00),
        25 => (0x00, 0xb8, 0x00),
        26 => (0x00, 0xa8, 0x00),
        27 => (0x00, 0xa8, 0x44),
        28 => (0x00, 0x88, 0x88),
        29 => (0x00, 0x00, 0x00),
        30 => (0x00, 0x00, 0x00),
        31 => (0x00, 0x00, 0x00),
        32 => (0xf8, 0xf8, 0xf8),
        33 => (0x3c, 0xbc, 0xfc),
        34 => (0x68, 0x88, 0xfc),
        35 => (0x98, 0x78, 0xf8),
        36 => (0xf8, 0x78, 0xf8),
        37 => (0xf8, 0x58, 0x98),
        38 => (0xf8, 0x78, 0x58),
        39 => (0xfc, 0xa0, 0x44),
        40 => (0xf8, 0xb8, 0x00),
        41 => (0xb8, 0xf8, 0x18),
        42 => (0x58, 0xd8, 0x54),
        43 => (0x58, 0xf8, 0x98),
        44 => (0x00, 0xe8, 0xd8),
        45 => (0x78, 0x78, 0x78),
        46 => (0x00, 0x00, 0x00),
        47 => (0x00, 0x00, 0x00),
        48 => (0xfc, 0xfc, 0xfc),
        49 => (0xa4, 0xe4, 0xfc),
        50 => (0xb8, 0xb8, 0xf8),
        51 => (0xd8, 0xb8, 0xf8),
        52 => (0xf8, 0xb8, 0xf8),
        53 => (0xf8, 0xa4, 0xc0),
        54 => (0xf0, 0xd0, 0xb0),
        55 => (0xfc, 0xe0, 0xa8),
        56 => (0xf8, 0xd8, 0x78),
        57 => (0xd8, 0xf8, 0x78),
        58 => (0xb8, 0xf8, 0xb8),
        59 => (0xb8, 0xf8, 0xd8),
        60 => (0x00, 0xfc, 0xfc),
        61 => (0xf8, 0xd8, 0xf8),
        62 => (0x00, 0x00, 0x00),
        63 => (0x00, 0x00, 0x00),
        _ => (0, 0, 0),
    }
}

/// Looks a palette index up in the fixed hardware palette.
pub fn palette_rgb(index: u8) -> (r: (u8, u8, u8))
    ensures
        r == palette_spec(index),
{
    match index {
        0 => (0x7c, 0x7c, 0x7c),
        1 => (0x00, 0x00, 0xfc),
        2 => (0x00, 0x00, 0xbc),
        3 => (0x44, 0x28, 0xbc),
        4 => (0x94, 0x00, 0x84),
        5 => (0xa8, 0x00, 0x20),
        6 => (0xa8, 0x10, 0x00),
        7 => (0x88, 0x14, 0x00),
        8 => (0x50, 0x30, 0x00),
        9 => (0x00, 0x78, 0x00),
        10 => (0x00, 0x68, 0x00),
        11 => (0x00, 0x58, 0x00),
        12 => (0x00, 0x40, 0x58),
        13 => (0x00, 0x00, 0x00),
        14 => (0x00, 0x00, 0x00),
        15 => (0x00, 0x00, 0x00),
        16 => (0xbc, 0xbc, 0xbc),
        17 => (0x00, 0x78, 0xf8),
        18 => (0x00, 0x58, 0xf8),
        19 => (0x68, 0x44, 0xfc),
        20 => (0xd8, 0x00, 0xcc),
        21 => (0xe4, 0x00, 0x58),
        22 => (0xf8, 0x38, 0x00),
        23 => (0xe4, 0x5c, 0x10),
        24 => (0xac, 0x7c, 0x00),
        25 => (0x00, 0xb8, 0x00),
        26 => (0x00, 0xa8, 0x00),
        27 => (0x00, 0xa8, 0x44),
        28 => (0x00, 0x88, 0x88),
        29 => (0x00, 0x00, 0x00),
        30 => (0x00, 0x00, 0x00),
        31 => (0x00, 0x00, 0x00),
        32 => (0xf8, 0xf8, 0xf8),
        33 => (0x3c, 0xbc, 0xfc),
        34 => (0x68, 0x88, 0xfc),
        35 => (0x98, 0x78, 0xf8),
        36 => (0xf8, 0x78, 0xf8),
        37 => (0xf8, 0x58, 0x98),
        38 => (0xf8, 0x78, 0x58),
        39 => (0xfc, 0xa0, 0x44),
        40 => (0xf8, 0xb8, 0x00),
        41 => (0xb8, 0xf8, 0x18),
        42 => (0x58, 0xd8, 0x54),
        43 => (0x58, 0xf8, 0x98),
        44 => (0x00, 0xe8, 0xd8),
        45 => (0x78, 0x78, 0x78),
        46 => (0x00, 0x00, 0x00),
        47 => (0x00, 0x00, 0x00),
        48 => (0xfc, 0xfc, 0xfc),
        49 => (0xa4, 0xe4, 0xfc),
        50 => (0xb8, 0xb8, 0xf8),
        51 => (0xd8, 0xb8, 0xf8),
        52 => (0xf8, 0xb8, 0xf8),
        53 => (0xf8, 0xa4, 0xc0),
        54 => (0xf0, 0xd0, 0xb0),
        55 => (0xfc, 0xe0, 0xa8),
        56 => (0xf8, 0xd8, 0x78),
        57 => (0xd8, 0xf8, 0x78),
        58 => (0xb8, 0xf8, 0xb8),
        59 => (0xb8, 0xf8, 0xd8),
        60 => (0x00, 0xfc, 0xfc),
        61 => (0xf8, 0xd8, 0xf8),
        62 => (0x00, 0x00, 0x00),
        63 => (0x00, 0x00, 0x00),
        _ => (0, 0, 0),
    }
}

/// The selected nibble of the composition register is below 16.
proof fn lemma_low_nibble_bound(data: u32)
    by (bit_vector)
    ensures
        (data & 0x0f) < 16,
{
}

/// A nametable fetch lands inside the video space.
proof fn lemma_nametable_addr_bound(v: u16)
    by (bit_vector)
    ensures
        (0x2000 | (v & 0x0fff)) <= 0x3fff,
{
}

/// An attribute fetch lands inside the video space, and its shift amount
/// stays below the byte width.
proof fn lemma_attribute_addr_bound(v: u16)
    by (bit_vector)
    ensures
        (0x23c0 | (v & 0x0c00) | ((v >> 4) & 0x38) | ((v >> 2) & 0x07)) <= 0x3fff,
        (((v >> 4) & 4) | (v & 2)) < 8,
{
}

/// The fine-Y bits stay below 8, so a pattern fetch lands inside pattern
/// memory.
proof fn lemma_fine_y_bound(v: u16)
    by (bit_vector)
    ensures
        ((v >> 12) & 7) <= 7,
{
}

/// The coarse-X step keeps the video address within 15 bits.
proof fn lemma_increment_x_bound(v: u16)
    by (bit_vector)
    requires
        v < 0x8000,
    ensures
        ((v & 0xffe0) ^ 0x0400) < 0x8000,
        (v & 0x001f) != 31 ==> v + 1 < 0x8000,
{
}

/// The Y step keeps the video address within 15 bits.
proof fn lemma_increment_y_bound(v: u16)
    by (bit_vector)
    requires
        v < 0x8000,
    ensures
        (((v & 0x8fff) & 0x03e0) >> 5) <= 31,
        (v & 0x7000) != 0x7000 ==> v + 0x1000 < 0x8000,
        (((v & 0x8fff) ^ 0x0800) & 0xfc1f) | (0u16 << 5) < 0x8000,
        ((v & 0x8fff) & 0xfc1f) | (0u16 << 5) < 0x8000,
        forall|y2: u16|
            y2 <= 31 ==> (((v & 0x8fff) & 0xfc1f) | (y2 << 5)) < 0x8000 && ((((v & 0x8fff)
                ^ 0x0800) & 0xfc1f) | (y2 << 5)) < 0x8000,
{
}

/// The scroll copies keep the video address within 15 bits.
proof fn lemma_copy_bounds(v: u16, t: u16)
    by (bit_vector)
    requires
        v < 0x8000,
        t < 0x8000,
    ensures
        ((v & 0xfbe0) | (t & 0x041f)) < 0x8000,
        ((v & 0x841f) | (t & 0x7be0)) < 0x8000,
{
}

/// The vertical-blank law: after any dot, the flag has just risen exactly
/// when the counters stand at scanline 241, dot 1 (with the interrupt
/// request raised exactly when it was enabled), has just fallen exactly at
/// scanline 261, dot 1, and is untouched at every other dot; the interrupt
/// request is never cleared by the pipeline itself.
/// The pixel, fetch and scroll stages never touch the register flags nor
/// the dot and scanline counters.
proof fn lemma_render_stages_frame(p: PpuView)
    ensures
        pixel_spec(p).regs == p.regs,
        fetch_spec(p).regs == p.regs,
        scroll_spec(p).regs == p.regs,
        pixel_spec(p).timing == p.timing,
        fetch_spec(p).timing == p.timing,
        scroll_spec(p).timing.cycle == p.timing.cycle,
        scroll_spec(p).timing.scanline == p.timing.scanline,
{
}

pub proof fn lemma_vblank_transitions(p: PpuView)
    ensures
        (cycle_spec(p).timing.scanline == 241 && cycle_spec(p).timing.cycle == 1) ==> (cycle_spec(
            p,
        ).regs.flag_vblank && cycle_spec(p).regs.nmi == (p.regs.nmi
            || p.regs.flag_vblank_enable)),
        (cycle_spec(p).timing.scanline == 261 && cycle_spec(p).timing.cycle == 1) ==> (!cycle_spec(
            p,
        ).regs.flag_vblank && cycle_spec(p).regs.nmi == p.regs.nmi),
        !(cycle_spec(p).timing.cycle == 1 && (cycle_spec(p).timing.scanline == 241 || cycle_spec(
            p,
        ).timing.scanline == 261)) ==> (cycle_spec(p).regs.flag_vblank == p.regs.flag_vblank
            && cycle_spec(p).regs.nmi == p.regs.nmi),
{
    let q1 = tick_spec(p);
    let q2 = vblank_spec(q1);
    let q3 = pixel_spec(q2);
    let q4 = fetch_spec(q3);
    let q5 = scroll_spec(q4);
    lemma_render_stages_frame(q2);
    lemma_render_stages_frame(q3);
    lemma_render_stages_frame(q4);
    assert(q5.regs == q2.regs);
    assert(q5.timing.cycle == q1.timing.cycle && q5.timing.scanline == q1.timing.scanline);
    assert(cycle_spec(p) == q5);
}

/// With rendering disabled, a dot only moves the counters and the
/// vertical-blank state: the flag fields that enable rendering are never
/// touched by the pipeline itself, and the counters follow the plain tick.
pub proof fn lemma_cycle_disabled(p: PpuView)
    requires
        !p.rendering_enabled(),
    ensures
        cycle_spec(p).timing == tick_spec(p).timing,
        !cycle_spec(p).rendering_enabled(),
        cycle_spec(p).timing.oddframe == p.timing.oddframe || (p.timing.cycle >= 340
            && p.timing.scanline >= 261),
{
    let q1 = tick_spec(p);
    let q2 = vblank_spec(q1);
    assert(!q2.rendering_enabled());
    assert(pixel_spec(q2) == q2);
    assert(fetch_spec(q2) == q2);
    assert(scroll_spec(q2) == q2);
}

/// The counter-bound law: a dot never carries the counters past dot 340
/// or scanline 261.
pub proof fn lemma_counters_never_exceed(p: PpuView)
    requires
        p.timing.cycle <= 340,
        p.timing.scanline <= 261,
    ensures
        cycle_spec(p).timing.cycle <= 340,
        cycle_spec(p).timing.scanline <= 261,
{
    let q1 = tick_spec(p);
    let q2 = vblank_spec(q1);
    lemma_render_stages_frame(q2);
    lemma_render_stages_frame(pixel_spec(q2));
    lemma_render_stages_frame(fetch_spec(pixel_spec(q2)));
}

/// Splitting a run of dots: `m + k` dots from `p` land where `k` dots from
/// the state after `m` dots land.
pub proof fn lemma_cycle_n_add(p: PpuView, m: nat, k: nat)
    ensures
        cycle_n_spec(p, m + k) == cycle_n_spec(cycle_n_spec(p, m), k),
    decreases k,
{
    if k > 0 {
        lemma_cycle_n_add(p, m, (k - 1) as nat);
    }
}

/// With rendering disabled, `d` dots from the start of a scanline walk the
/// dot counter to `d` and touch nothing else in the timing.
proof fn lemma_line_advance(p: PpuView, d: nat)
    requires
        !p.rendering_enabled(),
        p.timing.cycle == 0,
        d <= 340,
    ensures
        cycle_n_spec(p, d).timing == (PpuTiming { cycle: d as u16, ..p.timing }),
        !cycle_n_spec(p, d).rendering_enabled(),
    decreases d,
{
    if d > 0 {
        lemma_line_advance(p, (d - 1) as nat);
        lemma_cycle_disabled(cycle_n_spec(p, (d - 1) as nat));
    }
}

/// With rendering disabled, one whole scanline of 341 dots returns the dot
/// counter to zero and advances the scanline, wrapping to zero past the
/// last line of the frame, toggling the frame parity exactly at the wrap.
proof fn lemma_whole_line(p: PpuView)
    requires
        !p.rendering_enabled(),
        p.timing.cycle == 0,
    ensures
        cycle_n_spec(p, 341).timing == (PpuTiming {
            cycle: 0,
            scanline: if p.timing.scanline >= 261 { 0u16 } else { (p.timing.scanline + 1) as u16 },
            oddframe: if p.timing.scanline >= 261 { !p.timing.oddframe } else { p.timing.oddframe },
            ..p.timing
        }),
        !cycle_n_spec(p, 341).rendering_enabled(),
{
    lemma_line_advance(p, 340);
    let q = cycle_n_spec(p, 340);
    lemma_cycle_disabled(q);
    assert(cycle_n_spec(p, 341) == cycle_spec(q));
}

/// With rendering disabled, `l` whole scanlines from the top of a frame
/// put the counters at the start of scanline `l`, parity untouched.
proof fn lemma_frame_advance(p: PpuView, l: nat)
    requires
        !p.rendering_enabled(),
        p.timing.cycle == 0,
        p.timing.scanline == 0,
        l <= 261,
    ensures
        cycle_n_spec(p, l * 341).timing == (PpuTiming {
            cycle: 0,
            scanline: l as u16,
            ..p.timing
        }),
        !cycle_n_spec(p, l * 341).rendering_enabled(),
    decreases l,
{
    if l > 0 {
        lemma_frame_advance(p, (l - 1) as nat);
        let q = cycle_n_spec(p, ((l - 1) * 341) as nat);
        lemma_whole_line(q);
        lemma_cycle_n_add(p, ((l - 1) * 341) as nat, 341);
        assert((l - 1) * 341 + 341 == l * 341) by (nonlinear_arith);
    }
}

/// The frame-period law: with rendering disabled, exactly 341 by 262 dots
/// from the top-left corner of a frame bring the counters back to the
/// top-left corner, with the frame parity toggled exactly once (at the
/// final wrap), and rendering still disabled.
pub proof fn lemma_frame_roundtrip(p: PpuView)
    requires
        !p.rendering_enabled(),
        p.timing.cycle == 0,
        p.timing.scanline == 0,
    ensures
        cycle_n_spec(p, 341 * 262).timing == (PpuTiming {
            oddframe: !p.timing.oddframe,
            ..p.timing
        }),
        forall|l: nat|
            l <= 261 ==> #[trigger] cycle_n_spec(p, l * 341).timing.oddframe
                == p.timing.oddframe,
{
    lemma_frame_advance(p, 261);
    let q = cycle_n_spec(p, 261 * 341);
    lemma_whole_line(q);
    lemma_cycle_n_add(p, 261 * 341, 341);
    assert(261 * 341 + 341 == 341 * 262) by (nonlinear_arith);
    assert forall|l: nat| l <= 261 implies #[trigger] cycle_n_spec(p, l * 341).timing.oddframe
        == p.timing.oddframe by {
        lemma_frame_advance(p, l);
    }
}

} // verus!
