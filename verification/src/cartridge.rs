use vstd::prelude::*;

use crate::errors::NesError;
use crate::ines::INesInfo;

verus! {

/// The fixed-mapping cartridge: 16 KiB of program memory (mirrored across
/// the upper half of the processor's address space) and 8 KiB of pattern
/// memory read by the video pipeline. No bank switching.
pub struct Cartridge {
    pub prg: Vec<u8>,
    pub chr: Vec<u8>,
}

/// The mathematical content of the cartridge.
#[verifier::ext_equal]
pub ghost struct CartView {
    pub prg: Seq<u8>,
    pub chr: Seq<u8>,
}

impl View for Cartridge {
    type V = CartView;

    open spec fn view(&self) -> CartView {
        CartView { prg: self.prg@, chr: self.chr@ }
    }
}

impl CartView {
    /// A well-formed cartridge holds exactly one program bank and one
    /// pattern bank.
    pub open spec fn wf(self) -> bool {
        self.prg.len() == 0x4000 && self.chr.len() == 0x2000
    }
}

impl Cartridge {
    /// A well-formed cartridge holds exactly one program bank and one
    /// pattern bank.
    pub open spec fn wf(self) -> bool {
        self@.wf()
    }

    /// Wraps a parsed image. Only the fixed-mapping layout (one 16 KiB
    /// program bank, one 8 KiB pattern bank) is supported; anything else
    /// is refused rather than mapped wrongly.
    pub fn new(rominfo: INesInfo) -> (r: Result<Cartridge, NesError>)
        ensures
            rominfo.prgrom@.len() == 0x4000 && rominfo.chrrom@.len() == 0x2000
                ==> (r matches Ok(c) && c.prg == rominfo.prgrom && c.chr == rominfo.chrrom
                        && c.wf()),
            !(rominfo.prgrom@.len() == 0x4000 && rominfo.chrrom@.len() == 0x2000)
                ==> r == Err::<Cartridge, NesError>(NesError::UnsupportedCartridge),
    {
        if rominfo.prgrom.len() == 0x4000 && rominfo.chrrom.len() == 0x2000 {
            Ok(Cartridge { prg: rominfo.prgrom, chr: rominfo.chrrom })
        } else {
            Err(NesError::UnsupportedCartridge)
        }
    }

    /// Reads one byte of program memory at the given offset from the start
    /// of the program window; the single bank repeats every 16 KiB.
    pub fn read(&self, addr: u16) -> (r: u8)
        requires
            self.wf(),
        ensures
            r == self.prg@[(addr % 0x4000) as int],
    {
        self.prg[(addr % 0x4000) as usize]
    }

    /// Program memory is not writable on this cartridge; every write is an
    /// invalid memory access.
    pub fn write(&mut self, data: u8, addr: u16) -> (r: Result<(), NesError>)
        ensures
            *final(self) == *old(self),
            r == Err::<(), NesError>(NesError::InvalidMemoryAccess { address: addr }),
    {
        let _ = data;
        Err(NesError::InvalidMemoryAccess { address: addr })
    }
}

} // verus!
