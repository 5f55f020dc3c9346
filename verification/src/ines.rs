use vstd::prelude::*;

use crate::errors::NesError;

verus! {

/// True when the byte sequence begins with the cartridge-image magic number.
pub open spec fn header_ok(s: Seq<u8>) -> bool {
    s.len() >= 4 && s[0] == 0x4e && s[1] == 0x45 && s[2] == 0x53 && s[3] == 0x1a
}

/// The program-memory size in bytes named by the header: 16 KiB units.
pub open spec fn prg_bytes(units: u8) -> int {
    0x4000 * units
}

/// A cartridge image split into its header-declared regions.
pub struct INesInfo {
    pub prgunits: u8,
    pub chrunits: u8,
    pub prgrom: Vec<u8>,
    pub chrrom: Vec<u8>,
}

/// What a well-formed parse of `s` yields: the program region is the
/// header-declared number of bytes after the 16-byte header, and the pattern
/// region is everything that follows it.
pub open spec fn parse_ok(s: Seq<u8>, info: INesInfo) -> bool {
    &&& info.prgunits == s[4]
    &&& info.chrunits == s[5]
    &&& info.prgrom@ == s.subrange(16, 16 + prg_bytes(s[4]))
    &&& info.chrrom@ == s.subrange(16 + prg_bytes(s[4]), s.len() as int)
}

impl INesInfo {
    /// Parses a cartridge image held as bytes. The byte source (a file, a
    /// network stream) is the caller's business; the format is ours.
    pub fn new(data: Vec<u8>) -> (r: Result<INesInfo, NesError>)
        ensures
            !(header_ok(data@) && data@.len() >= 16 + prg_bytes(data@[4]))
                ==> r == Err::<INesInfo, NesError>(NesError::MalformedImage),
            (header_ok(data@) && data@.len() >= 16 + prg_bytes(data@[4]))
                ==> (r matches Ok(info) && parse_ok(data@, info)),
    {
        if !check_header(&data) {
            return Err(NesError::MalformedImage);
        }
        if data.len() < 16 {
            return Err(NesError::MalformedImage);
        }
        let prgunits = data[4];
        let chrunits = data[5];
        let prgsize: usize = 0x4000 * (prgunits as usize);
        if data.len() - 16 < prgsize {
            return Err(NesError::MalformedImage);
        }
        let prgrom = copy_range(&data, 16, 16 + prgsize);
        let chrrom = copy_range(&data, 16 + prgsize, data.len());
        Ok(INesInfo { prgunits, chrunits, prgrom, chrrom })
    }
}

/// True when the image begins with the magic number `NES` followed by 0x1A.
pub fn check_header(file: &Vec<u8>) -> (r: bool)
    ensures
        r == header_ok(file@),
{
    file.len() >= 4 && file[0] == 0x4e && file[1] == 0x45 && file[2] == 0x53 && file[3] == 0x1a
}

/// Copies `data[start..end]` into a fresh vector.
fn copy_range(data: &Vec<u8>, start: usize, end: usize) -> (r: Vec<u8>)
    requires
        start <= end <= data@.len(),
    ensures
        r@ == data@.subrange(start as int, end as int),
{
    let mut out: Vec<u8> = Vec::new();
    let mut i: usize = start;
    while i < end
        invariant
            start <= i <= end <= data@.len(),
            out@ == data@.subrange(start as int, i as int),
        decreases end - i,
    {
        out.push(data[i]);
        proof {
            assert(out@ =~= data@.subrange(start as int, (i + 1) as int));
        }
        i += 1;
    }
    out
}

} // verus!
