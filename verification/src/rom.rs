//! A thin view over an iNES image: the 16-byte header and the PRG-ROM slice.

use vstd::prelude::*;

verus! {

/// The header fields the recompiler consumes: byte 4, the PRG-ROM chunk
/// count in 16 KiB units.
pub struct Header {
    pub prg_rom_chunks: u8,
}

impl Header {
    pub fn from_bytes(bytes: &[u8]) -> (r: Header)
        requires
            bytes@.len() >= 0x10,
        ensures
            r.prg_rom_chunks == bytes@[4],
    {
        Header { prg_rom_chunks: *vstd::slice::slice_index_get(bytes, 4) }
    }
}

/// A whole iNES image together with its parsed header.
pub struct Rom {
    pub bytes: Vec<u8>,
    pub header: Header,
}

impl Rom {
    /// The image is large enough to hold the header and as many PRG-ROM
    /// chunks as the header announces.
    pub open spec fn wf(self) -> bool {
        &&& self.bytes@.len() >= 0x10
        &&& self.header.prg_rom_chunks == self.bytes@[4]
        &&& self.bytes@.len() >= 0x10 + self.bytes@[4] * 0x4000
    }

    pub fn from_bytes_with_header(bytes: Vec<u8>) -> (r: Rom)
        requires
            bytes@.len() >= 0x10,
            bytes@.len() >= 0x10 + bytes@[4] * 0x4000,
        ensures
            r.wf(),
            r.bytes == bytes,
    {
        let header = Header::from_bytes(bytes.as_slice());
        Rom { bytes, header }
    }

    /// The PRG-ROM slice: the bytes after the header, 16 KiB per chunk.
    pub fn prg_rom(&self) -> (r: &[u8])
        requires
            self.wf(),
        ensures
            r@ == self.bytes@.subrange(0x10, 0x10 + self.bytes@[4] * 0x4000),
    {
        let len: usize = (self.header.prg_rom_chunks as usize) * 0x4000;
        vstd::slice::slice_subrange(self.bytes.as_slice(), 0x10, 0x10 + len)
    }
}

} // verus!
