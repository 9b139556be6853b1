//! Entries of the game's archive files.
use vstd::prelude::*;

verus! {

/// Where one file lies in an archive, and how it is stored.
#[derive(Debug, Clone)]
pub struct WadFileInfo {
    pub name: String,
    pub offset: usize,
    pub size: usize,
    pub is_zip: bool,
    pub crc: i32,
    pub unzipped_size: usize,
}

impl WadFileInfo {
    /// An entry with the given fields.
    pub fn new(name: String, offset: usize, size: usize, is_zip: bool, crc: i32, unzipped_size: usize) -> (r: Self)
        ensures
            r.name@ == name@,
            r.offset == offset,
            r.size == size,
            r.is_zip == is_zip,
            r.crc == crc,
            r.unzipped_size == unzipped_size,
    {
        WadFileInfo { name, offset, size, is_zip, crc, unzipped_size }
    }
}

} // verus!
