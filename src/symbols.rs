//! Export tables of module images, the cache of them, and symbol addresses in
//! the live process.
use vstd::prelude::*;
use pelite::pe64::{Pe, PeFile};
use pelite::pe64::exports::Export;
use crate::access::ModuleInfo;
use crate::error::MemoryError;
use crate::names::NameMap;

verus! {

/// Exported symbol names of one module, each with its offset from the
/// module's base address.
pub type SymbolTable = NameMap<u32>;

/// A named export of a module image: its offset from the module's base, or
/// none where the export is forwarded to another module.
pub struct NamedExport {
    pub name: String,
    pub offset: Option<u32>,
}

/// The named exports of a PE32+ image, in the order of its name table; none
/// when the bytes are not such an image with an export directory, or a name
/// is not valid UTF-8.
pub uninterp spec fn pe_named_exports(image: Seq<u8>) -> Option<Seq<(Seq<char>, Option<u32>)>>;

/// The exports `exports` as names and offsets.
pub open spec fn exports_view(exports: Seq<NamedExport>) -> Seq<(Seq<char>, Option<u32>)> {
    exports.map_values(|e: NamedExport| (e.name@, e.offset))
}

#[verifier::external_type_specification]
#[verifier::external_body]
pub struct ExPeError(pelite::Error);

/// The little-endian 32-bit number at `at` in `bytes`.
pub open spec fn le_u32(bytes: Seq<u8>, at: int) -> int {
    bytes[at] + bytes[at + 1] * 0x100 + bytes[at + 2] * 0x1_0000 + bytes[at + 3] * 0x100_0000
}

/// Offset of the export directory's entry in a PE32+ image, from the start
/// of its NT headers: signature, file header, then 112 bytes of the optional
/// header precede it.
pub const EXPORT_ENTRY_OFFSET: u64 = 136;

/// The image is long enough to hold the export directory's entry where its
/// DOS header points, and that entry's address and size sum to a 32-bit
/// number.
pub open spec fn export_entry_fits(image: Seq<u8>) -> bool {
    &&& image.len() >= 0x40
    &&& le_u32(image, 0x3C) + EXPORT_ENTRY_OFFSET + 8 <= image.len()
    &&& le_u32(image, le_u32(image, 0x3C) + EXPORT_ENTRY_OFFSET) + le_u32(
        image,
        le_u32(image, 0x3C) + EXPORT_ENTRY_OFFSET + 4,
    ) <= 0xFFFF_FFFF
}

fn read_le_u32(bytes: &[u8], at: usize) -> (r: u64)
    requires
        at + 4 <= bytes@.len(),
    ensures
        r == le_u32(bytes@, at as int),
        r <= 0xFFFF_FFFF,
{
    bytes[at] as u64 + bytes[at + 1] as u64 * 0x100 + bytes[at + 2] as u64 * 0x1_0000 + bytes[at + 3] as u64
        * 0x100_0000
}

/// Whether the export directory's entry can be read and its end is a 32-bit
/// address: an image where it is not is malformed.
pub fn export_entry_checked(image: &[u8]) -> (r: bool)
    ensures
        r == export_entry_fits(image@),
{
    if image.len() < 0x40 {
        return false;
    }
    let nt = read_le_u32(image, 0x3C);
    if nt + EXPORT_ENTRY_OFFSET + 8 > image.len() as u64 {
        return false;
    }
    let entry = (nt + EXPORT_ENTRY_OFFSET) as usize;
    read_le_u32(image, entry) + read_le_u32(image, entry + 4) <= 0xFFFF_FFFF
}

/// Relies on pelite's PE32+ reader: `PeFile::from_bytes` validates the
/// headers, `exports().by()` reads the export directory, and `iter_names`
/// yields each named export, a symbol with its offset or a forward. The
/// reader also refuses a buffer that does not start on a 4-byte boundary in
/// memory, so a valid image is not promised to parse. Telling a forward from
/// a symbol adds the export directory's address and size as 32-bit numbers,
/// which must not overflow: `requires` asks for that.
#[verifier::external_body]
pub(crate) fn named_exports(image: &[u8]) -> (r: Result<Vec<NamedExport>, pelite::Error>)
    requires
        export_entry_fits(image@),
    ensures
        r matches Ok(v) ==> pe_named_exports(image@) == Some(exports_view(v@)),
        pe_named_exports(image@) is None ==> r is Err,
{
    let by = PeFile::from_bytes(image)?.exports()?.by()?;
    let mut out = Vec::new();
    for (name, export) in by.iter_names() {
        let offset = match export? {
            Export::Symbol(&rva) => Some(rva),
            Export::Forward(_) => None,
        };
        let name = match name?.to_str() {
            Ok(name) => name.to_string(),
            Err(_) => return Err(pelite::Error::Encoding),
        };
        out.push(NamedExport { name, offset });
    }
    Ok(out)
}

/// The symbol table that a list of exports gives: each export with an
/// offset, a later one of the same name replacing an earlier one.
pub open spec fn symbols_of(exports: Seq<(Seq<char>, Option<u32>)>) -> Map<Seq<char>, u32>
    decreases exports.len(),
{
    if exports.len() == 0 {
        Map::empty()
    } else {
        let rest = symbols_of(exports.drop_last());
        match exports.last().1 {
            Some(offset) => rest.insert(exports.last().0, offset),
            None => rest,
        }
    }
}

/// The symbol table of a list of exports; forwarded exports have no offset
/// in this module and are left out.
pub fn symbols_from_exports(exports: Vec<NamedExport>) -> (r: SymbolTable)
    ensures
        r@ == symbols_of(exports_view(exports@)),
{
    let ghost all = exports_view(exports@);
    let mut table: SymbolTable = NameMap::new();
    let mut i: usize = 0;
    while i < exports.len()
        invariant
            i <= exports@.len(),
            all == exports_view(exports@),
            table@ == symbols_of(all.subrange(0, i as int)),
        decreases exports.len() - i,
    {
        proof {
            assert(all.subrange(0, i + 1).drop_last() == all.subrange(0, i as int));
        }
        if let Some(offset) = exports[i].offset {
            table.insert(exports[i].name.clone(), offset);
        }
        i = i + 1;
    }
    proof {
        assert(all.subrange(0, i as int) == all);
    }
    table
}

} // verus!
