//! The reader's own state, the cache of module export tables, and the
//! resolution of an exported symbol to its address in the live process.
//!
//! Resolving a symbol goes: [`module_file_path`] names the image on disk; the
//! cache answers through [`MemoryReader::cached_symbols`] unless a reload is
//! forced, otherwise the image is read and handed to
//! [`MemoryReader::load_symbols`]; [`resolve_symbol_address`] then adds the
//! symbol's offset to the base at which the live process loaded the module.
use vstd::prelude::*;
use crate::access::ModuleInfo;
use crate::error::MemoryError;
use crate::names::NameMap;
use crate::symbols::{export_entry_checked, export_entry_fits, named_exports, pe_named_exports, symbols_from_exports, symbols_of, SymbolTable};

verus! {

/// The path of the module image `module_name` in the directory `module_dir`:
/// the two joined by a backslash, unless the directory is empty or already
/// ends in a separator.
pub open spec fn module_file_path_of(module_dir: Seq<char>, module_name: Seq<char>) -> Seq<char> {
    if module_dir.len() == 0 || module_dir.last() == '\\' || module_dir.last() == '/' {
        module_dir + module_name
    } else {
        module_dir + seq!['\\'] + module_name
    }
}

/// Joins a module directory and a module file name.
pub fn module_file_path(module_dir: &str, module_name: &str) -> (r: String)
    ensures
        r@ == module_file_path_of(module_dir@, module_name@),
{
    let n = module_dir.unicode_len();
    let mut path = String::from_str(module_dir);
    if n > 0 {
        let last = module_dir.get_char(n - 1);
        if last != '\\' && last != '/' {
            let sep = "\\";
            proof {
                reveal_strlit("\\");
            }
            path.append(sep);
        }
    }
    path.append(module_name);
    path
}

/// The cache's answer for `file_path`: the table stored for it, unless a
/// reload is forced or none is stored.
pub open spec fn cached_table(
    cache: Map<Seq<char>, Map<Seq<char>, u32>>,
    file_path: Seq<char>,
    force_reload: bool,
) -> Option<Map<Seq<char>, u32>> {
    if !force_reload && cache.contains_key(file_path) {
        Some(cache[file_path])
    } else {
        None
    }
}

/// Holds what the memory interface keeps between calls: the export tables of
/// the module images that it has parsed, by file path. Entries stay until a
/// reload replaces them.
pub struct MemoryReader {
    symbol_table: NameMap<SymbolTable>,
}

impl View for MemoryReader {
    type V = Map<Seq<char>, Map<Seq<char>, u32>>;

    closed spec fn view(&self) -> Map<Seq<char>, Map<Seq<char>, u32>> {
        self.symbol_table@.map_values(|t: SymbolTable| t@)
    }
}

impl MemoryReader {
    /// A reader with an empty cache.
    pub fn new() -> (r: Self)
        ensures
            r@ == Map::<Seq<char>, Map<Seq<char>, u32>>::empty(),
    {
        let r = MemoryReader { symbol_table: NameMap::new() };
        assert(r@ =~= Map::<Seq<char>, Map<Seq<char>, u32>>::empty());
        r
    }

    /// The cached export table of the image at `file_path`, unless
    /// `force_reload` asks for it to be parsed again. A `None` means that the
    /// image must be read and handed to [`MemoryReader::load_symbols`].
    pub fn cached_symbols(&self, file_path: &str, force_reload: bool) -> (r: Option<SymbolTable>)
        ensures
            r is None <==> cached_table(self@, file_path@, force_reload) is None,
            r matches Some(t) ==> cached_table(self@, file_path@, force_reload) == Some(t@),
    {
        if force_reload {
            return None;
        }
        match self.symbol_table.get(file_path) {
            Some(table) => Some(table.copied()),
            None => None,
        }
    }

    /// Parses the export table of the image `image`, read from `file_path`,
    /// stores it in the cache under that path, and returns it. An image that
    /// does not parse, or whose export directory ends past the 32-bit address
    /// space, is malformed and leaves the cache as it was.
    pub fn load_symbols(&mut self, file_path: &str, image: &[u8]) -> (r: Result<SymbolTable, MemoryError>)
        ensures
            pe_named_exports(image@) is None || !export_entry_fits(image@) ==> r is Err,
            r is Err ==> {
                &&& r matches Err(MemoryError::ParseError(p)) && p@ == file_path@
                &&& final(self)@ == old(self)@
            },
            r matches Ok(t) ==> {
                &&& pe_named_exports(image@) is Some
                &&& t@ == symbols_of(pe_named_exports(image@)->0)
                &&& final(self)@ == old(self)@.insert(file_path@, t@)
            },
    {
        if !export_entry_checked(image) {
            return Err(MemoryError::ParseError(file_path.to_owned()));
        }
        let exports = match named_exports(image) {
            Ok(exports) => exports,
            Err(_) => return Err(MemoryError::ParseError(file_path.to_owned())),
        };
        let table = symbols_from_exports(exports);
        let result = table.copied();
        self.symbol_table.insert(file_path.to_owned(), table);
        assert(self@ =~= old(self)@.insert(file_path@, result@));
        Ok(result)
    }
}

/// The address of `symbol_name` in the live process: the base at which the
/// process loaded `module_name` (none when it has not) plus the symbol's
/// offset in the module's export table `symbols`.
pub fn resolve_symbol_address(
    module_name: &str,
    symbol_name: &str,
    symbols: &SymbolTable,
    module: Option<ModuleInfo>,
) -> (r: Result<usize, MemoryError>)
    ensures
        !symbols@.contains_key(symbol_name@) ==> (r matches Err(MemoryError::SymbolNotFound(m, s))
            && m@ == module_name@ && s@ == symbol_name@),
        symbols@.contains_key(symbol_name@) ==> match module {
            None => r matches Err(MemoryError::ModuleNotLoaded(m)) && m@ == module_name@,
            Some(info) => if info.base + symbols@[symbol_name@] <= usize::MAX {
                r == Ok::<usize, MemoryError>((info.base + symbols@[symbol_name@]) as usize)
            } else {
                r == Err::<usize, MemoryError>(MemoryError::OutOfRange(info.base))
            },
        },
{
    let offset = match symbols.get(symbol_name) {
        Some(offset) => *offset,
        None => {
            return Err(MemoryError::SymbolNotFound(module_name.to_owned(), symbol_name.to_owned()));
        },
    };
    let info = match module {
        Some(info) => info,
        None => return Err(MemoryError::ModuleNotLoaded(module_name.to_owned())),
    };
    match info.base.checked_add(offset as usize) {
        Some(address) => Ok(address),
        None => Err(MemoryError::OutOfRange(info.base)),
    }
}

/// Once the table of an image has been loaded, asking for it again without a
/// forced reload is answered from the cache with that very table (asking
/// changes nothing, so every later ask gets it too); a forced reload is never
/// answered from the cache, so the image is parsed again. Loading one image
/// leaves the cached tables of the others as they were.
pub proof fn lemma_symbols_cached(
    cache: Map<Seq<char>, Map<Seq<char>, u32>>,
    file_path: Seq<char>,
    table: Map<Seq<char>, u32>,
    other_path: Seq<char>,
    force_reload: bool,
)
    requires
        other_path != file_path,
    ensures
        cached_table(cache.insert(file_path, table), file_path, false) == Some(table),
        cached_table(cache, file_path, true) is None,
        cached_table(cache.insert(file_path, table), other_path, force_reload) == cached_table(
            cache,
            other_path,
            force_reload,
        ),
{
}

} // verus!
