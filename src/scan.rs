//! Pattern scanning over the committed, readable regions of the target.
//!
//! A [`PatternScan`] walks an address range one region at a time. Its owner
//! asks the operating system to describe the region at [`PatternScan::next_query`],
//! hands the description to [`PatternScan::on_region`], reads the bytes that
//! it asks for and hands them to [`PatternScan::on_region_bytes`], until no
//! query is left; [`PatternScan::finish`] then applies the result policy.
use vstd::prelude::*;
use crate::access::ModuleInfo;
use crate::error::MemoryError;

verus! {

/// Upper bound of the address space that a whole-process scan walks.
pub const SCAN_CEILING: u64 = 0x7FFF_FFFF_0000;

/// Region state of committed memory.
pub const MEM_COMMIT: u32 = 0x1000;

/// Page protection: read only.
pub const PAGE_READONLY: u32 = 0x02;

/// Page protection: read and write.
pub const PAGE_READWRITE: u32 = 0x04;

/// Page protection: read and execute.
pub const PAGE_EXECUTE_READ: u32 = 0x20;

/// Page protection: read, write and execute.
pub const PAGE_EXECUTE_READWRITE: u32 = 0x40;

/// A memory region as the operating system describes it.
#[derive(Debug, Clone, Copy, PartialEq, Eq)]
pub struct RegionInfo {
    pub base: usize,
    pub size: usize,
    /// Allocation state (committed, reserved or free).
    pub state: u32,
    /// Page protection flags.
    pub protect: u32,
}

/// A region is scanned when it is committed and readable, with no other
/// protection modifier.
pub open spec fn scannable(region: RegionInfo) -> bool {
    &&& region.state == MEM_COMMIT
    &&& (region.protect == PAGE_READONLY || region.protect == PAGE_READWRITE
        || region.protect == PAGE_EXECUTE_READ || region.protect == PAGE_EXECUTE_READWRITE)
}

/// Whether a region is scanned.
pub fn is_scannable(region: &RegionInfo) -> (r: bool)
    ensures
        r == scannable(*region),
{
    region.state == MEM_COMMIT && (region.protect == PAGE_READONLY || region.protect
        == PAGE_READWRITE || region.protect == PAGE_EXECUTE_READ || region.protect
        == PAGE_EXECUTE_READWRITE)
}

/// The offsets at which the byte pattern `pattern` matches in `haystack`,
/// successive and non-overlapping; none when the pattern does not compile.
pub uninterp spec fn regex_match_starts(pattern: Seq<char>, haystack: Seq<u8>) -> Option<Seq<usize>>;

#[verifier::external_type_specification]
#[verifier::external_body]
pub struct ExRegexError(regex::Error);

/// Relies on regex::bytes::Regex: `new` compiles the pattern, and `find_iter`
/// yields the successive non-overlapping matches, each starting in the haystack.
#[verifier::external_body]
fn match_starts(pattern: &str, haystack: &[u8]) -> (r: Result<Vec<usize>, regex::Error>)
    ensures
        r is Ok <==> regex_match_starts(pattern@, haystack@) is Some,
        r matches Ok(starts) ==> regex_match_starts(pattern@, haystack@) == Some(starts@),
        r matches Ok(starts) ==> forall|i: int|
            0 <= i < starts@.len() ==> #[trigger] starts@[i] <= haystack@.len(),
        r matches Ok(starts) ==> forall|i: int, j: int|
            0 <= i < j < starts@.len() ==> #[trigger] starts@[i] <= #[trigger] starts@[j],
{
    let re = regex::bytes::Regex::new(pattern)?;
    Ok(re.find_iter(haystack).map(|m| m.start()).collect())
}

/// Each offset of `offsets` moved by `start`.
pub open spec fn shifted(offsets: Seq<usize>, start: usize) -> Seq<usize> {
    offsets.map_values(|o: usize| (start + o) as usize)
}

/// The offsets of `offsets` (which never decrease) that lie below `len`,
/// each once.
pub open spec fn distinct_below(offsets: Seq<usize>, len: usize) -> Seq<usize>
    decreases offsets.len(),
{
    if offsets.len() == 0 {
        Seq::empty()
    } else {
        let kept = distinct_below(offsets.drop_last(), len);
        let o = offsets.last();
        if o < len && (kept.len() == 0 || kept.last() != o) {
            kept.push(o)
        } else {
            kept
        }
    }
}

/// The addresses at which `pattern` matches in `bytes`, read at `start`: one
/// per match that starts inside the bytes.
pub open spec fn matches_at(pattern: Seq<char>, start: usize, bytes: Seq<u8>) -> Seq<usize> {
    shifted(distinct_below(regex_match_starts(pattern, bytes)->0, bytes.len() as usize), start)
}

/// The matches in the regions `reads`, each given by the address it was read
/// at and its bytes, in the order read.
pub open spec fn walk_matches(pattern: Seq<char>, reads: Seq<(usize, Seq<u8>)>) -> Seq<usize>
    decreases reads.len(),
{
    if reads.len() == 0 {
        Seq::empty()
    } else {
        walk_matches(pattern, reads.drop_last()) + matches_at(pattern, reads.last().0, reads.last().1)
    }
}

/// The numbers in `s` increase.
pub open spec fn strictly_ascending(s: Seq<usize>) -> bool {
    forall|i: int, j: int| 0 <= i < j < s.len() ==> #[trigger] s[i] < #[trigger] s[j]
}

/// The numbers in `s` never decrease.
pub open spec fn ascending(s: Seq<usize>) -> bool {
    forall|i: int, j: int| 0 <= i < j < s.len() ==> #[trigger] s[i] <= #[trigger] s[j]
}

/// The bytes `[start, start + len)` lie in `region`, a region that is scanned.
pub open spec fn region_holds(region: RegionInfo, start: int, len: int) -> bool {
    &&& scannable(region)
    &&& region.base <= start
    &&& start + len <= region.base + region.size
}

/// The description that a scan holds before it has seen any region.
pub open spec fn no_region() -> RegionInfo {
    RegionInfo { base: 0, size: 0, state: 0, protect: 0 }
}

/// What a scan has done so far.
pub ghost struct ScanView {
    pub pattern: Seq<char>,
    /// First address of the scanned range.
    pub lower: usize,
    /// End of the scanned range: no region is read past it.
    pub limit: usize,
    /// Next address to ask about.
    pub cursor: usize,
    /// Start and length of a region whose bytes are awaited.
    pub pending: Option<(usize, usize)>,
    /// Every match so far, by address.
    pub found: Seq<usize>,
    pub return_multiple: bool,
    /// Every region read so far: where it was read and its bytes.
    pub reads: Seq<(usize, Seq<u8>)>,
    /// The description of the region that each read of `reads` lay in.
    pub read_regions: Seq<RegionInfo>,
    /// The description of the region of the awaited read.
    pub pending_region: RegionInfo,
}

/// A scan of an address range for a byte pattern.
pub struct PatternScan {
    pattern: String,
    lower: usize,
    limit: usize,
    cursor: usize,
    pending: Option<(usize, usize)>,
    found: Vec<usize>,
    return_multiple: bool,
    reads: Ghost<Seq<(usize, Seq<u8>)>>,
    read_regions: Ghost<Seq<RegionInfo>>,
    pending_region: Ghost<RegionInfo>,
}

impl View for PatternScan {
    type V = ScanView;

    closed spec fn view(&self) -> ScanView {
        ScanView {
            pattern: self.pattern@,
            lower: self.lower,
            limit: self.limit,
            cursor: self.cursor,
            pending: self.pending,
            found: self.found@,
            return_multiple: self.return_multiple,
            reads: self.reads@,
            read_regions: self.read_regions@,
            pending_region: self.pending_region@,
        }
    }
}

impl ScanView {
    /// The scan's own invariant: the matches are those of the regions read,
    /// in increasing address order, inside the range and behind the cursor,
    /// and an awaited region lies in the range.
    pub open spec fn wf(self) -> bool {
        &&& self.found == walk_matches(self.pattern, self.reads)
        &&& self.read_regions.len() == self.reads.len()
        &&& forall|i: int|
            0 <= i < self.reads.len() ==> region_holds(
                #[trigger] self.read_regions[i],
                self.reads[i].0 as int,
                self.reads[i].1.len() as int,
            )
        &&& self.lower <= self.limit
        &&& self.lower <= self.cursor
        &&& strictly_ascending(self.found)
        &&& forall|i: int|
            0 <= i < self.found.len() ==> self.lower <= #[trigger] self.found[i] < self.limit
        &&& match self.pending {
            None => forall|i: int| 0 <= i < self.found.len() ==> #[trigger] self.found[i] < self.cursor,
            Some((start, len)) => {
                &&& region_holds(self.pending_region, start as int, len as int)
                &&& self.lower <= start
                &&& start + len <= self.limit
                &&& start + len <= self.cursor
                &&& forall|i: int| 0 <= i < self.found.len() ==> #[trigger] self.found[i] < start
            },
        }
    }
}

impl PatternScan {
    /// A scan of the whole user address space, from address zero.
    pub fn whole_process(pattern: &str, return_multiple: bool) -> (r: Self)
        ensures
            r@ == (ScanView {
                pattern: pattern@,
                lower: 0,
                limit: SCAN_CEILING as usize,
                cursor: 0,
                pending: None,
                found: Seq::empty(),
                return_multiple,
                reads: Seq::empty(),
                read_regions: Seq::empty(),
                pending_region: no_region(),
            }),
            r@.wf(),
    {
        PatternScan {
            pattern: pattern.to_owned(),
            lower: 0,
            limit: SCAN_CEILING as usize,
            cursor: 0,
            pending: None,
            found: Vec::new(),
            return_multiple,
            reads: Ghost(Seq::empty()),
            read_regions: Ghost(Seq::empty()),
            pending_region: Ghost(no_region()),
        }
    }

    /// A scan of the range that a loaded module occupies, `[base, base + size)`
    /// (up to the end of the address space where that sum overflows).
    pub fn within_module(pattern: &str, module: ModuleInfo, return_multiple: bool) -> (r: Self)
        ensures
            r@ == (ScanView {
                pattern: pattern@,
                lower: module.base,
                limit: if module.base + module.size <= usize::MAX {
                    (module.base + module.size) as usize
                } else {
                    usize::MAX
                },
                cursor: module.base,
                pending: None,
                found: Seq::empty(),
                return_multiple,
                reads: Seq::empty(),
                read_regions: Seq::empty(),
                pending_region: no_region(),
            }),
            r@.wf(),
    {
        let limit = match module.base.checked_add(module.size) {
            Some(end) => end,
            None => usize::MAX,
        };
        PatternScan {
            pattern: pattern.to_owned(),
            lower: module.base,
            limit,
            cursor: module.base,
            pending: None,
            found: Vec::new(),
            return_multiple,
            reads: Ghost(Seq::empty()),
            read_regions: Ghost(Seq::empty()),
            pending_region: Ghost(no_region()),
        }
    }

    /// The address to ask the operating system about next, or none when the
    /// range has been walked or a region's bytes are awaited.
    pub fn next_query(&self) -> (r: Option<usize>)
        ensures
            r == (if self@.pending is None && self@.cursor < self@.limit {
                Some(self@.cursor)
            } else {
                None::<usize>
            }),
    {
        if self.pending.is_none() && self.cursor < self.limit {
            Some(self.cursor)
        } else {
            None
        }
    }

    /// Whether the bytes of a region are awaited.
    pub fn awaiting_bytes(&self) -> (r: bool)
        ensures
            r == self@.pending is Some,
    {
        self.pending.is_some()
    }
    /// Takes the description of the region holding the cursor. A region that
    /// is not scanned is skipped; for one that is, the scan asks for the bytes
    /// from the cursor to the region's end (or the range's end, if nearer), as
    /// `(start, length)`. Either way the cursor moves to the region's end. A
    /// description that does not hold the cursor, or whose end overflows, fails.
    pub fn on_region(&mut self, region: RegionInfo) -> (r: Result<Option<(usize, usize)>, MemoryError>)
        requires
            old(self)@.wf(),
            old(self)@.pending is None,
            old(self)@.cursor < old(self)@.limit,
        ensures
            final(self)@.wf(),
            ({
                let s = old(self)@;
                let end = region.base + region.size;
                if region.base > s.cursor || end <= s.cursor || end > usize::MAX {
                    &&& r == Err::<Option<(usize, usize)>, MemoryError>(MemoryError::QueryFailed(s.cursor))
                    &&& final(self)@ == s
                } else {
                    let next = if end < s.limit { end } else { s.limit as int };
                    let ask = (s.cursor, (next - s.cursor) as usize);
                    &&& final(self)@ == (ScanView {
                        cursor: end as usize,
                        pending: if scannable(region) { Some(ask) } else { None },
                        pending_region: region,
                        ..s
                    })
                    &&& r == Ok::<Option<(usize, usize)>, MemoryError>(
                        if scannable(region) { Some(ask) } else { None },
                    )
                }
            }),
    {
        let cursor = self.cursor;
        let end = match region.base.checked_add(region.size) {
            Some(end) => end,
            None => return Err(MemoryError::QueryFailed(cursor)),
        };
        if region.base > cursor || end <= cursor {
            return Err(MemoryError::QueryFailed(cursor));
        }
        let next = if end < self.limit { end } else { self.limit };
        self.cursor = end;
        self.pending_region = Ghost(region);
        if is_scannable(&region) {
            let ask = (cursor, next - cursor);
            self.pending = Some(ask);
            Ok(Some(ask))
        } else {
            Ok(None)
        }
    }

    /// Takes the bytes of the awaited region, as read from the process, and
    /// records the address of every match that starts in them, each once. A
    /// read that failed, or that delivered another length than asked for,
    /// fails the scan; so does a pattern that does not compile.
    pub fn on_region_bytes(&mut self, bytes: Result<Vec<u8>, MemoryError>) -> (r: Result<(), MemoryError>)
        requires
            old(self)@.wf(),
            old(self)@.pending is Some,
        ensures
            final(self)@.wf(),
            ({
                let s = old(self)@;
                let (start, len) = s.pending->0;
                match bytes {
                    Err(e) => r == Err::<(), MemoryError>(e) && final(self)@ == s,
                    Ok(b) => if b@.len() != len {
                        r == Err::<(), MemoryError>(MemoryError::ReadFailed(start)) && final(self)@ == s
                    } else if regex_match_starts(s.pattern, b@) is None {
                        &&& r matches Err(MemoryError::InvalidPattern(p)) && p@ == s.pattern
                        &&& final(self)@ == s
                    } else {
                        &&& r == Ok::<(), MemoryError>(())
                        &&& final(self)@ == (ScanView {
                            pending: None,
                            found: s.found + matches_at(s.pattern, start, b@),
                            reads: s.reads.push((start, b@)),
                            read_regions: s.read_regions.push(s.pending_region),
                            ..s
                        })
                    },
                }
            }),
    {
        let (start, len) = self.pending.unwrap();
        let b = bytes?;
        if b.len() != len {
            return Err(MemoryError::ReadFailed(start));
        }
        let starts = match match_starts(self.pattern.as_str(), b.as_slice()) {
            Ok(starts) => starts,
            Err(_) => return Err(MemoryError::InvalidPattern(self.pattern.clone())),
        };
        let ghost old_found = self.found@;
        let mut last: Option<usize> = None;
        let mut k: usize = 0;
        while k < starts.len()
            invariant
                0 <= k <= starts@.len(),
                self@ == (ScanView { found: self.found@, ..old(self)@ }),
                self.pending == Some((start, len)),
                b@.len() == len,
                start + len <= self.cursor,
                self.lower <= start,
                start + len <= self.limit,
                ascending(starts@),
                self.found@ == old_found + shifted(distinct_below(starts@.subrange(0, k as int), len), start),
                last == (if distinct_below(starts@.subrange(0, k as int), len).len() == 0 {
                    None::<usize>
                } else {
                    Some(distinct_below(starts@.subrange(0, k as int), len).last())
                }),
                last matches Some(l) ==> k > 0 && l <= starts@[k - 1] && l < len && self.found@.len() > 0
                    && self.found@.last() == start + l,
                last is None ==> self.found@ == old_found,
                forall|i: int| 0 <= i < old_found.len() ==> self.lower <= #[trigger] old_found[i] < start,
                strictly_ascending(self.found@),
                forall|i: int|
                    0 <= i < self.found@.len() ==> self.lower <= #[trigger] self.found@[i] < start + len,
            decreases starts.len() - k,
        {
            let o = starts[k];
            let ghost kept = distinct_below(starts@.subrange(0, k as int), len);
            proof {
                assert(starts@.subrange(0, k + 1).drop_last() == starts@.subrange(0, k as int));
                if k > 0 {
                    assert(starts@[k - 1] <= starts@[k as int]);
                }
            }
            let keep = o < len && match last {
                Some(l) => l != o,
                None => true,
            };
            if keep {
                self.found.push(start + o);
                last = Some(o);
                proof {
                    assert(shifted(kept.push(o), start) =~= shifted(kept, start).push((start + o) as usize));
                }
            }
            k = k + 1;
        }
        proof {
            assert(starts@.subrange(0, starts@.len() as int) == starts@);
            assert(self.found@ == old_found + matches_at(old(self)@.pattern, start, b@));
            assert(old(self)@.reads.push((start, b@)).drop_last() == old(self)@.reads);
        }
        self.pending = None;
        self.reads = Ghost(self.reads@.push((start, b@)));
        self.read_regions = Ghost(self.read_regions@.push(self.pending_region@));
        Ok(())
    }

    /// The scan's result, once the range has been walked: see [`select_matches`].
    pub fn finish(self) -> (r: Result<Vec<usize>, MemoryError>)
        requires
            self@.wf(),
        ensures
            scan_result(self@.pattern, walk_matches(self@.pattern, self@.reads), self@.return_multiple, r),
            r matches Ok(v) ==> strictly_ascending(v@) && forall|i: int|
                0 <= i < v@.len() ==> self@.lower <= #[trigger] v@[i] < self@.limit,
    {
        select_matches(self.pattern, self.found, self.return_multiple)
    }
}

/// The result policy of a scan that found the matches `found`: none is an
/// error naming the pattern; more than one where one was asked for is an
/// error with the count; otherwise every match, or the single one.
pub open spec fn scan_result(
    pattern: Seq<char>,
    found: Seq<usize>,
    return_multiple: bool,
    r: Result<Vec<usize>, MemoryError>,
) -> bool {
    if found.len() == 0 {
        r matches Err(MemoryError::PatternNotFound(p)) && p@ == pattern
    } else if found.len() > 1 && !return_multiple {
        r matches Err(MemoryError::AmbiguousPattern(p, n)) && p@ == pattern && n == found.len()
    } else if return_multiple {
        r matches Ok(v) && v@ == found
    } else {
        r matches Ok(v) && v@ == seq![found[0]]
    }
}

/// Applies the result policy of a scan to the matches that it found.
pub fn select_matches(pattern: String, found: Vec<usize>, return_multiple: bool) -> (r: Result<
    Vec<usize>,
    MemoryError,
>)
    ensures
        scan_result(pattern@, found@, return_multiple, r),
        r matches Ok(v) ==> forall|i: int| 0 <= i < v@.len() ==> found@.contains(#[trigger] v@[i]),
        r matches Ok(v) ==> (strictly_ascending(found@) ==> strictly_ascending(v@)),
{
    let n = found.len();
    if n == 0 {
        Err(MemoryError::PatternNotFound(pattern))
    } else if n > 1 && !return_multiple {
        Err(MemoryError::AmbiguousPattern(pattern, n))
    } else if return_multiple {
        Ok(found)
    } else {
        let first = vec![found[0]];
        proof {
            assert(first@ =~= seq![found@[0]]);
            assert(found@.contains(found@[0]));
        }
        Ok(first)
    }
}

/// Over a whole walk, a scan that found exactly one occurrence of the
/// pattern in the regions it read returns that occurrence's address alone;
/// one that found none fails naming the pattern; and one that found several
/// where one was asked for fails with their exact count.
pub proof fn lemma_walk_scan_result(
    pattern: Seq<char>,
    reads: Seq<(usize, Seq<u8>)>,
    return_multiple: bool,
    r: Result<Vec<usize>, MemoryError>,
)
    requires
        scan_result(pattern, walk_matches(pattern, reads), return_multiple, r),
    ensures
        ({
            let occurrences = walk_matches(pattern, reads);
            &&& occurrences.len() == 1 ==> (r matches Ok(v) && v@ == seq![occurrences[0]])
            &&& occurrences.len() == 0 ==> (r matches Err(MemoryError::PatternNotFound(p)) && p@ == pattern)
            &&& occurrences.len() >= 2 && !return_multiple ==> (r matches Err(
                MemoryError::AmbiguousPattern(p, n),
            ) && p@ == pattern && n == occurrences.len())
            &&& return_multiple && occurrences.len() > 0 ==> (r matches Ok(v) && v@ == occurrences)
        }),
{
    let occurrences = walk_matches(pattern, reads);
    if occurrences.len() == 1 {
        assert(occurrences =~= seq![occurrences[0]]);
    }
}

} // verus!
