//! From a global tile identifier to the tileset that owns it.
//!
//! Every tileset of a map claims the identifiers from its first one up to,
//! but not including, its first one plus its tile count. A resolver registers
//! each claimed identifier in a hash table, tileset by tileset in document
//! order, so that a later tileset overwrites an earlier one where two claims
//! meet.
use vstd::prelude::*;
use crate::error::LevelError;
use crate::table::IndexTable;

verus! {

/// The identifiers that one tileset claims.
#[derive(Clone, Copy, Debug, PartialEq, Eq, Structural)]
pub struct GidRange {
    pub first_gid: u32,
    pub tile_count: u32,
}

impl GidRange {
    /// Whether `gid` lies in `first_gid .. first_gid + tile_count`.
    pub open spec fn contains(&self, gid: u32) -> bool {
        self.first_gid <= gid && gid < self.first_gid + self.tile_count
    }
}

/// The last range of `ranges` that contains `gid`, by position.
pub open spec fn owner(ranges: Seq<GidRange>, gid: u32) -> Option<int>
    decreases ranges.len(),
{
    if ranges.len() == 0 {
        None
    } else if ranges.last().contains(gid) {
        Some(ranges.len() - 1)
    } else {
        owner(ranges.drop_last(), gid)
    }
}

/// Whether two ranges of `ranges` share an identifier.
pub open spec fn overlapping(ranges: Seq<GidRange>) -> bool {
    exists|a: int, b: int, gid: u32|
        0 <= a < b < ranges.len() && #[trigger] ranges[a].contains(gid) && #[trigger] ranges[b].contains(gid)
}

/// What `owner` finds is a range that contains the identifier, and no later
/// range does.
pub proof fn owner_is_last(ranges: Seq<GidRange>, gid: u32)
    ensures
        match owner(ranges, gid) {
            Some(i) => 0 <= i < ranges.len() && ranges[i].contains(gid) && forall|j: int|
                i < j < ranges.len() ==> !#[trigger] ranges[j].contains(gid),
            None => forall|j: int| 0 <= j < ranges.len() ==> !#[trigger] ranges[j].contains(gid),
        },
    decreases ranges.len(),
{
    if ranges.len() > 0 && !ranges.last().contains(gid) {
        let rest = ranges.drop_last();
        owner_is_last(rest, gid);
        assert forall|j: int| 0 <= j < rest.len() implies rest[j] == ranges[j] by {}
        match owner(rest, gid) {
            Some(i) => {
                assert forall|j: int| i < j < ranges.len() implies !#[trigger] ranges[j].contains(gid) by {
                    if j < rest.len() {
                        assert(rest[j] == ranges[j]);
                    }
                }
            },
            None => {
                assert forall|j: int| 0 <= j < ranges.len() implies !#[trigger] ranges[j].contains(gid) by {
                    if j < rest.len() {
                        assert(rest[j] == ranges[j]);
                    }
                }
            },
        }
    }
}

/// Without overlap, an identifier resolves to the one range that contains it,
/// and an identifier outside all ranges resolves to none.
pub proof fn owner_exact(ranges: Seq<GidRange>, gid: u32, i: int)
    requires
        !overlapping(ranges),
        0 <= i < ranges.len(),
    ensures
        ranges[i].contains(gid) <==> owner(ranges, gid) == Some(i),
{
    owner_is_last(ranges, gid);
}

/// An identifier resolves to no range exactly if no range contains it.
pub proof fn owner_none_outside(ranges: Seq<GidRange>, gid: u32)
    ensures
        owner(ranges, gid) is None <==> forall|i: int| 0 <= i < ranges.len() ==> !#[trigger] ranges[i].contains(gid),
{
    owner_is_last(ranges, gid);
}

/// Whether an identifier in `low .. high` belongs to one of `ranges`.
pub open spec fn claimed(ranges: Seq<GidRange>, low: int, high: int) -> bool {
    exists|gid: u32| low <= gid < high && #[trigger] owner(ranges, gid) is Some
}

/// A list of ranges overlaps exactly if its last range meets an earlier one, or
/// the ranges before it overlap among themselves.
proof fn overlapping_by_last(ranges: Seq<GidRange>)
    requires
        ranges.len() > 0,
    ensures
        overlapping(ranges) <==> overlapping(ranges.drop_last()) || claimed(
            ranges.drop_last(),
            ranges.last().first_gid as int,
            ranges.last().first_gid + ranges.last().tile_count,
        ),
{
    let rest = ranges.drop_last();
    let last = ranges.last();
    let low = last.first_gid as int;
    let high = last.first_gid + last.tile_count;
    assert forall|j: int| 0 <= j < rest.len() implies rest[j] == ranges[j] by {}
    if overlapping(ranges) {
        let (a, b, gid) = choose|a: int, b: int, gid: u32|
            0 <= a < b < ranges.len() && #[trigger] ranges[a].contains(gid) && #[trigger] ranges[b].contains(gid);
        if b < rest.len() {
            assert(rest[a].contains(gid) && rest[b].contains(gid));
        } else {
            owner_is_last(rest, gid);
            assert(rest[a].contains(gid));
            assert(owner(rest, gid) is Some);
            assert(low <= gid < high);
        }
    }
    if overlapping(rest) {
        let (a, b, gid) = choose|a: int, b: int, gid: u32|
            0 <= a < b < rest.len() && #[trigger] rest[a].contains(gid) && #[trigger] rest[b].contains(gid);
        assert(ranges[a].contains(gid) && ranges[b].contains(gid));
    }
    if claimed(rest, low, high) {
        let gid = choose|gid: u32| low <= gid < high && #[trigger] owner(rest, gid) is Some;
        owner_is_last(rest, gid);
        let a = owner(rest, gid)->0;
        assert(ranges[a].contains(gid) && ranges[ranges.len() - 1].contains(gid));
    }
}

/// A table from global tile identifiers to tilesets.
pub struct GidResolver {
    ranges: Vec<GidRange>,
    table: IndexTable,
}

impl GidResolver {
    /// The table holds exactly the identifiers that some range contains, each
    /// with the position of the last range that does.
    #[verifier::type_invariant]
    spec fn registered(&self) -> bool {
        holds_owners(self.table@, self.ranges@)
    }

    /// The ranges that the resolver was built from, in document order.
    pub closed spec fn ranges(&self) -> Seq<GidRange> {
        self.ranges@
    }

    /// Builds the table, later ranges overwriting earlier ones, and reports
    /// whether any identifier was claimed twice.
    pub fn overlaid(ranges: Vec<GidRange>) -> (built: (GidResolver, bool))
        ensures
            built.0.ranges() == ranges@,
            built.1 == overlapping(ranges@),
    {
        let mut table = IndexTable::new();
        let mut clash = false;
        let mut i: usize = 0;
        assert(ranges@.take(0) =~= Seq::empty());
        while i < ranges.len()
            invariant
                i <= ranges@.len(),
                holds_owners(table@, ranges@.take(i as int)),
                clash == overlapping(ranges@.take(i as int)),
            decreases ranges@.len() - i,
        {
            let range = ranges[i];
            let ghost before = ranges@.take(i as int);
            let first: u64 = range.first_gid as u64;
            let end: u64 = first + range.tile_count as u64;
            let limit: u64 = if end < 0x1_0000_0000 { end } else { 0x1_0000_0000 };
            let ghost clash_before = clash;
            let mut g: u64 = first;
            while g < limit
                invariant
                    i < ranges@.len(),
                    range == ranges@[i as int],
                    before == ranges@.take(i as int),
                    first == range.first_gid,
                    first <= g <= limit <= 0x1_0000_0000,
                    limit <= first + range.tile_count,
                    forall|gid: u32|
                        if first <= gid < g {
                            table@.contains_key(gid) && table@[gid] == i
                        } else {
                            match #[trigger] owner(before, gid) {
                                Some(k) => table@.contains_key(gid) && table@[gid] == k,
                                None => !table@.contains_key(gid),
                            }
                        },
                    clash == (clash_before || claimed(before, first as int, g as int)),
                decreases limit - g,
            {
                let gid: u32 = g as u32;
                let previous = table.insert(gid, i);
                proof {
                    assert(previous is Some <==> owner(before, gid) is Some);
                    if claimed(before, first as int, g + 1) {
                        let w = choose|w: u32| first <= w < g + 1 && #[trigger] owner(before, w) is Some;
                        if w != gid {
                            assert(claimed(before, first as int, g as int));
                        }
                    }
                    if claimed(before, first as int, g as int) {
                        let w = choose|w: u32| first <= w < g && #[trigger] owner(before, w) is Some;
                        assert(first <= w < g + 1);
                    }
                }
                if previous.is_some() {
                    clash = true;
                }
                g += 1;
            }
            proof {
                let now = ranges@.take(i + 1);
                assert(now.drop_last() =~= before);
                assert(now.last() == range);
                overlapping_by_last(now);
                assert(clash_before == overlapping(before));
                let high = range.first_gid + range.tile_count;
                if claimed(before, first as int, limit as int) {
                    let w = choose|w: u32| first <= w < limit && #[trigger] owner(before, w) is Some;
                    assert(first <= w < high);
                }
                if claimed(before, first as int, high) {
                    let w = choose|w: u32| first <= w < high && #[trigger] owner(before, w) is Some;
                    assert(first <= w < limit);
                }
                assert forall|gid: u32| true implies match #[trigger] owner(now, gid) {
                    Some(k) => table@.contains_key(gid) && table@[gid] == k,
                    None => !table@.contains_key(gid),
                } by {
                    assert(range.contains(gid) <==> first <= gid < limit);
                    let seen = owner(before, gid);
                }
            }
            i += 1;
        }
        assert(ranges@.take(i as int) =~= ranges@);
        (GidResolver { ranges, table }, clash)
    }

    /// Builds the table, or refuses ranges that overlap.
    pub fn new(ranges: Vec<GidRange>) -> (built: Result<GidResolver, LevelError>)
        ensures
            match built {
                Ok(resolver) => !overlapping(ranges@) && resolver.ranges() == ranges@,
                Err(error) => overlapping(ranges@) && error == LevelError::OverlappingTilesetRanges,
            },
    {
        let (resolver, clash) = GidResolver::overlaid(ranges);
        if clash {
            Err(LevelError::OverlappingTilesetRanges)
        } else {
            Ok(resolver)
        }
    }

    /// The tileset that owns `gid`, by position, and the identifier's offset
    /// within that tileset.
    pub fn resolve(&self, gid: u32) -> (found: Result<(usize, u32), LevelError>)
        ensures
            match owner(self.ranges(), gid) {
                Some(i) => found matches Ok(pair) && pair.0 == i && pair.1 == gid - self.ranges()[i].first_gid,
                None => found matches Err(error) && error == LevelError::UnresolvedReference,
            },
    {
        proof {
            use_type_invariant(self);
            owner_is_last(self.ranges@, gid);
        }
        match self.table.get(gid) {
            Some(i) => Ok((i, gid - self.ranges[i].first_gid)),
            None => Err(LevelError::UnresolvedReference),
        }
    }
}

/// Whether `entries` maps each identifier to the last of `ranges` that
/// contains it, and holds no other identifier.
pub open spec fn holds_owners(entries: Map<u32, usize>, ranges: Seq<GidRange>) -> bool {
    forall|gid: u32|
        match #[trigger] owner(ranges, gid) {
            Some(i) => entries.contains_key(gid) && entries[gid] == i,
            None => !entries.contains_key(gid),
        }
}

} // verus!
