//! An index and a flag packed into one signed 64 bit word.

use vstd::prelude::*;

verus! {

/// Used to store both an index and a flag in 64 bits.
///
/// A non-negative word `w` holds index `w` with the flag cleared;
/// a negative word `w` holds index `-(w + 1)` with the flag set.
#[derive(Copy, Clone, Debug, PartialEq, Eq)]
pub struct IndexFlag(pub i64);

impl IndexFlag {
    /// The index stored in a word.
    pub open spec fn index_of(w: i64) -> int {
        if w < 0 { -(w + 1) } else { w as int }
    }

    /// The word that stores an index and a flag.
    pub open spec fn word_of(ind: int, flag: bool) -> int {
        if flag { -ind - 1 } else { ind }
    }

    /// Get the index.
    pub fn index(&self) -> (r: usize)
        requires
            Self::index_of(self.0) <= usize::MAX,
        ensures
            r == Self::index_of(self.0),
    {
        if self.0 < 0 {
            (-(self.0 + 1)) as usize
        } else {
            self.0 as usize
        }
    }

    /// Get the flag.
    pub fn flag(&self) -> (r: bool)
        ensures
            r == (self.0 < 0),
    {
        self.0 < 0
    }

    /// Sets the flag to false.
    pub fn unflag(self) -> (r: IndexFlag)
        requires
            Self::index_of(self.0) <= usize::MAX,
        ensures
            r.0 == Self::index_of(self.0),
    {
        IndexFlag::from_parts(self.index(), false)
    }

    /// Create index-flag from index and flag.
    pub fn from_parts(ind: usize, flag: bool) -> (r: IndexFlag)
        requires
            ind <= i64::MAX,
        ensures
            r.0 == Self::word_of(ind as int, flag),
    {
        IndexFlag(if flag { -(ind as i64) - 1 } else { ind as i64 })
    }

    /// Clearing the flag of a word keeps its index and leaves the flag cleared;
    /// clearing it again changes nothing, and a word whose flag is already
    /// cleared is left as it is.
    pub proof fn lemma_unflag(w: i64)
        ensures
            0 <= Self::index_of(w) <= i64::MAX,
            Self::index_of(Self::index_of(w) as i64) == Self::index_of(w),
            w >= 0 ==> Self::index_of(w) == w,
    {
    }

    /// Packing an index and a flag and reading them back gives the same
    /// index and flag.
    pub proof fn lemma_round_trip(ind: usize, flag: bool)
        requires
            ind <= i64::MAX,
        ensures
            Self::word_of(ind as int, flag) >= i64::MIN,
            Self::index_of(Self::word_of(ind as int, flag) as i64) == ind,
            (Self::word_of(ind as int, flag) < 0) == flag,
    {
    }
}

/// The mask of the triangles of the chunk at offset `off` that a ray, whose last
/// hit is `last`, still has to test: `None` when the last hit is new (its flag is
/// set) or lies past the chunk; otherwise the triangles of `mask` from the one of
/// the last hit on, or all of `mask` when the last hit lies before the chunk.
pub fn hit_all_chunk_mask(last: IndexFlag, off: usize, mask: u64) -> (r: Option<u64>)
    requires
        IndexFlag::index_of(last.0) <= usize::MAX,
        off + 64 <= usize::MAX,
    ensures
        last.0 < 0 ==> r is None,
        last.0 >= 0 && IndexFlag::index_of(last.0) >= off + 64 ==> r is None,
        last.0 >= 0 && IndexFlag::index_of(last.0) < off ==> r == Some(mask),
        last.0 >= 0 && off <= IndexFlag::index_of(last.0) < off + 64 ==> r is Some && forall|b: u64|
            b < 64 ==> #[trigger] ((r->0 >> b) & 1) == if b >= IndexFlag::index_of(last.0) - off {
                (mask >> b) & 1
            } else {
                0
            },
{
    if last.flag() {
        return None;
    }
    let ind = last.index();
    if ind >= off + 64 {
        None
    } else if ind >= off {
        let k = (ind - off) as u64;
        assert(1u64 << k >= 1) by (bit_vector)
            requires
                k < 64,
        ;
        let low = (1u64 << k) - 1;
        let r = !low & mask;
        assert(forall|b: u64| b < 64 ==> #[trigger] ((r >> b) & 1) == if b >= k { (mask >> b) & 1 } else { 0 })
            by (bit_vector)
            requires
                k < 64,
                low == ((1u64 << k) - 1) as u64,
                r == !low & mask,
        ;
        Some(r)
    } else {
        Some(mask)
    }
}

} // verus!
