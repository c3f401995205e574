//! Compressed bit masks.
//!
//! A mask sequence stores one `u64` word per chunk of 64 triangles.
//! Long stretches of empty or full chunks are stored as runs.

use vstd::prelude::*;

verus! {

/// The number of set bits of a natural number.
pub open spec fn popcount(w: nat) -> nat
    decreases w,
{
    if w == 0 {
        0
    } else {
        (w % 2) + popcount(w / 2)
    }
}

/// The total number of set bits over a sequence of words.
pub open spec fn ones_total(s: Seq<u64>) -> nat
    decreases s.len(),
{
    if s.len() == 0 {
        0
    } else {
        ones_total(s.drop_last()) + popcount(s.last() as nat)
    }
}

/// The `(index, word)` pairs of a word sequence whose word is not zero,
/// in increasing order of index.
pub open spec fn nonzero_entries(s: Seq<u64>) -> Seq<(usize, u64)>
    decreases s.len(),
{
    if s.len() == 0 {
        Seq::empty()
    } else if s.last() != 0 {
        nonzero_entries(s.drop_last()).push(((s.len() - 1) as usize, s.last()))
    } else {
        nonzero_entries(s.drop_last())
    }
}

/// A number below `2^k` has at most `k` set bits.
pub proof fn lemma_popcount_bound(w: nat, k: nat)
    requires
        w < vstd::arithmetic::power2::pow2(k),
    ensures
        popcount(w) <= k,
    decreases k,
{
    if w != 0 {
        if k == 0 {
            vstd::arithmetic::power2::lemma2_to64();
            assert(false);
        } else {
            vstd::arithmetic::power2::lemma_pow2_unfold(k);
            lemma_popcount_bound(w / 2, (k - 1) as nat);
        }
    }
}

/// `2^k - 1` has exactly `k` set bits.
pub proof fn lemma_popcount_low_mask(k: nat)
    ensures
        popcount((vstd::arithmetic::power2::pow2(k) - 1) as nat) == k,
    decreases k,
{
    vstd::arithmetic::power2::lemma_pow2_pos(k);
    if k == 0 {
        vstd::arithmetic::power2::lemma2_to64();
    } else {
        vstd::arithmetic::power2::lemma_pow2_unfold(k);
        vstd::arithmetic::power2::lemma_pow2_pos((k - 1) as nat);
        let p = vstd::arithmetic::power2::pow2((k - 1) as nat);
        assert((2 * p - 1) as nat / 2 == (p - 1) as nat);
        assert((2 * p - 1) as nat % 2 == 1);
        lemma_popcount_low_mask((k - 1) as nat);
    }
}

/// A word with every bit set has 64 set bits.
pub proof fn lemma_popcount_all_ones()
    ensures
        popcount(0xffff_ffff_ffff_ffffu64 as nat) == 64,
{
    vstd::arithmetic::power2::lemma2_to64();
    lemma_popcount_low_mask(64);
}

/// Counts the set bits of a word.
pub fn popcount_u64(w: u64) -> (r: u32)
    ensures
        r == popcount(w as nat),
        r <= 64,
{
    proof {
        vstd::arithmetic::power2::lemma2_to64();
        lemma_popcount_bound(w as nat, 64);
    }
    let mut x: u64 = w;
    let mut c: u32 = 0;
    while x > 0
        invariant
            c + popcount(x as nat) == popcount(w as nat),
            popcount(w as nat) <= 64,
        decreases x,
    {
        c = c + (x % 2) as u32;
        x = x / 2;
    }
    c
}

/// Pushing a word adds its set bits to the total that `count_ones` reports.
pub proof fn lemma_count_ones_push(v: Seq<u64>, w: u64)
    ensures
        ones_total(v.push(w)) == ones_total(v) + popcount(w as nat),
{
    assert(v.push(w).drop_last() =~= v);
}

/// After pushing a word, reading at the new last position gives the word back,
/// every earlier position reads what it read before, and no position past the
/// end reads anything.
pub proof fn lemma_get_after_push(v: Seq<u64>, w: u64)
    ensures
        v.push(w).len() == v.len() + 1,
        v.push(w)[v.len() as int] == w,
        forall|i: int| 0 <= i < v.len() ==> #[trigger] v.push(w)[i] == v[i],
{
}

/// The total that `count_ones` reports is at most 64 per word.
pub proof fn lemma_count_ones_bound(v: Seq<u64>)
    ensures
        ones_total(v) <= 64 * v.len(),
    decreases v.len(),
{
    if v.len() > 0 {
        lemma_count_ones_bound(v.drop_last());
        vstd::arithmetic::power2::lemma2_to64();
        lemma_popcount_bound(v.last() as nat, 64);
    }
}

/// `iter` and `get` agree: every listed pair `(i, w)` has `get(i) == Some(w)` with
/// `w != 0`, indices increase strictly, and every non-zero word is listed.
pub proof fn lemma_iter_lists_nonzero_words(v: Seq<u64>)
    requires
        v.len() <= usize::MAX,
    ensures
        forall|k: int|
            0 <= k < nonzero_entries(v).len() ==> {
                let (i, w) = #[trigger] nonzero_entries(v)[k];
                &&& i < v.len()
                &&& v[i as int] == w
                &&& w != 0
            },
        forall|k: int, l: int|
            0 <= k < l < nonzero_entries(v).len() ==> #[trigger] nonzero_entries(v)[k].0
                < #[trigger] nonzero_entries(v)[l].0,
        forall|i: int|
            0 <= i < v.len() && v[i] != 0 ==> exists|k: int|
                0 <= k < nonzero_entries(v).len() && #[trigger] nonzero_entries(v)[k] == (
                    i as usize,
                    v[i],
                ),
    decreases v.len(),
{
    if v.len() > 0 {
        let p = v.drop_last();
        lemma_iter_lists_nonzero_words(p);
        let e = nonzero_entries(v);
        let ep = nonzero_entries(p);
        assert forall|k: int| 0 <= k < ep.len() implies (#[trigger] ep[k]).0 < p.len() by {
        }
        if v.last() != 0 {
            assert(e == ep.push(((v.len() - 1) as usize, v.last())));
            assert forall|k: int| 0 <= k < e.len() implies {
                let (i, w) = #[trigger] e[k];
                &&& i < v.len()
                &&& v[i as int] == w
                &&& w != 0
            } by {
                if k < ep.len() {
                    assert(e[k] == ep[k]);
                    assert(p[ep[k].0 as int] == v[ep[k].0 as int]);
                }
            }
            assert forall|k: int, l: int| 0 <= k < l < e.len() implies #[trigger] e[k].0
                < #[trigger] e[l].0 by {
                assert(e[k] == ep[k]);
                if l < ep.len() {
                    assert(e[l] == ep[l]);
                }
            }
            assert forall|i: int|
                0 <= i < v.len() && v[i] != 0 implies exists|k: int|
                    0 <= k < e.len() && #[trigger] e[k] == (i as usize, v[i]) by {
                if i == v.len() - 1 {
                    assert(e[ep.len() as int] == (i as usize, v[i]));
                } else {
                    assert(p[i] == v[i]);
                    let k = choose|k: int| 0 <= k < ep.len() && #[trigger] ep[k] == (i as usize, p[i]);
                    assert(e[k] == ep[k]);
                }
            }
        } else {
            assert(e == ep);
            assert forall|k: int| 0 <= k < e.len() implies {
                let (i, w) = #[trigger] e[k];
                &&& i < v.len()
                &&& v[i as int] == w
                &&& w != 0
            } by {
                assert(p[ep[k].0 as int] == v[ep[k].0 as int]);
            }
            assert forall|i: int|
                0 <= i < v.len() && v[i] != 0 implies exists|k: int|
                    0 <= k < e.len() && #[trigger] e[k] == (i as usize, v[i]) by {
                assert(p[i] == v[i]);
            }
        }
    }
}

/// A single compressed "word" in the run-length encoding.
///
/// - `ZeroRun(n)`:   represents `n` consecutive words of all-zeros
/// - `OneRun(n)`:    represents `n` consecutive words of all-ones
/// - `Literal(w)`:   represents exactly one word with arbitrary bits
#[derive(Debug, Clone, PartialEq, Eq)]
enum Segment {
    /// Repeat `0x0000...`.
    ZeroRun(usize),
    /// Repeat `0xffff...`.
    OneRun(usize),
    /// Non-uniform `u64` bit mask.
    Literal(u64),
}

/// The words that one segment stands for.
spec fn segment_words(seg: Segment) -> Seq<u64> {
    match seg {
        Segment::ZeroRun(n) => Seq::new(n as nat, |i: int| 0u64),
        Segment::OneRun(n) => Seq::new(n as nat, |i: int| 0xffff_ffff_ffff_ffffu64),
        Segment::Literal(w) => seq![w],
    }
}

/// The words that a sequence of segments stands for.
spec fn flatten(segs: Seq<Segment>) -> Seq<u64>
    decreases segs.len(),
{
    if segs.len() == 0 {
        Seq::empty()
    } else {
        flatten(segs.drop_last()) + segment_words(segs.last())
    }
}

/// Whether two neighbouring segments could not be merged into one run.
spec fn runs_differ(a: Segment, b: Segment) -> bool {
    !(a is ZeroRun && b is ZeroRun) && !(a is OneRun && b is OneRun)
}

/// A segment in canonical form: runs are not empty and literals are not uniform.
spec fn segment_wf(seg: Segment) -> bool {
    match seg {
        Segment::ZeroRun(n) => n > 0,
        Segment::OneRun(n) => n > 0,
        Segment::Literal(w) => w != 0 && w != 0xffff_ffff_ffff_ffffu64,
    }
}

/// Flattening a prefix gives a prefix of the flattened sequence.
proof fn lemma_flatten_prefix(segs: Seq<Segment>, m: int, n: int)
    requires
        0 <= m <= n <= segs.len(),
    ensures
        flatten(segs.take(m)).len() <= flatten(segs.take(n)).len(),
        flatten(segs.take(n)).subrange(0, flatten(segs.take(m)).len() as int) == flatten(
            segs.take(m),
        ),
    decreases n - m,
{
    if m < n {
        lemma_flatten_prefix(segs, m, n - 1);
        assert(segs.take(n).drop_last() =~= segs.take(n - 1));
        let a = flatten(segs.take(n - 1));
        let b = flatten(segs.take(m));
        assert((a + segment_words(segs[n - 1])).subrange(0, b.len() as int) =~= a.subrange(
            0,
            b.len() as int,
        ));
    }
}

/// Flattening one more segment appends that segment's words.
proof fn lemma_flatten_take_step(segs: Seq<Segment>, j: int)
    requires
        0 <= j < segs.len(),
    ensures
        flatten(segs.take(j + 1)) == flatten(segs.take(j)) + segment_words(segs[j]),
{
    assert(segs.take(j + 1).drop_last() =~= segs.take(j));
}

/// A position inside segment `j` reads that segment's word.
proof fn lemma_flatten_get(segs: Seq<Segment>, j: int, i: int, rem: int)
    requires
        0 <= j < segs.len(),
        0 <= rem,
        rem + flatten(segs.take(j)).len() == i,
        rem < segment_words(segs[j]).len(),
    ensures
        i < flatten(segs).len(),
        flatten(segs)[i] == segment_words(segs[j])[rem],
{
    lemma_flatten_take_step(segs, j);
    lemma_flatten_prefix(segs, j + 1, segs.len() as int);
    assert(segs.take(segs.len() as int) =~= segs);
    let whole = flatten(segs);
    let pre = flatten(segs.take(j + 1));
    assert(whole.subrange(0, pre.len() as int)[i] == whole[i]);
}

/// Zero words add nothing to the non-zero entries.
proof fn lemma_nonzero_entries_zeros(a: Seq<u64>, n: nat)
    ensures
        nonzero_entries(a + Seq::new(n, |i: int| 0u64)) == nonzero_entries(a),
    decreases n,
{
    if n == 0 {
        assert(a + Seq::new(0, |i: int| 0u64) =~= a);
    } else {
        let s = a + Seq::new(n, |i: int| 0u64);
        assert(s.drop_last() =~= a + Seq::new((n - 1) as nat, |i: int| 0u64));
        lemma_nonzero_entries_zeros(a, (n - 1) as nat);
    }
}

/// Zero words add nothing to the set bit count.
proof fn lemma_ones_total_zeros(a: Seq<u64>, n: nat)
    ensures
        ones_total(a + Seq::new(n, |i: int| 0u64)) == ones_total(a),
    decreases n,
{
    if n == 0 {
        assert(a + Seq::new(0, |i: int| 0u64) =~= a);
    } else {
        let s = a + Seq::new(n, |i: int| 0u64);
        assert(s.drop_last() =~= a + Seq::new((n - 1) as nat, |i: int| 0u64));
        lemma_ones_total_zeros(a, (n - 1) as nat);
    }
}

/// Full words add 64 set bits each.
proof fn lemma_ones_total_full(a: Seq<u64>, n: nat)
    ensures
        ones_total(a + Seq::new(n, |i: int| 0xffff_ffff_ffff_ffffu64)) == ones_total(a) + 64 * n,
    decreases n,
{
    if n == 0 {
        assert(a + Seq::new(0, |i: int| 0xffff_ffff_ffff_ffffu64) =~= a);
    } else {
        let s = a + Seq::new(n, |i: int| 0xffff_ffff_ffff_ffffu64);
        assert(s.drop_last() =~= a + Seq::new((n - 1) as nat, |i: int| 0xffff_ffff_ffff_ffffu64));
        lemma_ones_total_full(a, (n - 1) as nat);
        lemma_popcount_all_ones();
    }
}

/// The set bit count of a prefix is at most that of the whole sequence.
proof fn lemma_ones_total_prefix(s: Seq<u64>, n: int)
    requires
        0 <= n <= s.len(),
    ensures
        ones_total(s.take(n)) <= ones_total(s),
    decreases s.len() - n,
{
    if n < s.len() {
        lemma_ones_total_prefix(s, n + 1);
        assert(s.take(n + 1).drop_last() =~= s.take(n));
    } else {
        assert(s.take(n) =~= s);
    }
}

/// A sequence of `u64` masks, compressed by run-length encoding.
#[derive(Debug, Clone)]
pub struct CompressedMasks {
    segments: Vec<Segment>,
    // Total number of words represented (kept in sync with pushes).
    len_words: usize,
}

impl View for CompressedMasks {
    type V = Seq<u64>;

    /// The uncompressed sequence of words.
    closed spec fn view(&self) -> Seq<u64> {
        flatten(self.segments@)
    }
}

impl CompressedMasks {
    /// The compressed representation is canonical (no empty run, no uniform literal,
    /// no run next to a run of the same kind) and its word count is up to date.
    pub closed spec fn wf(&self) -> bool {
        &&& self.len_words == flatten(self.segments@).len()
        &&& forall|i: int| 0 <= i < self.segments@.len() ==> #[trigger] segment_wf(self.segments@[i])
        &&& forall|i: int|
            0 < i < self.segments@.len() ==> runs_differ(self.segments@[i - 1], #[trigger] self.segments@[i])
    }

    /// Create an empty sequence.
    pub fn new() -> (r: Self)
        ensures
            r.wf(),
            r@ == Seq::<u64>::empty(),
    {
        CompressedMasks { segments: Vec::new(), len_words: 0 }
    }

    /// Clear the content.
    pub fn clear(&mut self)
        ensures
            final(self).wf(),
            final(self)@ == Seq::<u64>::empty(),
    {
        self.segments.clear();
        self.len_words = 0;
    }

    /// Push a new 64-bit mask on the end, merging into the last run if possible.
    pub fn push(&mut self, word: u64)
        requires
            old(self).wf(),
            old(self)@.len() < usize::MAX,
        ensures
            final(self).wf(),
            final(self)@ == old(self)@.push(word),
    {
        let ghost segs = self.segments@;
        self.len_words = self.len_words + 1;
        let n = self.segments.len();
        let mut merged = false;
        if n > 0 {
            proof {
                assert(segs.drop_last() =~= segs.take(n - 1));
                lemma_flatten_take_step(segs, n - 1);
                assert(segs.take(n as int) =~= segs);
            }
            match self.segments[n - 1] {
                Segment::ZeroRun(c) => {
                    if word == 0 {
                        self.segments.set(n - 1, Segment::ZeroRun(c + 1));
                        merged = true;
                        proof {
                            let s2 = self.segments@;
                            assert(s2.drop_last() =~= segs.drop_last());
                            assert(segment_words(Segment::ZeroRun((c + 1) as usize))
                                =~= segment_words(Segment::ZeroRun(c)).push(0u64));
                            assert forall|i: int|
                                0 <= i < s2.len() implies #[trigger] segment_wf(s2[i]) by {
                                if i < n - 1 {
                                    assert(s2[i] == segs[i]);
                                }
                            }
                            assert forall|i: int| 0 < i < s2.len() implies runs_differ(s2[i - 1], #[trigger] s2[i]) by {
                                assert(s2[i - 1] == segs[i - 1]);
                                assert(runs_differ(segs[i - 1], segs[i]));
                            }
                        }
                    }
                },
                Segment::OneRun(c) => {
                    if word == 0xffff_ffff_ffff_ffffu64 {
                        self.segments.set(n - 1, Segment::OneRun(c + 1));
                        merged = true;
                        proof {
                            let s2 = self.segments@;
                            assert(s2.drop_last() =~= segs.drop_last());
                            assert(segment_words(Segment::OneRun((c + 1) as usize))
                                =~= segment_words(Segment::OneRun(c)).push(
                                0xffff_ffff_ffff_ffffu64,
                            ));
                            assert forall|i: int|
                                0 <= i < s2.len() implies #[trigger] segment_wf(s2[i]) by {
                                if i < n - 1 {
                                    assert(s2[i] == segs[i]);
                                }
                            }
                            assert forall|i: int| 0 < i < s2.len() implies runs_differ(s2[i - 1], #[trigger] s2[i]) by {
                                assert(s2[i - 1] == segs[i - 1]);
                                assert(runs_differ(segs[i - 1], segs[i]));
                            }
                        }
                    }
                },
                Segment::Literal(_) => {},
            }
        }
        if !merged {
            let seg = if word == 0 {
                Segment::ZeroRun(1)
            } else if word == 0xffff_ffff_ffff_ffffu64 {
                Segment::OneRun(1)
            } else {
                Segment::Literal(word)
            };
            self.segments.push(seg);
            proof {
                let s2 = self.segments@;
                assert(s2.drop_last() =~= segs);
                assert(segment_words(seg) =~= seq![word]);
                assert forall|i: int| 0 <= i < s2.len() implies #[trigger] segment_wf(s2[i]) by {
                    if i < n {
                        assert(s2[i] == segs[i]);
                    }
                }
                assert forall|i: int| 0 < i < s2.len() implies runs_differ(s2[i - 1], #[trigger] s2[i]) by {
                    assert(s2[i - 1] == segs[i - 1]);
                    if i < n {
                        assert(s2[i] == segs[i]);
                        assert(runs_differ(segs[i - 1], segs[i]));
                    }
                }
            }
        }
    }

    /// Get the uncompressed length (number of `u64` words).
    pub fn len(&self) -> (r: usize)
        requires
            self.wf(),
        ensures
            r == self@.len(),
    {
        self.len_words
    }

    /// Counts the total number of ones.
    pub fn count_ones(&self) -> (r: u64)
        requires
            self.wf(),
            ones_total(self@) <= u64::MAX,
        ensures
            r == ones_total(self@),
    {
        let segs = &self.segments;
        let n = segs.len();
        let mut sum: u64 = 0;
        let mut i: usize = 0;
        proof {
            assert(segs@.take(0) =~= Seq::<Segment>::empty());
            assert(segs@.take(n as int) =~= segs@);
        }
        while i < n
            invariant
                n == segs@.len(),
                segs@ == self.segments@,
                0 <= i <= n,
                sum == ones_total(flatten(segs@.take(i as int))),
                ones_total(flatten(segs@)) <= u64::MAX,
                segs@.take(n as int) == segs@,
                forall|k: int| 0 <= k < segs@.len() ==> #[trigger] segment_wf(segs@[k]),
            decreases n - i,
        {
            proof {
                lemma_flatten_take_step(segs@, i as int);
                lemma_flatten_prefix(segs@, i + 1, n as int);
                let whole = flatten(segs@);
                let pre = flatten(segs@.take(i + 1));
                assert(whole.take(pre.len() as int) == pre);
                lemma_ones_total_prefix(whole, pre.len() as int);
            }
            match segs[i] {
                Segment::ZeroRun(c) => {
                    proof {
                        lemma_ones_total_zeros(flatten(segs@.take(i as int)), c as nat);
                    }
                },
                Segment::OneRun(c) => {
                    proof {
                        lemma_ones_total_full(flatten(segs@.take(i as int)), c as nat);
                    }
                    sum = sum + 64 * (c as u64);
                },
                Segment::Literal(w) => {
                    proof {
                        let a = flatten(segs@.take(i as int));
                        assert((a + seq![w]).drop_last() =~= a);
                    }
                    let p = popcount_u64(w);
                    sum = sum + p as u64;
                },
            }
            i = i + 1;
        }
        sum
    }

    /// Returns the word at position `i`, decompressing on the fly.
    pub fn get(&self, i: usize) -> (r: Option<u64>)
        requires
            self.wf(),
        ensures
            r == (if i < self@.len() {
                Some(self@[i as int])
            } else {
                None::<u64>
            }),
    {
        if i >= self.len_words {
            return None;
        }
        let segs = &self.segments;
        let n = segs.len();
        let mut j: usize = 0;
        let mut rem: usize = i;
        proof {
            assert(segs@.take(0) =~= Seq::<Segment>::empty());
            assert(segs@.take(n as int) =~= segs@);
        }
        while j < n
            invariant
                n == segs@.len(),
                segs@ == self.segments@,
                0 <= j <= n,
                i < flatten(segs@).len(),
                segs@.take(n as int) == segs@,
                rem + flatten(segs@.take(j as int)).len() == i,
            decreases n - j,
        {
            proof {
                lemma_flatten_take_step(segs@, j as int);
                if rem < segment_words(segs@[j as int]).len() {
                    lemma_flatten_get(segs@, j as int, i as int, rem as int);
                }
            }
            match segs[j] {
                Segment::ZeroRun(count) => {
                    if rem < count {
                        assert(segment_words(segs@[j as int])[rem as int] == 0);
                        return Some(0);
                    }
                    rem = rem - count;
                },
                Segment::OneRun(count) => {
                    if rem < count {
                        assert(segment_words(segs@[j as int])[rem as int] == 0xffff_ffff_ffff_ffffu64);
                        return Some(0xffff_ffff_ffff_ffffu64);
                    }
                    rem = rem - count;
                },
                Segment::Literal(w) => {
                    if rem == 0 {
                        return Some(w);
                    }
                    rem = rem - 1;
                },
            }
            j = j + 1;
        }
        None
    }

    /// Lists the decompressed words with their positions, skipping zero runs.
    ///
    /// Since a literal is never zero, this lists exactly the non-zero words.
    pub fn iter(&self) -> (r: Vec<(usize, u64)>)
        requires
            self.wf(),
        ensures
            r@ == nonzero_entries(self@),
    {
        let segs = &self.segments;
        let n = segs.len();
        let mut res: Vec<(usize, u64)> = Vec::new();
        let mut offset: usize = 0;
        let mut j: usize = 0;
        proof {
            assert(segs@.take(0) =~= Seq::<Segment>::empty());
            assert(segs@.take(n as int) =~= segs@);
        }
        while j < n
            invariant
                n == segs@.len(),
                segs@ == self.segments@,
                0 <= j <= n,
                segs@.take(n as int) == segs@,
                flatten(segs@).len() <= usize::MAX,
                offset == flatten(segs@.take(j as int)).len(),
                res@ == nonzero_entries(flatten(segs@.take(j as int))),
                forall|k: int| 0 <= k < segs@.len() ==> #[trigger] segment_wf(segs@[k]),
            decreases n - j,
        {
            proof {
                lemma_flatten_take_step(segs@, j as int);
                lemma_flatten_prefix(segs@, j + 1, n as int);
            }
            let ghost pre = flatten(segs@.take(j as int));
            match segs[j] {
                Segment::ZeroRun(count) => {
                    proof {
                        lemma_nonzero_entries_zeros(pre, count as nat);
                    }
                    offset = offset + count;
                    proof {
                        assert(segment_words(segs@[j as int]) =~= Seq::new(count as nat, |i: int| 0u64));
                    }
                },
                Segment::OneRun(count) => {
                    let mut k: usize = 0;
                    proof {
                        assert(pre + Seq::new(0, |x: int| 0xffff_ffff_ffff_ffffu64) =~= pre);
                    }
                    while k < count
                        invariant
                            0 <= k <= count,
                            offset + count <= usize::MAX,
                            offset == pre.len(),
                            res@ == nonzero_entries(
                                pre + Seq::new(k as nat, |x: int| 0xffff_ffff_ffff_ffffu64),
                            ),
                        decreases count - k,
                    {
                        let ghost cur = pre + Seq::new(k as nat, |x: int| 0xffff_ffff_ffff_ffffu64);
                        let ghost next = pre + Seq::new(
                            (k + 1) as nat,
                            |x: int| 0xffff_ffff_ffff_ffffu64,
                        );
                        proof {
                            assert(next.drop_last() =~= cur);
                        }
                        res.push((offset + k, 0xffff_ffff_ffff_ffffu64));
                        k = k + 1;
                    }
                    offset = offset + count;
                    proof {
                        assert(segment_words(segs@[j as int]) =~= Seq::new(
                            count as nat,
                            |x: int| 0xffff_ffff_ffff_ffffu64,
                        ));
                    }
                },
                Segment::Literal(w) => {
                    proof {
                        assert(segment_wf(segs@[j as int]));
                        assert(segment_words(segs@[j as int]) == seq![w]);
                        assert((pre + seq![w]).drop_last() =~= pre);
                        assert((pre + seq![w]).last() == w);
                    }
                    res.push((offset, w));
                    offset = offset + 1;
                },
            }
            j = j + 1;
        }
        res
    }
}

} // verus!
