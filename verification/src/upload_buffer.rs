//! The upload buffer: a ring allocator over a persistently mapped GPU buffer.
//!
//! Allocations are placed one after the other; each allocation is tagged with
//! the fence value after which the GPU no longer reads it. `reclaim` frees, in
//! allocation order, the regions whose fence value has been reached.
//! The byte copy into the mapped memory is done by the caller at the returned
//! offset.

use vstd::prelude::*;
use std::collections::VecDeque;
use crate::fence::FenceValue;

verus! {

/// An allocated region `[begin_ptr, end_ptr)` of the buffer, in use by the GPU
/// until `fence_value` is reached.
#[derive(Clone, Copy, Debug)]
pub struct FencedRegion {
    pub fence_value: FenceValue,
    pub begin_ptr: usize,
    pub end_ptr: usize,
}

/// Bookkeeping of the ring: the next write position, the start of the oldest
/// live data, the number of bytes in live regions, and the live regions in
/// allocation order.
pub struct UploadBufferState {
    write: usize,
    begin: usize,
    used: usize,
    fenced_regions: VecDeque<FencedRegion>,
    /// Lap (number of wrap-arounds) of each live region.
    laps: Ghost<Seq<int>>,
    /// Lap of `begin`.
    begin_lap: Ghost<int>,
    /// Lap of `write`.
    write_lap: Ghost<int>,
}

/// An upload buffer of `buffer_size` bytes.
pub struct UploadBuffer {
    buffer_size: usize,
    state: UploadBufferState,
}

/// The padding that `align_offset` adds to `ptr`: `align` minus the low bits
/// `ptr & (align - 1)`, or zero when those bits are zero.
pub open spec fn align_padding(align: usize, ptr: usize) -> int {
    let low = ptr & ((align - 1) as usize);
    if low > 0 {
        align - low
    } else {
        0
    }
}

/// Where `align_offset` places `size` bytes starting from `ptr` with `space`
/// bytes available: `ptr` plus the padding, if padding and data fit.
pub open spec fn spec_align_offset(align: usize, size: usize, ptr: usize, space: usize) -> Option<
    int,
> {
    let off = align_padding(align, ptr);
    if space < off || space - off < size {
        None
    } else {
        Some(ptr + off)
    }
}

/// `align` is a power of two.
pub open spec fn is_pow2(align: usize) -> bool {
    align != 0 && align & ((align - 1) as usize) == 0
}

/// Sum of the sizes of the regions `(begin, end, fence)`.
pub open spec fn total_size(rs: Seq<(int, int, i64)>) -> int
    decreases rs.len(),
{
    if rs.len() == 0 {
        0
    } else {
        (rs[0].1 - rs[0].0) + total_size(rs.drop_first())
    }
}

/// Two byte ranges `[b1, e1)` and `[b2, e2)` share no byte.
pub open spec fn ranges_disjoint(b1: int, e1: int, b2: int, e2: int) -> bool {
    e1 <= b2 || e2 <= b1 || b1 == e1 || b2 == e2
}

proof fn lemma_padding_bounds(align: usize, ptr: usize)
    requires
        align >= 1,
    ensures
        0 <= align_padding(align, ptr) < align,
{
    let a1 = (align - 1) as usize;
    assert((ptr & a1) <= a1) by (bit_vector);
}

/// With a power-of-two alignment, `align_offset` returns a position whose low
/// bits (`align - 1`) are zero, at least `ptr` and less than `ptr + align`.
pub proof fn lemma_align_offset_aligned(align: usize, size: usize, ptr: usize, space: usize)
    requires
        is_pow2(align),
        spec_align_offset(align, size, ptr, space) is Some,
        ptr + align_padding(align, ptr) <= usize::MAX,
    ensures
        (spec_align_offset(align, size, ptr, space).unwrap() as usize) & ((align - 1) as usize)
            == 0,
        ptr <= spec_align_offset(align, size, ptr, space).unwrap() < ptr + align,
{
    let a1 = (align - 1) as usize;
    lemma_padding_bounds(align, ptr);
    let low = ptr & a1;
    if low > 0 {
        let p = (ptr + (align - low)) as usize;
        assert(align != 0 && (align & a1) == 0 && a1 + 1 == align && low == (ptr & a1) && low > 0
            && p == ptr + (align - low) ==> (p & a1) == 0)
            by (bit_vector);
    }
}

/// With a power-of-two `align`, a position whose low bits (`align - 1`) are
/// zero is a multiple of `align`.
pub proof fn lemma_low_bits_zero_is_multiple(align: usize, x: usize)
    requires
        is_pow2(align),
        x & ((align - 1) as usize) == 0,
    ensures
        x % align == 0,
    decreases align,
{
    if align > 1 {
        let a1 = (align - 1) as usize;
        let h = align / 2;
        let h1 = (h - 1) as usize;
        assert(align & a1 == 0 && a1 + 1 == align && align > 1 && h == align / 2 && h1 + 1 == h && (x
            & a1) == 0 ==> align == 2 * h && (h & h1) == 0 && ((x / 2) & h1) == 0 && x % 2 == 0)
            by (bit_vector);
        lemma_low_bits_zero_is_multiple(h, x / 2);
        let k = (x / 2) / h;
        assert(x == align * k) by (nonlinear_arith)
            requires
                x % 2 == 0,
                (x / 2) % h == 0,
                align == 2 * h,
                h > 0,
                k == (x / 2) / h,
        ;
        vstd::arithmetic::div_mod::lemma_mod_multiples_basic(k as int, align as int);
        assert(k * align == align * k) by (nonlinear_arith);
    }
}

/// Places `size` bytes aligned to `align` at or after `ptr` within `space`
/// bytes; returns the aligned position, or `None` when padding and data do not
/// fit. `align` is used through its low bits (`align - 1`), as for a power of two.
pub fn align_offset(align: usize, size: usize, ptr: usize, space: usize) -> (r: Option<usize>)
    requires
        align >= 1,
        spec_align_offset(align, size, ptr, space) is Some ==> ptr + align_padding(align, ptr)
            <= usize::MAX,
    ensures
        match r {
            Some(p) => spec_align_offset(align, size, ptr, space) == Some(p as int),
            None => spec_align_offset(align, size, ptr, space) is None,
        },
{
    proof {
        lemma_padding_bounds(align, ptr);
    }
    let mut off = ptr & (align - 1);
    if off > 0 {
        off = align - off;
    };
    if space < off || space - off < size {
        None
    } else {
        Some(ptr + off)
    }
}

proof fn lemma_total_size_push(rs: Seq<(int, int, i64)>, x: (int, int, i64))
    ensures
        total_size(rs.push(x)) == total_size(rs) + (x.1 - x.0),
    decreases rs.len(),
{
    let s = rs.push(x);
    if rs.len() == 0 {
        assert(s[0] == x);
        assert(s.drop_first() =~= Seq::<(int, int, i64)>::empty());
        assert(total_size(s.drop_first()) == 0);
        assert(total_size(s) == (x.1 - x.0) + total_size(s.drop_first()));
    } else {
        assert(s[0] == rs[0]);
        assert(s.drop_first() =~= rs.drop_first().push(x));
        lemma_total_size_push(rs.drop_first(), x);
        assert(total_size(s) == (s[0].1 - s[0].0) + total_size(s.drop_first()));
    }
}

proof fn lemma_total_size_nonneg(rs: Seq<(int, int, i64)>)
    requires
        forall|i: int| 0 <= i < rs.len() ==> rs[i].0 <= rs[i].1,
    ensures
        total_size(rs) >= 0,
    decreases rs.len(),
{
    if rs.len() > 0 {
        lemma_total_size_nonneg(rs.drop_first());
    }
}

/// Lexicographic order on (lap, position) pairs.
pub open spec fn lex_le(l1: int, p1: int, l2: int, p2: int) -> bool {
    l1 < l2 || (l1 == l2 && p1 <= p2)
}

impl UploadBuffer {
    /// Size of the buffer in bytes.
    pub closed spec fn spec_buffer_size(&self) -> int {
        self.buffer_size as int
    }

    /// Position where the next allocation is attempted.
    pub closed spec fn spec_write(&self) -> int {
        self.state.write as int
    }

    /// End of the most recently reclaimed region (start of the live data).
    pub closed spec fn spec_begin(&self) -> int {
        self.state.begin as int
    }

    /// Number of bytes in live regions.
    pub closed spec fn spec_used(&self) -> int {
        self.state.used as int
    }

    /// Live regions `(begin, end, fence value)`, oldest first.
    pub closed spec fn spec_regions(&self) -> Seq<(int, int, i64)> {
        self.state.fenced_regions@.map_values(
            |r: FencedRegion| (r.begin_ptr as int, r.end_ptr as int, r.fence_value.0),
        )
    }

    pub open spec fn spec_placement(&self, size: usize, align: usize) -> Option<int> {
        ring_placement(
            self.spec_buffer_size(),
            self.spec_write(),
            self.spec_begin(),
            self.spec_used(),
            size,
            align,
        )
    }

    /// Number of leading live regions whose fence value is at most `until`.
    pub open spec fn spec_reclaim_count(&self, until: i64) -> int {
        reclaimable_prefix(self.spec_regions(), until)
    }

    spec fn region(&self, i: int) -> FencedRegion {
        self.state.fenced_regions@[i]
    }

    spec fn lap(&self, i: int) -> int {
        self.state.laps@[i]
    }

    spec fn cursor_lap(&self, i: int) -> int {
        if i == 0 {
            self.state.begin_lap@
        } else {
            self.lap(i - 1)
        }
    }

    spec fn cursor_pos(&self, i: int) -> int {
        if i == 0 {
            self.state.begin as int
        } else {
            self.region(i - 1).end_ptr as int
        }
    }

    /// Position on the unrolled ring, counted from the start of `begin`'s lap.
    spec fn vpos(&self, lap: int, pos: int) -> int {
        if lap == self.state.begin_lap@ {
            pos
        } else {
            pos + self.buffer_size
        }
    }

    spec fn vwrite(&self) -> int {
        self.vpos(self.state.write_lap@, self.state.write as int)
    }

    /// Internal consistency of the ring.
    pub closed spec fn wf(&self) -> bool {
        let n = self.state.fenced_regions@.len();
        let bl = self.state.begin_lap@;
        let wl = self.state.write_lap@;
        let begin = self.state.begin as int;
        let write = self.state.write as int;
        &&& self.state.laps@.len() == n
        &&& begin <= self.buffer_size
        &&& write <= self.buffer_size
        &&& self.state.used as int == total_size(self.spec_regions())
        &&& (wl == bl || wl == bl + 1)
        &&& (wl == bl ==> begin <= write)
        &&& (wl == bl + 1 ==> write <= begin)
        &&& (wl == bl + 1 && write == begin ==> self.state.used > 0)
        &&& forall|i: int|
            0 <= i < n ==> {
                &&& #[trigger] self.region(i).begin_ptr <= self.region(i).end_ptr
                &&& self.region(i).end_ptr <= self.buffer_size
                &&& lex_le(bl, begin, self.lap(i), self.region(i).begin_ptr as int)
                &&& lex_le(self.lap(i), self.region(i).end_ptr as int, wl, write)
                &&& ((self.lap(i) == self.cursor_lap(i) && self.cursor_pos(i)
                    <= self.region(i).begin_ptr && (self.cursor_pos(i) == 0
                    ==> self.region(i).begin_ptr == 0)) || (self.lap(i) == self.cursor_lap(i) + 1
                    && self.region(i).begin_ptr == 0 && self.cursor_pos(i) > 0))
            }
        &&& forall|i: int, j: int|
            0 <= i < j < n ==> lex_le(
                self.lap(i),
                #[trigger] self.region(i).end_ptr as int,
                self.lap(j),
                #[trigger] self.region(j).begin_ptr as int,
            )
        &&& wl == self.cursor_lap(n as int)
        &&& write == self.cursor_pos(n as int)
        &&& forall|j: int|
            0 <= j <= n ==> total_size(#[trigger] self.spec_regions().subrange(j, n as int))
                <= self.vwrite() - self.vpos(self.cursor_lap(j), self.cursor_pos(j))
    }
}

/// Length of the longest prefix of `rs` whose fence values are at most `until`.
pub open spec fn reclaimable_prefix(rs: Seq<(int, int, i64)>, until: i64) -> int
    decreases rs.len(),
{
    if rs.len() > 0 && rs[0].2 <= until {
        1 + reclaimable_prefix(rs.drop_first(), until)
    } else {
        0
    }
}


/// The live data of a ring with these cursors does not wrap around the end of
/// the buffer: `begin` is before `write`, or they meet on an empty ring.
pub open spec fn ring_is_contiguous(write: int, begin: int, used: int) -> bool {
    begin < write || (begin == write && used == 0)
}

/// Where `size` bytes with alignment `align` go in a ring of `buffer_size`
/// bytes with these cursors: when the live data does not wrap, in the tail
/// after `write` if padding and data fit there, else at offset 0 if `size`
/// does not exceed `begin`; when it wraps, in the gap between `write` and
/// `begin`.
pub open spec fn ring_placement(
    buffer_size: int,
    write: int,
    begin: int,
    used: int,
    size: usize,
    align: usize,
) -> Option<int> {
    if ring_is_contiguous(write, begin, used) {
        match spec_align_offset(align, size, write as usize, (buffer_size - write) as usize) {
            Some(p) => Some(p),
            None => if size > begin {
                None
            } else {
                Some(0)
            },
        }
    } else {
        spec_align_offset(align, size, write as usize, (begin - write) as usize)
    }
}

proof fn lemma_total_size_zero(rs: Seq<(int, int, i64)>)
    requires
        forall|i: int| 0 <= i < rs.len() ==> rs[i].0 <= rs[i].1,
        total_size(rs) == 0,
    ensures
        forall|i: int| 0 <= i < rs.len() ==> rs[i].0 == rs[i].1,
    decreases rs.len(),
{
    if rs.len() > 0 {
        lemma_total_size_nonneg(rs.drop_first());
        lemma_total_size_zero(rs.drop_first());
        assert forall|i: int| 0 <= i < rs.len() implies rs[i].0 == rs[i].1 by {
            if i > 0 {
                assert(rs[i] == rs.drop_first()[i - 1]);
            }
        }
    }
}

impl UploadBuffer {
    /// Number of regions in the state.
    spec fn count(&self) -> int {
        self.state.fenced_regions@.len() as int
    }

    proof fn lemma_region_view(&self)
        ensures
            self.spec_regions().len() == self.count(),
            forall|i: int|
                0 <= i < self.count() ==> #[trigger] self.spec_regions()[i] == (
                    self.region(i).begin_ptr as int,
                    self.region(i).end_ptr as int,
                    self.region(i).fence_value.0,
                ),
    {
    }

    /// From a cursor on, a chain of empty regions either stays on the
    /// cursor's lap, or wraps once from a nonzero position and ends at 0.
    proof fn lemma_empty_chain(&self, k: int)
        requires
            self.wf(),
            0 <= k <= self.count(),
            forall|i: int|
                k <= i < self.count() ==> #[trigger] self.region(i).begin_ptr
                    == self.region(i).end_ptr,
        ensures
            (self.cursor_lap(self.count()) == self.cursor_lap(k) && (self.cursor_pos(k) == 0
                ==> self.cursor_pos(self.count()) == 0)) || (self.cursor_lap(self.count())
                == self.cursor_lap(k) + 1 && self.cursor_pos(self.count()) == 0
                && self.cursor_pos(k) > 0),
        decreases self.count() - k,
    {
        if k < self.count() {
            assert(self.region(k).begin_ptr <= self.region(k).end_ptr);
            self.lemma_empty_chain(k + 1);
        }
    }

    /// The ring does not wrap exactly when `write` is on `begin`'s lap.
    proof fn lemma_contiguous_lap(&self)
        requires
            self.wf(),
        ensures
            ring_is_contiguous(self.spec_write(), self.spec_begin(), self.spec_used())
                <==> self.state.write_lap@ == self.state.begin_lap@,
            self.spec_used() <= self.vwrite() - self.vpos(
                self.state.begin_lap@,
                self.state.begin as int,
            ),
            self.vwrite() - self.vpos(self.state.begin_lap@, self.state.begin as int)
                <= self.buffer_size,
    {
        let n = self.count();
        assert(self.spec_regions().subrange(0, n) =~= self.spec_regions());
    }

    /// Appending a region at `p` of `size` bytes, after `write` on its lap
    /// (`wrap` false) or at 0 on the next lap (`wrap` true), keeps the ring
    /// consistent.
    proof fn lemma_push_wf(pre: UploadBuffer, post: UploadBuffer, p: int, size: int, wrap: bool)
        requires
            pre.wf(),
            0 <= size,
            post.buffer_size == pre.buffer_size,
            post.state.begin == pre.state.begin,
            post.state.begin_lap@ == pre.state.begin_lap@,
            post.state.write as int == p + size,
            post.state.used as int == pre.state.used + size,
            post.state.write_lap@ == (if wrap {
                pre.state.write_lap@ + 1
            } else {
                pre.state.write_lap@
            }),
            post.state.fenced_regions@.len() == pre.count() + 1,
            forall|i: int| 0 <= i < pre.count() ==> post.region(i) == pre.region(i),
            post.region(pre.count()).begin_ptr == p,
            post.region(pre.count()).end_ptr == p + size,
            post.state.laps@ == pre.state.laps@.push(post.state.write_lap@),
            wrap ==> pre.state.write_lap@ == pre.state.begin_lap@ && p == 0 && size
                <= pre.state.begin && pre.state.write > 0,
            !wrap ==> pre.state.write <= p && (pre.state.write == 0 ==> p == 0) && p + size <= (
            if pre.state.write_lap@ == pre.state.begin_lap@ {
                pre.buffer_size as int
            } else {
                pre.state.begin as int
            }),
        ensures
            post.wf(),
            post.spec_regions() == pre.spec_regions().push(
                (p, p + size, post.region(pre.count()).fence_value.0),
            ),
    {
        let n = pre.count();
        let x = (p, p + size, post.region(n).fence_value.0);
        pre.lemma_region_view();
        post.lemma_region_view();
        assert(post.spec_regions() =~= pre.spec_regions().push(x));
        lemma_total_size_push(pre.spec_regions(), x);
        assert forall|i: int| 0 <= i <= n implies post.lap(i) == (if i < n {
            pre.lap(i)
        } else {
            post.state.write_lap@
        }) && post.cursor_lap(i) == pre.cursor_lap(i) && post.cursor_pos(i)
            == pre.cursor_pos(i) by {}
        // the (write, lap) cursor only moves forward
        assert forall|i: int| 0 <= i < n + 1 implies {
            &&& #[trigger] post.region(i).begin_ptr <= post.region(i).end_ptr
            &&& post.region(i).end_ptr <= post.buffer_size
            &&& lex_le(
                post.state.begin_lap@,
                post.state.begin as int,
                post.lap(i),
                post.region(i).begin_ptr as int,
            )
            &&& lex_le(
                post.lap(i),
                post.region(i).end_ptr as int,
                post.state.write_lap@,
                post.state.write as int,
            )
            &&& ((post.lap(i) == post.cursor_lap(i) && post.cursor_pos(i)
                <= post.region(i).begin_ptr && (post.cursor_pos(i) == 0
                ==> post.region(i).begin_ptr == 0)) || (post.lap(i) == post.cursor_lap(i) + 1
                && post.region(i).begin_ptr == 0 && post.cursor_pos(i) > 0))
        } by {
            if i < n {
                assert(pre.region(i).begin_ptr <= pre.region(i).end_ptr);
            }
        }
        assert forall|i: int, j: int| 0 <= i < j < n + 1 implies lex_le(
            post.lap(i),
            #[trigger] post.region(i).end_ptr as int,
            post.lap(j),
            #[trigger] post.region(j).begin_ptr as int,
        ) by {
            if j < n {
                assert(lex_le(
                    pre.lap(i),
                    pre.region(i).end_ptr as int,
                    pre.lap(j),
                    pre.region(j).begin_ptr as int,
                ));
            } else {
                assert(pre.region(i).begin_ptr <= pre.region(i).end_ptr);
            }
        }
        // a full lap never holds only empty regions
        if post.state.write_lap@ == post.state.begin_lap@ + 1 && post.state.write
            == post.state.begin && post.state.used == 0 {
            assert forall|i: int| 0 <= i < pre.spec_regions().len() implies pre.spec_regions()[i].0
                <= pre.spec_regions()[i].1 by {
                assert(pre.region(i).begin_ptr <= pre.region(i).end_ptr);
            }
            lemma_total_size_zero(pre.spec_regions());
            assert forall|i: int| 0 <= i < n implies #[trigger] pre.region(i).begin_ptr
                == pre.region(i).end_ptr by {
                assert(pre.spec_regions()[i].0 == pre.spec_regions()[i].1);
            }
            pre.lemma_empty_chain(0);
            assert(false);
        }
        pre.lemma_contiguous_lap();
        assert forall|j: int| 0 <= j <= n + 1 implies total_size(
            #[trigger] post.spec_regions().subrange(j, n + 1),
        ) <= post.vwrite() - post.vpos(post.cursor_lap(j), post.cursor_pos(j)) by {
            if j <= n {
                assert(post.spec_regions().subrange(j, n + 1) =~= pre.spec_regions().subrange(
                    j,
                    n,
                ).push(x));
                lemma_total_size_push(pre.spec_regions().subrange(j, n), x);
                assert(total_size(pre.spec_regions().subrange(j, n)) <= pre.vwrite() - pre.vpos(
                    pre.cursor_lap(j),
                    pre.cursor_pos(j),
                ));
            } else {
                assert(post.spec_regions().subrange(j, n + 1) =~= Seq::<
                    (int, int, i64),
                >::empty());
            }
        }
    }

    /// Removing the oldest region, and moving `begin` to its end, keeps the
    /// ring consistent.
    proof fn lemma_pop_wf(pre: UploadBuffer, post: UploadBuffer)
        requires
            pre.wf(),
            pre.count() > 0,
            post.buffer_size == pre.buffer_size,
            post.state.write == pre.state.write,
            post.state.write_lap@ == pre.state.write_lap@,
            post.state.begin == pre.region(0).end_ptr,
            post.state.begin_lap@ == pre.lap(0),
            post.state.used as int == pre.state.used - (pre.region(0).end_ptr
                - pre.region(0).begin_ptr),
            post.state.fenced_regions@ == pre.state.fenced_regions@.drop_first(),
            post.state.laps@ == pre.state.laps@.drop_first(),
        ensures
            post.wf(),
            post.spec_regions() == pre.spec_regions().drop_first(),
    {
        let n = pre.count();
        pre.lemma_region_view();
        post.lemma_region_view();
        assert(post.spec_regions() =~= pre.spec_regions().drop_first());
        assert forall|i: int| 0 <= i < n - 1 implies post.region(i) == pre.region(i + 1)
            && post.lap(i) == pre.lap(i + 1) by {}
        assert forall|i: int| 0 <= i <= n - 1 implies post.cursor_lap(i) == pre.cursor_lap(i + 1)
            && post.cursor_pos(i) == pre.cursor_pos(i + 1) by {}
        assert(pre.region(0).begin_ptr <= pre.region(0).end_ptr);
        assert forall|i: int| 0 <= i < pre.spec_regions().len() implies pre.spec_regions()[i].0
            <= pre.spec_regions()[i].1 by {
            assert(pre.region(i).begin_ptr <= pre.region(i).end_ptr);
        }
        assert forall|i: int| 0 <= i < pre.spec_regions().drop_first().len() implies
            pre.spec_regions().drop_first()[i].0 <= pre.spec_regions().drop_first()[i].1 by {
            assert(pre.spec_regions().drop_first()[i] == pre.spec_regions()[i + 1]);
        }
        lemma_total_size_nonneg(pre.spec_regions().drop_first());
        // every later region is on a lap at least that of the oldest
        assert forall|i: int| 0 < i < n implies pre.lap(0) <= #[trigger] pre.lap(i) by {
            assert(lex_le(
                pre.lap(0),
                pre.region(0).end_ptr as int,
                pre.lap(i),
                pre.region(i).begin_ptr as int,
            ));
        }
        assert forall|i: int| 0 <= i < n - 1 implies {
            &&& #[trigger] post.region(i).begin_ptr <= post.region(i).end_ptr
            &&& post.region(i).end_ptr <= post.buffer_size
            &&& lex_le(
                post.state.begin_lap@,
                post.state.begin as int,
                post.lap(i),
                post.region(i).begin_ptr as int,
            )
            &&& lex_le(
                post.lap(i),
                post.region(i).end_ptr as int,
                post.state.write_lap@,
                post.state.write as int,
            )
            &&& ((post.lap(i) == post.cursor_lap(i) && post.cursor_pos(i)
                <= post.region(i).begin_ptr && (post.cursor_pos(i) == 0
                ==> post.region(i).begin_ptr == 0)) || (post.lap(i) == post.cursor_lap(i) + 1
                && post.region(i).begin_ptr == 0 && post.cursor_pos(i) > 0))
        } by {
            assert(pre.region(i + 1).begin_ptr <= pre.region(i + 1).end_ptr);
            assert(lex_le(
                pre.lap(0),
                pre.region(0).end_ptr as int,
                pre.lap(i + 1),
                pre.region(i + 1).begin_ptr as int,
            ));
        }
        assert forall|i: int, j: int| 0 <= i < j < n - 1 implies lex_le(
            post.lap(i),
            #[trigger] post.region(i).end_ptr as int,
            post.lap(j),
            #[trigger] post.region(j).begin_ptr as int,
        ) by {
            assert(lex_le(
                pre.lap(i + 1),
                pre.region(i + 1).end_ptr as int,
                pre.lap(j + 1),
                pre.region(j + 1).begin_ptr as int,
            ));
        }
        // a full lap never holds only empty regions
        if post.state.write_lap@ == post.state.begin_lap@ + 1 && post.state.write
            == post.state.begin && post.state.used == 0 {
            lemma_total_size_zero(pre.spec_regions().drop_first());
            assert forall|i: int| 1 <= i < n implies #[trigger] pre.region(i).begin_ptr
                == pre.region(i).end_ptr by {
                assert(pre.spec_regions().drop_first()[i - 1] == pre.spec_regions()[i]);
            }
            pre.lemma_empty_chain(1);
            assert(false);
        }
        assert forall|j: int| 0 <= j <= n - 1 implies total_size(
            #[trigger] post.spec_regions().subrange(j, n - 1),
        ) <= post.vwrite() - post.vpos(post.cursor_lap(j), post.cursor_pos(j)) by {
            assert(post.spec_regions().subrange(j, n - 1) =~= pre.spec_regions().subrange(
                j + 1,
                n,
            ));
            assert(total_size(pre.spec_regions().subrange(j + 1, n)) <= pre.vwrite() - pre.vpos(
                pre.cursor_lap(j + 1),
                pre.cursor_pos(j + 1),
            ));
            if j > 0 {
                assert(pre.lap(0) <= pre.lap(j));
            }
        }
    }

    /// Position of `begin` after reclaiming the regions whose fence value is
    /// at most `until`: the end of the last reclaimed region.
    pub open spec fn spec_begin_after_reclaim(&self, until: i64) -> int {
        let k = self.spec_reclaim_count(until);
        if k > 0 {
            self.spec_regions()[k - 1].1
        } else {
            self.spec_begin()
        }
    }

    /// The regions left after reclaiming those whose fence value is at most
    /// `until`.
    pub open spec fn spec_regions_after_reclaim(&self, until: i64) -> Seq<(int, int, i64)> {
        self.spec_regions().subrange(
            self.spec_reclaim_count(until),
            self.spec_regions().len() as int,
        )
    }

    /// An empty upload ring of `buffer_size` bytes.
    pub fn new(buffer_size: usize) -> (r: UploadBuffer)
        ensures
            r.wf(),
            r.spec_buffer_size() == buffer_size,
            r.spec_write() == 0,
            r.spec_begin() == 0,
            r.spec_used() == 0,
            r.spec_regions() == Seq::<(int, int, i64)>::empty(),
    {
        let r = UploadBuffer {
            buffer_size,
            state: UploadBufferState {
                write: 0,
                begin: 0,
                used: 0,
                fenced_regions: VecDeque::new(),
                laps: Ghost(Seq::empty()),
                begin_lap: Ghost(0),
                write_lap: Ghost(0),
            },
        };
        proof {
            assert(r.spec_regions() =~= Seq::<(int, int, i64)>::empty());
            assert(r.spec_regions().subrange(0, 0) =~= Seq::<(int, int, i64)>::empty());
        }
        r
    }

    /// Size of the buffer in bytes.
    pub fn buffer_size(&self) -> (r: usize)
        ensures
            r == self.spec_buffer_size(),
    {
        self.buffer_size
    }

    /// Places `size` bytes with alignment `align` without reclaiming anything:
    /// after the last allocation if the data fits there, else at the start of
    /// the buffer when the live data does not wrap and `size` fits before
    /// `begin`. The new region is live until `fence_value` is reached. Returns
    /// its offset, or `None` (and changes nothing) when there is no room.
    pub fn try_allocate_contiguous(
        &mut self,
        size: usize,
        align: usize,
        fence_value: FenceValue,
    ) -> (r: Option<usize>)
        requires
            old(self).wf(),
            align >= 1,
        ensures
            final(self).wf(),
            match r {
                Some(p) => {
                    &&& old(self).spec_placement(size, align) == Some(p as int)
                    &&& final(self).spec_regions() == old(self).spec_regions().push(
                        (p as int, p + size, fence_value.0),
                    )
                    &&& final(self).spec_write() == p + size
                    &&& final(self).spec_begin() == old(self).spec_begin()
                    &&& final(self).spec_used() == old(self).spec_used() + size
                    &&& final(self).spec_buffer_size() == old(self).spec_buffer_size()
                    &&& p + size <= old(self).spec_buffer_size()
                    &&& is_pow2(align) ==> (p & ((align - 1) as usize)) == 0
                    &&& is_pow2(align) ==> p % align == 0
                    &&& forall|i: int|
                        0 <= i < old(self).spec_regions().len() ==> ranges_disjoint(
                            p as int,
                            p + size,
                            #[trigger] old(self).spec_regions()[i].0,
                            old(self).spec_regions()[i].1,
                        )
                },
                None => {
                    &&& old(self).spec_placement(size, align) is None
                    &&& *final(self) == *old(self)
                },
            },
    {
        proof {
            self.lemma_contiguous_lap();
        }
        let ghost pre = *self;
        let contiguous = self.state.begin < self.state.write || (self.state.begin
            == self.state.write && self.state.used == 0);
        let p: usize;
        let wrap: bool;
        if contiguous {
            let slack = self.buffer_size - self.state.write;
            match align_offset(align, size, self.state.write, slack) {
                Some(newptr) => {
                    p = newptr;
                    wrap = false;
                },
                None => {
                    if size > self.state.begin {
                        return None;
                    }
                    p = 0;
                    wrap = true;
                },
            }
        } else {
            match align_offset(align, size, self.state.write, self.state.begin - self.state.write) {
                Some(newptr) => {
                    p = newptr;
                    wrap = false;
                },
                None => {
                    return None;
                },
            }
        }
        proof {
            lemma_padding_bounds(align, pre.state.write);
            if is_pow2(align) {
                if wrap {
                    assert((0usize & ((align - 1) as usize)) == 0) by (bit_vector);
                } else if contiguous {
                    lemma_align_offset_aligned(
                        align,
                        size,
                        pre.state.write,
                        (pre.buffer_size - pre.state.write) as usize,
                    );
                } else {
                    lemma_align_offset_aligned(
                        align,
                        size,
                        pre.state.write,
                        (pre.state.begin - pre.state.write) as usize,
                    );
                }
                lemma_low_bits_zero_is_multiple(align, p);
            }
            if wrap {
                // at offset 0 nothing is padded, so the tail would have fitted
                assert((0usize & ((align - 1) as usize)) == 0) by (bit_vector);
            } else if pre.state.write == 0 {
                assert((0usize & ((align - 1) as usize)) == 0) by (bit_vector);
            }
        }
        self.state.used = self.state.used + size;
        self.state.write = p + size;
        if wrap {
            self.state.write_lap = Ghost(self.state.write_lap@ + 1);
        }
        self.state.laps = Ghost(self.state.laps@.push(self.state.write_lap@));
        self.state.fenced_regions.push_back(
            FencedRegion { fence_value, begin_ptr: p, end_ptr: p + size },
        );
        proof {
            UploadBuffer::lemma_push_wf(pre, *self, p as int, size as int, wrap);
            self.lemma_live_regions_disjoint();
            self.lemma_region_view();
            assert forall|i: int| 0 <= i < pre.spec_regions().len() implies ranges_disjoint(
                p as int,
                p + size,
                #[trigger] pre.spec_regions()[i].0,
                pre.spec_regions()[i].1,
            ) by {
                assert(self.spec_regions()[i] == pre.spec_regions()[i]);
                assert(ranges_disjoint(
                    self.spec_regions()[i].0,
                    self.spec_regions()[i].1,
                    self.spec_regions()[pre.count()].0,
                    self.spec_regions()[pre.count()].1,
                ));
            }
        }
        Some(p)
    }

    /// Live regions share no byte, lie inside the buffer, and their sizes add
    /// up to the bytes in use, which never exceed the buffer size.
    pub proof fn lemma_live_regions_disjoint(&self)
        requires
            self.wf(),
        ensures
            forall|i: int, j: int|
                0 <= i < j < self.spec_regions().len() ==> ranges_disjoint(
                    #[trigger] self.spec_regions()[i].0,
                    self.spec_regions()[i].1,
                    #[trigger] self.spec_regions()[j].0,
                    self.spec_regions()[j].1,
                ),
            forall|i: int|
                0 <= i < self.spec_regions().len() ==> 0 <= #[trigger] self.spec_regions()[i].0
                    <= self.spec_regions()[i].1 <= self.spec_buffer_size(),
            self.spec_used() == total_size(self.spec_regions()),
            self.spec_used() <= self.spec_buffer_size(),
    {
        self.lemma_region_view();
        self.lemma_contiguous_lap();
        assert forall|i: int, j: int| 0 <= i < j < self.spec_regions().len() implies ranges_disjoint(
            #[trigger] self.spec_regions()[i].0,
            self.spec_regions()[i].1,
            #[trigger] self.spec_regions()[j].0,
            self.spec_regions()[j].1,
        ) by {
            assert(self.region(i).begin_ptr <= self.region(i).end_ptr);
            assert(self.region(j).begin_ptr <= self.region(j).end_ptr);
            assert(lex_le(
                self.lap(i),
                self.region(i).end_ptr as int,
                self.lap(j),
                self.region(j).begin_ptr as int,
            ));
        }
        assert forall|i: int| 0 <= i < self.spec_regions().len() implies 0
            <= #[trigger] self.spec_regions()[i].0 <= self.spec_regions()[i].1
            <= self.spec_buffer_size() by {
            assert(self.region(i).begin_ptr <= self.region(i).end_ptr);
        }
    }

    /// Frees, oldest first, the regions whose fence value is at most
    /// `reclaim_until`, stopping at the first one still in use; `begin` moves
    /// to the end of the last freed region.
    pub fn reclaim(&mut self, reclaim_until: FenceValue)
        requires
            old(self).wf(),
        ensures
            final(self).wf(),
            final(self).spec_regions() == old(self).spec_regions_after_reclaim(reclaim_until.0),
            final(self).spec_begin() == old(self).spec_begin_after_reclaim(reclaim_until.0),
            final(self).spec_used() == total_size(final(self).spec_regions()),
            final(self).spec_write() == old(self).spec_write(),
            final(self).spec_buffer_size() == old(self).spec_buffer_size(),
    {
        let ghost pre = *self;
        let ghost n = pre.spec_regions().len() as int;
        let ghost mut k: int = 0;
        proof {
            assert(pre.spec_regions().subrange(0, n) =~= pre.spec_regions());
        }
        loop
            invariant
                self.wf(),
                n == pre.spec_regions().len(),
                0 <= k <= n,
                self.spec_regions() == pre.spec_regions().subrange(k, n),
                reclaimable_prefix(pre.spec_regions(), reclaim_until.0) == k
                    + reclaimable_prefix(self.spec_regions(), reclaim_until.0),
                k > 0 ==> self.spec_begin() == pre.spec_regions()[k - 1].1,
                k == 0 ==> self.spec_begin() == pre.spec_begin(),
                self.spec_write() == pre.spec_write(),
                self.spec_buffer_size() == pre.spec_buffer_size(),
            ensures
                reclaimable_prefix(self.spec_regions(), reclaim_until.0) == 0,
            decreases self.state.fenced_regions@.len(),
        {
            proof {
                self.lemma_region_view();
            }
            if self.state.fenced_regions.len() == 0 {
                break;
            }
            let front = self.state.fenced_regions[0];
            if front.fence_value.0 > reclaim_until.0 {
                break;
            }
            let ghost before = *self;
            proof {
                assert(k < n);
                assert(before.spec_regions()[0] == pre.spec_regions()[k]);
            }
            let region = self.state.fenced_regions.pop_front().unwrap();
            self.state.begin = region.end_ptr;
            self.state.begin_lap = Ghost(self.state.laps@[0]);
            self.state.laps = Ghost(self.state.laps@.drop_first());
            proof {
                assert(before.region(0).begin_ptr <= before.region(0).end_ptr);
                lemma_total_size_nonneg(before.spec_regions().drop_first());
                assert forall|i: int| 0 <= i < before.spec_regions().drop_first().len() implies
                    before.spec_regions().drop_first()[i].0
                    <= before.spec_regions().drop_first()[i].1 by {
                    assert(before.region(i + 1).begin_ptr <= before.region(i + 1).end_ptr);
                }
                lemma_total_size_nonneg(before.spec_regions().drop_first());
            }
            self.state.used = self.state.used - (region.end_ptr - region.begin_ptr);
            proof {
                assert(self.state.fenced_regions@ =~= before.state.fenced_regions@.drop_first());
                UploadBuffer::lemma_pop_wf(before, *self);
                assert(pre.spec_regions().subrange(k + 1, n) =~= pre.spec_regions().subrange(
                    k,
                    n,
                ).drop_first());
                k = k + 1;
            }
        }
        proof {
            self.lemma_live_regions_disjoint();
        }
    }

    /// Places `size` bytes with alignment `align`, live until `fence_value`:
    /// first without reclaiming; when there is no room, after reclaiming the
    /// regions whose fence value is at most `reclaim_until`. Returns the
    /// offset of the new region, or `None` when there is still no room.
    pub fn allocate(
        &mut self,
        size: usize,
        align: usize,
        fence_value: FenceValue,
        reclaim_until: FenceValue,
    ) -> (r: Option<usize>)
        requires
            old(self).wf(),
            align >= 1,
        ensures
            final(self).wf(),
            final(self).spec_buffer_size() == old(self).spec_buffer_size(),
            match old(self).spec_placement(size, align) {
                Some(p) => {
                    &&& r == Some(p as usize)
                    &&& final(self).spec_regions() == old(self).spec_regions().push(
                        (p, p + size, fence_value.0),
                    )
                },
                None => {
                    let q = ring_placement(
                        old(self).spec_buffer_size(),
                        old(self).spec_write(),
                        old(self).spec_begin_after_reclaim(reclaim_until.0),
                        total_size(old(self).spec_regions_after_reclaim(reclaim_until.0)),
                        size,
                        align,
                    );
                    match q {
                        Some(p) => {
                            &&& r == Some(p as usize)
                            &&& final(self).spec_regions() == old(
                                self,
                            ).spec_regions_after_reclaim(reclaim_until.0).push(
                                (p, p + size, fence_value.0),
                            )
                        },
                        None => {
                            &&& r is None
                            &&& final(self).spec_regions() == old(
                                self,
                            ).spec_regions_after_reclaim(reclaim_until.0)
                        },
                    }
                },
            },
            match r {
                Some(p) => {
                    &&& p + size <= final(self).spec_buffer_size()
                    &&& is_pow2(align) ==> (p & ((align - 1) as usize)) == 0
                    &&& is_pow2(align) ==> p % align == 0
                    &&& forall|i: int|
                        0 <= i < final(self).spec_regions().len() - 1 ==> ranges_disjoint(
                            p as int,
                            p + size,
                            #[trigger] final(self).spec_regions()[i].0,
                            final(self).spec_regions()[i].1,
                        )
                },
                None => true,
            },
    {
        match self.try_allocate_contiguous(size, align, fence_value) {
            Some(offset) => Some(offset),
            None => {
                self.reclaim(reclaim_until);
                let r = self.try_allocate_contiguous(size, align, fence_value);
                proof {
                    if r is Some {
                        let p = r.unwrap();
                        assert forall|i: int| 0 <= i < self.spec_regions().len() - 1 implies
                            ranges_disjoint(
                            p as int,
                            p + size,
                            #[trigger] self.spec_regions()[i].0,
                            self.spec_regions()[i].1,
                        ) by {
                            assert(self.spec_regions()[i] == old(
                                self,
                            ).spec_regions_after_reclaim(reclaim_until.0)[i]);
                        }
                    }
                }
                r
            },
        }
    }
}

} // verus!
