//! Scheduling of the bottom-up combine passes that build a binary tree
//! over `N` leaves.
//!
//! A pass reads a window of source nodes pairwise and writes one parent
//! per pair just after the window.  When a window holds an odd number of
//! nodes, the last node is not merged; the arithmetic of the window
//! advance carries it into the next level's window instead.

use crate::gpu_data::GpuData;
use vstd::prelude::*;

verus! {

/// One level of bottom-up tree construction: reads `parent_count * 2`
/// nodes starting at `src_start`, writes `parent_count` parent nodes
/// starting at `dst_start`.
#[derive(Clone, Copy, Debug, PartialEq, Eq, Structural)]
pub struct CombineNodePass {
    pub src_start: u32,
    pub dst_start: u32,
    pub parent_count: u32,
}

/// How many times `len` must be halved (rounding the half up) to bring
/// it down to one: `ceil(log2(len))` for `len >= 1`, zero for `len <= 1`.
pub open spec fn clog2(len: int) -> nat
    decreases len,
{
    if len <= 1 {
        0
    } else {
        1 + clog2(len - len / 2)
    }
}

/// The sequence of combine passes that reduces the source window
/// `[start, end)` to a single node.  Each level merges `(end - start) / 2`
/// pairs, writes the parents at `end`, and advances the window past the
/// consumed pairs; an odd window leaves its last node in place, to be
/// read again as part of the next window.
pub open spec fn spec_passes(start: int, end: int) -> Seq<CombineNodePass>
    decreases end - start,
{
    if end - start <= 1 {
        Seq::empty()
    } else {
        let parent_count = (end - start) / 2;
        seq![CombineNodePass {
            src_start: start as u32,
            dst_start: end as u32,
            parent_count: parent_count as u32,
        }] + spec_passes(start + 2 * parent_count, end + parent_count)
    }
}

/// Appends to `passes` the combine passes for `n` leaves: one pass per
/// tree level, no passes at all for `n <= 1`.
pub fn calculate_passes(n: usize, passes: &mut Vec<CombineNodePass>)
    requires
        n <= 0x8000_0000,
    ensures
        final(passes)@ == old(passes)@ + spec_passes(0, n as int),
{
    let mut start: usize = 0;
    let mut end: usize = n;
    while end - start > 1
        invariant
            start <= end,
            2 * end - start == 2 * n,
            n <= 0x8000_0000,
            passes@ + spec_passes(start as int, end as int) == old(passes)@ + spec_passes(
                0,
                n as int,
            ),
        decreases end - start,
    {
        let parent_count = (end - start) / 2;
        proof {
            assert(1 <= parent_count);
            assert(end + parent_count <= 2 * n - 1);
        }
        passes.push(
            CombineNodePass {
                src_start: start as u32,
                dst_start: end as u32,
                parent_count: parent_count as u32,
            },
        );
        let next_start = start + parent_count * 2;
        let leftovers = end - next_start;
        let next_end = next_start + parent_count + leftovers;
        proof {
            assert(passes@ + spec_passes(next_start as int, next_end as int) == old(passes)@
                + spec_passes(0, n as int));
        }
        start = next_start;
        end = next_end;
    }
}

/// True when `idx` is one of the source nodes that pass `p` reads.
pub open spec fn pass_reads(p: CombineNodePass, idx: int) -> bool {
    p.src_start <= idx < p.src_start + 2 * p.parent_count
}

/// True when some pass of `q` reads source index `idx`.
pub open spec fn some_pass_reads(q: Seq<CombineNodePass>, idx: int) -> bool {
    exists|j: int| 0 <= j < q.len() && pass_reads(#[trigger] q[j], idx)
}

/// Structure of the schedule for a source window `[start, end)`, proved
/// by induction over the levels.  The quantity `c = 2 * end - start` is
/// conserved by the window advance; it equals one past the index of the
/// final single node.
proof fn lemma_schedule_structure(start: int, end: int)
    requires
        0 <= start <= end,
        2 * end - start <= 0x1_0000_0000,
    ensures
        ({
            let q = spec_passes(start, end);
            let c = 2 * end - start;
            &&& q.len() == clog2(end - start)
            &&& forall|j: int|
                0 <= j < q.len() ==> {
                    &&& 1 <= #[trigger] q[j].parent_count
                    &&& start <= q[j].src_start
                    &&& q[j].src_start + 2 * q[j].parent_count <= q[j].dst_start
                    &&& end <= q[j].dst_start
                    &&& q[j].dst_start + q[j].parent_count <= c - 1
                }
            &&& forall|j: int|
                0 <= j < q.len() - 1 ==> {
                    &&& #[trigger] q[j + 1].src_start == q[j].src_start + 2 * q[j].parent_count
                    &&& q[j + 1].dst_start == q[j].dst_start + q[j].parent_count
                }
            &&& q.len() > 0 ==> {
                    &&& q[0].src_start == start
                    &&& q[0].dst_start == end
                    &&& q.last().src_start == c - 4
                    &&& q.last().dst_start == c - 2
                    &&& q.last().parent_count == 1
                }
            &&& forall|idx: int|
                start <= idx < c - 2 ==> #[trigger] some_pass_reads(q, idx)
            &&& forall|j: int, k: int|
                0 <= j < k < q.len() ==> #[trigger] q[k].src_start >= #[trigger] q[j].src_start
                    + 2 * q[j].parent_count
        }),
    decreases end - start,
{
    let q = spec_passes(start, end);
    let c = 2 * end - start;
    if end - start <= 1 {
        assert(c - 2 <= start);
    } else {
        let pc = (end - start) / 2;
        let s2 = start + 2 * pc;
        let e2 = end + pc;
        let q2 = spec_passes(s2, e2);
        lemma_schedule_structure(s2, e2);
        let h = CombineNodePass {
            src_start: start as u32,
            dst_start: end as u32,
            parent_count: pc as u32,
        };
        assert(q == seq![h] + q2);
        assert(e2 - s2 == (end - start) - pc);
        assert(q.len() == clog2(end - start));
        assert forall|j: int| 0 <= j < q.len() implies {
            &&& 1 <= #[trigger] q[j].parent_count
            &&& start <= q[j].src_start
            &&& q[j].src_start + 2 * q[j].parent_count <= q[j].dst_start
            &&& end <= q[j].dst_start
            &&& q[j].dst_start + q[j].parent_count <= c - 1
        } by {
            if j > 0 {
                assert(q[j] == q2[j - 1]);
            }
        }
        assert forall|j: int| 0 <= j < q.len() - 1 implies {
            &&& #[trigger] q[j + 1].src_start == q[j].src_start + 2 * q[j].parent_count
            &&& q[j + 1].dst_start == q[j].dst_start + q[j].parent_count
        } by {
            assert(q[j + 1] == q2[j]);
            if j > 0 {
                assert(q[j] == q2[j - 1]);
                assert(q2[(j - 1) + 1].src_start == q2[j - 1].src_start + 2 * q2[j
                    - 1].parent_count);
                assert(q2[(j - 1) + 1].dst_start == q2[j - 1].dst_start + q2[j - 1].parent_count);
            } else {
                assert(q2[0].src_start == s2);
                assert(q2[0].dst_start == e2);
                assert(q[0] == h);
                assert(h.src_start == start && h.parent_count == pc);
            }
        }
        if q2.len() > 0 {
            assert(q.last() == q2.last());
        } else {
            assert(end - start == 2);
            assert(q.last() == h);
        }
        assert forall|idx: int| start <= idx < c - 2 implies #[trigger] some_pass_reads(
            q,
            idx,
        ) by {
            if idx < s2 {
                assert(pass_reads(q[0], idx));
            } else {
                assert(some_pass_reads(q2, idx));
                let j2 = choose|j2: int| 0 <= j2 < q2.len() && pass_reads(q2[j2], idx);
                assert(q[j2 + 1] == q2[j2]);
                assert(pass_reads(q[j2 + 1], idx));
            }
        }
        assert forall|j: int, k: int|
            0 <= j < k < q.len() implies #[trigger] q[k].src_start >= #[trigger] q[j].src_start
            + 2 * q[j].parent_count by {
            assert(q[k] == q2[k - 1]);
            if j > 0 {
                assert(q[j] == q2[j - 1]);
            } else {
                assert(s2 <= q2[k - 1].src_start);
            }
        }
    }
}

/// Pass-count law: scheduling `n` leaves emits exactly `ceil(log2(n))`
/// passes for `n > 1`, and no pass at all for `n <= 1`.
pub proof fn lemma_pass_count(n: int)
    requires
        0 <= n <= 0x8000_0000,
    ensures
        spec_passes(0, n).len() == clog2(n),
        n <= 1 ==> spec_passes(0, n).len() == 0,
{
    lemma_schedule_structure(0, n);
}

/// `clog2` is `ceil(log2)`: it names the least exponent whose power of
/// two reaches `n`.
pub proof fn lemma_clog2_pow2(n: int)
    requires
        1 <= n,
    ensures
        n <= vstd::arithmetic::power2::pow2(clog2(n)),
        n >= 2 ==> vstd::arithmetic::power2::pow2((clog2(n) - 1) as nat) < n,
    decreases n,
{
    if n >= 2 {
        let m = n - n / 2;
        lemma_clog2_pow2(m);
        assert(clog2(n) == 1 + clog2(m));
        vstd::arithmetic::power2::lemma_pow2_unfold(clog2(n));
        assert(vstd::arithmetic::power2::pow2(clog2(n)) == 2 * vstd::arithmetic::power2::pow2(
            clog2(m),
        ));
        if m >= 2 {
            assert(vstd::arithmetic::power2::pow2((clog2(m) - 1) as nat) < m);
            vstd::arithmetic::power2::lemma_pow2_unfold(clog2(m));
        } else {
            assert(m == 1);
            assert(n == 2);
            assert(clog2(1) == 0);
            vstd::arithmetic::power2::lemma2_to64();
        }
    } else {
        assert(clog2(1) == 0);
        vstd::arithmetic::power2::lemma2_to64();
    }
}

/// Coverage law: for `n >= 2` the read ranges are adjacent — the first
/// starts at leaf 0 and each later one starts where the one before it
/// stopped — so every leaf index in `[0, n)` lies in the read range of
/// exactly one pass: no leaf is merged twice, none is dropped.
pub proof fn lemma_leaf_coverage(n: int)
    requires
        2 <= n <= 0x8000_0000,
    ensures
        ({
            let q = spec_passes(0, n);
            &&& q.len() > 0 && q[0].src_start == 0
            &&& forall|j: int|
                0 <= j < q.len() - 1 ==> #[trigger] q[j + 1].src_start == q[j].src_start + 2
                    * q[j].parent_count
            &&& forall|idx: int| 0 <= idx < n ==> #[trigger] some_pass_reads(q, idx)
            &&& forall|j: int, k: int, idx: int|
                0 <= j < q.len() && 0 <= k < q.len() && j != k && #[trigger] pass_reads(q[j], idx)
                    ==> !(#[trigger] pass_reads(q[k], idx))
        }),
{
    lemma_schedule_structure(0, n);
    let q = spec_passes(0, n);
    assert forall|j: int, k: int, idx: int|
        0 <= j < q.len() && 0 <= k < q.len() && j != k && #[trigger] pass_reads(q[j], idx) implies
        !(#[trigger] pass_reads(q[k], idx)) by {
        if j < k {
            assert(q[k].src_start >= q[j].src_start + 2 * q[j].parent_count);
        } else {
            assert(q[j].src_start >= q[k].src_start + 2 * q[k].parent_count);
        }
    }
}

/// Root law: for `n >= 2` the final pass writes a single node — the
/// root — at index `2 * n - 2`, which is exactly the final pass's
/// `dst_start`; each pass writes its parents right after the previous
/// pass's, so the passes as a whole fill the node range `[n, 2 * n - 1)`
/// and the root is the last of `2 * n - 1` live nodes.
pub proof fn lemma_root_invariant(n: int)
    requires
        2 <= n <= 0x8000_0000,
    ensures
        spec_passes(0, n).len() > 0,
        spec_passes(0, n).last().dst_start == 2 * n - 2,
        spec_passes(0, n).last().parent_count == 1,
        spec_passes(0, n).last().src_start == 2 * n - 4,
        spec_passes(0, n)[0].src_start == 0,
        spec_passes(0, n)[0].dst_start == n,
        forall|j: int|
            0 <= j < spec_passes(0, n).len() - 1 ==> #[trigger] spec_passes(0, n)[j
                + 1].dst_start == spec_passes(0, n)[j].dst_start + spec_passes(0, n)[j].parent_count,
{
    lemma_schedule_structure(0, n);
    assert(clog2(n) >= 1);
    let q = spec_passes(0, n);
    assert forall|j: int| 0 <= j < q.len() - 1 implies #[trigger] q[j + 1].dst_start == q[j].dst_start
        + q[j].parent_count by {
        assert(q[j + 1].src_start == q[j].src_start + 2 * q[j].parent_count);
    }
}

/// Bounds on every scheduled pass: at least one parent per pass, reads
/// strictly below the write region, and everything within the node
/// range `[0, 2 * n - 1)`.
pub proof fn lemma_pass_bounds(n: int)
    requires
        0 <= n <= 0x8000_0000,
    ensures
        ({
            let q = spec_passes(0, n);
            forall|j: int|
                0 <= j < q.len() ==> {
                    &&& 1 <= #[trigger] q[j].parent_count
                    &&& q[j].parent_count < 0x8000_0000
                    &&& q[j].src_start + 2 * q[j].parent_count <= q[j].dst_start
                    &&& q[j].dst_start + q[j].parent_count <= 2 * n - 1
                }
        }),
{
    lemma_schedule_structure(0, n);
}

/// Determinism law: the schedule is a pure function of the leaf count,
/// so two schedules computed from the same `n` are identical.
pub proof fn lemma_passes_deterministic(
    a: Seq<CombineNodePass>,
    b: Seq<CombineNodePass>,
    n: int,
)
    requires
        a == spec_passes(0, n),
        b == spec_passes(0, n),
    ensures
        a == b,
{
}

impl GpuData for CombineNodePass {
    open spec fn spec_words(self) -> Seq<u32> {
        seq![self.src_start, self.dst_start, self.parent_count]
    }

    open spec fn spec_word_count() -> nat {
        3
    }

    proof fn lemma_word_count() {
    }

    proof fn lemma_words(self) {
    }

    fn word_count() -> (r: usize) {
        3
    }

    fn append_words(&self, out: &mut Vec<u32>) {
        out.push(self.src_start);
        out.push(self.dst_start);
        out.push(self.parent_count);
        proof {
            assert(out@ =~= old(out)@ + self.spec_words());
        }
    }

    fn from_words(data: &[u32], i: usize) -> (r: Self) {
        let r = CombineNodePass {
            src_start: data[3 * i],
            dst_start: data[3 * i + 1],
            parent_count: data[3 * i + 2],
        };
        proof {
            assert(r.spec_words() =~= data@.subrange(3 * i, 3 * i + 3));
        }
        r
    }
}

} // verus!
