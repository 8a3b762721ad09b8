//! Index layouts of the unrolled distance kernels.
//!
//! The kernels walk a vector in blocks: wide blocks first, then narrow blocks,
//! then a scalar tail. The layouts here say where each part starts, and the
//! laws below show that the blocks stay inside the vector and that every
//! element is visited by exactly one of them.
use vstd::arithmetic::div_mod::*;
use vstd::arithmetic::mul::*;
use vstd::prelude::*;

verus! {

/// Layout of a loop over `len` elements unrolled in two widths: wide blocks
/// cover `[0, unrolled_len)`, narrow blocks cover `[unrolled_len, aligned_len)`
/// and the scalar tail covers `[aligned_len, len)`.
#[derive(Clone, Copy, Debug, PartialEq, Eq)]
pub struct BlockPlan {
    pub len: usize,
    pub wide: usize,
    pub narrow: usize,
    pub unrolled_len: usize,
    pub aligned_len: usize,
}

impl BlockPlan {
    /// Widths are positive, the narrow width divides the wide one, and the two
    /// boundaries are the lengths rounded down to a multiple of each width.
    pub open spec fn well_formed(self) -> bool {
        &&& 0 < self.narrow
        &&& 0 < self.wide
        &&& self.wide % self.narrow == 0
        &&& self.unrolled_len == self.len / self.wide * self.wide
        &&& self.aligned_len == self.len / self.narrow * self.narrow
    }

    /// `s` is the start of a wide block: `(0..unrolled_len).step_by(wide)`.
    pub open spec fn is_wide_start(self, s: int) -> bool {
        0 <= s < self.unrolled_len && s % (self.wide as int) == 0
    }

    /// `s` is the start of a narrow block:
    /// `(unrolled_len..aligned_len).step_by(narrow)`.
    pub open spec fn is_narrow_start(self, s: int) -> bool {
        self.unrolled_len <= s < self.aligned_len && (s - self.unrolled_len) % (
        self.narrow as int) == 0
    }

    /// Index `i` lies in the scalar tail.
    pub open spec fn in_tail(self, i: int) -> bool {
        self.aligned_len <= i < self.len
    }
}

/// The two-width layout of a loop over `len` elements, as the unrolled kernels
/// compute it: `len / wide * wide` and `len / narrow * narrow`.
pub fn block_plan(len: usize, wide: usize, narrow: usize) -> (plan: BlockPlan)
    requires
        0 < narrow,
        0 < wide,
        wide % narrow == 0,
    ensures
        plan.len == len,
        plan.wide == wide,
        plan.narrow == narrow,
        plan.unrolled_len == len / wide * wide,
        plan.aligned_len == len / narrow * narrow,
        plan.well_formed(),
{
    proof {
        lemma_round_down_le(len as int, wide as int);
        lemma_round_down_le(len as int, narrow as int);
    }
    let unrolled_len = len / wide * wide;
    let aligned_len = len / narrow * narrow;
    BlockPlan { len, wide, narrow, unrolled_len, aligned_len }
}

/// `n / d * d` lies in `(n - d, n]` and is a multiple of `d`.
pub proof fn lemma_round_down_le(n: int, d: int)
    requires
        0 <= n,
        0 < d,
    ensures
        0 <= n / d * d <= n,
        n - d < n / d * d,
        (n / d * d) % d == 0,
{
    lemma_fundamental_div_mod(n, d);
    lemma_mul_is_commutative(d, n / d);
    lemma_div_pos_is_pos(n, d);
    lemma_mul_nonnegative(n / d, d);
    lemma_mod_multiples_basic(n / d, d);
}

/// Rounding down to a multiple of `k * d` never passes rounding down to a
/// multiple of `d`.
proof fn lemma_round_down_nested(n: int, d: int, k: int)
    requires
        0 <= n,
        0 < d,
        0 < k,
    ensures
        n / (k * d) * (k * d) <= n / d * d,
        (n / d * d - n / (k * d) * (k * d)) % d == 0,
{
    lemma_mul_strictly_positive(k, d);
    lemma_round_down_le(n, k * d);
    let q = n / (k * d);
    // q * k * d <= n, so q * k <= n / d
    lemma_mul_is_associative(q, k, d);
    lemma_fundamental_div_mod(n, d);
    lemma_mul_is_commutative(d, n / d);
    lemma_mod_pos_bound(n, d);
    assert(q * k <= n / d) by {
        if q * k > n / d {
            lemma_mul_inequality(n / d + 1, q * k, d);
            lemma_mul_is_distributive_add_other_way(d, n / d, 1);
        }
    }
    lemma_mul_inequality(q * k, n / d, d);
    // the difference is (n / d - q * k) * d
    lemma_mul_is_distributive_sub_other_way(d, n / d, q * k);
    lemma_mod_multiples_basic(n / d - q * k, d);
}

/// The three regions of a well-formed layout are in order, each boundary is
/// aligned to its width, and the tails are shorter than a block.
pub proof fn lemma_regions_ordered(plan: BlockPlan)
    requires
        plan.well_formed(),
    ensures
        plan.unrolled_len <= plan.aligned_len <= plan.len,
        plan.unrolled_len % plan.wide == 0,
        plan.unrolled_len % plan.narrow == 0,
        plan.aligned_len % plan.narrow == 0,
        (plan.aligned_len - plan.unrolled_len) % (plan.narrow as int) == 0,
        plan.len - plan.aligned_len < plan.narrow,
        plan.len - plan.unrolled_len < plan.wide,
{
    let n = plan.len as int;
    let w = plan.wide as int;
    let d = plan.narrow as int;
    lemma_round_down_le(n, w);
    lemma_round_down_le(n, d);
    let k = w / d;
    lemma_fundamental_div_mod(w, d);
    lemma_mul_is_commutative(d, k);
    assert(w == k * d);
    assert(0 < k) by {
        if k <= 0 {
            lemma_mul_inequality(k, 0, d);
        }
    }
    lemma_round_down_nested(n, d, k);
    // unrolled_len is a multiple of w = k * d, hence of d
    lemma_mul_is_associative(n / w, k, d);
    lemma_mod_multiples_basic((n / w) * k, d);
}

/// Every wide block lies inside `[0, unrolled_len)`, hence inside the vector:
/// the wide loads of the kernels are in bounds.
pub proof fn lemma_wide_block_in_bounds(plan: BlockPlan, s: int)
    requires
        plan.well_formed(),
        plan.is_wide_start(s),
    ensures
        s + plan.wide <= plan.unrolled_len <= plan.len,
{
    lemma_regions_ordered(plan);
    lemma_block_fits(s, plan.unrolled_len as int, plan.wide as int);
}

/// Every narrow block lies inside `[unrolled_len, aligned_len)`: the narrow
/// loads of the kernels are in bounds.
pub proof fn lemma_narrow_block_in_bounds(plan: BlockPlan, s: int)
    requires
        plan.well_formed(),
        plan.is_narrow_start(s),
    ensures
        plan.unrolled_len <= s,
        s + plan.narrow <= plan.aligned_len <= plan.len,
{
    lemma_regions_ordered(plan);
    let u = plan.unrolled_len as int;
    lemma_block_fits(s - u, plan.aligned_len - u, plan.narrow as int);
}

/// A block of width `w` starting at an aligned `s < m` ends by `m` when `m` is
/// itself aligned.
proof fn lemma_block_fits(s: int, m: int, w: int)
    requires
        0 < w,
        0 <= s < m,
        s % w == 0,
        m % w == 0,
    ensures
        s + w <= m,
{
    lemma_fundamental_div_mod(s, w);
    lemma_fundamental_div_mod(m, w);
    let a = s / w;
    let b = m / w;
    assert(a < b) by {
        if a >= b {
            lemma_mul_inequality(b, a, w);
            lemma_mul_is_commutative(w, a);
            lemma_mul_is_commutative(w, b);
        }
    }
    lemma_mul_inequality(a + 1, b, w);
    lemma_mul_is_distributive_add_other_way(w, a, 1);
    lemma_mul_is_commutative(w, a);
    lemma_mul_is_commutative(w, b);
}

/// Each index of the vector is visited exactly once: it lies in exactly one of
/// the three regions, and inside the wide (narrow) region in exactly one block,
/// the one that starts at the index rounded down to the block width.
pub proof fn lemma_index_visited_once(plan: BlockPlan, i: int)
    requires
        plan.well_formed(),
        0 <= i < plan.len,
    ensures
        (i < plan.unrolled_len) as int + (plan.unrolled_len <= i < plan.aligned_len) as int + (
        plan.in_tail(i)) as int == 1,
        i < plan.unrolled_len ==> {
            let s = i / (plan.wide as int) * (plan.wide as int);
            &&& plan.is_wide_start(s)
            &&& s <= i < s + plan.wide
            &&& forall|t: int| #[trigger]
                plan.is_wide_start(t) && t <= i < t + plan.wide ==> t == s
        },
        plan.unrolled_len <= i < plan.aligned_len ==> {
            let s = plan.unrolled_len + (i - plan.unrolled_len) / (plan.narrow as int) * (
            plan.narrow as int);
            &&& plan.is_narrow_start(s)
            &&& s <= i < s + plan.narrow
            &&& forall|t: int| #[trigger]
                plan.is_narrow_start(t) && t <= i < t + plan.narrow ==> t == s
        },
{
    lemma_regions_ordered(plan);
    if i < plan.unrolled_len {
        lemma_unique_block(i, plan.unrolled_len as int, plan.wide as int);
        let s = i / (plan.wide as int) * (plan.wide as int);
        assert forall|t: int| #[trigger]
            plan.is_wide_start(t) && t <= i < t + plan.wide implies t == s by {
            lemma_aligned_block_unique(i, t, plan.wide as int);
        }
    }
    if plan.unrolled_len <= i < plan.aligned_len {
        let u = plan.unrolled_len as int;
        let d = plan.narrow as int;
        lemma_unique_block(i - u, plan.aligned_len - u, d);
        let s = u + (i - u) / d * d;
        assert forall|t: int| #[trigger]
            plan.is_narrow_start(t) && t <= i < t + plan.narrow implies t == s by {
            lemma_aligned_block_unique(i - u, t - u, d);
        }
    }
}

/// Index `j < m`, with `m` a multiple of `w`, lies in the aligned block that
/// starts at `j / w * w`, which is below `m`.
proof fn lemma_unique_block(j: int, m: int, w: int)
    requires
        0 < w,
        0 <= j < m,
        m % w == 0,
    ensures
        0 <= j / w * w <= j < j / w * w + w,
        j / w * w < m,
        (j / w * w) % w == 0,
{
    lemma_round_down_le(j, w);
}

/// The only aligned block of width `w` that holds `j` starts at `j / w * w`.
proof fn lemma_aligned_block_unique(j: int, t: int, w: int)
    requires
        0 < w,
        0 <= t <= j < t + w,
        t % w == 0,
    ensures
        t == j / w * w,
{
    lemma_fundamental_div_mod(t, w);
    lemma_mul_is_commutative(w, t / w);
    let a = t / w;
    // j = a * w + (j - t) with 0 <= j - t < w
    lemma_div_multiples_vanish_fancy(a, j - t, w);
    lemma_mul_is_commutative(w, a);
}

/// Layout of the lane-parallel scalar dot product of `from` and `to`: both are
/// cut with `chunks_exact(lanes)`, the full chunks are zipped and summed lane by
/// lane, and the two remainders are zipped and summed on their own.
#[derive(Clone, Copy, Debug, PartialEq, Eq)]
pub struct LanePlan {
    pub from_len: usize,
    pub to_len: usize,
    pub lanes: usize,
    /// Number of zipped full chunks.
    pub chunks: usize,
    /// Where the remainder of `from` starts.
    pub from_tail_start: usize,
    /// Where the remainder of `to` starts.
    pub to_tail_start: usize,
    /// Number of zipped remainder elements.
    pub tail_len: usize,
}

impl LanePlan {
    /// Number of products that the dot product sums.
    pub open spec fn product_count(self) -> int {
        self.chunks * self.lanes + self.tail_len
    }

    /// The `k`-th product multiplies `from[product_pair(k).0]` by
    /// `to[product_pair(k).1]`.
    pub open spec fn product_pair(self, k: int) -> (int, int) {
        if k < self.chunks * self.lanes {
            (k, k)
        } else {
            let j = k - self.chunks * self.lanes;
            (self.from_tail_start + j, self.to_tail_start + j)
        }
    }
}

/// The lane layout of `from` and `to`: as many full chunks as both sides have,
/// the remainders starting after the last full chunk of each side, and as many
/// remainder elements as both remainders have.
pub open spec fn lane_plan_spec(from_len: usize, to_len: usize, lanes: usize) -> LanePlan {
    LanePlan {
        from_len,
        to_len,
        lanes,
        chunks: if from_len / lanes <= to_len / lanes {
            from_len / lanes
        } else {
            to_len / lanes
        },
        from_tail_start: (from_len / lanes * lanes) as usize,
        to_tail_start: (to_len / lanes * lanes) as usize,
        tail_len: if from_len % lanes <= to_len % lanes {
            from_len % lanes
        } else {
            to_len % lanes
        },
    }
}

/// The layout of the lane-parallel scalar dot product of a `from` of length
/// `from_len` and a `to` of length `to_len`, with `lanes` lanes.
pub fn lane_plan(from_len: usize, to_len: usize, lanes: usize) -> (plan: LanePlan)
    requires
        0 < lanes,
    ensures
        plan == lane_plan_spec(from_len, to_len, lanes),
{
    proof {
        lemma_round_down_le(from_len as int, lanes as int);
        lemma_round_down_le(to_len as int, lanes as int);
    }
    let from_chunks = from_len / lanes;
    let to_chunks = to_len / lanes;
    let chunks = if from_chunks <= to_chunks {
        from_chunks
    } else {
        to_chunks
    };
    let from_rem = from_len % lanes;
    let to_rem = to_len % lanes;
    let tail_len = if from_rem <= to_rem {
        from_rem
    } else {
        to_rem
    };
    LanePlan {
        from_len,
        to_len,
        lanes,
        chunks,
        from_tail_start: from_chunks * lanes,
        to_tail_start: to_chunks * lanes,
        tail_len,
    }
}

/// Every product reads inside both vectors, whatever their lengths.
pub proof fn lemma_lane_products_in_bounds(plan: LanePlan, k: int)
    requires
        plan == lane_plan_spec(plan.from_len, plan.to_len, plan.lanes),
        0 < plan.lanes,
        0 <= k < plan.product_count(),
    ensures
        0 <= plan.product_pair(k).0 < plan.from_len,
        0 <= plan.product_pair(k).1 < plan.to_len,
{
    let l = plan.lanes as int;
    lemma_fundamental_div_mod(plan.from_len as int, l);
    lemma_fundamental_div_mod(plan.to_len as int, l);
    lemma_mul_is_commutative(l, plan.from_len as int / l);
    lemma_mul_is_commutative(l, plan.to_len as int / l);
    lemma_mul_inequality(plan.chunks as int, plan.from_len as int / l, l);
    lemma_mul_inequality(plan.chunks as int, plan.to_len as int / l, l);
}

/// For vectors of equal length `n` the lane-parallel dot product multiplies
/// exactly the pairs `(from[i], to[i])`, each once, for `i < n`.
pub proof fn lemma_lane_products_diagonal(plan: LanePlan)
    requires
        plan == lane_plan_spec(plan.from_len, plan.to_len, plan.lanes),
        0 < plan.lanes,
        plan.from_len == plan.to_len,
    ensures
        plan.product_count() == plan.from_len,
        forall|k: int| 0 <= k < plan.from_len ==> #[trigger] plan.product_pair(k) == (k, k),
{
    let l = plan.lanes as int;
    lemma_fundamental_div_mod(plan.from_len as int, l);
    lemma_mul_is_commutative(l, plan.from_len as int / l);
}

} // verus!
