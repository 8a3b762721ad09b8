use lance_linalg::blocks::{block_plan, lane_plan, BlockPlan, LanePlan};

/// Every index below `plan.len` is visited by exactly one wide block, narrow
/// block or the tail, and every block lies inside the vector.
fn visits(plan: &BlockPlan) -> Vec<usize> {
    let mut seen = vec![0usize; plan.len];
    for s in (0..plan.unrolled_len).step_by(plan.wide) {
        assert!(s + plan.wide <= plan.len);
        for i in s..s + plan.wide {
            seen[i] += 1;
        }
    }
    for s in (plan.unrolled_len..plan.aligned_len).step_by(plan.narrow) {
        assert!(s + plan.narrow <= plan.len);
        for i in s..s + plan.narrow {
            seen[i] += 1;
        }
    }
    for i in plan.aligned_len..plan.len {
        seen[i] += 1;
    }
    seen
}

#[test]
fn block_plan_f32_widths() {
    let p = block_plan(45, 16, 8);
    assert_eq!(p.unrolled_len, 32);
    assert_eq!(p.aligned_len, 40);
    assert_eq!(p.len, 45);
    assert!(visits(&p).iter().all(|&c| c == 1));
}

#[test]
fn block_plan_exact_multiple() {
    let p = block_plan(1024, 16, 8);
    assert_eq!(p.unrolled_len, 1024);
    assert_eq!(p.aligned_len, 1024);
    assert!(visits(&p).iter().all(|&c| c == 1));
}

#[test]
fn block_plan_shorter_than_a_block() {
    let p = block_plan(7, 16, 8);
    assert_eq!(p.unrolled_len, 0);
    assert_eq!(p.aligned_len, 0);
    assert!(visits(&p).iter().all(|&c| c == 1));
    let p = block_plan(0, 16, 8);
    assert_eq!((p.unrolled_len, p.aligned_len), (0, 0));
}

#[test]
fn block_plan_f64_widths() {
    let p = block_plan(13, 8, 4);
    assert_eq!(p.unrolled_len, 8);
    assert_eq!(p.aligned_len, 12);
    assert!(visits(&p).iter().all(|&c| c == 1));
}

#[test]
fn block_plan_all_lengths_visit_once() {
    for len in 0..100 {
        for (wide, narrow) in [(16, 8), (8, 4), (16, 4), (8, 8)] {
            let p = block_plan(len, wide, narrow);
            assert!(p.unrolled_len <= p.aligned_len && p.aligned_len <= len);
            assert!(visits(&p).iter().all(|&c| c == 1));
        }
    }
}

fn pairs(plan: &LanePlan) -> Vec<(usize, usize)> {
    let mut out = Vec::new();
    for k in 0..plan.chunks * plan.lanes {
        out.push((k, k));
    }
    for j in 0..plan.tail_len {
        out.push((plan.from_tail_start + j, plan.to_tail_start + j));
    }
    out
}

#[test]
fn lane_plan_equal_lengths_is_diagonal() {
    let p = lane_plan(20, 20, 16);
    assert_eq!(p.chunks, 1);
    assert_eq!(p.from_tail_start, 16);
    assert_eq!(p.to_tail_start, 16);
    assert_eq!(p.tail_len, 4);
    assert_eq!(pairs(&p), (0..20).map(|i| (i, i)).collect::<Vec<_>>());

    let p = lane_plan(512, 512, 16);
    assert_eq!(p.chunks, 32);
    assert_eq!(p.tail_len, 0);
    assert_eq!(pairs(&p), (0..512).map(|i| (i, i)).collect::<Vec<_>>());
}

#[test]
fn lane_plan_unequal_lengths() {
    // The remainders of the two vectors start at different offsets.
    let p = lane_plan(40, 17, 16);
    assert_eq!(p.chunks, 1);
    assert_eq!(p.from_tail_start, 32);
    assert_eq!(p.to_tail_start, 16);
    assert_eq!(p.tail_len, 1);
    assert_eq!(pairs(&p)[16], (32, 16));
    assert_eq!(pairs(&p).len(), 17);
}

#[test]
fn lane_plan_short_vectors() {
    let p = lane_plan(5, 3, 32);
    assert_eq!(p.chunks, 0);
    assert_eq!((p.from_tail_start, p.to_tail_start, p.tail_len), (0, 0, 3));
    let p = lane_plan(0, 0, 32);
    assert_eq!(pairs(&p), vec![]);
}
