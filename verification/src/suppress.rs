//! Overlap suppression: which detected boxes are worth drawing.
//!
//! Candidates scoring above a threshold are visited from best to worst;
//! a candidate is kept unless its intersection-over-union ratio with an
//! already kept box exceeds the suppression threshold. All ratios are
//! compared exactly, in integers, with thresholds in thousandths.

use vstd::prelude::*;

use crate::detections::{BoundingBox, Detection, MILLI};

verus! {

/// Signed area of a box; degenerate boxes may give zero or less.
pub open spec fn box_area(b: BoundingBox) -> int {
    b.width * b.height
}

/// Width of the overlap of `a` and `b` along the x axis (not clamped).
pub open spec fn inter_width(a: BoundingBox, b: BoundingBox) -> int {
    let right = if a.x + a.width <= b.x + b.width {
        a.x + a.width
    } else {
        b.x + b.width
    };
    let left = if a.x >= b.x {
        a.x
    } else {
        b.x
    };
    right - left
}

/// Height of the overlap of `a` and `b` along the y axis (not clamped).
pub open spec fn inter_height(a: BoundingBox, b: BoundingBox) -> int {
    let bottom = if a.y + a.height <= b.y + b.height {
        a.y + a.height
    } else {
        b.y + b.height
    };
    let top = if a.y >= b.y {
        a.y
    } else {
        b.y
    };
    bottom - top
}

/// Area boxes `a` and `b` share; zero when they do not overlap.
pub open spec fn inter_area(a: BoundingBox, b: BoundingBox) -> int {
    if inter_width(a, b) > 0 && inter_height(a, b) > 0 {
        inter_width(a, b) * inter_height(a, b)
    } else {
        0
    }
}

/// Area covered by `a` or `b` together.
pub open spec fn union_area(a: BoundingBox, b: BoundingBox) -> int {
    box_area(a) + box_area(b) - inter_area(a, b)
}

/// Whether the intersection-over-union ratio of `a` and `b` exceeds
/// `nms_milli` thousandths, stated without division: two boxes that
/// share no area never exceed any threshold.
pub open spec fn iou_exceeds(a: BoundingBox, b: BoundingBox, nms_milli: int) -> bool {
    inter_area(a, b) * (MILLI as int) > union_area(a, b) * nms_milli
}

/// Exact, overflow-free test of `iou_exceeds`, computed in wide integers.
pub fn overlaps_above(a: &BoundingBox, b: &BoundingBox, nms_milli: u32) -> (r: bool)
    ensures
        r == iou_exceeds(*a, *b, nms_milli as int),
{
    let a_right: i128 = a.x as i128 + a.width as i128;
    let b_right: i128 = b.x as i128 + b.width as i128;
    let right: i128 = if a_right <= b_right { a_right } else { b_right };
    let left: i128 = if a.x >= b.x { a.x as i128 } else { b.x as i128 };
    let iw: i128 = right - left;

    let a_bottom: i128 = a.y as i128 + a.height as i128;
    let b_bottom: i128 = b.y as i128 + b.height as i128;
    let bottom: i128 = if a_bottom <= b_bottom { a_bottom } else { b_bottom };
    let top: i128 = if a.y >= b.y { a.y as i128 } else { b.y as i128 };
    let ih: i128 = bottom - top;

    let inter: i128 = if iw > 0 && ih > 0 {
        assert(0 <= iw * ih <= 0x10_0000_0000_0000_0000i128) by (nonlinear_arith)
            requires
                0 < iw <= 0x2_0000_0000i128,
                0 < ih <= 0x2_0000_0000i128,
        ;
        iw * ih
    } else {
        0
    };

    let aw: i128 = a.width as i128;
    let ah: i128 = a.height as i128;
    assert(-0x4000_0000_0000_0000 <= aw * ah <= 0x4000_0000_0000_0000) by (nonlinear_arith)
        requires
            -0x8000_0000 <= aw <= 0x8000_0000,
            -0x8000_0000 <= ah <= 0x8000_0000,
    ;
    let area_a: i128 = aw * ah;

    let bw: i128 = b.width as i128;
    let bh: i128 = b.height as i128;
    assert(-0x4000_0000_0000_0000 <= bw * bh <= 0x4000_0000_0000_0000) by (nonlinear_arith)
        requires
            -0x8000_0000 <= bw <= 0x8000_0000,
            -0x8000_0000 <= bh <= 0x8000_0000,
    ;
    let area_b: i128 = bw * bh;

    let union_ab: i128 = area_a + area_b - inter;
    let lhs: i128 = inter * 1000;
    assert(lhs == inter * (MILLI as i128));
    let nms: i128 = nms_milli as i128;
    assert(-0x8000_0000_0000_0000_0000_0000_0000 <= union_ab * nms
        <= 0x8000_0000_0000_0000_0000_0000_0000) by (nonlinear_arith)
        requires
            -0x2_0000_0000_0000_0000_0 <= union_ab <= 0x2_0000_0000_0000_0000_0,
            0 <= nms <= 0x1_0000_0000i128,
    ;
    let rhs: i128 = union_ab * nms;

    assert(iw == inter_width(*a, *b));
    assert(ih == inter_height(*a, *b));
    assert(inter == inter_area(*a, *b));
    assert(union_ab == union_area(*a, *b));
    lhs > rhs
}

/// Whether detection `i` outranks detection `j`: a higher score wins,
/// equal scores fall back to the earlier position.
pub open spec fn ranks_before(dets: Seq<Detection>, i: usize, j: usize) -> bool
    recommends
        i < dets.len(),
        j < dets.len(),
{
    dets[i as int].score_milli > dets[j as int].score_milli
    || (dets[i as int].score_milli == dets[j as int].score_milli && i < j)
}

fn ranks_before_exec(dets: &Vec<Detection>, i: usize, j: usize) -> (r: bool)
    requires
        i < dets@.len(),
        j < dets@.len(),
    ensures
        r == ranks_before(dets@, i, j),
{
    let si = dets[i].score_milli;
    let sj = dets[j].score_milli;
    si > sj || (si == sj && i < j)
}

/// The indices whose detections score strictly above the threshold, in
/// positional order.
pub open spec fn candidate_indices(dets: Seq<Detection>, score_milli: u32) -> Seq<usize>
    decreases dets.len(),
{
    if dets.len() == 0 {
        Seq::empty()
    } else {
        let pre = candidate_indices(dets.drop_last(), score_milli);
        if dets.last().score_milli > score_milli {
            pre.push((dets.len() - 1) as usize)
        } else {
            pre
        }
    }
}

fn filter_candidates(dets: &Vec<Detection>, score_milli: u32) -> (r: Vec<usize>)
    ensures
        r@ == candidate_indices(dets@, score_milli),
        forall|k: int| 0 <= k < r@.len() ==> r@[k] < dets@.len(),
{
    let mut r: Vec<usize> = Vec::new();
    let mut i: usize = 0;
    while i < dets.len()
        invariant
            i <= dets@.len(),
            r@ == candidate_indices(dets@.take(i as int), score_milli),
            forall|k: int| 0 <= k < r@.len() ==> r@[k] < dets@.len(),
        decreases dets@.len() - i,
    {
        proof {
            assert(dets@.take(i as int + 1).drop_last() =~= dets@.take(i as int));
            assert(dets@.take(i as int + 1).last() == dets@[i as int]);
        }
        if dets[i].score_milli > score_milli {
            r.push(i);
        }
        i += 1;
    }
    proof {
        assert(dets@.take(dets@.len() as int) =~= dets@);
    }
    r
}

/// Where `x` lands in a ranked list: `x` outranks everything at its
/// position and beyond, nothing before it.
pub open spec fn insert_by_rank(dets: Seq<Detection>, s: Seq<usize>, x: usize) -> Seq<usize>
    decreases s.len(),
{
    if s.len() == 0 {
        seq![x]
    } else if ranks_before(dets, x, s[0]) {
        seq![x] + s
    } else {
        seq![s[0]] + insert_by_rank(dets, s.skip(1), x)
    }
}

/// Insertion sort by rank: best detection first, ties by position.
pub open spec fn sort_by_rank(dets: Seq<Detection>, s: Seq<usize>) -> Seq<usize>
    decreases s.len(),
{
    if s.len() == 0 {
        Seq::empty()
    } else {
        insert_by_rank(dets, sort_by_rank(dets, s.drop_last()), s.last())
    }
}

proof fn lemma_insert_at(dets: Seq<Detection>, s: Seq<usize>, x: usize, j: int)
    requires
        0 <= j <= s.len(),
        forall|k: int| 0 <= k < j ==> !ranks_before(dets, x, s[k]),
        j < s.len() ==> ranks_before(dets, x, s[j]),
    ensures
        insert_by_rank(dets, s, x) == s.insert(j, x),
    decreases j,
{
    if s.len() == 0 {
        assert(insert_by_rank(dets, s, x) =~= s.insert(0, x));
    } else if j == 0 {
        assert(insert_by_rank(dets, s, x) =~= s.insert(0, x));
    } else {
        assert(!ranks_before(dets, x, s[0]));
        assert(forall|k: int| 0 <= k < j - 1 ==> !ranks_before(dets, x, s.skip(1)[k]));
        assert(j - 1 < s.skip(1).len() ==> ranks_before(dets, x, s.skip(1)[j - 1]));
        lemma_insert_at(dets, s.skip(1), x, j - 1);
        assert(seq![s[0]] + s.skip(1).insert(j - 1, x) =~= s.insert(j, x));
    }
}

fn rank_position(dets: &Vec<Detection>, sorted: &Vec<usize>, x: usize) -> (j: usize)
    requires
        x < dets@.len(),
        forall|k: int| 0 <= k < sorted@.len() ==> sorted@[k] < dets@.len(),
    ensures
        j <= sorted@.len(),
        forall|k: int| 0 <= k < j ==> !ranks_before(dets@, x, sorted@[k]),
        j < sorted@.len() ==> ranks_before(dets@, x, sorted@[j as int]),
    {
    let mut j: usize = 0;
    while j < sorted.len()
        invariant
            j <= sorted@.len(),
            x < dets@.len(),
            forall|k: int| 0 <= k < sorted@.len() ==> sorted@[k] < dets@.len(),
            forall|k: int| 0 <= k < j ==> !ranks_before(dets@, x, sorted@[k]),
        decreases sorted@.len() - j,
    {
        if ranks_before_exec(dets, x, sorted[j]) {
            return j;
        }
        j += 1;
    }
    j
}

fn insert_ranked(dets: &Vec<Detection>, sorted: &mut Vec<usize>, x: usize)
    requires
        x < dets@.len(),
        forall|k: int| 0 <= k < old(sorted)@.len() ==> old(sorted)@[k] < dets@.len(),
    ensures
        final(sorted)@ == insert_by_rank(dets@, old(sorted)@, x),
        forall|k: int| 0 <= k < final(sorted)@.len() ==> final(sorted)@[k] < dets@.len(),
{
    let j = rank_position(dets, sorted, x);
    sorted.insert(j, x);
    proof {
        lemma_insert_at(dets@, old(sorted)@, x, j as int);
    }
}

fn sort_ranked(dets: &Vec<Detection>, cands: &Vec<usize>) -> (r: Vec<usize>)
    requires
        forall|k: int| 0 <= k < cands@.len() ==> cands@[k] < dets@.len(),
    ensures
        r@ == sort_by_rank(dets@, cands@),
        forall|k: int| 0 <= k < r@.len() ==> r@[k] < dets@.len(),
{
    let mut r: Vec<usize> = Vec::new();
    let mut i: usize = 0;
    while i < cands.len()
        invariant
            i <= cands@.len(),
            forall|k: int| 0 <= k < cands@.len() ==> cands@[k] < dets@.len(),
            r@ == sort_by_rank(dets@, cands@.take(i as int)),
            forall|k: int| 0 <= k < r@.len() ==> r@[k] < dets@.len(),
        decreases cands@.len() - i,
    {
        let x = cands[i];
        insert_ranked(dets, &mut r, x);
        proof {
            assert(cands@.take(i as int + 1).drop_last() =~= cands@.take(i as int));
            assert(cands@.take(i as int + 1).last() == cands@[i as int]);
        }
        i += 1;
    }
    proof {
        assert(cands@.take(cands@.len() as int) =~= cands@);
    }
    r
}

/// Whether candidate `c` overlaps none of the already kept boxes beyond
/// the suppression threshold.
pub open spec fn clears_kept(dets: Seq<Detection>, kept: Seq<usize>, c: usize, nms_milli: u32) -> bool
    decreases kept.len(),
{
    kept.len() == 0 || (!iou_exceeds(dets[kept[0] as int].bbox, dets[c as int].bbox, nms_milli as int)
        && clears_kept(dets, kept.skip(1), c, nms_milli))
}

fn clears_kept_exec(dets: &Vec<Detection>, kept: &Vec<usize>, c: usize, nms_milli: u32) -> (r: bool)
    requires
        c < dets@.len(),
        forall|k: int| 0 <= k < kept@.len() ==> kept@[k] < dets@.len(),
    ensures
        r == clears_kept(dets@, kept@, c, nms_milli),
{
    let mut k: usize = 0;
    proof {
        assert(kept@.skip(0) =~= kept@);
    }
    while k < kept.len()
        invariant
            k <= kept@.len(),
            c < dets@.len(),
            forall|j: int| 0 <= j < kept@.len() ==> kept@[j] < dets@.len(),
            clears_kept(dets@, kept@, c, nms_milli) == clears_kept(
                dets@,
                kept@.skip(k as int),
                c,
                nms_milli,
            ),
        decreases kept@.len() - k,
    {
        proof {
            assert(kept@.skip(k as int)[0] == kept@[k as int]);
            assert(kept@.skip(k as int).skip(1) =~= kept@.skip(k as int + 1));
        }
        if overlaps_above(&dets[kept[k]].bbox, &dets[c].bbox, nms_milli) {
            return false;
        }
        k += 1;
    }
    proof {
        assert(kept@.skip(kept@.len() as int) =~= Seq::<usize>::empty());
    }
    true
}

/// Greedy suppression over a ranked candidate list: each candidate is
/// kept exactly when it clears every box kept before it.
pub open spec fn greedy_keep(
    dets: Seq<Detection>,
    order: Seq<usize>,
    kept: Seq<usize>,
    nms_milli: u32,
) -> Seq<usize>
    decreases order.len(),
{
    if order.len() == 0 {
        kept
    } else if clears_kept(dets, kept, order[0], nms_milli) {
        greedy_keep(dets, order.skip(1), kept.push(order[0]), nms_milli)
    } else {
        greedy_keep(dets, order.skip(1), kept, nms_milli)
    }
}

/// The indices that survive suppression: candidates above the score
/// threshold, ranked best first, greedily kept unless they overlap an
/// already kept box by more than `nms_milli` thousandths.
pub open spec fn suppression_spec(dets: Seq<Detection>, score_milli: u32, nms_milli: u32) -> Seq<
    usize,
> {
    greedy_keep(
        dets,
        sort_by_rank(dets, candidate_indices(dets, score_milli)),
        Seq::empty(),
        nms_milli,
    )
}

/// Runs the suppression and returns the surviving indices, best first.
pub fn suppress(dets: &Vec<Detection>, score_milli: u32, nms_milli: u32) -> (r: Vec<usize>)
    ensures
        r@ == suppression_spec(dets@, score_milli, nms_milli),
        forall|k: int| 0 <= k < r@.len() ==> r@[k] < dets@.len(),
{
    let cands = filter_candidates(dets, score_milli);
    let order = sort_ranked(dets, &cands);
    let mut kept: Vec<usize> = Vec::new();
    let mut i: usize = 0;
    proof {
        assert(order@.skip(0) =~= order@);
    }
    while i < order.len()
        invariant
            i <= order@.len(),
            forall|k: int| 0 <= k < order@.len() ==> order@[k] < dets@.len(),
            forall|k: int| 0 <= k < kept@.len() ==> kept@[k] < dets@.len(),
            greedy_keep(dets@, order@.skip(i as int), kept@, nms_milli) == suppression_spec(
                dets@,
                score_milli,
                nms_milli,
            ),
        decreases order@.len() - i,
    {
        proof {
            assert(order@.skip(i as int)[0] == order@[i as int]);
            assert(order@.skip(i as int).skip(1) =~= order@.skip(i as int + 1));
        }
        let c = order[i];
        if clears_kept_exec(dets, &kept, c, nms_milli) {
            kept.push(c);
        }
        i += 1;
    }
    proof {
        assert(order@.skip(order@.len() as int) =~= Seq::<usize>::empty());
    }
    kept
}

} // verus!
