//! Proportional splitting of a rectangle into stacked rows or columns.
use vstd::prelude::*;
use vstd::arithmetic::div_mod::{lemma_div_is_ordered, lemma_div_by_multiple};
use vstd::arithmetic::mul::lemma_mul_inequality;
use crate::display::geometry::{LAYOUT_LIMIT, Point, Rectangle, Size, rect_bounded};

verus! {

/// A container that splits its `area` into weighted slices separated by `gap`
/// pixels.
#[derive(Debug, Clone, Copy, PartialEq, Eq, Structural)]
pub struct Flexbox {
    pub area: Rectangle,
    pub gap: i32,
}

/// The direction along which a split stacks its slices.
#[derive(Debug, Clone, Copy, PartialEq, Eq, Structural)]
pub enum Axis {
    Vertical,
    Horizontal,
}

/// Sum of the first `k` weights.
pub open spec fn prefix_sum(s: Seq<u32>, k: int) -> int
    decreases k,
{
    if k <= 0 || k > s.len() {
        0
    } else {
        prefix_sum(s, k - 1) + s[k - 1]
    }
}

/// The extent that is split (height for vertical stacking, width otherwise).
pub open spec fn split_extent(area: Rectangle, axis: Axis) -> int {
    match axis {
        Axis::Vertical => area.size.height as i32 as int,
        Axis::Horizontal => area.size.width as i32 as int,
    }
}

/// The extent that every slice keeps from the area.
pub open spec fn cross_extent(area: Rectangle, axis: Axis) -> u32 {
    match axis {
        Axis::Vertical => area.size.width,
        Axis::Horizontal => area.size.height,
    }
}

/// Total gap between `n` slices.
pub open spec fn total_gap(gap: i32, n: int) -> int {
    gap * (if n - 1 > 0 { n - 1 } else { 0 })
}

/// The extent left for the slices once the gaps are taken out (never negative).
pub open spec fn usable_extent(area: Rectangle, gap: i32, sizes: Seq<u32>, axis: Axis) -> int {
    let u = split_extent(area, axis) - total_gap(gap, sizes.len() as int);
    if u > 0 {
        u
    } else {
        0
    }
}

/// Where the first `k` slices end, relative to the start of the usable extent,
/// not counting gaps: `usable * (w_0 + .. + w_{k-1}) / total`, rounded down.
pub open spec fn boundary(area: Rectangle, gap: i32, sizes: Seq<u32>, axis: Axis, k: int) -> int {
    let total = prefix_sum(sizes, sizes.len() as int);
    if total == 0 {
        0
    } else {
        usable_extent(area, gap, sizes, axis) * prefix_sum(sizes, k) / total
    }
}

/// Offset of slice `i` from the area's origin along the split axis.
pub open spec fn slice_offset(area: Rectangle, gap: i32, sizes: Seq<u32>, axis: Axis, i: int) -> int {
    boundary(area, gap, sizes, axis, i) + i * gap
}

/// Length of slice `i` along the split axis.
pub open spec fn slice_extent(area: Rectangle, gap: i32, sizes: Seq<u32>, axis: Axis, i: int) -> int {
    boundary(area, gap, sizes, axis, i + 1) - boundary(area, gap, sizes, axis, i)
}

/// The `i`-th slice of a split.
pub open spec fn slice_rect(area: Rectangle, gap: i32, sizes: Seq<u32>, axis: Axis, i: int) -> Rectangle {
    let off = slice_offset(area, gap, sizes, axis, i);
    let ext = slice_extent(area, gap, sizes, axis, i) as u32;
    match axis {
        Axis::Vertical => Rectangle {
            top_left: Point { x: area.top_left.x, y: (area.top_left.y + off) as i32 },
            size: Size { width: cross_extent(area, axis), height: ext },
        },
        Axis::Horizontal => Rectangle {
            top_left: Point { x: (area.top_left.x + off) as i32, y: area.top_left.y },
            size: Size { width: ext, height: cross_extent(area, axis) },
        },
    }
}

pub open spec fn fits_i32(v: int) -> bool {
    i32::MIN <= v <= i32::MAX
}

/// The split of `area`: the area itself when there are no weights, otherwise
/// one slice per weight.
pub open spec fn spec_split(area: Rectangle, gap: i32, sizes: Seq<u32>, axis: Axis) -> Seq<Rectangle> {
    if sizes.len() == 0 {
        seq![area]
    } else {
        Seq::new(sizes.len(), |i: int| slice_rect(area, gap, sizes, axis, i))
    }
}

/// The inputs on which the split's integer arithmetic stays in range: the
/// weights sum to a `u32`, the gaps and the running offsets fit an `i32`, and
/// `usable * total` fits a `u32`.
pub open spec fn split_in_range(area: Rectangle, gap: i32, sizes: Seq<u32>, axis: Axis) -> bool {
    let n = sizes.len() as int;
    let total = prefix_sum(sizes, n);
    let origin = match axis {
        Axis::Vertical => area.top_left.y as int,
        Axis::Horizontal => area.top_left.x as int,
    };
    sizes.len() > 0 ==> {
        &&& n <= i32::MAX
        &&& total <= u32::MAX
        &&& fits_i32(total_gap(gap, n))
        &&& fits_i32(split_extent(area, axis) - total_gap(gap, n))
        &&& usable_extent(area, gap, sizes, axis) * total <= u32::MAX
        &&& forall|i: int|
            0 <= i <= n ==> #[trigger] fits_i32(slice_offset(area, gap, sizes, axis, i))
        &&& forall|i: int|
            0 <= i < n ==> fits_i32(origin + #[trigger] slice_offset(area, gap, sizes, axis, i))
        &&& forall|i: int|
            0 <= i < n ==> fits_i32(#[trigger] slice_extent(area, gap, sizes, axis, i) + gap)
    }
}

proof fn lemma_prefix_sum_monotone(s: Seq<u32>, i: int, j: int)
    requires
        0 <= i <= j <= s.len(),
    ensures
        0 <= prefix_sum(s, i) <= prefix_sum(s, j),
    decreases j - i,
{
    if i < j {
        lemma_prefix_sum_monotone(s, i, j - 1);
    } else {
        lemma_prefix_sum_nonneg(s, i);
    }
}

proof fn lemma_prefix_sum_nonneg(s: Seq<u32>, i: int)
    ensures
        0 <= prefix_sum(s, i),
    decreases i,
{
    if i > 0 && i <= s.len() {
        lemma_prefix_sum_nonneg(s, i - 1);
    }
}

/// Boundaries never decrease and stay within the usable extent.
proof fn lemma_boundary_monotone(area: Rectangle, gap: i32, sizes: Seq<u32>, axis: Axis, i: int, j: int)
    requires
        0 <= i <= j <= sizes.len(),
    ensures
        0 <= boundary(area, gap, sizes, axis, i) <= boundary(area, gap, sizes, axis, j),
        boundary(area, gap, sizes, axis, j) <= usable_extent(area, gap, sizes, axis),
{
    let n = sizes.len() as int;
    let total = prefix_sum(sizes, n);
    let u = usable_extent(area, gap, sizes, axis);
    lemma_prefix_sum_monotone(sizes, i, j);
    lemma_prefix_sum_monotone(sizes, j, n);
    if total != 0 {
        lemma_mul_inequality(prefix_sum(sizes, i), prefix_sum(sizes, j), u);
        lemma_mul_inequality(prefix_sum(sizes, j), total, u);
        lemma_mul_inequality(0, prefix_sum(sizes, i), u);
        assert(u * prefix_sum(sizes, i) == prefix_sum(sizes, i) * u) by (nonlinear_arith);
        assert(u * prefix_sum(sizes, j) == prefix_sum(sizes, j) * u) by (nonlinear_arith);
        assert(u * total == total * u) by (nonlinear_arith);
        lemma_div_is_ordered(0, u * prefix_sum(sizes, i), total);
        lemma_div_is_ordered(u * prefix_sum(sizes, i), u * prefix_sum(sizes, j), total);
        lemma_div_is_ordered(u * prefix_sum(sizes, j), u * total, total);
        lemma_div_by_multiple(u, total);
    }
}

/// Splits `area` along `axis` in proportion to `sizes`, leaving `gap` pixels
/// between neighbouring slices.
fn split(area: Rectangle, gap: i32, sizes: &[u32], axis: Axis) -> (rects: Vec<Rectangle>)
    requires
        split_in_range(area, gap, sizes@, axis),
    ensures
        rects@ == spec_split(area, gap, sizes@, axis),
{
    if sizes.len() == 0 {
        let mut v = Vec::new();
        v.push(area);
        assert(v@ =~= spec_split(area, gap, sizes@, axis));
        return v;
    }
    let ghost s = sizes@;
    let ghost n = s.len() as int;

    let mut total_weight: u32 = 0;
    let mut k: usize = 0;
    while k < sizes.len()
        invariant
            s == sizes@,
            n == s.len(),
            split_in_range(area, gap, s, axis),
            n > 0,
            0 <= k <= n,
            total_weight == prefix_sum(s, k as int),
        decreases n - k,
    {
        proof {
            lemma_prefix_sum_monotone(s, k + 1, n);
        }
        total_weight = total_weight + sizes[k];
        k = k + 1;
    }

    let n_i32 = sizes.len() as i32;
    let gaps: i32 = if n_i32 - 1 > 0 { n_i32 - 1 } else { 0 };
    let tgap = gap * gaps;

    let (total_extent, fixed_extent, origin_x, origin_y) = match axis {
        Axis::Vertical => (area.size.height as i32, area.size.width, area.top_left.x, area.top_left.y),
        Axis::Horizontal => (area.size.width as i32, area.size.height, area.top_left.x, area.top_left.y),
    };

    let diff = total_extent - tgap;
    let usable: u32 = if diff > 0 { diff as u32 } else { 0 };
    assert(usable == usable_extent(area, gap, s, axis));

    let mut rects: Vec<Rectangle> = Vec::new();
    let mut cursor: i32 = 0;
    let mut cumulative_weight: u32 = 0;
    let mut prev_boundary: u32 = 0;
    let mut i: usize = 0;
    while i < sizes.len()
        invariant
            s == sizes@,
            n == s.len(),
            n > 0,
            split_in_range(area, gap, s, axis),
            total_weight == prefix_sum(s, n),
            usable == usable_extent(area, gap, s, axis),
            fixed_extent == cross_extent(area, axis),
            origin_x == area.top_left.x,
            origin_y == area.top_left.y,
            0 <= i <= n,
            cumulative_weight == prefix_sum(s, i as int),
            prev_boundary == boundary(area, gap, s, axis, i as int),
            cursor == slice_offset(area, gap, s, axis, i as int),
            rects@.len() == i,
            forall|j: int| 0 <= j < i ==> rects@[j] == slice_rect(area, gap, s, axis, j),
        decreases n - i,
    {
        let weight = sizes[i];
        proof {
            lemma_prefix_sum_monotone(s, i + 1, n);
            lemma_boundary_monotone(area, gap, s, axis, i as int, i + 1);
            lemma_mul_inequality(prefix_sum(s, i + 1), total_weight as int, usable as int);
            assert(usable * prefix_sum(s, i + 1) == prefix_sum(s, i + 1) * usable) by (nonlinear_arith);
            assert(usable * (total_weight as int) == (total_weight as int) * usable) by (nonlinear_arith);
        }
        cumulative_weight = cumulative_weight + weight;
        let bound: u32 = if total_weight == 0 {
            0
        } else {
            (usable * cumulative_weight) / total_weight
        };
        assert(bound == boundary(area, gap, s, axis, i + 1));
        let extent = bound - prev_boundary;
        prev_boundary = bound;
        assert(extent == slice_extent(area, gap, s, axis, i as int));
        assert(fits_i32(slice_offset(area, gap, s, axis, i as int)));
        assert(fits_i32(slice_offset(area, gap, s, axis, i + 1)));
        assert(fits_i32(slice_extent(area, gap, s, axis, i as int) + gap));

        let rect = match axis {
            Axis::Vertical => Rectangle::new(
                Point::new(origin_x, origin_y + cursor),
                Size::new(fixed_extent, extent),
            ),
            Axis::Horizontal => Rectangle::new(
                Point::new(origin_x + cursor, origin_y),
                Size::new(extent, fixed_extent),
            ),
        };
        rects.push(rect);
        proof {
            assert((i + 1) * (gap as int) == i * (gap as int) + gap) by (nonlinear_arith);
            assert(extent <= usable);
        }
        let step = extent as i32 + gap;
        cursor = cursor + step;
        i = i + 1;
    }
    assert(rects@ =~= spec_split(area, gap, s, axis));
    rects
}

/// A split of an area no larger than `LAYOUT_LIMIT` whose corner is within
/// 2^28 of the origin, into at most a thousand slices, with a gap of at most
/// a thousand pixels and weights summing to at most 4000, stays within range.
pub proof fn lemma_split_in_range_within_limit(area: Rectangle, gap: i32, sizes: Seq<u32>, axis: Axis)
    requires
        rect_bounded(area, 0x1000_0000, LAYOUT_LIMIT as int),
        0 <= gap <= 1000,
        0 < sizes.len() <= 1000,
        prefix_sum(sizes, sizes.len() as int) <= 4000,
    ensures
        split_in_range(area, gap, sizes, axis),
{
    let n = sizes.len() as int;
    let total = prefix_sum(sizes, n);
    let u = usable_extent(area, gap, sizes, axis);
    lemma_prefix_sum_nonneg(sizes, n);
    assert(0 <= gap * (n - 1) <= 1000 * 1000) by (nonlinear_arith)
        requires 0 <= gap <= 1000, 1 <= n <= 1000;
    assert(split_extent(area, axis) <= LAYOUT_LIMIT);
    assert(0 <= u <= LAYOUT_LIMIT);
    assert(u * total <= LAYOUT_LIMIT * 4000) by (nonlinear_arith)
        requires 0 <= u <= LAYOUT_LIMIT, 0 <= total <= 4000;
    assert forall|i: int| 0 <= i <= n implies #[trigger] fits_i32(slice_offset(area, gap, sizes, axis, i))
        && 0 <= slice_offset(area, gap, sizes, axis, i) <= LAYOUT_LIMIT + 1000 * 1000 by {
        lemma_boundary_monotone(area, gap, sizes, axis, 0, i);
        assert(0 <= i * gap <= 1000 * 1000) by (nonlinear_arith)
            requires 0 <= gap <= 1000, 0 <= i <= 1000;
    }
    assert forall|i: int| 0 <= i < n implies fits_i32(
        (match axis {
            Axis::Vertical => area.top_left.y as int,
            Axis::Horizontal => area.top_left.x as int,
        }) + #[trigger] slice_offset(area, gap, sizes, axis, i)) by {
        lemma_boundary_monotone(area, gap, sizes, axis, 0, i);
        assert(0 <= i * gap <= 1000 * 1000) by (nonlinear_arith)
            requires 0 <= gap <= 1000, 0 <= i <= 1000;
    }
    assert forall|i: int| 0 <= i < n implies fits_i32(#[trigger] slice_extent(area, gap, sizes, axis, i) + gap) by {
        lemma_boundary_monotone(area, gap, sizes, axis, i, i + 1);
        lemma_boundary_monotone(area, gap, sizes, axis, 0, i);
    }
}

/// The slices of a split follow each other: each starts `gap` pixels after
/// the previous one ends, the first at the area's origin, none has a negative
/// length, and, when some weight is positive, their lengths add up to the
/// extent left once the gaps are taken out.
pub proof fn split_tiles_usable_extent(area: Rectangle, gap: i32, sizes: Seq<u32>, axis: Axis)
    requires
        sizes.len() > 0,
    ensures
        slice_offset(area, gap, sizes, axis, 0) == 0,
        forall|i: int|
            0 <= i < sizes.len() ==> #[trigger] slice_extent(area, gap, sizes, axis, i) >= 0,
        forall|i: int|
            0 <= i < sizes.len() ==> slice_offset(area, gap, sizes, axis, i + 1)
                == #[trigger] slice_offset(area, gap, sizes, axis, i) + slice_extent(area, gap, sizes, axis, i) + gap,
        prefix_sum(sizes, sizes.len() as int) > 0 ==> boundary(area, gap, sizes, axis, sizes.len() as int)
            == usable_extent(area, gap, sizes, axis),
{
    let n = sizes.len() as int;
    assert forall|i: int| 0 <= i < n implies #[trigger] slice_extent(area, gap, sizes, axis, i) >= 0 by {
        lemma_boundary_monotone(area, gap, sizes, axis, i, i + 1);
    }
    assert forall|i: int| 0 <= i < n implies slice_offset(area, gap, sizes, axis, i + 1)
        == #[trigger] slice_offset(area, gap, sizes, axis, i) + slice_extent(area, gap, sizes, axis, i) + gap by {
        assert((i + 1) * (gap as int) == i * (gap as int) + gap) by (nonlinear_arith);
    }
    let total = prefix_sum(sizes, n);
    if total > 0 {
        let u = usable_extent(area, gap, sizes, axis);
        assert(u * total == total * u) by (nonlinear_arith);
        lemma_div_by_multiple(u, total);
    }
}

impl Flexbox {
    pub fn new(area: Rectangle, gap: i32) -> (r: Self)
        ensures
            r.area == area,
            r.gap == gap,
    {
        Self { area, gap }
    }

    /// Splits `area` into `sizes.len()` rectangles stacked top-to-bottom,
    /// with height distributed proportionally to each weight in `sizes`,
    /// separated by `self.gap` pixels.
    pub fn vertical(self, sizes: &[u32]) -> (rects: Vec<Rectangle>)
        requires
            split_in_range(self.area, self.gap, sizes@, Axis::Vertical),
        ensures
            rects@ == spec_split(self.area, self.gap, sizes@, Axis::Vertical),
    {
        split(self.area, self.gap, sizes, Axis::Vertical)
    }

    /// Same as `vertical`, but splits left-to-right along width.
    pub fn horizontal(self, sizes: &[u32]) -> (rects: Vec<Rectangle>)
        requires
            split_in_range(self.area, self.gap, sizes@, Axis::Horizontal),
        ensures
            rects@ == spec_split(self.area, self.gap, sizes@, Axis::Horizontal),
    {
        split(self.area, self.gap, sizes, Axis::Horizontal)
    }
}

} // verus!
