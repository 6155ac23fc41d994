use vstd::prelude::*;

use crate::capture::frame::{raster_before, MAX_EXTENT};
use crate::types::point::Point;
use crate::types::size::Size;
use crate::types::weight_point::{Weight, WeightPoint};

verus! {

/// The score of a template at every position it can take on a region: one
/// row of scores per row of positions, from top to bottom.
#[derive(Debug, Clone)]
pub struct ScoreSurface {
    pub rows: Vec<Vec<Weight>>,
}

/// The score at column `x` of row `y`.
pub open spec fn score_at(grid: Seq<Seq<Weight>>, x: int, y: int) -> Weight {
    grid[y][x]
}

/// The number of columns of a grid: the length of its first row.
pub open spec fn grid_width(grid: Seq<Seq<Weight>>) -> int {
    if grid.len() == 0 {
        0
    } else {
        grid[0].len() as int
    }
}

/// Whether `(x, y)` is a position of the grid.
pub open spec fn on_grid(grid: Seq<Seq<Weight>>, x: int, y: int) -> bool {
    0 <= y < grid.len() && 0 <= x < grid_width(grid)
}

/// The grid is not empty, every row is as long as the first, and every
/// position fits a signed coordinate.
pub open spec fn grid_ok(grid: Seq<Seq<Weight>>) -> bool {
    &&& 0 < grid.len() <= MAX_EXTENT
    &&& 0 < grid_width(grid) <= MAX_EXTENT
    &&& forall|y: int| 0 <= y < grid.len() ==> (#[trigger] grid[y]).len() == grid_width(grid)
}

/// `(x, y)` holds the highest score of the grid, and no position before it
/// holds as much.
pub open spec fn is_first_max(grid: Seq<Seq<Weight>>, x: int, y: int) -> bool {
    &&& on_grid(grid, x, y)
    &&& forall|i: int, j: int|
        on_grid(grid, i, j) ==> #[trigger] score_at(grid, i, j) <= score_at(grid, x, y)
    &&& forall|i: int, j: int|
        on_grid(grid, i, j) && raster_before(i, j, x, y) ==> #[trigger] score_at(grid, i, j)
            < score_at(grid, x, y)
}

/// Whether a template of size `template` placed with its top-left corner at
/// `origin` covers position `(x, y)`.
pub open spec fn covers(origin: Point, template: Size, x: int, y: int) -> bool {
    origin.x <= x < origin.x + template.width && origin.y <= y < origin.y + template.height
}

/// Whether one of the first `n` detections of `trace` covers `(x, y)`.
pub open spec fn blanked_by(trace: Seq<WeightPoint>, n: int, template: Size, x: int, y: int) -> bool {
    exists|t: int| 0 <= t < n && covers((#[trigger] trace[t]).point, template, x, y)
}

/// The score at `(x, y)` once the first `n` detections of `trace` have been
/// blanked out: zero under any of them, else the score as it was given.
pub open spec fn score_after(
    grid: Seq<Seq<Weight>>,
    trace: Seq<WeightPoint>,
    n: int,
    template: Size,
    x: int,
    y: int,
) -> Weight {
    if blanked_by(trace, n, template, x, y) {
        0
    } else {
        score_at(grid, x, y)
    }
}

/// Detection `t` of `trace` is the first position that holds the highest
/// score left after the detections before it were blanked out, and that score
/// reaches the threshold.
pub open spec fn is_extraction_step(
    grid: Seq<Seq<Weight>>,
    template: Size,
    threshold: Weight,
    trace: Seq<WeightPoint>,
    t: int,
) -> bool {
    let found = trace[t];
    &&& on_grid(grid, found.point.x as int, found.point.y as int)
    &&& found.weight == score_after(
        grid,
        trace,
        t,
        template,
        found.point.x as int,
        found.point.y as int,
    )
    &&& found.weight >= threshold
    &&& forall|i: int, j: int|
        on_grid(grid, i, j) ==> #[trigger] score_after(grid, trace, t, template, i, j)
            <= found.weight
    &&& forall|i: int, j: int|
        on_grid(grid, i, j) && raster_before(i, j, found.point.x as int, found.point.y as int)
            ==> #[trigger] score_after(grid, trace, t, template, i, j) < found.weight
}

/// `trace` is the run of greedy extraction on `grid`: each detection is the
/// best of what the earlier ones left, and once all are blanked out nothing
/// reaches the threshold any more.
pub open spec fn is_extraction(
    grid: Seq<Seq<Weight>>,
    template: Size,
    threshold: Weight,
    trace: Seq<WeightPoint>,
) -> bool {
    &&& forall|t: int|
        0 <= t < trace.len() ==> #[trigger] is_extraction_step(grid, template, threshold, trace, t)
    &&& forall|i: int, j: int|
        on_grid(grid, i, j) ==> #[trigger] score_after(
            grid,
            trace,
            trace.len() as int,
            template,
            i,
            j,
        ) < threshold
}

/// The cell of the template-sized grid that a point falls in.
pub open spec fn cell_of(point: Point, template: Size) -> (int, int) {
    (point.x as int / template.width as int, point.y as int / template.height as int)
}

/// Whether an entry of `kept` lies in the same cell as `point`.
pub open spec fn cell_taken(kept: Seq<WeightPoint>, point: Point, template: Size) -> bool {
    exists|u: int|
        0 <= u < kept.len() && cell_of((#[trigger] kept[u]).point, template) == cell_of(
            point,
            template,
        )
}

/// The detections with all but the first of each cell removed, in order.
pub open spec fn one_per_cell(trace: Seq<WeightPoint>, template: Size) -> Seq<WeightPoint>
    decreases trace.len(),
{
    if trace.len() == 0 {
        Seq::empty()
    } else {
        let before = one_per_cell(trace.drop_last(), template);
        if cell_taken(before, trace.last().point, template) {
            before
        } else {
            before.push(trace.last())
        }
    }
}

/// How many scores of a row are above zero.
pub open spec fn positives(row: Seq<Weight>) -> nat
    decreases row.len(),
{
    if row.len() == 0 {
        0
    } else {
        positives(row.drop_last()) + if row.last() > 0 {
            1nat
        } else {
            0nat
        }
    }
}

/// How many scores of a grid are above zero.
pub open spec fn positives_in(grid: Seq<Seq<Weight>>) -> nat
    decreases grid.len(),
{
    if grid.len() == 0 {
        0
    } else {
        positives_in(grid.drop_last()) + positives(grid.last())
    }
}

/// `after` is `before` with some scores set to zero.
pub open spec fn row_lowered(before: Seq<Weight>, after: Seq<Weight>) -> bool {
    &&& before.len() == after.len()
    &&& forall|x: int| 0 <= x < before.len() ==> after[x] == before[x] || #[trigger] after[x] == 0
}

proof fn lemma_row_lowered(before: Seq<Weight>, after: Seq<Weight>)
    requires
        row_lowered(before, after),
    ensures
        positives(after) <= positives(before),
        forall|x: int|
            0 <= x < before.len() && before[x] > 0 && #[trigger] after[x] == 0 ==> positives(after)
                < positives(before),
    decreases before.len(),
{
    if before.len() > 0 {
        lemma_row_lowered(before.drop_last(), after.drop_last());
        assert forall|x: int|
            0 <= x < before.len() && before[x] > 0 && #[trigger] after[x] == 0 implies positives(
            after,
        ) < positives(before) by {
            if x < before.len() - 1 {
                assert(before.drop_last()[x] == before[x]);
                assert(after.drop_last()[x] == after[x]);
            }
        }
    }
}

/// Setting scores to zero, one of which was above zero, leaves fewer scores
/// above zero.
pub proof fn lemma_grid_lowered(before: Seq<Seq<Weight>>, after: Seq<Seq<Weight>>, x: int, y: int)
    requires
        before.len() == after.len(),
        forall|j: int| 0 <= j < before.len() ==> row_lowered(#[trigger] before[j], after[j]),
        0 <= y < before.len(),
        0 <= x < before[y].len(),
        before[y][x] > 0,
        after[y][x] == 0,
    ensures
        positives_in(after) < positives_in(before),
    decreases before.len(),
{
    let last = before.len() - 1;
    lemma_row_lowered(before[last], after[last]);
    if y < last {
        assert(before.drop_last()[y] == before[y]);
        assert(after.drop_last()[y] == after[y]);
        assert forall|j: int| 0 <= j < before.drop_last().len() implies row_lowered(
            #[trigger] before.drop_last()[j],
            after.drop_last()[j],
        ) by {
            assert(before.drop_last()[j] == before[j]);
            assert(after.drop_last()[j] == after[j]);
        }
        lemma_grid_lowered(before.drop_last(), after.drop_last(), x, y);
    } else {
        lemma_grid_not_raised(before.drop_last(), after.drop_last());
    }
}

proof fn lemma_grid_not_raised(before: Seq<Seq<Weight>>, after: Seq<Seq<Weight>>)
    requires
        before.len() == after.len(),
        forall|j: int| 0 <= j < before.len() ==> row_lowered(#[trigger] before[j], after[j]),
    ensures
        positives_in(after) <= positives_in(before),
    decreases before.len(),
{
    if before.len() > 0 {
        let last = before.len() - 1;
        lemma_row_lowered(before[last], after[last]);
        assert forall|j: int| 0 <= j < before.drop_last().len() implies row_lowered(
            #[trigger] before.drop_last()[j],
            after.drop_last()[j],
        ) by {
            assert(before.drop_last()[j] == before[j]);
            assert(after.drop_last()[j] == after[j]);
        }
        lemma_grid_not_raised(before.drop_last(), after.drop_last());
    }
}

/// One more detection blanks what the earlier ones blanked, and what it
/// covers itself.
pub proof fn lemma_blanked_by_push(
    trace: Seq<WeightPoint>,
    added: WeightPoint,
    template: Size,
    x: int,
    y: int,
)
    ensures
        blanked_by(trace.push(added), trace.len() as int + 1, template, x, y) <==> blanked_by(
            trace,
            trace.len() as int,
            template,
            x,
            y,
        ) || covers(added.point, template, x, y),
{
    let longer = trace.push(added);
    if blanked_by(trace, trace.len() as int, template, x, y) {
        let t = choose|t: int|
            0 <= t < trace.len() && covers((#[trigger] trace[t]).point, template, x, y);
        assert(longer[t] == trace[t]);
    }
    if covers(added.point, template, x, y) {
        assert(longer[trace.len() as int] == added);
    }
    if blanked_by(longer, trace.len() as int + 1, template, x, y) {
        let t = choose|t: int|
            0 <= t < trace.len() + 1 && covers((#[trigger] longer[t]).point, template, x, y);
        if t < trace.len() {
            assert(longer[t] == trace[t]);
        }
    }
}

/// What the first `n` detections blank does not depend on the detections
/// after them.
pub proof fn lemma_blanked_by_prefix(
    trace: Seq<WeightPoint>,
    added: WeightPoint,
    n: int,
    template: Size,
    x: int,
    y: int,
)
    requires
        0 <= n <= trace.len(),
    ensures
        blanked_by(trace.push(added), n, template, x, y) == blanked_by(trace, n, template, x, y),
{
    let longer = trace.push(added);
    if blanked_by(trace, n, template, x, y) {
        let t = choose|t: int| 0 <= t < n && covers((#[trigger] trace[t]).point, template, x, y);
        assert(longer[t] == trace[t]);
    }
    if blanked_by(longer, n, template, x, y) {
        let t = choose|t: int| 0 <= t < n && covers((#[trigger] longer[t]).point, template, x, y);
        assert(longer[t] == trace[t]);
    }
}

impl ScoreSurface {
    /// The scores as a grid of rows.
    pub open spec fn grid(&self) -> Seq<Seq<Weight>> {
        Seq::new(self.rows@.len(), |y: int| self.rows@[y]@)
    }

    pub fn new(rows: Vec<Vec<Weight>>) -> (surface: ScoreSurface)
        ensures
            surface.rows == rows,
    {
        ScoreSurface { rows }
    }

    /// Whether the surface is a non-empty rectangle of representable extent.
    pub fn is_valid(&self) -> (valid: bool)
        ensures
            valid == grid_ok(self.grid()),
    {
        let height: usize = self.rows.len();
        if height == 0 || height > MAX_EXTENT as usize {
            return false;
        }
        let width: usize = self.rows[0].len();
        assert(self.grid()[0] == self.rows@[0]@);
        if width == 0 || width > MAX_EXTENT as usize {
            return false;
        }
        let mut y: usize = 0;
        while y < height
            invariant
                y <= height,
                height == self.rows@.len(),
                width == grid_width(self.grid()),
                forall|j: int| 0 <= j < y ==> (#[trigger] self.grid()[j]).len() == width,
            decreases height - y,
        {
            if self.rows[y].len() != width {
                assert(self.grid()[y as int].len() != grid_width(self.grid()));
                return false;
            }
            assert(self.grid()[y as int] == self.rows@[y as int]@);
            y += 1;
        }
        true
    }

    /// The first position, rows read from the top and each from the left, that
    /// holds the highest score.
    pub fn first_max(&self) -> (best: WeightPoint)
        requires
            grid_ok(self.grid()),
        ensures
            is_first_max(self.grid(), best.point.x as int, best.point.y as int),
            best.weight == score_at(self.grid(), best.point.x as int, best.point.y as int),
    {
        let height: usize = self.rows.len();
        let width: usize = self.rows[0].len();
        assert(self.grid()[0] == self.rows@[0]@);
        let mut best_x: usize = 0;
        let mut best_y: usize = 0;
        let mut best: Weight = self.rows[0][0];
        let mut y: usize = 0;
        while y < height
            invariant
                y <= height,
                height == self.rows@.len(),
                width == grid_width(self.grid()),
                grid_ok(self.grid()),
                on_grid(self.grid(), best_x as int, best_y as int),
                best == score_at(self.grid(), best_x as int, best_y as int),
                forall|i: int, j: int|
                    on_grid(self.grid(), i, j) && j < y ==> #[trigger] score_at(self.grid(), i, j)
                        <= best,
                forall|i: int, j: int|
                    on_grid(self.grid(), i, j) && raster_before(i, j, best_x as int, best_y as int)
                        ==> #[trigger] score_at(self.grid(), i, j) < best,
            decreases height - y,
        {
            assert(self.grid()[y as int] == self.rows@[y as int]@);
            let row: &Vec<Weight> = &self.rows[y];
            let mut x: usize = 0;
            while x < width
                invariant
                    x <= width,
                    y < height,
                    height == self.rows@.len(),
                    width == grid_width(self.grid()),
                    grid_ok(self.grid()),
                    row@ == self.grid()[y as int],
                    row@.len() == width,
                    on_grid(self.grid(), best_x as int, best_y as int),
                    best == score_at(self.grid(), best_x as int, best_y as int),
                    forall|i: int, j: int|
                        on_grid(self.grid(), i, j) && raster_before(i, j, x as int, y as int)
                            ==> #[trigger] score_at(self.grid(), i, j) <= best,
                    forall|i: int, j: int|
                        on_grid(self.grid(), i, j) && raster_before(
                            i,
                            j,
                            best_x as int,
                            best_y as int,
                        ) ==> #[trigger] score_at(self.grid(), i, j) < best,
                decreases width - x,
            {
                let here: Weight = row[x];
                assert(here == score_at(self.grid(), x as int, y as int));
                if here > best {
                    best = here;
                    best_x = x;
                    best_y = y;
                }
                x += 1;
            }
            y += 1;
        }
        WeightPoint { point: Point { x: best_x as i32, y: best_y as i32 }, weight: best }
    }

    /// Sets to zero every score that a template placed at `origin` covers.
    pub fn blank(&mut self, origin: Point, template: Size)
        requires
            grid_ok(old(self).grid()),
        ensures
            grid_ok(final(self).grid()),
            final(self).grid().len() == old(self).grid().len(),
            grid_width(final(self).grid()) == grid_width(old(self).grid()),
            forall|x: int, y: int|
                on_grid(old(self).grid(), x, y) ==> #[trigger] score_at(final(self).grid(), x, y)
                    == if covers(origin, template, x, y) {
                    0
                } else {
                    score_at(old(self).grid(), x, y)
                },
    {
        let ghost before = self.grid();
        let height: usize = self.rows.len();
        let width: usize = self.rows[0].len();
        assert(before[0] == self.rows@[0]@);
        let left: i64 = origin.x as i64;
        let right: i64 = origin.x as i64 + template.width as i64;
        let top: i64 = origin.y as i64;
        let bottom: i64 = origin.y as i64 + template.height as i64;
        let mut rows: Vec<Vec<Weight>> = Vec::with_capacity(height);
        let mut y: usize = 0;
        while y < height
            invariant
                y <= height,
                height == self.rows@.len(),
                self.grid() == before,
                grid_ok(before),
                width == grid_width(before),
                left == origin.x,
                right == origin.x + template.width,
                top == origin.y,
                bottom == origin.y + template.height,
                rows@.len() == y,
                forall|j: int| 0 <= j < y ==> (#[trigger] rows@[j])@.len() == width,
                forall|i: int, j: int|
                    0 <= j < y && 0 <= i < width ==> #[trigger] rows@[j]@[i] == if covers(
                        origin,
                        template,
                        i,
                        j,
                    ) {
                        0
                    } else {
                        score_at(before, i, j)
                    },
            decreases height - y,
        {
            assert(before[y as int] == self.rows@[y as int]@);
            let source: &Vec<Weight> = &self.rows[y];
            let in_rows: bool = top <= y as i64 && (y as i64) < bottom;
            let mut row: Vec<Weight> = Vec::with_capacity(width);
            let mut x: usize = 0;
            while x < width
                invariant
                    x <= width,
                    y < height,
                    source@ == before[y as int],
                    source@.len() == width,
                    width <= MAX_EXTENT,
                    left == origin.x,
                    right == origin.x + template.width,
                    in_rows == (origin.y <= y < origin.y + template.height),
                    row@.len() == x,
                    forall|i: int|
                        0 <= i < x ==> #[trigger] row@[i] == if covers(origin, template, i, y as int) {
                            0
                        } else {
                            score_at(before, i, y as int)
                        },
                decreases width - x,
            {
                let covered: bool = in_rows && left <= x as i64 && (x as i64) < right;
                if covered {
                    row.push(0);
                } else {
                    row.push(source[x]);
                }
                x += 1;
            }
            rows.push(row);
            y += 1;
        }
        self.rows = rows;
        proof {
            let after = self.grid();
            assert(after[0] == self.rows@[0]@);
            assert forall|j: int| 0 <= j < after.len() implies (#[trigger] after[j]).len()
                == grid_width(after) by {
                assert(after[j] == self.rows@[j]@);
            }
            assert forall|i: int, j: int| on_grid(before, i, j) implies #[trigger] score_at(
                after,
                i,
                j,
            ) == if covers(origin, template, i, j) {
                0
            } else {
                score_at(before, i, j)
            } by {
                assert(after[j] == self.rows@[j]@);
                assert(score_at(after, i, j) == self.rows@[j]@[i]);
            }
        }
    }
}

} // verus!
