use vstd::prelude::*;

use crate::capture::scores::{
    blanked_by, cell_of, cell_taken, covers, grid_ok, grid_width, is_extraction,
    is_extraction_step, is_first_max, lemma_blanked_by_prefix, lemma_blanked_by_push, on_grid,
    one_per_cell, positives_in, score_after, score_at, ScoreSurface,
};
use crate::capture::frame::{crop_extent, raster_before, Frame};
use crate::capture::mat::{is_bgra_of, is_mask_of, Mat};
use crate::error::Error;
use crate::types::point::Point;
use crate::types::size::Size;
use crate::types::weight_point::{descending, Weight, WeightPoint};

verus! {

/// The scores of a template on a region, with the template's size: what is
/// needed to pick the best match, or every match.
#[derive(Debug, Clone)]
pub struct FindResult {
    pub template: Size,
    pub matched: ScoreSurface,
}

/// Why `multiple` refuses its input, if it does: a surface that is no
/// rectangle, then an empty template, then a threshold of zero.
pub open spec fn extraction_fault(grid: Seq<Seq<Weight>>, template: Size, threshold: Weight)
    -> Option<Error> {
    if !grid_ok(grid) {
        Some(Error::InvalidScores)
    } else if template.width == 0 || template.height == 0 {
        Some(Error::InvalidRegion)
    } else if threshold == 0 {
        Some(Error::InvalidThreshold)
    } else {
        None
    }
}

proof fn lemma_step_survives_push(
    grid: Seq<Seq<Weight>>,
    template: Size,
    threshold: Weight,
    trace: Seq<WeightPoint>,
    added: WeightPoint,
    t: int,
)
    requires
        0 <= t < trace.len(),
        is_extraction_step(grid, template, threshold, trace, t),
    ensures
        is_extraction_step(grid, template, threshold, trace.push(added), t),
{
    let longer = trace.push(added);
    assert(longer[t] == trace[t]);
    let found = trace[t];
    assert forall|i: int, j: int| true implies #[trigger] score_after(
        grid,
        longer,
        t,
        template,
        i,
        j,
    ) == score_after(grid, trace, t, template, i, j) by {
        lemma_blanked_by_prefix(trace, added, t, template, i, j);
    }
    assert(score_after(grid, longer, t, template, found.point.x as int, found.point.y as int)
        == score_after(grid, trace, t, template, found.point.x as int, found.point.y as int));
    assert forall|i: int, j: int| on_grid(grid, i, j) implies #[trigger] score_after(
        grid,
        longer,
        t,
        template,
        i,
        j,
    ) <= found.weight by {
        assert(score_after(grid, trace, t, template, i, j) <= found.weight);
    }
    assert forall|i: int, j: int|
        on_grid(grid, i, j) && raster_before(
            i,
            j,
            found.point.x as int,
            found.point.y as int,
        ) implies #[trigger] score_after(grid, longer, t, template, i, j) < found.weight by {
        assert(score_after(grid, trace, t, template, i, j) < found.weight);
    }
}

proof fn lemma_new_step(
    grid: Seq<Seq<Weight>>,
    current: Seq<Seq<Weight>>,
    template: Size,
    threshold: Weight,
    trace: Seq<WeightPoint>,
    best: WeightPoint,
)
    requires
        grid_ok(grid),
        current.len() == grid.len(),
        grid_width(current) == grid_width(grid),
        forall|i: int, j: int|
            on_grid(grid, i, j) ==> #[trigger] score_at(current, i, j) == score_after(
                grid,
                trace,
                trace.len() as int,
                template,
                i,
                j,
            ),
        is_first_max(current, best.point.x as int, best.point.y as int),
        best.weight == score_at(current, best.point.x as int, best.point.y as int),
        best.weight >= threshold,
    ensures
        is_extraction_step(grid, template, threshold, trace.push(best), trace.len() as int),
{
    let longer = trace.push(best);
    let n = trace.len() as int;
    assert(longer[n] == best);
    assert forall|i: int, j: int| true implies #[trigger] score_after(
        grid,
        longer,
        n,
        template,
        i,
        j,
    ) == score_after(grid, trace, n, template, i, j) by {
        lemma_blanked_by_prefix(trace, best, n, template, i, j);
    }
    assert(on_grid(grid, best.point.x as int, best.point.y as int));
    assert forall|i: int, j: int| on_grid(grid, i, j) implies #[trigger] score_after(
        grid,
        longer,
        n,
        template,
        i,
        j,
    ) <= best.weight by {
        assert(on_grid(current, i, j));
        assert(score_at(current, i, j) <= best.weight);
    }
    assert forall|i: int, j: int|
        on_grid(grid, i, j) && raster_before(
            i,
            j,
            best.point.x as int,
            best.point.y as int,
        ) implies #[trigger] score_after(grid, longer, n, template, i, j) < best.weight by {
        assert(on_grid(current, i, j));
        assert(score_at(current, i, j) < best.weight);
    }
}

impl FindResult {
    pub fn new(template: Size, matched: ScoreSurface) -> (found: FindResult)
        ensures
            found.template == template,
            found.matched == matched,
    {
        FindResult { template, matched }
    }

    /// The best match: the first position that holds the highest score, with
    /// that score. Fails when the surface is empty or no rectangle.
    pub fn one(&self) -> (r: Result<WeightPoint, Error>)
        ensures
            r is Ok <==> grid_ok(self.matched.grid()),
            r matches Err(e) ==> e == Error::InvalidScores,
            r matches Ok(best) ==> is_first_max(
                self.matched.grid(),
                best.point.x as int,
                best.point.y as int,
            ) && best.weight == score_at(
                self.matched.grid(),
                best.point.x as int,
                best.point.y as int,
            ),
    {
        if !self.matched.is_valid() {
            return Err(Error::InvalidScores);
        }
        Ok(self.matched.first_max())
    }

    /// Every match: the best position whose score reaches `threshold` is taken
    /// and the template-sized area at it is blanked out, again and again until
    /// nothing reaches the threshold; of the detections that fall in one cell
    /// of the template-sized grid only the first is kept. The detections come
    /// out from the best score down. The surface is left as blanked.
    pub fn multiple(&mut self, threshold: Weight) -> (r: Result<Vec<WeightPoint>, Error>)
        ensures
            final(self).template == old(self).template,
            match r {
                Err(e) => extraction_fault(old(self).matched.grid(), old(self).template, threshold)
                    == Some(e) && final(self).matched == old(self).matched,
                Ok(kept) => extraction_fault(
                    old(self).matched.grid(),
                    old(self).template,
                    threshold,
                ) is None && exists|trace: Seq<WeightPoint>|
                    {
                        &&& #[trigger] is_extraction(
                            old(self).matched.grid(),
                            old(self).template,
                            threshold,
                            trace,
                        )
                        &&& kept@ == one_per_cell(trace, old(self).template)
                        &&& final(self).matched.grid().len() == old(self).matched.grid().len()
                        &&& grid_width(final(self).matched.grid()) == grid_width(
                            old(self).matched.grid(),
                        )
                        &&& forall|i: int, j: int|
                            on_grid(old(self).matched.grid(), i, j) ==> #[trigger] score_at(
                                final(self).matched.grid(),
                                i,
                                j,
                            ) == score_after(
                                old(self).matched.grid(),
                                trace,
                                trace.len() as int,
                                old(self).template,
                                i,
                                j,
                            )
                    },
            },
    {
        if !self.matched.is_valid() {
            return Err(Error::InvalidScores);
        }
        if self.template.width == 0 || self.template.height == 0 {
            return Err(Error::InvalidRegion);
        }
        if threshold == 0 {
            return Err(Error::InvalidThreshold);
        }
        let ghost grid = self.matched.grid();
        let template: Size = self.template;
        let mut matches: Vec<WeightPoint> = Vec::new();
        loop
            invariant
                self.template == template,
                template.width > 0,
                template.height > 0,
                threshold > 0,
                grid_ok(grid),
                grid_ok(self.matched.grid()),
                self.matched.grid().len() == grid.len(),
                grid_width(self.matched.grid()) == grid_width(grid),
                forall|i: int, j: int|
                    on_grid(grid, i, j) ==> #[trigger] score_at(self.matched.grid(), i, j)
                        == score_after(grid, matches@, matches@.len() as int, template, i, j),
                forall|t: int|
                    0 <= t < matches@.len() ==> #[trigger] is_extraction_step(
                        grid,
                        template,
                        threshold,
                        matches@,
                        t,
                    ),
            ensures
                is_extraction(grid, template, threshold, matches@),
            decreases positives_in(self.matched.grid()),
        {
            let best: WeightPoint = self.matched.first_max();
            if best.weight < threshold {
                proof {
                    assert forall|i: int, j: int| on_grid(grid, i, j) implies #[trigger] score_after(
                        grid,
                        matches@,
                        matches@.len() as int,
                        template,
                        i,
                        j,
                    ) < threshold by {
                        assert(on_grid(self.matched.grid(), i, j));
                        assert(score_at(self.matched.grid(), i, j) <= best.weight);
                    }
                }
                break ;
            }
            let ghost current = self.matched.grid();
            let ghost trace = matches@;
            matches.push(best);
            self.matched.blank(best.point, template);
            proof {
                let after = self.matched.grid();
                lemma_new_step(grid, current, template, threshold, trace, best);
                assert forall|t: int| 0 <= t < matches@.len() implies #[trigger] is_extraction_step(
                    grid,
                    template,
                    threshold,
                    matches@,
                    t,
                ) by {
                    if t < trace.len() {
                        lemma_step_survives_push(grid, template, threshold, trace, best, t);
                    }
                }
                assert forall|i: int, j: int| on_grid(grid, i, j) implies #[trigger] score_at(
                    after,
                    i,
                    j,
                ) == score_after(grid, matches@, matches@.len() as int, template, i, j) by {
                    assert(on_grid(current, i, j));
                    lemma_blanked_by_push(trace, best, template, i, j);
                    assert(score_at(current, i, j) == score_after(
                        grid,
                        trace,
                        trace.len() as int,
                        template,
                        i,
                        j,
                    ));
                }
                lemma_blank_lowers(current, after, best, template);
            }
        }
        let ghost trace = matches@;
        let mut kept: Vec<WeightPoint> = Vec::new();
        let mut t: usize = 0;
        assert(trace.take(0) =~= Seq::<WeightPoint>::empty());
        assert forall|u: int| 0 <= u < trace.len() implies (#[trigger] trace[u]).point.x >= 0
            && trace[u].point.y >= 0 by {
            assert(is_extraction_step(grid, template, threshold, trace, u));
        }
        while t < matches.len()
            invariant
                t <= matches@.len(),
                matches@ == trace,
                template.width > 0,
                template.height > 0,
                forall|u: int|
                    0 <= u < trace.len() ==> (#[trigger] trace[u]).point.x >= 0 && trace[u].point.y
                        >= 0,
                kept@ == one_per_cell(trace.take(t as int), template),
                forall|u: int|
                    0 <= u < kept@.len() ==> (#[trigger] kept@[u]).point.x >= 0 && kept@[u].point.y
                        >= 0,
            decreases matches@.len() - t,
        {
            let candidate: WeightPoint = matches[t];
            let taken: bool = has_cell(&kept, candidate, template);
            proof {
                assert(trace.take(t as int + 1).drop_last() =~= trace.take(t as int));
                assert(trace.take(t as int + 1).last() == candidate);
            }
            if !taken {
                kept.push(candidate);
            }
            t += 1;
        }
        assert(trace.take(t as int) =~= trace);
        Ok(kept)
    }
}

proof fn lemma_blank_lowers(
    before: Seq<Seq<Weight>>,
    after: Seq<Seq<Weight>>,
    best: WeightPoint,
    template: Size,
)
    requires
        grid_ok(before),
        grid_ok(after),
        after.len() == before.len(),
        grid_width(after) == grid_width(before),
        template.width > 0,
        template.height > 0,
        on_grid(before, best.point.x as int, best.point.y as int),
        score_at(before, best.point.x as int, best.point.y as int) > 0,
        forall|x: int, y: int|
            on_grid(before, x, y) ==> #[trigger] score_at(after, x, y) == if covers(
                best.point,
                template,
                x,
                y,
            ) {
                0
            } else {
                score_at(before, x, y)
            },
    ensures
        positives_in(after) < positives_in(before),
{
    assert forall|j: int| 0 <= j < before.len() implies crate::capture::scores::row_lowered(
        #[trigger] before[j],
        after[j],
    ) by {
        assert forall|x: int| 0 <= x < before[j].len() implies after[j][x] == before[j][x]
            || #[trigger] after[j][x] == 0 by {
            assert(on_grid(before, x, j));
            assert(score_at(after, x, j) == after[j][x]);
        }
    }
    let x = best.point.x as int;
    let y = best.point.y as int;
    assert(covers(best.point, template, x, y));
    assert(score_at(after, x, y) == 0);
    crate::capture::scores::lemma_grid_lowered(before, after, x, y);
}

fn has_cell(kept: &Vec<WeightPoint>, candidate: WeightPoint, template: Size) -> (taken: bool)
    requires
        template.width > 0,
        template.height > 0,
        candidate.point.x >= 0,
        candidate.point.y >= 0,
        forall|u: int|
            0 <= u < kept@.len() ==> (#[trigger] kept@[u]).point.x >= 0 && kept@[u].point.y >= 0,
    ensures
        taken == cell_taken(kept@, candidate.point, template),
{
    let column: u32 = candidate.point.x as u32 / template.width;
    let row: u32 = candidate.point.y as u32 / template.height;
    let mut u: usize = 0;
    while u < kept.len()
        invariant
            u <= kept@.len(),
            template.width > 0,
            template.height > 0,
            candidate.point.x >= 0,
            candidate.point.y >= 0,
            column == candidate.point.x as int / template.width as int,
            row == candidate.point.y as int / template.height as int,
            forall|v: int|
                0 <= v < kept@.len() ==> (#[trigger] kept@[v]).point.x >= 0 && kept@[v].point.y
                    >= 0,
            forall|v: int|
                0 <= v < u ==> cell_of((#[trigger] kept@[v]).point, template) != cell_of(
                    candidate.point,
                    template,
                ),
        decreases kept@.len() - u,
    {
        let other: WeightPoint = kept[u];
        if other.point.x as u32 / template.width == column && other.point.y as u32
            / template.height == row {
            return true;
        }
        u += 1;
    }
    false
}

/// What template matching takes: the searched region and the template, both
/// in blue, green, red, alpha order, and the mask of the template's pixels
/// that count.
#[derive(Debug, Clone)]
pub struct MatchInput {
    pub image: Mat,
    pub template: Mat,
    pub mask: Mat,
}

/// Why a template cannot be matched on a region of a frame, if it cannot. A
/// template larger than the region asked for is refused before anything else
/// is looked at; then a frame or template whose buffer is too short; then an
/// empty template, or one larger than what the frame holds of the region.
pub open spec fn match_fault(frame: Frame, template: Frame, point: Point, size: Size) -> Option<
    Error,
> {
    if size.width < template.width || size.height < template.height {
        Some(Error::InvalidRegion)
    } else if !frame.fits() || !template.fits() {
        Some(Error::InvalidFrame)
    } else if template.width == 0 || template.height == 0 || crop_extent(
        point.x,
        size.width,
        frame.width,
    ) < template.width || crop_extent(point.y, size.height, frame.height) < template.height {
        Some(Error::InvalidRegion)
    } else {
        None
    }
}

/// How many positions the template can take from left to right.
pub open spec fn positions_across(frame: Frame, template: Frame, point: Point, size: Size) -> int {
    crop_extent(point.x, size.width, frame.width) - template.width + 1
}

/// How many positions the template can take from top to bottom.
pub open spec fn positions_down(frame: Frame, template: Frame, point: Point, size: Size) -> int {
    crop_extent(point.y, size.height, frame.height) - template.height + 1
}

/// Why a search cannot be answered from `grid`, if it cannot: the faults of
/// `match_fault`, then a score surface that does not have one score for each
/// position of the template.
pub open spec fn find_fault(
    frame: Frame,
    template: Frame,
    point: Point,
    size: Size,
    grid: Seq<Seq<Weight>>,
) -> Option<Error> {
    match match_fault(frame, template, point, size) {
        Some(e) => Some(e),
        None => if grid_ok(grid) && grid.len() == positions_down(frame, template, point, size)
            && grid_width(grid) == positions_across(frame, template, point, size) {
            None
        } else {
            Some(Error::InvalidScores)
        },
    }
}

/// The faults of `find_fault`, then a threshold of zero.
pub open spec fn find_all_fault(
    frame: Frame,
    template: Frame,
    point: Point,
    size: Size,
    grid: Seq<Seq<Weight>>,
    threshold: Weight,
) -> Option<Error> {
    match find_fault(frame, template, point, size, grid) {
        Some(e) => Some(e),
        None => if threshold == 0 {
            Some(Error::InvalidThreshold)
        } else {
            None
        },
    }
}

/// The detections moved by `by`: from positions on the region to positions
/// on the frame.
pub open spec fn shifted(points: Seq<WeightPoint>, by: Point) -> Seq<WeightPoint> {
    Seq::new(
        points.len(),
        |i: int|
            WeightPoint {
                point: Point {
                    x: (points[i].point.x + by.x) as i32,
                    y: (points[i].point.y + by.y) as i32,
                },
                weight: points[i].weight,
            },
    )
}

/// What a search for every place of a template answers: a refusal for the
/// reason that `find_all_fault` gives; else the detections of a greedy
/// extraction on the scores, one kept per cell of the template-sized grid,
/// as points on the frame, from the best score down.
pub open spec fn is_find_images_answer(
    frame: Frame,
    template: Frame,
    point: Point,
    size: Size,
    grid: Seq<Seq<Weight>>,
    threshold: Weight,
    answer: Result<Seq<WeightPoint>, Error>,
) -> bool {
    match answer {
        Err(e) => find_all_fault(frame, template, point, size, grid, threshold) == Some(e),
        Ok(found) => find_all_fault(frame, template, point, size, grid, threshold) is None
            && descending(found) && exists|trace: Seq<WeightPoint>|
            {
                &&& #[trigger] is_extraction(
                    grid,
                    Size { width: template.width, height: template.height },
                    threshold,
                    trace,
                )
                &&& found == shifted(
                    one_per_cell(trace, Size { width: template.width, height: template.height }),
                    point,
                )
            },
    }
}

impl Frame {
    fn match_extent(&self, template: &Frame, point: Point, size: Size) -> (r: Result<
        (u32, u32),
        Error,
    >)
        ensures
            match r {
                Err(e) => match_fault(*self, *template, point, size) == Some(e),
                Ok(extent) => match_fault(*self, *template, point, size) is None && extent.0
                    == positions_across(*self, *template, point, size) && extent.1
                    == positions_down(*self, *template, point, size) && 0 <= point.x && point.x
                    + extent.0 + template.width - 1 <= self.width && 0 <= point.y && point.y
                    + extent.1 + template.height - 1 <= self.height,
            },
    {
        if size.width < template.width || size.height < template.height {
            return Err(Error::InvalidRegion);
        }
        if !self.is_valid() || !template.is_valid() {
            return Err(Error::InvalidFrame);
        }
        let (_left, width) = Frame::crop_span(point.x, size.width, self.width);
        let (_top, height) = Frame::crop_span(point.y, size.height, self.height);
        if template.width == 0 || template.height == 0 || width < template.width || height
            < template.height {
            return Err(Error::InvalidRegion);
        }
        Ok((width - template.width + 1, height - template.height + 1))
    }

    /// Prepares a template search: checks that the template fits the region,
    /// cuts the region out of the frame, and hands both over in the form that
    /// template matching takes them, with the template's mask.
    pub fn match_input(&self, template: &Frame, point: Point, size: Size) -> (r: Result<
        MatchInput,
        Error,
    >)
        ensures
            match r {
                Err(e) => match_fault(*self, *template, point, size) == Some(e),
                Ok(input) => match_fault(*self, *template, point, size) is None && is_bgra_of(
                    input.template,
                    *template,
                ) && is_mask_of(input.mask, *template) && exists|region: Frame|
                    #[trigger] self.cropped_to(point, size, region) && is_bgra_of(
                        input.image,
                        region,
                    ),
            },
    {
        if let Err(e) = self.match_extent(template, point, size) {
            return Err(e);
        }
        let region: Frame = self.crop(point, size);
        let input = MatchInput {
            image: region.to_mat(),
            template: template.to_mat(),
            mask: template.mask(),
        };
        assert(self.cropped_to(point, size, region));
        Ok(input)
    }

    /// The best place of the template on a region of the frame, given the
    /// score of the template at each of its positions on that region. Nothing
    /// is found when the best score is below `threshold`; else the first
    /// position with the best score, as a point on the frame, and its score.
    pub fn find_image(
        &self,
        template: &Frame,
        point: Point,
        size: Size,
        threshold: Weight,
        scores: &ScoreSurface,
    ) -> (r: Result<Option<WeightPoint>, Error>)
        ensures
            match r {
                Err(e) => find_fault(*self, *template, point, size, scores.grid()) == Some(e),
                Ok(None) => find_fault(*self, *template, point, size, scores.grid()) is None
                    && forall|i: int, j: int|
                    on_grid(scores.grid(), i, j) ==> #[trigger] score_at(scores.grid(), i, j)
                        < threshold,
                Ok(Some(found)) => {
                    &&& find_fault(*self, *template, point, size, scores.grid()) is None
                    &&& found.weight >= threshold
                    &&& is_first_max(
                        scores.grid(),
                        found.point.x - point.x,
                        found.point.y - point.y,
                    )
                    &&& found.weight == score_at(
                        scores.grid(),
                        found.point.x - point.x,
                        found.point.y - point.y,
                    )
                    &&& point.x <= found.point.x
                    &&& found.point.x + template.width <= point.x + size.width
                    &&& point.y <= found.point.y
                    &&& found.point.y + template.height <= point.y + size.height
                    &&& found.point.x + template.width <= self.width
                    &&& found.point.y + template.height <= self.height
                },
            },
    {
        let (across, down) = match self.match_extent(template, point, size) {
            Ok(extent) => extent,
            Err(e) => { return Err(e); },
        };
        if !scores.is_valid() {
            return Err(Error::InvalidScores);
        }
        assert(scores.grid()[0] == scores.rows@[0]@);
        if scores.rows.len() != down as usize || scores.rows[0].len() != across as usize {
            return Err(Error::InvalidScores);
        }
        let best: WeightPoint = scores.first_max();
        if best.weight < threshold {
            return Ok(None);
        }
        Ok(
            Some(
                WeightPoint {
                    point: Point { x: best.point.x + point.x, y: best.point.y + point.y },
                    weight: best.weight,
                },
            ),
        )
    }

    /// Every place of the template on a region of the frame whose score
    /// reaches `threshold`, given the score of the template at each of its
    /// positions on that region: the detections of `FindResult::multiple`, as
    /// points on the frame, from the best score down.
    pub fn find_images(
        &self,
        template: &Frame,
        point: Point,
        size: Size,
        threshold: Weight,
        scores: ScoreSurface,
    ) -> (r: Result<Vec<WeightPoint>, Error>)
        ensures
            is_find_images_answer(
                *self,
                *template,
                point,
                size,
                scores.grid(),
                threshold,
                match r {
                    Ok(found) => Ok(found@),
                    Err(e) => Err(e),
                },
            ),
    {
        let (across, down) = match self.match_extent(template, point, size) {
            Ok(extent) => extent,
            Err(e) => { return Err(e); },
        };
        if !scores.is_valid() {
            return Err(Error::InvalidScores);
        }
        assert(scores.grid()[0] == scores.rows@[0]@);
        if scores.rows.len() != down as usize || scores.rows[0].len() != across as usize {
            return Err(Error::InvalidScores);
        }
        if threshold == 0 {
            return Err(Error::InvalidThreshold);
        }
        let ghost grid = scores.grid();
        let cell: Size = Size { width: template.width, height: template.height };
        let mut result: FindResult = FindResult::new(cell, scores);
        let kept: Vec<WeightPoint> = match result.multiple(threshold) {
            Ok(kept) => kept,
            Err(e) => { return Err(e); },
        };
        let ghost trace = choose|trace: Seq<WeightPoint>|
            #[trigger] is_extraction(grid, cell, threshold, trace) && kept@ == one_per_cell(
                trace,
                cell,
            );
        proof {
            lemma_extraction_descending(grid, cell, threshold, trace);
            lemma_kept_descending(trace, cell);
            lemma_kept_from_trace(trace, cell);
            assert forall|i: int| 0 <= i < kept@.len() implies on_grid(
                grid,
                (#[trigger] kept@[i]).point.x as int,
                kept@[i].point.y as int,
            ) by {
                let t = choose|t: int| 0 <= t < trace.len() && trace[t] == kept@[i];
                assert(is_extraction_step(grid, cell, threshold, trace, t));
            }
        }
        let mut found: Vec<WeightPoint> = Vec::with_capacity(kept.len());
        let mut i: usize = 0;
        while i < kept.len()
            invariant
                i <= kept@.len(),
                found@.len() == i,
                0 <= point.x,
                0 <= point.y,
                point.x + grid_width(grid) <= MAX_COORDINATE,
                point.y + grid.len() <= MAX_COORDINATE,
                forall|k: int|
                    0 <= k < kept@.len() ==> on_grid(
                        grid,
                        (#[trigger] kept@[k]).point.x as int,
                        kept@[k].point.y as int,
                    ),
                forall|k: int| 0 <= k < i ==> #[trigger] found@[k] == shifted(kept@, point)[k],
            decreases kept@.len() - i,
        {
            let item: WeightPoint = kept[i];
            found.push(
                WeightPoint {
                    point: Point { x: item.point.x + point.x, y: item.point.y + point.y },
                    weight: item.weight,
                },
            );
            i += 1;
        }
        proof {
            assert(found@ =~= shifted(kept@, point));
            assert forall|a: int, b: int| 0 <= a < b < found@.len() implies found@[a].weight
                >= found@[b].weight by {
                assert(found@[a].weight == kept@[a].weight);
                assert(found@[b].weight == kept@[b].weight);
            }
        }
        Ok(found)
    }
}

/// The largest coordinate.
pub const MAX_COORDINATE: i32 = 0x7fff_ffff;

/// What the first detections blank, more detections blank too.
pub proof fn lemma_blanked_by_grows(
    trace: Seq<WeightPoint>,
    fewer: int,
    more: int,
    template: Size,
    x: int,
    y: int,
)
    requires
        fewer <= more,
        blanked_by(trace, fewer, template, x, y),
    ensures
        blanked_by(trace, more, template, x, y),
{
    let t = choose|t: int| 0 <= t < fewer && covers((#[trigger] trace[t]).point, template, x, y);
    assert(covers(trace[t].point, template, x, y));
}

/// Greedy extraction yields its detections from the best score down.
pub proof fn lemma_extraction_descending(
    grid: Seq<Seq<Weight>>,
    template: Size,
    threshold: Weight,
    trace: Seq<WeightPoint>,
)
    requires
        is_extraction(grid, template, threshold, trace),
    ensures
        descending(trace),
{
    assert forall|t: int, u: int| 0 <= t < u < trace.len() implies trace[t].weight
        >= trace[u].weight by {
        assert(is_extraction_step(grid, template, threshold, trace, t));
        assert(is_extraction_step(grid, template, threshold, trace, u));
        let x = trace[u].point.x as int;
        let y = trace[u].point.y as int;
        if blanked_by(trace, t, template, x, y) {
            lemma_blanked_by_grows(trace, t, u, template, x, y);
        }
        assert(score_after(grid, trace, t, template, x, y) <= trace[t].weight);
    }
}

/// While the threshold is above zero, no detection of a greedy extraction
/// lies in the area that an earlier detection blanked out: below and to the
/// right of the earlier one, nearer than the template's size on both axes.
pub proof fn lemma_extraction_avoids_blanked(
    grid: Seq<Seq<Weight>>,
    template: Size,
    threshold: Weight,
    trace: Seq<WeightPoint>,
    earlier: int,
    later: int,
)
    requires
        is_extraction(grid, template, threshold, trace),
        threshold > 0,
        0 <= earlier < later < trace.len(),
    ensures
        !covers(
            trace[earlier].point,
            template,
            trace[later].point.x as int,
            trace[later].point.y as int,
        ),
{
    assert(is_extraction_step(grid, template, threshold, trace, later));
    let x = trace[later].point.x as int;
    let y = trace[later].point.y as int;
    if covers(trace[earlier].point, template, x, y) {
        assert(blanked_by(trace, later, template, x, y));
    }
}

/// Greedy extraction finds nothing exactly when no score reaches the
/// threshold.
pub proof fn lemma_extraction_empty(
    grid: Seq<Seq<Weight>>,
    template: Size,
    threshold: Weight,
    trace: Seq<WeightPoint>,
)
    requires
        is_extraction(grid, template, threshold, trace),
    ensures
        trace.len() == 0 <==> forall|i: int, j: int|
            on_grid(grid, i, j) ==> #[trigger] score_at(grid, i, j) < threshold,
        one_per_cell(trace, template).len() == 0 <==> trace.len() == 0,
{
    if trace.len() == 0 {
        assert forall|i: int, j: int| on_grid(grid, i, j) implies #[trigger] score_at(grid, i, j)
            < threshold by {
            assert(score_after(grid, trace, 0, template, i, j) < threshold);
            assert(!blanked_by(trace, 0, template, i, j));
        }
    } else {
        assert(is_extraction_step(grid, template, threshold, trace, 0));
        let x = trace[0].point.x as int;
        let y = trace[0].point.y as int;
        assert(!blanked_by(trace, 0, template, x, y));
        assert(score_at(grid, x, y) >= threshold);
        lemma_kept_first(trace, template);
    }
}

/// The first detection is always kept.
pub proof fn lemma_kept_first(trace: Seq<WeightPoint>, template: Size)
    requires
        trace.len() > 0,
    ensures
        one_per_cell(trace, template).len() > 0,
        one_per_cell(trace, template)[0] == trace[0],
    decreases trace.len(),
{
    if trace.len() == 1 {
        assert(trace.drop_last().len() == 0);
        assert(one_per_cell(trace.drop_last(), template).len() == 0);
        assert(!cell_taken(one_per_cell(trace.drop_last(), template), trace.last().point, template));
    } else {
        lemma_kept_first(trace.drop_last(), template);
        assert(trace.drop_last()[0] == trace[0]);
    }
}

/// Every detection that is kept is one of the detections.
pub proof fn lemma_kept_from_trace(trace: Seq<WeightPoint>, template: Size)
    ensures
        forall|i: int|
            0 <= i < one_per_cell(trace, template).len() ==> trace.contains(
                #[trigger] one_per_cell(trace, template)[i],
            ),
    decreases trace.len(),
{
    if trace.len() > 0 {
        lemma_kept_from_trace(trace.drop_last(), template);
        let before = one_per_cell(trace.drop_last(), template);
        let kept = one_per_cell(trace, template);
        assert forall|i: int| 0 <= i < kept.len() implies trace.contains(#[trigger] kept[i]) by {
            if i < before.len() {
                assert(kept[i] == before[i]);
                assert(trace.drop_last().contains(before[i]));
                let t = choose|t: int|
                    0 <= t < trace.drop_last().len() && trace.drop_last()[t] == before[i];
                assert(trace[t] == before[i]);
            } else {
                assert(kept[i] == trace.last());
                assert(trace[trace.len() - 1] == trace.last());
            }
        }
    }
}

/// No two of the detections that are kept fall in the same cell of the
/// template-sized grid.
pub proof fn lemma_kept_distinct_cells(trace: Seq<WeightPoint>, template: Size)
    ensures
        forall|i: int, j: int|
            0 <= i < j < one_per_cell(trace, template).len() ==> cell_of(
                (#[trigger] one_per_cell(trace, template)[i]).point,
                template,
            ) != cell_of((#[trigger] one_per_cell(trace, template)[j]).point, template),
    decreases trace.len(),
{
    if trace.len() > 0 {
        lemma_kept_distinct_cells(trace.drop_last(), template);
        let before = one_per_cell(trace.drop_last(), template);
        let kept = one_per_cell(trace, template);
        assert forall|i: int, j: int| 0 <= i < j < kept.len() implies cell_of(
            (#[trigger] kept[i]).point,
            template,
        ) != cell_of((#[trigger] kept[j]).point, template) by {
            if j < before.len() {
                assert(kept[i] == before[i] && kept[j] == before[j]);
            } else {
                assert(kept[j] == trace.last());
                assert(kept[i] == before[i]);
                assert(!cell_taken(before, trace.last().point, template));
            }
        }
    }
}

/// Keeping one detection per cell keeps the order from the best score down.
pub proof fn lemma_kept_descending(trace: Seq<WeightPoint>, template: Size)
    requires
        descending(trace),
    ensures
        descending(one_per_cell(trace, template)),
    decreases trace.len(),
{
    if trace.len() > 0 {
        lemma_kept_descending(trace.drop_last(), template);
        lemma_kept_from_trace(trace.drop_last(), template);
        let before = one_per_cell(trace.drop_last(), template);
        let kept = one_per_cell(trace, template);
        assert forall|i: int, j: int| 0 <= i < j < kept.len() implies kept[i].weight
            >= kept[j].weight by {
            if j < before.len() {
                assert(kept[i] == before[i] && kept[j] == before[j]);
            } else {
                assert(kept[j] == trace.last());
                assert(kept[i] == before[i]);
                assert(trace.drop_last().contains(before[i]));
                let t = choose|t: int|
                    0 <= t < trace.drop_last().len() && trace.drop_last()[t] == before[i];
                assert(trace[t] == before[i]);
                assert(trace[trace.len() - 1] == trace.last());
            }
        }
    }
}

/// The detections that are kept come in the order of the detections: of
/// two that are kept, the earlier was detected earlier.
pub proof fn lemma_kept_in_order(trace: Seq<WeightPoint>, template: Size, i: int, j: int)
    requires
        0 <= i < j < one_per_cell(trace, template).len(),
    ensures
        exists|t: int, u: int|
            0 <= t < u < trace.len() && #[trigger] trace[t] == one_per_cell(trace, template)[i]
                && #[trigger] trace[u] == one_per_cell(trace, template)[j],
    decreases trace.len(),
{
    let before = one_per_cell(trace.drop_last(), template);
    let kept = one_per_cell(trace, template);
    if j < before.len() {
        lemma_kept_in_order(trace.drop_last(), template, i, j);
        let (t, u) = choose|t: int, u: int|
            0 <= t < u < trace.drop_last().len() && #[trigger] trace.drop_last()[t] == before[i]
                && #[trigger] trace.drop_last()[u] == before[j];
        assert(trace[t] == kept[i] && trace[u] == kept[j]);
    } else {
        lemma_kept_from_trace(trace.drop_last(), template);
        assert(kept[i] == before[i]);
        assert(trace.drop_last().contains(before[i]));
        let t = choose|t: int| 0 <= t < trace.drop_last().len() && trace.drop_last()[t] == before[i];
        let u = trace.len() - 1;
        assert(trace[t] == kept[i] && trace[u] == kept[j]);
    }
}

/// Of the places that a search for every place of a template gives, no two
/// fall in the same cell of the template-sized grid laid over the region,
/// and none lies in the area that was blanked out for one given before it:
/// at or to the right of it and at or below it, nearer than the template's
/// size on both axes. (A place given later may still lie nearer than that to
/// the left of or above an earlier one, in a neighbouring cell.)
pub proof fn lemma_find_images_apart(
    frame: Frame,
    template: Frame,
    point: Point,
    size: Size,
    grid: Seq<Seq<Weight>>,
    threshold: Weight,
    found: Seq<WeightPoint>,
    earlier: int,
    later: int,
)
    requires
        is_find_images_answer(
            frame,
            template,
            point,
            size,
            grid,
            threshold,
            Ok::<Seq<WeightPoint>, Error>(found),
        ),
        0 <= earlier < later < found.len(),
    ensures
        cell_of(
            Point {
                x: (found[earlier].point.x - point.x) as i32,
                y: (found[earlier].point.y - point.y) as i32,
            },
            Size { width: template.width, height: template.height },
        ) != cell_of(
            Point {
                x: (found[later].point.x - point.x) as i32,
                y: (found[later].point.y - point.y) as i32,
            },
            Size { width: template.width, height: template.height },
        ),
        !covers(
            found[earlier].point,
            Size { width: template.width, height: template.height },
            found[later].point.x as int,
            found[later].point.y as int,
        ),
        found[earlier].weight >= found[later].weight,
{
    let cell = Size { width: template.width, height: template.height };
    let trace = choose|trace: Seq<WeightPoint>|
        #[trigger] is_extraction(grid, cell, threshold, trace) && found == shifted(
            one_per_cell(trace, cell),
            point,
        );
    let kept = one_per_cell(trace, cell);
    lemma_kept_distinct_cells(trace, cell);
    lemma_kept_in_order(trace, cell, earlier, later);
    let (t, u) = choose|t: int, u: int|
        0 <= t < u < trace.len() && #[trigger] trace[t] == kept[earlier] && #[trigger] trace[u]
            == kept[later];
    lemma_extraction_avoids_blanked(grid, cell, threshold, trace, t, u);
    assert(is_extraction_step(grid, cell, threshold, trace, t));
    assert(is_extraction_step(grid, cell, threshold, trace, u));
    assert(found[earlier].point.x == kept[earlier].point.x + point.x);
    assert(found[earlier].point.y == kept[earlier].point.y + point.y);
    assert(found[later].point.x == kept[later].point.x + point.x);
    assert(found[later].point.y == kept[later].point.y + point.y);
}

proof fn lemma_blanked_alike(
    a: Seq<WeightPoint>,
    b: Seq<WeightPoint>,
    n: int,
    template: Size,
    x: int,
    y: int,
)
    requires
        0 <= n <= a.len(),
        n <= b.len(),
        forall|t: int| 0 <= t < n ==> a[t] == b[t],
    ensures
        blanked_by(a, n, template, x, y) == blanked_by(b, n, template, x, y),
{
    if blanked_by(a, n, template, x, y) {
        let t = choose|t: int| 0 <= t < n && covers((#[trigger] a[t]).point, template, x, y);
        assert(covers(b[t].point, template, x, y));
    }
    if blanked_by(b, n, template, x, y) {
        let t = choose|t: int| 0 <= t < n && covers((#[trigger] b[t]).point, template, x, y);
        assert(covers(a[t].point, template, x, y));
    }
}

proof fn lemma_extraction_agrees(
    grid: Seq<Seq<Weight>>,
    template: Size,
    threshold: Weight,
    a: Seq<WeightPoint>,
    b: Seq<WeightPoint>,
    n: int,
)
    requires
        is_extraction(grid, template, threshold, a),
        is_extraction(grid, template, threshold, b),
        0 <= n <= a.len(),
        n <= b.len(),
    ensures
        forall|t: int| 0 <= t < n ==> a[t] == b[t],
    decreases n,
{
    if n > 0 {
        lemma_extraction_agrees(grid, template, threshold, a, b, n - 1);
        let t = n - 1;
        assert(is_extraction_step(grid, template, threshold, a, t));
        assert(is_extraction_step(grid, template, threshold, b, t));
        let p = a[t].point;
        let q = b[t].point;
        lemma_blanked_alike(a, b, t, template, p.x as int, p.y as int);
        lemma_blanked_alike(a, b, t, template, q.x as int, q.y as int);
        assert(score_after(grid, a, t, template, p.x as int, p.y as int) == score_after(
            grid,
            b,
            t,
            template,
            p.x as int,
            p.y as int,
        ));
        assert(score_after(grid, a, t, template, q.x as int, q.y as int) == score_after(
            grid,
            b,
            t,
            template,
            q.x as int,
            q.y as int,
        ));
        if raster_before(p.x as int, p.y as int, q.x as int, q.y as int) {
            assert(score_after(grid, b, t, template, p.x as int, p.y as int) < b[t].weight);
            assert(score_after(grid, a, t, template, q.x as int, q.y as int) <= a[t].weight);
        } else if raster_before(q.x as int, q.y as int, p.x as int, p.y as int) {
            assert(score_after(grid, a, t, template, q.x as int, q.y as int) < a[t].weight);
            assert(score_after(grid, b, t, template, p.x as int, p.y as int) <= b[t].weight);
        }
        assert(p == q);
    }
}

/// A surface has one greedy extraction only: whatever two runs detect, they
/// detect the same places in the same order.
pub proof fn lemma_extraction_unique(
    grid: Seq<Seq<Weight>>,
    template: Size,
    threshold: Weight,
    a: Seq<WeightPoint>,
    b: Seq<WeightPoint>,
)
    requires
        is_extraction(grid, template, threshold, a),
        is_extraction(grid, template, threshold, b),
    ensures
        a == b,
{
    let n = if a.len() <= b.len() {
        a.len() as int
    } else {
        b.len() as int
    };
    lemma_extraction_agrees(grid, template, threshold, a, b, n);
    if a.len() < b.len() {
        assert(is_extraction_step(grid, template, threshold, b, n));
        let q = b[n].point;
        lemma_blanked_alike(a, b, n, template, q.x as int, q.y as int);
        assert(score_after(grid, a, n, template, q.x as int, q.y as int) < threshold);
    } else if b.len() < a.len() {
        assert(is_extraction_step(grid, template, threshold, a, n));
        let p = a[n].point;
        lemma_blanked_alike(a, b, n, template, p.x as int, p.y as int);
        assert(score_after(grid, b, n, template, p.x as int, p.y as int) < threshold);
    }
    assert(a =~= b);
}

} // verus!
