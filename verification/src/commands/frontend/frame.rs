use vstd::prelude::*;

use crate::capture::frame::Frame;
use crate::capture::image::is_find_images_answer;
use crate::capture::scores::ScoreSurface;
use crate::commands::frontend::result::{CommandError, CommandResult};
use crate::error::{error_text, Error};
use crate::types::base64_png::{wire_pixels, Base64Png, Base64PngExt};
use crate::types::point::Point;
use crate::types::size::{span, Size};
use crate::types::weight_point::{
    descending, lemma_filter_is_thinning, stable_sorted, thinned, well_separated, Weight,
    WeightPoint, WeightPointsExt,
};

verus! {

/// The command failed for the reason `error`.
pub open spec fn failed_with<T>(r: CommandResult<T>, error: Error) -> bool {
    r matches Err(failure) && failure@ == error_text(error)
}

/// `frame` holds the pixels `image`: width, height and bytes.
pub open spec fn holds(frame: Frame, image: (u32, u32, Seq<u8>)) -> bool {
    frame.width == image.0 && frame.height == image.1 && frame.buffer@ == image.2
}

/// What the search for every place of a template gives the user interface:
/// the failure to read one of the two images, the screen first; else the
/// refusal of a region that spans nothing; else what `Frame::find_images`
/// answers, thinned so that no two detections are too close for
/// `template_size`.
pub open spec fn is_find_images_result(
    origin: Seq<char>,
    template: Seq<char>,
    template_size: Size,
    start_point: Point,
    end_point: Point,
    threshold: Weight,
    grid: Seq<Seq<Weight>>,
    r: CommandResult<Vec<WeightPoint>>,
) -> bool {
    match wire_pixels(origin) {
        Err(e) => failed_with(r, e),
        Ok(screen) => match wire_pixels(template) {
            Err(e) => failed_with(r, e),
            Ok(pattern) => match span(start_point, end_point) {
                Err(_) => failed_with(r, Error::InvalidRegion),
                Ok(size) => exists|
                    frame: Frame,
                    searched: Frame,
                    answer: Result<Seq<WeightPoint>, Error>,
                |
                    {
                        &&& holds(frame, screen)
                        &&& holds(searched, pattern)
                        &&& #[trigger] is_find_images_answer(
                            frame,
                            searched,
                            start_point,
                            size,
                            grid,
                            threshold,
                            answer,
                        )
                        &&& match answer {
                            Err(e) => failed_with(r, e),
                            Ok(found) => r matches Ok(kept) && kept@ == thinned(
                                stable_sorted(found),
                                template_size,
                            ),
                        }
                    },
            },
        },
    }
}

/// Every place of a template on a region of a screen image, both given as
/// images on the wire, with the score of the template at each of its
/// positions on the region. Of detections that are too close to each other
/// for `template_size` only the best is given.
pub fn find_images(
    origin: &Base64Png,
    template: &Base64Png,
    template_size: Size,
    start_point: Point,
    end_point: Point,
    threshold: Weight,
    scores: ScoreSurface,
) -> (r: CommandResult<Vec<WeightPoint>>)
    ensures
        is_find_images_result(
            origin@,
            template@,
            template_size,
            start_point,
            end_point,
            threshold,
            scores.grid(),
            r,
        ),
        r matches Ok(kept) ==> well_separated(kept@, template_size) && descending(kept@),
{
    let frame: Frame = match origin.to_frame() {
        Ok(frame) => frame,
        Err(e) => { return Err(CommandError::from_error(&e)); },
    };
    let searched: Frame = match template.to_buffer() {
        Ok(searched) => searched,
        Err(e) => { return Err(CommandError::from_error(&e)); },
    };
    let size: Size = match Size::new_from_start_end_points(start_point, end_point) {
        Ok(size) => size,
        Err(_) => { return Err(CommandError::from_error(&Error::InvalidRegion)); },
    };
    let ghost grid = scores.grid();
    let answer: Result<Vec<WeightPoint>, Error> = frame.find_images(
        &searched,
        start_point,
        size,
        threshold,
        scores,
    );
    let ghost taken = answer;
    proof {
        if taken is Ok {
            lemma_filter_is_thinning(taken->Ok_0@, template_size);
        }
    }
    let r: CommandResult<Vec<WeightPoint>> = match answer {
        Ok(found) => Ok(found.filter_close_points(&template_size)),
        Err(e) => Err(CommandError::from_error(&e)),
    };
    proof {
        let model: Result<Seq<WeightPoint>, Error> = match taken {
            Ok(found) => Ok(found@),
            Err(e) => Err(e),
        };
        assert(holds(frame, wire_pixels(origin@)->Ok_0));
        assert(holds(searched, wire_pixels(template@)->Ok_0));
        assert(is_find_images_answer(frame, searched, start_point, size, grid, threshold, model));
    }
    r
}

/// Whatever a search for every place of a template gives the user interface,
/// no two of the detections are too close to each other for the template
/// size that was given: nearer than it on both axes.
pub proof fn lemma_find_images_apart(
    origin: Seq<char>,
    template: Seq<char>,
    template_size: Size,
    start_point: Point,
    end_point: Point,
    threshold: Weight,
    grid: Seq<Seq<Weight>>,
    r: CommandResult<Vec<WeightPoint>>,
    i: int,
    j: int,
)
    requires
        is_find_images_result(
            origin,
            template,
            template_size,
            start_point,
            end_point,
            threshold,
            grid,
            r,
        ),
        r is Ok,
        0 <= i < r->Ok_0@.len(),
        0 <= j < r->Ok_0@.len(),
        i != j,
    ensures
        !crate::types::point::too_close(r->Ok_0@[i].point, r->Ok_0@[j].point, template_size),
{
    let kept = r->Ok_0@;
    let size = span(start_point, end_point)->Ok_0;
    let (frame, searched, answer) = choose|
        frame: Frame,
        searched: Frame,
        answer: Result<Seq<WeightPoint>, Error>,
    |
        {
            &&& holds(frame, wire_pixels(origin)->Ok_0)
            &&& holds(searched, wire_pixels(template)->Ok_0)
            &&& #[trigger] is_find_images_answer(
                frame,
                searched,
                start_point,
                size,
                grid,
                threshold,
                answer,
            )
            &&& match answer {
                Err(e) => failed_with(r, e),
                Ok(found) => r matches Ok(kept) && kept@ == thinned(
                    stable_sorted(found),
                    template_size,
                ),
            }
        };
    lemma_filter_is_thinning(answer->Ok_0, template_size);
    crate::types::weight_point::lemma_thinning_separates(
        answer->Ok_0,
        template_size,
        kept,
        i,
        j,
    );
}

} // verus!
