use vstd::prelude::*;
use vstd::string::StringExecFns;

use crate::capture::frame::Frame;
use crate::capture::color::{
    constellation_fault, is_color_answer, is_constellation_answer, is_single_color_answer,
    window_of,
};
use crate::commands::websocket::utils::{
    as_point, as_rgb_offset, get_required_f64, get_required_hex_colors, get_required_hexcolor,
    get_required_point, get_required_relative_points, get_required_rgb_offset,
    get_required_string, is_colored_points, is_invalid, is_missing, is_texts, no_colored_points,
    no_texts,
};
use crate::error::Error;
use crate::json::{Json, Number};
use crate::types::colored_point::ColoredPoint;
use crate::types::hex_color::HexColor;
use crate::types::point::Point;
use crate::types::rgb_offset::RgbOffset;
use crate::types::size::{span, Size};

verus! {

/// `json` is a point: an object with the members `x` and `y`, in this order.
pub open spec fn is_point_json(json: Json, point: Point) -> bool {
    &&& json matches Json::Object(entries)
    &&& entries@.len() == 2
    &&& entries@[0].0@ == "x"@
    &&& entries@[0].1 == Json::Integer(point.x as i64)
    &&& entries@[1].0@ == "y"@
    &&& entries@[1].1 == Json::Integer(point.y as i64)
}

/// `json` is a coloured point: an object with the colour's text under `hex`
/// and the point under `point`, in this order.
pub open spec fn is_colored_point_json(json: Json, found: ColoredPoint) -> bool {
    &&& json matches Json::Object(entries)
    &&& entries@.len() == 2
    &&& entries@[0].0@ == "hex"@
    &&& entries@[0].1.text() == Some(found.hex@)
    &&& entries@[1].0@ == "point"@
    &&& is_point_json(entries@[1].1, found.point)
}

/// `json` is a list of coloured points.
pub open spec fn is_colored_points_json(json: Json, found: Seq<ColoredPoint>) -> bool {
    &&& json matches Json::Array(items)
    &&& items@.len() == found.len()
    &&& forall|i: int| 0 <= i < found.len() ==> is_colored_point_json(#[trigger] items@[i], found[i])
}

/// A point as JSON.
pub fn point_json(point: Point) -> (json: Json)
    ensures
        is_point_json(json, point),
{
    let mut entries: Vec<(String, Json)> = Vec::new();
    entries.push((String::from_str("x"), Json::Integer(point.x as i64)));
    entries.push((String::from_str("y"), Json::Integer(point.y as i64)));
    Json::Object(entries)
}

/// A coloured point as JSON.
pub fn colored_point_json(found: &ColoredPoint) -> (json: Json)
    ensures
        is_colored_point_json(json, *found),
{
    let mut entries: Vec<(String, Json)> = Vec::new();
    entries.push((String::from_str("hex"), Json::Text(found.hex.clone())));
    entries.push((String::from_str("point"), point_json(found.point)));
    Json::Object(entries)
}

/// A list of coloured points as JSON.
pub fn colored_points_json(found: &Vec<ColoredPoint>) -> (json: Json)
    ensures
        is_colored_points_json(json, found@),
{
    let mut items: Vec<Json> = Vec::new();
    let mut i: usize = 0;
    while i < found.len()
        invariant
            i <= found@.len(),
            items@.len() == i,
            forall|k: int| 0 <= k < i ==> is_colored_point_json(#[trigger] items@[k], found@[k]),
        decreases found@.len() - i,
    {
        items.push(colored_point_json(&found[i]));
        i += 1;
    }
    Json::Array(items)
}

/// A region as the protocol names it: the point under `start_point`, the
/// point under `end_point`, and the size that the two span; or the first
/// thing that is wrong with these, in this order.
pub open spec fn is_region(args: Json, r: Result<(Point, Size), Error>) -> bool {
    match args.field("start_point"@) {
        None => r matches Err(e) && is_missing(e, "start_point"@),
        Some(first) => match as_point(first) {
            None => r matches Err(e) && is_invalid(e, "start_point"@),
            Some(start) => match args.field("end_point"@) {
                None => r matches Err(e) && is_missing(e, "end_point"@),
                Some(second) => match as_point(second) {
                    None => r matches Err(e) && is_invalid(e, "end_point"@),
                    Some(end) => match span(start, end) {
                        Ok(size) => r == Ok::<(Point, Size), Error>((start, size)),
                        Err(_) => r == Err::<(Point, Size), Error>(Error::InvalidRegion),
                    },
                },
            },
        },
    }
}

/// The region that a request names.
pub fn get_region(args: &Json) -> (r: Result<(Point, Size), Error>)
    ensures
        is_region(*args, r),
{
    let start: Point = match get_required_point(args, "start_point") {
        Ok(point) => point,
        Err(e) => { return Err(e); },
    };
    let end: Point = match get_required_point(args, "end_point") {
        Ok(point) => point,
        Err(e) => { return Err(e); },
    };
    match Size::new_from_start_end_points(start, end) {
        Ok(size) => Ok((start, size)),
        Err(_) => Err(Error::InvalidRegion),
    }
}

/// What a template search is asked for: the template's name, the region, and
/// the threshold as the number that was sent.
#[derive(Debug, Clone, PartialEq, Eq)]
pub struct ImageQuery {
    pub subpath: String,
    pub start_point: Point,
    pub size: Size,
    pub threshold: Number,
}

/// The query that the arguments of a template search make: the text under
/// `subpath`, the region, and the number under `threshold`; or the first
/// thing that is wrong with these, the region's size coming last.
pub open spec fn is_image_query(args: Json, r: Result<ImageQuery, Error>) -> bool {
    match args.field("subpath"@) {
        None => r matches Err(e) && is_missing(e, "subpath"@),
        Some(name) => match name.text() {
            None => r matches Err(e) && is_invalid(e, "subpath"@),
            Some(subpath) => match args.field("start_point"@) {
                None => r matches Err(e) && is_missing(e, "start_point"@),
                Some(first) => match as_point(first) {
                    None => r matches Err(e) && is_invalid(e, "start_point"@),
                    Some(start) => match args.field("end_point"@) {
                        None => r matches Err(e) && is_missing(e, "end_point"@),
                        Some(second) => match as_point(second) {
                            None => r matches Err(e) && is_invalid(e, "end_point"@),
                            Some(end) => match args.field("threshold"@) {
                                None => r matches Err(e) && is_missing(e, "threshold"@),
                                Some(level) => match level {
                                    Json::Integer(i) => is_query_with(
                                        r,
                                        subpath,
                                        start,
                                        end,
                                        Number::Integer(i),
                                    ),
                                    Json::Decimal(text) => match r {
                                        Ok(query) => query.threshold matches Number::Decimal(
                                            told,
                                        ) && told@ == text@ && is_query_with(
                                            r,
                                            subpath,
                                            start,
                                            end,
                                            query.threshold,
                                        ),
                                        Err(e) => span(start, end) is Err && e
                                            == Error::InvalidRegion,
                                    },
                                    _ => r matches Err(e) && is_invalid(e, "threshold"@),
                                },
                            },
                        },
                    },
                },
            },
        },
    }
}

/// `r` is the query with these parts, or the refusal of a region that spans
/// nothing.
pub open spec fn is_query_with(
    r: Result<ImageQuery, Error>,
    subpath: Seq<char>,
    start: Point,
    end: Point,
    threshold: Number,
) -> bool {
    match span(start, end) {
        Ok(size) => r matches Ok(query) && query.subpath@ == subpath && query.start_point == start
            && query.size == size && query.threshold == threshold,
        Err(_) => r == Err::<ImageQuery, Error>(Error::InvalidRegion),
    }
}

/// Reads the arguments of a template search.
pub fn get_image_args(args: &Json) -> (r: Result<ImageQuery, Error>)
    ensures
        is_image_query(*args, r),
{
    let subpath: String = match get_required_string(args, "subpath") {
        Ok(subpath) => subpath,
        Err(e) => { return Err(e); },
    };
    let start: Point = match get_required_point(args, "start_point") {
        Ok(point) => point,
        Err(e) => { return Err(e); },
    };
    let end: Point = match get_required_point(args, "end_point") {
        Ok(point) => point,
        Err(e) => { return Err(e); },
    };
    let threshold: Number = match get_required_f64(args, "threshold") {
        Ok(threshold) => threshold,
        Err(e) => { return Err(e); },
    };
    match Size::new_from_start_end_points(start, end) {
        Ok(size) => Ok(ImageQuery { subpath, start_point: start, size, threshold }),
        Err(_) => Err(Error::InvalidRegion),
    }
}

/// Reads the arguments of a search for one template match.
pub fn find_image(args: &Json) -> (r: Result<ImageQuery, Error>)
    ensures
        is_image_query(*args, r),
{
    get_image_args(args)
}

/// Reads the arguments of a search for every template match.
pub fn find_images(args: &Json) -> (r: Result<ImageQuery, Error>)
    ensures
        is_image_query(*args, r),
{
    get_image_args(args)
}

/// Reads the arguments of text recognition: the region.
pub fn recognize_text(args: &Json) -> (r: Result<(Point, Size), Error>)
    ensures
        is_region(*args, r),
{
    get_region(args)
}

/// The response to text recognition: the text, or null where nothing was
/// found.
pub fn recognized_json(found: Option<String>) -> (json: Json)
    ensures
        match found {
            Some(text) => json.text() == Some(text@),
            None => json == Json::Null,
        },
{
    match found {
        Some(text) => Json::Text(text),
        None => Json::Null,
    }
}

/// Reads the arguments of saving the frame: where to.
pub fn save(args: &Json) -> (r: Result<String, Error>)
    ensures
        match args.field("path"@) {
            None => r matches Err(e) && is_missing(e, "path"@),
            Some(value) => match value.text() {
                Some(text) => r matches Ok(found) && found@ == text,
                None => r matches Err(e) && is_invalid(e, "path"@),
            },
        },
{
    get_required_string(args, "path")
}

/// What a colour search is asked for.
#[derive(Debug, Clone, PartialEq, Eq)]
pub struct ColorQuery {
    pub hex_colors: Vec<HexColor>,
    pub start_point: Point,
    pub size: Size,
    pub rgb_offset: RgbOffset,
}

/// What a constellation search is asked for.
#[derive(Debug, Clone, PartialEq, Eq)]
pub struct RelativeQuery {
    pub vertex_hex: HexColor,
    pub relative_points: Vec<ColoredPoint>,
    pub start_point: Point,
    pub size: Size,
    pub rgb_offset: RgbOffset,
}

/// `r` is the tolerance under `rgb_offset`, or the reason why there is none.
pub open spec fn is_offset(args: Json, r: Result<RgbOffset, Error>) -> bool {
    match args.field("rgb_offset"@) {
        None => r matches Err(e) && is_missing(e, "rgb_offset"@),
        Some(value) => match as_rgb_offset(value) {
            Some(offset) => r == Ok::<RgbOffset, Error>(offset),
            None => r matches Err(e) && is_invalid(e, "rgb_offset"@),
        },
    }
}

/// The query that the arguments of a colour search make: the texts under
/// `hex_colors`, the region, and the tolerance; or the first thing that is
/// wrong with these, in this order.
pub open spec fn is_color_query(args: Json, r: Result<ColorQuery, Error>) -> bool {
    match args.field("hex_colors"@) {
        None => r matches Err(e) && is_missing(e, "hex_colors"@),
        Some(list) => if no_texts(list) {
            r matches Err(e) && is_invalid(e, "hex_colors"@)
        } else {
            match r {
                Ok(query) => is_texts(list, query.hex_colors@) && is_region(
                    args,
                    Ok((query.start_point, query.size)),
                ) && is_offset(args, Ok(query.rgb_offset)),
                Err(e) => is_region(args, Err(e)) || (exists|region: (Point, Size)| #[trigger]
                    is_region(args, Ok(region)) && is_offset(args, Err(e))),
            }
        },
    }
}

/// The query that the arguments of a constellation search make: the text
/// under `vertex_hex`, the coloured points under `relative_points`, the
/// region, and the tolerance; or the first thing that is wrong with these, in
/// this order.
pub open spec fn is_relative_query(args: Json, r: Result<RelativeQuery, Error>) -> bool {
    match args.field("vertex_hex"@) {
        None => r matches Err(e) && is_missing(e, "vertex_hex"@),
        Some(vertex) => match vertex.text() {
            None => r matches Err(e) && is_invalid(e, "vertex_hex"@),
            Some(text) => match args.field("relative_points"@) {
                None => r matches Err(e) && is_missing(e, "relative_points"@),
                Some(list) => if no_colored_points(list) {
                    r matches Err(e) && is_invalid(e, "relative_points"@)
                } else {
                    match r {
                        Ok(query) => query.vertex_hex@ == text && is_colored_points(
                            list,
                            query.relative_points@,
                        ) && is_region(args, Ok((query.start_point, query.size))) && is_offset(
                            args,
                            Ok(query.rgb_offset),
                        ),
                        Err(e) => is_region(args, Err(e)) || (exists|region: (Point, Size)|
                            #[trigger] is_region(args, Ok(region)) && is_offset(args, Err(e))),
                    }
                },
            },
        },
    }
}

/// A list of texts is not also no list of texts.
proof fn lemma_texts_exclusive(list: Json, texts: Seq<HexColor>)
    requires
        is_texts(list, texts),
    ensures
        !no_texts(list),
{
    if no_texts(list) {
        let items = list->Array_0;
        let i = choose|i: int| 0 <= i < items@.len() && (#[trigger] items@[i]).text() is None;
        assert(items@[i].text() == Some(texts[i]@));
    }
}

/// A list of coloured points is not also no list of coloured points.
proof fn lemma_points_exclusive(list: Json, points: Seq<ColoredPoint>)
    requires
        is_colored_points(list, points),
    ensures
        !no_colored_points(list),
{
    if no_colored_points(list) {
        let items = list->Array_0;
        let i = choose|i: int|
            0 <= i < items@.len() && crate::commands::websocket::utils::as_colored_point(
                #[trigger] items@[i],
            ) is None;
        assert(crate::commands::websocket::utils::as_colored_point(items@[i]) == Some(
            (points[i].point, points[i].hex@),
        ));
    }
}

/// Reads the arguments of a colour search.
pub fn color_query(args: &Json) -> (r: Result<ColorQuery, Error>)
    ensures
        is_color_query(*args, r),
{
    let hex_colors: Vec<HexColor> = match get_required_hex_colors(args, "hex_colors") {
        Ok(texts) => texts,
        Err(e) => { return Err(e); },
    };
    proof {
        lemma_texts_exclusive(args.field("hex_colors"@)->0, hex_colors@);
    }
    let (start_point, size) = match get_region(args) {
        Ok(region) => region,
        Err(e) => { return Err(e); },
    };
    assert(is_region(*args, Ok((start_point, size))));
    let rgb_offset: RgbOffset = match get_required_rgb_offset(args, "rgb_offset") {
        Ok(offset) => offset,
        Err(e) => {
            assert(is_offset(*args, Err(e)));
            return Err(e);
        },
    };
    Ok(ColorQuery { hex_colors, start_point, size, rgb_offset })
}

/// Reads the arguments of a constellation search.
pub fn relative_query(args: &Json) -> (r: Result<RelativeQuery, Error>)
    ensures
        is_relative_query(*args, r),
{
    let vertex_hex: HexColor = match get_required_hexcolor(args, "vertex_hex") {
        Ok(text) => text,
        Err(e) => { return Err(e); },
    };
    let relative_points: Vec<ColoredPoint> = match get_required_relative_points(
        args,
        "relative_points",
    ) {
        Ok(points) => points,
        Err(e) => { return Err(e); },
    };
    proof {
        lemma_points_exclusive(args.field("relative_points"@)->0, relative_points@);
    }
    let (start_point, size) = match get_region(args) {
        Ok(region) => region,
        Err(e) => { return Err(e); },
    };
    assert(is_region(*args, Ok((start_point, size))));
    let rgb_offset: RgbOffset = match get_required_rgb_offset(args, "rgb_offset") {
        Ok(offset) => offset,
        Err(e) => {
            assert(is_offset(*args, Err(e)));
            return Err(e);
        },
    };
    Ok(RelativeQuery { vertex_hex, relative_points, start_point, size, rgb_offset })
}

/// What a colour search over the protocol answers: the refusal of a query
/// that cannot be read; else, without a frame, that no frame is available;
/// else what `Frame::find_colors` finds, as a list of coloured points.
pub open spec fn is_find_colors_reply(args: Json, frame: Option<Frame>, r: Result<Json, Error>) -> bool {
    exists|query: Result<ColorQuery, Error>| #[trigger]
        is_color_query(args, query) && match query {
            Err(e) => r == Err::<Json, Error>(e),
            Ok(asked) => match frame {
                None => r == Err::<Json, Error>(Error::FrameUnavailable),
                Some(held) => match r {
                    Err(e) => is_color_answer(
                        held,
                        asked.hex_colors@,
                        asked.start_point,
                        asked.size,
                        asked.rgb_offset,
                        Err(e),
                    ),
                    Ok(json) => exists|found: Seq<ColoredPoint>| #[trigger]
                        is_colored_points_json(json, found) && is_color_answer(
                            held,
                            asked.hex_colors@,
                            asked.start_point,
                            asked.size,
                            asked.rgb_offset,
                            Ok(found),
                        ),
                },
            },
        }
}

/// The frame behind an optional reference.
pub open spec fn held(frame: Option<&Frame>) -> Option<Frame> {
    match frame {
        Some(held) => Some(*held),
        None => None,
    }
}

/// Carries out a colour search: reads the query, searches the frame, and
/// answers with what was found as a list of coloured points. A query that
/// cannot be read is refused before the frame is looked at.
pub fn find_colors(args: &Json, frame: Option<&Frame>) -> (r: Result<Json, Error>)
    ensures
        is_find_colors_reply(*args, held(frame), r),
{
    let query: Result<ColorQuery, Error> = color_query(args);
    match query {
        Err(e) => {
            assert(is_color_query(*args, Err::<ColorQuery, Error>(e)));
            Err(e)
        },
        Ok(asked) => {
            let ghost model = asked;
            assert(is_color_query(*args, Ok::<ColorQuery, Error>(model)));
            let frame: &Frame = match frame {
                Some(frame) => frame,
                None => { return Err(Error::FrameUnavailable); },
            };
            match frame.find_colors(
                asked.hex_colors.as_slice(),
                asked.start_point,
                asked.size,
                asked.rgb_offset,
            ) {
                Ok(found) => {
                    let json: Json = colored_points_json(&found);
                    assert(is_colored_points_json(json, found@));
                    Ok(json)
                },
                Err(e) => Err(e),
            }
        },
    }
}

/// The answer of a constellation search as JSON: the coloured point, or null
/// where nothing was found.
pub fn answer_json(answer: &Option<ColoredPoint>) -> (json: Json)
    ensures
        match *answer {
            Some(found) => is_colored_point_json(json, found),
            None => json == Json::Null,
        },
{
    match answer {
        Some(found) => colored_point_json(found),
        None => Json::Null,
    }
}

/// What a constellation search over the protocol answers: the refusal of a
/// query that cannot be read; else, without a frame, that no frame is
/// available; else what `Frame::find_relative_colors` finds, as a coloured
/// point or null.
pub open spec fn is_find_relative_colors_reply(
    args: Json,
    frame: Option<Frame>,
    r: Result<Json, Error>,
) -> bool {
    exists|query: Result<RelativeQuery, Error>| #[trigger]
        is_relative_query(args, query) && match query {
            Err(e) => r == Err::<Json, Error>(e),
            Ok(asked) => match frame {
                None => r == Err::<Json, Error>(Error::FrameUnavailable),
                Some(held) => if asked.relative_points@.len() == 0 {
                    match r {
                        Err(e) => is_single_color_answer(
                            held,
                            window_of(held, asked.start_point, asked.size),
                            asked.vertex_hex,
                            asked.rgb_offset,
                            Err(e),
                        ),
                        Ok(json) => exists|answer: Option<ColoredPoint>| #[trigger]
                            is_single_color_answer(
                                held,
                                window_of(held, asked.start_point, asked.size),
                                asked.vertex_hex,
                                asked.rgb_offset,
                                Ok(answer),
                            ) && is_answer_json(json, answer),
                    }
                } else {
                    match r {
                        Err(e) => constellation_fault(
                            held,
                            asked.vertex_hex@,
                            asked.relative_points@,
                        ) == Some(e),
                        Ok(json) => constellation_fault(
                            held,
                            asked.vertex_hex@,
                            asked.relative_points@,
                        ) is None && exists|answer: Option<ColoredPoint>| #[trigger]
                            is_constellation_answer(
                                held,
                                window_of(held, asked.start_point, asked.size),
                                crate::types::hex_color::color_of_hex(asked.vertex_hex@)->0,
                                crate::capture::color::stars_of(asked.relative_points@)->0,
                                asked.rgb_offset,
                                answer,
                            ) && is_answer_json(json, answer),
                    }
                },
            },
        }
}

/// Carries out a constellation search: reads the query, searches the frame,
/// and answers with the vertex that was found, or null. A query that cannot
/// be read is refused before the frame is looked at.
pub fn find_relative_colors(args: &Json, frame: Option<&Frame>) -> (r: Result<Json, Error>)
    ensures
        is_find_relative_colors_reply(*args, held(frame), r),
{
    let query: Result<RelativeQuery, Error> = relative_query(args);
    match query {
        Err(e) => {
            assert(is_relative_query(*args, Err::<RelativeQuery, Error>(e)));
            Err(e)
        },
        Ok(asked) => {
            let ghost model = asked;
            assert(is_relative_query(*args, Ok::<RelativeQuery, Error>(model)));
            let frame: &Frame = match frame {
                Some(frame) => frame,
                None => { return Err(Error::FrameUnavailable); },
            };
            let RelativeQuery { vertex_hex, relative_points, start_point, size, rgb_offset } =
                asked;
            match frame.find_relative_colors(
                vertex_hex,
                relative_points,
                start_point,
                size,
                rgb_offset,
            ) {
                Ok(answer) => {
                    let json: Json = answer_json(&answer);
                    assert(is_answer_json(json, answer));
                    proof {
                        if model.relative_points@.len() == 0 {
                            assert(is_single_color_answer(
                                *frame,
                                window_of(*frame, model.start_point, model.size),
                                model.vertex_hex,
                                model.rgb_offset,
                                Ok(answer),
                            ));
                        } else {
                            assert(is_constellation_answer(
                                *frame,
                                window_of(*frame, model.start_point, model.size),
                                crate::types::hex_color::color_of_hex(model.vertex_hex@)->0,
                                crate::capture::color::stars_of(model.relative_points@)->0,
                                model.rgb_offset,
                                answer,
                            ));
                        }
                    }
                    Ok(json)
                },
                Err(e) => Err(e),
            }
        },
    }
}

/// `json` is the answer of a constellation search.
pub open spec fn is_answer_json(json: Json, answer: Option<ColoredPoint>) -> bool {
    match answer {
        Some(found) => is_colored_point_json(json, found),
        None => json == Json::Null,
    }
}

} // verus!
