use vstd::prelude::*;
use vstd::string::StringExecFns;

use crate::error::Error;
use crate::json::{Json, Number};
use crate::types::colored_point::ColoredPoint;
use crate::types::hex_color::HexColor;
use crate::types::point::Point;
use crate::types::rgb_offset::RgbOffset;

verus! {

/// The error is that of an argument that is absent.
pub open spec fn is_missing(error: Error, key: Seq<char>) -> bool {
    error matches Error::MissingArgument(told) && told@ == key
}

/// The error is that of an argument that has the wrong form.
pub open spec fn is_invalid(error: Error, key: Seq<char>) -> bool {
    error matches Error::InvalidArgument(told) && told@ == key
}

/// The whole number that a value stands for, if it is one that fits 32 signed
/// bits.
pub open spec fn as_i32(json: Json) -> Option<i32> {
    match json {
        Json::Integer(i) => if i32::MIN <= i <= i32::MAX {
            Some(i as i32)
        } else {
            None
        },
        _ => None,
    }
}

/// The whole number that a value stands for, if it is one that fits a byte.
pub open spec fn as_u8(json: Json) -> Option<u8> {
    match json {
        Json::Integer(i) => if 0 <= i <= 255 {
            Some(i as u8)
        } else {
            None
        },
        _ => None,
    }
}

/// The point that a value stands for: an object with whole numbers under `x`
/// and `y`, or a list of exactly these two.
pub open spec fn as_point(json: Json) -> Option<Point> {
    match json {
        Json::Object(_) => match (json.field("x"@), json.field("y"@)) {
            (Some(x), Some(y)) => match (as_i32(x), as_i32(y)) {
                (Some(x), Some(y)) => Some(Point { x, y }),
                _ => None,
            },
            _ => None,
        },
        Json::Array(items) => if items@.len() == 2 {
            match (as_i32(items@[0]), as_i32(items@[1])) {
                (Some(x), Some(y)) => Some(Point { x, y }),
                _ => None,
            }
        } else {
            None
        },
        _ => None,
    }
}

/// The tolerance that a value stands for: an object with bytes under `r`, `g`
/// and `b`, or a list of exactly these three.
pub open spec fn as_rgb_offset(json: Json) -> Option<RgbOffset> {
    match json {
        Json::Object(_) => match (json.field("r"@), json.field("g"@), json.field("b"@)) {
            (Some(r), Some(g), Some(b)) => match (as_u8(r), as_u8(g), as_u8(b)) {
                (Some(r), Some(g), Some(b)) => Some(RgbOffset { r, g, b }),
                _ => None,
            },
            _ => None,
        },
        Json::Array(items) => if items@.len() == 3 {
            match (as_u8(items@[0]), as_u8(items@[1]), as_u8(items@[2])) {
                (Some(r), Some(g), Some(b)) => Some(RgbOffset { r, g, b }),
                _ => None,
            }
        } else {
            None
        },
        _ => None,
    }
}

/// The coloured point that a value stands for, as the point and the colour's
/// text: an object with a point under `point` and a text under `hex`, or a
/// list of exactly these two.
pub open spec fn as_colored_point(json: Json) -> Option<(Point, Seq<char>)> {
    match json {
        Json::Object(_) => match (json.field("point"@), json.field("hex"@)) {
            (Some(point), Some(hex)) => match (as_point(point), hex.text()) {
                (Some(point), Some(hex)) => Some((point, hex)),
                _ => None,
            },
            _ => None,
        },
        Json::Array(items) => if items@.len() == 2 {
            match (as_point(items@[0]), items@[1].text()) {
                (Some(point), Some(hex)) => Some((point, hex)),
                _ => None,
            }
        } else {
            None
        },
        _ => None,
    }
}

/// The value is a list of coloured points, and `points` are these.
pub open spec fn is_colored_points(json: Json, points: Seq<ColoredPoint>) -> bool {
    &&& json matches Json::Array(items)
    &&& items@.len() == points.len()
    &&& forall|i: int|
        0 <= i < points.len() ==> as_colored_point(#[trigger] items@[i]) == Some(
            (points[i].point, points[i].hex@),
        )
}

/// The value is a list, but not one of coloured points alone; or no list.
pub open spec fn no_colored_points(json: Json) -> bool {
    json matches Json::Array(items) ==> exists|i: int|
        0 <= i < items@.len() && as_colored_point(#[trigger] items@[i]) is None
}

/// The value is a list of texts, and `texts` are these.
pub open spec fn is_texts(json: Json, texts: Seq<HexColor>) -> bool {
    &&& json matches Json::Array(items)
    &&& items@.len() == texts.len()
    &&& forall|i: int| 0 <= i < texts.len() ==> (#[trigger] items@[i]).text() == Some(texts[i]@)
}

/// The value is a list, but not one of texts alone; or no list.
pub open spec fn no_texts(json: Json) -> bool {
    json matches Json::Array(items) ==> exists|i: int|
        0 <= i < items@.len() && (#[trigger] items@[i]).text() is None
}

fn missing(key: &str) -> (error: Error)
    ensures
        is_missing(error, key@),
{
    Error::MissingArgument(String::from_str(key))
}

fn invalid(key: &str) -> (error: Error)
    ensures
        is_invalid(error, key@),
{
    Error::InvalidArgument(String::from_str(key))
}

fn read_i32(json: &Json) -> (r: Option<i32>)
    ensures
        r == as_i32(*json),
{
    match json {
        Json::Integer(i) => if -0x8000_0000 <= *i && *i <= 0x7fff_ffff {
            Some(*i as i32)
        } else {
            None
        },
        _ => None,
    }
}

fn read_u8(json: &Json) -> (r: Option<u8>)
    ensures
        r == as_u8(*json),
{
    match json {
        Json::Integer(i) => if 0 <= *i && *i <= 255 {
            Some(*i as u8)
        } else {
            None
        },
        _ => None,
    }
}

fn read_point(json: &Json) -> (r: Option<Point>)
    ensures
        r == as_point(*json),
{
    match json {
        Json::Object(_) => {
            let x: i32 = match json.get("x") {
                Some(x) => match read_i32(x) {
                    Some(x) => x,
                    None => { return None; },
                },
                None => { return None; },
            };
            let y: i32 = match json.get("y") {
                Some(y) => match read_i32(y) {
                    Some(y) => y,
                    None => { return None; },
                },
                None => { return None; },
            };
            Some(Point { x, y })
        },
        Json::Array(items) => {
            if items.len() != 2 {
                return None;
            }
            match (read_i32(&items[0]), read_i32(&items[1])) {
                (Some(x), Some(y)) => Some(Point { x, y }),
                _ => None,
            }
        },
        _ => None,
    }
}

fn read_rgb_offset(json: &Json) -> (r: Option<RgbOffset>)
    ensures
        r == as_rgb_offset(*json),
{
    match json {
        Json::Object(_) => {
            let r: u8 = match json.get("r") {
                Some(v) => match read_u8(v) {
                    Some(v) => v,
                    None => { return None; },
                },
                None => { return None; },
            };
            let g: u8 = match json.get("g") {
                Some(v) => match read_u8(v) {
                    Some(v) => v,
                    None => { return None; },
                },
                None => { return None; },
            };
            let b: u8 = match json.get("b") {
                Some(v) => match read_u8(v) {
                    Some(v) => v,
                    None => { return None; },
                },
                None => { return None; },
            };
            Some(RgbOffset { r, g, b })
        },
        Json::Array(items) => {
            if items.len() != 3 {
                return None;
            }
            match (read_u8(&items[0]), read_u8(&items[1]), read_u8(&items[2])) {
                (Some(r), Some(g), Some(b)) => Some(RgbOffset { r, g, b }),
                _ => None,
            }
        },
        _ => None,
    }
}

fn read_colored_point(json: &Json) -> (r: Option<ColoredPoint>)
    ensures
        match r {
            Some(found) => as_colored_point(*json) == Some((found.point, found.hex@)),
            None => as_colored_point(*json) is None,
        },
{
    match json {
        Json::Object(_) => {
            let point: Point = match json.get("point") {
                Some(v) => match read_point(v) {
                    Some(v) => v,
                    None => { return None; },
                },
                None => { return None; },
            };
            let hex: &str = match json.get("hex") {
                Some(v) => match v.as_str() {
                    Some(v) => v,
                    None => { return None; },
                },
                None => { return None; },
            };
            Some(ColoredPoint { point, hex: String::from_str(hex) })
        },
        Json::Array(items) => {
            if items.len() != 2 {
                return None;
            }
            match (read_point(&items[0]), items[1].as_str()) {
                (Some(point), Some(hex)) => Some(ColoredPoint { point, hex: String::from_str(hex) }),
                _ => None,
            }
        },
        _ => None,
    }
}

/// The text under `key`.
pub fn get_required_string(args: &Json, key: &str) -> (r: Result<String, Error>)
    ensures
        match args.field(key@) {
            None => r matches Err(e) && is_missing(e, key@),
            Some(value) => match value.text() {
                Some(text) => r matches Ok(found) && found@ == text,
                None => r matches Err(e) && is_invalid(e, key@),
            },
        },
{
    match args.get(key) {
        None => Err(missing(key)),
        Some(value) => match value.as_str() {
            Some(text) => Ok(String::from_str(text)),
            None => Err(invalid(key)),
        },
    }
}

/// The whole number under `key`.
pub fn get_required_i32(args: &Json, key: &str) -> (r: Result<i32, Error>)
    ensures
        match args.field(key@) {
            None => r matches Err(e) && is_missing(e, key@),
            Some(value) => match as_i32(value) {
                Some(number) => r == Ok::<i32, Error>(number),
                None => r matches Err(e) && is_invalid(e, key@),
            },
        },
{
    match args.get(key) {
        None => Err(missing(key)),
        Some(value) => match read_i32(value) {
            Some(number) => Ok(number),
            None => Err(invalid(key)),
        },
    }
}

/// The number under `key`, whole or not.
pub fn get_required_f64(args: &Json, key: &str) -> (r: Result<Number, Error>)
    ensures
        match args.field(key@) {
            None => r matches Err(e) && is_missing(e, key@),
            Some(value) => match value {
                Json::Integer(i) => r == Ok::<Number, Error>(Number::Integer(i)),
                Json::Decimal(text) => r matches Ok(Number::Decimal(found)) && found@ == text@,
                _ => r matches Err(e) && is_invalid(e, key@),
            },
        },
{
    match args.get(key) {
        None => Err(missing(key)),
        Some(value) => match value {
            Json::Integer(i) => Ok(Number::Integer(*i)),
            Json::Decimal(text) => Ok(Number::Decimal(text.clone())),
            _ => Err(invalid(key)),
        },
    }
}

/// The colour text under `key`. Any text is taken; whether it is a colour is
/// for the search to say.
pub fn get_required_hexcolor(args: &Json, key: &str) -> (r: Result<HexColor, Error>)
    ensures
        match args.field(key@) {
            None => r matches Err(e) && is_missing(e, key@),
            Some(value) => match value.text() {
                Some(text) => r matches Ok(found) && found@ == text,
                None => r matches Err(e) && is_invalid(e, key@),
            },
        },
{
    get_required_string(args, key)
}

/// The point under `key`.
pub fn get_required_point(args: &Json, key: &str) -> (r: Result<Point, Error>)
    ensures
        match args.field(key@) {
            None => r matches Err(e) && is_missing(e, key@),
            Some(value) => match as_point(value) {
                Some(point) => r == Ok::<Point, Error>(point),
                None => r matches Err(e) && is_invalid(e, key@),
            },
        },
{
    match args.get(key) {
        None => Err(missing(key)),
        Some(value) => match read_point(value) {
            Some(point) => Ok(point),
            None => Err(invalid(key)),
        },
    }
}

/// The tolerance under `key`.
pub fn get_required_rgb_offset(args: &Json, key: &str) -> (r: Result<RgbOffset, Error>)
    ensures
        match args.field(key@) {
            None => r matches Err(e) && is_missing(e, key@),
            Some(value) => match as_rgb_offset(value) {
                Some(offset) => r == Ok::<RgbOffset, Error>(offset),
                None => r matches Err(e) && is_invalid(e, key@),
            },
        },
{
    match args.get(key) {
        None => Err(missing(key)),
        Some(value) => match read_rgb_offset(value) {
            Some(offset) => Ok(offset),
            None => Err(invalid(key)),
        },
    }
}

/// The list of coloured points under `key`.
#[verifier::loop_isolation(false)]
pub fn get_required_relative_points(args: &Json, key: &str) -> (r: Result<Vec<ColoredPoint>, Error>)
    ensures
        match args.field(key@) {
            None => r matches Err(e) && is_missing(e, key@),
            Some(value) => match r {
                Ok(points) => is_colored_points(value, points@),
                Err(e) => is_invalid(e, key@) && no_colored_points(value),
            },
        },
{
    match args.get(key) {
        None => Err(missing(key)),
        Some(value) => match value {
            Json::Array(items) => {
                let mut points: Vec<ColoredPoint> = Vec::new();
                let mut i: usize = 0;
                while i < items.len()
                    invariant
                        i <= items@.len(),
                        points@.len() == i,
                        forall|k: int|
                            0 <= k < i ==> as_colored_point(#[trigger] items@[k]) == Some(
                                (points@[k].point, points@[k].hex@),
                            ),
                    decreases items@.len() - i,
                {
                    match read_colored_point(&items[i]) {
                        Some(point) => {
                            points.push(point);
                        },
                        None => {
                            assert(as_colored_point(items@[i as int]) is None);
                            return Err(invalid(key));
                        },
                    }
                    i += 1;
                }
                Ok(points)
            },
            _ => Err(invalid(key)),
        },
    }
}

/// The list of colour texts under `key`.
#[verifier::loop_isolation(false)]
pub fn get_required_hex_colors(args: &Json, key: &str) -> (r: Result<Vec<HexColor>, Error>)
    ensures
        match args.field(key@) {
            None => r matches Err(e) && is_missing(e, key@),
            Some(value) => match r {
                Ok(texts) => is_texts(value, texts@),
                Err(e) => is_invalid(e, key@) && no_texts(value),
            },
        },
{
    match args.get(key) {
        None => Err(missing(key)),
        Some(value) => match value {
            Json::Array(items) => {
                let mut texts: Vec<HexColor> = Vec::new();
                let mut i: usize = 0;
                while i < items.len()
                    invariant
                        i <= items@.len(),
                        texts@.len() == i,
                        forall|k: int|
                            0 <= k < i ==> (#[trigger] items@[k]).text() == Some(texts@[k]@),
                    decreases items@.len() - i,
                {
                    match items[i].as_str() {
                        Some(text) => {
                            texts.push(String::from_str(text));
                        },
                        None => {
                            assert(items@[i as int].text() is None);
                            return Err(invalid(key));
                        },
                    }
                    i += 1;
                }
                Ok(texts)
            },
            _ => Err(invalid(key)),
        },
    }
}

} // verus!
