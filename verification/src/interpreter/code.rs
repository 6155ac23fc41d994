use vstd::prelude::*;
use vstd::string::StringExecFns;

use crate::text::{decimal, decimal_text};
use crate::types::colored_point::ColoredPoint;
use crate::types::hex_color::HexColor;
use crate::types::point::Point;
use crate::types::rgb_offset::RgbOffset;

verus! {

/// The script statements that call the protocol's methods, in one language.
pub trait Code {
    /// What a script starts with.
    spec fn predefined_text(&self) -> Seq<char>;

    /// The statement that looks for the best match of a template;
    /// `threshold` is the number as it is to be written.
    spec fn find_image_text(
        &self,
        subpath: Seq<char>,
        start_point: Point,
        end_point: Point,
        threshold: Seq<char>,
    ) -> Seq<char>;

    /// The statement that looks for every match of a template.
    spec fn find_images_text(
        &self,
        subpath: Seq<char>,
        start_point: Point,
        end_point: Point,
        threshold: Seq<char>,
    ) -> Seq<char>;

    /// The statement that looks for a constellation.
    spec fn find_relative_colors_text(
        &self,
        vertex_hex: Seq<char>,
        relative_points: Seq<ColoredPoint>,
        start_point: Point,
        end_point: Point,
        rgb_offset: RgbOffset,
    ) -> Seq<char>;

    /// The statement that looks for colours.
    spec fn find_colors_text(
        &self,
        hex_colors: Seq<HexColor>,
        start_point: Point,
        end_point: Point,
        rgb_offset: RgbOffset,
    ) -> Seq<char>;

    /// The statement that recognises text.
    spec fn recognize_text_text(&self, start_point: Point, end_point: Point) -> Seq<char>;

    fn predefined(&self) -> (code: String)
        ensures
            code@ == self.predefined_text(),
    ;

    fn find_image(&self, subpath: &str, start_point: &Point, end_point: &Point, threshold: &str) -> (code:
        String)
        ensures
            code@ == self.find_image_text(subpath@, *start_point, *end_point, threshold@),
    ;

    fn find_images(&self, subpath: &str, start_point: &Point, end_point: &Point, threshold: &str) -> (code:
        String)
        ensures
            code@ == self.find_images_text(subpath@, *start_point, *end_point, threshold@),
    ;

    fn find_relative_colors(
        &self,
        vertex_hex: &str,
        relative_points: &[ColoredPoint],
        start_point: &Point,
        end_point: &Point,
        rgb_offset: &RgbOffset,
    ) -> (code: String)
        ensures
            code@ == self.find_relative_colors_text(
                vertex_hex@,
                relative_points@,
                *start_point,
                *end_point,
                *rgb_offset,
            ),
    ;

    fn find_colors(
        &self,
        hex_colors: &[HexColor],
        start_point: &Point,
        end_point: &Point,
        rgb_offset: &RgbOffset,
    ) -> (code: String)
        ensures
            code@ == self.find_colors_text(hex_colors@, *start_point, *end_point, *rgb_offset),
    ;

    fn recognize_text(&self, start_point: &Point, end_point: &Point) -> (code: String)
        ensures
            code@ == self.recognize_text_text(*start_point, *end_point),
    ;
}

/// The statements in Python.
#[derive(Debug, Clone, Copy, PartialEq, Eq, Structural)]
pub struct PythonCode {}

/// The two lines that name a region.
pub open spec fn region_lines(start_point: Point, end_point: Point) -> Seq<char> {
    "    start_point=Point(x="@ + decimal(start_point.x as int) + ",y="@ + decimal(
        start_point.y as int,
    ) + "),\n    end_point=Point(x="@ + decimal(end_point.x as int) + ",y="@ + decimal(
        end_point.y as int,
    ) + "),\n"@
}

/// The line that names a tolerance.
pub open spec fn offset_line(rgb_offset: RgbOffset) -> Seq<char> {
    "    rgb_offset=RgbOffset(r="@ + decimal(rgb_offset.r as int) + ", g="@ + decimal(
        rgb_offset.g as int,
    ) + ", b="@ + decimal(rgb_offset.b as int) + "),\n"@
}

/// The statement of a template search under the given method name.
pub open spec fn image_statement(
    method: Seq<char>,
    subpath: Seq<char>,
    start_point: Point,
    end_point: Point,
    threshold: Seq<char>,
) -> Seq<char> {
    "client."@ + method + "(\n    subpath=\""@ + subpath + "\",\n"@ + region_lines(
        start_point,
        end_point,
    ) + "    threshold="@ + threshold + ",\n)"@
}

/// The line that names one colour of a list.
pub open spec fn color_row(hex: Seq<char>) -> Seq<char> {
    "        \""@ + hex + "\","@
}

/// The line that names one star of a constellation.
pub open spec fn star_row(star: ColoredPoint) -> Seq<char> {
    "        ColoredPoint(point=Point(x="@ + decimal(star.point.x as int) + ", y="@ + decimal(
        star.point.y as int,
    ) + ")), hex=\""@ + star.hex@ + "\""@
}

/// Lines one below the other.
pub open spec fn stacked(rows: Seq<Seq<char>>) -> Seq<char>
    decreases rows.len(),
{
    if rows.len() == 0 {
        Seq::empty()
    } else if rows.len() == 1 {
        rows[0]
    } else {
        stacked(rows.drop_last()) + "\n"@ + rows.last()
    }
}

/// The lines that name the colours of a list.
pub open spec fn color_rows(hex_colors: Seq<HexColor>) -> Seq<Seq<char>> {
    Seq::new(hex_colors.len(), |i: int| color_row(hex_colors[i]@))
}

/// The lines that name the stars of a constellation.
pub open spec fn star_rows(stars: Seq<ColoredPoint>) -> Seq<Seq<char>> {
    Seq::new(stars.len(), |i: int| star_row(stars[i]))
}

fn region_code(start_point: &Point, end_point: &Point) -> (code: String)
    ensures
        code@ == region_lines(*start_point, *end_point),
{
    String::from_str("    start_point=Point(x=").concat(
        decimal_text(start_point.x as i64).as_str(),
    ).concat(",y=").concat(decimal_text(start_point.y as i64).as_str()).concat(
        "),\n    end_point=Point(x=",
    ).concat(decimal_text(end_point.x as i64).as_str()).concat(",y=").concat(
        decimal_text(end_point.y as i64).as_str(),
    ).concat("),\n")
}

fn offset_code(rgb_offset: &RgbOffset) -> (code: String)
    ensures
        code@ == offset_line(*rgb_offset),
{
    String::from_str("    rgb_offset=RgbOffset(r=").concat(
        decimal_text(rgb_offset.r as i64).as_str(),
    ).concat(", g=").concat(decimal_text(rgb_offset.g as i64).as_str()).concat(", b=").concat(
        decimal_text(rgb_offset.b as i64).as_str(),
    ).concat("),\n")
}

fn image_code(method: &str, subpath: &str, start_point: &Point, end_point: &Point, threshold: &str) -> (code:
    String)
    ensures
        code@ == image_statement(method@, subpath@, *start_point, *end_point, threshold@),
{
    String::from_str("client.").concat(method).concat("(\n    subpath=\"").concat(subpath).concat(
        "\",\n",
    ).concat(region_code(start_point, end_point).as_str()).concat("    threshold=").concat(
        threshold,
    ).concat(",\n)")
}

fn color_rows_code(hex_colors: &[HexColor]) -> (code: String)
    ensures
        code@ == stacked(color_rows(hex_colors@)),
{
    let ghost rows = color_rows(hex_colors@);
    let mut code: String = String::new();
    let mut i: usize = 0;
    assert(rows.take(0) =~= Seq::<Seq<char>>::empty());
    while i < hex_colors.len()
        invariant
            i <= hex_colors@.len(),
            rows == color_rows(hex_colors@),
            code@ == stacked(rows.take(i as int)),
        decreases hex_colors@.len() - i,
    {
        let row: String = String::from_str("        \"").concat(hex_colors[i].as_str()).concat(
            "\",",
        );
        proof {
            assert(rows.take(i as int + 1).drop_last() =~= rows.take(i as int));
            assert(rows.take(i as int + 1).last() == rows[i as int]);
            assert(row@ == rows[i as int]);
        }
        if i > 0 {
            code.append("\n");
        } else {
            assert(code@ + row@ =~= row@);
        }
        code.append(row.as_str());
        i += 1;
    }
    assert(rows.take(i as int) =~= rows);
    code
}

fn star_rows_code(stars: &[ColoredPoint]) -> (code: String)
    ensures
        code@ == stacked(star_rows(stars@)),
{
    let ghost rows = star_rows(stars@);
    let mut code: String = String::new();
    let mut i: usize = 0;
    assert(rows.take(0) =~= Seq::<Seq<char>>::empty());
    while i < stars.len()
        invariant
            i <= stars@.len(),
            rows == star_rows(stars@),
            code@ == stacked(rows.take(i as int)),
        decreases stars@.len() - i,
    {
        let row: String = String::from_str("        ColoredPoint(point=Point(x=").concat(
            decimal_text(stars[i].point.x as i64).as_str(),
        ).concat(", y=").concat(decimal_text(stars[i].point.y as i64).as_str()).concat(
            ")), hex=\"",
        ).concat(stars[i].hex.as_str()).concat("\"");
        proof {
            assert(rows.take(i as int + 1).drop_last() =~= rows.take(i as int));
            assert(rows.take(i as int + 1).last() == rows[i as int]);
            assert(row@ == rows[i as int]);
        }
        if i > 0 {
            code.append("\n");
        } else {
            assert(code@ + row@ =~= row@);
        }
        code.append(row.as_str());
        i += 1;
    }
    assert(rows.take(i as int) =~= rows);
    code
}

impl Code for PythonCode {
    open spec fn predefined_text(&self) -> Seq<char> {
        "from kiwi import ScreenClient, Point, ColoredPoint, RgbOffset, System, Key\nclient = ScreenClient()\n"@
    }

    open spec fn find_image_text(
        &self,
        subpath: Seq<char>,
        start_point: Point,
        end_point: Point,
        threshold: Seq<char>,
    ) -> Seq<char> {
        image_statement("find_image"@, subpath, start_point, end_point, threshold)
    }

    open spec fn find_images_text(
        &self,
        subpath: Seq<char>,
        start_point: Point,
        end_point: Point,
        threshold: Seq<char>,
    ) -> Seq<char> {
        image_statement("find_images"@, subpath, start_point, end_point, threshold)
    }

    open spec fn find_relative_colors_text(
        &self,
        vertex_hex: Seq<char>,
        relative_points: Seq<ColoredPoint>,
        start_point: Point,
        end_point: Point,
        rgb_offset: RgbOffset,
    ) -> Seq<char> {
        "client.find_relative_colors(\n    vertex_color=\""@ + vertex_hex
            + "\",\n    relative_points=[\n"@ + stacked(star_rows(relative_points))
            + "\n    ],\n"@ + region_lines(start_point, end_point) + offset_line(rgb_offset) + ")"@
    }

    open spec fn find_colors_text(
        &self,
        hex_colors: Seq<HexColor>,
        start_point: Point,
        end_point: Point,
        rgb_offset: RgbOffset,
    ) -> Seq<char> {
        "client.find_colors(\n    hex_colors=[\n"@ + stacked(color_rows(hex_colors))
            + "\n    ],\n"@ + region_lines(start_point, end_point) + offset_line(rgb_offset) + ")"@
    }

    open spec fn recognize_text_text(&self, start_point: Point, end_point: Point) -> Seq<char> {
        "client.recognize_text(\n"@ + region_lines(start_point, end_point) + ")"@
    }

    fn predefined(&self) -> (code: String) {
        String::from_str(
            "from kiwi import ScreenClient, Point, ColoredPoint, RgbOffset, System, Key\nclient = ScreenClient()\n",
        )
    }

    fn find_image(&self, subpath: &str, start_point: &Point, end_point: &Point, threshold: &str) -> (code:
        String) {
        image_code("find_image", subpath, start_point, end_point, threshold)
    }

    fn find_images(&self, subpath: &str, start_point: &Point, end_point: &Point, threshold: &str) -> (code:
        String) {
        image_code("find_images", subpath, start_point, end_point, threshold)
    }

    fn find_relative_colors(
        &self,
        vertex_hex: &str,
        relative_points: &[ColoredPoint],
        start_point: &Point,
        end_point: &Point,
        rgb_offset: &RgbOffset,
    ) -> (code: String) {
        String::from_str("client.find_relative_colors(\n    vertex_color=\"").concat(
            vertex_hex,
        ).concat("\",\n    relative_points=[\n").concat(
            star_rows_code(relative_points).as_str(),
        ).concat("\n    ],\n").concat(region_code(start_point, end_point).as_str()).concat(
            offset_code(rgb_offset).as_str(),
        ).concat(")")
    }

    fn find_colors(
        &self,
        hex_colors: &[HexColor],
        start_point: &Point,
        end_point: &Point,
        rgb_offset: &RgbOffset,
    ) -> (code: String) {
        String::from_str("client.find_colors(\n    hex_colors=[\n").concat(
            color_rows_code(hex_colors).as_str(),
        ).concat("\n    ],\n").concat(region_code(start_point, end_point).as_str()).concat(
            offset_code(rgb_offset).as_str(),
        ).concat(")")
    }

    fn recognize_text(&self, start_point: &Point, end_point: &Point) -> (code: String) {
        String::from_str("client.recognize_text(\n").concat(
            region_code(start_point, end_point).as_str(),
        ).concat(")")
    }
}

impl Default for PythonCode {
    fn default() -> (code: PythonCode) {
        PythonCode {  }
    }
}

} // verus!
