use vstd::prelude::*;

use crate::capture::frame::{
    crop_extent, crop_origin, lemma_pixel_offset_bounds, pixel_offset, raster_before, Frame,
};
use crate::error::Error;
use crate::types::colored_point::ColoredPoint;
use crate::types::hex_color::{color_of_hex, parse_hex_color, HexColor};
use crate::types::point::Point;
use crate::types::rgb_color::{color_in_band, hex_text, RgbColor};
use crate::types::rgb_offset::RgbOffset;
use crate::types::size::Size;

verus! {

/// The part of a frame that a search looks at, in the frame's coordinates.
#[derive(Debug, Clone, Copy, PartialEq, Eq, Structural)]
pub struct Window {
    pub left: u32,
    pub top: u32,
    pub width: u32,
    pub height: u32,
}

impl Window {
    /// Whether `(x, y)` lies in the window.
    pub open spec fn contains(&self, x: int, y: int) -> bool {
        self.left <= x < self.left + self.width && self.top <= y < self.top + self.height
    }

    /// The window lies on the frame.
    pub open spec fn within(&self, frame: Frame) -> bool {
        self.left + self.width <= frame.width && self.top + self.height <= frame.height
    }
}

/// The window that a region asked for leaves on a frame: the region starts at
/// `point`, is `size` large and is cut off at the frame's edges; a start point
/// that is not on the frame leaves nothing.
pub open spec fn window_of(frame: Frame, point: Point, size: Size) -> Window {
    Window {
        left: crop_origin(point.x, frame.width) as u32,
        top: crop_origin(point.y, frame.height) as u32,
        width: crop_extent(point.x, size.width, frame.width) as u32,
        height: crop_extent(point.y, size.height, frame.height) as u32,
    }
}

/// Whether the pixel at `(x, y)` lies in the window and matches `reference`
/// under the tolerance.
pub open spec fn matches_at(
    frame: Frame,
    window: Window,
    reference: RgbColor,
    offset: RgbOffset,
    x: int,
    y: int,
) -> bool {
    window.contains(x, y) && color_in_band(reference, offset, frame.color_at(x, y))
}

/// No pixel of the window matches `reference`.
pub open spec fn no_match(frame: Frame, window: Window, reference: RgbColor, offset: RgbOffset)
    -> bool {
    forall|x: int, y: int| !#[trigger] matches_at(frame, window, reference, offset, x, y)
}

/// `(x, y)` matches `reference`, and no pixel before it does, rows read from
/// the top and each from the left.
pub open spec fn is_first_match(
    frame: Frame,
    window: Window,
    reference: RgbColor,
    offset: RgbOffset,
    x: int,
    y: int,
) -> bool {
    &&& matches_at(frame, window, reference, offset, x, y)
    &&& forall|i: int, j: int|
        #[trigger] matches_at(frame, window, reference, offset, i, j) ==> !raster_before(
            i,
            j,
            x,
            y,
        )
}

/// Every text of the list is a colour.
pub open spec fn all_hex(texts: Seq<HexColor>) -> bool {
    forall|c: int| 0 <= c < texts.len() ==> color_of_hex((#[trigger] texts[c])@) is Some
}

/// The colour that text `c` of the list stands for.
pub open spec fn rgb_at(texts: Seq<HexColor>, c: int) -> RgbColor {
    color_of_hex(texts[c]@)->0
}

/// Why a colour search is refused, if it is: a frame whose buffer is too
/// short, then a text that is no colour.
pub open spec fn color_fault(frame: Frame, texts: Seq<HexColor>) -> Option<Error> {
    if !frame.fits() {
        Some(Error::InvalidFrame)
    } else if !all_hex(texts) {
        Some(Error::InvalidColor)
    } else {
        None
    }
}

/// `entry` reports colour `c` of the list: at the first pixel that matches
/// it, under its lower-case name.
pub open spec fn listed(
    frame: Frame,
    window: Window,
    texts: Seq<HexColor>,
    offset: RgbOffset,
    entry: ColoredPoint,
    c: int,
) -> bool {
    &&& entry.hex@ == hex_text(rgb_at(texts, c))
    &&& is_first_match(
        frame,
        window,
        rgb_at(texts, c),
        offset,
        entry.point.x as int,
        entry.point.y as int,
    )
}

/// A colour found at `p` is reported before one found at `q` when `p` comes
/// first, rows read from the top and each from the left; of colours found at
/// one pixel the one asked for first is reported first.
pub open spec fn reported_before(p: Point, a: int, q: Point, b: int) -> bool {
    raster_before(p.x as int, p.y as int, q.x as int, q.y as int) || (p == q && a < b)
}

/// `found` reports each of the first `count` colours of the list exactly
/// once, entry `q` being colour `order[q]`, in the order in which a scan of
/// the window meets them.
pub open spec fn lists_first(
    frame: Frame,
    window: Window,
    texts: Seq<HexColor>,
    offset: RgbOffset,
    found: Seq<ColoredPoint>,
    order: Seq<int>,
    count: int,
) -> bool {
    &&& found.len() == count
    &&& order.len() == count
    &&& forall|q: int| 0 <= q < order.len() ==> 0 <= #[trigger] order[q] < count
    &&& forall|q: int, r: int| 0 <= q < r < order.len() ==> #[trigger] order[q] != #[trigger] order[r]
    &&& forall|q: int|
        0 <= q < found.len() ==> listed(frame, window, texts, offset, #[trigger] found[q], order[q])
    &&& forall|q: int, r: int|
        0 <= q < r < found.len() ==> reported_before(
            (#[trigger] found[q]).point,
            order[q],
            (#[trigger] found[r]).point,
            order[r],
        )
}

/// `found` reports every colour of the list exactly once, entry `q` being
/// colour `order[q]`, in the order in which a scan of the window meets them.
pub open spec fn is_listing(
    frame: Frame,
    window: Window,
    texts: Seq<HexColor>,
    offset: RgbOffset,
    found: Seq<ColoredPoint>,
    order: Seq<int>,
) -> bool {
    lists_first(frame, window, texts, offset, found, order, texts.len() as int)
}

proof fn lemma_listing_insert(
    frame: Frame,
    window: Window,
    texts: Seq<HexColor>,
    offset: RgbOffset,
    had: Seq<ColoredPoint>,
    had_order: Seq<int>,
    at: int,
    entry: ColoredPoint,
    c: int,
)
    requires
        0 <= c,
        0 <= at <= had.len(),
        lists_first(frame, window, texts, offset, had, had_order, c),
        listed(frame, window, texts, offset, entry, c),
        forall|q: int|
            0 <= q < at ==> !raster_before(
                entry.point.x as int,
                entry.point.y as int,
                (#[trigger] had[q]).point.x as int,
                had[q].point.y as int,
            ),
        at < had.len() ==> raster_before(
            entry.point.x as int,
            entry.point.y as int,
            had[at].point.x as int,
            had[at].point.y as int,
        ),
    ensures
        lists_first(
            frame,
            window,
            texts,
            offset,
            had.insert(at, entry),
            had_order.insert(at, c),
            c + 1,
        ),
{
    let found = had.insert(at, entry);
    let order = had_order.insert(at, c);
    had.insert_ensures(at, entry);
    had_order.insert_ensures(at, c);
    assert forall|q: int| 0 <= q < order.len() implies 0 <= #[trigger] order[q] < c + 1 by {
        if q < at {
            assert(order[q] == had_order[q]);
        } else if q > at {
            assert(order[q] == had_order[q - 1]);
        }
    }
    assert forall|q: int, r: int| 0 <= q < r < order.len() implies #[trigger] order[q]
        != #[trigger] order[r] by {
        if q < at {
            assert(order[q] == had_order[q]);
        } else if q > at {
            assert(order[q] == had_order[q - 1]);
        }
        if r < at {
            assert(order[r] == had_order[r]);
        } else if r > at {
            assert(order[r] == had_order[r - 1]);
        }
    }
    assert forall|q: int| 0 <= q < found.len() implies listed(
        frame,
        window,
        texts,
        offset,
        #[trigger] found[q],
        order[q],
    ) by {
        if q < at {
            assert(found[q] == had[q] && order[q] == had_order[q]);
        } else if q > at {
            assert(found[q] == had[q - 1] && order[q] == had_order[q - 1]);
        }
    }
    assert forall|q: int, r: int| 0 <= q < r < found.len() implies reported_before(
        (#[trigger] found[q]).point,
        order[q],
        (#[trigger] found[r]).point,
        order[r],
    ) by {
        if r < at {
            assert(found[q] == had[q] && order[q] == had_order[q]);
            assert(found[r] == had[r] && order[r] == had_order[r]);
        } else if r == at {
            assert(found[q] == had[q] && order[q] == had_order[q]);
            assert(had_order[q] < c);
        } else if q < at {
            assert(found[q] == had[q] && order[q] == had_order[q]);
            assert(found[r] == had[r - 1] && order[r] == had_order[r - 1]);
        } else if q == at {
            assert(found[r] == had[r - 1] && order[r] == had_order[r - 1]);
            if r - 1 > at {
                assert(reported_before(
                    had[at].point,
                    had_order[at],
                    had[r - 1].point,
                    had_order[r - 1],
                ));
            }
        } else {
            assert(found[q] == had[q - 1] && order[q] == had_order[q - 1]);
            assert(found[r] == had[r - 1] && order[r] == had_order[r - 1]);
        }
    }
}

/// Some colour of the list matches nowhere in the window.
pub open spec fn some_color_missing(
    frame: Frame,
    window: Window,
    texts: Seq<HexColor>,
    offset: RgbOffset,
) -> bool {
    exists|c: int|
        0 <= c < texts.len() && #[trigger] no_match(frame, window, rgb_at(texts, c), offset)
}

/// What a colour search answers: a refusal for the reason that
/// `color_fault` gives; else nothing at all if some colour matches nowhere in
/// the region; else every colour of the list, each reported once.
pub open spec fn is_color_answer(
    frame: Frame,
    texts: Seq<HexColor>,
    point: Point,
    size: Size,
    offset: RgbOffset,
    answer: Result<Seq<ColoredPoint>, Error>,
) -> bool {
    match answer {
        Err(e) => color_fault(frame, texts) == Some(e),
        Ok(found) => {
            &&& color_fault(frame, texts) is None
            &&& found.len() == 0 || found.len() == texts.len()
            &&& if some_color_missing(frame, window_of(frame, point, size), texts, offset) {
                found.len() == 0
            } else {
                exists|order: Seq<int>| #[trigger]
                    is_listing(frame, window_of(frame, point, size), texts, offset, found, order)
            }
        },
    }
}

/// One star of a constellation: where it stands relative to the vertex, and
/// its colour.
#[derive(Debug, Clone, Copy, PartialEq, Eq, Structural)]
pub struct Star {
    pub point: Point,
    pub color: RgbColor,
}

/// A channel value brought back into a byte: one turn of 256 is added or
/// taken away where the value has left the range.
pub open spec fn wrap_channel(value: int) -> u8 {
    if value < 0 {
        (value + 256) as u8
    } else if value > 255 {
        (value - 256) as u8
    } else {
        value as u8
    }
}

/// How far the colour seen at the vertex has drifted from the colour that
/// the pattern gives the vertex: seen less pattern, channel by channel.
pub open spec fn color_drift(pattern: RgbColor, seen: RgbColor) -> (i16, i16, i16) {
    ((seen.0 - pattern.0) as i16, (seen.1 - pattern.1) as i16, (seen.2 - pattern.2) as i16)
}

/// The colour expected of a star once the drift measured at the vertex is
/// added to each of its channels.
pub open spec fn drifted(color: RgbColor, drift: (i16, i16, i16)) -> RgbColor {
    RgbColor(
        wrap_channel(color.0 + drift.0),
        wrap_channel(color.1 + drift.1),
        wrap_channel(color.2 + drift.2),
    )
}

/// A star holds for a vertex at `(x, y)` when the pixel it points at has
/// exactly the star's colour with the drift added, or lies outside the
/// window.
pub open spec fn star_holds(
    frame: Frame,
    window: Window,
    star: Star,
    drift: (i16, i16, i16),
    x: int,
    y: int,
) -> bool {
    window.contains(x + star.point.x, y + star.point.y) ==> frame.color_at(
        x + star.point.x,
        y + star.point.y,
    ) == drifted(star.color, drift)
}

/// Every star holds for a vertex at `(x, y)`.
pub open spec fn stars_hold(
    frame: Frame,
    window: Window,
    stars: Seq<Star>,
    drift: (i16, i16, i16),
    x: int,
    y: int,
) -> bool {
    forall|k: int| 0 <= k < stars.len() ==> star_holds(frame, window, #[trigger] stars[k], drift, x, y)
}

/// Whether row `y` is still searched: the rows from `y` to the window's last
/// are no fewer than the lowest star is below the vertex. Stars at or above
/// the vertex end no search.
pub open spec fn row_searched(window: Window, stars: Seq<Star>, y: int) -> bool {
    forall|k: int|
        0 <= k < stars.len() ==> (#[trigger] stars[k]).point.y <= window.top + window.height - y
}

/// The constellation stands with its vertex at `(x, y)`.
pub open spec fn constellation_at(
    frame: Frame,
    window: Window,
    vertex: RgbColor,
    stars: Seq<Star>,
    offset: RgbOffset,
    x: int,
    y: int,
) -> bool {
    &&& matches_at(frame, window, vertex, offset, x, y)
    &&& row_searched(window, stars, y)
    &&& stars_hold(frame, window, stars, color_drift(vertex, frame.color_at(x, y)), x, y)
}

/// The stars that a list of coloured points stands for, if every colour of it
/// is well written.
pub open spec fn stars_of(points: Seq<ColoredPoint>) -> Option<Seq<Star>> {
    if forall|k: int| 0 <= k < points.len() ==> color_of_hex((#[trigger] points[k]).hex@) is Some {
        Some(
            Seq::new(
                points.len(),
                |k: int| Star { point: points[k].point, color: color_of_hex(points[k].hex@)->0 },
            ),
        )
    } else {
        None
    }
}

fn comes_before(p: Point, q: Point) -> (before: bool)
    ensures
        before == raster_before(p.x as int, p.y as int, q.x as int, q.y as int),
{
    p.y < q.y || (p.y == q.y && p.x < q.x)
}

fn wrapped(color: u8, delta: i16) -> (value: u8)
    requires
        -255 <= delta <= 255,
    ensures
        value == wrap_channel(color + delta),
{
    let sum: i16 = color as i16 + delta;
    if sum < 0 {
        (sum + 256) as u8
    } else if sum > 255 {
        (sum - 256) as u8
    } else {
        sum as u8
    }
}

impl Frame {
    /// The window that a region leaves on the frame.
    pub fn window(&self, point: Point, size: Size) -> (window: Window)
        ensures
            window == window_of(*self, point, size),
            window.within(*self),
    {
        let (left, width) = Frame::crop_span(point.x, size.width, self.width);
        let (top, height) = Frame::crop_span(point.y, size.height, self.height);
        Window { left, top, width, height }
    }

    /// The colour of a pixel.
    pub fn color(&self, x: u32, y: u32) -> (color: RgbColor)
        requires
            self.fits(),
            x < self.width,
            y < self.height,
        ensures
            color == self.color_at(x as int, y as int),
    {
        proof {
            lemma_pixel_offset_bounds(self.width as int, self.height as int, x as int, y as int);
            assert(y * self.width >= 0) by (nonlinear_arith)
                requires
                    y >= 0,
                    self.width >= 0,
            ;
        }
        let total: usize = self.buffer.len();
        let at: usize = 4 * (y as usize * self.width as usize + x as usize);
        assert(at == pixel_offset(self.width as int, x as int, y as int));
        RgbColor(self.buffer[at], self.buffer[at + 1], self.buffer[at + 2])
    }

    /// The first pixel of the window that matches `reference` under the
    /// tolerance, rows read from the top and each from the left.
    pub fn first_match(&self, window: Window, reference: RgbColor, offset: RgbOffset) -> (r: Option<
        Point,
    >)
        requires
            self.fits(),
            window.within(*self),
        ensures
            match r {
                Some(p) => is_first_match(*self, window, reference, offset, p.x as int, p.y as int),
                None => no_match(*self, window, reference, offset),
            },
    {
        let mut y: u32 = window.top;
        while y < window.top + window.height
            invariant
                window.top <= y <= window.top + window.height,
                self.fits(),
                window.within(*self),
                forall|i: int, j: int|
                    j < y ==> !#[trigger] matches_at(*self, window, reference, offset, i, j),
            decreases window.top + window.height - y,
        {
            let mut x: u32 = window.left;
            while x < window.left + window.width
                invariant
                    window.left <= x <= window.left + window.width,
                    window.top <= y < window.top + window.height,
                    self.fits(),
                    window.within(*self),
                    forall|i: int, j: int|
                        raster_before(i, j, x as int, y as int) ==> !#[trigger] matches_at(
                            *self,
                            window,
                            reference,
                            offset,
                            i,
                            j,
                        ),
                decreases window.left + window.width - x,
            {
                let pixel: RgbColor = self.color(x, y);
                if reference.range_compare(offset, &pixel).is_some() {
                    return Some(Point { x: x as i32, y: y as i32 });
                }
                x += 1;
            }
            y += 1;
        }
        None
    }

    /// Looks in a region of the frame for each colour of a list. Each colour
    /// is reported at the first pixel that matches it under the tolerance,
    /// under its lower-case name, in the order in which a scan of the region
    /// meets them. If one colour matches nowhere, nothing at all is reported.
    pub fn find_colors(
        &self,
        hex_colors: &[HexColor],
        point: Point,
        size: Size,
        rgb_offset: RgbOffset,
    ) -> (r: Result<Vec<ColoredPoint>, Error>)
        ensures
            is_color_answer(
                *self,
                hex_colors@,
                point,
                size,
                rgb_offset,
                match r {
                    Ok(found) => Ok(found@),
                    Err(e) => Err(e),
                },
            ),
    {
        if !self.is_valid() {
            return Err(Error::InvalidFrame);
        }
        let count: usize = hex_colors.len();
        let mut colors: Vec<RgbColor> = Vec::new();
        let mut c: usize = 0;
        while c < count
            invariant
                c <= count,
                self.fits(),
                count == hex_colors@.len(),
                colors@.len() == c,
                forall|k: int|
                    0 <= k < c ==> color_of_hex((#[trigger] hex_colors@[k])@) == Some(colors@[k]),
            decreases count - c,
        {
            match parse_hex_color(hex_colors[c].as_str()) {
                Some(color) => {
                    colors.push(color);
                },
                None => {
                    assert(!all_hex(hex_colors@));
                    return Err(Error::InvalidColor);
                },
            }
            c += 1;
        }
        assert(all_hex(hex_colors@));
        let window: Window = self.window(point, size);
        let ghost texts = hex_colors@;
        let mut found: Vec<ColoredPoint> = Vec::new();
        let ghost mut order: Seq<int> = Seq::empty();
        let mut c: usize = 0;
        while c < count
            invariant
                c <= count,
                count == texts.len(),
                texts == hex_colors@,
                colors@.len() == count,
                self.fits(),
                window == window_of(*self, point, size),
                window.within(*self),
                forall|k: int| 0 <= k < count ==> color_of_hex((#[trigger] texts[k])@) == Some(colors@[k]),
                lists_first(*self, window, texts, rgb_offset, found@, order, c as int),
                forall|k: int|
                    0 <= k < c ==> !#[trigger] no_match(*self, window, rgb_at(texts, k), rgb_offset),
            decreases count - c,
        {
            let color: RgbColor = colors[c];
            assert(rgb_at(texts, c as int) == color);
            let place: Point = match self.first_match(window, color, rgb_offset) {
                Some(place) => place,
                None => {
                    assert(some_color_missing(*self, window, texts, rgb_offset));
                    return Ok(Vec::new());
                },
            };
            assert(matches_at(*self, window, color, rgb_offset, place.x as int, place.y as int));
            let mut at: usize = 0;
            while at < found.len() && !comes_before(place, found[at].point)
                invariant
                    at <= found@.len(),
                    forall|q: int|
                        0 <= q < at ==> !raster_before(
                            place.x as int,
                            place.y as int,
                            (#[trigger] found@[q]).point.x as int,
                            found@[q].point.y as int,
                        ),
                decreases found@.len() - at,
            {
                at += 1;
            }
            let entry: ColoredPoint = ColoredPoint { point: place, hex: color.to_hex() };
            let ghost had = found@;
            let ghost had_order = order;
            found.insert(at, entry);
            proof {
                order = had_order.insert(at as int, c as int);
                lemma_listing_insert(
                    *self,
                    window,
                    texts,
                    rgb_offset,
                    had,
                    had_order,
                    at as int,
                    entry,
                    c as int,
                );
            }
            c += 1;
        }
        proof {
            assert(all_hex(hex_colors@));
            assert(color_fault(*self, hex_colors@) is None);
            assert(found@.len() == hex_colors@.len());
            assert(!some_color_missing(*self, window, texts, rgb_offset));
            assert(is_listing(
                *self,
                window_of(*self, point, size),
                hex_colors@,
                rgb_offset,
                found@,
                order,
            ));
            assert(exists|order: Seq<int>| #[trigger]
                is_listing(
                    *self,
                    window_of(*self, point, size),
                    hex_colors@,
                    rgb_offset,
                    found@,
                    order,
                ));
            assert(!some_color_missing(
                *self,
                window_of(*self, point, size),
                hex_colors@,
                rgb_offset,
            ));
        }
        Ok(found)
    }

    /// Whether a colour search on the region can be made at all: true for
    /// every frame and list that `find_colors` does not refuse, whatever it
    /// finds.
    pub fn has_colors(
        &self,
        colors: &[HexColor],
        point: Point,
        size: Size,
        rgb_offset: RgbOffset,
    ) -> (r: Result<bool, Error>)
        ensures
            r == Ok::<bool, Error>(color_fault(*self, colors@) is None),
    {
        Ok(self.find_colors(colors, point, size, rgb_offset).is_ok())
    }
}

/// Why a constellation search is refused, if it is: a frame whose buffer is
/// too short, then a vertex or star colour that is no colour.
pub open spec fn constellation_fault(
    frame: Frame,
    vertex: Seq<char>,
    points: Seq<ColoredPoint>,
) -> Option<Error> {
    if !frame.fits() {
        Some(Error::InvalidFrame)
    } else if color_of_hex(vertex) is None || stars_of(points) is None {
        Some(Error::InvalidColor)
    } else {
        None
    }
}

/// The answer to a constellation search with at least one star: nothing when
/// the constellation stands nowhere in the window, else the first place of
/// its vertex, rows read from the top and each from the left, with the colour
/// that the frame has there.
pub open spec fn is_constellation_answer(
    frame: Frame,
    window: Window,
    vertex: RgbColor,
    stars: Seq<Star>,
    offset: RgbOffset,
    answer: Option<ColoredPoint>,
) -> bool {
    match answer {
        None => forall|x: int, y: int|
            !#[trigger] constellation_at(frame, window, vertex, stars, offset, x, y),
        Some(found) => {
            &&& constellation_at(
                frame,
                window,
                vertex,
                stars,
                offset,
                found.point.x as int,
                found.point.y as int,
            )
            &&& forall|x: int, y: int|
                #[trigger] constellation_at(frame, window, vertex, stars, offset, x, y)
                    ==> !raster_before(x, y, found.point.x as int, found.point.y as int)
            &&& found.hex@ == hex_text(frame.color_at(found.point.x as int, found.point.y as int))
        },
    }
}

/// The answer to a search for one colour alone: what `find_colors` does for
/// a list of that one colour. It refuses where `find_colors` refuses, finds
/// nothing where no pixel of the window matches, and else reports the colour
/// at its first match.
pub open spec fn is_single_color_answer(
    frame: Frame,
    window: Window,
    text: HexColor,
    offset: RgbOffset,
    answer: Result<Option<ColoredPoint>, Error>,
) -> bool {
    match answer {
        Err(e) => color_fault(frame, seq![text]) == Some(e),
        Ok(None) => color_fault(frame, seq![text]) is None && some_color_missing(
            frame,
            window,
            seq![text],
            offset,
        ),
        Ok(Some(found)) => color_fault(frame, seq![text]) is None && listed(
            frame,
            window,
            seq![text],
            offset,
            found,
            0,
        ),
    }
}

fn parse_stars(points: &Vec<ColoredPoint>) -> (r: Option<Vec<Star>>)
    ensures
        match r {
            Some(stars) => stars_of(points@) == Some(stars@),
            None => stars_of(points@) is None,
        },
{
    let mut stars: Vec<Star> = Vec::new();
    let mut k: usize = 0;
    while k < points.len()
        invariant
            k <= points@.len(),
            stars@.len() == k,
            forall|i: int|
                0 <= i < k ==> color_of_hex((#[trigger] points@[i]).hex@) == Some(stars@[i].color)
                    && stars@[i].point == points@[i].point,
        decreases points@.len() - k,
    {
        match parse_hex_color(points[k].hex.as_str()) {
            Some(color) => {
                stars.push(Star { point: points[k].point, color });
            },
            None => {
                return None;
            },
        }
        k += 1;
    }
    proof {
        assert(stars_of(points@) is Some);
        assert(stars@ =~= stars_of(points@)->0);
    }
    Some(stars)
}

/// Whether every star holds for a vertex at `origin`, given the drift
/// measured at the vertex.
fn match_relatives(
    frame: &Frame,
    window: Window,
    origin: &Point,
    relatives: &Vec<Star>,
    offsets: &(i16, i16, i16),
) -> (held: bool)
    requires
        frame.fits(),
        window.within(*frame),
        -255 <= offsets.0 <= 255,
        -255 <= offsets.1 <= 255,
        -255 <= offsets.2 <= 255,
    ensures
        held == stars_hold(*frame, window, relatives@, *offsets, origin.x as int, origin.y as int),
{
    let mut k: usize = 0;
    while k < relatives.len()
        invariant
            k <= relatives@.len(),
            frame.fits(),
            window.within(*frame),
            -255 <= offsets.0 <= 255,
            -255 <= offsets.1 <= 255,
            -255 <= offsets.2 <= 255,
            forall|i: int|
                0 <= i < k ==> star_holds(
                    *frame,
                    window,
                    #[trigger] relatives@[i],
                    *offsets,
                    origin.x as int,
                    origin.y as int,
                ),
        decreases relatives@.len() - k,
    {
        let star: Star = relatives[k];
        let x: i64 = origin.x as i64 + star.point.x as i64;
        let y: i64 = origin.y as i64 + star.point.y as i64;
        if window.left as i64 <= x && x < window.left as i64 + window.width as i64 && window.top as i64
            <= y && y < window.top as i64 + window.height as i64 {
            let pixel: RgbColor = frame.color(x as u32, y as u32);
            let expected: RgbColor = RgbColor(
                wrapped(star.color.0, offsets.0),
                wrapped(star.color.1, offsets.1),
                wrapped(star.color.2, offsets.2),
            );
            if pixel.0 != expected.0 || pixel.1 != expected.1 || pixel.2 != expected.2 {
                assert(!star_holds(
                    *frame,
                    window,
                    relatives@[k as int],
                    *offsets,
                    origin.x as int,
                    origin.y as int,
                ));
                return false;
            }
        }
        k += 1;
    }
    true
}

fn lowest_star(stars: &Vec<Star>) -> (lowest: i32)
    requires
        stars@.len() > 0,
    ensures
        forall|k: int| 0 <= k < stars@.len() ==> (#[trigger] stars@[k]).point.y <= lowest,
        exists|k: int| 0 <= k < stars@.len() && (#[trigger] stars@[k]).point.y == lowest,
{
    let mut lowest: i32 = stars[0].point.y;
    let ghost mut witness: int = 0;
    let mut k: usize = 1;
    while k < stars.len()
        invariant
            1 <= k <= stars@.len(),
            0 <= witness < stars@.len(),
            stars@[witness].point.y == lowest,
            forall|i: int| 0 <= i < k ==> (#[trigger] stars@[i]).point.y <= lowest,
        decreases stars@.len() - k,
    {
        if stars[k].point.y > lowest {
            lowest = stars[k].point.y;
            proof {
                witness = k as int;
            }
        }
        k += 1;
    }
    lowest
}

impl Frame {
    /// The answer of `find_colors` for one colour alone.
    fn find_single_color(
        &self,
        vertex_hex: HexColor,
        point: Point,
        size: Size,
        rgb_offset: RgbOffset,
    ) -> (answer: Result<Option<ColoredPoint>, Error>)
        ensures
            is_single_color_answer(
                *self,
                window_of(*self, point, size),
                vertex_hex,
                rgb_offset,
                answer,
            ),
    {
        let ghost texts = seq![vertex_hex];
        let mut colors: Vec<HexColor> = Vec::new();
        colors.push(vertex_hex);
        assert(colors@ =~= texts);
        match self.find_colors(colors.as_slice(), point, size, rgb_offset) {
            Ok(mut found) => {
                let ghost listing = found@;
                let answer: Option<ColoredPoint> = found.pop();
                proof {
                    let window = window_of(*self, point, size);
                    if !some_color_missing(*self, window, texts, rgb_offset) {
                        let order = choose|order: Seq<int>| #[trigger]
                            is_listing(*self, window, texts, rgb_offset, listing, order);
                        assert(order[0] == 0);
                        assert(listed(*self, window, texts, rgb_offset, listing[0], order[0]));
                    }
                }
                Ok(answer)
            },
            Err(e) => Err(e),
        }
    }

    /// The first place of the constellation in the window.
    #[verifier::loop_isolation(false)]
    fn find_constellation(
        &self,
        window: Window,
        vertex: RgbColor,
        stars: &Vec<Star>,
        rgb_offset: RgbOffset,
    ) -> (answer: Option<ColoredPoint>)
        requires
            self.fits(),
            window.within(*self),
            stars@.len() > 0,
        ensures
            is_constellation_answer(*self, window, vertex, stars@, rgb_offset, answer),
    {
        let lowest: i32 = lowest_star(stars);
        let ghost deepest = choose|k: int|
            0 <= k < stars@.len() && (#[trigger] stars@[k]).point.y == lowest;
        let bottom: u32 = window.top + window.height;
        let mut y: u32 = window.top;
        while y < bottom
            invariant
                window.top <= y <= bottom,
                forall|i: int, j: int|
                    j < y ==> !#[trigger] constellation_at(
                        *self,
                        window,
                        vertex,
                        stars@,
                        rgb_offset,
                        i,
                        j,
                    ),
            decreases bottom - y,
        {
            if lowest > 0 && bottom - y < lowest as u32 {
                proof {
                    assert forall|i: int, j: int| !#[trigger] constellation_at(
                        *self,
                        window,
                        vertex,
                        stars@,
                        rgb_offset,
                        i,
                        j,
                    ) by {
                        if j >= y {
                            assert(stars@[deepest].point.y > window.top + window.height - j);
                            assert(!row_searched(window, stars@, j));
                        }
                    }
                }
                return None;
            }
            let mut x: u32 = window.left;
            while x < window.left + window.width
                invariant
                    window.left <= x <= window.left + window.width,
                    forall|i: int, j: int|
                        raster_before(i, j, x as int, y as int) ==> !#[trigger] constellation_at(
                            *self,
                            window,
                            vertex,
                            stars@,
                            rgb_offset,
                            i,
                            j,
                        ),
                decreases window.left + window.width - x,
            {
                let pixel: RgbColor = self.color(x, y);
                let place: Point = Point { x: x as i32, y: y as i32 };
                let held: bool = if vertex.range_compare(rgb_offset, &pixel).is_some() {
                    let drift: (i16, i16, i16) = (
                        pixel.0 as i16 - vertex.0 as i16,
                        pixel.1 as i16 - vertex.1 as i16,
                        pixel.2 as i16 - vertex.2 as i16,
                    );
                    match_relatives(self, window, &place, stars, &drift)
                } else {
                    false
                };
                if held {
                    let found: ColoredPoint = ColoredPoint { point: place, hex: pixel.to_hex() };
                    proof {
                        assert(row_searched(window, stars@, y as int));
                        assert(constellation_at(
                            *self,
                            window,
                            vertex,
                            stars@,
                            rgb_offset,
                            x as int,
                            y as int,
                        ));
                    }
                    return Some(found);
                }
                assert(!constellation_at(
                    *self,
                    window,
                    vertex,
                    stars@,
                    rgb_offset,
                    x as int,
                    y as int,
                ));
                x += 1;
            }
            y += 1;
        }
        None
    }

    /// Looks in a region of the frame for a constellation: a vertex colour,
    /// matched under the tolerance, and stars at fixed offsets from it whose
    /// colours must be exactly their own colour with the drift added that is
    /// measured at the vertex: what the frame shows there less the vertex
    /// colour. A star that points outside the region holds. With no star at
    /// all the search is that of `find_colors` for the vertex colour alone.
    pub fn find_relative_colors(
        &self,
        vertex_hex: HexColor,
        relative_points: Vec<ColoredPoint>,
        point: Point,
        size: Size,
        rgb_offset: RgbOffset,
    ) -> (r: Result<Option<ColoredPoint>, Error>)
        ensures
            relative_points@.len() == 0 ==> is_single_color_answer(
                *self,
                window_of(*self, point, size),
                vertex_hex,
                rgb_offset,
                r,
            ),
            relative_points@.len() > 0 ==> match r {
                Err(e) => constellation_fault(*self, vertex_hex@, relative_points@) == Some(e),
                Ok(answer) => constellation_fault(*self, vertex_hex@, relative_points@) is None
                    && is_constellation_answer(
                    *self,
                    window_of(*self, point, size),
                    color_of_hex(vertex_hex@)->0,
                    stars_of(relative_points@)->0,
                    rgb_offset,
                    answer,
                ),
            },
    {
        if relative_points.len() == 0 {
            return self.find_single_color(vertex_hex, point, size, rgb_offset);
        }
        if !self.is_valid() {
            return Err(Error::InvalidFrame);
        }
        let vertex: RgbColor = match parse_hex_color(vertex_hex.as_str()) {
            Some(vertex) => vertex,
            None => { return Err(Error::InvalidColor); },
        };
        let stars: Vec<Star> = match parse_stars(&relative_points) {
            Some(stars) => stars,
            None => { return Err(Error::InvalidColor); },
        };
        let window: Window = self.window(point, size);
        Ok(self.find_constellation(window, vertex, &stars, rgb_offset))
    }
}

/// A search for a constellation without stars answers as a search for its
/// vertex colour alone does: it refuses a frame whose buffer is too short and
/// a vertex that is no colour; else it answers with the first pixel, rows
/// read from the top and each from the left, that matches the colour, under
/// the colour's lower-case name; and with nothing exactly when no pixel
/// matches.
pub proof fn lemma_single_color_answer(
    frame: Frame,
    window: Window,
    text: HexColor,
    offset: RgbOffset,
    answer: Result<Option<ColoredPoint>, Error>,
)
    requires
        is_single_color_answer(frame, window, text, offset, answer),
    ensures
        answer is Err <==> !frame.fits() || color_of_hex(text@) is None,
        answer matches Err(e) ==> e == if !frame.fits() {
            Error::InvalidFrame
        } else {
            Error::InvalidColor
        },
        answer matches Ok(Some(found)) ==> found.hex@ == hex_text(color_of_hex(text@)->0)
            && is_first_match(
            frame,
            window,
            color_of_hex(text@)->0,
            offset,
            found.point.x as int,
            found.point.y as int,
        ),
        answer matches Ok(None) ==> no_match(frame, window, color_of_hex(text@)->0, offset),
        answer is Ok ==> (answer->Ok_0 is None <==> no_match(
            frame,
            window,
            color_of_hex(text@)->0,
            offset,
        )),
{
    let texts = seq![text];
    assert(texts[0] == text);
    if frame.fits() {
        if color_of_hex(text@) is None {
            assert(!all_hex(texts));
        } else {
            assert(all_hex(texts));
        }
    }
    match answer {
        Ok(None) => {
            let c = choose|c: int|
                0 <= c < texts.len() && #[trigger] no_match(frame, window, rgb_at(texts, c), offset);
            assert(c == 0);
        },
        Ok(Some(found)) => {
            let p = found.point;
            assert(matches_at(
                frame,
                window,
                color_of_hex(text@)->0,
                offset,
                p.x as int,
                p.y as int,
            ));
        },
        Err(_) => {},
    }
}

} // verus!
