//! The lantern: four 5x5 side panels and a 25-pixel top cap.
//!
//! Side panel `f` holds pixels `25 f .. 25 f + 25` row by row, the top row
//! nearest the cap. The cap holds pixels `100 .. 125`; by position on the cap:
//!
//! ```text
//! 20 15 10 5 0
//! 21 16 11 6 1
//! 22 17 12 7 2
//! 23 18 13 8 3
//! 24 19 14 9 4
//! ```
//!
//! Position 12 is the apex, positions 6, 7, 8, 11, 13, 16, 17, 18 form the
//! middle ring and the others the outer ring.
use vstd::prelude::*;

use crate::fixed::{clamp_int, one, Fixed, ONE};
use crate::color::Color;
use crate::pixelindex::{opt_view, FaceType, PixelIndex, PixelIterator, SIZE};

verus! {

/// Cap position to the cap position of the pixel above it (the apex has none).
pub open spec fn top_above_table() -> Seq<usize> {
    seq![6, 7, 7, 7, 8, 11, 12, 12, 12, 13, 11, 12, 12, 12, 13, 11, 12, 12, 12, 13, 16, 17, 17, 17, 18]
}

/// Cap position to the pixel below it, on the cap or on a side panel.
pub open spec fn top_below_table() -> Seq<usize> {
    seq![29, 28, 27, 26, 4, 51, 100, 102, 104, 3, 52, 110, 113, 114, 2, 53, 120, 122, 124, 1, 75, 76, 77, 78, 0]
}

/// Cap position to the cap position of the pixel on its left.
pub open spec fn top_left_table() -> Seq<usize> {
    seq![1, 2, 3, 4, 9, 0, 7, 8, 13, 14, 5, 6, 12, 18, 19, 10, 11, 16, 17, 24, 15, 20, 21, 22, 23]
}

/// Cap position to the cap position of the pixel on its right.
pub open spec fn top_right_table() -> Seq<usize> {
    seq![5, 0, 1, 2, 3, 10, 11, 6, 7, 4, 15, 16, 12, 8, 9, 20, 17, 18, 13, 14, 21, 22, 23, 24, 19]
}

/// Cap position to its ring: 0 the apex, 1 the middle ring, 2 the outer ring.
pub open spec fn top_radius_table() -> Seq<usize> {
    seq![2, 2, 2, 2, 2, 2, 1, 1, 1, 2, 2, 1, 0, 1, 2, 2, 1, 1, 1, 2, 2, 2, 2, 2, 2]
}

/// `k` sixteenths of a turn, as a raw fixed-point value.
pub open spec fn sixteenths(k: int) -> i32 {
    (k * one() / 16) as i32
}

/// `k` ninths of a turn, rounded down to a raw fixed-point value.
pub open spec fn ninths(k: int) -> i32 {
    (k * one() / 9) as i32
}

/// Cap position to its azimuth: outer ring in sixteenths, middle ring in ninths of a turn.
pub open spec fn top_angle_table() -> Seq<i32> {
    seq![
        sixteenths(8), sixteenths(7), sixteenths(6), sixteenths(5), sixteenths(4),
        sixteenths(9), ninths(4), ninths(3), ninths(2), sixteenths(3),
        sixteenths(10), ninths(5), 0, ninths(1), sixteenths(2),
        sixteenths(11), ninths(6), ninths(7), ninths(0), sixteenths(1),
        sixteenths(12), sixteenths(13), sixteenths(14), sixteenths(15), sixteenths(0),
    ]
}

/// Middle ring, by eighth of a turn: its cap position.
pub open spec fn ring1_table() -> Seq<usize> {
    seq![18, 13, 8, 7, 6, 11, 16, 17]
}

/// Outer ring, by sixteenth of a turn: its cap position.
pub open spec fn ring2_table() -> Seq<usize> {
    seq![24, 19, 14, 9, 4, 3, 2, 1, 0, 5, 10, 15, 20, 21, 22, 23]
}

/// Middle ring, by twentieth of a turn: its cap position, counted from 1.
pub open spec fn cylinder_ring1_table() -> Seq<usize> {
    seq![7, 7, 8, 9, 9, 9, 9, 14, 19, 19, 19, 19, 18, 17, 17, 17, 17, 12, 9, 9]
}

/// Outer ring, by twentieth of a turn: its cap position, counted from 1.
pub open spec fn cylinder_ring2_table() -> Seq<usize> {
    seq![1, 2, 3, 4, 5, 5, 10, 15, 20, 25, 25, 24, 23, 22, 21, 21, 16, 11, 6, 1]
}

/// Pixel of a side panel's top row to the cap position above it.
pub open spec fn side_to_top(face: int, x: int) -> int {
    if face == 0 {
        24 - 5 * x
    } else if face == 1 {
        4 - x
    } else if face == 2 {
        5 * x
    } else {
        20 + x
    }
}

/// The pixel above pixel `i`.
pub open spec fn index_above_spec(i: int) -> Option<int> {
    if i >= 100 {
        if i == 112 {
            None
        } else {
            Some(100 + top_above_table()[i - 100])
        }
    } else if i % 25 < 5 {
        Some(100 + side_to_top(i / 25, i % 25))
    } else {
        Some(i - 5)
    }
}

/// The pixel below pixel `i`.
pub open spec fn index_below_spec(i: int) -> Option<int> {
    if i >= 100 {
        Some(top_below_table()[i - 100] as int)
    } else if i % 25 >= 20 {
        None
    } else {
        Some(i + 5)
    }
}

/// The pixel left of pixel `i`; the side panels wrap round.
pub open spec fn index_left_spec(i: int) -> Option<int> {
    if i >= 100 {
        if i == 112 {
            None
        } else {
            Some(100 + top_left_table()[i - 100])
        }
    } else if (i % 25) % 5 == 0 {
        Some((i + 79) % 100)
    } else {
        Some(i - 1)
    }
}

/// The pixel right of pixel `i`; the side panels wrap round.
pub open spec fn index_right_spec(i: int) -> Option<int> {
    if i >= 100 {
        if i == 112 {
            None
        } else {
            Some(100 + top_right_table()[i - 100])
        }
    } else if (i % 25) % 5 == 4 {
        Some((i + 21) % 100)
    } else {
        Some(i + 1)
    }
}

/// Face of the lantern.
#[derive(Clone, Copy, Debug, PartialEq, Eq, Structural, Hash)]
pub enum LanternFace {
    North,
    East,
    South,
    West,
    Top,
}

/// The face that pixel `i` lies on.
pub open spec fn index_to_face_spec(i: int) -> LanternFace {
    if i < 25 {
        LanternFace::South
    } else if i < 50 {
        LanternFace::East
    } else if i < 75 {
        LanternFace::North
    } else if i < 100 {
        LanternFace::West
    } else {
        LanternFace::Top
    }
}

/// Raw (azimuth, elevation) of pixel `i`. A side pixel in column `c` of the
/// twenty round the lantern and row `y` from the top has azimuth `c / 20`
/// (rounded up) and elevation `(4 - y) / 7`; a cap pixel on ring `r` has
/// elevation `(7 - r) / 7` and the azimuth of its table entry.
pub open spec fn index_to_spherical_spec(i: int) -> (int, int) {
    if i < 100 {
        let c = (i / 25) * 5 + (i % 25) % 5;
        let y = (i % 25) / 5;
        ((c * one() + 19) / 20, (4 - y) * one() / 7)
    } else {
        let k = i - 100;
        (top_angle_table()[k] as int, (7 - top_radius_table()[k]) * one() / 7)
    }
}

/// Side pixel in column `x` of twenty and row `y` counted from the bottom.
pub open spec fn side_index(x: int, y: int) -> int {
    (x / 5) * 25 + (4 - y) * 5 + x % 5
}

/// Column of twenty that a raw azimuth falls in (the azimuth taken modulo one turn).
pub open spec fn column_of(dir: int) -> int {
    (dir % one()) * 20 / one()
}

/// Pixel at raw (azimuth, height) on the cylinder of the side panels: five rows
/// over heights `[0, 1)`, heights outside clamped to the nearest row.
pub open spec fn cylindrical_to_index_spec(dir: int, height: int) -> int {
    side_index(column_of(dir), clamp_int(height * 5 / one(), 0, 4))
}

/// Pixel at raw (azimuth, elevation): below elevation `5/8` the side panels,
/// five rows of eighths; above it the outer ring, the middle ring, then the apex.
pub open spec fn spherical_to_index_spec(dir: int, height: int) -> int {
    if height < 5 * one() / 8 {
        side_index(column_of(dir), clamp_int(height * 8 / one(), 0, 4))
    } else {
        let r = 7 - (if height * 8 / one() < 7 { height * 8 / one() } else { 7 });
        if r == 0 {
            112
        } else if r == 1 {
            100 + ring1_table()[(dir % one()) * 8 / one()]
        } else {
            100 + ring2_table()[(dir % one()) * 16 / one()]
        }
    }
}

/// Pixel addressed by whole-number `angle` (twentieths of a turn) and `height`
/// (0 to 4 the side rows from the bottom, 5 and 6 the cap rings, 7 and up the apex).
pub open spec fn cylinder_pixel_spec(angle: int, height: int) -> int {
    let face = (angle / 5) % 4;
    let a = angle % 20;
    if height < 5 {
        face * 25 + (a - face * 5) + 5 * (4 - height)
    } else {
        let b = 19 - (a + 10) % 20;
        let r = if height >= 7 { 0 } else { 7 - height };
        100 + (if r == 0 {
            13
        } else if r == 1 {
            cylinder_ring1_table()[b] as int
        } else {
            cylinder_ring2_table()[b] as int
        }) - 1
    }
}

/// A position on a face is one of twenty-five.
pub proof fn lemma_face_positions(k: int)
    requires
        0 <= k < 25,
    ensures
        k == 0 ||
        k == 1 ||
        k == 2 ||
        k == 3 ||
        k == 4 ||
        k == 5 ||
        k == 6 ||
        k == 7 ||
        k == 8 ||
        k == 9 ||
        k == 10 ||
        k == 11 ||
        k == 12 ||
        k == 13 ||
        k == 14 ||
        k == 15 ||
        k == 16 ||
        k == 17 ||
        k == 18 ||
        k == 19 ||
        k == 20 ||
        k == 21 ||
        k == 22 ||
        k == 23 ||
        k == 24,
{
}

proof fn lemma_tables_in_range()
    ensures
        forall|k: int| 0 <= k < 25 ==> #[trigger] top_above_table()[k] < 25,
        forall|k: int| 0 <= k < 25 ==> #[trigger] top_below_table()[k] < 125,
        forall|k: int| 0 <= k < 25 ==> #[trigger] top_left_table()[k] < 25,
        forall|k: int| 0 <= k < 25 ==> #[trigger] top_right_table()[k] < 25,
        forall|k: int| 0 <= k < 25 ==> #[trigger] top_radius_table()[k] <= 2,
        forall|k: int| 0 <= k < 25 ==> 0 <= #[trigger] top_angle_table()[k] < 65536,
        forall|k: int| 0 <= k < 8 ==> #[trigger] ring1_table()[k] < 25,
        forall|k: int| 0 <= k < 16 ==> #[trigger] ring2_table()[k] < 25,
        forall|k: int| 0 <= k < 20 ==> 1 <= #[trigger] cylinder_ring1_table()[k] <= 25,
        forall|k: int| 0 <= k < 20 ==> 1 <= #[trigger] cylinder_ring2_table()[k] <= 25,
{
    assert forall|k: int| 0 <= k < 25 implies {
        &&& top_above_table()[k] < 25
        &&& top_below_table()[k] < 125
        &&& top_left_table()[k] < 25
        &&& top_right_table()[k] < 25
        &&& top_radius_table()[k] <= 2
        &&& 0 <= top_angle_table()[k] < 65536
        &&& k < 8 ==> ring1_table()[k] < 25
        &&& k < 16 ==> ring2_table()[k] < 25
        &&& k < 20 ==> 1 <= cylinder_ring1_table()[k] <= 25
        &&& k < 20 ==> 1 <= cylinder_ring2_table()[k] <= 25
    } by {
        lemma_face_positions(k);
    }
}

fn top_above_at(k: usize) -> (r: usize)
    requires
        k < 25,
    ensures
        r == top_above_table()[k as int],
{
    let t: [usize; 25] = [6, 7, 7, 7, 8, 11, 12, 12, 12, 13, 11, 12, 12, 12, 13, 11, 12, 12, 12, 13, 16, 17, 17, 17, 18];
    proof {
        assert(t@ =~= top_above_table());
    }
    t[k]
}

fn top_below_at(k: usize) -> (r: usize)
    requires
        k < 25,
    ensures
        r == top_below_table()[k as int],
{
    let t: [usize; 25] = [29, 28, 27, 26, 4, 51, 100, 102, 104, 3, 52, 110, 113, 114, 2, 53, 120, 122, 124, 1, 75, 76, 77, 78, 0];
    proof {
        assert(t@ =~= top_below_table());
    }
    t[k]
}

fn top_left_at(k: usize) -> (r: usize)
    requires
        k < 25,
    ensures
        r == top_left_table()[k as int],
{
    let t: [usize; 25] = [1, 2, 3, 4, 9, 0, 7, 8, 13, 14, 5, 6, 12, 18, 19, 10, 11, 16, 17, 24, 15, 20, 21, 22, 23];
    proof {
        assert(t@ =~= top_left_table());
    }
    t[k]
}

fn top_right_at(k: usize) -> (r: usize)
    requires
        k < 25,
    ensures
        r == top_right_table()[k as int],
{
    let t: [usize; 25] = [5, 0, 1, 2, 3, 10, 11, 6, 7, 4, 15, 16, 12, 8, 9, 20, 17, 18, 13, 14, 21, 22, 23, 24, 19];
    proof {
        assert(t@ =~= top_right_table());
    }
    t[k]
}

fn top_radius_at(k: usize) -> (r: usize)
    requires
        k < 25,
    ensures
        r == top_radius_table()[k as int],
{
    let t: [usize; 25] = [2, 2, 2, 2, 2, 2, 1, 1, 1, 2, 2, 1, 0, 1, 2, 2, 1, 1, 1, 2, 2, 2, 2, 2, 2];
    proof {
        assert(t@ =~= top_radius_table());
    }
    t[k]
}

fn top_angle_at(k: usize) -> (r: i32)
    requires
        k < 25,
    ensures
        r == top_angle_table()[k as int],
{
    let t: [i32; 25] = [
        32768, 28672, 24576, 20480, 16384, 36864, 29127, 21845, 14563, 12288, 40960, 36408, 0,
        7281, 8192, 45056, 43690, 50972, 0, 4096, 49152, 53248, 57344, 61440, 0,
    ];
    proof {
        assert(t@ =~= top_angle_table());
    }
    t[k]
}

fn ring1_at(k: usize) -> (r: usize)
    requires
        k < 8,
    ensures
        r == ring1_table()[k as int],
{
    let t: [usize; 8] = [18, 13, 8, 7, 6, 11, 16, 17];
    proof {
        assert(t@ =~= ring1_table());
    }
    t[k]
}

fn ring2_at(k: usize) -> (r: usize)
    requires
        k < 16,
    ensures
        r == ring2_table()[k as int],
{
    let t: [usize; 16] = [24, 19, 14, 9, 4, 3, 2, 1, 0, 5, 10, 15, 20, 21, 22, 23];
    proof {
        assert(t@ =~= ring2_table());
    }
    t[k]
}

fn cylinder_ring1_at(k: usize) -> (r: usize)
    requires
        k < 20,
    ensures
        r == cylinder_ring1_table()[k as int],
{
    let t: [usize; 20] = [7, 7, 8, 9, 9, 9, 9, 14, 19, 19, 19, 19, 18, 17, 17, 17, 17, 12, 9, 9];
    proof {
        assert(t@ =~= cylinder_ring1_table());
    }
    t[k]
}

fn cylinder_ring2_at(k: usize) -> (r: usize)
    requires
        k < 20,
    ensures
        r == cylinder_ring2_table()[k as int],
{
    let t: [usize; 20] = [1, 2, 3, 4, 5, 5, 10, 15, 20, 25, 25, 24, 23, 22, 21, 21, 16, 11, 6, 1];
    proof {
        assert(t@ =~= cylinder_ring2_table());
    }
    t[k]
}

/// The pixel in column `x` of twenty and row `y` counted from the bottom.
fn side_pixel(x: usize, y: usize) -> (r: PixelIndex)
    requires
        x < 20,
        y < 5,
    ensures
        r@ == side_index(x as int, y as int),
        r == PixelIndex::spec_new(side_index(x as int, y as int) as nat),
{
    PixelIndex::new((x / 5) * 25 + (4 - y) * 5 + x % 5)
}

/// Column of twenty that an azimuth falls in.
fn column(dir: Fixed) -> (r: usize)
    ensures
        r == column_of(dir@),
        r < 20,
{
    let f = dir.fract();
    ((f.raw() as i64 * 20) / ONE as i64) as usize
}

/// Lantern model: the shared colour and one colour per pixel.
pub struct Lantern {
    pub color: Color,
    pub pixels: [Color; 125],
}

impl Lantern {
    /// A lantern with every pixel set to `color`.
    pub fn new(color: Color) -> (r: Lantern)
        ensures
            r.color == color,
            forall|i: int| 0 <= i < SIZE ==> r.pixels[i] == color,
    {
        let pixels = [color; 125];
        Lantern { color, pixels }
    }

    /// Every pixel set back to the lantern's own colour.
    pub fn clear(&mut self)
        ensures
            final(self).color == old(self).color,
            forall|i: int| 0 <= i < SIZE ==> final(self).pixels[i] == old(self).color,
    {
        self.pixels = [self.color; 125];
    }

    /// The colour of one pixel.
    pub fn get(&self, idx: PixelIndex) -> (r: Color)
        ensures
            r == self.pixels[idx@ as int],
    {
        proof {
            idx.lemma_in_range();
        }
        self.pixels[idx.usize()]
    }

    /// Sets the colour of one pixel.
    pub fn set(&mut self, idx: PixelIndex, c: Color)
        ensures
            final(self).color == old(self).color,
            final(self).pixels@ == old(self).pixels@.update(idx@ as int, c),
    {
        proof {
            idx.lemma_in_range();
        }
        self.pixels[idx.usize()] = c;
    }

    /// Sets every pixel to `c`.
    pub fn set_all(&mut self, c: Color)
        ensures
            final(self).color == old(self).color,
            forall|i: int| 0 <= i < SIZE ==> final(self).pixels[i] == c,
    {
        self.pixels = [c; 125];
    }

    /// Lowers the lightness of every pixel by `d`.
    pub fn darken(&mut self, d: Fixed)
        ensures
            final(self).color == old(self).color,
            forall|i: int| 0 <= i < SIZE ==> final(self).pixels[i] == old(self).pixels[i].darkened(d@),
    {
        let mut i: usize = 0;
        while i < SIZE
            invariant
                i <= SIZE,
                self.color == old(self).color,
                forall|j: int| 0 <= j < i ==> self.pixels[j] == old(self).pixels[j].darkened(d@),
                forall|j: int| i <= j < SIZE ==> self.pixels[j] == old(self).pixels[j],
            decreases SIZE - i,
        {
            self.pixels[i] = self.pixels[i].darken(d);
            i += 1;
        }
    }

    /// Raises the chroma of every pixel by `d`.
    pub fn saturate(&mut self, d: Fixed)
        ensures
            final(self).color == old(self).color,
            forall|i: int| 0 <= i < SIZE ==> final(self).pixels[i] == old(self).pixels[i].saturated(d@),
    {
        let mut i: usize = 0;
        while i < SIZE
            invariant
                i <= SIZE,
                self.color == old(self).color,
                forall|j: int| 0 <= j < i ==> self.pixels[j] == old(self).pixels[j].saturated(d@),
                forall|j: int| i <= j < SIZE ==> self.pixels[j] == old(self).pixels[j],
            decreases SIZE - i,
        {
            self.pixels[i] = self.pixels[i].saturate(d);
            i += 1;
        }
    }

    /// Turns the hue of every pixel by `d` degrees.
    pub fn shift_hue_all(&mut self, d: Fixed)
        ensures
            final(self).color == old(self).color,
            forall|i: int| 0 <= i < SIZE ==> final(self).pixels[i] == old(self).pixels[i].shifted(d@),
    {
        let mut i: usize = 0;
        while i < SIZE
            invariant
                i <= SIZE,
                self.color == old(self).color,
                forall|j: int| 0 <= j < i ==> self.pixels[j] == old(self).pixels[j].shifted(d@),
                forall|j: int| i <= j < SIZE ==> self.pixels[j] == old(self).pixels[j],
            decreases SIZE - i,
        {
            self.pixels[i] = self.pixels[i].shift_hue(d);
            i += 1;
        }
    }

    /// The colour of the pixel at whole-number `angle` and `height`
    /// (see [`Lantern::cylinder_pixel_index`]).
    pub fn get_cylinder_pixel(&self, angle: u8, height: u8) -> (r: Color)
        ensures
            r == self.pixels[cylinder_pixel_spec(angle as int, height as int)],
    {
        self.get(Lantern::cylinder_pixel_index(angle, height))
    }

    /// Sets the pixel at whole-number `angle` and `height`.
    pub fn set_cylinder_pixel(&mut self, angle: u8, height: u8, c: Color)
        ensures
            final(self).color == old(self).color,
            final(self).pixels@ == old(self).pixels@.update(cylinder_pixel_spec(angle as int, height as int), c),
    {
        let idx = Lantern::cylinder_pixel_index(angle, height);
        self.set(idx, c);
    }

    /// Sets the side pixel at continuous (azimuth, height).
    pub fn set_cylindrical(&mut self, dir: Fixed, height: Fixed, c: Color)
        ensures
            final(self).color == old(self).color,
            final(self).pixels@ == old(self).pixels@.update(cylindrical_to_index_spec(dir@, height@), c),
    {
        let idx = Lantern::cylindrical_to_index(dir, height);
        self.set(idx, c);
    }

    /// Sets the pixel at continuous (azimuth, elevation).
    pub fn set_spherical(&mut self, dir: Fixed, height: Fixed, c: Color)
        ensures
            final(self).color == old(self).color,
            final(self).pixels@ == old(self).pixels@.update(spherical_to_index_spec(dir@, height@), c),
    {
        let idx = Lantern::spherical_to_index(dir, height);
        self.set(idx, c);
    }

    /// A walk over every pixel in ascending order.
    pub fn iter_pixels(&self) -> (r: PixelIterator)
        ensures
            r == PixelIterator::All(0),
    {
        PixelIterator::all()
    }

    /// A walk down the column that starts at azimuth `col` on the top row of the side panels.
    pub fn column_iter(&self, col: Fixed) -> (r: PixelIterator)
        ensures
            r == PixelIterator::Column(Some(PixelIndex::spec_new(cylindrical_to_index_spec(col@, one()) as nat))),
    {
        let start = Lantern::cylindrical_to_index(col, Fixed(ONE));
        PixelIterator::column(start)
    }
}

impl Lantern {
    /// The pixel above, if any: a side panel's top row leads onto the cap's
    /// outer ring, the cap's rings lead inwards, the apex has none.
    pub fn index_above(idx: PixelIndex) -> (r: Option<PixelIndex>)
        ensures
            opt_view(r) == index_above_spec(idx@ as int),
    {
        proof {
            idx.lemma_in_range();
            lemma_tables_in_range();
        }
        let i = idx.usize();
        if i >= 100 {
            let k = i - 100;
            if k == 12 {
                return None;
            }
            return Some(PixelIndex::new(top_above_at(k) + 100));
        }
        let x = i % 25;
        if x < 5 {
            let f = i / 25;
            let t = if f == 0 {
                24 - 5 * x
            } else if f == 1 {
                4 - x
            } else if f == 2 {
                x * 5
            } else {
                20 + x
            };
            Some(PixelIndex::new(t + 100))
        } else {
            Some(PixelIndex::new(i - 5))
        }
    }

    /// The pixel below, if any: the bottom row of a side panel has none.
    pub fn index_below(idx: PixelIndex) -> (r: Option<PixelIndex>)
        ensures
            opt_view(r) == index_below_spec(idx@ as int),
    {
        proof {
            idx.lemma_in_range();
            lemma_tables_in_range();
        }
        let i = idx.usize();
        if i >= 100 {
            return Some(PixelIndex::new(top_below_at(i - 100)));
        }
        if i % 25 >= 20 {
            None
        } else {
            Some(PixelIndex::new(i + 5))
        }
    }

    /// The pixel to the left, if any; the side panels wrap round.
    pub fn index_left(idx: PixelIndex) -> (r: Option<PixelIndex>)
        ensures
            opt_view(r) == index_left_spec(idx@ as int),
    {
        proof {
            idx.lemma_in_range();
            lemma_tables_in_range();
        }
        let i = idx.usize();
        if i >= 100 {
            let k = i - 100;
            if k == 12 {
                return None;
            }
            return Some(PixelIndex::new(top_left_at(k) + 100));
        }
        if (i % 25) % 5 == 0 {
            Some(PixelIndex::new((i + 79) % 100))
        } else {
            Some(PixelIndex::new(i - 1))
        }
    }

    /// The pixel to the right, if any; the side panels wrap round.
    pub fn index_right(idx: PixelIndex) -> (r: Option<PixelIndex>)
        ensures
            opt_view(r) == index_right_spec(idx@ as int),
    {
        proof {
            idx.lemma_in_range();
            lemma_tables_in_range();
        }
        let i = idx.usize();
        if i >= 100 {
            let k = i - 100;
            if k == 12 {
                return None;
            }
            return Some(PixelIndex::new(top_right_at(k) + 100));
        }
        if (i % 25) % 5 == 4 {
            Some(PixelIndex::new((i + 21) % 100))
        } else {
            Some(PixelIndex::new(i + 1))
        }
    }

    /// The face a pixel lies on.
    pub fn index_to_face(idx: PixelIndex) -> (r: LanternFace)
        ensures
            r == index_to_face_spec(idx@ as int),
    {
        let i = idx.usize();
        if i < 25 {
            LanternFace::South
        } else if i < 50 {
            LanternFace::East
        } else if i < 75 {
            LanternFace::North
        } else if i < 100 {
            LanternFace::West
        } else {
            LanternFace::Top
        }
    }

    /// Whether a pixel lies on a side panel or on the cap.
    pub fn index_to_face_type(idx: PixelIndex) -> (r: FaceType)
        ensures
            r == (if idx@ >= 100 { FaceType::Top } else { FaceType::Side }),
    {
        match Lantern::index_to_face(idx) {
            LanternFace::Top => FaceType::Top,
            _ => FaceType::Side,
        }
    }

    /// Continuous (azimuth, elevation) of a pixel.
    pub fn index_to_spherical(idx: PixelIndex) -> (r: (Fixed, Fixed))
        ensures
            (r.0@, r.1@) == index_to_spherical_spec(idx@ as int),
            0 <= r.0@ < one(),
            0 <= r.1@ <= one(),
    {
        proof {
            idx.lemma_in_range();
            lemma_tables_in_range();
        }
        let i = idx.usize();
        if i < 100 {
            let c = (i / 25) * 5 + (i % 25) % 5;
            let y = (i % 25) / 5;
            let az = ((c as i64 * ONE as i64 + 19) / 20) as i32;
            let el = (((4 - y) as i64 * ONE as i64) / 7) as i32;
            (Fixed(az), Fixed(el))
        } else {
            let k = i - 100;
            let el = (((7 - top_radius_at(k)) as i64 * ONE as i64) / 7) as i32;
            (Fixed(top_angle_at(k)), Fixed(el))
        }
    }

    /// The side pixel at (azimuth, height): twenty columns round the lantern,
    /// five rows over heights `[0, 1)`, heights outside clamped to the nearest row.
    pub fn cylindrical_to_index(dir: Fixed, height: Fixed) -> (r: PixelIndex)
        ensures
            r@ == cylindrical_to_index_spec(dir@, height@),
            r == PixelIndex::spec_new(cylindrical_to_index_spec(dir@, height@) as nat),
    {
        let x = column(dir);
        let y = clamp_row(height.raw() as i64 * 5 / ONE as i64);
        side_pixel(x, y)
    }

    /// The pixel at (azimuth, elevation): side panels below elevation `5/8`,
    /// then the cap's outer ring, middle ring and apex.
    pub fn spherical_to_index(dir: Fixed, height: Fixed) -> (r: PixelIndex)
        ensures
            r@ == spherical_to_index_spec(dir@, height@),
    {
        proof {
            lemma_tables_in_range();
        }
        let h = height.raw() as i64;
        if h < 5 * ONE as i64 / 8 {
            let x = column(dir);
            let y = clamp_row(crate::fixed::div_floor(h * 8, ONE as i64));
            return side_pixel(x, y);
        }
        let e = crate::fixed::div_floor(h * 8, ONE as i64);
        let r = 7 - (if e < 7 { e } else { 7 });
        let f = dir.fract().raw() as i64;
        let top = if r == 0 {
            12
        } else if r == 1 {
            ring1_at(((f * 8) / ONE as i64) as usize)
        } else {
            ring2_at(((f * 16) / ONE as i64) as usize)
        };
        PixelIndex::new(100 + top)
    }

    /// The apex of the cap.
    pub fn index_top() -> (r: Option<PixelIndex>)
        ensures
            opt_view(r) == Some(112int),
    {
        Some(PixelIndex::new(112))
    }

    /// The pixel at whole-number `angle` (twentieths of a turn) and `height`
    /// (0 to 4 the side rows from the bottom, 5 and 6 the cap rings, 7 and up the apex).
    pub fn cylinder_pixel_index(angle: u8, height: u8) -> (r: PixelIndex)
        ensures
            r@ == cylinder_pixel_spec(angle as int, height as int),
    {
        proof {
            lemma_tables_in_range();
        }
        let face = ((angle / 5) % 4) as usize;
        let angle = (angle % 20) as usize;
        let x = angle - face * 5;
        if height < 5 {
            let y = 4 - height as usize;
            PixelIndex::new(face * 25 + x + 5 * y)
        } else {
            let b = 19 - (angle + 10) % 20;
            let r: usize = if height >= 7 { 0 } else { 7 - height as usize };
            let offset = if r == 0 {
                13
            } else if r == 1 {
                cylinder_ring1_at(b)
            } else {
                cylinder_ring2_at(b)
            };
            PixelIndex::new(100 + offset - 1)
        }
    }
}

/// A row number from a whole-number height, clamped to `[0, 4]`.
fn clamp_row(v: i64) -> (r: usize)
    ensures
        r == clamp_int(v as int, 0, 4),
{
    if v < 0 {
        0
    } else if v > 4 {
        4
    } else {
        v as usize
    }
}

/// Going down from a pixel and then up again returns to it, wherever there is
/// a pixel below; the cap's rings fold onto each other, but every pixel below
/// leads back up to the one it came from.
pub proof fn lemma_above_below(p: PixelIndex)
    requires
        index_below_spec(p@ as int) is Some,
    ensures
        index_above_spec(index_below_spec(p@ as int)->0) == Some(p@ as int),
{
    p.lemma_in_range();
    let i = p@ as int;
    if i >= 100 {
        lemma_face_positions(i - 100);
    }
}

/// The pixel at a pixel's own (azimuth, elevation) is that pixel, on every
/// side pixel, the apex and the outer ring of the cap. The middle ring is left
/// out: its azimuths are ninths of a turn but it is looked up by eighths, so
/// all of it but the pixel at azimuth zero folds onto a neighbour.
pub proof fn lemma_spherical_round_trip(p: PixelIndex)
    requires
        !(p@ >= 100 && top_radius_table()[p@ - 100] == 1 && p@ != 118),
    ensures
        ({
            let (az, el) = index_to_spherical_spec(p@ as int);
            spherical_to_index_spec(az, el) == p@
        }),
{
    p.lemma_in_range();
    let i = p@ as int;
    if i < 100 {
        let f = i / 25;
        let k = i % 25;
        assert(i == 25 * f + k);
        lemma_face_positions(k);
        assert(0 <= f < 4);
        assert(f == 0 || f == 1 || f == 2 || f == 3);
    } else {
        lemma_face_positions(i - 100);
    }
}

/// Turning every pixel's hue by `d` and then by `-d` gives back the pixels,
/// wherever the hues lie in `[0, 360)` and `-d` is representable.
pub proof fn lemma_shift_hue_all_inverse(px: Seq<Color>, d: Fixed)
    requires
        d@ > i32::MIN,
        forall|i: int| 0 <= i < px.len() ==> (#[trigger] px[i]).has_canonical_hue(),
    ensures
        forall|i: int|
            0 <= i < px.len() ==> (#[trigger] px[i]).shifted(d@).shifted(crate::fixed::clamp_i32(-d@)) == px[i],
{
    assert forall|i: int| 0 <= i < px.len() implies (#[trigger] px[i]).shifted(d@).shifted(
        crate::fixed::clamp_i32(-d@),
    ) == px[i] by {
        crate::color::lemma_shift_hue_inverse(px[i], d);
    }
}

} // verus!
