//! Fire: a heat value per pixel, blown sideways by gusts of wind, rising and
//! cooling as it goes up, fed again along the bottom row.
use vstd::prelude::*;

use rand::rngs::SmallRng;

use crate::color::Color;
use crate::fixed::{clamp_i32, clamp_int, one, Fixed, ONE};
use crate::model::lantern::{
    index_above_spec, index_below_spec, index_left_spec, index_right_spec, Lantern,
};
use crate::pixelindex::{opt_view, PixelIndex, SIZE};
use crate::rng::{gen_range_i32, gen_ratio, seeded};

verus! {

/// Sum of a sequence of integers.
pub open spec fn sum(s: Seq<int>) -> int
    decreases s.len(),
{
    if s.len() == 0 {
        0
    } else {
        sum(s.drop_last()) + s.last()
    }
}

/// The colour of a pixel with heat `h` (raw), given the ambient colour and the
/// hue shift (raw degrees) of a cold pixel: lightness and chroma scaled by the
/// heat clamped to `[0, 1]`, the hue turned by the shift times one minus that heat.
pub open spec fn flame_pixel(color: Color, h: int, shift: int) -> Color {
    let v = clamp_int(h, 0, one());
    Color {
        l: Fixed(clamp_i32((color.l@ * v) / one()) as i32),
        chroma: Fixed(clamp_i32((color.chroma@ * v) / one()) as i32),
        hue: color.hue,
    }.shifted(clamp_i32((shift * (one() - v)) / one()))
}

/// The random values that one pixel's turn in a frame uses.
#[derive(Clone, Copy, Debug, PartialEq, Eq, Structural)]
pub struct PixelDraws {
    /// Whether the wind blows into this pixel.
    pub blow_hit: bool,
    /// Heat the wind carries in.
    pub blow_amount: Fixed,
    /// Heat that rises to the pixel above.
    pub rise_amount: Fixed,
    /// Whether the pixel above cools.
    pub cool_hit: bool,
    /// Heat the pixel above loses when it cools.
    pub cool_amount: Fixed,
    /// Fuel added to a bottom-row pixel.
    pub fuel: Fixed,
}

/// Heat `h` after moving `draw` (or all of `from`'s heat if that is less) from
/// `from` to `to`; what would take `to` over `max` is lost.
pub open spec fn flow_heat(h: Seq<int>, from: int, to: int, draw: int, max: int) -> Seq<int> {
    let v = if draw <= h[from] { draw } else { h[from] };
    let h1 = h.update(from, h[from] - v);
    h1.update(to, if h1[to] + v <= max { h1[to] + v } else { max })
}

/// Heat `h` after cooling `idx`: by `amount` down to zero when `hit`; the apex,
/// with nothing above it, goes cold at once.
pub open spec fn cool_heat(h: Seq<int>, idx: int, hit: bool, amount: int) -> Seq<int> {
    h.update(
        idx,
        if index_above_spec(idx) is None {
            0
        } else if hit {
            if h[idx] - amount >= 0 {
                h[idx] - amount
            } else {
                0
            }
        } else {
            h[idx]
        },
    )
}

/// Heat `h` after feeding `idx`: a bottom-row pixel is raised to at least
/// `fuel_min`, gets `fuel` more, and is capped at `fuel_max`; others are left alone.
pub open spec fn feed_heat(h: Seq<int>, idx: int, fuel: int, fuel_min: int, fuel_max: int) -> Seq<int> {
    if index_below_spec(idx) is None {
        let base = if h[idx] >= fuel_min { h[idx] } else { fuel_min };
        h.update(idx, if base + fuel <= fuel_max { base + fuel } else { fuel_max })
    } else {
        h
    }
}

/// Heat `h` after the wind's turn at `idx`: when the draw hits, heat flows in
/// from the left neighbour under a negative wind, from the right one otherwise.
pub open spec fn blow_heat(h: Seq<int>, wind: int, idx: int, d: PixelDraws, max: int) -> Seq<int> {
    if d.blow_hit {
        match (if wind < 0 { index_left_spec(idx) } else { index_right_spec(idx) }) {
            Some(src) => flow_heat(h, src, idx, d.blow_amount@, max),
            None => h,
        }
    } else {
        h
    }
}

/// Heat `h` after `idx` rises: heat flows to the pixel above, which then cools.
pub open spec fn rise_heat(h: Seq<int>, idx: int, d: PixelDraws, max: int) -> Seq<int> {
    match index_above_spec(idx) {
        Some(up) => cool_heat(flow_heat(h, idx, up, d.rise_amount@, max), up, d.cool_hit, d.cool_amount@),
        None => h,
    }
}

/// Heat after the first `n` pixels, in index order, have each been blown,
/// risen and fed, starting from heat `h` under wind `wind`.
pub open spec fn frame_heat(
    h: Seq<int>,
    wind: int,
    max: int,
    fuel_min: int,
    fuel_max: int,
    d: Seq<PixelDraws>,
    n: nat,
) -> Seq<int>
    decreases n,
{
    if n == 0 {
        h
    } else {
        let i = n - 1;
        let prev = frame_heat(h, wind, max, fuel_min, fuel_max, d, (n - 1) as nat);
        feed_heat(
            rise_heat(blow_heat(prev, wind, i, d[i], max), i, d[i], max),
            i,
            d[i].fuel@,
            fuel_min,
            fuel_max,
        )
    }
}

/// Fire effect state.
pub struct Flame {
    cells: [Fixed; 125],
    wind: Fixed,
    gust_duration: u32,
    flow_min: Fixed,
    flow_max: Fixed,
    cool_min: Fixed,
    cool_max: Fixed,
    fuel_min: Fixed,
    fuel_max: Fixed,
    heat_max: Fixed,
    hue_shift: Fixed,
    rng: SmallRng,
}

impl Flame {
    /// Heat of every pixel, raw.
    pub closed spec fn heat(self) -> Seq<int> {
        self.cells@.map_values(|c: Fixed| c@)
    }

    /// Most heat a pixel can hold, raw.
    pub closed spec fn heat_max(self) -> int {
        self.heat_max@
    }

    /// The wind, raw: negative blows from the left, positive from the right.
    pub closed spec fn wind(self) -> int {
        self.wind@
    }

    /// The wind changes with chance one in this many per frame.
    pub closed spec fn gust_duration(self) -> int {
        self.gust_duration as int
    }

    /// Least heat that flows in one move, raw.
    pub closed spec fn flow_min(self) -> int {
        self.flow_min@
    }

    /// Bound (exclusive) of the heat that flows in one move, raw.
    pub closed spec fn flow_max(self) -> int {
        self.flow_max@
    }

    /// Least amount that one cooling step takes, raw.
    pub closed spec fn cool_min(self) -> int {
        self.cool_min@
    }

    /// Bound (exclusive) of the amount that one cooling step takes, raw.
    pub closed spec fn cool_max(self) -> int {
        self.cool_max@
    }

    /// Least heat a bottom-row pixel is topped up to, raw.
    pub closed spec fn fuel_min(self) -> int {
        self.fuel_min@
    }

    /// Most heat a bottom-row pixel is topped up to, raw.
    pub closed spec fn fuel_max(self) -> int {
        self.fuel_max@
    }

    /// Hue shift of a cold pixel, raw degrees.
    pub closed spec fn hue_shift(self) -> int {
        self.hue_shift@
    }

    /// The parameters are consistent, the wind lies in `[-1, 1]` and every
    /// pixel's heat in `[0, heat_max]`.
    pub open spec fn wf(self) -> bool {
        &&& 0 <= self.flow_min() < self.flow_max() <= one()
        &&& 0 <= self.cool_min() < self.cool_max() <= one()
        &&& 0 <= self.fuel_min() <= self.fuel_max() <= self.heat_max() <= 100 * one()
        &&& self.gust_duration() > 0
        &&& -one() <= self.wind() <= one()
        &&& self.heat().len() == SIZE
        &&& forall|i: int| 0 <= i < SIZE ==> 0 <= #[trigger] self.heat()[i] <= self.heat_max()
    }

    /// Same parameters (everything but the heat, the wind and the generator).
    pub open spec fn same_params(self, o: Flame) -> bool {
        &&& self.gust_duration() == o.gust_duration()
        &&& self.flow_min() == o.flow_min()
        &&& self.flow_max() == o.flow_max()
        &&& self.cool_min() == o.cool_min()
        &&& self.cool_max() == o.cool_max()
        &&& self.fuel_min() == o.fuel_min()
        &&& self.fuel_max() == o.fuel_max()
        &&& self.heat_max() == o.heat_max()
        &&& self.hue_shift() == o.hue_shift()
    }

    /// The state that [`Flame::default`] builds: the bottom row at heat one,
    /// the rest cold, no wind, and the default parameters.
    pub open spec fn is_default(self) -> bool {
        &&& self.heat().len() == SIZE
        &&& forall|i: int|
            0 <= i < SIZE ==> #[trigger] self.heat()[i] == (if index_below_spec(i) is None {
                one()
            } else {
                0
            })
        &&& self.wind() == 0
        &&& self.gust_duration() == 200
        &&& self.flow_min() == one() / 10
        &&& self.flow_max() == one() / 2
        &&& self.cool_min() == one() / 50
        &&& self.cool_max() == one() / 10
        &&& self.fuel_min() == 19 * one() / 20
        &&& self.fuel_max() == 2 * one()
        &&& self.heat_max() == 5 * one() / 2
        &&& self.hue_shift() == 70 * one()
    }

    /// Every draw lies in the range the fire draws it from: heat that moves in
    /// `[flow_min, flow_max)`, cooling in `[cool_min, cool_max)`, one set per pixel.
    pub open spec fn draws_in_range(self, d: Seq<PixelDraws>) -> bool {
        &&& d.len() == SIZE
        &&& forall|i: int|
            0 <= i < SIZE ==> {
                let p = #[trigger] d[i];
                &&& self.flow_min() <= p.blow_amount@ < self.flow_max()
                &&& self.flow_min() <= p.rise_amount@ < self.flow_max()
                &&& self.flow_min() <= p.fuel@ < self.flow_max()
                &&& self.cool_min() <= p.cool_amount@ < self.cool_max()
            }
    }

    /// The heat after one frame with draws `d`.
    pub open spec fn next_heat(self, d: Seq<PixelDraws>) -> Seq<int> {
        frame_heat(self.heat(), self.wind(), self.heat_max(), self.fuel_min(), self.fuel_max(), d, SIZE as nat)
    }

    /// `next` is this fire one frame on: the same parameters, the heat moved
    /// by some frame of in-range draws, and the wind either kept or changed to
    /// a value in `[-1, 1)`.
    pub open spec fn ticked(self, next: Flame) -> bool {
        &&& next.same_params(self)
        &&& exists|d: Seq<PixelDraws>| self.draws_in_range(d) && #[trigger] self.next_heat(d) == next.heat()
        &&& next.wind() == self.wind() || -one() <= next.wind() < one()
    }

    /// A fire with the bottom row lit at heat one, everything else cold, no wind,
    /// and the generator seeded with a fixed seed.
    pub fn default() -> (r: Flame)
        ensures
            r.wf(),
            r.is_default(),
    {
        let mut cells = [Fixed(0); 125];
        let mut i: usize = 0;
        while i < SIZE
            invariant
                i <= SIZE,
                forall|j: int|
                    0 <= j < i ==> #[trigger] cells[j]@ == (if index_below_spec(j) is None {
                        one()
                    } else {
                        0
                    }),
                forall|j: int| i <= j < SIZE ==> #[trigger] cells[j]@ == 0,
            decreases SIZE - i,
        {
            let idx = PixelIndex::new(i);
            if idx.down().is_none() {
                cells[i] = Fixed(ONE);
            }
            i += 1;
        }
        let r = Flame {
            cells,
            wind: Fixed(0),
            gust_duration: 200,
            flow_min: Fixed::from_ratio(1, 10),
            flow_max: Fixed::from_ratio(1, 2),
            cool_min: Fixed::from_ratio(1, 50),
            cool_max: Fixed::from_ratio(1, 10),
            fuel_min: Fixed::from_ratio(19, 20),
            fuel_max: Fixed::from_int(2),
            heat_max: Fixed::from_ratio(5, 2),
            hue_shift: Fixed::from_int(70),
            rng: seeded(1234),
        };
        assert(forall|j: int| 0 <= j < SIZE ==> #[trigger] r.heat()[j] == r.cells[j]@);
        r
    }

    /// Heat of one pixel.
    pub fn heat_of(&self, idx: PixelIndex) -> (r: Fixed)
        ensures
            r@ == self.heat()[idx@ as int],
    {
        proof {
            idx.lemma_in_range();
        }
        self.cells[idx.usize()]
    }

    /// Most heat a pixel can hold.
    pub fn max_heat(&self) -> (r: Fixed)
        ensures
            r@ == self.heat_max(),
    {
        self.heat_max
    }

    /// The wind: negative blows from the left, positive from the right.
    pub fn wind_now(&self) -> (r: Fixed)
        ensures
            r@ == self.wind(),
    {
        self.wind
    }

    /// Moves heat from `from` to `to` (see [`flow_heat`]).
    pub fn flow(&mut self, from: PixelIndex, to: PixelIndex, draw: Fixed)
        requires
            old(self).wf(),
            0 <= draw@,
        ensures
            final(self).wf(),
            final(self).same_params(*old(self)),
            final(self).wind() == old(self).wind(),
            final(self).heat() == flow_heat(old(self).heat(), from@ as int, to@ as int, draw@, old(self).heat_max()),
    {
        proof {
            from.lemma_in_range();
            to.lemma_in_range();
        }
        let f = from.usize();
        let t = to.usize();
        assert(self.heat()[f as int] == self.cells[f as int]@);
        assert(self.heat()[t as int] == self.cells[t as int]@);
        let v = draw.min(self.cells[f]);
        self.cells[f] = Fixed(self.cells[f].0 - v.0);
        let nt = self.cells[t].saturating_add(v).min(self.heat_max);
        self.cells[t] = nt;
        proof {
            let h = flow_heat(old(self).heat(), from@ as int, to@ as int, draw@, old(self).heat_max());
            assert(self.heat() =~= h);
        }
    }

    /// Cools `idx` (see [`cool_heat`]).
    pub fn cool_by(&mut self, idx: PixelIndex, hit: bool, amount: Fixed)
        requires
            old(self).wf(),
            0 <= amount@ <= old(self).cool_max(),
        ensures
            final(self).wf(),
            final(self).same_params(*old(self)),
            final(self).wind() == old(self).wind(),
            final(self).heat() == cool_heat(old(self).heat(), idx@ as int, hit, amount@),
    {
        proof {
            idx.lemma_in_range();
        }
        let i = idx.usize();
        assert(self.heat()[i as int] == self.cells[i as int]@);
        if idx.up().is_some() {
            if hit {
                self.cells[i] = Fixed(self.cells[i].0 - amount.0).max(Fixed(0));
            }
        } else {
            self.cells[i] = Fixed(0);
        }
        proof {
            assert(self.heat() =~= cool_heat(old(self).heat(), idx@ as int, hit, amount@));
        }
    }

    /// Feeds `idx` (see [`feed_heat`]).
    pub fn feed_by(&mut self, idx: PixelIndex, fuel: Fixed)
        requires
            old(self).wf(),
            0 <= fuel@ <= one(),
        ensures
            final(self).wf(),
            final(self).same_params(*old(self)),
            final(self).wind() == old(self).wind(),
            final(self).heat() == feed_heat(
                old(self).heat(),
                idx@ as int,
                fuel@,
                old(self).fuel_min(),
                old(self).fuel_max(),
            ),
    {
        proof {
            idx.lemma_in_range();
        }
        let i = idx.usize();
        assert(self.heat()[i as int] == self.cells[i as int]@);
        if idx.down().is_none() {
            let base = self.cells[i].max(self.fuel_min);
            self.cells[i] = Fixed(base.0 + fuel.0).min(self.fuel_max);
        }
        proof {
            assert(self.heat() =~= feed_heat(
                old(self).heat(),
                idx@ as int,
                fuel@,
                old(self).fuel_min(),
                old(self).fuel_max(),
            ));
        }
    }

    /// The wind's turn at `idx` (see [`blow_heat`]).
    fn blow_with(&mut self, idx: PixelIndex, d: PixelDraws)
        requires
            old(self).wf(),
            0 <= d.blow_amount@,
        ensures
            final(self).wf(),
            final(self).same_params(*old(self)),
            final(self).wind() == old(self).wind(),
            final(self).heat() == blow_heat(old(self).heat(), old(self).wind(), idx@ as int, d, old(self).heat_max()),
    {
        if d.blow_hit {
            let src = if self.wind.raw() < 0 {
                idx.left()
            } else {
                idx.right()
            };
            if let Some(src) = src {
                self.flow(src, idx, d.blow_amount);
            }
        }
    }

    /// The rise at `idx` (see [`rise_heat`]).
    fn rise_with(&mut self, idx: PixelIndex, d: PixelDraws)
        requires
            old(self).wf(),
            0 <= d.rise_amount@,
            0 <= d.cool_amount@ <= old(self).cool_max(),
        ensures
            final(self).wf(),
            final(self).same_params(*old(self)),
            final(self).wind() == old(self).wind(),
            final(self).heat() == rise_heat(old(self).heat(), idx@ as int, d, old(self).heat_max()),
    {
        if let Some(up) = idx.up() {
            self.flow(idx, up, d.rise_amount);
            self.cool_by(up, d.cool_hit, d.cool_amount);
        }
    }

    /// One frame of heat with the given draws: every pixel in index order is
    /// blown, rises and is fed (see [`frame_heat`]). The wind is left alone.
    pub fn step(&mut self, d: &[PixelDraws; 125])
        requires
            old(self).wf(),
            old(self).draws_in_range(d@),
        ensures
            final(self).wf(),
            final(self).same_params(*old(self)),
            final(self).wind() == old(self).wind(),
            final(self).heat() == old(self).next_heat(d@),
    {
        let ghost h0 = self.heat();
        let mut i: usize = 0;
        while i < SIZE
            invariant
                i <= SIZE,
                self.wf(),
                self.same_params(*old(self)),
                self.wind() == old(self).wind(),
                h0 == old(self).heat(),
                old(self).draws_in_range(d@),
                self.heat() == frame_heat(
                    h0,
                    old(self).wind(),
                    old(self).heat_max(),
                    old(self).fuel_min(),
                    old(self).fuel_max(),
                    d@,
                    i as nat,
                ),
            decreases SIZE - i,
        {
            let idx = PixelIndex::new(i);
            let p = d[i];
            assert(p == d@[i as int]);
            self.blow_with(idx, p);
            self.rise_with(idx, p);
            self.feed_by(idx, p.fuel);
            i += 1;
        }
    }

    /// Draws one frame's random values: for each pixel, whether the wind blows
    /// in (chance the wind's strength), whether the pixel above cools (chance
    /// its elevation), and the amounts.
    fn draw_frame(&mut self) -> (d: [PixelDraws; 125])
        requires
            old(self).wf(),
        ensures
            final(self).wf(),
            final(self).same_params(*old(self)),
            final(self).wind() == old(self).wind(),
            final(self).heat() == old(self).heat(),
            old(self).draws_in_range(d@),
    {
        let strength = if self.wind.raw() < 0 {
            -self.wind.raw()
        } else {
            self.wind.raw()
        };
        let zero = PixelDraws {
            blow_hit: false,
            blow_amount: self.flow_min,
            rise_amount: self.flow_min,
            cool_hit: false,
            cool_amount: self.cool_min,
            fuel: self.flow_min,
        };
        let mut d = [zero; 125];
        let mut i: usize = 0;
        while i < SIZE
            invariant
                i <= SIZE,
                self.wf(),
                self.same_params(*old(self)),
                self.wind() == old(self).wind(),
                self.heat() == old(self).heat(),
                0 <= strength <= ONE,
                forall|j: int|
                    0 <= j < i ==> {
                        let p = #[trigger] d@[j];
                        &&& old(self).flow_min() <= p.blow_amount@ < old(self).flow_max()
                        &&& old(self).flow_min() <= p.rise_amount@ < old(self).flow_max()
                        &&& old(self).flow_min() <= p.fuel@ < old(self).flow_max()
                        &&& old(self).cool_min() <= p.cool_amount@ < old(self).cool_max()
                    },
            decreases SIZE - i,
        {
            let idx = PixelIndex::new(i);
            let blow_hit = gen_ratio(&mut self.rng, strength as u32, ONE as u32);
            let blow_amount = Fixed(gen_range_i32(&mut self.rng, self.flow_min.raw(), self.flow_max.raw()));
            let rise_amount = Fixed(gen_range_i32(&mut self.rng, self.flow_min.raw(), self.flow_max.raw()));
            let cool_hit = match idx.up() {
                Some(up) => {
                    let (_, height) = up.as_spherical();
                    gen_ratio(&mut self.rng, height.raw() as u32, ONE as u32)
                },
                None => false,
            };
            let cool_amount = Fixed(gen_range_i32(&mut self.rng, self.cool_min.raw(), self.cool_max.raw()));
            let fuel = Fixed(gen_range_i32(&mut self.rng, self.flow_min.raw(), self.flow_max.raw()));
            d[i] = PixelDraws { blow_hit, blow_amount, rise_amount, cool_hit, cool_amount, fuel };
            i += 1;
        }
        d
    }

    /// One frame: the frame's random values are drawn and the heat moves by
    /// them (see [`Flame::step`]); then, with chance one in the gust duration,
    /// the wind changes to a new value in `[-1, 1)`.
    pub fn tick(&mut self, color: &mut Color)
        requires
            old(self).wf(),
        ensures
            final(self).wf(),
            *final(color) == *old(color),
            old(self).ticked(*final(self)),
    {
        let d = self.draw_frame();
        self.step(&d);
        if gen_ratio(&mut self.rng, 1, self.gust_duration) {
            self.wind = Fixed(gen_range_i32(&mut self.rng, -ONE, ONE));
        }
        assert(old(self).draws_in_range(d@) && old(self).next_heat(d@) == self.heat());
    }

    /// Draws the fire: each pixel is the ambient colour scaled by its heat and
    /// hue-shifted by how cold it is.
    pub fn render(&self, color: Color, model: &mut Lantern)
        ensures
            final(model).color == old(model).color,
            forall|i: int|
                0 <= i < SIZE ==> #[trigger] final(model).pixels[i] == flame_pixel(
                    color,
                    self.heat()[i],
                    self.hue_shift(),
                ),
    {
        let mut i: usize = 0;
        while i < SIZE
            invariant
                i <= SIZE,
                model.color == old(model).color,
                forall|j: int|
                    0 <= j < i ==> #[trigger] model.pixels[j] == flame_pixel(
                        color,
                        self.heat()[j],
                        self.hue_shift(),
                    ),
            decreases SIZE - i,
        {
            let v = self.cells[i].clamp(Fixed(0), Fixed(ONE));
            let scaled = Color {
                l: color.l.saturating_mul(v),
                chroma: color.chroma.saturating_mul(v),
                hue: color.hue,
            };
            let cold = Fixed(ONE - v.raw());
            model.pixels[i] = scaled.shift_hue(self.hue_shift.saturating_mul(cold));
            i += 1;
        }
    }

    /// Turns the ambient hue two degrees forward.
    pub fn rotate_cw(&mut self, color: &mut Color)
        ensures
            *final(self) == *old(self),
            *final(color) == old(color).shifted(2 * one()),
    {
        *color = color.shift_hue(Fixed::from_int(2));
    }

    /// Turns the ambient hue two degrees back.
    pub fn rotate_ccw(&mut self, color: &mut Color)
        ensures
            *final(self) == *old(self),
            *final(color) == old(color).shifted(-2 * one()),
    {
        *color = color.shift_hue(Fixed::from_int(-2));
    }

    /// Puts the fire out and blacks out the lantern.
    pub fn init(&mut self, model: &mut Lantern)
        requires
            old(self).wf(),
        ensures
            final(self).wf(),
            final(self).heat_max() == old(self).heat_max(),
            forall|i: int| 0 <= i < SIZE ==> #[trigger] final(self).heat()[i] == 0,
            final(model).color == old(model).color,
            forall|i: int| 0 <= i < SIZE ==> #[trigger] final(model).pixels[i] == Color::black_spec(),
    {
        let mut i: usize = 0;
        while i < SIZE
            invariant
                i <= SIZE,
                self.same_params(*old(self)),
                self.wind == old(self).wind,
                forall|j: int| 0 <= j < i ==> #[trigger] self.cells[j]@ == 0,
                forall|j: int| i <= j < SIZE ==> #[trigger] self.cells[j] == old(self).cells[j],
            decreases SIZE - i,
        {
            self.cells[i] = Fixed(0);
            i += 1;
        }
        model.set_all(Color::black());
        assert(forall|i: int| 0 <= i < SIZE ==> #[trigger] self.heat()[i] == self.cells[i]@);
    }
}

/// Summing values that each lie in `[0, m]` gives a total in `[0, len * m]`.
proof fn lemma_sum_bounds(s: Seq<int>, m: int)
    requires
        forall|i: int| 0 <= i < s.len() ==> 0 <= #[trigger] s[i] <= m,
    ensures
        0 <= sum(s) <= s.len() * m,
    decreases s.len(),
{
    if s.len() > 0 {
        let t = s.drop_last();
        assert forall|i: int| 0 <= i < t.len() implies 0 <= #[trigger] t[i] <= m by {
            assert(t[i] == s[i]);
        }
        lemma_sum_bounds(t, m);
        assert(s.last() <= m);
        assert(t.len() * m + m == s.len() * m) by (nonlinear_arith)
            requires
                t.len() + 1 == s.len(),
        ;
    }
}

/// The total heat of a well-formed fire lies in `[0, SIZE * heat_max]`; every
/// frame keeps the fire well formed with the same maximum, so this holds after
/// any number of frames.
pub proof fn lemma_total_heat_bounded(f: Flame)
    requires
        f.wf(),
    ensures
        0 <= sum(f.heat()) <= SIZE * f.heat_max(),
{
    let h = f.heat();
    assert forall|i: int| 0 <= i < h.len() implies 0 <= #[trigger] h[i] <= f.heat_max() by {
        assert(h[i] == f.cells[i]@);
    }
    lemma_sum_bounds(h, f.heat_max());
}

} // verus!
