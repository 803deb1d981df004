//! Rain storm: noise clouds on the cap, falling drops on the sides, and now
//! and then a lightning bolt down one column.
use vstd::prelude::*;

use rand::rngs::SmallRng;

use crate::color::Color;
use crate::fixed::{clamp_i32, one, wrap_i32, Fixed, ONE};
use crate::model::lantern::{cylindrical_to_index_spec, index_to_spherical_spec, Lantern};
use crate::noise::{noise2_spec, shuffled, swaps_in_range, Noise};
use crate::pixelindex::{FaceType, PixelIndex, PixelIterator, SIZE};
use crate::rng::{gen_range_i32, gen_ratio, seeded};

verus! {

/// Number of raindrops.
pub const NUM_DROPS: usize = 8;

/// Bolt intensity (raw) above which the bolt is drawn: one hundredth.
pub const BOLT_VISIBLE: i32 = 655;

/// The storm colour of a pixel before drops and lightning: a side pixel fades
/// from `old` towards the background by `fade`; a cap pixel takes lightness and
/// chroma `25 (n + 1)` and the background's hue, `n` the noise at
/// (azimuth 256, elevation 2 + offset).
pub open spec fn storm_base(bg: Color, fade: int, table: Seq<u8>, offset: int, old: Color, i: int) -> Color {
    if i >= 100 {
        let (dir, height) = index_to_spherical_spec(i);
        let n = noise2_spec(table, clamp_i32(dir * 256), wrap_i32(clamp_i32(height * 2) + offset));
        let l = Fixed(clamp_i32((n + one()) * 25) as i32);
        Color { l, chroma: l, hue: bg.hue }
    } else {
        old.mixed(bg, fade)
    }
}

/// `px` with each drop's pixel, in order, set to `c`.
pub open spec fn paint_drops(px: Seq<Color>, drops: Seq<(Fixed, Fixed, Fixed)>, c: Color) -> Seq<Color>
    decreases drops.len(),
{
    if drops.len() == 0 {
        px
    } else {
        let d = drops.last();
        paint_drops(px, drops.drop_last(), c).update(cylindrical_to_index_spec(d.0@, d.1@), c)
    }
}

/// `px` with every position in `pos` set to `c`.
pub open spec fn paint_positions(px: Seq<Color>, pos: Seq<int>, c: Color) -> Seq<Color> {
    Seq::new(px.len(), |i: int| if pos.contains(i) { c } else { px[i] })
}

/// Storm effect state.
pub struct Storm {
    bg_color: Color,
    drop_color: Color,
    drop_fade: Fixed,
    cloud_speed: Fixed,
    drop_speed: Fixed,
    offset: Fixed,
    strike_chance: Fixed,
    bolt: (Fixed, Fixed),
    bolt_fade: Fixed,
    noise: Noise,
    drops: [(Fixed, Fixed, Fixed); 8],
    rng: SmallRng,
}

impl Storm {
    /// Background colour.
    pub closed spec fn bg(self) -> Color {
        self.bg_color
    }

    /// Raindrop colour.
    pub closed spec fn drop_color(self) -> Color {
        self.drop_color
    }

    /// Cloud offset along the noise, raw.
    pub closed spec fn offset(self) -> int {
        self.offset@
    }

    /// Raindrops as (azimuth, height, fall speed).
    pub closed spec fn drops(self) -> Seq<(Fixed, Fixed, Fixed)> {
        self.drops@
    }

    /// Lightning bolt as (azimuth of its column, intensity).
    pub closed spec fn bolt(self) -> (Fixed, Fixed) {
        self.bolt
    }

    /// Weight by which side pixels fade towards the background per frame, raw.
    pub closed spec fn drop_fade(self) -> int {
        self.drop_fade@
    }

    /// Chance of a strike per frame, raw.
    pub closed spec fn strike_chance(self) -> int {
        self.strike_chance@
    }

    /// Fading factor of the bolt per frame, raw.
    pub closed spec fn bolt_fade(self) -> int {
        self.bolt_fade@
    }

    /// Cloud drift per frame, raw.
    pub closed spec fn cloud_speed(self) -> int {
        self.cloud_speed@
    }

    /// Increase of a drop's fall speed per frame, raw.
    pub closed spec fn drop_speed(self) -> int {
        self.drop_speed@
    }

    /// The noise table the cap's clouds are drawn from.
    pub closed spec fn noise_table(self) -> Seq<u8> {
        self.noise.table()
    }

    /// The chance of a strike per frame lies in `[0, 1]`.
    pub open spec fn wf(self) -> bool {
        0 <= self.strike_chance() <= one()
    }

    /// Same parameters: colours, speeds, chances, fades and noise.
    pub open spec fn same_params(self, o: Storm) -> bool {
        &&& self.bg() == o.bg()
        &&& self.drop_color() == o.drop_color()
        &&& self.drop_fade() == o.drop_fade()
        &&& self.cloud_speed() == o.cloud_speed()
        &&& self.drop_speed() == o.drop_speed()
        &&& self.strike_chance() == o.strike_chance()
        &&& self.bolt_fade() == o.bolt_fade()
        &&& self.noise_table() == o.noise_table()
    }

    /// The lantern after one frame of the storm over pixels `px`: the
    /// background and cap clouds, then the drops, then the bolt's column if the
    /// bolt is bright enough.
    pub open spec fn frame(self, px: Seq<Color>) -> Seq<Color> {
        let base = Seq::new(
            SIZE as nat,
            |i: int|
                storm_base(self.bg(), self.drop_fade(), self.noise_table(), self.offset(), px[i], i),
        );
        let rained = paint_drops(base, self.drops(), self.drop_color());
        if self.bolt().1@ > BOLT_VISIBLE {
            let start = cylindrical_to_index_spec(self.bolt().0@, one());
            paint_positions(
                rained,
                PixelIterator::Column(Some(PixelIndex::spec_new(start as nat))).run(SIZE as nat),
                self.bolt_color(),
            )
        } else {
            rained
        }
    }

    /// Colour of the bolt: the background blended towards white by the bolt's intensity.
    pub open spec fn bolt_color(self) -> Color {
        self.bg().mixed(
            Color { l: Fixed((100 * one()) as i32), chroma: Fixed(0), hue: self.bg().hue },
            self.bolt().1@,
        )
    }

    /// `next` is this storm one frame on, whatever was drawn: the same
    /// parameters; the clouds moved by their speed; each drop that had fallen
    /// below the bottom back at the top at rest at some azimuth in `[0, 1)`,
    /// every other drop fallen by its speed and sped up; the bolt either
    /// struck afresh (some column, full intensity) or faded by its factor.
    pub open spec fn ticked(self, next: Storm) -> bool {
        &&& next.same_params(self)
        &&& next.offset() == wrap_i32(self.offset() + self.cloud_speed())
        &&& next.drops().len() == NUM_DROPS
        &&& forall|k: int|
            0 <= k < NUM_DROPS ==> {
                let d0 = #[trigger] self.drops()[k];
                let d1 = next.drops()[k];
                if d0.1@ < 0 {
                    0 <= d1.0@ < one() && d1.1@ == one() && d1.2@ == 0
                } else {
                    d1.0 == d0.0 && d1.1@ == clamp_i32(d0.1@ - d0.2@) && d1.2@ == clamp_i32(
                        d0.2@ + self.drop_speed(),
                    )
                }
            }
        &&& (0 <= next.bolt().0@ < one() && next.bolt().1@ == one()) || (next.bolt().0
            == self.bolt().0 && next.bolt().1@ == clamp_i32((self.bolt().1@ * self.bolt_fade()) / one()))
    }

    /// A storm with the given colours and rates. The drops start at random
    /// azimuths and heights, at rest; the clouds at offset zero; no bolt.
    pub fn new(
        bg_color: Color,
        drop_color: Color,
        drop_fade: Fixed,
        cloud_speed: Fixed,
        drop_speed: Fixed,
        strike_chance: Fixed,
        bolt_fade: Fixed,
    ) -> (r: Storm)
        requires
            0 <= strike_chance@ <= one(),
        ensures
            r.wf(),
            r.bg() == bg_color,
            r.drop_color() == drop_color,
            r.offset() == 0,
            r.bolt().0@ == 0,
            r.bolt().1@ == 0,
            r.drop_fade() == drop_fade@,
            r.cloud_speed() == cloud_speed@,
            r.drop_speed() == drop_speed@,
            r.strike_chance() == strike_chance@,
            r.bolt_fade() == bolt_fade@,
            exists|sw: Seq<u8>| swaps_in_range(sw) && #[trigger] shuffled(sw, 255) == r.noise_table(),
            forall|i: int, j: int|
                0 <= i < 256 && 0 <= j < 256 && i != j ==> #[trigger] r.noise_table()[i]
                    != #[trigger] r.noise_table()[j],
            forall|k: int|
                0 <= k < NUM_DROPS ==> {
                    let d = #[trigger] r.drops()[k];
                    0 <= d.0@ < one() && 0 <= d.1@ < one() && d.2@ == 0
                },
    {
        let mut rng = seeded(1234);
        let noise = Noise::new(137);
        let mut drops = [(Fixed(0), Fixed(0), Fixed(0)); 8];
        let mut k: usize = 0;
        while k < NUM_DROPS
            invariant
                k <= NUM_DROPS,
                forall|j: int|
                    0 <= j < NUM_DROPS ==> {
                        let d = #[trigger] drops[j];
                        0 <= d.0@ < one() && 0 <= d.1@ < one() && d.2@ == 0
                    },
            decreases NUM_DROPS - k,
        {
            let dir = Fixed(gen_range_i32(&mut rng, 0, ONE));
            let height = Fixed(gen_range_i32(&mut rng, 0, ONE));
            drops[k] = (dir, height, Fixed(0));
            k += 1;
        }
        Storm {
            bg_color,
            drop_color,
            drop_fade,
            cloud_speed,
            drop_speed,
            offset: Fixed(0),
            strike_chance,
            bolt: (Fixed(0), Fixed(0)),
            bolt_fade,
            noise,
            drops,
            rng,
        }
    }

    /// The state that [`Storm::default`] builds: its colours and rates, clouds
    /// at offset zero, no bolt, and the drops at rest inside the unit square.
    pub open spec fn is_default(self) -> bool {
        &&& self.bg() == Color::new_spec(
            Fixed((5 * one()) as i32),
            Fixed((5 * one()) as i32),
            Fixed((305 * one()) as i32),
        )
        &&& self.drop_color() == Color::new_spec(Fixed(0), Fixed(0), Fixed((305 * one()) as i32))
        &&& self.drop_fade() == one() / 100
        &&& self.cloud_speed() == one() / 20
        &&& self.drop_speed() == one() / 50
        &&& self.strike_chance() == 3 * one() / 20
        &&& self.bolt_fade() == 4 * one() / 5
        &&& self.offset() == 0
        &&& self.bolt().0@ == 0 && self.bolt().1@ == 0
        &&& self.drops().len() == NUM_DROPS
        &&& forall|k: int|
            0 <= k < NUM_DROPS ==> {
                let d = #[trigger] self.drops()[k];
                0 <= d.0@ < one() && 0 <= d.1@ < one() && d.2@ == 0
            }
    }

    /// A dim purple storm: background (5, 5, 305), black drops, fade 0.01,
    /// clouds 0.05 and drops 0.02 per frame, strike chance 0.15, bolt fade 0.8.
    pub fn default() -> (r: Storm)
        ensures
            r.wf(),
            r.is_default(),
            r.bg() == Color::new_spec(
                Fixed((5 * one()) as i32),
                Fixed((5 * one()) as i32),
                Fixed((305 * one()) as i32),
            ),
            r.offset() == 0,
            r.bolt().1@ == 0,
    {
        let dim = Color::from_ints(5, 5, 305);
        let drop = Color::from_ints(0, 0, 305);
        let r = Storm::new(
            dim,
            drop,
            Fixed::from_ratio(1, 100),
            Fixed::from_ratio(1, 20),
            Fixed::from_ratio(1, 50),
            Fixed::from_ratio(3, 20),
            Fixed::from_ratio(4, 5),
        );
        assert forall|k: int| 0 <= k < NUM_DROPS implies {
            let d = #[trigger] r.drops@[k];
            0 <= d.0@ < one() && 0 <= d.1@ < one() && d.2@ == 0
        } by {
            assert(r.drops()[k] == r.drops@[k]);
        }
        r
    }

    /// The lightning bolt as (azimuth of its column, intensity).
    pub fn bolt_state(&self) -> (r: (Fixed, Fixed))
        ensures
            r == self.bolt(),
    {
        self.bolt
    }

    /// Raindrop number `k` as (azimuth, height, fall speed).
    pub fn drop_at(&self, k: usize) -> (r: (Fixed, Fixed, Fixed))
        requires
            k < NUM_DROPS,
        ensures
            r == self.drops()[k as int],
    {
        self.drops[k]
    }

    /// Draws one frame (see [`Storm::frame`]).
    pub fn render(&self, color: Color, model: &mut Lantern)
        ensures
            final(model).color == old(model).color,
            final(model).pixels@ == self.frame(old(model).pixels@),
    {
        let ghost px0 = model.pixels@;
        let ghost base = Seq::new(
            SIZE as nat,
            |i: int|
                storm_base(self.bg_color, self.drop_fade@, self.noise.table(), self.offset@, px0[i], i),
        );
        let mut i: usize = 0;
        while i < SIZE
            invariant
                i <= SIZE,
                model.color == old(model).color,
                px0 == old(model).pixels@,
                base == Seq::new(
                    SIZE as nat,
                    |i: int|
                        storm_base(self.bg_color, self.drop_fade@, self.noise.table(), self.offset@, px0[i], i),
                ),
                forall|j: int| 0 <= j < i ==> #[trigger] model.pixels@[j] == base[j],
                forall|j: int| i <= j < SIZE ==> #[trigger] model.pixels@[j] == px0[j],
            decreases SIZE - i,
        {
            let idx = PixelIndex::new(i);
            match idx.face_type() {
                FaceType::Side => {
                    model.pixels[i] = model.pixels[i].mix(self.bg_color, self.drop_fade);
                },
                FaceType::Top => {
                    let (dir, height) = idx.as_spherical();
                    let x = dir.saturating_mul_int(256);
                    let y = height.saturating_mul_int(2).wrapping_add(self.offset);
                    let n = self.noise.noise_2d(x, y);
                    let l = Fixed(n.raw() + ONE).saturating_mul_int(25);
                    model.pixels[i] = Color { l, chroma: l, hue: self.bg_color.hue };
                },
            }
            i += 1;
        }
        assert(model.pixels@ =~= base);
        let mut k: usize = 0;
        while k < NUM_DROPS
            invariant
                k <= NUM_DROPS,
                model.color == old(model).color,
                model.pixels@ == paint_drops(base, self.drops@.take(k as int), self.drop_color),
            decreases NUM_DROPS - k,
        {
            let (dir, height, _) = self.drops[k];
            model.set_cylindrical(dir, height, self.drop_color);
            assert(self.drops@.take(k as int + 1).drop_last() =~= self.drops@.take(k as int));
            k += 1;
        }
        assert(self.drops@.take(NUM_DROPS as int) =~= self.drops@);
        if self.bolt.1.raw() > BOLT_VISIBLE {
            let ghost rained = model.pixels@;
            let white = Color { l: Fixed::from_int(100), chroma: Fixed(0), hue: self.bg_color.hue };
            let c = self.bg_color.mix(white, self.bolt.1);
            let mut it = model.column_iter(self.bolt.0);
            let ghost it0 = it;
            let ghost mut done: Seq<int> = Seq::empty();
            let mut k: usize = 0;
            while k < SIZE
                invariant
                    k <= SIZE,
                    model.color == old(model).color,
                    it0.run(SIZE as nat) == done + it.run((SIZE - k) as nat),
                    model.pixels@ == paint_positions(rained, done, c),
                    rained.len() == SIZE,
                ensures
                    model.color == old(model).color,
                    it0.run(SIZE as nat) == done,
                    model.pixels@ == paint_positions(rained, done, c),
                decreases SIZE - k,
            {
                let ghost before = it;
                match it.next() {
                    Some(p) => {
                        proof {
                            assert(before.run((SIZE - k) as nat) =~= seq![p@ as int] + it.run(
                                (SIZE - k - 1) as nat,
                            ));
                            assert(done + before.run((SIZE - k) as nat) =~= done.push(p@ as int)
                                + it.run((SIZE - k - 1) as nat));
                            p.lemma_in_range();
                        }
                        model.set(p, c);
                        proof {
                            let d2 = done.push(p@ as int);
                            assert forall|j: int| 0 <= j < SIZE implies #[trigger] d2.contains(j) == (done.contains(j) || j == p@) by {
                                if done.contains(j) {
                                    let w = choose|w: int| 0 <= w < done.len() && done[w] == j;
                                    assert(d2[w] == j);
                                }
                                if j == p@ {
                                    assert(d2[done.len() as int] == j);
                                }
                                if d2.contains(j) {
                                    let w = choose|w: int| 0 <= w < d2.len() && d2[w] == j;
                                    if w < done.len() {
                                        assert(done[w] == j);
                                    }
                                }
                            }
                            assert(model.pixels@ =~= paint_positions(rained, d2, c));
                            done = done.push(p@ as int);
                        }
                    },
                    None => {
                        proof {
                            assert(before.run((SIZE - k) as nat) =~= Seq::<int>::empty());
                            assert(done + before.run((SIZE - k) as nat) =~= done);
                        }
                        break;
                    },
                }
                k += 1;
                proof {
                    if k == SIZE {
                        assert(done + it.run(0) =~= done);
                    }
                }
            }
            proof {
                assert(c == self.bolt_color());
            }
        }
    }

    /// One frame: the clouds move on; each drop that has fallen below the
    /// bottom starts again at the top at a new random azimuth, at rest, and
    /// every other drop falls by its speed and speeds up; the bolt strikes a
    /// new random column at full intensity with the strike chance, or fades.
    pub fn tick(&mut self, color: &mut Color)
        requires
            old(self).wf(),
        ensures
            final(self).wf(),
            *final(color) == *old(color),
            old(self).ticked(*final(self)),
    {
        self.offset = self.offset.wrapping_add(self.cloud_speed);
        let mut k: usize = 0;
        while k < NUM_DROPS
            invariant
                k <= NUM_DROPS,
                self.wf(),
                self.same_params(*old(self)),
                self.offset@ == wrap_i32(old(self).offset@ + old(self).cloud_speed@),
                self.bolt == old(self).bolt,
                forall|j: int|
                    0 <= j < NUM_DROPS ==> {
                        let d0 = #[trigger] old(self).drops@[j];
                        let d1 = self.drops@[j];
                        if j >= k {
                            d1 == d0
                        } else if d0.1@ < 0 {
                            0 <= d1.0@ < one() && d1.1@ == one() && d1.2@ == 0
                        } else {
                            d1.0 == d0.0 && d1.1@ == clamp_i32(d0.1@ - d0.2@) && d1.2@ == clamp_i32(
                                d0.2@ + old(self).drop_speed@,
                            )
                        }
                    },
            decreases NUM_DROPS - k,
        {
            let (dir, height, speed) = self.drops[k];
            if height.raw() < 0 {
                let nd = Fixed(gen_range_i32(&mut self.rng, 0, ONE));
                self.drops[k] = (nd, Fixed(ONE), Fixed(0));
            } else {
                self.drops[k] = (dir, height.saturating_sub(speed), speed.saturating_add(self.drop_speed));
            }
            k += 1;
        }
        if gen_ratio(&mut self.rng, self.strike_chance.raw() as u32, ONE as u32) {
            self.bolt = (Fixed(gen_range_i32(&mut self.rng, 0, ONE)), Fixed(ONE));
        } else {
            self.bolt = (self.bolt.0, self.bolt.1.saturating_mul(self.bolt_fade));
        }
    }

    /// The secondary control turned clockwise: the ambient lightness rises by ten.
    pub fn rotate_cw(&mut self, color: &mut Color)
        ensures
            *final(self) == *old(self),
            *final(color) == old(color).lightened(10 * one()),
    {
        *color = color.lighten(Fixed::from_int(10));
    }

    /// The secondary control turned counter-clockwise: the ambient lightness falls by ten.
    pub fn rotate_ccw(&mut self, color: &mut Color)
        ensures
            *final(self) == *old(self),
            *final(color) == old(color).darkened(10 * one()),
    {
        *color = color.darken(Fixed::from_int(10));
    }
}

} // verus!
