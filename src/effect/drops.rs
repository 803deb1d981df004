//! Coloured drops sliding down the lantern over a slowly darkening background.
use vstd::prelude::*;

use rand::rngs::SmallRng;

use crate::color::{full_turn, Color};
use crate::fixed::{one, Fixed};
use crate::model::lantern::{cylinder_pixel_spec, Lantern};
use crate::pixelindex::SIZE;
use crate::rng::{gen_range_i32, gen_ratio, seeded};

verus! {

/// Number of drops.
pub const NUM_DROPS: usize = 16;

/// Height a drop starts from: the apex.
pub const TOP_HEIGHT: u8 = 7;

/// `px` with each drop's pixel, in order, set to the drop's colour.
pub open spec fn paint_drops(px: Seq<Color>, drops: Seq<(Color, u8, u8)>) -> Seq<Color>
    decreases drops.len(),
{
    if drops.len() == 0 {
        px
    } else {
        let d = drops.last();
        paint_drops(px, drops.drop_last()).update(cylinder_pixel_spec(d.1 as int, d.2 as int), d.0)
    }
}

/// Lightness lost by every pixel per frame, raw: two 255ths of full lightness.
pub open spec fn dim_step() -> int {
    (200 * one()) / 255
}

/// Chroma gained by every pixel per frame, raw: eight 255ths of chroma 128.
pub open spec fn tint_step() -> int {
    (1024 * one()) / 255
}

/// Chance, in tenths, that a drop of colour `c` moves in a frame:
/// `1 + 6 h / 360` for its hue `h` in whole degrees, so from one to six in ten.
pub open spec fn move_chance_spec(c: Color) -> int {
    1 + ((c.hue@ / one()) * 6) / 360
}

/// Chance, in tenths, that a drop of colour `c` moves in a frame.
pub fn move_chance(c: Color) -> (r: u32)
    requires
        c.has_canonical_hue(),
    ensures
        r == move_chance_spec(c),
        1 <= r <= 6,
{
    1 + (c.hue.floor() as u32 * 6) / 360
}

/// Drops effect state: each drop's colour, angle (twentieths of a turn) and height.
pub struct Drops {
    drops: [(Color, u8, u8); 16],
    rng: SmallRng,
}

impl Drops {
    /// The drops.
    pub closed spec fn drops(self) -> Seq<(Color, u8, u8)> {
        self.drops@
    }

    /// Every drop has a hue in `[0, 360)`, an angle below twenty and a height of at most seven.
    pub open spec fn wf(self) -> bool {
        &&& self.drops().len() == NUM_DROPS
        &&& forall|k: int|
            0 <= k < NUM_DROPS ==> {
                let d = #[trigger] self.drops()[k];
                d.0.has_canonical_hue() && d.1 < 20 && d.2 <= TOP_HEIGHT
            }
    }

    /// Drops of `color` at random whole-degree hues and random angles, all at the top.
    pub fn new(color: Color) -> (r: Drops)
        ensures
            r.wf(),
            forall|k: int|
                0 <= k < NUM_DROPS ==> {
                    let d = #[trigger] r.drops()[k];
                    d.0.l == color.l && d.0.chroma == color.chroma && d.2 == TOP_HEIGHT
                },
    {
        let mut rng = seeded(1234);
        let mut drops = [(color, 0u8, TOP_HEIGHT); 16];
        let mut k: usize = 0;
        while k < NUM_DROPS
            invariant
                k <= NUM_DROPS,
                forall|j: int|
                    0 <= j < NUM_DROPS ==> {
                        let d = #[trigger] drops@[j];
                        d.0.l == color.l && d.0.chroma == color.chroma && d.2 == TOP_HEIGHT && (j < k
                            ==> d.0.has_canonical_hue() && d.1 < 20)
                    },
            decreases NUM_DROPS - k,
        {
            let hue = Fixed::from_int(gen_range_i32(&mut rng, 0, 360));
            let angle = gen_range_i32(&mut rng, 0, 20) as u8;
            drops[k] = (Color::new(color.l, color.chroma, hue), angle, TOP_HEIGHT);
            k += 1;
        }
        Drops { drops, rng }
    }

    /// Drop number `k` as (colour, angle, height).
    pub fn drop_at(&self, k: usize) -> (r: (Color, u8, u8))
        requires
            k < NUM_DROPS,
        ensures
            r == self.drops()[k as int],
    {
        self.drops[k]
    }

    /// One frame: the lantern darkens and gains chroma; each drop, with
    /// [`move_chance`] in ten (one to six, growing with its hue), slides one step down, or
    /// starts again from the top at a new angle and hue once at the bottom;
    /// then every drop is drawn.
    pub fn tick(&mut self, model: &mut Lantern)
        requires
            old(self).wf(),
        ensures
            final(self).wf(),
            final(model).color == old(model).color,
            final(model).pixels@ == paint_drops(
                Seq::new(
                    SIZE as nat,
                    |i: int| old(model).pixels@[i].darkened(dim_step()).saturated(tint_step()),
                ),
                final(self).drops(),
            ),
            forall|k: int|
                0 <= k < NUM_DROPS ==> {
                    let d0 = #[trigger] old(self).drops()[k];
                    let d1 = final(self).drops()[k];
                    d1 == d0 || (d0.2 > 0 && d1 == (d0.0, d0.1, (d0.2 - 1) as u8)) || (d0.2 == 0
                        && d1.2 == TOP_HEIGHT && d1.0.l == d0.0.l && d1.0.chroma == d0.0.chroma)
                },
    {
        let ghost px0 = model.pixels@;
        model.darken(Fixed::from_ratio(200, 255));
        model.saturate(Fixed::from_ratio(1024, 255));
        let ghost base = model.pixels@;
        assert(base =~= Seq::new(SIZE as nat, |i: int| px0[i].darkened(dim_step()).saturated(tint_step())));
        let mut k: usize = 0;
        while k < NUM_DROPS
            invariant
                k <= NUM_DROPS,
                self.wf(),
                model.color == old(model).color,
                model.pixels@ == paint_drops(base, self.drops@.take(k as int)),
                forall|j: int|
                    0 <= j < NUM_DROPS ==> {
                        let d0 = #[trigger] old(self).drops@[j];
                        let d1 = self.drops@[j];
                        if j >= k {
                            d1 == d0
                        } else {
                            d1 == d0 || (d0.2 > 0 && d1 == (d0.0, d0.1, (d0.2 - 1) as u8)) || (d0.2
                                == 0 && d1.2 == TOP_HEIGHT && d1.0.l == d0.0.l && d1.0.chroma
                                == d0.0.chroma)
                        }
                    },
            decreases NUM_DROPS - k,
        {
            let (color, angle, height) = self.drops[k];
            let ghost before = self.drops@;
            let chance = move_chance(color);
            let mut d = (color, angle, height);
            if gen_ratio(&mut self.rng, chance, 10) {
                if height == 0 {
                    let a = gen_range_i32(&mut self.rng, 0, 20) as u8;
                    let hue = Fixed::from_int(gen_range_i32(&mut self.rng, 0, 360));
                    d = (Color::new(color.l, color.chroma, hue), a, TOP_HEIGHT);
                } else {
                    d = (color, angle, height - 1);
                }
            }
            self.drops[k] = d;
            model.set_cylinder_pixel(d.1, d.2, d.0);
            assert(self.drops@.take(k as int + 1).drop_last() =~= before.take(k as int));
            k += 1;
        }
        assert(self.drops@.take(NUM_DROPS as int) =~= self.drops@);
    }
}

} // verus!
