//! Sparks: a few particles thrown up the lantern, leaving fading trails.
use vstd::prelude::*;

use rand::rngs::SmallRng;

use crate::color::{full_turn, Color, FULL_TURN};
use crate::fixed::{clamp_i32, one, Fixed, ONE};
use crate::model::lantern::{spherical_to_index_spec, Lantern};
use crate::pixelindex::SIZE;
use crate::rng::{gen_range_i32, seeded};

verus! {

/// Number of sparks.
pub const NUM_SPARKS: usize = 2;

/// Fall of a spark's upward speed per frame, raw (one thousandth).
pub const GRAVITY: i32 = 65;

/// One spark: azimuth, height, their speeds, and its colour.
#[derive(Clone, Copy, Debug, PartialEq, Eq, Structural)]
pub struct Particle {
    pub x: Fixed,
    pub y: Fixed,
    pub dx: Fixed,
    pub dy: Fixed,
    pub color: Color,
}

/// The spark after one frame of flight under gravity `g`: it drifts round by
/// `dx` (wrapping round the lantern), rises by `dy`, and `dy` falls by `g`.
pub open spec fn flown(p: Particle, g: int) -> Particle {
    Particle {
        x: Fixed((clamp_i32(clamp_i32(p.x@ + p.dx@) + one()) % one()) as i32),
        y: Fixed(clamp_i32(p.y@ + p.dy@) as i32),
        dy: Fixed(clamp_i32(p.dy@ - g) as i32),
        ..p
    }
}

/// A spark freshly thrown from the bottom: height zero, rising at 0.03 to
/// 0.04 per frame, drifting by at most 0.01 per frame, bright at a random hue.
pub open spec fn is_fresh(p: Particle) -> bool {
    &&& p.y@ == 0
    &&& 1966 <= p.dy@ < 2621
    &&& -655 <= p.dx@ < 655
    &&& 0 <= p.x@ < one()
    &&& p.color.l@ == 100 * one()
    &&& p.color.chroma@ == 50 * one()
    &&& p.color.has_canonical_hue()
}

impl Particle {
    /// A spark with the given position, speeds and colour.
    pub fn new(x: Fixed, y: Fixed, dx: Fixed, dy: Fixed, color: Color) -> (r: Particle)
        ensures
            r == (Particle { x, y, dx, dy, color }),
    {
        Particle { x, y, dx, dy, color }
    }

    /// One frame of flight under gravity `g`.
    pub fn tick(&mut self, g: Fixed)
        ensures
            *final(self) == flown(*old(self), g@),
    {
        self.x = self.x.saturating_add(self.dx).saturating_add(Fixed(ONE)).fract();
        self.y = self.y.saturating_add(self.dy);
        self.dy = self.dy.saturating_sub(g);
    }

    /// Throws the spark again from the bottom.
    fn shuffle(&mut self, rng: &mut SmallRng)
        ensures
            is_fresh(*final(self)),
    {
        self.y = Fixed(0);
        self.dy = Fixed(gen_range_i32(rng, 1966, 2621));
        self.dx = Fixed(gen_range_i32(rng, -655, 655));
        self.x = Fixed(gen_range_i32(rng, 0, ONE));
        let hue = Fixed(gen_range_i32(rng, 0, FULL_TURN));
        self.color = Color::new(Fixed::from_int(100), Fixed::from_int(50), hue);
    }
}

/// A pixel colour faded towards black of its own hue by `fade`, then hue-turned by `shift`.
pub open spec fn faded(c: Color, fade: int, shift: int) -> Color {
    c.mixed(Color { l: Fixed(0), chroma: Fixed(0), hue: c.hue }, fade).shifted(shift)
}

/// `px` with the pixel nearest each spark, in order, set to the spark's colour.
pub open spec fn paint_sparks(px: Seq<Color>, sparks: Seq<Particle>) -> Seq<Color>
    decreases sparks.len(),
{
    if sparks.len() == 0 {
        px
    } else {
        let p = sparks.last();
        paint_sparks(px, sparks.drop_last()).update(spherical_to_index_spec(p.x@, p.y@), p.color)
    }
}

/// Sparks effect state.
pub struct Sparks {
    fade: Fixed,
    shift: Fixed,
    sparks: [Particle; 2],
    rng: SmallRng,
}

impl Sparks {
    /// Trail fading weight per frame, raw.
    pub closed spec fn fade(self) -> int {
        self.fade@
    }

    /// Hue turn per frame of the trails, raw.
    pub closed spec fn shift(self) -> int {
        self.shift@
    }

    /// The sparks.
    pub closed spec fn sparks(self) -> Seq<Particle> {
        self.sparks@
    }

    /// Sparks whose trails fade by `fade` and turn by `shift` degrees per frame,
    /// all freshly thrown.
    pub fn new(fade: Fixed, shift: Fixed) -> (r: Sparks)
        ensures
            r.fade() == fade@,
            r.shift() == shift@,
            forall|k: int| 0 <= k < NUM_SPARKS ==> is_fresh(#[trigger] r.sparks()[k]),
    {
        let mut rng = seeded(137);
        let hue = Fixed(gen_range_i32(&mut rng, 0, FULL_TURN));
        let first = Particle::new(
            Fixed(0),
            Fixed(0),
            Fixed(0),
            Fixed(0),
            Color::new(Fixed::from_int(10), Fixed::from_int(10), hue),
        );
        let mut sparks = [first; 2];
        let mut k: usize = 0;
        while k < NUM_SPARKS
            invariant
                k <= NUM_SPARKS,
                forall|j: int| 0 <= j < k ==> is_fresh(#[trigger] sparks[j]),
            decreases NUM_SPARKS - k,
        {
            let mut p = sparks[k];
            p.shuffle(&mut rng);
            sparks[k] = p;
            k += 1;
        }
        Sparks { fade, shift, sparks, rng }
    }

    /// Trails fading by a fifth per frame, no hue turn.
    pub fn default() -> (r: Sparks)
        ensures
            r.fade() == 13107,
            r.shift() == 0,
            forall|k: int| 0 <= k < NUM_SPARKS ==> is_fresh(#[trigger] r.sparks()[k]),
    {
        Sparks::new(Fixed::from_ratio(1, 5), Fixed(0))
    }

    /// Spark number `k`.
    pub fn particle(&self, k: usize) -> (r: Particle)
        requires
            k < NUM_SPARKS,
        ensures
            r == self.sparks()[k as int],
    {
        self.sparks[k]
    }

    /// Fades every pixel, then draws each spark on the pixel nearest to it.
    pub fn render(&self, color: Color, model: &mut Lantern)
        ensures
            final(model).color == old(model).color,
            final(model).pixels@ == paint_sparks(
                Seq::new(SIZE as nat, |i: int| faded(old(model).pixels@[i], self.fade(), self.shift())),
                self.sparks(),
            ),
    {
        let ghost px0 = model.pixels@;
        let mut i: usize = 0;
        while i < SIZE
            invariant
                i <= SIZE,
                model.color == old(model).color,
                px0 == old(model).pixels@,
                forall|j: int| 0 <= j < i ==> #[trigger] model.pixels@[j] == faded(px0[j], self.fade@, self.shift@),
                forall|j: int| i <= j < SIZE ==> #[trigger] model.pixels@[j] == px0[j],
            decreases SIZE - i,
        {
            let px = model.pixels[i];
            let dark = Color { l: Fixed(0), chroma: Fixed(0), hue: px.hue };
            model.pixels[i] = px.mix(dark, self.fade).shift_hue(self.shift);
            i += 1;
        }
        let ghost base = model.pixels@;
        assert(base =~= Seq::new(SIZE as nat, |i: int| faded(px0[i], self.fade@, self.shift@)));
        let mut k: usize = 0;
        while k < NUM_SPARKS
            invariant
                k <= NUM_SPARKS,
                model.color == old(model).color,
                model.pixels@ == paint_sparks(base, self.sparks@.take(k as int)),
            decreases NUM_SPARKS - k,
        {
            let p = self.sparks[k];
            model.set_spherical(p.x, p.y, p.color);
            assert(self.sparks@.take(k as int + 1).drop_last() =~= self.sparks@.take(k as int));
            k += 1;
        }
        assert(self.sparks@.take(NUM_SPARKS as int) =~= self.sparks@);
    }

    /// One frame: every spark flies; one that has stopped rising is thrown again.
    pub fn tick(&mut self, color: &mut Color)
        ensures
            final(self).fade() == old(self).fade(),
            final(self).shift() == old(self).shift(),
            *final(color) == *old(color),
            forall|k: int|
                0 <= k < NUM_SPARKS ==> {
                    let f = flown(#[trigger] old(self).sparks()[k], GRAVITY as int);
                    if f.dy@ <= 0 {
                        is_fresh(final(self).sparks()[k])
                    } else {
                        final(self).sparks()[k] == f
                    }
                },
    {
        let mut k: usize = 0;
        while k < NUM_SPARKS
            invariant
                k <= NUM_SPARKS,
                self.fade == old(self).fade,
                self.shift == old(self).shift,
                forall|j: int|
                    0 <= j < NUM_SPARKS ==> {
                        let f = flown(#[trigger] old(self).sparks@[j], GRAVITY as int);
                        if j >= k {
                            self.sparks@[j] == old(self).sparks@[j]
                        } else if f.dy@ <= 0 {
                            is_fresh(self.sparks@[j])
                        } else {
                            self.sparks@[j] == f
                        }
                    },
            decreases NUM_SPARKS - k,
        {
            let mut p = self.sparks[k];
            p.tick(Fixed(GRAVITY));
            if p.dy.raw() <= 0 {
                p.shuffle(&mut self.rng);
            }
            self.sparks[k] = p;
            k += 1;
        }
    }
}

} // verus!
