//! Drifting clouds: lightness from 3D noise, its third axis moving with time.
use vstd::prelude::*;

use crate::color::Color;
use crate::fixed::{clamp_i32, one, Fixed, ONE};
use crate::model::lantern::{index_to_spherical_spec, Lantern};
use crate::noise::{noise3_spec, shuffled, swaps_in_range, Noise};
use crate::pixelindex::{PixelIndex, SIZE};

verus! {

/// Cloud effect state.
pub struct Cloud {
    speed: Fixed,
    offset: Fixed,
    noise: Noise,
}

/// The cloud colour of pixel `i`: the ambient colour with lightness
/// `50 (n + 1)`, where `n` is the noise at (azimuth 256, elevation 256, offset).
pub open spec fn cloud_pixel(color: Color, table: Seq<u8>, offset: int, i: int) -> Color {
    let (dir, height) = index_to_spherical_spec(i);
    let n = noise3_spec(table, clamp_i32(dir * 256), clamp_i32(height * 256), offset);
    Color { l: Fixed(clamp_i32((n + one()) * 50) as i32), ..color }
}

impl Cloud {
    /// Drift per frame, raw.
    pub closed spec fn speed(self) -> int {
        self.speed@
    }

    /// Position along the noise's third axis, raw.
    pub closed spec fn offset(self) -> int {
        self.offset@
    }

    /// The noise table.
    pub closed spec fn table(self) -> Seq<u8> {
        self.noise.table()
    }

    /// Clouds drifting ten units per frame, from offset zero.
    pub fn default() -> (r: Cloud)
        ensures
            r.speed() == 10 * one(),
            r.offset() == 0,
            exists|sw: Seq<u8>| swaps_in_range(sw) && #[trigger] shuffled(sw, 255) == r.table(),
            forall|i: int, j: int|
                0 <= i < 256 && 0 <= j < 256 && i != j ==> #[trigger] r.table()[i] != #[trigger] r.table()[j],
    {
        Cloud { speed: Fixed::from_int(10), offset: Fixed(0), noise: Noise::new(137) }
    }

    /// Moves the offset on by the speed, wrapping round the fixed-point range.
    pub fn tick(&mut self, color: &mut Color)
        ensures
            final(self).offset() == crate::fixed::wrap_i32(old(self).offset() + old(self).speed()),
            final(self).speed() == old(self).speed(),
            final(self).table() == old(self).table(),
            *final(color) == *old(color),
    {
        self.offset = self.offset.wrapping_add(self.speed);
    }

    /// Sets every pixel to its cloud colour.
    pub fn render(&self, color: Color, model: &mut Lantern)
        ensures
            final(model).color == old(model).color,
            forall|i: int|
                0 <= i < SIZE ==> #[trigger] final(model).pixels[i] == cloud_pixel(
                    color,
                    self.table(),
                    self.offset(),
                    i,
                ),
    {
        let mut i: usize = 0;
        while i < SIZE
            invariant
                i <= SIZE,
                model.color == old(model).color,
                forall|j: int|
                    0 <= j < i ==> #[trigger] model.pixels[j] == cloud_pixel(
                        color,
                        self.table(),
                        self.offset(),
                        j,
                    ),
            decreases SIZE - i,
        {
            let (dir, height) = PixelIndex::new(i).as_spherical();
            let n = self.noise.noise_3d(dir.saturating_mul_int(256), height.saturating_mul_int(256), self.offset);
            let l = Fixed(n.raw() + ONE).saturating_mul_int(50);
            model.pixels[i] = Color { l, ..color };
            i += 1;
        }
    }
}

} // verus!
