//! Smooth deterministic noise over 2D and 3D coordinates.
//!
//! A permutation of `0..256`, shuffled once from a seed, gives every point of
//! the whole-number lattice a value in `[-1, 1]`; between lattice points the
//! values are blended with smoothstep weights. The field repeats every 256
//! units along each axis, so an offset that wraps round the fixed-point range
//! moves on without a seam.
use vstd::prelude::*;

use crate::fixed::{clamp_int, div_floor, mod_floor, one, Fixed, ONE};
use crate::rng::{gen_range_i32, seeded};

verus! {

/// The blend from `a` to `b` by weight `w` (raw, clamped to `[0, one]`), as [`Fixed::lerp`] gives it.
pub open spec fn lerp_spec(a: int, b: int, w: int) -> int {
    a + ((b - a) * clamp_int(w, 0, one())) / one()
}

/// Smoothstep `3t^2 - 2t^3` of a raw fraction `t`, each product rounded down.
pub open spec fn fade(t: int) -> int {
    ((t * t / one()) * (3 * one() - 2 * t)) / one()
}

/// Lattice hash of a 2D lattice point through the permutation `p`.
pub open spec fn hash2(p: Seq<u8>, ix: int, iy: int) -> int {
    p[(p[ix % 256] + iy) % 256] as int
}

/// Lattice hash of a 3D lattice point through the permutation `p`.
pub open spec fn hash3(p: Seq<u8>, ix: int, iy: int, iz: int) -> int {
    p[(hash2(p, ix, iy) + iz) % 256] as int
}

/// The value in `[-1, 1]` (raw) that a hash in `[0, 255]` stands for.
pub open spec fn lattice(h: int) -> int {
    (h * 2 * one()) / 255 - one()
}

/// Noise at raw 2D point `(x, y)`: the four surrounding lattice values blended
/// along x, then along y, with smoothstep weights.
pub open spec fn noise2_spec(p: Seq<u8>, x: int, y: int) -> int {
    let ix = x / one();
    let iy = y / one();
    let sx = fade(x % one());
    let sy = fade(y % one());
    let a = lerp_spec(lattice(hash2(p, ix, iy)), lattice(hash2(p, ix + 1, iy)), sx);
    let b = lerp_spec(lattice(hash2(p, ix, iy + 1)), lattice(hash2(p, ix + 1, iy + 1)), sx);
    lerp_spec(a, b, sy)
}

/// Noise at raw 3D point `(x, y, z)`: the eight surrounding lattice values
/// blended along x, then y, then z, with smoothstep weights.
pub open spec fn noise3_spec(p: Seq<u8>, x: int, y: int, z: int) -> int {
    let ix = x / one();
    let iy = y / one();
    let iz = z / one();
    let sx = fade(x % one());
    let sy = fade(y % one());
    let sz = fade(z % one());
    let a0 = lerp_spec(lattice(hash3(p, ix, iy, iz)), lattice(hash3(p, ix + 1, iy, iz)), sx);
    let b0 = lerp_spec(lattice(hash3(p, ix, iy + 1, iz)), lattice(hash3(p, ix + 1, iy + 1, iz)), sx);
    let a1 = lerp_spec(lattice(hash3(p, ix, iy, iz + 1)), lattice(hash3(p, ix + 1, iy, iz + 1)), sx);
    let b1 = lerp_spec(
        lattice(hash3(p, ix, iy + 1, iz + 1)),
        lattice(hash3(p, ix + 1, iy + 1, iz + 1)),
        sx,
    );
    lerp_spec(lerp_spec(a0, b0, sy), lerp_spec(a1, b1, sy), sz)
}

/// The table `0, 1, ..., 255`.
pub open spec fn identity_table() -> Seq<u8> {
    Seq::new(256, |i: int| i as u8)
}

/// Swap positions for a Fisher-Yates shuffle of 256 entries: swap `m`
/// exchanges position `255 - m` with position `s[m]`, which is at most `255 - m`.
pub open spec fn swaps_in_range(s: Seq<u8>) -> bool {
    &&& s.len() == 255
    &&& forall|m: int| 0 <= m < 255 ==> #[trigger] s[m] <= 255 - m
}

/// The identity table after the first `m` swaps of `s`.
pub open spec fn shuffled(s: Seq<u8>, m: nat) -> Seq<u8>
    decreases m,
{
    if m == 0 {
        identity_table()
    } else {
        let t = shuffled(s, (m - 1) as nat);
        let k = 255 - (m - 1);
        let j = s[m - 1] as int;
        t.update(k, t[j]).update(j, t[k])
    }
}

/// Noise generator: a permutation table fixed at construction.
#[derive(Clone, Copy, Debug)]
pub struct Noise {
    perm: [u8; 256],
}

impl Noise {
    /// The permutation table.
    pub closed spec fn table(self) -> Seq<u8> {
        self.perm@
    }

    /// The generator whose table is `0..256` shuffled by the swaps `s` (see
    /// [`shuffled`]): every entry differs from every other, so each byte appears once.
    pub fn from_swaps(s: &[u8; 255]) -> (r: Noise)
        requires
            swaps_in_range(s@),
        ensures
            r.table() == shuffled(s@, 255),
            forall|i: int, j: int|
                0 <= i < 256 && 0 <= j < 256 && i != j ==> #[trigger] r.table()[i] != #[trigger] r.table()[j],
    {
        let mut perm = [0u8; 256];
        let mut i: usize = 0;
        while i < 256
            invariant
                i <= 256,
                forall|j: int| 0 <= j < i ==> #[trigger] perm[j] == j as u8,
            decreases 256 - i,
        {
            perm[i] = i as u8;
            i += 1;
        }
        assert(perm@ =~= identity_table());
        let mut m: usize = 0;
        while m < 255
            invariant
                m <= 255,
                swaps_in_range(s@),
                perm@ == shuffled(s@, m as nat),
                forall|a: int, b: int|
                    0 <= a < 256 && 0 <= b < 256 && a != b ==> #[trigger] perm[a] != #[trigger] perm[b],
            decreases 255 - m,
        {
            let k = 255 - m;
            let j = s[m] as usize;
            let t = perm[k];
            perm[k] = perm[j];
            perm[j] = t;
            m += 1;
            proof {
                let prev = shuffled(s@, (m - 1) as nat);
                assert(perm@ =~= prev.update(k as int, prev[j as int]).update(j as int, prev[k as int]));
            }
        }
        Noise { perm }
    }

    /// A generator whose table is `0..256` shuffled by a generator seeded with
    /// `seed`: the swap positions are drawn from it, one in `[0, 255 - m]` for
    /// swap `m`, and handed to [`Noise::from_swaps`].
    pub fn new(seed: u64) -> (r: Noise)
        ensures
            exists|s: Seq<u8>| swaps_in_range(s) && #[trigger] shuffled(s, 255) == r.table(),
            forall|i: int, j: int|
                0 <= i < 256 && 0 <= j < 256 && i != j ==> #[trigger] r.table()[i] != #[trigger] r.table()[j],
    {
        let mut rng = seeded(seed);
        let mut s = [0u8; 255];
        let mut m: usize = 0;
        while m < 255
            invariant
                m <= 255,
                forall|j: int| 0 <= j < m ==> #[trigger] s[j] <= 255 - j,
            decreases 255 - m,
        {
            s[m] = gen_range_i32(&mut rng, 0, (256 - m) as i32) as u8;
            m += 1;
        }
        let r = Noise::from_swaps(&s);
        assert(swaps_in_range(s@) && shuffled(s@, 255) == r.table());
        r
    }

    fn hash2(&self, ix: i64, iy: i64) -> (r: i64)
        requires
            -0x1_0000_0000 <= iy <= 0x1_0000_0000,
        ensures
            r == hash2(self.table(), ix as int, iy as int),
            0 <= r < 256,
    {
        let a = mod_floor(ix, 256) as usize;
        let b = mod_floor(self.perm[a] as i64 + iy, 256) as usize;
        self.perm[b] as i64
    }

    fn hash3(&self, ix: i64, iy: i64, iz: i64) -> (r: i64)
        requires
            -0x1_0000_0000 <= iy <= 0x1_0000_0000,
            -0x1_0000_0000 <= iz <= 0x1_0000_0000,
        ensures
            r == hash3(self.table(), ix as int, iy as int, iz as int),
            0 <= r < 256,
    {
        let h = self.hash2(ix, iy);
        let c = mod_floor(h + iz, 256) as usize;
        self.perm[c] as i64
    }

    /// Noise at `(x, y)`, in `[-1, 1]`.
    pub fn noise_2d(&self, x: Fixed, y: Fixed) -> (r: Fixed)
        ensures
            r@ == noise2_spec(self.table(), x@, y@),
            -one() <= r@ <= one(),
    {
        let ix = x.floor() as i64;
        let iy = y.floor() as i64;
        let sx = fade_exec(x.fract());
        let sy = fade_exec(y.fract());
        let v00 = lattice_exec(self.hash2(ix, iy));
        let v10 = lattice_exec(self.hash2(ix + 1, iy));
        let v01 = lattice_exec(self.hash2(ix, iy + 1));
        let v11 = lattice_exec(self.hash2(ix + 1, iy + 1));
        let a = v00.lerp(v10, sx);
        let b = v01.lerp(v11, sx);
        a.lerp(b, sy)
    }

    /// Noise at `(x, y, z)`, in `[-1, 1]`.
    pub fn noise_3d(&self, x: Fixed, y: Fixed, z: Fixed) -> (r: Fixed)
        ensures
            r@ == noise3_spec(self.table(), x@, y@, z@),
            -one() <= r@ <= one(),
    {
        let ix = x.floor() as i64;
        let iy = y.floor() as i64;
        let iz = z.floor() as i64;
        let sx = fade_exec(x.fract());
        let sy = fade_exec(y.fract());
        let sz = fade_exec(z.fract());
        let a0 = lattice_exec(self.hash3(ix, iy, iz)).lerp(lattice_exec(self.hash3(ix + 1, iy, iz)), sx);
        let b0 = lattice_exec(self.hash3(ix, iy + 1, iz)).lerp(
            lattice_exec(self.hash3(ix + 1, iy + 1, iz)),
            sx,
        );
        let a1 = lattice_exec(self.hash3(ix, iy, iz + 1)).lerp(
            lattice_exec(self.hash3(ix + 1, iy, iz + 1)),
            sx,
        );
        let b1 = lattice_exec(self.hash3(ix, iy + 1, iz + 1)).lerp(
            lattice_exec(self.hash3(ix + 1, iy + 1, iz + 1)),
            sx,
        );
        a0.lerp(b0, sy).lerp(a1.lerp(b1, sy), sz)
    }
}

/// Smoothstep of a fraction in `[0, 1)`.
fn fade_exec(t: Fixed) -> (r: Fixed)
    requires
        0 <= t@ < one(),
    ensures
        r@ == fade(t@),
{
    let tt = t.raw() as i64;
    proof {
        assert(0 <= tt * tt <= 65536 * 65536) by (nonlinear_arith)
            requires
                0 <= tt < 65536,
        ;
    }
    let a = (tt * tt) / ONE as i64;
    proof {
        assert(a <= 65536) by {
            vstd::arithmetic::div_mod::lemma_div_is_ordered(tt * tt, (65536 * 65536) as int, 65536);
        }
        assert(0 <= a * (3 * 65536 - 2 * tt) <= 65536 * 3 * 65536) by (nonlinear_arith)
            requires
                0 <= a <= 65536,
                0 <= tt < 65536,
        ;
    }
    let s = (a * (3 * ONE as i64 - 2 * tt)) / ONE as i64;
    proof {
        vstd::arithmetic::div_mod::lemma_div_is_ordered(a * (3 * 65536 - 2 * tt), (65536 * 3 * 65536) as int, 65536);
    }
    Fixed(s as i32)
}

/// The lattice value of a hash in `[0, 256)`.
fn lattice_exec(h: i64) -> (r: Fixed)
    requires
        0 <= h < 256,
    ensures
        r@ == lattice(h as int),
        -one() <= r@ <= one(),
{
    let v = (h * 2 * ONE as i64) / 255;
    proof {
        assert(0 <= h * 2 * 65536 <= 255 * 2 * 65536) by (nonlinear_arith)
            requires
                0 <= h < 256,
        ;
        vstd::arithmetic::div_mod::lemma_div_is_ordered(h * 2 * 65536, (255 * 2 * 65536) as int, 255);
    }
    Fixed((v - ONE as i64) as i32)
}

} // verus!
