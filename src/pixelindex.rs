//! Pixel handles and their iteration order.
use vstd::prelude::*;

use crate::color::Color;
use crate::fixed::{one, Fixed};
use crate::model::lantern::{
    index_above_spec, index_below_spec, index_left_spec, index_right_spec, index_to_face_spec,
    index_to_spherical_spec, Lantern, LanternFace,
};

verus! {

/// Number of pixels on the lantern.
pub const SIZE: usize = 125;

/// Number of faces of the lantern.
pub const FACES: usize = 5;

/// Kind of face a pixel lies on.
#[derive(Clone, Copy, Debug, PartialEq, Eq, Structural)]
pub enum FaceType {
    Side,
    Top,
}

/// Handle of one pixel: always below [`SIZE`].
#[derive(Clone, Copy, Debug, PartialEq, Eq, Structural)]
pub struct PixelIndex {
    idx: usize,
}

impl View for PixelIndex {
    type V = nat;

    /// The position; the type invariant keeps `idx` below [`SIZE`], so this is `idx`.
    closed spec fn view(&self) -> nat {
        if self.idx < SIZE {
            self.idx as nat
        } else {
            0
        }
    }
}

impl PixelIndex {
    #[verifier::type_invariant]
    spec fn in_range(self) -> bool {
        self.idx < SIZE
    }

    /// Every handle is below [`SIZE`].
    pub proof fn lemma_in_range(self)
        ensures
            self@ < SIZE,
    {
    }

    /// The handle of pixel `i`.
    pub fn new(i: usize) -> (r: PixelIndex)
        requires
            i < SIZE,
        ensures
            r@ == i,
            r == PixelIndex::spec_new(i as nat),
    {
        PixelIndex { idx: i }
    }

    /// The handle of pixel `i`, or `None` where `i` is out of range.
    pub fn try_new(i: usize) -> (r: Option<PixelIndex>)
        ensures
            i < SIZE ==> r == Some(PixelIndex::spec_new(i as nat)),
            (r is Some) == (i < SIZE),
            r matches Some(p) ==> p@ == i,
    {
        if i < SIZE {
            Some(PixelIndex { idx: i })
        } else {
            None
        }
    }

    /// The handle at position `i` (meaningful for `i < SIZE`).
    pub closed spec fn spec_new(i: nat) -> PixelIndex {
        PixelIndex { idx: i as usize }
    }

    /// The handle at position `i` stands at `i`.
    pub proof fn lemma_spec_new(i: nat)
        requires
            i < SIZE,
        ensures
            PixelIndex::spec_new(i)@ == i,
    {
    }

    /// Position of the pixel.
    pub fn usize(self) -> (r: usize)
        ensures
            r == self@,
    {
        proof {
            use_type_invariant(self);
        }
        self.idx
    }

    /// Face the pixel lies on.
    pub fn face(self) -> (r: LanternFace)
        ensures
            r == index_to_face_spec(self@ as int),
    {
        Lantern::index_to_face(self)
    }

    /// Kind of face the pixel lies on.
    pub fn face_type(self) -> (r: FaceType)
        ensures
            r == (if self@ >= 100 { FaceType::Top } else { FaceType::Side }),
    {
        Lantern::index_to_face_type(self)
    }

    /// Neighbour above, if any.
    pub fn up(self) -> (r: Option<PixelIndex>)
        ensures
            opt_view(r) == index_above_spec(self@ as int),
    {
        Lantern::index_above(self)
    }

    /// Neighbour below, if any.
    pub fn down(self) -> (r: Option<PixelIndex>)
        ensures
            opt_view(r) == index_below_spec(self@ as int),
    {
        Lantern::index_below(self)
    }

    /// Neighbour to the left, if any.
    pub fn left(self) -> (r: Option<PixelIndex>)
        ensures
            opt_view(r) == index_left_spec(self@ as int),
    {
        Lantern::index_left(self)
    }

    /// Neighbour to the right, if any.
    pub fn right(self) -> (r: Option<PixelIndex>)
        ensures
            opt_view(r) == index_right_spec(self@ as int),
    {
        Lantern::index_right(self)
    }

    /// The colour at this position of `xs`, if `xs` is long enough.
    pub fn get(self, xs: &[Color]) -> (r: Option<Color>)
        ensures
            r == (if self@ < xs@.len() { Some(xs@[self@ as int]) } else { None }),
    {
        let i = self.usize();
        if i < xs.len() {
            Some(xs[i])
        } else {
            None
        }
    }

    /// Continuous (azimuth, elevation) of the pixel.
    pub fn as_spherical(self) -> (r: (Fixed, Fixed))
        ensures
            (r.0@, r.1@) == index_to_spherical_spec(self@ as int),
            0 <= r.0@ < one(),
            0 <= r.1@ <= one(),
    {
        Lantern::index_to_spherical(self)
    }
}

/// Position of an optional handle.
pub open spec fn opt_view(o: Option<PixelIndex>) -> Option<int> {
    match o {
        Some(p) => Some(p@ as int),
        None => None,
    }
}

/// The handle below `p`, if any, as a spec value.
pub open spec fn below_handle(p: PixelIndex) -> Option<PixelIndex> {
    match index_below_spec(p@ as int) {
        Some(j) => Some(PixelIndex::spec_new(j as nat)),
        None => None,
    }
}

/// Restartable walk over pixels: every pixel in ascending order, or a
/// column that follows the links below a starting pixel until none is left.
#[derive(Clone, Copy, Debug, PartialEq, Eq, Structural)]
pub enum PixelIterator {
    /// Next position to hand out, all positions in ascending order.
    All(usize),
    /// Next pixel of a column, if any.
    Column(Option<PixelIndex>),
}

impl PixelIterator {
    /// One step of the walk: the position handed out, if any, and the next state.
    pub open spec fn step(self) -> (Option<int>, PixelIterator) {
        match self {
            PixelIterator::All(n) => if n < SIZE {
                (Some(n as int), PixelIterator::All((n + 1) as usize))
            } else {
                (None, self)
            },
            PixelIterator::Column(Some(p)) => (Some(p@ as int), PixelIterator::Column(below_handle(p))),
            PixelIterator::Column(None) => (None, self),
        }
    }

    /// The positions handed out by at most `k` steps, stopping at the first `None`.
    pub open spec fn run(self, k: nat) -> Seq<int>
        decreases k,
    {
        if k == 0 {
            Seq::empty()
        } else {
            match self.step() {
                (Some(i), nx) => seq![i] + nx.run((k - 1) as nat),
                (None, _) => Seq::empty(),
            }
        }
    }

    /// A walk over every pixel.
    pub fn all() -> (r: PixelIterator)
        ensures
            r == PixelIterator::All(0),
    {
        PixelIterator::All(0)
    }

    /// A walk down the column that starts at `start`.
    pub fn column(start: PixelIndex) -> (r: PixelIterator)
        ensures
            r == PixelIterator::Column(Some(start)),
    {
        PixelIterator::Column(Some(start))
    }

    /// The next pixel of the walk, if any.
    pub fn next(&mut self) -> (r: Option<PixelIndex>)
        ensures
            (opt_view(r), *final(self)) == old(self).step(),
    {
        match *self {
            PixelIterator::All(n) => {
                if n >= SIZE {
                    None
                } else {
                    *self = PixelIterator::All(n + 1);
                    Some(PixelIndex::new(n))
                }
            },
            PixelIterator::Column(c) => match c {
                Some(p) => {
                    let nx = p.down();
                    if let Some(q) = nx {
                        proof {
                            use_type_invariant(q);
                        }
                    }
                    proof {
                        lemma_below_handle(p, nx);
                    }
                    *self = PixelIterator::Column(nx);
                    Some(p)
                },
                None => None,
            },
        }
    }
}

proof fn lemma_below_handle(p: PixelIndex, nx: Option<PixelIndex>)
    requires
        opt_view(nx) == index_below_spec(p@ as int),
        nx matches Some(q) ==> q.idx < SIZE,
    ensures
        nx == below_handle(p),
{
    if let Some(q) = nx {
        assert(PixelIndex::spec_new(q@) == q);
    }
}

proof fn lemma_run_from(n: nat, k: nat)
    requires
        n <= SIZE,
        k > SIZE - n,
    ensures
        PixelIterator::All(n as usize).run(k) =~= Seq::new((SIZE - n) as nat, |i: int| n + i),
    decreases SIZE - n,
{
    if n < SIZE {
        lemma_run_from(n + 1, (k - 1) as nat);
    }
}

/// Every pixel handle lies in `[0, SIZE)`.
pub proof fn lemma_index_in_range(p: PixelIndex)
    ensures
        0 <= p@ < SIZE,
{
    p.lemma_in_range();
}

/// A full walk over every pixel hands out each of the `SIZE` positions exactly
/// once, in ascending order, and then stops.
pub proof fn lemma_all_visits_each_once()
    ensures
        PixelIterator::All(0).run((SIZE + 1) as nat) =~= Seq::new(SIZE as nat, |i: int| i),
        PixelIterator::All(SIZE).step().0 is None,
{
    lemma_run_from(0, (SIZE + 1) as nat);
}

} // verus!
