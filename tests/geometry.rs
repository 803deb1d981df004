use silmaril::model::lantern::Lantern;
use silmaril::pixelindex::{FaceType, PixelIndex, PixelIterator, SIZE};
use silmaril::{Fixed, LanternFace};

fn px(i: usize) -> PixelIndex {
    PixelIndex::new(i)
}

fn pos(p: Option<PixelIndex>) -> Option<usize> {
    p.map(|q| q.usize())
}

#[test]
fn full_iteration_yields_each_index_once() {
    let mut it = PixelIterator::all();
    let mut seen = vec![false; SIZE];
    let mut count = 0;
    while let Some(p) = it.next() {
        assert!(p.usize() < SIZE);
        assert_eq!(p.usize(), count);
        assert!(!seen[p.usize()]);
        seen[p.usize()] = true;
        count += 1;
    }
    assert_eq!(count, 125);
    assert!(seen.iter().all(|&s| s));
    assert!(it.next().is_none());
}

#[test]
fn iteration_restarts() {
    let first: Vec<usize> = {
        let mut it = PixelIterator::all();
        let mut v = Vec::new();
        while let Some(p) = it.next() {
            v.push(p.usize());
        }
        v
    };
    let mut again = PixelIterator::all();
    assert_eq!(again.next().map(|p| p.usize()), Some(first[0]));
}

#[test]
fn try_new_checks_range() {
    assert_eq!(PixelIndex::try_new(124).map(|p| p.usize()), Some(124));
    assert!(PixelIndex::try_new(125).is_none());
}

#[test]
fn above_below_round_trip_everywhere() {
    for i in 0..SIZE {
        if let Some(b) = px(i).down() {
            assert_eq!(pos(b.up()), Some(i), "pixel {}", i);
        }
    }
}

#[test]
fn side_neighbours() {
    assert_eq!(pos(px(0).down()), Some(5));
    assert_eq!(pos(px(7).up()), Some(2));
    assert_eq!(pos(px(20).down()), None);
    assert_eq!(pos(px(0).left()), Some(79));
    assert_eq!(pos(px(4).right()), Some(25));
    assert_eq!(pos(px(99).right()), Some(20));
    assert_eq!(pos(px(26).left()), Some(25));
}

#[test]
fn side_top_rows_lead_onto_the_cap() {
    assert_eq!(pos(px(0).up()), Some(124));
    assert_eq!(pos(px(4).up()), Some(104));
    assert_eq!(pos(px(25).up()), Some(104));
    assert_eq!(pos(px(50).up()), Some(100));
    assert_eq!(pos(px(53).up()), Some(115));
    assert_eq!(pos(px(75).up()), Some(120));
}

#[test]
fn cap_neighbours_and_apex() {
    assert_eq!(pos(px(112).up()), None);
    assert_eq!(pos(px(112).left()), None);
    assert_eq!(pos(px(112).right()), None);
    assert_eq!(pos(px(112).down()), Some(113));
    assert_eq!(pos(px(100).down()), Some(29));
    assert_eq!(pos(px(106).up()), Some(112));
    assert_eq!(pos(px(100).up()), Some(106));
    assert_eq!(pos(Lantern::index_top()), Some(112));
}

#[test]
fn seam_folds_are_many_to_one() {
    assert_eq!(pos(px(101).up()), Some(107));
    assert_eq!(pos(px(102).up()), Some(107));
    assert_eq!(pos(px(103).up()), Some(107));
}

#[test]
fn left_right_are_inverse() {
    for i in 0..SIZE {
        if let Some(l) = px(i).left() {
            assert_eq!(pos(l.right()), Some(i));
        }
        if let Some(r) = px(i).right() {
            assert_eq!(pos(r.left()), Some(i));
        }
    }
}

#[test]
fn faces() {
    assert_eq!(px(0).face(), LanternFace::South);
    assert_eq!(px(30).face(), LanternFace::East);
    assert_eq!(px(60).face(), LanternFace::North);
    assert_eq!(px(99).face(), LanternFace::West);
    assert_eq!(px(100).face(), LanternFace::Top);
    assert_eq!(px(99).face_type(), FaceType::Side);
    assert_eq!(px(124).face_type(), FaceType::Top);
}

#[test]
fn spherical_coordinates() {
    let (a, e) = px(0).as_spherical();
    assert_eq!((a.raw(), e.raw()), (0, 37449));
    let (a, e) = px(57).as_spherical();
    assert_eq!((a.raw(), e.raw()), (39322, 28086));
    let (a, e) = px(112).as_spherical();
    assert_eq!((a.raw(), e.raw()), (0, 65536));
    let (a, e) = px(100).as_spherical();
    assert_eq!((a.raw(), e.raw()), (32768, 46811));
}

#[test]
fn spherical_round_trip_off_the_middle_ring() {
    let middle = [106, 107, 108, 111, 113, 116, 117];
    for i in 0..SIZE {
        let (a, e) = px(i).as_spherical();
        let back = Lantern::spherical_to_index(a, e).usize();
        if middle.contains(&i) {
            assert_ne!(back, i, "pixel {}", i);
        } else {
            assert_eq!(back, i, "pixel {}", i);
        }
    }
}

#[test]
fn middle_ring_folds_onto_a_neighbour() {
    let (a, e) = px(113).as_spherical();
    assert_eq!(Lantern::spherical_to_index(a, e).usize(), 118);
}

#[test]
fn cylindrical_quantisation() {
    let idx = Lantern::cylindrical_to_index(Fixed(0), Fixed(0));
    assert_eq!(idx.usize(), 20);
    let idx = Lantern::cylindrical_to_index(Fixed::from_ratio(1, 2), Fixed::one());
    assert_eq!(idx.usize(), 50);
    // azimuth wraps round, heights clamp
    let idx = Lantern::cylindrical_to_index(Fixed(-1), Fixed::from_int(-3));
    assert_eq!(idx.usize(), 99);
    let idx = Lantern::cylindrical_to_index(Fixed(65536 + 8192), Fixed::from_int(9));
    assert_eq!(idx.usize(), 2);
}

#[test]
fn spherical_quantisation_on_the_cap() {
    assert_eq!(Lantern::spherical_to_index(Fixed(0), Fixed::one()).usize(), 112);
    assert_eq!(Lantern::spherical_to_index(Fixed(0), Fixed::from_ratio(6, 7)).usize(), 118);
    assert_eq!(Lantern::spherical_to_index(Fixed::from_ratio(1, 2), Fixed::from_ratio(5, 7)).usize(), 100);
    assert_eq!(Lantern::spherical_to_index(Fixed(0), Fixed::from_ratio(1, 2)).usize(), 0);
    assert_eq!(Lantern::spherical_to_index(Fixed(0), Fixed::from_ratio(1, 10)).usize(), 20);
}

#[test]
fn cylinder_pixels() {
    assert_eq!(Lantern::cylinder_pixel_index(0, 0).usize(), 20);
    assert_eq!(Lantern::cylinder_pixel_index(3, 4).usize(), 3);
    assert_eq!(Lantern::cylinder_pixel_index(7, 2).usize(), 37);
    assert_eq!(Lantern::cylinder_pixel_index(27, 2).usize(), 37);
    assert_eq!(Lantern::cylinder_pixel_index(0, 5).usize(), 124);
    assert_eq!(Lantern::cylinder_pixel_index(0, 6).usize(), 118);
    assert_eq!(Lantern::cylinder_pixel_index(0, 7).usize(), 112);
    assert_eq!(Lantern::cylinder_pixel_index(255, 255).usize(), 112);
}

#[test]
fn column_walk_follows_links_down() {
    let model = Lantern::new(silmaril::Color::black());
    let mut it = model.column_iter(Fixed(0));
    let mut v = Vec::new();
    while let Some(p) = it.next() {
        v.push(p.usize());
    }
    assert_eq!(v, vec![0, 5, 10, 15, 20]);
    let mut it = PixelIterator::column(px(112));
    let mut v = Vec::new();
    while let Some(p) = it.next() {
        v.push(p.usize());
    }
    assert_eq!(v, vec![112, 113, 114, 2, 7, 12, 17, 22]);
}
