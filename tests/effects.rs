use palette::rgb::Srgb;
use palette::white_point::D65;
use palette::{Component, ConvertFrom, Lch, Pixel};
use silmaril::effect::drops::move_chance;
use silmaril::effect::flame::{Flame, PixelDraws};
use silmaril::effect::rainbow::{Orientation, Rainbow};
use silmaril::effect::solid::Solid;
use silmaril::effect::sparks::Sparks;
use silmaril::effect::storm::Storm;
use silmaril::effect::{Cloud, Drops, EffectCycle, EffectManager};
use silmaril::fixed::ONE;
use silmaril::noise::Noise;
use silmaril::pixelindex::{PixelIndex, SIZE};
use silmaril::{Color, Direction, Fixed, InputEvent, Knobs, Lantern};

fn to_rgb(c: Color) -> [u8; 3] {
    let f = |x: Fixed| x.raw() as f32 / ONE as f32;
    let lch: Lch<D65, f32> = Lch::new(f(c.l), f(c.chroma), f(c.hue));
    let rgb: Srgb<f32> = Srgb::convert_from(lch);
    let [r, g, b]: [f32; 3] = rgb.into_raw();
    [r.convert(), g.convert(), b.convert()]
}

fn black_model() -> Lantern {
    Lantern::new(Color::black())
}

#[test]
fn solid_end_to_end() {
    let mut m = EffectManager::default();
    assert_eq!(m.color, Color::from_ints(50, 100, 300));
    m.ec = EffectCycle::Solid(Solid::default());
    m.tick();
    let mut model = black_model();
    m.render(&mut model);
    let expected = to_rgb(m.color);
    for i in 0..SIZE {
        assert_eq!(model.pixels[i], m.color);
        assert_eq!(to_rgb(model.pixels[i]), expected);
    }
    assert_eq!(m.color.hue, Fixed::from_int(301));
}

#[test]
fn advancing_from_flame_starts_a_fresh_rainbow() {
    let mut m = EffectManager::default();
    assert_eq!(m.ec.name(), "Flame");
    m.handle_event(InputEvent::Press(Knobs::Knob1));
    assert_eq!(m.ec.name(), "Rainbow");
    match m.ec {
        EffectCycle::Rainbow(r) => assert_eq!(r, Rainbow::default()),
        _ => panic!("not a rainbow"),
    }
}

#[test]
fn cycle_order_both_ways() {
    let mut ec = EffectCycle::new();
    let mut names = Vec::new();
    for _ in 0..4 {
        ec.next();
        names.push(ec.name());
    }
    assert_eq!(names, vec!["Rainbow", "Solid", "Storm", "Flame"]);
    let mut names = Vec::new();
    for _ in 0..4 {
        ec.prev();
        names.push(ec.name());
    }
    assert_eq!(names, vec!["Storm", "Solid", "Rainbow", "Flame"]);
}

#[test]
fn knob_events_change_the_ambient_colour() {
    let mut m = EffectManager::default();
    m.handle_event(InputEvent::Spin(Knobs::Knob1, Direction::Clockwise));
    assert_eq!(m.color.l, Fixed::from_int(52));
    m.handle_event(InputEvent::Spin(Knobs::Knob2, Direction::CounterClockwise));
    assert_eq!(m.color.chroma, Fixed::from_int(98));
    m.color = Color::from_ints(99, 1, 0);
    m.handle_event(InputEvent::Spin(Knobs::Knob1, Direction::Clockwise));
    assert_eq!(m.color.l, Fixed::from_int(100));
    m.handle_event(InputEvent::Spin(Knobs::Knob2, Direction::CounterClockwise));
    assert_eq!(m.color.chroma, Fixed(0));
    let before = m.color;
    m.handle_event(InputEvent::Release(Knobs::Knob1));
    m.handle_event(InputEvent::Press(Knobs::Knob2));
    assert_eq!(m.color, before);
    assert_eq!(m.ec.name(), "Flame");
}

#[test]
fn third_knob_goes_to_the_effect() {
    let mut m = EffectManager::default();
    m.handle_event(InputEvent::Spin(Knobs::Knob3, Direction::Clockwise));
    assert_eq!(m.color.hue, Fixed::from_int(302));
    m.handle_event(InputEvent::Spin(Knobs::Knob3, Direction::CounterClockwise));
    m.handle_event(InputEvent::Spin(Knobs::Knob3, Direction::CounterClockwise));
    assert_eq!(m.color.hue, Fixed::from_int(298));
    m.handle_event(InputEvent::Press(Knobs::Knob1));
    m.handle_event(InputEvent::Press(Knobs::Knob3));
    match m.ec {
        EffectCycle::Rainbow(r) => assert_eq!(r.orient, Orientation::Horizontal),
        _ => panic!("not a rainbow"),
    }
    m.handle_event(InputEvent::Spin(Knobs::Knob3, Direction::Clockwise));
    match m.ec {
        EffectCycle::Rainbow(r) => assert_eq!(r.speed.raw(), (10 * ONE as i64 * 72089 / ONE as i64) as i32),
        _ => panic!("not a rainbow"),
    }
}

#[test]
fn orientation_cycles() {
    assert_eq!(Orientation::Horizontal.next(), Orientation::Vertical);
    assert_eq!(Orientation::Vertical.next(), Orientation::Spiral);
    assert_eq!(Orientation::Spiral.next(), Orientation::Horizontal);
}

#[test]
fn flame_starts_with_the_bottom_row_lit() {
    let f = Flame::default();
    for i in 0..SIZE {
        let p = PixelIndex::new(i);
        let lit = p.down().is_none();
        assert_eq!(f.heat_of(p).raw(), if lit { ONE } else { 0 }, "pixel {}", i);
    }
    assert_eq!(f.max_heat().raw(), 5 * ONE / 2);
}

#[test]
fn flame_heat_stays_bounded() {
    let mut f = Flame::default();
    let mut color = Color::from_ints(50, 100, 30);
    let max = f.max_heat().raw() as i64;
    for _ in 0..300 {
        f.tick(&mut color);
        let mut total: i64 = 0;
        for i in 0..SIZE {
            let h = f.heat_of(PixelIndex::new(i)).raw() as i64;
            assert!(0 <= h && h <= max);
            total += h;
        }
        assert!(0 <= total && total <= 125 * max);
    }
    assert_eq!(color, Color::from_ints(50, 100, 30));
}

#[test]
fn flame_render_maps_heat_to_colour() {
    let f = Flame::default();
    let color = Color::from_ints(60, 40, 30);
    let mut model = black_model();
    f.render(color, &mut model);
    // bottom row at full heat: the ambient colour itself
    assert_eq!(model.pixels[20], color);
    // cold pixel: black, hue turned by the full shift
    assert_eq!(model.pixels[0], Color { l: Fixed(0), chroma: Fixed(0), hue: Fixed::from_int(100) });
}

#[test]
fn flame_init_clears() {
    let mut f = Flame::default();
    let mut model = Lantern::new(Color::from_ints(10, 10, 10));
    f.init(&mut model);
    for i in 0..SIZE {
        assert_eq!(f.heat_of(PixelIndex::new(i)).raw(), 0);
        assert_eq!(model.pixels[i], Color::black());
    }
}

#[test]
fn rainbow_renders_by_position() {
    let mut r = Rainbow::new(Fixed::from_int(10), Fixed::from_int(360));
    r.click();
    assert_eq!(r.orient, Orientation::Horizontal);
    let color = Color::from_ints(50, 50, 0);
    let mut model = black_model();
    r.render(color, &mut model);
    // column 5 of twenty: a quarter turn round
    assert_eq!(model.pixels[25].hue, Fixed::from_int(90));
    let mut c = color;
    r.tick(&mut c);
    assert_eq!(c.hue, Fixed::from_int(10));
    r.rotate_ccw();
    assert_eq!(r.speed.raw(), (10 * ONE as i64 * 58982 / ONE as i64) as i32);
}

#[test]
fn storm_render_shapes_the_frame() {
    let s = Storm::default();
    let mut model = Lantern::new(Color::from_ints(80, 80, 305));
    s.render(Color::black(), &mut model);
    let bg = Color::from_ints(5, 5, 305);
    for i in 100..SIZE {
        let p = model.pixels[i];
        assert_eq!(p.hue, bg.hue);
        assert_eq!(p.l, p.chroma);
        assert!(0 <= p.l.raw() && p.l.raw() <= 50 * ONE);
    }
    let faded = Color::from_ints(80, 80, 305).mix(bg, Fixed::from_ratio(1, 100));
    let mut side_faded = 0;
    for i in 0..100 {
        if model.pixels[i] == faded {
            side_faded += 1;
        }
    }
    assert!(side_faded >= 100 - 8);
}

#[test]
fn storm_bolt_strikes_or_fades() {
    let bg = Color::from_ints(5, 5, 305);
    let drop = Color::from_ints(0, 0, 305);
    let f = Fixed::from_ratio(1, 100);
    let mut always = Storm::new(bg, drop, f, f, f, Fixed::one(), Fixed::from_ratio(1, 2));
    let mut c = Color::black();
    always.tick(&mut c);
    assert_eq!(always.bolt_state().1, Fixed::one());
    let a = always.bolt_state().0.raw();
    assert!(0 <= a && a < ONE);
    let mut model = Lantern::new(Color::black());
    always.render(Color::black(), &mut model);
    let col = Lantern::cylindrical_to_index(always.bolt_state().0, Fixed::one()).usize();
    assert_eq!(model.pixels[col], bg.mix(Color { l: Fixed::from_int(100), chroma: Fixed(0), hue: bg.hue }, Fixed::one()));
    let mut never = Storm::new(bg, drop, f, f, f, Fixed(0), Fixed::from_ratio(1, 2));
    never.tick(&mut c);
    assert_eq!(never.bolt_state().1, Fixed(0));
}

#[test]
fn storm_drops_fall_and_respawn() {
    let mut s = Storm::default();
    for k in 0..8 {
        let (a, h, v) = s.drop_at(k);
        assert!(0 <= a.raw() && a.raw() < ONE);
        assert!(0 <= h.raw() && h.raw() < ONE);
        assert_eq!(v.raw(), 0);
    }
    let mut c = Color::black();
    let before = s.drop_at(0);
    s.tick(&mut c);
    let after = s.drop_at(0);
    assert_eq!(after.1, before.1);
    assert_eq!(after.2, Fixed::from_ratio(1, 50));
    for _ in 0..40 {
        s.tick(&mut c);
    }
    for k in 0..8 {
        let (_, h, _) = s.drop_at(k);
        assert!(h.raw() <= ONE);
    }
}

#[test]
fn storm_knob_nudges_ambient_lightness() {
    let mut s = Storm::default();
    let mut c = Color::from_ints(50, 20, 30);
    s.rotate_cw(&mut c);
    assert_eq!(c, Color::from_ints(60, 20, 30));
    s.rotate_ccw(&mut c);
    s.rotate_ccw(&mut c);
    assert_eq!(c, Color::from_ints(40, 20, 30));
    let mut m = EffectManager::default();
    m.handle_event(InputEvent::Press(Knobs::Knob1));
    m.handle_event(InputEvent::Press(Knobs::Knob1));
    m.handle_event(InputEvent::Press(Knobs::Knob1));
    assert_eq!(m.ec.name(), "Storm");
    m.handle_event(InputEvent::Spin(Knobs::Knob3, Direction::Clockwise));
    assert_eq!(m.color.l, Fixed::from_int(60));
}

#[test]
fn noise_is_bounded_and_deterministic() {
    let a = Noise::new(137);
    let b = Noise::new(137);
    let mut distinct = std::collections::BTreeSet::new();
    for xi in -20..20 {
        for yi in -20..20 {
            let x = Fixed(xi * 23000);
            let y = Fixed(yi * 17000);
            let v = a.noise_2d(x, y);
            assert!(-ONE <= v.raw() && v.raw() <= ONE);
            assert_eq!(v, b.noise_2d(x, y));
            distinct.insert(v.raw());
            let w = a.noise_3d(x, y, Fixed(xi * yi * 5000));
            assert!(-ONE <= w.raw() && w.raw() <= ONE);
        }
    }
    assert!(distinct.len() > 10);
}

#[test]
fn noise_repeats_every_256_units() {
    let n = Noise::new(5);
    let x = Fixed(12345);
    let y = Fixed(-777);
    assert_eq!(n.noise_2d(x, y), n.noise_2d(x.saturating_add(Fixed::from_int(256)), y));
}

#[test]
fn sparks_fly_and_are_rethrown() {
    let mut s = Sparks::default();
    for k in 0..2 {
        let p = s.particle(k);
        assert_eq!(p.y, Fixed(0));
        assert!(1966 <= p.dy.raw() && p.dy.raw() < 2621);
        assert!(-655 <= p.dx.raw() && p.dx.raw() < 655);
        assert_eq!(p.color.l, Fixed::from_int(100));
    }
    let mut c = Color::black();
    let p0 = s.particle(0);
    s.tick(&mut c);
    let p1 = s.particle(0);
    assert_eq!(p1.y.raw(), p0.dy.raw());
    assert_eq!(p1.dy.raw(), p0.dy.raw() - 65);
    for _ in 0..100 {
        s.tick(&mut c);
        for k in 0..2 {
            assert!(s.particle(k).dy.raw() > 0);
        }
    }
    let mut model = Lantern::new(Color::from_ints(50, 50, 50));
    s.render(Color::black(), &mut model);
    let p = s.particle(0);
    let at = Lantern::spherical_to_index(p.x, p.y).usize();
    assert_eq!(model.pixels[at], p.color);
}

#[test]
fn cloud_lightness_tracks_noise() {
    let mut cl = Cloud::default();
    let mut c = Color::from_ints(40, 20, 200);
    cl.tick(&mut c);
    let mut model = black_model();
    cl.render(c, &mut model);
    for i in 0..SIZE {
        let p = model.pixels[i];
        assert!(0 <= p.l.raw() && p.l.raw() <= 100 * ONE);
        assert_eq!(p.chroma, c.chroma);
        assert_eq!(p.hue, c.hue);
    }
}

#[test]
fn drops_start_at_the_top_and_fall() {
    let mut d = Drops::new(Color::from_ints(60, 30, 0));
    let mut angles = std::collections::BTreeSet::new();
    for k in 0..16 {
        let (c, a, h) = d.drop_at(k);
        assert!(a < 20);
        assert_eq!(h, 7);
        assert_eq!(c.l, Fixed::from_int(60));
        angles.insert(a);
    }
    assert!(angles.len() > 1);
    let mut model = Lantern::new(Color::from_ints(50, 10, 0));
    for _ in 0..30 {
        d.tick(&mut model);
        for k in 0..16 {
            let (c, a, h) = d.drop_at(k);
            assert!(a < 20 && h <= 7);
            assert_eq!(model.get_cylinder_pixel(a, h), model.pixels[Lantern::cylinder_pixel_index(a, h).usize()]);
            let _ = c;
        }
    }
}

#[test]
fn lantern_bulk_operations() {
    let mut model = Lantern::new(Color::from_ints(50, 10, 350));
    model.darken(Fixed::from_int(5));
    model.saturate(Fixed::from_int(5));
    model.shift_hue_all(Fixed::from_int(20));
    assert_eq!(model.pixels[0], Color::from_ints(45, 15, 10));
    model.set_cylinder_pixel(0, 7, Color::black());
    assert_eq!(model.pixels[112], Color::black());
    model.clear();
    assert_eq!(model.pixels[112], Color::from_ints(50, 10, 350));
    model.set_spherical(Fixed(0), Fixed::one(), Color::black());
    assert_eq!(model.get(PixelIndex::new(112)), Color::black());
    model.set_cylindrical(Fixed(0), Fixed(0), Color::black());
    assert_eq!(model.pixels[20], Color::black());
    model.set_all(Color::black());
    assert!(model.pixels.iter().all(|&p| p == Color::black()));
}

#[test]
fn flame_steps_follow_their_rules() {
    let mut f = Flame::default();
    let half = Fixed(ONE / 2);
    // bottom-row pixel 20 (heat one) gives half to the pixel above it
    f.flow(PixelIndex::new(20), PixelIndex::new(15), half);
    assert_eq!(f.heat_of(PixelIndex::new(20)), half);
    assert_eq!(f.heat_of(PixelIndex::new(15)), half);
    // a cold pixel has nothing to give
    f.flow(PixelIndex::new(10), PixelIndex::new(5), half);
    assert_eq!(f.heat_of(PixelIndex::new(10)).raw(), 0);
    assert_eq!(f.heat_of(PixelIndex::new(5)).raw(), 0);
    // heat beyond the maximum is lost
    for _ in 0..4 {
        f.feed_by(PixelIndex::new(21), Fixed(ONE));
    }
    f.flow(PixelIndex::new(21), PixelIndex::new(20), Fixed::from_int(2));
    assert_eq!(f.heat_of(PixelIndex::new(20)), f.max_heat());
    // cooling: by the amount when hit, never below zero, the apex at once
    f.cool_by(PixelIndex::new(15), true, Fixed(ONE / 20 + 1));
    assert_eq!(f.heat_of(PixelIndex::new(15)).raw(), ONE / 2 - ONE / 20 - 1);
    f.cool_by(PixelIndex::new(15), false, Fixed(ONE / 20));
    assert_eq!(f.heat_of(PixelIndex::new(15)).raw(), ONE / 2 - ONE / 20 - 1);
    f.cool_by(PixelIndex::new(5), true, Fixed(ONE / 20));
    assert_eq!(f.heat_of(PixelIndex::new(5)).raw(), 0);
    f.flow(PixelIndex::new(24), PixelIndex::new(112), half);
    f.cool_by(PixelIndex::new(112), false, Fixed(0));
    assert_eq!(f.heat_of(PixelIndex::new(112)).raw(), 0);
    // feeding raises a bottom pixel to the fuel minimum, adds the fuel, caps it
    let mut g = Flame::default();
    g.feed_by(PixelIndex::new(22), Fixed(ONE * 3 / 10));
    assert_eq!(g.heat_of(PixelIndex::new(22)).raw(), ONE + ONE * 3 / 10);
    g.flow(PixelIndex::new(23), PixelIndex::new(18), Fixed(ONE));
    g.feed_by(PixelIndex::new(23), Fixed(ONE / 10));
    assert_eq!(g.heat_of(PixelIndex::new(23)).raw(), 62259 + ONE / 10);
    g.feed_by(PixelIndex::new(18), Fixed(ONE / 10));
    assert_eq!(g.heat_of(PixelIndex::new(18)).raw(), ONE);
}

fn draws(blow_hit: bool, cool_hit: bool) -> [PixelDraws; SIZE] {
    let tenth = Fixed::from_ratio(1, 10);
    let d = PixelDraws {
        blow_hit,
        blow_amount: tenth,
        rise_amount: tenth,
        cool_hit,
        cool_amount: Fixed::from_ratio(1, 20),
        fuel: tenth,
    };
    [d; SIZE]
}

#[test]
fn flame_step_follows_the_frame_rule() {
    // no wind draw hits, no cooling: each bottom pixel sends a tenth up,
    // then is fed back to at least 0.95 plus a tenth
    let mut f = Flame::default();
    f.step(&draws(false, false));
    let tenth = Fixed::from_ratio(1, 10).raw();
    // pixel 15 had nothing to pass on at its turn, then received a tenth from 20
    assert_eq!(f.heat_of(PixelIndex::new(15)).raw(), tenth);
    assert_eq!(f.heat_of(PixelIndex::new(10)).raw(), 0);
    assert_eq!(f.heat_of(PixelIndex::new(0)).raw(), 0);
    // 20 gave a tenth: 1 - 0.1 is below the fuel minimum, so it is raised to 0.95 and fed
    assert_eq!(f.heat_of(PixelIndex::new(20)).raw(), 62259 + tenth);
    // the wind never changes in a step
    assert_eq!(f.wind_now(), Fixed(0));
}

#[test]
fn flame_step_blows_from_the_right_in_still_air() {
    // with wind zero the source is the right neighbour
    let mut f = Flame::default();
    let mut d = draws(false, false);
    d[24].blow_hit = true;
    f.step(&d);
    // 24 drew a tenth from 45 (its right neighbour), sent a tenth up, and was fed
    assert_eq!(Lantern::index_right(PixelIndex::new(24)).map(|p| p.usize()), Some(45));
    assert_eq!(f.heat_of(PixelIndex::new(24)).raw(), 72089);
    let mut g = Flame::default();
    g.step(&draws(false, false));
    assert_eq!(g.heat_of(PixelIndex::new(24)).raw(), 68812);
}

#[test]
fn drop_move_chance_grows_with_hue() {
    assert_eq!(move_chance(Color::from_ints(50, 50, 0)), 1);
    assert_eq!(move_chance(Color::from_ints(50, 50, 60)), 2);
    assert_eq!(move_chance(Color::from_ints(50, 50, 359)), 6);
}

#[test]
fn noise_table_is_the_given_shuffle() {
    let mut s = [0u8; 255];
    // swap 0 exchanges positions 255 and 3; all later swaps are no-ops on themselves
    s[0] = 3;
    for m in 1..255 {
        s[m] = (255 - m) as u8;
    }
    let a = Noise::from_swaps(&s);
    let mut ident = [0u8; 255];
    for m in 0..255 {
        ident[m] = (255 - m) as u8;
    }
    let b = Noise::from_swaps(&ident);
    // at lattice point (3, 1): hash p[p[3] + 1] is p[0] = 0 after the swap, p[4] = 4 without
    assert_eq!(a.noise_2d(Fixed::from_int(3), Fixed::from_int(1)), Fixed(-ONE));
    assert_eq!(b.noise_2d(Fixed::from_int(3), Fixed::from_int(1)).raw(), 4 * 2 * ONE / 255 - ONE);
    assert_eq!(a.noise_2d(Fixed::from_int(7), Fixed::from_int(9)), a.noise_2d(Fixed::from_int(7), Fixed::from_int(9)));
}
