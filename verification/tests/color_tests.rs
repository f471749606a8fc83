use mandelbrot::colors::{
    blend, blend_at, glue, glue_at, leaf, rainbow_palette, rainbow_stop, wrapping, wrapping_at, Color,
    Glued, Palette, Rgb,
};
use mandelbrot::complex::apply;

fn channels(c: Color<f64>) -> (f64, f64, f64) {
    (c.0, c.1, c.2)
}

fn number(n: u16) -> f64 {
    n as f64
}

fn count(n: u16) -> i64 {
    n as i64
}

// the caller's own gradients: the position as red, or the length as blue
fn own(k: usize, iters: f64, max_iters: f64) -> Color<f64> {
    if k == 0 {
        Color(iters, 0.0, 0.0)
    } else {
        Color(0.0, 0.0, max_iters)
    }
}

fn whole(t: f64) -> i64 {
    t.floor() as i64
}

fn same(t: i64) -> i64 {
    t
}

fn at(palette: &Palette<f64>, iters: f64, max_iters: f64) -> (f64, f64, f64) {
    channels(palette.eval(iters, max_iters, &number, &whole, &own))
}

fn rainbow(iters: f64, max_iters: f64) -> (f64, f64, f64) {
    at(&rainbow_palette(&number), iters, max_iters)
}

fn black_to_white() -> Palette<f64> {
    blend(Color(0.0f64, 0.0, 0.0).palette_fn(), Color(1.0f64, 1.0, 1.0).palette_fn())
}

fn red_to_blue() -> Palette<f64> {
    blend(Color(1.0f64, 0.0, 0.0).palette_fn(), Color(0.0f64, 0.0, 1.0).palette_fn())
}

#[test]
fn normalize_divides_by_largest_channel() {
    assert_eq!(channels(Color(2.0f64, 4.0, 1.0).normalize()), (0.5, 1.0, 0.25));
    assert_eq!(channels(Color(8.0f64, 4.0, 1.0).normalize()), (1.0, 0.5, 0.125));
    assert_eq!(channels(Color(1.0f64, 4.0, 16.0).normalize()), (0.0625, 0.25, 1.0));
}

#[test]
fn normalize_on_whole_numbers() {
    let c = Color(6i64, 3, 12).normalize();
    assert_eq!((c.0, c.1, c.2), (0, 0, 1));
}

#[test]
fn color_sum_is_channelwise() {
    assert_eq!(channels(Color(0.25f64, 0.5, 1.0) + Color(1.0f64, 2.0, 4.0)), (1.25, 2.5, 5.0));
}

#[test]
fn scale_multiplies_every_channel() {
    assert_eq!(channels(Color(0.25f64, 0.5, 1.0).scale(2.0)), (0.5, 1.0, 2.0));
}

#[test]
fn blend_at_is_a_linear_crossfade() {
    let black = Color(0.0f64, 0.0, 0.0);
    let red = Color(1.0f64, 0.0, 0.0);
    assert_eq!(channels(blend_at(black, red, 25.0, 100.0, &number)), (0.25, 0.0, 0.0));
    assert_eq!(channels(blend_at(black, red, 0.0, 100.0, &number)), (0.0, 0.0, 0.0));
    let a = Color(1.0f64, 0.5, 0.0);
    let b = Color(0.0f64, 0.5, 2.0);
    assert_eq!(channels(blend_at(a, b, 75.0, 100.0, &number)), (0.25, 0.5, 1.5));
}

#[test]
fn glue_at_boundary_goes_to_second() {
    match glue_at(50.0f64, 100.0, 0.5, &number) {
        Glued::Second(t) => assert_eq!(t, 0.0),
        Glued::First(_) => panic!("the split belongs to the second half"),
    }
}

#[test]
fn glue_at_rescales_each_half() {
    match glue_at(25.0f64, 100.0, 0.5, &number) {
        Glued::First(t) => assert_eq!(t, 50.0),
        Glued::Second(_) => panic!("below the split"),
    }
    match glue_at(75.0f64, 100.0, 0.5, &number) {
        Glued::Second(t) => assert_eq!(t, 50.0),
        Glued::First(_) => panic!("above the split"),
    }
    match glue_at(50.0f64, 100.0, 0.25, &number) {
        Glued::Second(t) => assert_eq!(t, (50.0 - 25.0) / 0.75),
        Glued::First(_) => panic!("above the split"),
    }
}

#[test]
fn wrapping_at_reverses_odd_periods() {
    assert_eq!(wrapping_at(150.0f64, 100.0, &whole), 50.0);
    assert_eq!(wrapping_at(130.0f64, 100.0, &whole), 70.0);
    assert_eq!(wrapping_at(100.0f64, 100.0, &whole), 100.0);
}

#[test]
fn wrapping_at_keeps_even_periods() {
    assert_eq!(wrapping_at(50.0f64, 100.0, &whole), 50.0);
    assert_eq!(wrapping_at(230.0f64, 100.0, &whole), 30.0);
    assert_eq!(wrapping_at(0.0f64, 100.0, &whole), 0.0);
}

#[test]
fn wrapping_at_on_whole_numbers() {
    assert_eq!(wrapping_at(150i64, 100, &same), 50);
    assert_eq!(wrapping_at(-150i64, 100, &same), 150);
}

#[test]
fn rainbow_stops_are_the_named_colors() {
    let stops: Vec<(f64, f64, f64)> =
        (0u8..9).map(|k| channels(rainbow_stop(k, &number))).collect();
    assert_eq!(
        stops,
        vec![
            (0.0, 0.0, 0.0),
            (1.0, 0.0, 0.0),
            (1.0, 1.0, 0.0),
            (0.0, 1.0, 0.0),
            (0.0, 1.0, 0.0),
            (0.0, 1.0, 1.0),
            (0.0, 0.0, 1.0),
            (1.0, 0.0, 1.0),
            (1.0, 1.0, 1.0),
        ]
    );
}

#[test]
fn rainbow_passes_through_its_stops() {
    assert_eq!(rainbow(0.0, 100.0), (0.0, 0.0, 0.0));
    assert_eq!(rainbow(12.5, 100.0), (1.0, 0.0, 0.0));
    assert_eq!(rainbow(25.0, 100.0), (1.0, 1.0, 0.0));
    assert_eq!(rainbow(37.5, 100.0), (0.0, 1.0, 0.0));
    assert_eq!(rainbow(50.0, 100.0), (0.0, 1.0, 0.0));
    assert_eq!(rainbow(62.5, 100.0), (0.0, 1.0, 1.0));
    assert_eq!(rainbow(75.0, 100.0), (0.0, 0.0, 1.0));
    assert_eq!(rainbow(87.5, 100.0), (1.0, 0.0, 1.0));
}

#[test]
fn rainbow_crossfades_within_a_segment() {
    // a sixteenth of the way: half way from black to red
    assert_eq!(rainbow(6.25, 100.0), (0.5, 0.0, 0.0));
    // three quarters of the last segment, from magenta to white
    assert_eq!(rainbow(96.875, 100.0), (1.0, 0.75, 1.0));
}

#[test]
fn rainbow_reflects_in_odd_periods() {
    assert_eq!(rainbow(150.0, 100.0), rainbow(50.0, 100.0));
    assert_eq!(rainbow(175.0, 100.0), rainbow(25.0, 100.0));
    assert_eq!(rainbow(225.0, 100.0), rainbow(25.0, 100.0));
    // the end of the first period is white, read backward from the top
    assert_eq!(rainbow(100.0, 100.0), (1.0, 1.0, 1.0));
}

#[test]
fn rainbow_agrees_with_its_tree_of_combinators() {
    let stop = |k: u8| rainbow_stop(k, &number);
    let leaf = |k: u8, t: f64, max: f64| blend_at(stop(k), stop(k + 1), t, max, &number);
    let pair = |k: u8, t: f64, max: f64| match glue_at(t, max, 0.5, &number) {
        Glued::First(u) => leaf(k, u, max),
        Glued::Second(u) => leaf(k + 1, u, max),
    };
    let quad = |k: u8, t: f64, max: f64| match glue_at(t, max, 0.5, &number) {
        Glued::First(u) => pair(k, u, max),
        Glued::Second(u) => pair(k + 2, u, max),
    };
    let all = |t: f64, max: f64| match glue_at(t, max, 0.5, &number) {
        Glued::First(u) => quad(0, u, max),
        Glued::Second(u) => quad(4, u, max),
    };
    let palette = rainbow_palette(&number);
    for step in 0..700 {
        let iters = step as f64 * 0.5;
        let max = 70.0f64;
        let folded = wrapping_at(iters, max, &whole);
        assert_eq!(at(&palette, iters, max), channels(all(folded, max)));
    }
}

#[test]
fn constant_palette_ignores_its_inputs() {
    let red = Color(1.0f64, 0.0, 0.0).palette_fn();
    assert_eq!(at(&red, 0.0, 100.0), (1.0, 0.0, 0.0));
    assert_eq!(at(&red, 250.0, 3.0), (1.0, 0.0, 0.0));
    assert_eq!(at(&red, -7.0, 0.0), (1.0, 0.0, 0.0));
}

#[test]
fn blend_crossfades_two_palettes() {
    assert_eq!(at(&black_to_white(), 25.0, 100.0), (0.25, 0.25, 0.25));
    assert_eq!(at(&red_to_blue(), 75.0, 100.0), (0.25, 0.0, 0.75));
    let nested = blend(black_to_white(), red_to_blue());
    // 0.5 * (0.5, 0.5, 0.5) + 0.5 * (0.5, 0, 0.5)
    assert_eq!(at(&nested, 50.0, 100.0), (0.5, 0.25, 0.5));
}

#[test]
fn glue_boundary_is_second_palette_at_zero() {
    let glued = glue(black_to_white(), red_to_blue(), 0.5);
    assert_eq!(at(&glued, 50.0, 100.0), at(&red_to_blue(), 0.0, 100.0));
    assert_eq!(at(&glued, 50.0, 100.0), (1.0, 0.0, 0.0));
}

#[test]
fn glue_rescales_both_palettes() {
    let glued = glue(black_to_white(), red_to_blue(), 0.5);
    assert_eq!(at(&glued, 25.0, 100.0), at(&black_to_white(), 50.0, 100.0));
    assert_eq!(at(&glued, 25.0, 100.0), (0.5, 0.5, 0.5));
    assert_eq!(at(&glued, 75.0, 100.0), at(&red_to_blue(), 50.0, 100.0));
    let uneven = glue(black_to_white(), red_to_blue(), 0.25);
    assert_eq!(at(&uneven, 12.5, 100.0), at(&black_to_white(), 50.0, 100.0));
    assert_eq!(at(&uneven, 62.5, 100.0), at(&red_to_blue(), 50.0, 100.0));
}

#[test]
fn wrapping_odd_period_runs_backward() {
    let wrapped = wrapping(red_to_blue());
    assert_eq!(at(&wrapped, 150.0, 100.0), at(&red_to_blue(), 50.0, 100.0));
    assert_eq!(at(&wrapped, 130.0, 100.0), at(&red_to_blue(), 70.0, 100.0));
    assert_eq!(at(&wrapped, 130.0, 100.0), (1.0 - 0.7, 0.0, 0.7));
}

#[test]
fn wrapping_even_period_runs_forward() {
    let wrapped = wrapping(red_to_blue());
    assert_eq!(at(&wrapped, 30.0, 100.0), at(&red_to_blue(), 30.0, 100.0));
    assert_eq!(at(&wrapped, 230.0, 100.0), at(&red_to_blue(), 30.0, 100.0));
}

#[test]
fn palette_over_whole_numbers() {
    let ramp = wrapping(blend(Color(7i64, 8, 9).palette_fn(), Color(100i64, 0, 0).palette_fn()));
    let same = |t: i64| t;
    // the third period is odd: read at 1 - 0, the far end of the crossfade
    let c = ramp.eval(3, 1, &count, &same, &|_, _, _| Color(0i64, 0, 0));
    assert_eq!((c.0, c.1, c.2), (100, 0, 0));
    // the second is even: read at 0, its near end
    let d = ramp.eval(2, 1, &count, &same, &|_, _, _| Color(0i64, 0, 0));
    assert_eq!((d.0, d.1, d.2), (7, 8, 9));
}

#[test]
fn color_from_triple() {
    let c: Color<f64> = Color::from((0.25, 0.5, 1.0));
    assert_eq!(channels(c), (0.25, 0.5, 1.0));
}

#[test]
fn apply_calls_the_function() {
    assert_eq!(apply(&whole, 150.75), 150);
    assert_eq!(apply(&whole, -2.5), -3);
    assert_eq!(apply(&|t: i64| t / 10, 57), 5);
}

#[test]
fn rgb_from_color_scales_and_narrows() {
    let narrow = |v: f64| v as u8;
    assert_eq!(Rgb::from_color(Color(1.0f64, 0.0, 0.5), &number, &narrow), Rgb(255, 0, 127));
    assert_eq!(Rgb::from_color(Color(0.2f64, 0.4, 0.999), &number, &narrow), Rgb(51, 102, 254));
    // what lies beyond the range of a byte stops at its ends
    assert_eq!(Rgb::from_color(Color(1.5f64, -0.25, 1.0), &number, &narrow), Rgb(255, 0, 255));
}

#[test]
fn color_from_rgb_widens_and_divides() {
    let widen = |b: u8| b as f64;
    let c = Color::from_rgb(Rgb(255, 0, 51), &widen);
    assert_eq!(channels(c), (1.0, 0.0, 0.2));
}

#[test]
fn wrapping_at_takes_parity_from_the_quotient() {
    // 7 / 2.5 = 2.8: two whole periods, an even count, and 7 mod 2.5 = 2
    assert_eq!(wrapping_at(7.0f64, 2.5, &whole), 2.0);
    // 4 / 2.5 = 1.6: one whole period, odd, read backward from 2.5 - 1.5
    assert_eq!(wrapping_at(4.0f64, 2.5, &whole), 1.0);
    // the same in tenths
    assert_eq!(wrapping_at(70i64, 25, &same), 20);
    assert_eq!(wrapping_at(40i64, 25, &same), 10);
}

#[test]
fn wrapping_at_short_periods() {
    // a period shorter than one: 0.75 / 0.5 = 1.5, odd, 0.5 - 0.25
    assert_eq!(wrapping_at(0.75f64, 0.5, &whole), 0.25);
    assert_eq!(wrapping_at(1.125f64, 0.5, &whole), 0.125);
}

#[test]
fn wrapping_palette_on_a_fractional_period() {
    let ramp = wrapping(blend(Color(0.0f64, 0.0, 0.0).palette_fn(), Color(5.0f64, 0.0, 0.0).palette_fn()));
    // forward at 2 out of 2.5: four fifths of the way
    assert_eq!(at(&ramp, 7.0, 2.5), (4.0, 0.0, 0.0));
    assert_eq!(at(&ramp, 7.0, 2.5), at(&black_to(5.0), 2.0, 2.5));
}

fn black_to(red: f64) -> Palette<f64> {
    blend(Color(0.0f64, 0.0, 0.0).palette_fn(), Color(red, 0.0, 0.0).palette_fn())
}

#[test]
fn wrapping_repeats_after_two_periods() {
    for iters in [0i64, 3, 9, 10, 14, 19] {
        assert_eq!(wrapping_at(iters + 20, 10, &same), wrapping_at(iters, 10, &same));
    }
}

#[test]
fn leaf_gives_what_the_own_gradient_gives() {
    assert_eq!(at(&leaf(0), 3.5, 10.0), (3.5, 0.0, 0.0));
    assert_eq!(at(&leaf(1), 3.5, 10.0), (0.0, 0.0, 10.0));
}

#[test]
fn wrapping_a_leaf_on_a_fractional_period() {
    let wrapped = wrapping(leaf(0));
    // floor(7 / 2.5) = 2 is even, and 7 mod 2.5 = 2
    assert_eq!(at(&wrapped, 7.0, 2.5), (2.0, 0.0, 0.0));
    // floor(4 / 2.5) = 1 is odd: 2.5 - 1.5
    assert_eq!(at(&wrapped, 4.0, 2.5), (1.0, 0.0, 0.0));
    assert_eq!(at(&wrapped, 150.0, 100.0), (50.0, 0.0, 0.0));
}

#[test]
fn glue_of_leaves_rescales_the_position() {
    let glued = glue(leaf(0), leaf(0), 0.5);
    assert_eq!(at(&glued, 50.0, 100.0), (0.0, 0.0, 0.0));
    assert_eq!(at(&glued, 25.0, 100.0), (50.0, 0.0, 0.0));
    assert_eq!(at(&glued, 75.0, 100.0), (50.0, 0.0, 0.0));
    let mixed = blend(leaf(0), leaf(1));
    // 0.75 * (25, 0, 0) + 0.25 * (0, 0, 100)
    assert_eq!(at(&mixed, 25.0, 100.0), (18.75, 0.0, 25.0));
}
