use mandelbrot::colors::{rainbow_palette, Color, Rgb};
use mandelbrot::complex::Complex;
use mandelbrot::fractal::{
    escape_iters, render_color_palette, render_escape_times, render_mandelbrot, render_pixels,
    screen_to_complex, viewport,
};
use mandelbrot::Params;

fn to_rgb(c: Color<f64>) -> Rgb {
    Rgb((c.0 * 255.0) as u8, (c.1 * 255.0) as u8, (c.2 * 255.0) as u8)
}

fn as_float(n: u16) -> f64 {
    n as f64
}

fn as_whole(n: u16) -> i64 {
    n as i64
}

fn no_leaves(_: usize, _: f64, _: f64) -> Color<f64> {
    Color(0.0, 0.0, 0.0)
}

fn rainbow_shade(n: i64, gradient: i64) -> Rgb {
    let rainbow = rainbow_palette(&as_float);
    to_rgb(rainbow.eval(n as f64, gradient as f64, &as_float, &|t: f64| t.floor() as i64, &no_leaves))
}

fn default_params(width: u16, height: u16, max_iters: i64) -> Params<f64> {
    Params {
        width,
        height,
        zoom: 1.0,
        center: Complex::new(-0.75, 0.5),
        max_iters,
        gradient_iters: None,
    }
}

fn render_rainbow(width: u16, height: u16, max_iters: i64) -> Vec<u8> {
    let params = default_params(width, height, max_iters);
    render_mandelbrot(params, as_float, rainbow_shade).serialize()
}

#[test]
fn render_pixels_goes_bottom_up_left_to_right() {
    let img = render_pixels(2, 2, |x: u16, y: u16| Rgb(x as u8 + 1, y as u8 + 10, 0));
    assert_eq!(img.width(), 2);
    assert_eq!(img.height(), 2);
    assert_eq!(img.pixels(), &vec![0u8, 11, 1, 0, 11, 2, 0, 10, 1, 0, 10, 2]);
}

#[test]
fn render_pixels_of_an_empty_image() {
    assert!(render_pixels(0, 3, |_, _| Rgb(1, 2, 3)).pixels().is_empty());
    assert!(render_pixels(3, 0, |_, _| Rgb(1, 2, 3)).pixels().is_empty());
}

#[test]
fn palette_strip_of_constant_red() {
    let red = Color(1.0f64, 0.0, 0.0).palette_fn();
    let img = render_color_palette(4, 4, |n: u32| n as f64, |at: f64, extent: f64| {
        to_rgb(red.eval(at, extent, &as_float, &|t: f64| t.floor() as i64, &no_leaves))
    });
    assert_eq!(img.pixels().len(), 48);
    for triple in img.pixels().chunks(3) {
        assert_eq!(triple, &[0u8, 0, 255]);
    }
}

#[test]
fn palette_strip_extent_is_a_quarter_of_the_sides() {
    let img = render_color_palette(3, 3, |n: u32| n as f64, |_, extent: f64| {
        to_rgb(Color(extent / 3.0, 0.0, 0.0))
    });
    // (3 + 3) / 4 = 1.5, a third of it is one half
    assert_eq!(img.pixels().len(), 27);
    for triple in img.pixels().chunks(3) {
        assert_eq!(triple, &[0u8, 0, 127]);
    }
}

#[test]
fn palette_strip_passes_position_and_extent() {
    let img = render_color_palette(3, 5, |n: u32| n as f64, |at: f64, extent: f64| {
        Rgb(at as u8, (extent * 10.0) as u8, 9)
    });
    assert_eq!(img.pixels().len(), 45);
    // the bottom row first: x + y with y = 4; the extent is 8 / 4 = 2
    assert_eq!(&img.pixels()[0..9], &[9u8, 20, 4, 9, 20, 5, 9, 20, 6]);
    // the top row last
    assert_eq!(&img.pixels()[36..45], &[9u8, 20, 0, 9, 20, 1, 9, 20, 2]);
}

#[test]
fn palette_strip_over_whole_numbers() {
    // over whole numbers the quarter is cut: (3 + 3) / 4 = 1
    let img = render_color_palette(3, 3, |n: u32| n as i64, |at: i64, extent: i64| {
        Rgb(at as u8, extent as u8, 0)
    });
    assert_eq!(&img.pixels()[0..3], &[0u8, 1, 2]);
}

#[test]
fn palette_strip_sums_do_not_wrap() {
    let tall = render_color_palette(40000, 1, |n: u32| n as f64, |_, extent: f64| {
        Rgb((extent / 100.0) as u8, 0, 0)
    });
    let mut seen = 0u32;
    for triple in tall.pixels().chunks(3) {
        // 40001 / 4 = 10000.25
        assert_eq!(triple, &[0u8, 0, 100]);
        seen += 1;
    }
    assert_eq!(seen, 40000);
    let wide = render_color_palette(65535, 1, |n: u32| n as f64, |at: f64, extent: f64| {
        Rgb((at / 1000.0) as u8, (extent / 1000.0) as u8, 0)
    });
    // the last pixel stands at 65534, and the extent is 65536 / 4
    let last = &wide.pixels()[65534 * 3..];
    assert_eq!(last, &[0u8, 16, 65]);
}

#[test]
fn escape_times_color_members_black_and_others_by_escape() {
    let mapper = |x: u16, y: u16| Complex::new(x as i64 - 2, 1 - y as i64);
    let palette = |n: i64, gradient: i64| Rgb(n as u8 + 1, gradient as u8, 7);
    let img = render_escape_times(5, 3, 20, None, &as_whole, mapper, palette);
    assert_eq!(img.pixels().len(), 45);
    let at = |x: usize, y: usize| {
        let start = ((2 - y) * 5 + x) * 3;
        let px = &img.pixels()[start..start + 3];
        Rgb(px[2], px[1], px[0])
    };
    // 0, -1 and -2 stay bounded
    assert_eq!(at(2, 1), Rgb(0, 0, 0));
    assert_eq!(at(1, 1), Rgb(0, 0, 0));
    assert_eq!(at(0, 1), Rgb(0, 0, 0));
    // 1 escapes at the third iteration, 2 at the second
    assert_eq!(at(3, 1), Rgb(3, 20, 7));
    assert_eq!(at(4, 1), Rgb(2, 20, 7));
    // i is periodic
    assert_eq!(at(2, 0), Rgb(0, 0, 0));
    // -2 + i: (-2, 1), (1, -3), (-10, -5)
    assert_eq!(at(0, 0), Rgb(3, 20, 7));
    for y in 0..3u16 {
        for x in 0..5u16 {
            let expected = match escape_iters(mapper(x, y), 20, &as_whole) {
                None => Rgb(0, 0, 0),
                Some(n) => palette(n, 20),
            };
            assert_eq!(at(x as usize, y as usize), expected);
        }
    }
}

#[test]
fn escape_times_gradient_override_reaches_the_palette() {
    let mapper = |_: u16, _: u16| Complex::new(5i64, 0);
    let palette = |n: i64, gradient: i64| Rgb(n as u8, gradient as u8, 0);
    let plain = render_escape_times(1, 1, 30, None, &as_whole, mapper, palette);
    assert_eq!(plain.pixels(), &vec![0u8, 30, 0]);
    let tuned = render_escape_times(1, 1, 30, Some(12), &as_whole, mapper, palette);
    assert_eq!(tuned.pixels(), &vec![0u8, 12, 0]);
}

#[test]
fn escape_times_with_no_iterations_are_black() {
    let mapper = |_: u16, _: u16| Complex::new(5i64, 0);
    let palette = |_: i64, _: i64| Rgb(255, 255, 255);
    let img = render_escape_times(2, 2, 0, None, &as_whole, mapper, palette);
    assert_eq!(img.pixels(), &vec![0u8; 12]);
}

#[test]
fn mandelbrot_render_is_deterministic() {
    let first = render_rainbow(300, 200, 1000);
    let second = render_rainbow(300, 200, 1000);
    assert_eq!(first.len(), 300 * 200 * 3 + 26);
    assert_eq!(first, second);
    assert_eq!(&first[0..2], b"BM");
    assert_eq!(&first[2..6], &[0x3a, 0xbf, 0x02, 0x00]);
}

#[test]
fn mandelbrot_render_shows_the_set() {
    let bytes = render_rainbow(30, 20, 200);
    let pixel = |x: usize, y: usize| {
        let start = 26 + ((19 - y) * 30 + x) * 3;
        (bytes[start + 2], bytes[start + 1], bytes[start])
    };
    // the bottom right corner of the viewport is near the origin: in the set
    assert_eq!(pixel(29, 19), (0, 0, 0));
    // the top left corner, -1.5 + i, escapes on the third iteration
    let top_left = Complex::new(-1.5f64, 1.0);
    assert_eq!(escape_iters(top_left, 200, &as_float), Some(2));
    let Rgb(r, g, b) = rainbow_shade(2, 200);
    assert_eq!(pixel(0, 0), (r, g, b));
}

#[test]
fn mandelbrot_derives_viewport_and_maps_pixels() {
    let params = Params {
        width: 24,
        height: 16,
        zoom: 0.5,
        center: Complex::new(-0.5f64, 0.0),
        max_iters: 60,
        gradient_iters: Some(25),
    };
    let img = render_mandelbrot(params, as_float, rainbow_shade);
    let (top_left, bottom_right) = viewport(params.center, params.zoom, 24, 16, &as_float);
    assert_eq!((top_left.r, top_left.i), (-2.0, 1.0));
    assert_eq!((bottom_right.r, bottom_right.i), (1.0, -1.0));
    let by_hand = render_escape_times(
        24,
        16,
        60,
        Some(25),
        &as_float,
        |x: u16, y: u16| screen_to_complex(24.0, 16.0, top_left, bottom_right, x as f64, y as f64),
        rainbow_shade,
    );
    assert_eq!(img.pixels(), by_hand.pixels());
    assert_eq!(img.pixels().len(), 24 * 16 * 3);
    // the centre of the image is -0.5 + 0i, inside the set
    let start = ((15 - 8) * 24 + 12) * 3;
    assert_eq!(&img.pixels()[start..start + 3], &[0u8, 0, 0]);
    // the top left corner, -2 + i, escapes at the third iteration
    assert_eq!(escape_iters(top_left, 60, &as_float), Some(2));
    let Rgb(r, g, b) = rainbow_shade(2, 25);
    let corner = (15 * 24) * 3;
    assert_eq!(&img.pixels()[corner..corner + 3], &[b, g, r]);
}

#[test]
fn mandelbrot_over_whole_numbers() {
    let params = Params {
        width: 4,
        height: 4,
        zoom: 1i64,
        center: Complex::new(0i64, 0),
        max_iters: 10,
        gradient_iters: None,
    };
    let img = render_mandelbrot(params, as_whole, |n: i64, gradient: i64| {
        Rgb(n as u8 + 1, gradient as u8, 0)
    });
    assert_eq!(img.pixels().len(), 48);
    // half of one is zero: both corners are the centre, and every pixel is the origin
    assert_eq!(img.pixels(), &vec![0u8; 48]);
}
