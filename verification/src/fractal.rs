use vstd::prelude::*;
use vstd::std_specs::ops::{AddSpec, DivSpec, MulSpec, SubSpec};
use std::ops::Div;
use crate::bitmap::{pixel_bytes, stored_pixel, Bitmap};
use crate::colors::Rgb;
use crate::complex::{
    apply, as_function, exceeds, is_function, obeys_arith, obeys_order, zero_of, Complex, Number,
};
use crate::Params;

verus! {

/// `span · at / extent`: how far into a span of the plane the position `at`
/// out of `extent` lies.
pub open spec fn interpolate<T: Number<T> + Div<Output = T>>(span: T, at: T, extent: T) -> T {
    span.mul_spec(at).div_spec(extent)
}

/// The point of the plane that the pixel at column `x` of row `y` stands
/// for, in an image of `width` by `height` pixels that shows the rectangle
/// between `top_left` and `bottom_right`.
pub open spec fn spec_screen_to_complex<T: Number<T> + Div<Output = T>>(
    width: T,
    height: T,
    top_left: Complex<T>,
    bottom_right: Complex<T>,
    x: T,
    y: T,
) -> Complex<T> {
    Complex {
        r: top_left.r.add_spec(interpolate(bottom_right.r.sub_spec(top_left.r), x, width)),
        i: top_left.i.add_spec(interpolate(bottom_right.i.sub_spec(top_left.i), y, height)),
    }
}

/// The operations of interpolating along one axis are all permitted.
pub open spec fn axis_permitted<T: Number<T> + Div<Output = T>>(
    from: T,
    to: T,
    at: T,
    extent: T,
) -> bool {
    &&& to.sub_req(from)
    &&& to.sub_spec(from).mul_req(at)
    &&& to.sub_spec(from).mul_spec(at).div_req(extent)
    &&& from.add_req(interpolate(to.sub_spec(from), at, extent))
}

/// Maps a pixel to its point of the plane by linear interpolation between
/// the corners of the viewport.
pub fn screen_to_complex<T: Number<T> + Div<Output = T>>(
    width: T,
    height: T,
    top_left: Complex<T>,
    bottom_right: Complex<T>,
    x: T,
    y: T,
) -> (c: Complex<T>)
    requires
        obeys_arith::<T>(),
        T::obeys_div_spec(),
        axis_permitted(top_left.r, bottom_right.r, x, width),
        axis_permitted(top_left.i, bottom_right.i, y, height),
    ensures
        c == spec_screen_to_complex(width, height, top_left, bottom_right, x, y),
{
    let complex_width = bottom_right.r - top_left.r;
    let complex_height = bottom_right.i - top_left.i;
    let w = complex_width * x / width;
    let h = complex_height * y / height;
    top_left + Complex::new(w, h)
}

/// The height of the viewport at the given zoom: `1 / zoom`.
pub open spec fn viewport_height<T: Number<T> + Div<Output = T>>(zoom: T, one: T) -> T {
    one.div_spec(zoom)
}

/// The width of the viewport: its height times the image's aspect ratio.
pub open spec fn viewport_width<T: Number<T> + Div<Output = T>>(
    zoom: T,
    width: T,
    height: T,
    one: T,
) -> T {
    viewport_height(zoom, one).mul_spec(width.div_spec(height))
}

/// The top left and the bottom right corner of the viewport: half its width
/// and half its height away from the centre, the imaginary axis pointing up.
pub open spec fn spec_viewport<T: Number<T> + Div<Output = T>>(
    center: Complex<T>,
    zoom: T,
    width: T,
    height: T,
    one: T,
    two: T,
) -> (Complex<T>, Complex<T>) {
    let half_w = viewport_width(zoom, width, height, one).div_spec(two);
    let half_h = viewport_height(zoom, one).div_spec(two);
    (
        Complex { r: center.r.sub_spec(half_w), i: center.i.add_spec(half_h) },
        Complex { r: center.r.add_spec(half_w), i: center.i.sub_spec(half_h) },
    )
}

/// The operations of deriving the viewport are all permitted.
pub open spec fn viewport_permitted<T: Number<T> + Div<Output = T>>(
    center: Complex<T>,
    zoom: T,
    width: T,
    height: T,
    one: T,
    two: T,
) -> bool {
    let half_w = viewport_width(zoom, width, height, one).div_spec(two);
    let half_h = viewport_height(zoom, one).div_spec(two);
    &&& width.div_req(height)
    &&& one.div_req(zoom)
    &&& viewport_height(zoom, one).mul_req(width.div_spec(height))
    &&& viewport_width(zoom, width, height, one).div_req(two)
    &&& viewport_height(zoom, one).div_req(two)
    &&& center.r.sub_req(half_w)
    &&& center.i.add_req(half_h)
    &&& center.r.add_req(half_w)
    &&& center.i.sub_req(half_h)
}

/// The viewport of an image of `width` by `height` pixels: the corners half
/// the viewport's width and height away from the centre, the height being
/// `1 / zoom`, with the numbers one and two as `scalar` gives them.
pub open spec fn viewport_of<T: Number<T> + Div<Output = T>>(
    center: Complex<T>,
    zoom: T,
    width: u16,
    height: u16,
    scalar: spec_fn(u16) -> T,
) -> (Complex<T>, Complex<T>) {
    spec_viewport(center, zoom, scalar(width), scalar(height), scalar(1u16), scalar(2u16))
}

/// Derives the viewport from the centre, the zoom and the image's
/// dimensions, keeping the aspect ratio. `to_scalar` gives the number of `T`
/// that stands for a whole number.
pub fn viewport<T: Number<T> + Div<Output = T>, S: Fn(u16) -> T>(
    center: Complex<T>,
    zoom: T,
    width: u16,
    height: u16,
    to_scalar: &S,
) -> (corners: (Complex<T>, Complex<T>))
    requires
        obeys_arith::<T>(),
        T::obeys_div_spec(),
        is_function(*to_scalar),
        viewport_permitted(
            center,
            zoom,
            as_function(*to_scalar)(width),
            as_function(*to_scalar)(height),
            as_function(*to_scalar)(1u16),
            as_function(*to_scalar)(2u16),
        ),
    ensures
        corners == viewport_of(center, zoom, width, height, as_function(*to_scalar)),
{
    let one = apply(to_scalar, 1u16);
    let two = apply(to_scalar, 2u16);
    let width_scale = apply(to_scalar, width) / apply(to_scalar, height);
    let complex_height = one / zoom;
    let complex_width = complex_height * width_scale;
    let top_left = Complex::new(center.r - complex_width / two, center.i + complex_height / two);
    let bottom_right = Complex::new(
        center.r + complex_width / two,
        center.i - complex_height / two,
    );
    (top_left, bottom_right)
}

/// The `n`-th iterate of `z ↦ z² + c`, started at zero.
pub open spec fn orbit<T: Number<T>>(c: Complex<T>, zero: T, n: int) -> Complex<T>
    decreases n,
{
    if n <= 0 {
        Complex { r: zero, i: zero }
    } else {
        let z = orbit(c, zero, n - 1);
        z.mul_spec(z).add_spec(c)
    }
}

/// The operations of iteration `n` are all permitted: squaring the `n`-th
/// iterate, adding `c`, and taking the squared magnitude of what results.
pub open spec fn step_permitted<T: Number<T>>(c: Complex<T>, zero: T, n: int) -> bool {
    let z = orbit(c, zero, n);
    &&& z.mul_req(z)
    &&& z.mul_spec(z).add_req(c)
    &&& orbit(c, zero, n + 1).mag_squared_req()
}

/// Iteration `n` detects the escape: the squared magnitude of the iterate it
/// produces is beyond the bailout.
pub open spec fn escapes_at<T: Number<T> + PartialOrd>(
    c: Complex<T>,
    zero: T,
    bailout: T,
    n: int,
) -> bool {
    exceeds(orbit(c, zero, n + 1).spec_mag_squared(), bailout)
}

/// The first iteration below `n` that detects an escape, if there is one.
pub open spec fn escape_before<T: Number<T> + PartialOrd>(
    c: Complex<T>,
    zero: T,
    bailout: T,
    n: int,
) -> Option<int>
    decreases n,
{
    if n <= 0 {
        None
    } else {
        match escape_before(c, zero, bailout, n - 1) {
            Some(k) => Some(k),
            None => if escapes_at(c, zero, bailout, n - 1) {
                Some(n - 1)
            } else {
                None
            },
        }
    }
}

/// An escape found below `n` is the one found below any later bound.
pub proof fn lemma_escape_before_stable<T: Number<T> + PartialOrd>(
    c: Complex<T>,
    zero: T,
    bailout: T,
    n: int,
    m: int,
)
    requires
        n <= m,
        escape_before(c, zero, bailout, n) is Some,
    ensures
        escape_before(c, zero, bailout, m) == escape_before(c, zero, bailout, n),
    decreases m,
{
    if n < m {
        lemma_escape_before_stable(c, zero, bailout, n, m - 1);
    }
}

/// What `escape_before` returns is the least escaping iteration below the
/// bound, and it returns `None` only if no iteration below the bound escapes.
pub proof fn lemma_escape_before_least<T: Number<T> + PartialOrd>(
    c: Complex<T>,
    zero: T,
    bailout: T,
    n: int,
)
    ensures
        match escape_before(c, zero, bailout, n) {
            Some(k) => {
                &&& 0 <= k < n
                &&& escapes_at(c, zero, bailout, k)
                &&& forall|j: int| 0 <= j < k ==> !escapes_at(c, zero, bailout, j)
            },
            None => forall|j: int| 0 <= j < n ==> !escapes_at(c, zero, bailout, j),
        },
    decreases n,
{
    if n > 0 {
        lemma_escape_before_least(c, zero, bailout, n - 1);
    }
}

/// Every iteration below `max_iters` that the search for an escape reaches is
/// permitted: each one up to and including the first that escapes.
pub open spec fn orbit_permitted<T: Number<T> + PartialOrd>(
    c: Complex<T>,
    zero: T,
    bailout: T,
    max_iters: int,
) -> bool {
    forall|n: int|
        0 <= n < max_iters && escape_before(c, zero, bailout, n) is None
            ==> #[trigger] step_permitted(c, zero, n)
}

/// The bailout in `T`: the squared radius 16, beyond which an orbit has
/// escaped.
pub open spec fn bailout_of<T>(scalar: spec_fn(u16) -> T) -> T {
    scalar(16u16)
}

/// Iteration `n` finds the point `c` beyond the bailout radius 4.
pub open spec fn escapes_within<T: Number<T> + PartialOrd>(
    c: Complex<T>,
    scalar: spec_fn(u16) -> T,
    n: int,
) -> bool {
    escapes_at(c, zero_of(scalar), bailout_of(scalar), n)
}

/// The number of iterations that complete before the orbit of `c` is found
/// beyond the bailout radius 4, if that happens within `max_iters`
/// iterations.
pub open spec fn spec_escape_iters<T: Number<T> + PartialOrd>(
    c: Complex<T>,
    scalar: spec_fn(u16) -> T,
    max_iters: int,
) -> Option<int> {
    escape_before(c, zero_of(scalar), bailout_of(scalar), max_iters)
}

/// Counts the iterations of `z ↦ z² + c` from zero that complete before the
/// squared magnitude of an iterate exceeds 16; `None` if that does not
/// happen within `max_iters` iterations. `to_scalar` gives the number of `T`
/// that stands for a whole number.
pub fn escape_iters<T: Number<T> + PartialOrd, S: Fn(u16) -> T>(
    c: Complex<T>,
    max_iters: i64,
    to_scalar: &S,
) -> (escape: Option<i64>)
    requires
        obeys_arith::<T>(),
        obeys_order::<T>(),
        is_function(*to_scalar),
        orbit_permitted(
            c,
            zero_of(as_function(*to_scalar)),
            bailout_of(as_function(*to_scalar)),
            max_iters as int,
        ),
    ensures
        spec_escape_iters(c, as_function(*to_scalar), max_iters as int) == match escape {
            Some(n) => Some(n as int),
            None => None,
        },
        match escape {
            Some(n) => {
                &&& 0 <= n < max_iters
                &&& escapes_within(c, as_function(*to_scalar), n as int)
                &&& forall|j: int| 0 <= j < n ==> !escapes_within(c, as_function(*to_scalar), j)
            },
            None => forall|j: int|
                0 <= j < max_iters ==> !escapes_within(c, as_function(*to_scalar), j),
        },
{
    let zero = apply(to_scalar, 0u16);
    let bailout = apply(to_scalar, 16u16);
    let mut count: i64 = 0;
    let mut z: Complex<T> = Complex::new(zero, zero);
    while count < max_iters
        invariant
            0 <= count,
            max_iters >= 0 ==> count <= max_iters,
            obeys_arith::<T>(),
            obeys_order::<T>(),
            zero == zero_of(as_function(*to_scalar)),
            bailout == bailout_of(as_function(*to_scalar)),
            z == orbit(c, zero, count as int),
            escape_before(c, zero, bailout, count as int) is None,
            orbit_permitted(c, zero, bailout, max_iters as int),
        decreases max_iters - count,
    {
        assert(step_permitted(c, zero, count as int));
        z = z * z + c;
        if z.mag_squared() > bailout {
            proof {
                assert(escape_before(c, zero, bailout, count + 1) == Some(count as int));
                lemma_escape_before_stable(c, zero, bailout, count + 1, max_iters as int);
                lemma_escape_before_least(c, zero, bailout, max_iters as int);
            }
            return Some(count);
        }
        count += 1;
    }
    proof {
        lemma_escape_before_least(c, zero, bailout, max_iters as int);
    }
    None
}

/// `zero` is a zero for the operations the iteration applies to it: its
/// square, its difference from itself and its sum with itself are `zero`.
pub open spec fn is_zero<T: Number<T>>(zero: T) -> bool {
    &&& zero.mul_spec(zero) == zero
    &&& zero.sub_spec(zero) == zero
    &&& zero.add_spec(zero) == zero
}

/// The orbit of the origin stays at the origin.
pub proof fn lemma_origin_is_fixed<T: Number<T>>(zero: T, n: int)
    requires
        is_zero(zero),
    ensures
        orbit(Complex { r: zero, i: zero }, zero, n) == (Complex { r: zero, i: zero }),
    decreases n,
{
    if n > 0 {
        lemma_origin_is_fixed(zero, n - 1);
    }
}

/// The origin never escapes: where zero is a zero of `T` and 16 is not below
/// it, no iteration bound finds an escape for `c = 0`.
pub proof fn lemma_origin_never_escapes<T: Number<T> + PartialOrd>(
    scalar: spec_fn(u16) -> T,
    max_iters: int,
)
    requires
        is_zero(zero_of(scalar)),
        !exceeds(zero_of(scalar), bailout_of(scalar)),
    ensures
        spec_escape_iters(
            Complex { r: zero_of(scalar), i: zero_of(scalar) },
            scalar,
            max_iters,
        ) is None,
    decreases max_iters,
{
    if max_iters > 0 {
        lemma_origin_never_escapes(scalar, max_iters - 1);
        lemma_origin_is_fixed(zero_of(scalar), max_iters);
    }
}

/// A point whose own squared magnitude is beyond 16 escapes on the first
/// iteration, whatever the iteration bound: the first iterate is the point
/// itself.
pub proof fn lemma_far_point_escapes_at_once<T: Number<T> + PartialOrd>(
    c: Complex<T>,
    scalar: spec_fn(u16) -> T,
    max_iters: int,
)
    requires
        max_iters >= 1,
        is_zero(zero_of(scalar)),
        zero_of(scalar).add_spec(c.r) == c.r,
        zero_of(scalar).add_spec(c.i) == c.i,
        exceeds(c.spec_mag_squared(), bailout_of(scalar)),
    ensures
        spec_escape_iters(c, scalar, max_iters) == Some(0int),
{
    let zero = zero_of(scalar);
    let bailout = bailout_of(scalar);
    assert(orbit(c, zero, 0) == (Complex { r: zero, i: zero }));
    assert(orbit(c, zero, 1) == c);
    assert(escape_before(c, zero, bailout, 0) is None);
    assert(escape_before(c, zero, bailout, 1) == Some(0int));
    lemma_escape_before_stable(c, zero, bailout, 1, max_iters);
}

/// The three bytes of the pixel at column `x` of stored row `row` lie in
/// front of the position that column `at` of stored row `upto` starts at,
/// whenever the former pixel comes first in file order.
proof fn lemma_pixel_precedes(width: int, row: int, x: int, upto: int, at: int)
    requires
        0 <= row,
        0 <= x < width,
        0 <= at <= width,
        row < upto || (row == upto && x < at),
    ensures
        0 <= (row * width + x) * 3,
        (row * width + x) * 3 + 3 <= (upto * width + at) * 3,
{
    assert(0 <= row * width) by (nonlinear_arith)
        requires
            0 <= row,
            0 <= width,
    ;
    if row < upto {
        assert((row + 1) * width <= upto * width) by (nonlinear_arith)
            requires
                row + 1 <= upto,
                0 <= width,
        ;
        assert((row + 1) * width == row * width + width) by (nonlinear_arith);
    }
}

/// Builds a complete image by asking `shade` for every pixel, in file order:
/// rows from the bottom one up, each row from left to right.
pub fn render_pixels<F: Fn(u16, u16) -> Rgb>(width: u16, height: u16, shade: F) -> (img: Bitmap)
    requires
        forall|x: u16, y: u16| x < width && y < height ==> call_requires(shade, (x, y)),
    ensures
        img.spec_width() == width,
        img.spec_height() == height,
        img.is_complete(),
        forall|x: u16, y: u16|
            x < width && y < height ==> call_ensures(
                shade,
                (x, y),
                #[trigger] img.pixel_at(x as int, y as int),
            ),
{
    let mut img = Bitmap::new(width, height);
    let mut row: u16 = 0;
    while row < height
        invariant
            row <= height,
            img.spec_width() == width,
            img.spec_height() == height,
            img@.pixels.len() == row * width * 3,
            forall|x: u16, y: u16| x < width && y < height ==> call_requires(shade, (x, y)),
            forall|x: u16, r: u16|
                x < width && r < row ==> call_ensures(
                    shade,
                    (x, (height - 1 - r) as u16),
                    #[trigger] stored_pixel(img@.pixels, width as int, r as int, x as int),
                ),
        decreases height - row,
    {
        let y: u16 = height - 1 - row;
        let mut x: u16 = 0;
        while x < width
            invariant
                x <= width,
                row < height,
                y == height - 1 - row,
                img.spec_width() == width,
                img.spec_height() == height,
                img@.pixels.len() == (row * width + x) * 3,
                forall|x: u16, y: u16| x < width && y < height ==> call_requires(shade, (x, y)),
                forall|x: u16, r: u16|
                    x < width && r < row ==> call_ensures(
                        shade,
                        (x, (height - 1 - r) as u16),
                        #[trigger] stored_pixel(img@.pixels, width as int, r as int, x as int),
                    ),
                forall|x0: u16|
                    x0 < x ==> call_ensures(
                        shade,
                        (x0, y),
                        #[trigger] stored_pixel(img@.pixels, width as int, row as int, x0 as int),
                    ),
            decreases width - x,
        {
            let px = shade(x, y);
            let ghost before = img@.pixels;
            img.push_pixel(px);
            proof {
                assert(img@.pixels == before + pixel_bytes(px));
                assert forall|x0: u16, r: u16| x0 < width && (r < row || (r == row && x0 < x))
                    implies #[trigger] stored_pixel(img@.pixels, width as int, r as int, x0 as int)
                        == stored_pixel(before, width as int, r as int, x0 as int) by {
                    lemma_pixel_precedes(width as int, r as int, x0 as int, row as int, x as int);
                }
                assert(stored_pixel(img@.pixels, width as int, row as int, x as int) == px);
                assert(((row * width + x) + 1) * 3 == (row * width + x) * 3 + 3);
            }
            x += 1;
        }
        proof {
            assert((row + 1) * width == row * width + width) by (nonlinear_arith);
        }
        row += 1;
    }
    proof {
        assert(row * width * 3 == height * width * 3) by (nonlinear_arith)
            requires
                row == height,
        ;
        assert forall|x: u16, y: u16| x < width && y < height implies call_ensures(
            shade,
            (x, y),
            #[trigger] img.pixel_at(x as int, y as int),
        ) by {
            let r: u16 = (height - 1 - y) as u16;
            assert(call_ensures(
                shade,
                (x, (height - 1 - r) as u16),
                stored_pixel(img@.pixels, width as int, r as int, x as int),
            ));
        }
    }
    img
}

/// The position along the gradient that the palette strip shows at column
/// `x` of row `y`.
pub open spec fn strip_position(x: u16, y: u16) -> u32 {
    (x + y) as u32
}

/// The length of the gradient that the palette strip shows: a quarter of
/// `width + height`.
pub open spec fn strip_extent<T: Number<T> + Div<Output = T>>(
    width: u16,
    height: u16,
    scalar: spec_fn(u32) -> T,
) -> T {
    scalar((width + height) as u32).div_spec(scalar(4u32))
}

/// Renders a palette by itself: the pixel at column `x` of row `y` is what
/// `palette` gives for the position `x + y` along a gradient of length
/// `(width + height) / 4`. `to_scalar` gives the number of `T` that stands
/// for a whole number.
pub fn render_color_palette<T, S, P>(width: u16, height: u16, to_scalar: S, palette: P) -> (img:
    Bitmap) where T: Number<T> + Div<Output = T>, S: Fn(u32) -> T, P: Fn(T, T) -> Rgb
    requires
        T::obeys_div_spec(),
        is_function(to_scalar),
        as_function(to_scalar)((width + height) as u32).div_req(as_function(to_scalar)(4u32)),
        forall|x: u16, y: u16|
            x < width && y < height ==> call_requires(
                palette,
                (
                    as_function(to_scalar)(#[trigger] strip_position(x, y)),
                    strip_extent(width, height, as_function(to_scalar)),
                ),
            ),
    ensures
        img.spec_width() == width,
        img.spec_height() == height,
        img.is_complete(),
        forall|x: u16, y: u16|
            x < width && y < height ==> call_ensures(
                palette,
                (
                    as_function(to_scalar)(strip_position(x, y)),
                    strip_extent(width, height, as_function(to_scalar)),
                ),
                #[trigger] img.pixel_at(x as int, y as int),
            ),
{
    let scalar = &to_scalar;
    let extent = apply(scalar, width as u32 + height as u32) / apply(scalar, 4u32);
    let palette = &palette;
    let shade = |x: u16, y: u16| -> (px: Rgb)
        requires
            x < width && y < height,
        ensures
            call_ensures(*palette, (as_function(*scalar)(strip_position(x, y)), extent), px),
        { palette(apply(scalar, x as u32 + y as u32), extent) };
    render_pixels(width, height, shade)
}

/// `px` is a colour that the pixel at column `x` of row `y` may have: black
/// where the point `screen_to_complex` gives for it does not escape within
/// `max_iters` iterations, and otherwise what `palette` gives for the
/// iteration at which it escapes, along a gradient of `gradient` iterations.
pub open spec fn mandelbrot_pixel<T, M, P>(
    screen_to_complex: M,
    palette: P,
    scalar: spec_fn(u16) -> T,
    max_iters: i64,
    gradient: i64,
    x: u16,
    y: u16,
    px: Rgb,
) -> bool where T: Number<T> + PartialOrd, M: Fn(u16, u16) -> Complex<T>, P: Fn(i64, i64) -> Rgb {
    exists|c: Complex<T>|
        {
            &&& #[trigger] call_ensures(screen_to_complex, (x, y), c)
            &&& match spec_escape_iters(c, scalar, max_iters as int) {
                None => px == Rgb(0, 0, 0),
                Some(n) => call_ensures(palette, (n as i64, gradient), px),
            }
        }
}

/// The number of iterations the gradient spans: the override where there is
/// one, else the iteration bound.
pub open spec fn gradient_span(max_iters: i64, gradient_iters: Option<i64>) -> i64 {
    match gradient_iters {
        Some(g) => g,
        None => max_iters,
    }
}

/// Renders an escape-time image: every pixel, in file order, is mapped to
/// its point of the plane by `screen_to_complex`, the point's orbit is
/// followed for at most `max_iters` iterations, and the pixel is black if the
/// orbit stays within the bailout and coloured by `palette` otherwise.
pub fn render_escape_times<T, S, M, P>(
    width: u16,
    height: u16,
    max_iters: i64,
    gradient_iters: Option<i64>,
    to_scalar: &S,
    screen_to_complex: M,
    palette: P,
) -> (img: Bitmap) where
    T: Number<T> + PartialOrd,
    S: Fn(u16) -> T,
    M: Fn(u16, u16) -> Complex<T>,
    P: Fn(i64, i64) -> Rgb,

    requires
        obeys_arith::<T>(),
        obeys_order::<T>(),
        is_function(*to_scalar),
        forall|x: u16, y: u16|
            x < width && y < height ==> call_requires(screen_to_complex, (x, y)),
        forall|x: u16, y: u16, c: Complex<T>|
            x < width && y < height && #[trigger] call_ensures(screen_to_complex, (x, y), c)
                ==> orbit_permitted(
                c,
                zero_of(as_function(*to_scalar)),
                bailout_of(as_function(*to_scalar)),
                max_iters as int,
            ),
        forall|n: i64|
            0 <= n < max_iters ==> call_requires(
                palette,
                (n, gradient_span(max_iters, gradient_iters)),
            ),
    ensures
        img.spec_width() == width,
        img.spec_height() == height,
        img.is_complete(),
        forall|x: u16, y: u16|
            x < width && y < height ==> mandelbrot_pixel(
                screen_to_complex,
                palette,
                as_function(*to_scalar),
                max_iters,
                gradient_span(max_iters, gradient_iters),
                x,
                y,
                #[trigger] img.pixel_at(x as int, y as int),
            ),
{
    let gradient: i64 = match gradient_iters {
        Some(g) => g,
        None => max_iters,
    };
    let to_complex = &screen_to_complex;
    let colour = &palette;
    assert(gradient == gradient_span(max_iters, gradient_iters));
    let shade = |x: u16, y: u16| -> (px: Rgb)
        requires
            x < width && y < height,
        ensures
            mandelbrot_pixel(
                *to_complex,
                *colour,
                as_function(*to_scalar),
                max_iters,
                gradient,
                x,
                y,
                px,
            ),
        {
            let c = to_complex(x, y);
            match escape_iters(c, max_iters, to_scalar) {
                None => Rgb(0, 0, 0),
                Some(n) => colour(n, gradient),
            }
        };
    render_pixels(width, height, shade)
}

/// The point of the plane that the pixel at column `x` of row `y` stands for
/// under `params`, where `scalar` gives the number that stands for a whole
/// number.
pub open spec fn pixel_point<T: Number<T> + Div<Output = T>>(
    params: Params<T>,
    scalar: spec_fn(u16) -> T,
    x: u16,
    y: u16,
) -> Complex<T> {
    let corners = viewport_of(params.center, params.zoom, params.width, params.height, scalar);
    spec_screen_to_complex(
        scalar(params.width),
        scalar(params.height),
        corners.0,
        corners.1,
        scalar(x),
        scalar(y),
    )
}

/// The operations of mapping the pixel to its point, and of following the
/// point's orbit, are all permitted.
pub open spec fn pixel_permitted<T: Number<T> + PartialOrd + Div<Output = T>>(
    params: Params<T>,
    scalar: spec_fn(u16) -> T,
    x: u16,
    y: u16,
) -> bool {
    let corners = viewport_of(params.center, params.zoom, params.width, params.height, scalar);
    &&& axis_permitted(corners.0.r, corners.1.r, scalar(x), scalar(params.width))
    &&& axis_permitted(corners.0.i, corners.1.i, scalar(y), scalar(params.height))
    &&& orbit_permitted(
        pixel_point(params, scalar, x, y),
        zero_of(scalar),
        bailout_of(scalar),
        params.max_iters as int,
    )
}

/// Renders the Mandelbrot set as `params` describe it. The viewport is
/// derived from the centre and the zoom, keeping the image's aspect ratio;
/// every pixel, in file order, is mapped to its point of the plane; the pixel
/// is black where the point does not escape the radius 4 within
/// `params.max_iters` iterations, and otherwise what `palette` gives for the
/// iteration at which it escapes and the number of iterations that the
/// gradient spans. `to_scalar` gives the number of `T` that stands for a
/// whole number.
pub fn render_mandelbrot<T, S, P>(params: Params<T>, to_scalar: S, palette: P) -> (img:
    Bitmap) where
    T: Number<T> + PartialOrd + Div<Output = T>,
    S: Fn(u16) -> T,
    P: Fn(i64, i64) -> Rgb,

    requires
        obeys_arith::<T>(),
        obeys_order::<T>(),
        T::obeys_div_spec(),
        is_function(to_scalar),
        viewport_permitted(
            params.center,
            params.zoom,
            as_function(to_scalar)(params.width),
            as_function(to_scalar)(params.height),
            as_function(to_scalar)(1u16),
            as_function(to_scalar)(2u16),
        ),
        forall|x: u16, y: u16|
            x < params.width && y < params.height ==> #[trigger] pixel_permitted(
                params,
                as_function(to_scalar),
                x,
                y,
            ),
        forall|n: i64|
            0 <= n < params.max_iters ==> call_requires(
                palette,
                (n, gradient_span(params.max_iters, params.gradient_iters)),
            ),
    ensures
        img.spec_width() == params.width,
        img.spec_height() == params.height,
        img.is_complete(),
        forall|x: u16, y: u16|
            x < params.width && y < params.height ==> match spec_escape_iters(
                pixel_point(params, as_function(to_scalar), x, y),
                as_function(to_scalar),
                params.max_iters as int,
            ) {
                None => #[trigger] img.pixel_at(x as int, y as int) == Rgb(0, 0, 0),
                Some(n) => call_ensures(
                    palette,
                    (n as i64, gradient_span(params.max_iters, params.gradient_iters)),
                    img.pixel_at(x as int, y as int),
                ),
            },
{
    let scalar = &to_scalar;
    let width = apply(scalar, params.width);
    let height = apply(scalar, params.height);
    let (top_left, bottom_right) = viewport(
        params.center,
        params.zoom,
        params.width,
        params.height,
        scalar,
    );
    assert forall|x: u16, y: u16|
        #![trigger as_function(to_scalar)(x), as_function(to_scalar)(y)]
        x < params.width && y < params.height implies axis_permitted(
        top_left.r,
        bottom_right.r,
        as_function(to_scalar)(x),
        width,
    ) && axis_permitted(top_left.i, bottom_right.i, as_function(to_scalar)(y), height) by {
        assert(pixel_permitted(params, as_function(to_scalar), x, y));
    }
    let mapper = |x: u16, y: u16| -> (c: Complex<T>)
        requires
            x < params.width && y < params.height,
        ensures
            c == pixel_point(params, as_function(*scalar), x, y),
        {
            screen_to_complex(
                width,
                height,
                top_left,
                bottom_right,
                apply(scalar, x),
                apply(scalar, y),
            )
        };
    assert forall|x: u16, y: u16, c: Complex<T>|
        x < params.width && y < params.height && #[trigger] call_ensures(
            mapper,
            (x, y),
            c,
        ) implies orbit_permitted(
        c,
        zero_of(as_function(to_scalar)),
        bailout_of(as_function(to_scalar)),
        params.max_iters as int,
    ) by {
        assert(pixel_permitted(params, as_function(to_scalar), x, y));
    }
    let img = render_escape_times(
        params.width,
        params.height,
        params.max_iters,
        params.gradient_iters,
        scalar,
        mapper,
        palette,
    );
    proof {
        assert forall|x: u16, y: u16| x < params.width && y < params.height implies match spec_escape_iters(
            pixel_point(params, as_function(to_scalar), x, y),
            as_function(to_scalar),
            params.max_iters as int,
        ) {
            None => #[trigger] img.pixel_at(x as int, y as int) == Rgb(0, 0, 0),
            Some(n) => call_ensures(
                palette,
                (n as i64, gradient_span(params.max_iters, params.gradient_iters)),
                img.pixel_at(x as int, y as int),
            ),
        } by {
            assert(mandelbrot_pixel(
                mapper,
                palette,
                as_function(to_scalar),
                params.max_iters,
                gradient_span(params.max_iters, params.gradient_iters),
                x,
                y,
                img.pixel_at(x as int, y as int),
            ));
        }
    }
    img
}

} // verus!
