use vstd::prelude::*;
use vstd::std_specs::ops::{AddSpec, DivSpec, MulSpec, RemSpec, SubSpec};
use std::ops::{Add, Div, Rem};
use crate::complex::{
    apply, as_function, exceeds, falls_below, is_function, obeys_arith, obeys_order, unit_of,
    zero_of, Number,
};

verus! {

/// A displayable pixel: red, green and blue, eight bits each.
#[derive(Debug, Clone, Copy, PartialEq, Eq, Structural)]
pub struct Rgb(pub u8, pub u8, pub u8);

/// An additive colour: red, green and blue intensities, not bounded to any
/// range.
#[derive(Debug, Clone, Copy)]
pub struct Color<T: Number<T>>(pub T, pub T, pub T);

impl<T: Number<T>> vstd::std_specs::ops::AddSpecImpl<Color<T>> for Color<T> {
    open spec fn obeys_add_spec() -> bool {
        T::obeys_add_spec()
    }

    open spec fn add_req(self, rhs: Color<T>) -> bool {
        self.0.add_req(rhs.0) && self.1.add_req(rhs.1) && self.2.add_req(rhs.2)
    }

    open spec fn add_spec(self, rhs: Color<T>) -> Color<T> {
        Color(self.0.add_spec(rhs.0), self.1.add_spec(rhs.1), self.2.add_spec(rhs.2))
    }
}

/// Channel by channel sum.
impl<T: Number<T>> Add<Color<T>> for Color<T> {
    type Output = Color<T>;

    fn add(self, rhs: Color<T>) -> (sum: Color<T>) {
        Color(self.0 + rhs.0, self.1 + rhs.1, self.2 + rhs.2)
    }
}

impl<T: Number<T>> vstd::std_specs::convert::FromSpecImpl<(T, T, T)> for Color<T> {
    open spec fn obeys_from_spec() -> bool {
        true
    }

    open spec fn from_spec(channels: (T, T, T)) -> Color<T> {
        Color(channels.0, channels.1, channels.2)
    }
}

/// The triple of red, green and blue, as a colour.
impl<T: Number<T>> From<(T, T, T)> for Color<T> {
    fn from(channels: (T, T, T)) -> (color: Color<T>) {
        Color(channels.0, channels.1, channels.2)
    }
}

impl Rgb {
    /// The pixel that shows `color`: every channel is scaled by 255, as
    /// `scalar` gives it, and narrowed to a byte.
    pub open spec fn spec_from_color<T: Number<T>>(
        color: Color<T>,
        scalar: spec_fn(u16) -> T,
        narrow: spec_fn(T) -> u8,
    ) -> Rgb {
        Rgb(
            narrow(color.0.mul_spec(scalar(255u16))),
            narrow(color.1.mul_spec(scalar(255u16))),
            narrow(color.2.mul_spec(scalar(255u16))),
        )
    }

    /// Converts a colour to the pixel that shows it. `to_scalar` gives the
    /// number of `T` that stands for a whole number; `narrow` cuts a scaled
    /// channel to a byte.
    pub fn from_color<T: Number<T>, S: Fn(u16) -> T, N: Fn(T) -> u8>(
        color: Color<T>,
        to_scalar: &S,
        narrow: &N,
    ) -> (px: Rgb)
        requires
            T::obeys_mul_spec(),
            is_function(*to_scalar),
            is_function(*narrow),
            color.0.mul_req(as_function(*to_scalar)(255u16)),
            color.1.mul_req(as_function(*to_scalar)(255u16)),
            color.2.mul_req(as_function(*to_scalar)(255u16)),
        ensures
            px == Rgb::spec_from_color(color, as_function(*to_scalar), as_function(*narrow)),
    {
        let full = apply(to_scalar, 255u16);
        Rgb(
            apply(narrow, color.0 * full),
            apply(narrow, color.1 * full),
            apply(narrow, color.2 * full),
        )
    }
}

impl<T: Number<T> + Div<Output = T>> Color<T> {
    /// The colour that `px` shows: every byte widened and divided by 255.
    pub open spec fn spec_from_rgb(px: Rgb, widen: spec_fn(u8) -> T) -> Color<T> {
        Color(
            widen(px.0).div_spec(widen(255u8)),
            widen(px.1).div_spec(widen(255u8)),
            widen(px.2).div_spec(widen(255u8)),
        )
    }

    /// Converts a pixel to the colour it shows; `widen` gives the number
    /// that stands for a byte.
    pub fn from_rgb<W: Fn(u8) -> T>(px: Rgb, widen: &W) -> (color: Color<T>)
        requires
            T::obeys_div_spec(),
            is_function(*widen),
            as_function(*widen)(px.0).div_req(as_function(*widen)(255u8)),
            as_function(*widen)(px.1).div_req(as_function(*widen)(255u8)),
            as_function(*widen)(px.2).div_req(as_function(*widen)(255u8)),
        ensures
            color == Self::spec_from_rgb(px, as_function(*widen)),
    {
        let full = apply(widen, 255u8);
        Color(
            apply(widen, px.0) / full,
            apply(widen, px.1) / full,
            apply(widen, px.2) / full,
        )
    }
}

/// The greater of two values; the second where neither is greater.
pub open spec fn greater_of<T: PartialOrd>(a: T, b: T) -> T {
    if exceeds(a, b) {
        a
    } else {
        b
    }
}

impl<T: Number<T>> Color<T> {
    /// Every channel multiplied by `k`.
    pub open spec fn spec_scale(self, k: T) -> Color<T> {
        Color(k.mul_spec(self.0), k.mul_spec(self.1), k.mul_spec(self.2))
    }

    /// Each channel may be multiplied by `k`.
    pub open spec fn scale_req(self, k: T) -> bool {
        k.mul_req(self.0) && k.mul_req(self.1) && k.mul_req(self.2)
    }

    /// Scales all three channels by the same factor.
    pub fn scale(self, k: T) -> (scaled: Color<T>)
        requires
            self.scale_req(k),
        ensures
            T::obeys_mul_spec() ==> scaled == self.spec_scale(k),
    {
        Color(k * self.0, k * self.1, k * self.2)
    }
}

impl<T: Number<T> + PartialOrd + Div<Output = T>> Color<T> {
    /// The largest of the three channels.
    pub open spec fn max_channel(self) -> T {
        greater_of(greater_of(self.0, self.1), self.2)
    }

    /// Every channel divided by the largest one.
    pub open spec fn spec_normalize(self) -> Color<T> {
        let m = self.max_channel();
        Color(self.0.div_spec(m), self.1.div_spec(m), self.2.div_spec(m))
    }

    /// Each channel may be divided by the largest one.
    pub open spec fn normalize_req(self) -> bool {
        let m = self.max_channel();
        self.0.div_req(m) && self.1.div_req(m) && self.2.div_req(m)
    }

    /// Divides every channel by the largest one.
    pub fn normalize(&self) -> (unit: Color<T>)
        requires
            obeys_order::<T>(),
            T::obeys_div_spec(),
            self.normalize_req(),
        ensures
            unit == self.spec_normalize(),
    {
        let first = if self.0 > self.1 {
            self.0
        } else {
            self.1
        };
        let m = if first > self.2 {
            first
        } else {
            self.2
        };
        Color(self.0 / m, self.1 / m, self.2 / m)
    }
}

/// `(1 − λ)·a + λ·b` with `λ = iters / max_iters`.
pub open spec fn spec_blend<T: Number<T> + Div<Output = T>>(
    a: Color<T>,
    b: Color<T>,
    iters: T,
    max_iters: T,
    one: T,
) -> Color<T> {
    let lambda = iters.div_spec(max_iters);
    a.spec_scale(one.sub_spec(lambda)).add_spec(b.spec_scale(lambda))
}

/// The operations of the crossfade are all permitted.
pub open spec fn blend_req<T: Number<T> + Div<Output = T>>(
    a: Color<T>,
    b: Color<T>,
    iters: T,
    max_iters: T,
    one: T,
) -> bool {
    let lambda = iters.div_spec(max_iters);
    &&& iters.div_req(max_iters)
    &&& one.sub_req(lambda)
    &&& a.scale_req(one.sub_spec(lambda))
    &&& b.scale_req(lambda)
    &&& a.spec_scale(one.sub_spec(lambda)).add_req(b.spec_scale(lambda))
}

/// The linear crossfade from `a` to `b`, taken at `iters` out of
/// `max_iters`.
pub fn blend_at<T: Number<T> + Div<Output = T>, S: Fn(u16) -> T>(
    a: Color<T>,
    b: Color<T>,
    iters: T,
    max_iters: T,
    to_scalar: &S,
) -> (mixed: Color<T>)
    requires
        obeys_arith::<T>(),
        T::obeys_div_spec(),
        is_function(*to_scalar),
        blend_req(a, b, iters, max_iters, unit_of(as_function(*to_scalar))),
    ensures
        mixed == spec_blend(a, b, iters, max_iters, unit_of(as_function(*to_scalar))),
{
    let one = apply(to_scalar, 1u16);
    let lambda = iters / max_iters;
    a.scale(one - lambda) + b.scale(lambda)
}

/// Which of two glued gradients a position falls into, with the position
/// rescaled to that gradient's own domain.
#[derive(Debug, Clone, Copy)]
pub enum Glued<T> {
    First(T),
    Second(T),
}

/// Below the split, the first gradient at `iters / r`; from the split on,
/// the second at `(iters − r·max_iters) / (1 − r)`.
pub open spec fn spec_glue<T: Number<T> + PartialOrd + Div<Output = T>>(
    iters: T,
    max_iters: T,
    r: T,
    one: T,
) -> Glued<T> {
    if falls_below(iters.div_spec(max_iters), r) {
        Glued::First(iters.div_spec(r))
    } else {
        Glued::Second(iters.sub_spec(r.mul_spec(max_iters)).div_spec(one.sub_spec(r)))
    }
}

/// The operations of the branch that is taken are all permitted.
pub open spec fn glue_req<T: Number<T> + PartialOrd + Div<Output = T>>(
    iters: T,
    max_iters: T,
    r: T,
    one: T,
) -> bool {
    &&& iters.div_req(max_iters)
    &&& if falls_below(iters.div_spec(max_iters), r) {
        iters.div_req(r)
    } else {
        &&& r.mul_req(max_iters)
        &&& iters.sub_req(r.mul_spec(max_iters))
        &&& one.sub_req(r)
        &&& iters.sub_spec(r.mul_spec(max_iters)).div_req(one.sub_spec(r))
    }
}

/// Splits the gradient's domain at the ratio `r` and routes a position to
/// the half it falls into; the split itself belongs to the second half.
pub fn glue_at<T: Number<T> + PartialOrd + Div<Output = T>, S: Fn(u16) -> T>(
    iters: T,
    max_iters: T,
    r: T,
    to_scalar: &S,
) -> (routed: Glued<T>)
    requires
        obeys_arith::<T>(),
        obeys_order::<T>(),
        T::obeys_div_spec(),
        is_function(*to_scalar),
        glue_req(iters, max_iters, r, unit_of(as_function(*to_scalar))),
    ensures
        routed == spec_glue(iters, max_iters, r, unit_of(as_function(*to_scalar))),
{
    let one = apply(to_scalar, 1u16);
    let lambda = iters / max_iters;
    if lambda < r {
        Glued::First(iters / r)
    } else {
        Glued::Second((iters - r * max_iters) / (one - r))
    }
}

/// Whether a count of whole periods is even.
pub open spec fn in_even_period(periods: i64) -> bool {
    periods % 2 == 0
}

/// The number of whole periods of `max_iters` that lie in front of the
/// position `iters`: the whole part, as `whole` gives it, of the quotient
/// `iters / max_iters`.
pub open spec fn whole_periods<T: Number<T> + Div<Output = T>>(
    iters: T,
    max_iters: T,
    whole: spec_fn(T) -> i64,
) -> i64 {
    whole(iters.div_spec(max_iters))
}

/// The position within its period, read forward in even periods and
/// backward in odd ones.
pub open spec fn spec_wrapping<T: Number<T> + Div<Output = T> + Rem<Output = T>>(
    iters: T,
    max_iters: T,
    whole: spec_fn(T) -> i64,
) -> T {
    if in_even_period(whole_periods(iters, max_iters, whole)) {
        iters.rem_spec(max_iters)
    } else {
        max_iters.sub_spec(iters.rem_spec(max_iters))
    }
}

/// The operations of folding a position into its period are permitted.
pub open spec fn wrapping_req<T: Number<T> + Div<Output = T> + Rem<Output = T>>(
    iters: T,
    max_iters: T,
    whole: spec_fn(T) -> i64,
) -> bool {
    &&& iters.div_req(max_iters)
    &&& iters.rem_req(max_iters)
    &&& !in_even_period(whole_periods(iters, max_iters, whole)) ==> max_iters.sub_req(
        iters.rem_spec(max_iters),
    )
}

/// Treats the gradient as periodic and reflecting: folds the position
/// `iters` into one period of `max_iters`, reversed in every odd period.
/// `whole` gives the whole part of a number, its floor; the parity of the
/// whole part of `iters / max_iters` decides the direction.
pub fn wrapping_at<T: Number<T> + Div<Output = T> + Rem<Output = T>, W: Fn(T) -> i64>(
    iters: T,
    max_iters: T,
    whole: &W,
) -> (folded: T)
    requires
        obeys_arith::<T>(),
        T::obeys_div_spec(),
        T::obeys_rem_spec(),
        is_function(*whole),
        wrapping_req(iters, max_iters, as_function(*whole)),
    ensures
        folded == spec_wrapping(iters, max_iters, as_function(*whole)),
{
    let periods: i64 = apply(whole, iters / max_iters);
    let reduced = iters % max_iters;
    if periods % 2 == 0 {
        reduced
    } else {
        max_iters - reduced
    }
}

/// Over whole numbers that are their own whole part, a position two periods
/// further on folds to the same place.
pub proof fn lemma_wrapping_has_period_two(iters: i64, max_iters: i64)
    requires
        iters >= 0,
        max_iters > 0,
        iters + 2 * max_iters <= i64::MAX,
    ensures
        spec_wrapping((iters + 2 * max_iters) as i64, max_iters, |t: i64| t) == spec_wrapping(
            iters,
            max_iters,
            |t: i64| t,
        ),
{
    let far = iters + 2 * max_iters;
    assert(far / (max_iters as int) == iters / max_iters + 2 && far % (max_iters as int) == iters
        % max_iters) by (nonlinear_arith)
        requires
            far == iters + 2 * max_iters,
            max_iters > 0,
    ;
    assert(0 <= iters / max_iters <= iters) by (nonlinear_arith)
        requires
            iters >= 0,
            max_iters > 0,
    ;
}

/// A gradient: a colour for every position `iters` along an axis of
/// `max_iters` iterations, built from constant colours by three combinators.
pub enum Palette<T: Number<T>> {
    /// The same colour everywhere.
    Constant(Color<T>),
    /// The linear crossfade from the first gradient to the second.
    Blend(Box<Palette<T>>, Box<Palette<T>>),
    /// The first gradient below the split ratio, the second from it on, each
    /// rescaled to its part.
    Glue(Box<Palette<T>>, Box<Palette<T>>, T),
    /// The gradient repeated along the axis, reversed in every odd period.
    Wrapping(Box<Palette<T>>),
    /// A gradient of the caller's own, known by its number: what the
    /// caller's function gives for that number and the position.
    Leaf(usize),
}

/// What `leaves` returns for the gradient `k` at `iters` out of `max_iters`.
pub open spec fn as_leaf_function<T: Number<T>, F: Fn(usize, T, T) -> Color<T>>(
    leaves: F,
) -> spec_fn(usize, T, T) -> Color<T> {
    |k: usize, iters: T, max_iters: T|
        choose|color: Color<T>| call_ensures(leaves, (k, iters, max_iters), color)
}

/// `leaves` can be called on every gradient number and position, and returns
/// one colour for each.
pub open spec fn is_leaf_function<T: Number<T>, F: Fn(usize, T, T) -> Color<T>>(
    leaves: F,
) -> bool {
    &&& forall|k: usize, iters: T, max_iters: T| call_requires(leaves, (k, iters, max_iters))
    &&& forall|k: usize, iters: T, max_iters: T, a: Color<T>, b: Color<T>|
        call_ensures(leaves, (k, iters, max_iters), a) && call_ensures(
            leaves,
            (k, iters, max_iters),
            b,
        ) ==> a == b
}

/// Asks `leaves` for the caller's gradient `k` at `iters` out of
/// `max_iters`.
pub fn apply_leaf<T: Number<T>, F: Fn(usize, T, T) -> Color<T>>(
    leaves: &F,
    k: usize,
    iters: T,
    max_iters: T,
) -> (color: Color<T>)
    requires
        is_leaf_function(*leaves),
    ensures
        call_ensures(*leaves, (k, iters, max_iters), color),
        color == as_leaf_function(*leaves)(k, iters, max_iters),
{
    leaves(k, iters, max_iters)
}

impl<T: Number<T> + PartialOrd + Div<Output = T> + Rem<Output = T>> Palette<T> {
    /// The colour of the gradient at `iters` out of `max_iters`, where `one`
    /// is the unit of `T`, `whole` gives the whole part of a value of `T`, and
    /// `leaf` what the caller's own gradients give.
    pub open spec fn spec_eval(
        self,
        iters: T,
        max_iters: T,
        one: T,
        whole: spec_fn(T) -> i64,
        leaf: spec_fn(usize, T, T) -> Color<T>,
    ) -> Color<T>
        decreases self,
    {
        match self {
            Palette::Constant(color) => color,
            Palette::Blend(f, g) => spec_blend(
                f.spec_eval(iters, max_iters, one, whole, leaf),
                g.spec_eval(iters, max_iters, one, whole, leaf),
                iters,
                max_iters,
                one,
            ),
            Palette::Glue(f, g, r) => match spec_glue(iters, max_iters, r, one) {
                Glued::First(t) => f.spec_eval(t, max_iters, one, whole, leaf),
                Glued::Second(t) => g.spec_eval(t, max_iters, one, whole, leaf),
            },
            Palette::Wrapping(f) => f.spec_eval(
                spec_wrapping(iters, max_iters, whole),
                max_iters,
                one,
                whole,
                leaf,
            ),
            Palette::Leaf(k) => leaf(k, iters, max_iters),
        }
    }

    /// Every operation that the evaluation performs is permitted.
    pub open spec fn eval_req(
        self,
        iters: T,
        max_iters: T,
        one: T,
        whole: spec_fn(T) -> i64,
        leaf: spec_fn(usize, T, T) -> Color<T>,
    ) -> bool
        decreases self,
    {
        match self {
            Palette::Constant(color) => true,
            Palette::Blend(f, g) => {
                &&& f.eval_req(iters, max_iters, one, whole, leaf)
                &&& g.eval_req(iters, max_iters, one, whole, leaf)
                &&& blend_req(
                    f.spec_eval(iters, max_iters, one, whole, leaf),
                    g.spec_eval(iters, max_iters, one, whole, leaf),
                    iters,
                    max_iters,
                    one,
                )
            },
            Palette::Glue(f, g, r) => {
                &&& glue_req(iters, max_iters, r, one)
                &&& match spec_glue(iters, max_iters, r, one) {
                    Glued::First(t) => f.eval_req(t, max_iters, one, whole, leaf),
                    Glued::Second(t) => g.eval_req(t, max_iters, one, whole, leaf),
                }
            },
            Palette::Wrapping(f) => {
                &&& wrapping_req(iters, max_iters, whole)
                &&& f.eval_req(spec_wrapping(iters, max_iters, whole), max_iters, one, whole, leaf)
            },
            Palette::Leaf(k) => true,
        }
    }

    /// Evaluates the gradient at `iters` out of `max_iters`. `to_scalar`
    /// gives the number of `T` that stands for a whole number, `whole` the
    /// whole part of a number of `T`, its floor, and `leaves` what the
    /// caller's own gradients give.
    pub fn eval<S: Fn(u16) -> T, W: Fn(T) -> i64, F: Fn(usize, T, T) -> Color<T>>(
        &self,
        iters: T,
        max_iters: T,
        to_scalar: &S,
        whole: &W,
        leaves: &F,
    ) -> (color: Color<T>)
        requires
            obeys_arith::<T>(),
            obeys_order::<T>(),
            T::obeys_div_spec(),
            T::obeys_rem_spec(),
            is_function(*to_scalar),
            is_function(*whole),
            is_leaf_function(*leaves),
            self.eval_req(
                iters,
                max_iters,
                unit_of(as_function(*to_scalar)),
                as_function(*whole),
                as_leaf_function(*leaves),
            ),
        ensures
            color == self.spec_eval(
                iters,
                max_iters,
                unit_of(as_function(*to_scalar)),
                as_function(*whole),
                as_leaf_function(*leaves),
            ),
        decreases self,
    {
        match self {
            Palette::Constant(color) => *color,
            Palette::Blend(f, g) => {
                let a = f.eval(iters, max_iters, to_scalar, whole, leaves);
                let b = g.eval(iters, max_iters, to_scalar, whole, leaves);
                blend_at(a, b, iters, max_iters, to_scalar)
            },
            Palette::Glue(f, g, r) => match glue_at(iters, max_iters, *r, to_scalar) {
                Glued::First(t) => f.eval(t, max_iters, to_scalar, whole, leaves),
                Glued::Second(t) => g.eval(t, max_iters, to_scalar, whole, leaves),
            },
            Palette::Wrapping(f) => {
                let folded = wrapping_at(iters, max_iters, whole);
                f.eval(folded, max_iters, to_scalar, whole, leaves)
            },
            Palette::Leaf(k) => apply_leaf(leaves, *k, iters, max_iters),
        }
    }
}

impl<T: Number<T>> Color<T> {
    /// The gradient that is this colour everywhere.
    pub fn palette_fn(&self) -> (palette: Palette<T>)
        ensures
            palette == Palette::Constant(*self),
    {
        Palette::Constant(*self)
    }
}

/// The linear crossfade from `f` to `g` across the whole iteration axis.
pub fn blend<T: Number<T>>(f: Palette<T>, g: Palette<T>) -> (palette: Palette<T>)
    ensures
        palette == Palette::Blend(Box::new(f), Box::new(g)),
{
    Palette::Blend(Box::new(f), Box::new(g))
}

/// `f` below the split ratio `r` and `g` from it on, the split itself
/// belonging to `g`.
pub fn glue<T: Number<T>>(f: Palette<T>, g: Palette<T>, r: T) -> (palette: Palette<T>)
    ensures
        palette == Palette::Glue(Box::new(f), Box::new(g), r),
{
    Palette::Glue(Box::new(f), Box::new(g), r)
}

/// The caller's own gradient number `k`.
pub fn leaf<T: Number<T>>(k: usize) -> (palette: Palette<T>)
    ensures
        palette == Palette::<T>::Leaf(k),
{
    Palette::Leaf(k)
}

/// `f` made periodic and reflecting along the iteration axis.
pub fn wrapping<T: Number<T>>(f: Palette<T>) -> (palette: Palette<T>)
    ensures
        palette == Palette::Wrapping(Box::new(f)),
{
    Palette::Wrapping(Box::new(f))
}

/// At the split of two glued gradients the second one is in charge: where
/// `iters / max_iters` is not below `r`, gluing `f` and `g` gives what `g`
/// gives at `(iters − r·max_iters) / (1 − r)`.
pub proof fn lemma_glue_split_goes_to_second<
    T: Number<T> + PartialOrd + Div<Output = T> + Rem<Output = T>,
>(f: Palette<T>, g: Palette<T>, r: T, iters: T, max_iters: T, one: T, whole: spec_fn(T) -> i64, leaf: spec_fn(usize, T, T) -> Color<T>)
    requires
        !falls_below(iters.div_spec(max_iters), r),
    ensures
        spec_glue(iters, max_iters, r, one) is Second,
        Palette::Glue(Box::new(f), Box::new(g), r).spec_eval(iters, max_iters, one, whole, leaf)
            == g.spec_eval(spec_glue(iters, max_iters, r, one)->Second_0, max_iters, one, whole, leaf),
{
}

/// A wrapped gradient runs forward in even periods and backward in odd ones:
/// it gives what the gradient inside gives at `iters mod max_iters` where an
/// even number of whole periods lies in front of `iters`, and at `max_iters`
/// less that where an odd number does.
pub proof fn lemma_wrapping_reflects<
    T: Number<T> + PartialOrd + Div<Output = T> + Rem<Output = T>,
>(f: Palette<T>, iters: T, max_iters: T, one: T, whole: spec_fn(T) -> i64, leaf: spec_fn(usize, T, T) -> Color<T>)
    ensures
        in_even_period(whole_periods(iters, max_iters, whole)) ==> Palette::Wrapping(
            Box::new(f),
        ).spec_eval(iters, max_iters, one, whole, leaf) == f.spec_eval(
            iters.rem_spec(max_iters),
            max_iters,
            one,
            whole,
            leaf,
        ),
        !in_even_period(whole_periods(iters, max_iters, whole)) ==> Palette::Wrapping(
            Box::new(f),
        ).spec_eval(iters, max_iters, one, whole, leaf) == f.spec_eval(
            max_iters.sub_spec(iters.rem_spec(max_iters)),
            max_iters,
            one,
            whole,
            leaf,
        ),
{
}

/// The colours that the rainbow passes through, in order: black, red,
/// yellow, green, green again, cyan, blue, magenta, white.
pub open spec fn spec_rainbow_stop<T: Number<T>>(k: int, zero: T, one: T) -> Color<T> {
    if k <= 0 {
        Color(zero, zero, zero)
    } else if k == 1 {
        Color(one, zero, zero)
    } else if k == 2 {
        Color(one, one, zero)
    } else if k == 3 || k == 4 {
        Color(zero, one, zero)
    } else if k == 5 {
        Color(zero, one, one)
    } else if k == 6 {
        Color(zero, zero, one)
    } else if k == 7 {
        Color(one, zero, one)
    } else {
        Color(one, one, one)
    }
}

/// The crossfade from the `k`-th colour of the rainbow to the next.
pub open spec fn spec_rainbow_segment<T: Number<T>>(k: int, zero: T, one: T) -> Palette<T> {
    Palette::Blend(
        Box::new(Palette::Constant(spec_rainbow_stop(k, zero, one))),
        Box::new(Palette::Constant(spec_rainbow_stop(k + 1, zero, one))),
    )
}

/// `count` neighbouring segments from the `k`-th on, glued at the midpoint
/// as a balanced tree; `count` is 1, 2, 4 or 8.
pub open spec fn spec_rainbow_span<T: Number<T>>(
    k: int,
    count: int,
    zero: T,
    half: T,
    one: T,
) -> Palette<T>
    decreases count,
{
    if count <= 1 {
        spec_rainbow_segment(k, zero, one)
    } else {
        Palette::Glue(
            Box::new(spec_rainbow_span(k, count / 2, zero, half, one)),
            Box::new(spec_rainbow_span(k + count / 2, count / 2, zero, half, one)),
            half,
        )
    }
}

/// The rainbow: eight crossfades between neighbouring colours, glued
/// pairwise at their midpoints into a balanced tree, the whole periodic and
/// reflecting.
pub open spec fn spec_rainbow_palette<T: Number<T>>(zero: T, half: T, one: T) -> Palette<T> {
    Palette::Wrapping(Box::new(spec_rainbow_span(0, 8, zero, half, one)))
}

/// The rainbow over `T`, with zero, one and the midpoint `1 / 2` as `scalar`
/// gives them.
pub open spec fn rainbow_of<T: Number<T> + Div<Output = T>>(scalar: spec_fn(u16) -> T) -> Palette<
    T,
> {
    spec_rainbow_palette(
        zero_of(scalar),
        unit_of(scalar).div_spec(scalar(2u16)),
        unit_of(scalar),
    )
}

/// The `k`-th colour that the rainbow passes through.
pub fn rainbow_stop<T: Number<T>, S: Fn(u16) -> T>(k: u8, to_scalar: &S) -> (stop: Color<T>)
    requires
        is_function(*to_scalar),
    ensures
        stop == spec_rainbow_stop(
            k as int,
            zero_of(as_function(*to_scalar)),
            unit_of(as_function(*to_scalar)),
        ),
{
    let zero = apply(to_scalar, 0u16);
    let one = apply(to_scalar, 1u16);
    if k == 0 {
        Color(zero, zero, zero)
    } else if k == 1 {
        Color(one, zero, zero)
    } else if k == 2 {
        Color(one, one, zero)
    } else if k == 3 || k == 4 {
        Color(zero, one, zero)
    } else if k == 5 {
        Color(zero, one, one)
    } else if k == 6 {
        Color(zero, zero, one)
    } else if k == 7 {
        Color(one, zero, one)
    } else {
        Color(one, one, one)
    }
}

fn rainbow_segment<T: Number<T>, S: Fn(u16) -> T>(k: u8, to_scalar: &S) -> (palette: Palette<T>)
    requires
        k < 8,
        is_function(*to_scalar),
    ensures
        palette == spec_rainbow_segment(
            k as int,
            zero_of(as_function(*to_scalar)),
            unit_of(as_function(*to_scalar)),
        ),
{
    blend(rainbow_stop(k, to_scalar).palette_fn(), rainbow_stop(k + 1, to_scalar).palette_fn())
}

fn rainbow_span<T: Number<T>, S: Fn(u16) -> T>(k: u8, count: u8, half: T, to_scalar: &S) -> (palette:
    Palette<T>)
    requires
        k + count <= 8,
        count == 1 || count == 2 || count == 4 || count == 8,
        is_function(*to_scalar),
    ensures
        palette == spec_rainbow_span(
            k as int,
            count as int,
            zero_of(as_function(*to_scalar)),
            half,
            unit_of(as_function(*to_scalar)),
        ),
    decreases count,
{
    if count <= 1 {
        rainbow_segment(k, to_scalar)
    } else {
        let lower = rainbow_span(k, count / 2, half, to_scalar);
        let upper = rainbow_span(k + count / 2, count / 2, half, to_scalar);
        glue(lower, upper, half)
    }
}

/// The built-in rainbow gradient over `T`. `to_scalar` gives the number of
/// `T` that stands for a whole number.
pub fn rainbow_palette<T: Number<T> + Div<Output = T>, S: Fn(u16) -> T>(to_scalar: &S) -> (palette:
    Palette<T>)
    requires
        T::obeys_div_spec(),
        is_function(*to_scalar),
        unit_of(as_function(*to_scalar)).div_req(as_function(*to_scalar)(2u16)),
    ensures
        palette == rainbow_of(as_function(*to_scalar)),
{
    let half = apply(to_scalar, 1u16) / apply(to_scalar, 2u16);
    wrapping(rainbow_span(0, 8, half, to_scalar))
}

} // verus!
