use vstd::prelude::*;
use crate::complex::{Complex, Number};

pub mod bitmap;
pub mod colors;
pub mod complex;
pub mod fractal;
pub mod parse;

verus! {

/// What to render: the image's dimensions in pixels, the zoom level and the
/// centre of the window into the plane, the bound on the iterations that
/// look for an escape, and the number of iterations that the gradient spans
/// where that is not the bound itself.
#[derive(Debug, Clone, Copy)]
pub struct Params<T: Number<T>> {
    pub width: u16,
    pub height: u16,
    pub zoom: T,
    pub center: Complex<T>,
    pub max_iters: i64,
    pub gradient_iters: Option<i64>,
}

} // verus!
