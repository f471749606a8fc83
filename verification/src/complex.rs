use vstd::prelude::*;
use vstd::std_specs::cmp::{PartialOrdIs, PartialOrdSpec};
use vstd::std_specs::ops::{AddSpec, AddSpecImpl, MulSpec, MulSpecImpl, SubSpec, SubSpecImpl};
use std::ops::{Add, Mul, Sub};

verus! {

/// The capability set a component type needs: addition, subtraction,
/// multiplication and copying, each closed over the type itself.
pub trait Number<T>: Add<Output = T> + Sub<Output = T> + Mul<Output = T> + Copy {
}

impl<T> Number<T> for T where T: Add<Output = T> + Sub<Output = T> + Mul<Output = T> + Copy {
}

/// A complex number `r + i·i` over a component type `T`.
#[derive(Copy, Clone, Debug)]
pub struct Complex<T: Number<T>> {
    pub r: T,
    pub i: T,
}

/// Comparisons of `T` behave as their specification says.
pub open spec fn obeys_order<T: PartialOrd>() -> bool {
    T::obeys_partial_cmp_spec()
}

/// `a` is strictly greater than `b` in the order of `T`.
pub open spec fn exceeds<T: PartialOrd>(a: T, b: T) -> bool {
    a.is_gt(&b)
}

/// `a` is strictly less than `b` in the order of `T`.
pub open spec fn falls_below<T: PartialOrd>(a: T, b: T) -> bool {
    a.is_lt(&b)
}

/// What `f` returns for `a`.
pub open spec fn value_of<A, B, F: Fn(A) -> B>(f: F, a: A) -> B {
    choose|b: B| call_ensures(f, (a,), b)
}

/// The function that `f` computes.
pub open spec fn as_function<A, B, F: Fn(A) -> B>(f: F) -> spec_fn(A) -> B {
    |a: A| value_of(f, a)
}

/// `f` can be called on every value and returns one result for each.
pub open spec fn is_function<A, B, F: Fn(A) -> B>(f: F) -> bool {
    &&& forall|a: A| call_requires(f, (a,))
    &&& forall|a: A, b: B, c: B| call_ensures(f, (a,), b) && call_ensures(f, (a,), c) ==> b == c
}

/// Calls `f` on `a`.
pub fn apply<A, B, F: Fn(A) -> B>(f: &F, a: A) -> (b: B)
    requires
        is_function(*f),
    ensures
        call_ensures(*f, (a,), b),
        b == as_function(*f)(a),
{
    f(a)
}

/// The zero of `T`, as `scalar` gives it.
pub open spec fn zero_of<T>(scalar: spec_fn(u16) -> T) -> T {
    scalar(0u16)
}

/// The one of `T`, as `scalar` gives it.
pub open spec fn unit_of<T>(scalar: spec_fn(u16) -> T) -> T {
    scalar(1u16)
}

/// All three component operations of `T` behave as their specifications say.
pub open spec fn obeys_arith<T: Number<T>>() -> bool {
    T::obeys_add_spec() && T::obeys_sub_spec() && T::obeys_mul_spec()
}

impl<T: Number<T>> Complex<T> {
    /// The complex number with real part `r` and imaginary part `i`.
    pub fn new(r: T, i: T) -> (z: Self)
        ensures
            z.r == r,
            z.i == i,
    {
        Complex { r, i }
    }

    /// `r² + i²` over the component operations of `T`.
    pub open spec fn spec_mag_squared(self) -> T {
        self.r.mul_spec(self.r).add_spec(self.i.mul_spec(self.i))
    }

    /// The component operations that `mag_squared` performs are all permitted.
    pub open spec fn mag_squared_req(self) -> bool {
        &&& obeys_arith::<T>()
        &&& self.r.mul_req(self.r)
        &&& self.i.mul_req(self.i)
        &&& self.r.mul_spec(self.r).add_req(self.i.mul_spec(self.i))
    }

    /// The squared magnitude `r² + i²`.
    pub fn mag_squared(&self) -> (m: T)
        requires
            self.mag_squared_req(),
        ensures
            m == self.spec_mag_squared(),
    {
        self.r * self.r + self.i * self.i
    }
}

impl<T: Number<T>> AddSpecImpl<Complex<T>> for Complex<T> {
    open spec fn obeys_add_spec() -> bool {
        T::obeys_add_spec()
    }

    open spec fn add_req(self, rhs: Complex<T>) -> bool {
        self.r.add_req(rhs.r) && self.i.add_req(rhs.i)
    }

    open spec fn add_spec(self, rhs: Complex<T>) -> Complex<T> {
        Complex { r: self.r.add_spec(rhs.r), i: self.i.add_spec(rhs.i) }
    }
}

/// Componentwise sum.
impl<T: Number<T>> Add<Complex<T>> for Complex<T> {
    type Output = Complex<T>;

    fn add(self, rhs: Complex<T>) -> (sum: Complex<T>) {
        Complex::new(self.r + rhs.r, self.i + rhs.i)
    }
}

impl<T: Number<T>> SubSpecImpl<Complex<T>> for Complex<T> {
    open spec fn obeys_sub_spec() -> bool {
        T::obeys_sub_spec()
    }

    open spec fn sub_req(self, rhs: Complex<T>) -> bool {
        self.r.sub_req(rhs.r) && self.i.sub_req(rhs.i)
    }

    open spec fn sub_spec(self, rhs: Complex<T>) -> Complex<T> {
        Complex { r: self.r.sub_spec(rhs.r), i: self.i.sub_spec(rhs.i) }
    }
}

/// Componentwise difference.
impl<T: Number<T>> Sub<Complex<T>> for Complex<T> {
    type Output = Complex<T>;

    fn sub(self, rhs: Complex<T>) -> (difference: Complex<T>) {
        Complex::new(self.r - rhs.r, self.i - rhs.i)
    }
}

impl<T: Number<T>> MulSpecImpl<Complex<T>> for Complex<T> {
    open spec fn obeys_mul_spec() -> bool {
        obeys_arith::<T>()
    }

    /// The four component products, and the difference and the sum made of
    /// them, are all permitted.
    open spec fn mul_req(self, rhs: Complex<T>) -> bool {
        &&& obeys_arith::<T>()
        &&& self.r.mul_req(rhs.r)
        &&& self.i.mul_req(rhs.i)
        &&& self.r.mul_req(rhs.i)
        &&& self.i.mul_req(rhs.r)
        &&& self.r.mul_spec(rhs.r).sub_req(self.i.mul_spec(rhs.i))
        &&& self.r.mul_spec(rhs.i).add_req(self.i.mul_spec(rhs.r))
    }

    /// `(a + bi)(c + di) = (ac − bd) + (ad + bc)i`.
    open spec fn mul_spec(self, rhs: Complex<T>) -> Complex<T> {
        Complex {
            r: self.r.mul_spec(rhs.r).sub_spec(self.i.mul_spec(rhs.i)),
            i: self.r.mul_spec(rhs.i).add_spec(self.i.mul_spec(rhs.r)),
        }
    }
}

/// The complex product.
impl<T: Number<T>> Mul<Complex<T>> for Complex<T> {
    type Output = Complex<T>;

    fn mul(self, rhs: Complex<T>) -> (product: Complex<T>) {
        let r = self.r * rhs.r - self.i * rhs.i;
        let i = self.r * rhs.i + self.i * rhs.r;
        Complex::new(r, i)
    }
}

impl<T: Number<T>> vstd::std_specs::convert::FromSpecImpl<(T, T)> for Complex<T> {
    open spec fn obeys_from_spec() -> bool {
        true
    }

    open spec fn from_spec(value: (T, T)) -> Complex<T> {
        Complex { r: value.0, i: value.1 }
    }
}

/// The pair of the real and the imaginary part, as a complex number.
impl<T: Number<T>> From<(T, T)> for Complex<T> {
    fn from(value: (T, T)) -> (z: Complex<T>) {
        Complex::new(value.0, value.1)
    }
}

} // verus!
