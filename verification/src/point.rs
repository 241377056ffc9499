use vstd::prelude::*;
use vstd::std_specs::ops::{AddSpec, AddSpecImpl, DivSpec, DivSpecImpl, MulSpec, MulSpecImpl, NegSpec, NegSpecImpl, SubSpec, SubSpecImpl};
use vstd::std_specs::convert::{FromSpec, FromSpecImpl};
use std::ops::{Add, Div, Mul, Neg, Sub};

verus! {

/// A two-dimensional vector over a scalar type `S`.
#[derive(Debug, PartialEq, Clone, Copy)]
pub struct Vec2<S> {
    pub x: S,
    pub y: S,
}

impl<S: Copy> Vec2<S> {
    pub fn new(x: S, y: S) -> (r: Self)
        ensures
            r.x == x,
            r.y == y,
    {
        Self { x, y }
    }

    pub fn from_scalar(x: S) -> (r: Self)
        ensures
            r.x == x,
            r.y == x,
    {
        Self { x: x, y: x }
    }

    pub fn from_tuple(t: (S, S)) -> (r: Self)
        ensures
            r.x == t.0,
            r.y == t.1,
    {
        let (x, y) = t;
        Self { x, y }
    }

    /// The same vector with its coordinates exchanged.
    pub fn swap(self) -> (r: Self)
        ensures
            r.x == self.y,
            r.y == self.x,
    {
        Self { x: self.y, y: self.x }
    }
}

/// The product of two scalars, as `S`'s multiplication defines it.
pub open spec fn times<S: Mul<T, Output = S>, T>(a: S, b: T) -> S {
    a.mul_spec(b)
}

/// The sum of two scalars, as `S`'s addition defines it.
pub open spec fn plus<S: Add<Output = S>>(a: S, b: S) -> S {
    a.add_spec(b)
}

/// `S`'s arithmetic is the one its spec functions describe.
pub open spec fn lawful_ring<S: Add<Output = S> + Mul<T, Output = S>, T>() -> bool {
    S::obeys_add_spec() && <S as MulSpec<T>>::obeys_mul_spec()
}

/// The component-wise product `(lhs.x * rhs.x, lhs.y * rhs.y)`.
pub fn comp_mul<S, T>(lhs: Vec2<S>, rhs: Vec2<T>) -> (r: Vec2<S>) where S: Mul<T, Output = S>
    requires
        lhs.x.mul_req(rhs.x),
        lhs.y.mul_req(rhs.y),
    ensures
        <S as MulSpec<T>>::obeys_mul_spec() ==> r.x == times(lhs.x, rhs.x) && r.y == times(lhs.y, rhs.y),
{
    Vec2 { x: lhs.x * rhs.x, y: lhs.y * rhs.y }
}

/// The dot product `lhs.x * rhs.x + lhs.y * rhs.y`.
pub fn dot<S, T>(lhs: Vec2<S>, rhs: Vec2<T>) -> (r: S) where S: Add<Output = S> + Mul<T, Output = S>
    requires
        lawful_ring::<S, T>(),
        lhs.x.mul_req(rhs.x),
        lhs.y.mul_req(rhs.y),
        times(lhs.x, rhs.x).add_req(times(lhs.y, rhs.y)),
    ensures
        r == plus(times(lhs.x, rhs.x), times(lhs.y, rhs.y)),
{
    lhs.x * rhs.x + lhs.y * rhs.y
}

impl<S> Vec2<S> where S: Add<Output = S> + Mul<Output = S> + Copy {
    /// The squared length `x * x + y * y`.
    pub fn sq(self) -> (r: S)
        requires
            lawful_ring::<S, S>(),
            self.x.mul_req(self.x),
            self.y.mul_req(self.y),
            times(self.x, self.x).add_req(times(self.y, self.y)),
        ensures
            r == plus(times(self.x, self.x), times(self.y, self.y)),
    {
        self.x * self.x + self.y * self.y
    }

    /// The scalar (dot) product of `a` and `b`.
    pub fn scalar(a: Self, b: Self) -> (r: S)
        requires
            lawful_ring::<S, S>(),
            a.x.mul_req(b.x),
            a.y.mul_req(b.y),
            times(a.x, b.x).add_req(times(a.y, b.y)),
        ensures
            r == plus(times(a.x, b.x), times(a.y, b.y)),
    {
        a.x * b.x + a.y * b.y
    }
}

impl<S> Vec2<S> where S: Sub<Output = S> + Mul<Output = S> + Copy {
    /// The cross product `a.x * b.y - a.y * b.x`.
    pub fn cross(a: Self, b: Self) -> (r: S)
        requires
            S::obeys_sub_spec(),
            <S as MulSpec<S>>::obeys_mul_spec(),
            a.x.mul_req(b.y),
            a.y.mul_req(b.x),
            times(a.x, b.y).sub_req(times(a.y, b.x)),
        ensures
            r == times(a.x, b.y).sub_spec(times(a.y, b.x)),
    {
        a.x * b.y - a.y * b.x
    }
}

impl<S> Vec2<S> where S: Neg<Output = S> + Copy {
    /// The vector turned a quarter turn: `(-y, x)`.
    pub fn ortog(self) -> (r: Self)
        requires
            self.y.neg_req(),
        ensures
            S::obeys_neg_spec() ==> r.x == self.y.neg_spec(),
            r.y == self.x,
    {
        Self { x: self.y.neg(), y: self.x }
    }
}

impl<S: Mul<Output = S> + Copy> Mul<S> for Vec2<S> {
    type Output = Vec2<S>;

    fn mul(self, scalar: S) -> (r: Vec2<S>) {
        Vec2 { x: self.x * scalar, y: self.y * scalar }
    }
}

impl<S: Mul<Output = S> + Copy> MulSpecImpl<S> for Vec2<S> {
    open spec fn obeys_mul_spec() -> bool {
        <S as MulSpec<S>>::obeys_mul_spec()
    }

    open spec fn mul_req(self, scalar: S) -> bool {
        self.x.mul_req(scalar) && self.y.mul_req(scalar)
    }

    open spec fn mul_spec(self, scalar: S) -> Vec2<S> {
        Vec2 { x: self.x.mul_spec(scalar), y: self.y.mul_spec(scalar) }
    }
}

impl<S: Div<Output = S> + Copy> Div<S> for Vec2<S> {
    type Output = Vec2<S>;

    fn div(self, scalar: S) -> (r: Vec2<S>) {
        Vec2 { x: self.x / scalar, y: self.y / scalar }
    }
}

impl<S: Div<Output = S> + Copy> DivSpecImpl<S> for Vec2<S> {
    open spec fn obeys_div_spec() -> bool {
        <S as DivSpec<S>>::obeys_div_spec()
    }

    open spec fn div_req(self, scalar: S) -> bool {
        self.x.div_req(scalar) && self.y.div_req(scalar)
    }

    open spec fn div_spec(self, scalar: S) -> Vec2<S> {
        Vec2 { x: self.x.div_spec(scalar), y: self.y.div_spec(scalar) }
    }
}

impl<S: Sub<Output = S>> Sub<Vec2<S>> for Vec2<S> {
    type Output = Vec2<S>;

    fn sub(self, rhs: Vec2<S>) -> (r: Vec2<S>) {
        Vec2 { x: self.x - rhs.x, y: self.y - rhs.y }
    }
}

impl<S: Sub<Output = S>> SubSpecImpl<Vec2<S>> for Vec2<S> {
    open spec fn obeys_sub_spec() -> bool {
        S::obeys_sub_spec()
    }

    open spec fn sub_req(self, rhs: Vec2<S>) -> bool {
        self.x.sub_req(rhs.x) && self.y.sub_req(rhs.y)
    }

    open spec fn sub_spec(self, rhs: Vec2<S>) -> Vec2<S> {
        Vec2 { x: self.x.sub_spec(rhs.x), y: self.y.sub_spec(rhs.y) }
    }
}

impl<S: Add<Output = S>> Add<Vec2<S>> for Vec2<S> {
    type Output = Vec2<S>;

    fn add(self, rhs: Vec2<S>) -> (r: Vec2<S>) {
        Vec2 { x: self.x + rhs.x, y: self.y + rhs.y }
    }
}

impl<S: Add<Output = S>> AddSpecImpl<Vec2<S>> for Vec2<S> {
    open spec fn obeys_add_spec() -> bool {
        S::obeys_add_spec()
    }

    open spec fn add_req(self, rhs: Vec2<S>) -> bool {
        self.x.add_req(rhs.x) && self.y.add_req(rhs.y)
    }

    open spec fn add_spec(self, rhs: Vec2<S>) -> Vec2<S> {
        Vec2 { x: self.x.add_spec(rhs.x), y: self.y.add_spec(rhs.y) }
    }
}

impl<S: Neg<Output = S>> Neg for Vec2<S> {
    type Output = Vec2<S>;

    fn neg(self) -> (r: Vec2<S>) {
        Vec2 { x: self.x.neg(), y: self.y.neg() }
    }
}

impl<S: Neg<Output = S>> NegSpecImpl for Vec2<S> {
    open spec fn obeys_neg_spec() -> bool {
        S::obeys_neg_spec()
    }

    open spec fn neg_req(self) -> bool {
        self.x.neg_req() && self.y.neg_req()
    }

    open spec fn neg_spec(self) -> Vec2<S> {
        Vec2 { x: self.x.neg_spec(), y: self.y.neg_spec() }
    }
}


impl<S> From<(S, S)> for Vec2<S> {
    fn from(t: (S, S)) -> (r: Vec2<S>) {
        let (x, y) = t;
        Vec2 { x, y }
    }
}

impl<S> FromSpecImpl<(S, S)> for Vec2<S> {
    open spec fn obeys_from_spec() -> bool {
        true
    }

    open spec fn from_spec(t: (S, S)) -> Vec2<S> {
        Vec2 { x: t.0, y: t.1 }
    }
}

impl<S> From<Vec2<S>> for (S, S) {
    fn from(p: Vec2<S>) -> (r: (S, S)) {
        (p.x, p.y)
    }
}

impl<S> FromSpecImpl<Vec2<S>> for (S, S) {
    open spec fn obeys_from_spec() -> bool {
        true
    }

    open spec fn from_spec(p: Vec2<S>) -> (S, S) {
        (p.x, p.y)
    }
}

/// Turning a pair into a vector and back gives the pair, and the other way
/// round.
pub proof fn law_tuple_round_trip<S>(t: (S, S), v: Vec2<S>)
    ensures
        <(S, S) as FromSpec<Vec2<S>>>::from_spec(<Vec2<S> as FromSpec<(S, S)>>::from_spec(t)) == t,
        <Vec2<S> as FromSpec<(S, S)>>::from_spec(<(S, S) as FromSpec<Vec2<S>>>::from_spec(v)) == v,
{
}

} // verus!
