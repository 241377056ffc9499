use vstd::prelude::*;

verus! {

/// A region of the plane, as a set of positions of type `P`.
///
/// Implementations override the spec functions. The default bodies only let
/// implementations written outside Verus, which cannot write spec functions,
/// compile: one that keeps a default is described by an unknown constant.
pub trait Shape<P>: Sized {
    open spec fn spec_hit(&self, p: P) -> bool {
        arbitrary()
    }

    /// Whether `p` lies in the shape.
    fn hit(&self, p: P) -> (r: bool)
        ensures
            r == self.spec_hit(p),
    ;
}

/// Something that can be placed at, or shifted by, a position.
///
/// Implementations override the spec functions. The default bodies only let
/// implementations written outside Verus, which cannot write spec functions,
/// compile: one that keeps a default is described by an unknown constant.
pub trait Movable<P>: Sized {
    open spec fn spec_moved_to(&self, p: P) -> Self {
        arbitrary()
    }

    open spec fn spec_moved_by(&self, v: P) -> Self {
        arbitrary()
    }

    fn move_to(&mut self, p: P)
        ensures
            *final(self) == old(self).spec_moved_to(p),
    ;

    fn move_by(&mut self, v: P)
        ensures
            *final(self) == old(self).spec_moved_by(v),
    ;
}

/// A shape that can grow its hit area by an extra margin.
///
/// Implementations override the spec functions. The default bodies only let
/// implementations written outside Verus, which cannot write spec functions,
/// compile: one that keeps a default is described by an unknown constant.
pub trait HitboxPadding<E>: Sized {
    open spec fn spec_padded(&self, extra: E) -> Self {
        arbitrary()
    }

    fn padded(&self, extra: E) -> (r: Self)
        ensures
            r == self.spec_padded(extra),
    ;
}

/// A description from which a shape of type `T` is built.
///
/// Implementations override the spec functions. The default bodies only let
/// implementations written outside Verus, which cannot write spec functions,
/// compile: one that keeps a default is described by an unknown constant.
pub trait ShapeBuilder<T, P>: Sized {
    open spec fn spec_build(&self) -> T {
        arbitrary()
    }

    open spec fn spec_with_position(self, p: P) -> Self {
        arbitrary()
    }

    fn build(&self) -> (r: T)
        ensures
            r == self.spec_build(),
    ;

    fn set_position(self, p: P) -> (r: Self)
        ensures
            r == self.spec_with_position(p),
    ;
}

/// Cuts from a shape the part that shows a value of type `V`.
///
/// Implementations override the spec functions. The default bodies only let
/// implementations written outside Verus, which cannot write spec functions,
/// compile: one that keeps a default is described by an unknown constant.
pub trait ShapeSlicer<S, V> {
    open spec fn spec_slice(&self, shape: S, val: V) -> S {
        arbitrary()
    }

    fn shape_slice(&self, shape: &S, val: V) -> (r: S)
        ensures
            r == self.spec_slice(*shape, val),
    ;
}

/// A shape whose hit area (`hitbox`) differs from what is drawn (`drawable`).
#[derive(Clone, Copy)]
pub struct Combined<H, D> {
    pub hitbox: H,
    pub drawable: D,
}

impl<P, H: Shape<P>, D> Shape<P> for Combined<H, D> {
    open spec fn spec_hit(&self, p: P) -> bool {
        self.hitbox.spec_hit(p)
    }

    fn hit(&self, p: P) -> (r: bool) {
        self.hitbox.hit(p)
    }
}

impl<P: Copy, H: Movable<P>, D: Movable<P>> Movable<P> for Combined<H, D> {
    open spec fn spec_moved_to(&self, p: P) -> Self {
        Combined { hitbox: self.hitbox.spec_moved_to(p), drawable: self.drawable.spec_moved_to(p) }
    }

    open spec fn spec_moved_by(&self, v: P) -> Self {
        Combined { hitbox: self.hitbox.spec_moved_by(v), drawable: self.drawable.spec_moved_by(v) }
    }

    fn move_by(&mut self, v: P) {
        self.hitbox.move_by(v);
        self.drawable.move_by(v);
    }

    fn move_to(&mut self, p: P) {
        self.hitbox.move_to(p);
        self.drawable.move_to(p);
    }
}

/// Builds a `Combined` shape from one builder for each part.
pub struct CombinedBuilder<HB, DB> {
    pub hitbox: HB,
    pub drawable: DB,
}

impl<P: Copy, H, D, HB: ShapeBuilder<H, P>, DB: ShapeBuilder<D, P>> ShapeBuilder<Combined<H, D>, P> for CombinedBuilder<HB, DB> {
    open spec fn spec_build(&self) -> Combined<H, D> {
        Combined { hitbox: self.hitbox.spec_build(), drawable: self.drawable.spec_build() }
    }

    open spec fn spec_with_position(self, p: P) -> Self {
        CombinedBuilder {
            hitbox: self.hitbox.spec_with_position(p),
            drawable: self.drawable.spec_with_position(p),
        }
    }

    fn set_position(self, p: P) -> (r: Self) {
        let CombinedBuilder { hitbox, drawable } = self;
        CombinedBuilder { hitbox: hitbox.set_position(p), drawable: drawable.set_position(p) }
    }

    fn build(&self) -> (r: Combined<H, D>) {
        Combined { hitbox: self.hitbox.build(), drawable: self.drawable.build() }
    }
}

/// Slices both parts of a `Combined` shape.
pub struct CombinedSlicer<HS, DS> {
    pub hitbox_slicer: HS,
    pub drawable_slicer: DS,
}

impl<V: Copy, H, D, HS: ShapeSlicer<H, V>, DS: ShapeSlicer<D, V>> ShapeSlicer<Combined<H, D>, V> for CombinedSlicer<HS, DS> {
    open spec fn spec_slice(&self, shape: Combined<H, D>, val: V) -> Combined<H, D> {
        Combined {
            hitbox: self.hitbox_slicer.spec_slice(shape.hitbox, val),
            drawable: self.drawable_slicer.spec_slice(shape.drawable, val),
        }
    }

    fn shape_slice(&self, shape: &Combined<H, D>, val: V) -> (r: Combined<H, D>) {
        Combined {
            hitbox: self.hitbox_slicer.shape_slice(&shape.hitbox, val),
            drawable: self.drawable_slicer.shape_slice(&shape.drawable, val),
        }
    }
}

} // verus!

verus! {

/// A copy of `obj` placed at `p`.
pub fn moved_to<P, T: Copy + Movable<P>>(obj: &T, p: P) -> (r: T)
    ensures
        r == obj.spec_moved_to(p),
{
    let mut res = *obj;
    res.move_to(p);
    res
}

/// A copy of `obj` shifted by `v`.
pub fn moved_by<P, T: Copy + Movable<P>>(obj: &T, v: P) -> (r: T)
    ensures
        r == obj.spec_moved_by(v),
{
    let mut res = *obj;
    res.move_by(v);
    res
}

} // verus!
