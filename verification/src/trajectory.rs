use vstd::prelude::*;

use crate::shapes::{Combined, CombinedSlicer, HitboxPadding, Movable, Shape, ShapeSlicer};

verus! {

/// How a value of type `V` follows the pointer: the value picked when the
/// pointer grabs a position, the value after a drag, and the position that
/// shows a value.
///
/// Implementations override the spec functions. The default bodies only let
/// implementations written outside Verus, which cannot write spec functions,
/// compile: one that keeps a default is described by an unknown constant.
pub trait Trajectory<V, P> {
    open spec fn spec_capture_val(&self, pos: P) -> V {
        arbitrary()
    }

    open spec fn spec_change_val(&self, delta: P, pos: P, old_val: V) -> V {
        arbitrary()
    }

    open spec fn spec_change_pos(&self, val: V) -> P {
        arbitrary()
    }

    fn capture_val(&self, pos: P) -> (r: V)
        ensures
            r == self.spec_capture_val(pos),
    ;

    fn change_val(&self, delta: P, pos: P, old_val: V) -> (r: V)
        ensures
            r == self.spec_change_val(delta, pos, old_val),
    ;

    fn change_pos(&self, val: V) -> (r: P)
        ensures
            r == self.spec_change_pos(val),
    ;
}

/// A two-way map between values of type `V` and units of type `U`.
///
/// Implementations override the spec functions. The default bodies only let
/// implementations written outside Verus, which cannot write spec functions,
/// compile: one that keeps a default is described by an unknown constant.
pub trait Scale<V>: Copy + Sized {
    type U;

    open spec fn spec_to_unit(&self, val: V) -> Self::U {
        arbitrary()
    }

    open spec fn spec_from_unit(&self, t: Self::U) -> V {
        arbitrary()
    }

    fn to_unit(&self, val: V) -> (r: Self::U)
        ensures
            r == self.spec_to_unit(val),
    ;

    fn from_unit(&self, t: Self::U) -> (r: V)
        ensures
            r == self.spec_from_unit(t),
    ;

    /// The scale that first maps a `W` to a `V` with `other`, then a `V`
    /// to a unit with `self`.
    fn then_scale<G>(self, other: G) -> (r: ComposedScale<Self, G>)
        ensures
            r.f == self,
            r.g == other,
    {
        ComposedScale { f: self, g: other }
    }
}

/// Every value survives the trip to units and back.
pub open spec fn values_round_trip<V, Sc: Scale<V>>(sc: Sc) -> bool {
    forall|v: V| #[trigger] sc.spec_from_unit(sc.spec_to_unit(v)) == v
}

/// Every unit survives the trip to values and back.
pub open spec fn units_round_trip<V, Sc: Scale<V>>(sc: Sc) -> bool {
    forall|t: Sc::U| #[trigger] sc.spec_to_unit(sc.spec_from_unit(t)) == t
}

/// The scale `g` followed by the scale `f`: a `W` goes to a `V` by `g`,
/// then to a unit by `f`.
#[derive(Clone, Copy)]
pub struct ComposedScale<VS, WS> {
    pub f: VS,
    pub g: WS,
}

impl<V, W, VS: Scale<V>, WS: Scale<W, U = V>> Scale<W> for ComposedScale<VS, WS> {
    type U = VS::U;

    open spec fn spec_to_unit(&self, val: W) -> VS::U {
        self.f.spec_to_unit(self.g.spec_to_unit(val))
    }

    open spec fn spec_from_unit(&self, t: VS::U) -> W {
        self.g.spec_from_unit(self.f.spec_from_unit(t))
    }

    fn to_unit(&self, val: W) -> (r: VS::U) {
        self.f.to_unit(self.g.to_unit(val))
    }

    fn from_unit(&self, t: VS::U) -> (r: W) {
        self.g.from_unit(self.f.from_unit(t))
    }
}


/// A trajectory over units, read through a scale: values of type `V` are
/// turned into units for the inner trajectory and back.
#[derive(Clone, Copy)]
pub struct ScaledTrajectory<T, Sc> {
    inner: T,
    scale: Sc,
}

impl<T, Sc> ScaledTrajectory<T, Sc> {
    pub closed spec fn spec_inner(self) -> T {
        self.inner
    }

    pub closed spec fn spec_scale(self) -> Sc {
        self.scale
    }
}

impl<V, P, T: Trajectory<Sc::U, P>, Sc: Scale<V>> Trajectory<V, P> for ScaledTrajectory<T, Sc> {
    open spec fn spec_capture_val(&self, pos: P) -> V {
        self.spec_scale().spec_from_unit(self.spec_inner().spec_capture_val(pos))
    }

    open spec fn spec_change_val(&self, delta: P, pos: P, old_val: V) -> V {
        let old_t = self.spec_scale().spec_to_unit(old_val);
        self.spec_scale().spec_from_unit(self.spec_inner().spec_change_val(delta, pos, old_t))
    }

    open spec fn spec_change_pos(&self, val: V) -> P {
        self.spec_inner().spec_change_pos(self.spec_scale().spec_to_unit(val))
    }

    fn capture_val(&self, pos: P) -> (r: V) {
        self.scale.from_unit(self.inner.capture_val(pos))
    }

    fn change_val(&self, delta: P, pos: P, old_val: V) -> (r: V) {
        let old_t = self.scale.to_unit(old_val);
        let new_t = self.inner.change_val(delta, pos, old_t);
        self.scale.from_unit(new_t)
    }

    fn change_pos(&self, val: V) -> (r: P) {
        self.inner.change_pos(self.scale.to_unit(val))
    }
}

impl<P, T: Movable<P>, Sc> Movable<P> for ScaledTrajectory<T, Sc> {
    closed spec fn spec_moved_to(&self, p: P) -> Self {
        ScaledTrajectory { inner: self.spec_inner().spec_moved_to(p), scale: self.spec_scale() }
    }

    closed spec fn spec_moved_by(&self, v: P) -> Self {
        ScaledTrajectory { inner: self.spec_inner().spec_moved_by(v), scale: self.spec_scale() }
    }

    fn move_by(&mut self, v: P) {
        self.inner.move_by(v);
    }

    fn move_to(&mut self, p: P) {
        self.inner.move_to(p);
    }
}

/// A slicer over units, read through a scale.
#[derive(Clone, Copy)]
pub struct ScaledSlicer<SL, Sc> {
    inner: SL,
    scale: Sc,
}

impl<SL, Sc> ScaledSlicer<SL, Sc> {
    pub closed spec fn spec_inner(self) -> SL {
        self.inner
    }

    pub closed spec fn spec_scale(self) -> Sc {
        self.scale
    }
}

impl<V, S, SL: ShapeSlicer<S, Sc::U>, Sc: Scale<V>> ShapeSlicer<S, V> for ScaledSlicer<SL, Sc> {
    open spec fn spec_slice(&self, shape: S, val: V) -> S {
        self.spec_inner().spec_slice(shape, self.spec_scale().spec_to_unit(val))
    }

    fn shape_slice(&self, shape: &S, val: V) -> (r: S) {
        self.inner.shape_slice(shape, self.scale.to_unit(val))
    }
}


/// The track of a slider: the shape drawn for it, the trajectory its
/// handle follows, and the slicer that shows the part up to a value.
///
/// Implementations override the spec functions. The default bodies only let
/// implementations written outside Verus, which cannot write spec functions,
/// compile: one that keeps a default is described by an unknown constant.
pub trait Path<V, P>: Copy + Sized {
    type S: Shape<P>;
    type T: Trajectory<V, P>;
    type SL: ShapeSlicer<Self::S, V>;

    open spec fn spec_trajectory(&self) -> Self::T {
        arbitrary()
    }

    open spec fn spec_slicer(&self) -> Self::SL {
        arbitrary()
    }

    open spec fn spec_shape(&self) -> Self::S {
        arbitrary()
    }

    open spec fn spec_positioned(self, p: P) -> Self {
        arbitrary()
    }

    fn get_trajectory(&self) -> (r: Self::T)
        ensures
            r == self.spec_trajectory(),
    ;

    fn slicer(&self) -> (r: Self::SL)
        ensures
            r == self.spec_slicer(),
    ;

    fn shape(&self) -> (r: Self::S)
        ensures
            r == self.spec_shape(),
    ;

    fn position(self, p: P) -> (r: Self)
        ensures
            r == self.spec_positioned(p),
    ;

    /// The same path with its hit area grown by `extra`.
    fn pad_hitbox<E>(self, extra: E) -> (r: PaddedPath<Self, E>)
        ensures
            r.spec_inner() == self,
            r.spec_padding() == extra,
    {
        PaddedPath::padded(self, extra)
    }

    /// The same path, with values read through `scale`.
    fn scaled<Sc>(self, scale: Sc) -> (r: ScaledPath<Self, Sc>)
        ensures
            r.spec_inner() == self,
            r.spec_scale() == scale,
    {
        ScaledPath { inner: self, scale }
    }
}

/// A path whose values are read through a scale.
#[derive(Clone, Copy)]
pub struct ScaledPath<P, Sc> {
    inner: P,
    scale: Sc,
}

impl<P, Sc> ScaledPath<P, Sc> {
    pub closed spec fn spec_inner(self) -> P {
        self.inner
    }

    pub closed spec fn spec_scale(self) -> Sc {
        self.scale
    }
}

impl<V, Q, P: Path<Sc::U, Q>, Sc: Scale<V>> Path<V, Q> for ScaledPath<P, Sc> {
    type S = P::S;
    type T = ScaledTrajectory<P::T, Sc>;
    type SL = ScaledSlicer<P::SL, Sc>;

    open spec fn spec_shape(&self) -> P::S {
        self.spec_inner().spec_shape()
    }

    closed spec fn spec_trajectory(&self) -> ScaledTrajectory<P::T, Sc> {
        ScaledTrajectory { inner: self.inner.spec_trajectory(), scale: self.scale }
    }

    closed spec fn spec_slicer(&self) -> ScaledSlicer<P::SL, Sc> {
        ScaledSlicer { inner: self.inner.spec_slicer(), scale: self.scale }
    }

    closed spec fn spec_positioned(self, p: Q) -> Self {
        ScaledPath { inner: self.inner.spec_positioned(p), scale: self.scale }
    }

    fn shape(&self) -> (r: P::S) {
        self.inner.shape()
    }

    fn get_trajectory(&self) -> (r: ScaledTrajectory<P::T, Sc>) {
        ScaledTrajectory { inner: self.inner.get_trajectory(), scale: self.scale }
    }

    fn slicer(&self) -> (r: ScaledSlicer<P::SL, Sc>) {
        ScaledSlicer { inner: self.inner.slicer(), scale: self.scale }
    }

    fn position(self, p: Q) -> (r: Self) {
        ScaledPath { inner: self.inner.position(p), scale: self.scale }
    }
}

/// A path whose hit area is its shape grown by `hit_padding`; the shape
/// drawn stays as it was.
#[derive(Clone, Copy)]
pub struct PaddedPath<P, E> {
    inner: P,
    hit_padding: E,
}

impl<P, E> PaddedPath<P, E> {
    pub closed spec fn spec_inner(self) -> P {
        self.inner
    }

    pub closed spec fn spec_padding(self) -> E {
        self.hit_padding
    }

    /// `inner` with the default padding of `E` (zero for numbers).
    pub fn new(inner: P) -> (r: Self) where E: Default
        ensures
            r.spec_inner() == inner,
            call_ensures(E::default, (), r.spec_padding()),
    {
        PaddedPath { inner, hit_padding: E::default() }
    }

    pub fn padded(inner: P, extra: E) -> (r: Self)
        ensures
            r.spec_inner() == inner,
            r.spec_padding() == extra,
    {
        PaddedPath { inner, hit_padding: extra }
    }

    pub fn padding(self, extra: E) -> (r: Self)
        ensures
            r.spec_inner() == self.spec_inner(),
            r.spec_padding() == extra,
    {
        PaddedPath { inner: self.inner, hit_padding: extra }
    }
}

impl<V: Copy, Q, E: Copy, P: Path<V, Q>> Path<V, Q> for PaddedPath<P, E> where P::S: HitboxPadding<E> {
    type S = Combined<P::S, P::S>;
    type T = P::T;
    type SL = CombinedSlicer<P::SL, P::SL>;

    /// The drawn shape is the inner one; the hit area is that shape padded.
    open spec fn spec_shape(&self) -> Combined<P::S, P::S> {
        let drawable = self.spec_inner().spec_shape();
        Combined { hitbox: drawable.spec_padded(self.spec_padding()), drawable }
    }

    open spec fn spec_trajectory(&self) -> P::T {
        self.spec_inner().spec_trajectory()
    }

    open spec fn spec_slicer(&self) -> CombinedSlicer<P::SL, P::SL> {
        CombinedSlicer { hitbox_slicer: self.spec_inner().spec_slicer(), drawable_slicer: self.spec_inner().spec_slicer() }
    }

    closed spec fn spec_positioned(self, p: Q) -> Self {
        PaddedPath { inner: self.inner.spec_positioned(p), hit_padding: self.hit_padding }
    }

    fn shape(&self) -> (r: Combined<P::S, P::S>) {
        let drawable = self.inner.shape();
        let hitbox = drawable.padded(self.hit_padding);
        Combined { hitbox, drawable }
    }

    fn get_trajectory(&self) -> (r: P::T) {
        self.inner.get_trajectory()
    }

    fn slicer(&self) -> (r: CombinedSlicer<P::SL, P::SL>) {
        CombinedSlicer { hitbox_slicer: self.inner.slicer(), drawable_slicer: self.inner.slicer() }
    }

    fn position(self, p: Q) -> (r: Self) {
        PaddedPath { inner: self.inner.position(p), hit_padding: self.hit_padding }
    }
}

} // verus!

verus! {

/// Composing two scales that keep values through a round trip gives a
/// scale that keeps values through a round trip.
pub proof fn law_composed_values_round_trip<V, W, VS: Scale<V>, WS: Scale<W, U = V>>(f: VS, g: WS)
    requires
        values_round_trip::<V, VS>(f),
        values_round_trip::<W, WS>(g),
    ensures
        values_round_trip::<W, ComposedScale<VS, WS>>(ComposedScale { f, g }),
{
    let c = ComposedScale { f, g };
    assert forall|w: W| #[trigger] c.spec_from_unit(c.spec_to_unit(w)) == w by {
        let v = g.spec_to_unit(w);
        assert(f.spec_from_unit(f.spec_to_unit(v)) == v);
        assert(g.spec_from_unit(g.spec_to_unit(w)) == w);
    }
}

/// Composing two scales that keep units through a round trip gives a scale
/// that keeps units through a round trip.
pub proof fn law_composed_units_round_trip<V, W, VS: Scale<V>, WS: Scale<W, U = V>>(f: VS, g: WS)
    requires
        units_round_trip::<V, VS>(f),
        units_round_trip::<W, WS>(g),
    ensures
        units_round_trip::<W, ComposedScale<VS, WS>>(ComposedScale { f, g }),
{
    let c = ComposedScale { f, g };
    assert forall|t: VS::U| #[trigger] c.spec_to_unit(c.spec_from_unit(t)) == t by {
        let v = f.spec_from_unit(t);
        assert(g.spec_to_unit(g.spec_from_unit(v)) == v);
        assert(f.spec_to_unit(f.spec_from_unit(t)) == t);
    }
}

} // verus!

verus! {

impl<T, Sc> ScaledTrajectory<T, Sc> {
    /// A scaled trajectory reads the inner trajectory through the scale: a
    /// grab gives the inner value mapped from units, a drag gives the inner
    /// drag of the old value's units mapped back, and a value is shown where
    /// the inner trajectory shows its units.
    pub proof fn law_reads_inner_through_scale<V, P>(self, delta: P, pos: P, v: V) where
        T: Trajectory<Sc::U, P>,
        Sc: Scale<V>,
        ensures
            self.spec_capture_val(pos) == self.spec_scale().spec_from_unit(self.spec_inner().spec_capture_val(pos)),
            self.spec_change_val(delta, pos, v) == self.spec_scale().spec_from_unit(
                self.spec_inner().spec_change_val(delta, pos, self.spec_scale().spec_to_unit(v)),
            ),
            self.spec_change_pos(v) == self.spec_inner().spec_change_pos(self.spec_scale().spec_to_unit(v)),
    {
    }

    /// When the scale keeps units through a round trip, a drag moves the
    /// value to where the inner trajectory's drag puts the handler: the
    /// position shown after a scaled drag is the inner trajectory's
    /// position after its own drag.
    pub proof fn law_drag_lands_where_inner_drag_lands<V, P>(self, delta: P, pos: P, v: V) where
        T: Trajectory<Sc::U, P>,
        Sc: Scale<V>,
        requires
            units_round_trip::<V, Sc>(self.spec_scale()),
        ensures
            self.spec_change_pos(self.spec_change_val(delta, pos, v)) == self.spec_inner().spec_change_pos(
                self.spec_inner().spec_change_val(delta, pos, self.spec_scale().spec_to_unit(v)),
            ),
            self.spec_change_pos(self.spec_capture_val(pos)) == self.spec_inner().spec_change_pos(
                self.spec_inner().spec_capture_val(pos),
            ),
    {
        let sc = self.spec_scale();
        let t = self.spec_inner().spec_change_val(delta, pos, sc.spec_to_unit(v));
        assert(sc.spec_to_unit(sc.spec_from_unit(t)) == t);
        let c = self.spec_inner().spec_capture_val(pos);
        assert(sc.spec_to_unit(sc.spec_from_unit(c)) == c);
    }
}

} // verus!
