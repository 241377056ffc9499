use vstd::prelude::*;

use crate::handler::{show_value, Handler};
use crate::shapes::{Movable, Shape, ShapeBuilder, ShapeSlicer};
use crate::style::{Style, WidgetStyle};
use crate::trajectory::{Path, Trajectory};
use crate::widget::{CursorIcon, Hook, Widget, WidgetState};

verus! {

/// A handler on a track. The slider is hit on the handler and on the
/// track; it remembers whether the pointer is over the handler itself, so
/// that only the handler reacts to hover.
#[verifier::reject_recursive_types(M)]
#[verifier::reject_recursive_types(V)]
#[verifier::reject_recursive_types(St)]
pub struct Slider<M, V, S1, S2, SL, T, St, FC: Fn(V) -> M, FD: Fn(V) -> M, FR: Fn(V) -> M> {
    pub handler: Handler<M, V, S1, T, St, FC, FD, FR>,
    pub track_shape: S2,
    pub track_slicer: SL,
    pub track_style: St,
    pub active_style: St,
    pub handler_hovered: bool,
}

impl<M, V: Copy, S1, S2, SL, T, St, FC: Fn(V) -> M, FD: Fn(V) -> M, FR: Fn(V) -> M> Slider<M, V, S1, S2, SL, T, St, FC, FD, FR> {
    /// A slider whose handler shows `base_val`.
    pub fn new<P>(
        handler_shape: S1,
        handler_style: St,
        handler_style_fn: Box<dyn WidgetStyle<St>>,
        trajectory: T,
        track_shape: S2,
        track_slicer: SL,
        track_style: St,
        active_style: St,
        base_val: V,
        on_capture: FC,
        on_drag: FD,
        on_release: FR,
    ) -> (r: Self) where S1: Movable<P>, T: Trajectory<V, P>
        ensures
            r.handler.val == base_val,
            r.handler.shape == handler_shape.spec_moved_to(trajectory.spec_change_pos(base_val)),
            r.handler.trajectory == trajectory,
            r.handler.main_style == handler_style,
            r.handler.on_capture == on_capture,
            r.handler.on_drag == on_drag,
            r.handler.on_release == on_release,
            r.track_shape == track_shape,
            r.track_slicer == track_slicer,
            r.track_style == track_style,
            r.active_style == active_style,
            !r.handler_hovered,
    {
        let handler = Handler::new(
            handler_shape,
            handler_style,
            handler_style_fn,
            on_capture,
            on_release,
            on_drag,
            base_val,
            trajectory,
        );
        let mut res = Slider {
            handler,
            track_shape,
            track_slicer,
            track_style,
            active_style,
            handler_hovered: false,
        };
        res.set_val(base_val);
        res
    }

    /// Sets the value and moves the handler to show it.
    pub fn set_val<P>(&mut self, val: V) where S1: Movable<P>, T: Trajectory<V, P>
        ensures
            final(self).handler == show_value(old(self).handler, val),
            final(self).track_shape == old(self).track_shape,
            final(self).track_slicer == old(self).track_slicer,
            final(self).track_style == old(self).track_style,
            final(self).active_style == old(self).active_style,
            final(self).handler_hovered == old(self).handler_hovered,
    {
        self.handler.val = val;
        let new_pos = self.handler.trajectory.change_pos(val);
        self.handler.shape.move_to(new_pos);
    }

    /// The part of the track that shows the current value.
    pub fn active_track(&self) -> (r: S2) where SL: ShapeSlicer<S2, V>
        ensures
            r == self.track_slicer.spec_slice(self.track_shape, self.handler.val),
    {
        self.track_slicer.shape_slice(&self.track_shape, self.handler.val)
    }

    /// The state the handler is drawn in: as the slider's, but hovered only
    /// while the pointer is over the handler itself.
    pub fn handler_state(&self, state: WidgetState) -> (r: WidgetState)
        ensures
            r == (WidgetState { hovered: state.hovered && self.handler_hovered, ..state }),
    {
        let mut handler_state = state;
        handler_state.hovered = state.hovered && self.handler_hovered;
        handler_state
    }
}

impl<M, P: Copy, V: Copy, S1: Movable<P>, S2: Movable<P>, SL, T: Trajectory<V, P> + Movable<P>, St, FC: Fn(V) -> M, FD: Fn(V) -> M, FR: Fn(V) -> M> Movable<P> for Slider<M, V, S1, S2, SL, T, St, FC, FD, FR> {
    open spec fn spec_moved_by(&self, v: P) -> Self {
        Slider {
            handler: Handler {
                shape: self.handler.shape.spec_moved_by(v),
                trajectory: self.handler.trajectory.spec_moved_by(v),
                ..self.handler
            },
            track_shape: self.track_shape.spec_moved_by(v),
            ..*self
        }
    }

    open spec fn spec_moved_to(&self, p: P) -> Self {
        Slider {
            handler: Handler {
                shape: self.handler.shape.spec_moved_to(p),
                trajectory: self.handler.trajectory.spec_moved_to(p),
                ..self.handler
            },
            track_shape: self.track_shape.spec_moved_to(p),
            ..*self
        }
    }

    fn move_by(&mut self, v: P) {
        self.handler.shape.move_by(v);
        self.handler.trajectory.move_by(v);
        self.track_shape.move_by(v);
    }

    fn move_to(&mut self, v: P) {
        self.handler.shape.move_to(v);
        self.handler.trajectory.move_to(v);
        self.track_shape.move_to(v);
    }
}

impl<M, V, S1, S2, SL, T, St, FC: Fn(V) -> M, FD: Fn(V) -> M, FR: Fn(V) -> M> Slider<M, V, S1, S2, SL, T, St, FC, FD, FR> {
    /// The slider with its handler replaced by `handler` and the handler
    /// hover flag set to `hovered`.
    pub open spec fn with_handler(self, handler: Handler<M, V, S1, T, St, FC, FD, FR>, hovered: bool) -> Self {
        Slider { handler, handler_hovered: hovered, ..self }
    }
}

impl<M, P: Copy, V: Copy, S1: Shape<P> + Movable<P>, S2: Shape<P>, SL, T: Trajectory<V, P>, St, FC: Fn(V) -> M, FD: Fn(V) -> M, FR: Fn(V) -> M> Widget<M, P> for Slider<M, V, S1, S2, SL, T, St, FC, FD, FR> {
    open spec fn inv(&self) -> bool {
        self.handler.inv()
    }

    /// The slider covers its handler and its track.
    open spec fn spec_hit(&self, p: P) -> bool {
        self.handler.spec_hit(p) || self.track_shape.spec_hit(p)
    }

    /// Hover hooks enter or leave the handler as the pointer reaches or
    /// leaves it; a release away from the slider does nothing; the other
    /// hooks go to the handler.
    open spec fn spec_after(&self, hook: Hook<P>) -> Self {
        let h = self.handler;
        match hook {
            Hook::Hover(p) => if h.spec_hit(p) {
                self.with_handler(h.spec_after(Hook::Hover(p)), true)
            } else {
                *self
            },
            Hook::Unhover => if self.handler_hovered {
                self.with_handler(h.spec_after(Hook::Unhover), false)
            } else {
                *self
            },
            Hook::PointerMove(_, p) => if self.handler_hovered {
                if !h.spec_hit(p) {
                    self.with_handler(h.spec_after(Hook::Unhover), false)
                } else {
                    *self
                }
            } else {
                if h.spec_hit(p) {
                    self.with_handler(h.spec_after(Hook::Hover(p)), true)
                } else {
                    *self
                }
            },
            Hook::Release(_, false) => *self,
            _ => self.with_handler(h.spec_after(hook), self.handler_hovered),
        }
    }

    open spec fn spec_replies(&self, hook: Hook<P>) -> bool {
        let h = self.handler;
        match hook {
            Hook::Hover(p) => h.spec_hit(p) && h.spec_replies(Hook::Hover(p)),
            Hook::Unhover => self.handler_hovered && h.spec_replies(Hook::Unhover),
            Hook::PointerMove(_, p) => if self.handler_hovered {
                !h.spec_hit(p) && h.spec_replies(Hook::Unhover)
            } else {
                h.spec_hit(p) && h.spec_replies(Hook::Hover(p))
            },
            Hook::Release(_, false) => false,
            _ => h.spec_replies(hook),
        }
    }

    open spec fn spec_message(&self, hook: Hook<P>, m: M) -> bool {
        let h = self.handler;
        match hook {
            Hook::PointerMove(_, p) => if self.handler_hovered {
                h.spec_message(Hook::Unhover, m)
            } else {
                h.spec_message(Hook::Hover(p), m)
            },
            _ => h.spec_message(hook, m),
        }
    }

    open spec fn spec_cursor_icon(&self, state: WidgetState) -> Option<CursorIcon> {
        Some(CursorIcon::PointingHand)
    }

    fn hit(&self, p: P) -> (r: bool) {
        self.handler.hit(p) || self.track_shape.hit(p)
    }

    fn on_pointer_move(&mut self, delta: P, pos: P) -> (r: Option<M>) {
        if self.handler_hovered {
            if !self.handler.hit(pos) {
                self.handler_hovered = false;
                return self.handler.on_unhover();
            }
            None
        } else {
            if self.handler.hit(pos) {
                self.handler_hovered = true;
                return self.handler.on_hover(pos);
            }
            None
        }
    }

    fn on_hover(&mut self, pos: P) -> (r: Option<M>) {
        if self.handler.hit(pos) {
            self.handler_hovered = true;
            return self.handler.on_hover(pos);
        }
        None
    }

    fn on_unhover(&mut self) -> (r: Option<M>) {
        if self.handler_hovered {
            self.handler_hovered = false;
            return self.handler.on_unhover();
        }
        None
    }

    fn on_click(&mut self, pos: P) -> (r: Option<M>) {
        self.handler.on_click(pos)
    }

    fn on_release(&mut self, pos: P, inside: bool) -> (r: Option<M>) {
        if inside {
            self.handler.on_release(pos, inside)
        } else {
            None
        }
    }

    fn follow_pointer(&mut self, pos: P) -> (r: bool) {
        self.handler.follow_pointer(pos)
    }

    fn on_drag(&mut self, delta: P, pos: P) -> (r: Option<M>) {
        self.handler.on_drag(delta, pos)
    }

    fn cursor_icon(&self, state: WidgetState) -> (r: Option<CursorIcon>) {
        Some(CursorIcon::PointingHand)
    }
}

} // verus!

verus! {

impl<M, V: Copy, S1, S2, SL, T, St, FC: Fn(V) -> M, FD: Fn(V) -> M, FR: Fn(V) -> M> Slider<M, V, S1, S2, SL, T, St, FC, FD, FR> {
    /// After a pointer move, the slider counts the handler as hovered
    /// exactly when the pointer is over the handler.
    pub proof fn law_pointer_move_tracks_handler<P: Copy>(self, delta: P, p: P) where
        S1: Shape<P> + Movable<P>,
        S2: Shape<P>,
        T: Trajectory<V, P>,
        ensures
            self.spec_after(Hook::PointerMove(delta, p)).handler_hovered == self.handler.spec_hit(p),
    {
    }

    /// Leaving the slider leaves the handler too.
    pub proof fn law_unhover_clears_handler<P: Copy>(self) where
        S1: Shape<P> + Movable<P>,
        S2: Shape<P>,
        T: Trajectory<V, P>,
        ensures
            !Widget::<M, P>::spec_after(&self, Hook::Unhover).handler_hovered,
    {
    }
}

} // verus!

verus! {

/// Collects the parts of a slider: its path, the handler's shape builder,
/// optional styles and value, and the handler's style function.
#[derive(Clone, Copy)]
pub struct SliderBuilder<V, Pa, HB, C, W, WS> {
    pub handler_shape: HB,
    pub handler_style: Option<Style<C, W>>,
    pub handler_style_fn: WS,
    pub path: Pa,
    pub track_style: Option<Style<C, W>>,
    pub active_style: Option<Style<C, W>>,
    pub value: Option<V>,
}

/// `o`'s value, or `d` when there is none.
pub open spec fn or_else<A>(o: Option<A>, d: A) -> A {
    match o {
        Some(a) => a,
        None => d,
    }
}

fn unwrap_or<A>(o: Option<A>, d: A) -> (r: A)
    ensures
        r == or_else(o, d),
{
    match o {
        Some(a) => a,
        None => d,
    }
}

impl<V: Copy, Pa, HB, C: Copy, W: Copy, WS> SliderBuilder<V, Pa, HB, C, W, WS> {
    /// A builder along `path`, with no style or value of its own yet.
    pub fn from_path(path: Pa, handler_shape: HB, handler_style_fn: WS) -> (r: Self)
        ensures
            r == (SliderBuilder::<V, Pa, HB, C, W, WS> {
                path,
                handler_shape,
                handler_style: None,
                track_style: None,
                active_style: None,
                handler_style_fn,
                value: None,
            }),
    {
        SliderBuilder {
            path,
            handler_shape,
            handler_style: None,
            track_style: None,
            active_style: None,
            handler_style_fn,
            value: None,
        }
    }

    pub fn handler_style(self, style: Style<C, W>) -> (r: Self)
        ensures
            r == (SliderBuilder { handler_style: Some(style), ..self }),
    {
        SliderBuilder { handler_style: Some(style), ..self }
    }

    pub fn track_style(self, style: Style<C, W>) -> (r: Self)
        ensures
            r == (SliderBuilder { track_style: Some(style), ..self }),
    {
        SliderBuilder { track_style: Some(style), ..self }
    }

    pub fn active_style(self, style: Style<C, W>) -> (r: Self)
        ensures
            r == (SliderBuilder { active_style: Some(style), ..self }),
    {
        SliderBuilder { active_style: Some(style), ..self }
    }

    pub fn value(self, value: V) -> (r: Self)
        ensures
            r == (SliderBuilder { value: Some(value), ..self }),
    {
        SliderBuilder { value: Some(value), ..self }
    }

    pub fn handler_style_fn<WS2>(self, style_fn: WS2) -> (r: SliderBuilder<V, Pa, HB, C, W, WS2>)
        ensures
            r == (SliderBuilder {
                path: self.path,
                handler_shape: self.handler_shape,
                handler_style: self.handler_style,
                track_style: self.track_style,
                active_style: self.active_style,
                handler_style_fn: style_fn,
                value: self.value,
            }),
    {
        SliderBuilder {
            path: self.path,
            handler_shape: self.handler_shape,
            handler_style: self.handler_style,
            track_style: self.track_style,
            active_style: self.active_style,
            handler_style_fn: style_fn,
            value: self.value,
        }
    }

    pub fn handler<HB2>(self, handler: HB2) -> (r: SliderBuilder<V, Pa, HB2, C, W, WS>)
        ensures
            r == (SliderBuilder {
                path: self.path,
                handler_shape: handler,
                handler_style: self.handler_style,
                track_style: self.track_style,
                active_style: self.active_style,
                handler_style_fn: self.handler_style_fn,
                value: self.value,
            }),
    {
        SliderBuilder {
            path: self.path,
            handler_shape: handler,
            handler_style: self.handler_style,
            track_style: self.track_style,
            active_style: self.active_style,
            handler_style_fn: self.handler_style_fn,
            value: self.value,
        }
    }

    /// Places the path at `p`.
    pub fn position<Q>(self, p: Q) -> (r: Self) where Pa: Path<V, Q>
        ensures
            r == (SliderBuilder { path: self.path.spec_positioned(p), ..self }),
    {
        let SliderBuilder {
            path,
            handler_shape,
            handler_style,
            track_style,
            active_style,
            handler_style_fn,
            value,
        } = self;
        SliderBuilder {
            path: path.position(p),
            handler_shape,
            handler_style,
            track_style,
            active_style,
            handler_style_fn,
            value,
        }
    }

    /// The slider: the handler built and shown at the value (the default
    /// value when none was set), the track, trajectory and slicer taken
    /// from the path, the styles that were set or else `surface`, the
    /// handler's style with a `shadow`, and `f` for all three callbacks.
    pub fn build<Q: Copy, HS, M, F: Fn(V) -> M + Clone>(self, f: F, surface: Style<C, W>, shadow: C) -> (r: Slider<
        M,
        V,
        HS,
        Pa::S,
        Pa::SL,
        Pa::T,
        Style<C, W>,
        F,
        F,
        F,
    >) where
        V: Default,
        Pa: Path<V, Q>,
        HB: ShapeBuilder<HS, Q>,
        HS: Movable<Q>,
        WS: WidgetStyle<Style<C, W>> + 'static,
        ensures
            self.value matches Some(v) ==> r.handler.val == v,
            self.value is None ==> call_ensures(V::default, (), r.handler.val),
            r.handler.shape == self.handler_shape.spec_build().spec_moved_to(
                self.path.spec_trajectory().spec_change_pos(r.handler.val),
            ),
            r.handler.trajectory == self.path.spec_trajectory(),
            r.handler.main_style == (Style { shadow: Some(shadow), ..or_else(self.handler_style, surface) }),
            r.track_shape == self.path.spec_shape(),
            r.track_slicer == self.path.spec_slicer(),
            r.track_style == or_else(self.track_style, surface),
            r.active_style == or_else(self.active_style, surface),
            cloned(f, r.handler.on_capture),
            cloned(f, r.handler.on_drag),
            r.handler.on_release == f,
            !r.handler_hovered,
    {
        let value = match self.value {
            Some(v) => v,
            None => V::default(),
        };
        let handler_shape = self.handler_shape.build();
        let handler_style = unwrap_or(self.handler_style, surface).shadow(shadow);
        Slider::new(
            handler_shape,
            handler_style,
            Box::new(self.handler_style_fn),
            self.path.get_trajectory(),
            self.path.shape(),
            self.path.slicer(),
            unwrap_or(self.track_style, surface),
            unwrap_or(self.active_style, surface),
            value,
            f.clone(),
            f.clone(),
            f,
        )
    }
}

} // verus!

verus! {

impl<M, V: Copy, S1, S2, SL, T, St, FC: Fn(V) -> M, FD: Fn(V) -> M, FR: Fn(V) -> M> Slider<M, V, S1, S2, SL, T, St, FC, FD, FR> {
    /// A slider covers every point its handler covers and every point its
    /// track covers, and no other.
    pub proof fn law_hit_covers_handler_and_track<P: Copy>(self, p: P) where
        S1: Shape<P> + Movable<P>,
        S2: Shape<P>,
        T: Trajectory<V, P>,
        ensures
            self.handler.spec_hit(p) ==> Widget::<M, P>::spec_hit(&self, p),
            self.track_shape.spec_hit(p) ==> Widget::<M, P>::spec_hit(&self, p),
            Widget::<M, P>::spec_hit(&self, p) ==> self.handler.spec_hit(p) || self.track_shape.spec_hit(p),
    {
    }
}

} // verus!
