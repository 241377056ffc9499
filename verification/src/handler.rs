use vstd::prelude::*;

use crate::shapes::{Movable, Shape};
use crate::style::WidgetStyle;
use crate::trajectory::Trajectory;
use crate::widget::{CursorIcon, Hook, Widget, WidgetState};

verus! {

/// A draggable handle that holds a value of type `V` and moves its shape
/// along a trajectory to show it.
///
/// A click sends `on_capture` of the value, a release over it sends
/// `on_release`; when it follows the pointer the value is taken from the
/// pointer position, and each drag updates the value and sends `on_drag`.
#[verifier::reject_recursive_types(M)]
#[verifier::reject_recursive_types(V)]
#[verifier::reject_recursive_types(St)]
pub struct Handler<M, V, S, T, St, FC: Fn(V) -> M, FD: Fn(V) -> M, FR: Fn(V) -> M> {
    pub shape: S,
    pub main_style: St,
    pub style_fn: Box<dyn WidgetStyle<St>>,
    pub on_capture: FC,
    pub on_drag: FD,
    pub on_release: FR,
    pub val: V,
    pub trajectory: T,
}

/// The handler with value `val` and its shape moved to show it.
pub open spec fn show_value<M, P, V, S: Movable<P>, T: Trajectory<V, P>, St, FC: Fn(V) -> M, FD: Fn(V) -> M, FR: Fn(V) -> M>(
    h: Handler<M, V, S, T, St, FC, FD, FR>,
    val: V,
) -> Handler<M, V, S, T, St, FC, FD, FR> {
    Handler { val, shape: h.shape.spec_moved_to(h.trajectory.spec_change_pos(val)), ..h }
}

impl<M, V: Copy, S, T, St, FC: Fn(V) -> M, FD: Fn(V) -> M, FR: Fn(V) -> M> Handler<M, V, S, T, St, FC, FD, FR> {
    pub fn new(
        shape: S,
        main_style: St,
        style_change: Box<dyn WidgetStyle<St>>,
        on_capture: FC,
        on_release: FR,
        on_drag: FD,
        base_val: V,
        trajectory: T,
    ) -> (r: Self)
        ensures
            r.shape == shape,
            r.main_style == main_style,
            r.on_capture == on_capture,
            r.on_release == on_release,
            r.on_drag == on_drag,
            r.val == base_val,
            r.trajectory == trajectory,
    {
        Handler {
            shape,
            main_style,
            style_fn: style_change,
            on_capture,
            on_release,
            on_drag,
            val: base_val,
            trajectory,
        }
    }
}

impl<M, P: Copy, V: Copy, S: Shape<P> + Movable<P>, T: Trajectory<V, P>, St, FC: Fn(V) -> M, FD: Fn(V) -> M, FR: Fn(V) -> M> Widget<M, P> for Handler<M, V, S, T, St, FC, FD, FR> {
    /// The three callbacks accept every value.
    open spec fn inv(&self) -> bool {
        &&& forall|v: V| self.on_capture.requires((v,))
        &&& forall|v: V| self.on_drag.requires((v,))
        &&& forall|v: V| self.on_release.requires((v,))
    }

    open spec fn spec_hit(&self, p: P) -> bool {
        self.shape.spec_hit(p)
    }

    /// Following the pointer takes the value from the pointer position; a
    /// drag changes it by the trajectory; either way the shape is moved to
    /// show the new value.
    open spec fn spec_after(&self, hook: Hook<P>) -> Self {
        match hook {
            Hook::FollowPointer(pos) => show_value(*self, self.trajectory.spec_capture_val(pos)),
            Hook::Drag(delta, pos) => show_value(*self, self.trajectory.spec_change_val(delta, pos, self.val)),
            _ => *self,
        }
    }

    open spec fn spec_replies(&self, hook: Hook<P>) -> bool {
        match hook {
            Hook::Click(_) => true,
            Hook::Release(_, inside) => inside,
            Hook::FollowPointer(_) => true,
            Hook::Drag(_, _) => true,
            _ => false,
        }
    }

    /// A click sends `on_capture` of the value, a release `on_release` of
    /// it, a drag `on_drag` of the new value.
    open spec fn spec_message(&self, hook: Hook<P>, m: M) -> bool {
        match hook {
            Hook::Click(_) => self.on_capture.ensures((self.val,), m),
            Hook::Release(_, _) => self.on_release.ensures((self.val,), m),
            Hook::Drag(delta, pos) => self.on_drag.ensures(
                (self.trajectory.spec_change_val(delta, pos, self.val),),
                m,
            ),
            _ => false,
        }
    }

    open spec fn spec_cursor_icon(&self, state: WidgetState) -> Option<CursorIcon> {
        None
    }

    fn hit(&self, p: P) -> (r: bool) {
        self.shape.hit(p)
    }

    fn on_hover(&mut self, p: P) -> (r: Option<M>) {
        None
    }

    fn on_unhover(&mut self) -> (r: Option<M>) {
        None
    }

    fn on_pointer_move(&mut self, delta: P, p: P) -> (r: Option<M>) {
        None
    }

    fn on_click(&mut self, p: P) -> (r: Option<M>) {
        Some((self.on_capture)(self.val))
    }

    fn on_release(&mut self, p: P, inside: bool) -> (r: Option<M>) {
        if inside {
            Some((self.on_release)(self.val))
        } else {
            None
        }
    }

    fn follow_pointer(&mut self, pos: P) -> (r: bool) {
        self.val = self.trajectory.capture_val(pos);
        let p = self.trajectory.change_pos(self.val);
        self.shape.move_to(p);
        true
    }

    fn on_drag(&mut self, delta: P, pos: P) -> (r: Option<M>) {
        self.val = self.trajectory.change_val(delta, pos, self.val);
        let p = self.trajectory.change_pos(self.val);
        self.shape.move_to(p);
        Some((self.on_drag)(self.val))
    }

    fn cursor_icon(&self, state: WidgetState) -> (r: Option<CursorIcon>) {
        None
    }
}

} // verus!
