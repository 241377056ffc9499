use vstd::prelude::*;

use crate::shapes::Shape;
use crate::widget::{CursorIcon, Hook, Widget, WidgetState};

verus! {

/// A box that is checked or not; a release over it flips the state and
/// sends `on_toggle` of the new state.
#[verifier::reject_recursive_types(M)]
pub struct Checkbox<M, S, C, St, Col, F: Fn(bool) -> M> {
    pub box_shape: S,
    pub check_shape: C,
    pub box_style: St,
    pub check_color: Col,
    pub checked: bool,
    pub on_toggle: F,
}

impl<M, S, C, St, Col, F: Fn(bool) -> M> Checkbox<M, S, C, St, Col, F> {
    pub fn new(box_shape: S, check_shape: C, box_style: St, check_color: Col, checked: bool, on_toggle: F) -> (r: Self)
        ensures
            r == (Checkbox { box_shape, check_shape, box_style, check_color, checked, on_toggle }),
    {
        Checkbox { box_shape, check_shape, box_style, check_color, checked, on_toggle }
    }

    pub fn is_checked(&self) -> (r: bool)
        ensures
            r == self.checked,
    {
        self.checked
    }

    pub fn set_checked(&mut self, val: bool)
        ensures
            *final(self) == (Checkbox { checked: val, ..*old(self) }),
    {
        self.checked = val;
    }
}

impl<M, P, S: Shape<P>, C, St, Col, F: Fn(bool) -> M> Widget<M, P> for Checkbox<M, S, C, St, Col, F> {
    /// `on_toggle` accepts both states.
    open spec fn inv(&self) -> bool {
        forall|b: bool| self.on_toggle.requires((b,))
    }

    open spec fn spec_hit(&self, p: P) -> bool {
        self.box_shape.spec_hit(p)
    }

    /// A release over the box flips it; nothing else changes it.
    open spec fn spec_after(&self, hook: Hook<P>) -> Self {
        match hook {
            Hook::Release(_, true) => Checkbox { checked: !self.checked, ..*self },
            _ => *self,
        }
    }

    open spec fn spec_replies(&self, hook: Hook<P>) -> bool {
        match hook {
            Hook::Release(_, inside) => inside,
            _ => false,
        }
    }

    /// The answer is what `on_toggle` gives for the new state.
    open spec fn spec_message(&self, hook: Hook<P>, m: M) -> bool {
        self.on_toggle.ensures((!self.checked,), m)
    }

    open spec fn spec_cursor_icon(&self, state: WidgetState) -> Option<CursorIcon> {
        Some(CursorIcon::PointingHand)
    }

    fn hit(&self, p: P) -> (r: bool) {
        self.box_shape.hit(p)
    }

    fn on_hover(&mut self, p: P) -> (r: Option<M>) {
        None
    }

    fn on_unhover(&mut self) -> (r: Option<M>) {
        None
    }

    fn on_pointer_move(&mut self, delta: P, p: P) -> (r: Option<M>) {
        None
    }

    fn on_click(&mut self, p: P) -> (r: Option<M>) {
        None
    }

    fn on_release(&mut self, p: P, inside: bool) -> (r: Option<M>) {
        if inside {
            self.checked = !self.checked;
            Some((self.on_toggle)(self.checked))
        } else {
            None
        }
    }

    fn follow_pointer(&mut self, p: P) -> (r: bool) {
        false
    }

    fn on_drag(&mut self, delta: P, p: P) -> (r: Option<M>) {
        None
    }

    fn cursor_icon(&self, state: WidgetState) -> (r: Option<CursorIcon>) {
        Some(CursorIcon::PointingHand)
    }
}

} // verus!

verus! {

impl<M, S, C, St, Col, F: Fn(bool) -> M> Checkbox<M, S, C, St, Col, F> {
    /// Two releases over the box bring it back to where it was.
    pub proof fn law_double_toggle<P>(self, p: P, q: P) where S: Shape<P>
        ensures
            self.spec_after(Hook::Release(p, true)).spec_after(Hook::Release(q, true)) == self,
    {
    }

    /// A release away from the box leaves it as it was, and sends nothing.
    pub proof fn law_release_outside<P>(self, p: P) where S: Shape<P>
        ensures
            self.spec_after(Hook::Release(p, false)) == self,
            !self.spec_replies(Hook::Release(p, false)),
    {
    }
}

} // verus!
