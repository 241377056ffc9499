use vstd::prelude::*;

use crate::shapes::{Shape, ShapeBuilder};
use crate::style::WidgetStyle;
use crate::widget::{CursorIcon, Hook, Widget, WidgetState};

verus! {

/// A push button: it sends `on_click` when a press on it is released
/// over it.
#[verifier::reject_recursive_types(St)]
pub struct Button<M, S, St> {
    pub shape: S,
    pub main_style: St,
    pub style_fn: Box<dyn WidgetStyle<St>>,
    pub on_click: M,
}

impl<M, S, St> Button<M, S, St> {
    pub fn new(shape: S, main_style: St, style_fn: Box<dyn WidgetStyle<St>>, on_click: M) -> (r: Self)
        ensures
            r.shape == shape,
            r.main_style == main_style,
            r.on_click == on_click,
    {
        Button { shape, main_style, style_fn, on_click }
    }

}

impl<M: Clone, P, S: Shape<P>, St> Widget<M, P> for Button<M, S, St> {
    open spec fn spec_hit(&self, p: P) -> bool {
        self.shape.spec_hit(p)
    }

    /// A button does not change.
    open spec fn spec_after(&self, hook: Hook<P>) -> Self {
        *self
    }

    /// It answers a release over it, and nothing else.
    open spec fn spec_replies(&self, hook: Hook<P>) -> bool {
        match hook {
            Hook::Release(_, inside) => inside,
            _ => false,
        }
    }

    /// Its answer is a clone of `on_click`.
    open spec fn spec_message(&self, hook: Hook<P>, m: M) -> bool {
        cloned(self.on_click, m)
    }

    open spec fn spec_cursor_icon(&self, state: WidgetState) -> Option<CursorIcon> {
        Some(CursorIcon::PointingHand)
    }

    fn hit(&self, p: P) -> (r: bool) {
        self.shape.hit(p)
    }

    fn on_hover(&mut self, p: P) -> (r: Option<M>) {
        None
    }

    fn on_unhover(&mut self) -> (r: Option<M>) {
        None
    }

    fn on_pointer_move(&mut self, delta: P, p: P) -> (r: Option<M>) {
        None
    }

    fn on_click(&mut self, p: P) -> (r: Option<M>) {
        None
    }

    fn on_release(&mut self, p: P, inside: bool) -> (r: Option<M>) {
        if inside {
            Some(self.on_click.clone())
        } else {
            None
        }
    }

    fn follow_pointer(&mut self, p: P) -> (r: bool) {
        false
    }

    fn on_drag(&mut self, delta: P, p: P) -> (r: Option<M>) {
        None
    }

    fn cursor_icon(&self, state: WidgetState) -> (r: Option<CursorIcon>) {
        Some(CursorIcon::PointingHand)
    }
}

} // verus!

verus! {

/// Collects the parts of a button: a shape builder, an optional style and
/// a style function.
#[derive(Clone, Copy)]
pub struct ButtonBuilder<SB, St, WS> {
    pub shape: SB,
    pub main_style: Option<St>,
    pub style_fn: WS,
}

impl<SB, St, WS> ButtonBuilder<SB, St, WS> {
    /// A builder with no style of its own yet.
    pub fn new(shape: SB, style_fn: WS) -> (r: Self)
        ensures
            r == (ButtonBuilder::<SB, St, WS> { shape, main_style: None, style_fn }),
    {
        ButtonBuilder { shape, main_style: None, style_fn }
    }

    pub fn shape(self, shape: SB) -> (r: Self)
        ensures
            r == (ButtonBuilder { shape, ..self }),
    {
        ButtonBuilder { shape, ..self }
    }

    pub fn main_style(self, style: St) -> (r: Self)
        ensures
            r == (ButtonBuilder { main_style: Some(style), ..self }),
    {
        ButtonBuilder { main_style: Some(style), ..self }
    }

    /// Places the button's shape at `p`.
    pub fn position<S, P>(self, p: P) -> (r: Self) where SB: ShapeBuilder<S, P>
        ensures
            r == (ButtonBuilder { shape: self.shape.spec_with_position(p), ..self }),
    {
        let ButtonBuilder { shape, main_style, style_fn } = self;
        ButtonBuilder { shape: shape.set_position(p), main_style, style_fn }
    }

    pub fn style_fn<WS2>(self, f: WS2) -> (r: ButtonBuilder<SB, St, WS2>)
        ensures
            r == (ButtonBuilder { shape: self.shape, main_style: self.main_style, style_fn: f }),
    {
        ButtonBuilder { shape: self.shape, main_style: self.main_style, style_fn: f }
    }

    /// The button: its shape built, its style the one set or else
    /// `default_style`.
    pub fn build<S, P, M>(self, on_click: M, default_style: St) -> (r: Button<M, S, St>) where
        SB: ShapeBuilder<S, P>,
        WS: WidgetStyle<St> + 'static,
        ensures
            r.shape == self.shape.spec_build(),
            r.main_style == (match self.main_style {
                Some(s) => s,
                None => default_style,
            }),
            r.on_click == on_click,
    {
        let style = match self.main_style {
            Some(s) => s,
            None => default_style,
        };
        let shape = self.shape.build();
        Button::new(shape, style, Box::new(self.style_fn), on_click)
    }
}

} // verus!
