use vstd::prelude::*;

use crate::widget::WidgetState;

verus! {

/// How a shape is painted: a fill color, an optional drop shadow color,
/// and an optional outline of a given width and color.
#[derive(Clone, Copy, Debug)]
pub struct Style<C, W> {
    pub color: C,
    pub shadow: Option<C>,
    pub outline: Option<(W, C)>,
}

impl<C: Copy, W: Copy> Style<C, W> {
    /// A plain fill, without shadow or outline.
    pub fn new(color: C) -> (r: Self)
        ensures
            r == (Style::<C, W> { color, shadow: None, outline: None }),
    {
        Style { color, shadow: None, outline: None }
    }

    pub fn color(self, color: C) -> (r: Self)
        ensures
            r == (Style { color, ..self }),
    {
        Style { color, ..self }
    }

    pub fn shadow(self, color: C) -> (r: Self)
        ensures
            r == (Style { shadow: Some(color), ..self }),
    {
        Style { shadow: Some(color), ..self }
    }

    pub fn outline(self, width: W, color: C) -> (r: Self)
        ensures
            r == (Style { outline: Some((width, color)), ..self }),
    {
        Style { outline: Some((width, color)), ..self }
    }
}

/// Turns a widget's base style into the style it is drawn with in a given
/// state.
///
/// Implementations override the spec functions. The default bodies only let
/// implementations written outside Verus, which cannot write spec functions,
/// compile: one that keeps a default is described by an unknown constant.
pub trait WidgetStyle<St> {
    open spec fn spec_style(&self, base: St, state: WidgetState) -> St {
        arbitrary()
    }

    fn style(&self, base: St, state: WidgetState) -> (r: St)
        ensures
            r == self.spec_style(base, state),
    ;
}

/// A color that can be made darker by an amount of type `A`.
///
/// Implementations override the spec functions. The default bodies only let
/// implementations written outside Verus, which cannot write spec functions,
/// compile: one that keeps a default is described by an unknown constant.
pub trait Darken<A>: Sized {
    open spec fn spec_darkened(self, amount: A) -> Self {
        arbitrary()
    }

    fn darken(self, amount: A) -> (r: Self)
        ensures
            r == self.spec_darkened(amount),
    ;
}

/// Darkens the fill while the widget is hovered, and more while it is
/// pressed or captured.
#[derive(Clone, Copy, Debug)]
pub struct DarkenOnInteract<A> {
    pub hover_amount: A,
    pub press_amount: A,
}

impl<A: Copy> DarkenOnInteract<A> {
    pub fn new(hover_amount: A, press_amount: A) -> (r: Self)
        ensures
            r.hover_amount == hover_amount,
            r.press_amount == press_amount,
    {
        DarkenOnInteract { hover_amount, press_amount }
    }

    pub open spec fn spec_amount(&self, state: WidgetState) -> Option<A> {
        if state.captured || state.pressed {
            Some(self.press_amount)
        } else if state.hovered {
            Some(self.hover_amount)
        } else {
            None
        }
    }

    /// How much to darken in `state`: the press amount while pressed or
    /// captured, else the hover amount while hovered, else nothing.
    pub fn amount(&self, state: WidgetState) -> (r: Option<A>)
        ensures
            r == self.spec_amount(state),
    {
        if state.captured || state.pressed {
            Some(self.press_amount)
        } else if state.hovered {
            Some(self.hover_amount)
        } else {
            None
        }
    }
}

impl<A: Copy, C: Darken<A> + Copy, W: Copy> WidgetStyle<Style<C, W>> for DarkenOnInteract<A> {
    open spec fn spec_style(&self, base: Style<C, W>, state: WidgetState) -> Style<C, W> {
        match self.spec_amount(state) {
            Some(a) => Style { color: base.color.spec_darkened(a), ..base },
            None => base,
        }
    }

    fn style(&self, base: Style<C, W>, state: WidgetState) -> (r: Style<C, W>) {
        match self.amount(state) {
            Some(a) => base.color(base.color.darken(a)),
            None => base,
        }
    }
}

/// Outlines the widget while it is hovered.
#[derive(Clone, Copy, Debug)]
pub struct OutlineOnHover<C, W> {
    pub color: C,
    pub width: W,
}

impl<C: Copy, W: Copy> OutlineOnHover<C, W> {
    pub fn new(color: C, width: W) -> (r: Self)
        ensures
            r.color == color,
            r.width == width,
    {
        OutlineOnHover { color, width }
    }

    pub fn color(self, c: C) -> (r: Self)
        ensures
            r == (OutlineOnHover { color: c, ..self }),
    {
        OutlineOnHover { color: c, ..self }
    }

    pub fn width(self, w: W) -> (r: Self)
        ensures
            r == (OutlineOnHover { width: w, ..self }),
    {
        OutlineOnHover { width: w, ..self }
    }
}

impl<C: Copy, W: Copy> WidgetStyle<Style<C, W>> for OutlineOnHover<C, W> {
    open spec fn spec_style(&self, base: Style<C, W>, state: WidgetState) -> Style<C, W> {
        if state.hovered {
            Style { outline: Some((self.width, self.color)), ..base }
        } else {
            base
        }
    }

    fn style(&self, base: Style<C, W>, state: WidgetState) -> (r: Style<C, W>) {
        if state.hovered {
            base.outline(self.width, self.color)
        } else {
            base
        }
    }
}

/// Outlines the widget in one color and width while it is hovered, and in
/// another while it is pressed or captured.
#[derive(Clone, Copy, Debug)]
pub struct StatefulOutline<C, W> {
    pub hover_color: C,
    pub press_color: C,
    pub hover_width: W,
    pub press_width: W,
}

impl<C: Copy, W: Copy> StatefulOutline<C, W> {
    /// Both outlines get the same `width`.
    pub fn new(hover_color: C, press_color: C, width: W) -> (r: Self)
        ensures
            r == (StatefulOutline { hover_color, press_color, hover_width: width, press_width: width }),
    {
        StatefulOutline { hover_color, press_color, press_width: width, hover_width: width }
    }

    pub fn hover_color(self, c: C) -> (r: Self)
        ensures
            r == (StatefulOutline { hover_color: c, ..self }),
    {
        StatefulOutline { hover_color: c, ..self }
    }

    pub fn press_color(self, c: C) -> (r: Self)
        ensures
            r == (StatefulOutline { press_color: c, ..self }),
    {
        StatefulOutline { press_color: c, ..self }
    }

    pub fn press_width(self, w: W) -> (r: Self)
        ensures
            r == (StatefulOutline { press_width: w, ..self }),
    {
        StatefulOutline { press_width: w, ..self }
    }

    pub fn hover_width(self, w: W) -> (r: Self)
        ensures
            r == (StatefulOutline { hover_width: w, ..self }),
    {
        StatefulOutline { hover_width: w, ..self }
    }

    /// Sets both widths.
    pub fn width(self, w: W) -> (r: Self)
        ensures
            r == (StatefulOutline { press_width: w, hover_width: w, ..self }),
    {
        StatefulOutline { press_width: w, hover_width: w, ..self }
    }
}

impl<C: Copy, W: Copy> WidgetStyle<Style<C, W>> for StatefulOutline<C, W> {
    open spec fn spec_style(&self, base: Style<C, W>, state: WidgetState) -> Style<C, W> {
        let outline = if state.captured || state.pressed {
            Some((self.press_width, self.press_color))
        } else if state.hovered {
            Some((self.hover_width, self.hover_color))
        } else {
            base.outline
        };
        Style { outline, ..base }
    }

    fn style(&self, base: Style<C, W>, state: WidgetState) -> (r: Style<C, W>) {
        let mut base = base;
        base.outline = if state.captured || state.pressed {
            Some((self.press_width, self.press_color))
        } else if state.hovered {
            Some((self.hover_width, self.hover_color))
        } else {
            base.outline
        };
        base
    }
}

} // verus!

verus! {

/// The colors of an interface and the style function its widgets use.
#[derive(Clone, Copy, Debug)]
pub struct Theme<C, WS> {
    pub primary_color: C,
    pub secondary_color: C,
    pub tertiary_color: C,
    pub style_fn: WS,
}

impl<C: Copy, WS> Theme<C, WS> {
    /// The style of a plain surface: the primary color, nothing else.
    pub fn surface<W: Copy>(&self) -> (r: Style<C, W>)
        ensures
            r == (Style::<C, W> { color: self.primary_color, shadow: None, outline: None }),
    {
        Style::new(self.primary_color)
    }
}

} // verus!

verus! {

impl<A: Copy> DarkenOnInteract<A> {
    /// Darkening changes only the fill: the shadow and the outline stay.
    /// An idle widget keeps its fill; a pressed or captured one is darkened
    /// by the press amount, a merely hovered one by the hover amount.
    pub proof fn law_darkens_only_the_fill<C: Darken<A> + Copy, W: Copy>(self, base: Style<C, W>, state: WidgetState)
        ensures
            self.spec_style(base, state).shadow == base.shadow,
            self.spec_style(base, state).outline == base.outline,
            !state.hovered && !state.pressed && !state.captured ==> self.spec_style(base, state) == base,
            (state.pressed || state.captured) ==> self.spec_style(base, state).color == base.color.spec_darkened(
                self.press_amount,
            ),
            (state.hovered && !state.pressed && !state.captured) ==> self.spec_style(base, state).color
                == base.color.spec_darkened(self.hover_amount),
    {
    }
}

impl<C: Copy, W: Copy> OutlineOnHover<C, W> {
    /// Only the outline changes: it is this outline while hovered, and the
    /// base one otherwise.
    pub proof fn law_outline_on_hover(self, base: Style<C, W>, state: WidgetState)
        ensures
            self.spec_style(base, state).color == base.color,
            self.spec_style(base, state).shadow == base.shadow,
            state.hovered ==> self.spec_style(base, state).outline == Some((self.width, self.color)),
            !state.hovered ==> self.spec_style(base, state) == base,
    {
    }
}

impl<C: Copy, W: Copy> StatefulOutline<C, W> {
    /// Only the outline changes: the press outline while pressed or
    /// captured, else the hover outline while hovered, else the base one.
    pub proof fn law_stateful_outline(self, base: Style<C, W>, state: WidgetState)
        ensures
            self.spec_style(base, state).color == base.color,
            self.spec_style(base, state).shadow == base.shadow,
            (state.pressed || state.captured) ==> self.spec_style(base, state).outline == Some(
                (self.press_width, self.press_color),
            ),
            (state.hovered && !state.pressed && !state.captured) ==> self.spec_style(base, state).outline
                == Some((self.hover_width, self.hover_color)),
            (!state.hovered && !state.pressed && !state.captured) ==> self.spec_style(base, state) == base,
    {
    }
}

} // verus!
