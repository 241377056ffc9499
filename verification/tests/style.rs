use guikit::style::{Darken, DarkenOnInteract, OutlineOnHover, StatefulOutline, Style, Theme, WidgetStyle};
use guikit::trajectory::{ComposedScale, Scale};
use guikit::widget::WidgetState;

fn state(hovered: bool, pressed: bool, captured: bool) -> WidgetState {
    WidgetState { hovered, pressed, captured }
}

#[derive(Clone, Copy, Debug, PartialEq)]
struct Gray(u8);

impl Darken<u8> for Gray {
    fn darken(self, amount: u8) -> Self {
        Gray(self.0.saturating_sub(amount))
    }
}

#[test]
fn style_builders() {
    let s: Style<u32, i32> = Style::new(1);
    assert_eq!(s.color, 1);
    assert_eq!(s.shadow, None);
    assert_eq!(s.outline, None);
    let s = s.shadow(2).outline(3, 4).color(5);
    assert_eq!(s.color, 5);
    assert_eq!(s.shadow, Some(2));
    assert_eq!(s.outline, Some((3, 4)));
}

#[test]
fn darken_picks_press_over_hover() {
    let d = DarkenOnInteract::new(10u8, 30u8);
    assert_eq!(d.amount(state(false, false, false)), None);
    assert_eq!(d.amount(state(true, false, false)), Some(10));
    assert_eq!(d.amount(state(true, true, false)), Some(30));
    assert_eq!(d.amount(state(false, false, true)), Some(30));
    let base: Style<Gray, u8> = Style::new(Gray(100));
    assert_eq!(d.style(base, state(true, false, false)).color, Gray(90));
    assert_eq!(d.style(base, state(false, true, false)).color, Gray(70));
    assert_eq!(d.style(base, state(false, false, false)).color, Gray(100));
}

#[test]
fn outline_on_hover_only_when_hovered() {
    let o = OutlineOnHover::new(7u32, 2i32).width(3).color(8);
    let base: Style<u32, i32> = Style::new(1);
    assert_eq!(o.style(base, state(true, false, false)).outline, Some((3, 8)));
    assert_eq!(o.style(base, state(false, true, false)).outline, None);
}

#[test]
fn stateful_outline_press_beats_hover() {
    let o = StatefulOutline::new(1u32, 2u32, 5i32).press_width(9).hover_width(4);
    let base: Style<u32, i32> = Style::new(0).outline(1, 3);
    assert_eq!(o.style(base, state(true, false, false)).outline, Some((4, 1)));
    assert_eq!(o.style(base, state(true, true, false)).outline, Some((9, 2)));
    assert_eq!(o.style(base, state(false, false, true)).outline, Some((9, 2)));
    assert_eq!(o.style(base, state(false, false, false)).outline, Some((1, 3)));
    let o2 = o.width(6).hover_color(10).press_color(11);
    assert_eq!(o2.hover_width, 6);
    assert_eq!(o2.press_width, 6);
    assert_eq!(o2.hover_color, 10);
    assert_eq!(o2.press_color, 11);
}

#[test]
fn theme_surface_is_primary_fill() {
    let t = Theme { primary_color: 1u32, secondary_color: 2u32, tertiary_color: 3u32, style_fn: () };
    let s: Style<u32, i32> = t.surface();
    assert_eq!(s.color, 1);
    assert_eq!(s.shadow, None);
    assert_eq!(s.outline, None);
}

/// Values shifted by a fixed offset.
#[derive(Clone, Copy, Debug)]
struct Offset(i64);

impl Scale<i64> for Offset {
    type U = i64;

    fn to_unit(&self, val: i64) -> i64 {
        val - self.0
    }

    fn from_unit(&self, t: i64) -> i64 {
        t + self.0
    }
}

/// Values scaled by a factor.
#[derive(Clone, Copy, Debug)]
struct Twice;

impl Scale<i64> for Twice {
    type U = i64;

    fn to_unit(&self, val: i64) -> i64 {
        val * 2
    }

    fn from_unit(&self, t: i64) -> i64 {
        t / 2
    }
}

#[test]
fn composed_scale_applies_inner_first() {
    let c: ComposedScale<Twice, Offset> = Twice.then_scale(Offset(3));
    assert_eq!(c.to_unit(10), 14);
    assert_eq!(c.from_unit(14), 10);
    for v in -20..20 {
        assert_eq!(c.from_unit(c.to_unit(v)), v);
    }
}
