use guikit::button::{Button, ButtonBuilder};
use guikit::checkbox::Checkbox;
use guikit::context::{GuiContext, MouseState};
use guikit::point::Vec2;
use guikit::shapes::{Combined, HitboxPadding, Movable, Shape, ShapeBuilder, ShapeSlicer};
use guikit::slider::{Slider, SliderBuilder};
use guikit::style::{OutlineOnHover, Style, WidgetStyle};
use guikit::trajectory::{Path, Trajectory};
use guikit::widget::{CursorIcon, Widget, WidgetState};

type Pt = Vec2<i32>;
type St = Style<u32, i32>;

#[derive(Clone, Copy, Debug, PartialEq)]
struct Rect {
    x0: i32,
    y0: i32,
    w: i32,
    h: i32,
}

impl Shape<Pt> for Rect {
    fn hit(&self, p: Pt) -> bool {
        self.x0 <= p.x && p.x <= self.x0 + self.w && self.y0 <= p.y && p.y <= self.y0 + self.h
    }
}

impl Movable<Pt> for Rect {
    fn move_to(&mut self, p: Pt) {
        self.x0 = p.x;
        self.y0 = p.y;
    }

    fn move_by(&mut self, v: Pt) {
        self.x0 += v.x;
        self.y0 += v.y;
    }
}

#[derive(Clone, Copy, Debug, PartialEq)]
struct RectBuilder {
    at: Pt,
    w: i32,
    h: i32,
}

impl ShapeBuilder<Rect, Pt> for RectBuilder {
    fn build(&self) -> Rect {
        Rect { x0: self.at.x, y0: self.at.y, w: self.w, h: self.h }
    }

    fn set_position(self, p: Pt) -> Self {
        RectBuilder { at: p, ..self }
    }
}

/// Values 0..=len along the x axis from `start`.
#[derive(Clone, Copy, Debug, PartialEq)]
struct Line {
    start: i32,
    len: i32,
}

impl Trajectory<i32, Pt> for Line {
    fn capture_val(&self, pos: Pt) -> i32 {
        (pos.x - self.start).clamp(0, self.len)
    }

    fn change_val(&self, _delta: Pt, pos: Pt, _old: i32) -> i32 {
        (pos.x - self.start).clamp(0, self.len)
    }

    fn change_pos(&self, val: i32) -> Pt {
        Vec2::new(self.start + val, 0)
    }
}

impl Movable<Pt> for Line {
    fn move_to(&mut self, p: Pt) {
        self.start = p.x;
    }

    fn move_by(&mut self, v: Pt) {
        self.start += v.x;
    }
}

#[derive(Clone, Copy, Debug, PartialEq)]
struct Cut;

impl ShapeSlicer<Rect, i32> for Cut {
    fn shape_slice(&self, shape: &Rect, val: i32) -> Rect {
        Rect { w: val, ..*shape }
    }
}

#[derive(Clone, Copy, Debug, PartialEq)]
struct LinePath {
    start: i32,
    len: i32,
}

impl Path<i32, Pt> for LinePath {
    type S = Rect;
    type T = Line;
    type SL = Cut;

    fn get_trajectory(&self) -> Line {
        Line { start: self.start, len: self.len }
    }

    fn slicer(&self) -> Cut {
        Cut
    }

    fn shape(&self) -> Rect {
        Rect { x0: self.start, y0: -1, w: self.len, h: 2 }
    }

    fn position(self, p: Pt) -> Self {
        LinePath { start: p.x, ..self }
    }
}

fn mouse(pressed: bool, released: bool, moved: bool, x: i32, y: i32) -> MouseState<Pt> {
    MouseState { pressed, released, moved, pos: Vec2::new(x, y), delta: Vec2::new(0, 0) }
}

fn outline() -> Box<dyn WidgetStyle<St>> {
    Box::new(OutlineOnHover::new(9u32, 1i32))
}

fn button(x0: i32, msg: u32) -> Button<u32, Rect, St> {
    Button::new(Rect { x0, y0: 0, w: 10, h: 10 }, Style::new(1u32), outline(), msg)
}

fn two_buttons() -> GuiContext<u32, Pt, Button<u32, Rect, St>> {
    let mut ctx = GuiContext::new();
    assert_eq!(ctx.add(button(0, 100)), 0);
    assert_eq!(ctx.add(button(5, 200)), 1);
    ctx
}

#[test]
fn first_frame_only_once() {
    let mut ctx: GuiContext<u32, Pt, Button<u32, Rect, St>> = GuiContext::new();
    assert!(ctx.first_frame());
    assert!(!ctx.first_frame());
    assert!(!ctx.first_frame());
}

#[test]
fn hover_goes_to_first_hit() {
    let mut ctx = two_buttons();
    let mut events = Vec::new();
    // (7, 5) lies in both buttons; the first one added wins.
    assert!(ctx.process_mouse(mouse(false, false, true, 7, 5), &mut events));
    assert!(events.is_empty());
    let s0 = ctx.widget_state(0);
    assert!(s0.hovered && !s0.pressed && !s0.captured);
    assert!(!ctx.widget_state(1).hovered);
    assert_eq!(ctx.cursor_icon(), CursorIcon::PointingHand);
}

#[test]
fn hover_moves_on_when_pointer_leaves() {
    let mut ctx = two_buttons();
    let mut events = Vec::new();
    ctx.process_mouse(mouse(false, false, true, 2, 5), &mut events);
    assert!(ctx.widget_state(0).hovered);
    ctx.process_mouse(mouse(false, false, true, 13, 5), &mut events);
    assert!(!ctx.widget_state(0).hovered);
    assert!(ctx.widget_state(1).hovered);
    ctx.process_mouse(mouse(false, false, true, 50, 5), &mut events);
    assert!(!ctx.widget_state(1).hovered);
    assert_eq!(ctx.cursor_icon(), CursorIcon::Default);
}

#[test]
fn click_sends_on_release_inside() {
    let mut ctx = two_buttons();
    let mut events = Vec::new();
    ctx.process_mouse(mouse(false, false, true, 2, 5), &mut events);
    assert!(ctx.process_mouse(mouse(true, false, false, 2, 5), &mut events));
    assert!(ctx.widget_state(0).pressed);
    assert!(events.is_empty());
    assert!(ctx.process_mouse(mouse(false, true, false, 2, 5), &mut events));
    assert_eq!(events, vec![100]);
    assert!(!ctx.widget_state(0).pressed);
}

#[test]
fn release_outside_sends_nothing() {
    let mut ctx = two_buttons();
    let mut events = Vec::new();
    ctx.process_mouse(mouse(false, false, true, 2, 5), &mut events);
    ctx.process_mouse(mouse(true, false, false, 2, 5), &mut events);
    ctx.process_mouse(mouse(false, true, true, 50, 50), &mut events);
    assert!(events.is_empty());
    assert!(!ctx.widget_state(0).pressed);
    assert!(!ctx.widget_state(0).hovered);
}

#[test]
fn idle_frame_changes_nothing() {
    let mut ctx = two_buttons();
    let mut events = Vec::new();
    ctx.process_mouse(mouse(false, false, true, 2, 5), &mut events);
    assert!(!ctx.process_mouse(mouse(false, false, false, 2, 5), &mut events));
    assert!(ctx.widget_state(0).hovered);
    assert!(events.is_empty());
}

#[test]
fn press_on_nothing_still_reports_activity() {
    let mut ctx = two_buttons();
    let mut events = Vec::new();
    assert!(ctx.process_mouse(mouse(true, false, false, 50, 50), &mut events));
    assert!(!ctx.widget_state(0).pressed && !ctx.widget_state(1).pressed);
}

type TestCheckbox = Checkbox<u32, Rect, Rect, St, u32, fn(bool) -> u32>;

fn toggle_message(b: bool) -> u32 {
    if b {
        1
    } else {
        0
    }
}

fn checkbox(checked: bool) -> TestCheckbox {
    let r = Rect { x0: 0, y0: 0, w: 4, h: 4 };
    Checkbox::new(r, r, Style::new(2u32), 3u32, checked, toggle_message as fn(bool) -> u32)
}

#[test]
fn checkbox_toggles_on_release_inside() {
    let mut ctx = GuiContext::new();
    ctx.add(checkbox(false));
    let mut events = Vec::new();
    ctx.process_mouse(mouse(false, false, true, 1, 1), &mut events);
    ctx.process_mouse(mouse(true, false, false, 1, 1), &mut events);
    ctx.process_mouse(mouse(false, true, false, 1, 1), &mut events);
    assert_eq!(events, vec![1]);
    assert!(ctx.widget(0).is_checked());
    ctx.process_mouse(mouse(true, false, false, 1, 1), &mut events);
    ctx.process_mouse(mouse(false, true, false, 1, 1), &mut events);
    assert_eq!(events, vec![1, 0]);
    assert!(!ctx.widget(0).is_checked());
}

#[test]
fn checkbox_direct_hooks() {
    let mut c = checkbox(true);
    assert_eq!(c.on_release(Vec2::new(1, 1), false), None);
    assert!(c.is_checked());
    assert_eq!(c.on_release(Vec2::new(1, 1), true), Some(0));
    assert!(!c.is_checked());
    c.set_checked(true);
    assert!(c.is_checked());
    assert_eq!(c.on_click(Vec2::new(1, 1)), None);
    assert!(!c.follow_pointer(Vec2::new(1, 1)));
    assert_eq!(c.cursor_icon(WidgetState { hovered: true, pressed: false, captured: false }), Some(CursorIcon::PointingHand));
}

#[test]
fn button_hooks() {
    let mut b = button(0, 7);
    assert!(b.hit(Vec2::new(10, 10)));
    assert!(!b.hit(Vec2::new(11, 10)));
    assert_eq!(b.on_release(Vec2::new(1, 1), true), Some(7));
    assert_eq!(b.on_release(Vec2::new(1, 1), false), None);
    assert_eq!(b.on_click(Vec2::new(1, 1)), None);
    assert!(!b.follow_pointer(Vec2::new(1, 1)));
}

fn msg_of(v: i32) -> i32 {
    v * 10
}

type TestSlider = Slider<i32, i32, Rect, Rect, Cut, Line, St, fn(i32) -> i32, fn(i32) -> i32, fn(i32) -> i32>;

fn slider(val: i32) -> TestSlider {
    let f = msg_of as fn(i32) -> i32;
    Slider::new(
        Rect { x0: 0, y0: 0, w: 2, h: 2 },
        Style::new(1u32),
        outline(),
        Line { start: 100, len: 50 },
        Rect { x0: 100, y0: -1, w: 50, h: 2 },
        Cut,
        Style::new(2u32),
        Style::new(3u32),
        val,
        f,
        f,
        f,
    )
}

#[test]
fn slider_starts_at_value() {
    let s = slider(20);
    assert_eq!(s.handler.val, 20);
    assert_eq!(s.handler.shape.x0, 120);
    assert_eq!(s.handler.shape.y0, 0);
    assert!(!s.handler_hovered);
    assert_eq!(s.active_track(), Rect { x0: 100, y0: -1, w: 20, h: 2 });
}

#[test]
fn slider_set_val_moves_handler() {
    let mut s = slider(0);
    s.set_val(35);
    assert_eq!(s.handler.val, 35);
    assert_eq!(s.handler.shape.x0, 135);
}

#[test]
fn slider_tracks_handler_hover() {
    let mut s = slider(0);
    assert_eq!(s.on_hover(Vec2::new(140, 0)), None);
    assert!(!s.handler_hovered);
    s.on_pointer_move(Vec2::new(0, 0), Vec2::new(101, 1));
    assert!(s.handler_hovered);
    s.on_pointer_move(Vec2::new(0, 0), Vec2::new(140, 0));
    assert!(!s.handler_hovered);
    s.on_hover(Vec2::new(100, 0));
    assert!(s.handler_hovered);
    s.on_unhover();
    assert!(!s.handler_hovered);
    let state = WidgetState { hovered: true, pressed: false, captured: false };
    assert!(!s.handler_state(state).hovered);
}

#[test]
fn slider_capture_and_drag() {
    let mut ctx = GuiContext::new();
    ctx.add(slider(0));
    let mut events = Vec::new();
    ctx.process_mouse(mouse(false, false, true, 130, 0), &mut events);
    assert!(ctx.widget_state(0).hovered);
    // The press captures the slider: the handler jumps under the pointer.
    assert!(ctx.process_mouse(mouse(true, false, false, 130, 0), &mut events));
    assert!(ctx.widget_state(0).captured);
    assert!(!ctx.widget_state(0).hovered);
    assert_eq!(ctx.widget(0).handler.val, 30);
    assert!(events.is_empty());
    // A drag past the end is clamped, and reported.
    assert!(ctx.process_mouse(mouse(false, false, true, 400, 0), &mut events));
    assert_eq!(ctx.widget(0).handler.val, 50);
    assert_eq!(ctx.widget(0).handler.shape.x0, 150);
    assert_eq!(events, vec![500]);
    // Capture holds while the button is down, even with no motion.
    assert!(ctx.process_mouse(mouse(false, false, false, 400, 0), &mut events));
    assert!(ctx.widget_state(0).captured);
    // The release ends the capture and reports the value.
    assert!(ctx.process_mouse(mouse(false, true, false, 110, 0), &mut events));
    assert!(!ctx.widget_state(0).captured);
    assert!(ctx.widget_state(0).hovered);
    assert_eq!(events, vec![500, 500]);
}

#[test]
fn slider_moves_with_its_track() {
    let mut s = slider(10);
    s.move_by(Vec2::new(5, 0));
    assert_eq!(s.track_shape.x0, 105);
    assert_eq!(s.handler.trajectory.start, 105);
    assert_eq!(s.handler.shape.x0, 115);
    s.move_to(Vec2::new(0, 0));
    assert_eq!(s.track_shape.x0, 0);
    assert_eq!(s.handler.trajectory.start, 0);
}

#[test]
fn button_builder_defaults() {
    let b: Button<u32, Rect, St> = ButtonBuilder::new(
        RectBuilder { at: Vec2::new(0, 0), w: 3, h: 3 },
        OutlineOnHover::new(9u32, 1i32),
    )
    .position(Vec2::new(4, 4))
    .build(11u32, Style::new(5u32));
    assert_eq!(b.shape, Rect { x0: 4, y0: 4, w: 3, h: 3 });
    assert_eq!(b.main_style.color, 5);
    assert_eq!(b.on_click, 11);

    let b2: Button<u32, Rect, St> = ButtonBuilder::new(
        RectBuilder { at: Vec2::new(0, 0), w: 3, h: 3 },
        OutlineOnHover::new(9u32, 1i32),
    )
    .main_style(Style::new(6u32))
    .build(12u32, Style::new(5u32));
    assert_eq!(b2.main_style.color, 6);
}

#[test]
fn slider_builder_defaults() {
    let f = msg_of as fn(i32) -> i32;
    let s = SliderBuilder::from_path(
        LinePath { start: 0, len: 40 },
        RectBuilder { at: Vec2::new(0, 0), w: 2, h: 2 },
        OutlineOnHover::new(9u32, 1i32),
    )
    .position(Vec2::new(10, 0))
    .build(f, Style::new(4u32), 8u32);
    assert_eq!(s.handler.val, 0);
    assert_eq!(s.handler.shape.x0, 10);
    assert_eq!(s.handler.main_style.shadow, Some(8));
    assert_eq!(s.track_style.color, 4);
    assert_eq!(s.track_shape.x0, 10);

    let s2 = SliderBuilder::from_path(
        LinePath { start: 0, len: 40 },
        RectBuilder { at: Vec2::new(0, 0), w: 2, h: 2 },
        OutlineOnHover::new(9u32, 1i32),
    )
    .value(25)
    .active_style(Style::new(7u32))
    .build(f, Style::new(4u32), 8u32);
    assert_eq!(s2.handler.val, 25);
    assert_eq!(s2.handler.shape.x0, 25);
    assert_eq!(s2.active_style.color, 7);
}

impl HitboxPadding<i32> for Rect {
    fn padded(&self, extra: i32) -> Self {
        Rect { x0: self.x0 - extra, y0: self.y0 - extra, w: self.w + 2 * extra, h: self.h + 2 * extra }
    }
}

#[test]
fn padded_path_grows_hit_area_only() {
    let path = LinePath { start: 0, len: 10 }.pad_hitbox(3);
    let shape = path.shape();
    assert_eq!(shape.drawable, Rect { x0: 0, y0: -1, w: 10, h: 2 });
    assert_eq!(shape.hitbox, Rect { x0: -3, y0: -4, w: 16, h: 8 });
    assert!(shape.hit(Vec2::new(-2, 3)));
    assert!(!shape.drawable.hit(Vec2::new(-2, 3)));
    let sliced = path.slicer().shape_slice(&shape, 4);
    assert_eq!(sliced.drawable.w, 4);
    assert_eq!(sliced.hitbox.w, 4);
    let moved = path.position(Vec2::new(20, 0)).shape();
    assert_eq!(moved.drawable.x0, 20);
    assert_eq!(path.padding(1).shape().hitbox, Rect { x0: -1, y0: -2, w: 12, h: 4 });
}

#[test]
fn combined_shapes_move_together() {
    let mut c = Combined {
        hitbox: Rect { x0: -2, y0: -2, w: 6, h: 6 },
        drawable: Rect { x0: 0, y0: 0, w: 2, h: 2 },
    };
    assert!(c.hit(Vec2::new(-1, -1)));
    c.move_by(Vec2::new(10, 0));
    assert_eq!(c.hitbox.x0, 8);
    assert_eq!(c.drawable.x0, 10);
    let d = guikit::shapes::moved_to(&c, Vec2::new(0, 0));
    assert_eq!(d.hitbox.x0, 0);
    assert_eq!(c.hitbox.x0, 8);
}

#[test]
fn only_the_toggled_checkbox_changes() {
    let mut ctx = GuiContext::new();
    ctx.add(checkbox(false));
    let far = Rect { x0: 100, y0: 100, w: 4, h: 4 };
    ctx.add(Checkbox::new(far, far, Style::new(2u32), 3u32, true, toggle_message as fn(bool) -> u32));
    let mut events = Vec::new();
    ctx.process_mouse(mouse(false, false, true, 1, 1), &mut events);
    ctx.process_mouse(mouse(true, true, false, 1, 1), &mut events);
    assert!(ctx.widget(0).is_checked());
    assert!(ctx.widget(1).is_checked());
    assert_eq!(events, vec![1]);
    assert_eq!(ctx.len(), 2);
}

#[test]
fn widget_mut_keeps_roles() {
    let mut ctx = GuiContext::new();
    ctx.add(slider(0));
    let mut events = Vec::new();
    ctx.process_mouse(mouse(false, false, true, 130, 0), &mut events);
    ctx.widget_mut(0).set_val(40);
    assert_eq!(ctx.widget(0).handler.val, 40);
    assert_eq!(ctx.widget(0).handler.shape.x0, 140);
    assert!(ctx.widget_state(0).hovered);
}

#[test]
fn capture_needs_a_press() {
    let mut ctx = GuiContext::new();
    ctx.add(slider(0));
    let mut events = Vec::new();
    ctx.process_mouse(mouse(false, false, true, 130, 0), &mut events);
    ctx.process_mouse(mouse(false, true, true, 131, 0), &mut events);
    assert!(!ctx.widget_state(0).captured);
    assert!(events.is_empty());
}

#[test]
fn padded_path_new_has_no_padding() {
    let path: guikit::trajectory::PaddedPath<LinePath, i32> =
        guikit::trajectory::PaddedPath::new(LinePath { start: 0, len: 10 });
    let shape = path.shape();
    assert_eq!(shape.hitbox, shape.drawable);
    assert_eq!(path.get_trajectory(), Line { start: 0, len: 10 });
}

#[test]
fn click_then_second_release_sends_one_message() {
    let mut ctx = GuiContext::new();
    ctx.add(button(0, 7));
    let mut events = Vec::new();
    ctx.process_mouse(mouse(false, false, true, 0, 0), &mut events);
    ctx.process_mouse(mouse(true, false, false, 0, 0), &mut events);
    assert!(ctx.process_mouse(mouse(false, true, false, 0, 0), &mut events));
    assert_eq!(events, vec![7]);
    assert!(ctx.process_mouse(mouse(false, true, false, 0, 0), &mut events));
    assert_eq!(events, vec![7]);
}

#[test]
fn press_leave_release_sends_nothing() {
    let mut ctx = GuiContext::new();
    ctx.add(button(0, 7));
    let mut events = Vec::new();
    ctx.process_mouse(mouse(false, false, true, 0, 0), &mut events);
    ctx.process_mouse(mouse(true, false, false, 0, 0), &mut events);
    ctx.process_mouse(mouse(false, false, true, 50, 50), &mut events);
    assert!(ctx.process_mouse(mouse(false, true, false, 50, 50), &mut events));
    assert!(events.is_empty());
    assert!(!ctx.widget_state(0).pressed);
}
