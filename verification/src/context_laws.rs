use vstd::prelude::*;

use crate::context::{GuiContext, MouseState, Ui};
use crate::button::Button;
use crate::shapes::Shape;
use crate::widget::{CursorIcon, Hook, Widget, WidgetState};

verus! {

/// Widget `i` is one the frame could have spoken to: it was hovered,
/// pressed or captured before, or is hovered or captured after.
pub open spec fn involved<P, W>(before: Ui<P, W>, after: Ui<P, W>, i: usize) -> bool {
    ||| before.hovered == Some(i)
    ||| before.pressed == Some(i)
    ||| before.captured == Some(i)
    ||| after.hovered == Some(i)
    ||| after.captured == Some(i)
}

impl<M, P: Copy, W: Widget<M, P>> GuiContext<M, P, W> {
    /// A frame reports activity exactly when a widget was captured or the
    /// pointer moved, was pressed or was released.
    pub proof fn law_frame_reports_activity(ui: Ui<P, W>, s: MouseState<P>)
        ensures
            Self::frame_step(ui, s).1 == (ui.captured is Some || s.moved || s.pressed || s.released),
    {
    }

    /// A frame without input and without a capture changes nothing.
    pub proof fn law_idle_frame(ui: Ui<P, W>, s: MouseState<P>)
        requires
            ui.captured is None,
            !s.moved,
            !s.pressed,
            !s.released,
        ensures
            Self::frame_step(ui, s) == (ui, false),
    {
    }

    /// The number of widgets never changes.
    pub proof fn law_widget_count(ui: Ui<P, W>, s: MouseState<P>)
        requires
            Self::ui_wf(ui),
        ensures
            Self::frame_step(ui, s).0.widgets.len() == ui.widgets.len(),
    {
    }

    /// A frame keeps the roles well formed: they point at existing widgets
    /// and a captured widget is not hovered.
    pub proof fn law_frame_keeps_wf(ui: Ui<P, W>, s: MouseState<P>)
        requires
            Self::ui_wf(ui),
        ensures
            Self::ui_wf(Self::frame_step(ui, s).0),
    {
        Self::lemma_frame_step_wf(ui, s);
    }

    /// While the button is held, a captured widget stays captured, and the
    /// other roles stay as they were.
    pub proof fn law_capture_held(ui: Ui<P, W>, s: MouseState<P>)
        requires
            ui.captured is Some,
            !s.released,
        ensures
            Self::frame_step(ui, s).0.captured == ui.captured,
            Self::frame_step(ui, s).0.hovered == ui.hovered,
            Self::frame_step(ui, s).0.pressed == ui.pressed,
    {
    }

    /// A release ends a capture.
    pub proof fn law_release_ends_capture(ui: Ui<P, W>, s: MouseState<P>)
        requires
            ui.captured is Some,
            s.released,
        ensures
            Self::frame_step(ui, s).0.captured is None,
    {
    }

    /// A capture begins only with a press.
    pub proof fn law_capture_needs_press(ui: Ui<P, W>, s: MouseState<P>)
        requires
            ui.captured is None,
            Self::frame_step(ui, s).0.captured is Some,
        ensures
            s.pressed,
    {
    }

    /// After a release that began no capture, no widget is pressed.
    pub proof fn law_release_clears_press(ui: Ui<P, W>, s: MouseState<P>)
        requires
            ui.captured is None,
            s.released,
            Self::frame_step(ui, s).0.captured is None,
        ensures
            Self::frame_step(ui, s).0.pressed is None,
    {
    }

    /// A frame changes only widgets that were hovered, pressed or captured
    /// before it, or are hovered or captured after it.
    pub proof fn law_only_involved_widgets_change(ui: Ui<P, W>, s: MouseState<P>, i: usize)
        requires
            Self::ui_wf(ui),
            i < ui.widgets.len(),
            !involved(ui, Self::frame_step(ui, s).0, i),
        ensures
            Self::frame_step(ui, s).0.widgets[i as int] == ui.widgets[i as int],
    {
    }
}

} // verus!

verus! {

/// A context holding one button, with no widget in any role.
pub open spec fn lone_button<M, P, S, St>(b: Button<M, S, St>) -> Ui<P, Button<M, S, St>> {
    Ui { widgets: seq![b], hovered: None, pressed: None, captured: None, log: Seq::empty() }
}

pub open spec fn pointer<P>(pressed: bool, released: bool, moved: bool, pos: P, delta: P) -> MouseState<P> {
    MouseState { pressed, released, moved, pos, delta }
}

/// One frame from `ui`, with an empty log.
pub open spec fn step<M, P: Copy, W: Widget<M, P>>(ui: Ui<P, W>, s: MouseState<P>) -> (Ui<P, W>, bool) {
    GuiContext::<M, P, W>::frame_step(GuiContext::<M, P, W>::fresh(ui), s)
}

/// A lone button after the pointer moved onto it at `p`.
pub open spec fn hovered_at<M: Clone, P: Copy, S: Shape<P>, St>(b: Button<M, S, St>, p: P, d: P) -> Ui<P, Button<M, S, St>> {
    step::<M, P, Button<M, S, St>>(lone_button(b), pointer(false, false, true, p, d)).0
}

/// ... then pressed there.
pub open spec fn pressed_at<M: Clone, P: Copy, S: Shape<P>, St>(b: Button<M, S, St>, p: P, d: P) -> Ui<P, Button<M, S, St>> {
    step::<M, P, Button<M, S, St>>(hovered_at(b, p, d), pointer(true, false, false, p, d)).0
}

/// ... then released there.
pub open spec fn clicked_at<M: Clone, P: Copy, S: Shape<P>, St>(b: Button<M, S, St>, p: P, d: P) -> (Ui<P, Button<M, S, St>>, bool) {
    step::<M, P, Button<M, S, St>>(pressed_at(b, p, d), pointer(false, true, false, p, d))
}

/// ... or moved off to `q` and released there.
pub open spec fn dropped_at<M: Clone, P: Copy, S: Shape<P>, St>(b: Button<M, S, St>, p: P, q: P, d: P) -> (Ui<P, Button<M, S, St>>, bool) {
    let left = step::<M, P, Button<M, S, St>>(pressed_at(b, p, d), pointer(false, false, true, q, d)).0;
    step::<M, P, Button<M, S, St>>(left, pointer(false, true, false, q, d))
}

/// Moving onto a button, pressing and releasing there sends exactly one
/// message, the button's answer to a release over it; a second release
/// sends nothing, for nothing is pressed any more.
pub proof fn law_click_sends_one_message<M: Clone, P: Copy, S: Shape<P>, St>(b: Button<M, S, St>, p: P, d: P)
    requires
        b.shape.spec_hit(p),
    ensures
        hovered_at(b, p, d).log.len() == 0,
        hovered_at(b, p, d).hovered == Some(0usize),
        pressed_at(b, p, d).log.len() == 0,
        clicked_at(b, p, d).1,
        clicked_at(b, p, d).0.log == seq![(b, Hook::Release(p, true))],
        clicked_at(b, p, d).0.pressed is None,
        step::<M, P, Button<M, S, St>>(clicked_at(b, p, d).0, pointer(false, true, false, p, d)).0.log.len() == 0,
{
    let ui = lone_button::<M, P, S, St>(b);
    assert(GuiContext::<M, P, Button<M, S, St>>::is_first_hit(ui.widgets, p, 0));
    assert(GuiContext::<M, P, Button<M, S, St>>::fresh(ui) == ui);
}

/// Pressing a button, moving off it and releasing away from it sends
/// nothing and leaves nothing pressed.
pub proof fn law_release_off_button_sends_nothing<M: Clone, P: Copy, S: Shape<P>, St>(b: Button<M, S, St>, p: P, q: P, d: P)
    requires
        b.shape.spec_hit(p),
        !b.shape.spec_hit(q),
    ensures
        dropped_at(b, p, q, d).1,
        dropped_at(b, p, q, d).0.log.len() == 0,
        dropped_at(b, p, q, d).0.pressed is None,
{
    let ui = lone_button::<M, P, S, St>(b);
    assert(GuiContext::<M, P, Button<M, S, St>>::is_first_hit(ui.widgets, p, 0));
    assert(GuiContext::<M, P, Button<M, S, St>>::fresh(ui) == ui);
    assert(!exists|i: int| GuiContext::<M, P, Button<M, S, St>>::is_first_hit(pressed_at(b, p, d).widgets, q, i));
}

} // verus!

verus! {

impl<M, P: Copy, W: Widget<M, P>> GuiContext<M, P, W> {
    /// Releasing the button ends a capture by telling the captured widget
    /// that it was released over it, wherever the pointer is: that is the
    /// first hook of the frame, and its answer is the frame's first message.
    pub proof fn law_captured_release_is_inside(ui: Ui<P, W>, s: MouseState<P>, id: usize)
        requires
            Self::ui_wf(ui),
            ui.captured == Some(id),
            s.released,
        ensures
            ({
                let w = ui.widgets[id as int];
                let post = Self::frame_step(ui, s).0;
                let k = ui.log.len() as int;
                w.spec_replies(Hook::Release(s.pos, true)) ==> post.log.len() > k && post.log[k] == (
                w, Hook::Release(s.pos, true))
            }),
    {
        let w = ui.widgets[id as int];
        let r = Self::deliver(ui, id, Hook::Release(s.pos, true));
        if w.spec_replies(Hook::Release(s.pos, true)) {
            let k = ui.log.len() as int;
            assert(r.log == ui.log.push((w, Hook::Release(s.pos, true))));
            let h = Self::hover_first_hit(Ui { captured: None, ..r }, s.pos);
            assert(h.log.len() > k && h.log[k] == r.log[k]);
            if s.moved {
                let d = Self::deliver(h, id, Hook::Drag(s.delta, s.pos));
                assert(d.log[k] == h.log[k]);
            }
        }
    }

    /// With no widget hovered or pressed, the cursor is the one the captured
    /// widget asks for, as a captured widget, or the default one.
    pub proof fn law_captured_widget_picks_cursor(ui: Ui<P, W>, id: usize)
        requires
            ui.hovered is None,
            ui.pressed is None,
            ui.captured == Some(id),
        ensures
            Self::spec_cursor(ui) == (match ui.widgets[id as int].spec_cursor_icon(
                WidgetState { hovered: false, pressed: false, captured: true },
            ) {
                Some(c) => c,
                None => CursorIcon::Default,
            }),
    {
    }

    /// A hovered widget decides the cursor, whatever else is pressed or
    /// captured.
    pub proof fn law_hovered_widget_picks_cursor(ui: Ui<P, W>, id: usize)
        requires
            ui.hovered == Some(id),
        ensures
            Self::spec_cursor(ui) == (match ui.widgets[id as int].spec_cursor_icon(
                Self::spec_widget_state(ui, id),
            ) {
                Some(c) => c,
                None => CursorIcon::Default,
            }),
            Self::spec_widget_state(ui, id).hovered,
    {
    }

    /// With no widget in any role, the cursor is the default one.
    pub proof fn law_idle_cursor(ui: Ui<P, W>)
        requires
            ui.hovered is None,
            ui.pressed is None,
            ui.captured is None,
        ensures
            Self::spec_cursor(ui) == CursorIcon::Default,
    {
    }
}

} // verus!
