use vstd::prelude::*;
use std::marker::PhantomData;

use crate::widget::{CursorIcon, Hook, Widget, WidgetState};

verus! {

/// What the pointer did since the last frame.
#[derive(Clone, Copy)]
pub struct MouseState<P> {
    pub pressed: bool,
    pub released: bool,
    pub moved: bool,
    pub pos: P,
    pub delta: P,
}

/// The abstract state of a context: its widgets, the three pointer roles,
/// and the log of hook calls that answered with a message, in call order.
pub struct Ui<P, W> {
    pub widgets: Seq<W>,
    pub hovered: Option<usize>,
    pub pressed: Option<usize>,
    pub captured: Option<usize>,
    pub log: Seq<(W, Hook<P>)>,
}

/// `events` is `before` followed by one message for each entry of `log`,
/// each a message that the entry's widget may send for the entry's hook.
pub open spec fn reported<M, P, W: Widget<M, P>>(
    log: Seq<(W, Hook<P>)>,
    before: Seq<M>,
    events: Seq<M>,
) -> bool {
    &&& events.len() == before.len() + log.len()
    &&& events.subrange(0, before.len() as int) == before
    &&& forall|j: int|
        0 <= j < log.len() ==> #[trigger] log[j].0.spec_message(log[j].1, events[before.len() + j])
}

/// Dispatches pointer input to a list of widgets and tracks which widget
/// is hovered, pressed or captured.
pub struct GuiContext<M, P, W> {
    widgets: Vec<W>,
    hovered: Option<usize>,
    pressed: Option<usize>,
    captured: Option<usize>,
    first_frame: bool,
    marker: PhantomData<(M, P)>,
}

pub open spec fn index_in(o: Option<usize>, n: nat) -> bool {
    o matches Some(i) ==> i < n
}

impl<M, P: Copy, W: Widget<M, P>> GuiContext<M, P, W> {
    /// The abstract state, with an empty log.
    pub closed spec fn ui(&self) -> Ui<P, W> {
        Ui {
            widgets: self.widgets@,
            hovered: self.hovered,
            pressed: self.pressed,
            captured: self.captured,
            log: Seq::empty(),
        }
    }

    pub closed spec fn is_first_frame(&self) -> bool {
        self.first_frame
    }

    /// `ui` with an empty log: the state a frame starts from.
    pub open spec fn fresh(ui: Ui<P, W>) -> Ui<P, W> {
        Ui { log: Seq::empty(), ..ui }
    }

    /// The abstract state of a context carries no log.
    pub proof fn lemma_ui_log_empty(&self)
        ensures
            self.ui().log == Seq::<(W, Hook<P>)>::empty(),
            Self::fresh(self.ui()) == self.ui(),
    {
    }

    /// The context's roles point at widgets that exist, and a captured
    /// widget is never hovered at the same time.
    pub open spec fn ui_wf(ui: Ui<P, W>) -> bool {
        &&& index_in(ui.hovered, ui.widgets.len())
        &&& index_in(ui.pressed, ui.widgets.len())
        &&& index_in(ui.captured, ui.widgets.len())
        &&& ui.captured is Some ==> ui.hovered is None
    }

    /// Every widget keeps its own invariant.
    pub open spec fn widgets_valid(ws: Seq<W>) -> bool {
        forall|i: int| 0 <= i < ws.len() ==> #[trigger] ws[i].inv()
    }

    pub open spec fn wf(&self) -> bool {
        &&& Self::ui_wf(self.ui())
        &&& Self::widgets_valid(self.ui().widgets)
    }

    /// The fields of `self` are those of `ui`, its log aside.
    pub open spec fn holds(&self, ui: Ui<P, W>) -> bool {
        &&& self.ui().widgets == ui.widgets
        &&& self.ui().hovered == ui.hovered
        &&& self.ui().pressed == ui.pressed
        &&& self.ui().captured == ui.captured
    }

    /// Widget `i` handles `hook`; its answer, if any, is logged.
    pub open spec fn deliver(ui: Ui<P, W>, i: usize, hook: Hook<P>) -> Ui<P, W> {
        let w = ui.widgets[i as int];
        Ui {
            widgets: ui.widgets.update(i as int, w.spec_after(hook)),
            log: if w.spec_replies(hook) { ui.log.push((w, hook)) } else { ui.log },
            ..ui
        }
    }

    /// `i` is the first widget that covers `p`.
    pub open spec fn is_first_hit(ws: Seq<W>, p: P, i: int) -> bool {
        &&& 0 <= i < ws.len()
        &&& ws[i].spec_hit(p)
        &&& forall|j: int| 0 <= j < i ==> !#[trigger] ws[j].spec_hit(p)
    }

    /// The first widget that covers `p`, if any, becomes hovered and
    /// receives `on_hover`.
    pub open spec fn hover_first_hit(ui: Ui<P, W>, p: P) -> Ui<P, W> {
        if exists|i: int| Self::is_first_hit(ui.widgets, p, i) {
            let i = choose|i: int| Self::is_first_hit(ui.widgets, p, i);
            Self::deliver(Ui { hovered: Some(i as usize), ..ui }, i as usize, Hook::Hover(p))
        } else {
            ui
        }
    }

    /// Input while widget `id` is captured: a release ends the capture
    /// (the widget gets `on_release(pos, true)`, and hover is looked for
    /// again); a move drags the widget.
    pub open spec fn captured_step(ui: Ui<P, W>, id: usize, s: MouseState<P>) -> Ui<P, W> {
        let after_release = if s.released {
            let r = Self::deliver(ui, id, Hook::Release(s.pos, true));
            Self::hover_first_hit(Ui { captured: None, ..r }, s.pos)
        } else {
            ui
        };
        if s.moved {
            Self::deliver(after_release, id, Hook::Drag(s.delta, s.pos))
        } else {
            after_release
        }
    }

    /// A move: the hovered widget is left when it no longer covers the
    /// pointer (and told so), else it gets `on_pointer_move`; with no
    /// widget hovered, the first one under the pointer becomes hovered.
    pub open spec fn move_step(ui: Ui<P, W>, s: MouseState<P>) -> Ui<P, W> {
        let left = match ui.hovered {
            Some(id) => if !ui.widgets[id as int].spec_hit(s.pos) {
                Ui { hovered: None, ..Self::deliver(ui, id, Hook::Unhover) }
            } else {
                Self::deliver(ui, id, Hook::PointerMove(s.delta, s.pos))
            },
            None => ui,
        };
        if left.hovered is None {
            Self::hover_first_hit(left, s.pos)
        } else {
            left
        }
    }

    /// A press on the hovered widget: if it follows the pointer it becomes
    /// captured (and unhovered), and the frame ends; else it becomes
    /// pressed and gets `on_click`. The flag tells whether a capture began.
    pub open spec fn press_step(ui: Ui<P, W>, s: MouseState<P>) -> (Ui<P, W>, bool) {
        match ui.hovered {
            Some(id) => {
                let w = ui.widgets[id as int];
                let hook = Hook::FollowPointer(s.pos);
                let followed = Ui { widgets: ui.widgets.update(id as int, w.spec_after(hook)), ..ui };
                if w.spec_replies(hook) {
                    let c = Self::deliver(Ui { captured: Some(id), ..followed }, id, Hook::Unhover);
                    (Ui { hovered: None, ..c }, true)
                } else {
                    (Self::deliver(Ui { pressed: Some(id), ..followed }, id, Hook::Click(s.pos)), false)
                }
            },
            None => (ui, false),
        }
    }

    /// A release: the pressed widget, if any, gets `on_release`, told
    /// whether it is still hovered; nothing stays pressed.
    pub open spec fn release_step(ui: Ui<P, W>, s: MouseState<P>) -> Ui<P, W> {
        let r = match ui.pressed {
            Some(pid) => Self::deliver(ui, pid, Hook::Release(s.pos, ui.hovered == Some(pid))),
            None => ui,
        };
        Ui { pressed: None, ..r }
    }

    /// One frame of input, and whether anything happened.
    pub open spec fn frame_step(ui: Ui<P, W>, s: MouseState<P>) -> (Ui<P, W>, bool) {
        match ui.captured {
            Some(id) => (Self::captured_step(ui, id, s), true),
            None => {
                let a = if s.moved { Self::move_step(ui, s) } else { ui };
                let (b, began) = if s.pressed { Self::press_step(a, s) } else { (a, false) };
                if began {
                    (b, true)
                } else {
                    let c = if s.released { Self::release_step(b, s) } else { b };
                    (c, s.moved || s.pressed || s.released)
                }
            },
        }
    }

    pub open spec fn spec_widget_state(ui: Ui<P, W>, id: usize) -> WidgetState {
        WidgetState {
            hovered: ui.hovered == Some(id),
            pressed: ui.pressed == Some(id),
            captured: ui.captured == Some(id),
        }
    }

    /// The widget that decides the cursor: the hovered one, else the
    /// pressed one, else the captured one.
    pub open spec fn active(ui: Ui<P, W>) -> Option<usize> {
        if ui.hovered is Some {
            ui.hovered
        } else if ui.pressed is Some {
            ui.pressed
        } else {
            ui.captured
        }
    }

    pub open spec fn spec_cursor(ui: Ui<P, W>) -> CursorIcon {
        match Self::active(ui) {
            Some(id) => match ui.widgets[id as int].spec_cursor_icon(Self::spec_widget_state(ui, id)) {
                Some(c) => c,
                None => CursorIcon::Default,
            },
            None => CursorIcon::Default,
        }
    }

    pub fn new() -> (r: Self)
        ensures
            r.wf(),
            r.ui().widgets.len() == 0,
            r.ui().hovered is None,
            r.ui().pressed is None,
            r.ui().captured is None,
            r.is_first_frame(),
    {
        GuiContext {
            widgets: Vec::new(),
            hovered: None,
            pressed: None,
            captured: None,
            first_frame: true,
            marker: PhantomData,
        }
    }

    /// Tells whether this is the first frame; every later call says no.
    pub fn first_frame(&mut self) -> (r: bool)
        ensures
            r == old(self).is_first_frame(),
            !final(self).is_first_frame(),
            final(self).ui() == old(self).ui(),
    {
        let res = self.first_frame;
        self.first_frame = false;
        res
    }

    /// Appends a widget and returns its index.
    pub fn add(&mut self, widget: W) -> (r: usize)
        requires
            old(self).wf(),
            widget.inv(),
        ensures
            final(self).wf(),
            r == old(self).ui().widgets.len(),
            final(self).ui() == (Ui { widgets: old(self).ui().widgets.push(widget), ..old(self).ui() }),
            final(self).is_first_frame() == old(self).is_first_frame(),
    {
        let id = self.widgets.len();
        self.widgets.push(widget);
        id
    }

    pub fn len(&self) -> (r: usize)
        ensures
            r == self.ui().widgets.len(),
    {
        self.widgets.len()
    }

    pub fn widget(&self, id: usize) -> (r: &W)
        requires
            id < self.ui().widgets.len(),
        ensures
            *r == self.ui().widgets[id as int],
    {
        &self.widgets[id]
    }


    /// The cursor that the active widget asks for, or the default one.
    pub fn cursor_icon(&self) -> (r: CursorIcon)
        requires
            self.wf(),
        ensures
            r == Self::spec_cursor(self.ui()),
    {
        let active = if self.hovered.is_some() {
            self.hovered
        } else if self.pressed.is_some() {
            self.pressed
        } else {
            self.captured
        };
        match active {
            Some(id) => match self.widgets[id].cursor_icon(self.widget_state(id)) {
                Some(c) => c,
                None => CursorIcon::Default,
            },
            None => CursorIcon::Default,
        }
    }

    /// Widget `id` handles `hook`; its message, if any, is appended to `events`.
    fn deliver_hook(
        &mut self,
        id: usize,
        hook: Hook<P>,
        events: &mut Vec<M>,
        Ghost(ui): Ghost<Ui<P, W>>,
        Ghost(base): Ghost<Seq<M>>,
    )
        requires
            id < old(self).ui().widgets.len(),
            !(hook is FollowPointer),
            old(self).holds(ui),
            reported(ui.log, base, old(events)@),
            Self::widgets_valid(old(self).ui().widgets),
        ensures
            final(self).holds(Self::deliver(ui, id, hook)),
            Self::widgets_valid(final(self).ui().widgets),
            reported(Self::deliver(ui, id, hook).log, base, final(events)@),
            final(self).first_frame == old(self).first_frame,
    {
        let ghost w = self.widgets@[id as int];
        let ev = match hook {
            Hook::Hover(p) => self.widgets[id].on_hover(p),
            Hook::Unhover => self.widgets[id].on_unhover(),
            Hook::PointerMove(d, p) => self.widgets[id].on_pointer_move(d, p),
            Hook::Click(p) => self.widgets[id].on_click(p),
            Hook::Release(p, inside) => self.widgets[id].on_release(p, inside),
            Hook::Drag(d, p) => self.widgets[id].on_drag(d, p),
            Hook::FollowPointer(_) => None,
        };
        let ghost before = events@;
        if let Some(m) = ev {
            events.push(m);
            proof {
                let post = Self::deliver(ui, id, hook);
                assert(post.log == ui.log.push((w, hook)));
                assert forall|j: int| 0 <= j < post.log.len() implies #[trigger] post.log[j].0.spec_message(
                    post.log[j].1,
                    events@[base.len() + j],
                ) by {
                    if j < ui.log.len() {
                        assert(ui.log[j] == post.log[j]);
                        assert(events@[base.len() + j] == before[base.len() + j]);
                    }
                }
                assert(events@.subrange(0, base.len() as int) =~= base) by {
                    assert(before.subrange(0, base.len() as int) =~= base);
                }
            }
        }
    }

    /// The first widget under the pointer, if any, becomes hovered.
    fn try_hover(
        &mut self,
        events: &mut Vec<M>,
        state: MouseState<P>,
        Ghost(ui): Ghost<Ui<P, W>>,
        Ghost(base): Ghost<Seq<M>>,
    )
        requires
            old(self).holds(ui),
            reported(ui.log, base, old(events)@),
            Self::widgets_valid(old(self).ui().widgets),
        ensures
            final(self).holds(Self::hover_first_hit(ui, state.pos)),
            Self::widgets_valid(final(self).ui().widgets),
            reported(Self::hover_first_hit(ui, state.pos).log, base, final(events)@),
            final(self).first_frame == old(self).first_frame,
    {
        let n = self.widgets.len();
        let mut i: usize = 0;
        while i < n
            invariant
                n == self.widgets@.len(),
                0 <= i <= n,
                self.holds(ui),
                *self == *old(self),
                *events == *old(events),
                reported(ui.log, base, events@),
                Self::widgets_valid(self.ui().widgets),
                forall|j: int| 0 <= j < i ==> !#[trigger] ui.widgets[j].spec_hit(state.pos),
            decreases n - i,
        {
            if self.widgets[i].hit(state.pos) {
                assert(Self::is_first_hit(ui.widgets, state.pos, i as int));
                let ghost k = choose|k: int| Self::is_first_hit(ui.widgets, state.pos, k);
                assert(k == i) by {
                    if k < i {
                    } else if k > i {
                        assert(!ui.widgets[i as int].spec_hit(state.pos));
                    }
                }
                self.hovered = Some(i);
                let ghost hui = Ui { hovered: Some(i), ..ui };
                self.deliver_hook(i, Hook::Hover(state.pos), events, Ghost(hui), Ghost(base));
                return;
            }
            i += 1;
        }
        assert(!exists|k: int| Self::is_first_hit(ui.widgets, state.pos, k));
    }

    /// Input while widget `widget_id` is captured.
    fn update_captured(
        &mut self,
        widget_id: usize,
        state: MouseState<P>,
        events: &mut Vec<M>,
        Ghost(ui): Ghost<Ui<P, W>>,
        Ghost(base): Ghost<Seq<M>>,
    )
        requires
            widget_id < old(self).ui().widgets.len(),
            old(self).holds(ui),
            reported(ui.log, base, old(events)@),
            Self::widgets_valid(old(self).ui().widgets),
        ensures
            final(self).holds(Self::captured_step(ui, widget_id, state)),
            Self::widgets_valid(final(self).ui().widgets),
            reported(Self::captured_step(ui, widget_id, state).log, base, final(events)@),
            final(self).first_frame == old(self).first_frame,
    {
        let ghost mut cur = ui;
        if state.released {
            self.deliver_hook(widget_id, Hook::Release(state.pos, true), events, Ghost(cur), Ghost(base));
            proof {
                cur = Self::deliver(cur, widget_id, Hook::Release(state.pos, true));
            }
            self.captured = None;
            proof {
                cur = Ui { captured: None, ..cur };
            }
            self.try_hover(events, state, Ghost(cur), Ghost(base));
            proof {
                cur = Self::hover_first_hit(cur, state.pos);
            }
        }
        if state.moved {
            self.deliver_hook(widget_id, Hook::Drag(state.delta, state.pos), events, Ghost(cur), Ghost(base));
        }
    }

    /// Handles one frame of pointer input, appending the widgets' messages
    /// to `events` in the order they were sent. Returns whether anything
    /// happened.
    pub fn process_mouse(&mut self, state: MouseState<P>, events: &mut Vec<M>) -> (r: bool)
        requires
            old(self).wf(),
        ensures
            final(self).wf(),
            final(self).holds(Self::frame_step(Self::fresh(old(self).ui()), state).0),
            reported(Self::frame_step(Self::fresh(old(self).ui()), state).0.log, old(events)@, final(events)@),
            r == Self::frame_step(Self::fresh(old(self).ui()), state).1,
            final(self).is_first_frame() == old(self).is_first_frame(),
    {
        let ghost base = events@;
        let ghost ui0 = self.ui();
        assert(Self::fresh(ui0) == ui0);
        proof {
            assert(events@.subrange(0, base.len() as int) =~= base);
        }
        if let Some(widget_id) = self.captured {
            self.update_captured(widget_id, state, events, Ghost(ui0), Ghost(base));
            proof { Self::lemma_captured_step_wf(ui0, widget_id, state); }
            return true;
        }
        let mut was_action = false;
        let ghost mut cur = ui0;
        if state.moved {
            if let Some(widget_id) = self.hovered {
                if !self.widgets[widget_id].hit(state.pos) {
                    self.deliver_hook(widget_id, Hook::Unhover, events, Ghost(cur), Ghost(base));
                    proof {
                        cur = Self::deliver(cur, widget_id, Hook::Unhover);
                    }
                    self.hovered = None;
                    proof {
                        cur = Ui { hovered: None, ..cur };
                    }
                } else {
                    self.deliver_hook(widget_id, Hook::PointerMove(state.delta, state.pos), events, Ghost(cur), Ghost(base));
                    proof {
                        cur = Self::deliver(cur, widget_id, Hook::PointerMove(state.delta, state.pos));
                    }
                }
            }
            if self.hovered.is_none() {
                self.try_hover(events, state, Ghost(cur), Ghost(base));
                proof {
                    cur = Self::hover_first_hit(cur, state.pos);
                }
            }
            was_action = true;
        }
        assert(cur == (if state.moved { Self::move_step(ui0, state) } else { ui0 }));
        if state.pressed {
            was_action = true;
            if let Some(widget_id) = self.hovered {
                if self.widgets[widget_id].follow_pointer(state.pos) {
                    proof {
                        let w = cur.widgets[widget_id as int];
                        cur = Ui {
                            widgets: cur.widgets.update(widget_id as int, w.spec_after(Hook::FollowPointer(state.pos))),
                            ..cur
                        };
                    }
                    self.captured = Some(widget_id);
                    proof {
                        cur = Ui { captured: Some(widget_id), ..cur };
                    }
                    self.deliver_hook(widget_id, Hook::Unhover, events, Ghost(cur), Ghost(base));
                    proof {
                        cur = Self::deliver(cur, widget_id, Hook::Unhover);
                    }
                    self.hovered = None;
                    proof {
                        cur = Ui { hovered: None, ..cur };
                        Self::lemma_frame_step_wf(ui0, state);
                    }
                    return true;
                }
                proof {
                    let w = cur.widgets[widget_id as int];
                    cur = Ui {
                        widgets: cur.widgets.update(widget_id as int, w.spec_after(Hook::FollowPointer(state.pos))),
                        ..cur
                    };
                }
                self.pressed = Some(widget_id);
                proof {
                    cur = Ui { pressed: Some(widget_id), ..cur };
                }
                self.deliver_hook(widget_id, Hook::Click(state.pos), events, Ghost(cur), Ghost(base));
                proof {
                    cur = Self::deliver(cur, widget_id, Hook::Click(state.pos));
                }
            }
        }
        if state.released {
            if let Some(pressed_id) = self.pressed {
                let inside = self.hovered == Some(pressed_id);
                self.deliver_hook(pressed_id, Hook::Release(state.pos, inside), events, Ghost(cur), Ghost(base));
                proof {
                    cur = Self::deliver(cur, pressed_id, Hook::Release(state.pos, inside));
                }
            }
            self.pressed = None;
            proof {
                cur = Ui { pressed: None, ..cur };
            }
            was_action = true;
        }
        proof { Self::lemma_frame_step_wf(ui0, state); }
        was_action
    }

    /// `hover_first_hit` keeps the roles well formed when nothing is captured.
    pub(crate) proof fn lemma_hover_first_hit_wf(ui: Ui<P, W>, p: P)
        requires
            Self::ui_wf(ui),
            ui.captured is None,
        ensures
            Self::ui_wf(Self::hover_first_hit(ui, p)),
            Self::hover_first_hit(ui, p).widgets.len() == ui.widgets.len(),
    {
    }

    pub(crate) proof fn lemma_captured_step_wf(ui: Ui<P, W>, id: usize, s: MouseState<P>)
        requires
            Self::ui_wf(ui),
            ui.captured == Some(id),
        ensures
            Self::ui_wf(Self::captured_step(ui, id, s)),
    {
        if s.released {
            let r = Self::deliver(ui, id, Hook::Release(s.pos, true));
            Self::lemma_hover_first_hit_wf(Ui { captured: None, ..r }, s.pos);
        }
    }

    pub(crate) proof fn lemma_frame_step_wf(ui: Ui<P, W>, s: MouseState<P>)
        requires
            Self::ui_wf(ui),
        ensures
            Self::ui_wf(Self::frame_step(ui, s).0),
    {
        match ui.captured {
            Some(id) => Self::lemma_captured_step_wf(ui, id, s),
            None => {
                if s.moved {
                    let left = match ui.hovered {
                        Some(id) => if !ui.widgets[id as int].spec_hit(s.pos) {
                            Ui { hovered: None, ..Self::deliver(ui, id, Hook::Unhover) }
                        } else {
                            Self::deliver(ui, id, Hook::PointerMove(s.delta, s.pos))
                        },
                        None => ui,
                    };
                    if left.hovered is None {
                        Self::lemma_hover_first_hit_wf(left, s.pos);
                    }
                }
            },
        }
    }

    /// Lends widget `id` for changes; the roles stay as they were.
    pub fn widget_mut(&mut self, id: usize) -> (r: &mut W)
        requires
            id < old(self).ui().widgets.len(),
        ensures
            *r == old(self).ui().widgets[id as int],
            final(self).ui() == (Ui { widgets: old(self).ui().widgets.update(id as int, *final(r)), ..old(self).ui() }),
            final(self).is_first_frame() == old(self).is_first_frame(),
    {
        &mut self.widgets[id]
    }

    pub fn widget_state(&self, id: usize) -> (r: WidgetState)
        ensures
            r == Self::spec_widget_state(self.ui(), id),
    {
        WidgetState {
            hovered: self.hovered == Some(id),
            pressed: self.pressed == Some(id),
            captured: self.captured == Some(id),
        }
    }
}

} // verus!
