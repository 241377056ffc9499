use vstd::prelude::*;

verus! {

/// How a widget currently relates to the pointer, as the context sees it.
#[derive(Clone, Copy, Debug)]
pub struct WidgetState {
    pub hovered: bool,
    pub pressed: bool,
    pub captured: bool,
}

/// The mouse cursors a widget may ask for.
#[derive(Clone, Copy, Debug, PartialEq, Eq)]
pub enum CursorIcon {
    Default,
    Arrow,
    IBeam,
    Crosshair,
    PointingHand,
    ResizeEw,
    ResizeNs,
    ResizeAll,
    NotAllowed,
}

/// A pointer event delivered to a widget, with its arguments.
///
/// `Release(pos, inside)` tells whether the pointer is still over the widget;
/// `PointerMove(delta, pos)` and `Drag(delta, pos)` carry the motion and the
/// new position.
pub enum Hook<P> {
    Hover(P),
    Unhover,
    PointerMove(P, P),
    Click(P),
    Release(P, bool),
    FollowPointer(P),
    Drag(P, P),
}

/// An interactive element managed by a `GuiContext`.
///
/// Implementations describe themselves by overriding the spec functions.
/// The default bodies only let implementations written outside Verus, which
/// cannot write spec functions, compile: one that keeps a default is
/// described by an unknown constant (and `inv` by `true`). Four of them describe the pointer behaviour:
/// which positions the widget covers (`spec_hit`), what it becomes after
/// handling a hook (`spec_after`), whether it answers the hook
/// (`spec_replies`: a message for the message hooks, `true` for
/// `follow_pointer`), and which messages it may answer with
/// (`spec_message`).
pub trait Widget<M, P>: Sized {
    /// What the widget keeps true between hooks; nothing by default.
    open spec fn inv(&self) -> bool {
        true
    }

    open spec fn spec_hit(&self, p: P) -> bool {
        arbitrary()
    }

    open spec fn spec_after(&self, hook: Hook<P>) -> Self {
        arbitrary()
    }

    open spec fn spec_replies(&self, hook: Hook<P>) -> bool {
        arbitrary()
    }

    open spec fn spec_message(&self, hook: Hook<P>, m: M) -> bool {
        arbitrary()
    }

    open spec fn spec_cursor_icon(&self, state: WidgetState) -> Option<CursorIcon> {
        arbitrary()
    }

    fn hit(&self, p: P) -> (r: bool)
        ensures
            r == self.spec_hit(p),
    ;

    fn on_hover(&mut self, p: P) -> (r: Option<M>)
        requires
            old(self).inv(),
        ensures
            final(self).inv(),
            *final(self) == old(self).spec_after(Hook::Hover(p)),
            r.is_some() == old(self).spec_replies(Hook::Hover(p)),
            r matches Some(m) ==> old(self).spec_message(Hook::Hover(p), m),
    ;

    fn on_unhover(&mut self) -> (r: Option<M>)
        requires
            old(self).inv(),
        ensures
            final(self).inv(),
            *final(self) == old(self).spec_after(Hook::Unhover),
            r.is_some() == old(self).spec_replies(Hook::Unhover),
            r matches Some(m) ==> old(self).spec_message(Hook::Unhover, m),
    ;

    fn on_pointer_move(&mut self, delta: P, p: P) -> (r: Option<M>)
        requires
            old(self).inv(),
        ensures
            final(self).inv(),
            *final(self) == old(self).spec_after(Hook::PointerMove(delta, p)),
            r.is_some() == old(self).spec_replies(Hook::PointerMove(delta, p)),
            r matches Some(m) ==> old(self).spec_message(Hook::PointerMove(delta, p), m),
    ;

    fn on_click(&mut self, p: P) -> (r: Option<M>)
        requires
            old(self).inv(),
        ensures
            final(self).inv(),
            *final(self) == old(self).spec_after(Hook::Click(p)),
            r.is_some() == old(self).spec_replies(Hook::Click(p)),
            r matches Some(m) ==> old(self).spec_message(Hook::Click(p), m),
    ;

    fn on_release(&mut self, p: P, inside: bool) -> (r: Option<M>)
        requires
            old(self).inv(),
        ensures
            final(self).inv(),
            *final(self) == old(self).spec_after(Hook::Release(p, inside)),
            r.is_some() == old(self).spec_replies(Hook::Release(p, inside)),
            r matches Some(m) ==> old(self).spec_message(Hook::Release(p, inside), m),
    ;

    fn follow_pointer(&mut self, p: P) -> (r: bool)
        requires
            old(self).inv(),
        ensures
            final(self).inv(),
            *final(self) == old(self).spec_after(Hook::FollowPointer(p)),
            r == old(self).spec_replies(Hook::FollowPointer(p)),
    ;

    fn on_drag(&mut self, delta: P, p: P) -> (r: Option<M>)
        requires
            old(self).inv(),
        ensures
            final(self).inv(),
            *final(self) == old(self).spec_after(Hook::Drag(delta, p)),
            r.is_some() == old(self).spec_replies(Hook::Drag(delta, p)),
            r matches Some(m) ==> old(self).spec_message(Hook::Drag(delta, p), m),
    ;

    fn cursor_icon(&self, state: WidgetState) -> (r: Option<CursorIcon>)
        ensures
            r == self.spec_cursor_icon(state),
    ;
}

} // verus!
