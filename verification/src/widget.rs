//! The widget's state between realize and unrealize, and the routing of
//! input callbacks into its event queue.

use vstd::prelude::*;
use crate::encode::{key_char, keyval_char};
use crate::event::{events_view, Event, EventView};
use crate::text::{drop_text, dropped, strings_view, text_view};

verus! {

/// What exists while the widget has a live GL context. The embedder keeps the
/// terminal, the display and the PTY beside it; the library keeps the queue.
#[derive(Debug)]
pub struct State {
    /// Events deposited since the last render tick, oldest first.
    pub event_queue: Vec<Event>,
}

/// What a callback tells the toolkit when it returns.
#[derive(Debug, Clone, Copy, PartialEq, Eq, Structural)]
pub struct Reply {
    /// The event is consumed: default handling must not go on.
    pub inhibit: bool,
    /// A redraw of the widget is to be queued.
    pub redraw: bool,
}

/// The widget as the callbacks see it: its state, present exactly between
/// realize and unrealize, and the slot through which the I/O worker's
/// wakeups reach it.
#[derive(Debug)]
pub struct Widget {
    /// Present between realize and unrealize, absent otherwise.
    pub state: Option<State>,
    /// Whether the wakeup slot holds this widget.
    pub active: bool,
}

/// The mathematical value of a [`Widget`]: what is pending, where the state
/// is present, and whether the wakeup slot holds the widget.
pub struct WidgetView {
    pub queue: Option<Seq<EventView>>,
    pub slot: bool,
}

/// Everything that can happen to a widget, as the toolkit, the input method
/// and the I/O worker deliver it.
pub enum Signal {
    /// The GL context exists and the collaborators are built.
    Realize,
    /// The GL context goes away.
    Unrealize,
    /// A key press: the input method's answer, the key value and the key
    /// value's code point where it has one.
    KeyPress(bool, u32, Option<char>),
    /// A key release, with the input method's answer.
    KeyRelease(bool),
    /// Text committed by the input method.
    Commit(Seq<char>),
    /// A new width and height of the drawing area.
    Resize(u32, u32),
    /// A new scale factor.
    ScaleFactor,
    /// Keyboard focus gained (`true`) or lost.
    Focus(bool),
    /// A drop: its URIs and, where it carries any, its text.
    Drop(Seq<Seq<char>>, Option<Seq<char>>),
    /// An event that the embedder injects.
    Inject(EventView),
    /// The paint callback: the queue is drained.
    Frame,
    /// The task that a wakeup from the I/O worker scheduled.
    Wakeup,
}

/// The queue after `event` was offered to it: appended where there is a
/// queue, dropped where there is none.
pub open spec fn enqueued(queue: Option<Seq<EventView>>, event: EventView) -> Option<
    Seq<EventView>,
> {
    match queue {
        Some(q) => Some(q.push(event)),
        None => None,
    }
}

/// The widget after `event` was offered to its queue.
pub open spec fn offered(w: WidgetView, event: EventView) -> WidgetView {
    WidgetView { queue: enqueued(w.queue, event), slot: w.slot }
}

/// The widget after `signal`: realize publishes an empty queue and fills the
/// slot, unrealize drops the queue and empties the slot, a frame drains the
/// queue, and an input callback offers at most one event to the queue.
pub open spec fn after(w: WidgetView, signal: Signal) -> WidgetView {
    match signal {
        Signal::Realize => WidgetView { queue: Some(Seq::empty()), slot: true },
        Signal::Unrealize => WidgetView { queue: None, slot: false },
        Signal::KeyPress(consumed, keyval, unicode) => if consumed {
            w
        } else {
            offered(w, EventView::CharInput(key_char(keyval, unicode)))
        },
        Signal::KeyRelease(_) => w,
        Signal::Commit(text) => offered(w, EventView::StrInput(text)),
        Signal::Resize(width, height) => offered(w, EventView::WindowResized(width, height)),
        Signal::ScaleFactor => w,
        Signal::Focus(_) => w,
        Signal::Drop(uris, text) => match dropped(uris, text) {
            Some(line) => offered(w, EventView::StrInput(line)),
            None => w,
        },
        Signal::Inject(event) => offered(w, event),
        Signal::Frame => WidgetView {
            queue: match w.queue {
                Some(_) => Some(Seq::empty()),
                None => None,
            },
            slot: w.slot,
        },
        Signal::Wakeup => w,
    }
}

/// What the callback for `signal` answers: whether the event is consumed
/// and whether a redraw is asked for.
pub open spec fn reply_to(signal: Signal) -> Reply {
    match signal {
        Signal::KeyPress(consumed, _, _) => Reply { inhibit: consumed, redraw: !consumed },
        Signal::KeyRelease(_) => Reply { inhibit: true, redraw: false },
        Signal::Commit(_) => Reply { inhibit: false, redraw: true },
        Signal::Resize(_, _) => Reply { inhibit: false, redraw: true },
        Signal::ScaleFactor => Reply { inhibit: false, redraw: true },
        _ => Reply { inhibit: false, redraw: false },
    }
}

impl View for Widget {
    type V = WidgetView;

    open spec fn view(&self) -> WidgetView {
        WidgetView { queue: self.queue(), slot: self.active }
    }
}

impl State {
    /// The pending events, oldest first.
    pub open spec fn pending(&self) -> Seq<EventView> {
        events_view(self.event_queue@)
    }

    /// A state with nothing pending.
    pub fn new() -> (state: State)
        ensures
            state.pending() == Seq::<EventView>::empty(),
    {
        let state = State { event_queue: Vec::new() };
        assert(state.pending() =~= Seq::<EventView>::empty());
        state
    }

    /// Appends `event` behind everything that is pending.
    pub fn push(&mut self, event: Event)
        ensures
            final(self).pending() == old(self).pending().push(event@),
    {
        self.event_queue.push(event);
        assert(self.pending() =~= old(self).pending().push(event@));
    }
}

impl Widget {
    /// The pending events where the state is present.
    pub open spec fn queue(&self) -> Option<Seq<EventView>> {
        match self.state {
            Some(state) => Some(state.pending()),
            None => None,
        }
    }

    /// A widget that is not realized yet. The wakeup slot already holds it,
    /// so a wakeup that comes early is harmless.
    pub fn new() -> (widget: Widget)
        ensures
            widget@ == (WidgetView { queue: None, slot: true }),
    {
        Widget { state: None, active: true }
    }

    /// Whether the state is present.
    pub fn is_realized(&self) -> (present: bool)
        ensures
            present == (self@.queue is Some),
    {
        self.state.is_some()
    }

    /// Publishes a complete state with an empty queue. To be called once the
    /// embedder has built every collaborator; until then nothing is visible.
    pub fn realize(&mut self)
        ensures
            final(self)@ == after(old(self)@, Signal::Realize),
    {
        self.state = Some(State::new());
        self.active = true;
    }

    /// Drops the state with whatever was pending and empties the wakeup slot.
    pub fn unrealize(&mut self)
        ensures
            final(self)@ == after(old(self)@, Signal::Unrealize),
    {
        self.state = None;
        self.active = false;
    }

    /// Runs the task that a wakeup from the I/O worker scheduled: a redraw is
    /// due exactly if the slot holds the widget.
    pub fn wakeup(&self) -> (redraw: bool)
        ensures
            redraw == self@.slot,
    {
        self.active
    }

    /// Offers `event` to the queue; without a state the event is dropped.
    pub fn enqueue(&mut self, event: Event)
        ensures
            final(self)@ == after(old(self)@, Signal::Inject(event@)),
    {
        match &mut self.state {
            Some(state) => {
                state.push(event);
            },
            None => {},
        }
    }

    /// A key was pressed. `im_consumed` is the input method's answer to the
    /// event, `unicode` the code point of `keyval` where it has one.
    /// A key that the input method took leaves no trace; any other becomes
    /// one character of input and asks for a redraw.
    pub fn key_press(&mut self, im_consumed: bool, keyval: u32, unicode: Option<char>) -> (reply:
        Reply)
        ensures
            final(self)@ == after(old(self)@, Signal::KeyPress(im_consumed, keyval, unicode)),
            reply == reply_to(Signal::KeyPress(im_consumed, keyval, unicode)),
            im_consumed ==> *final(self) == *old(self),
    {
        if im_consumed {
            return Reply { inhibit: true, redraw: false };
        }
        self.enqueue(Event::CharInput(keyval_char(keyval, unicode)));
        Reply { inhibit: false, redraw: true }
    }

    /// A key was released. Whatever the input method answered, the event is
    /// consumed and nothing is enqueued.
    pub fn key_release(&mut self, im_consumed: bool) -> (reply: Reply)
        ensures
            *final(self) == *old(self),
            reply == reply_to(Signal::KeyRelease(im_consumed)),
    {
        Reply { inhibit: true, redraw: false }
    }

    /// The input method committed `text`.
    pub fn im_commit(&mut self, text: &str) -> (reply: Reply)
        ensures
            final(self)@ == after(old(self)@, Signal::Commit(text@)),
            reply == reply_to(Signal::Commit(text@)),
    {
        self.enqueue(Event::StrInput(text.to_owned()));
        Reply { inhibit: false, redraw: true }
    }

    /// The drawing area was resized to `width` by `height` pixels.
    pub fn resize(&mut self, width: u32, height: u32) -> (reply: Reply)
        ensures
            final(self)@ == after(old(self)@, Signal::Resize(width, height)),
            reply == reply_to(Signal::Resize(width, height)),
    {
        self.enqueue(Event::WindowResized(width, height));
        Reply { inhibit: false, redraw: true }
    }

    /// The scale factor changed. Nothing is enqueued; a redraw is asked for.
    pub fn scale_factor_changed(&mut self) -> (reply: Reply)
        ensures
            *final(self) == *old(self),
            reply == reply_to(Signal::ScaleFactor),
    {
        Reply { inhibit: false, redraw: true }
    }

    /// The widget gained or lost the keyboard focus. The embedder tells the
    /// input method; the terminal gets no input from it.
    pub fn focus_changed(&mut self, focused: bool) -> (reply: Reply)
        ensures
            *final(self) == *old(self),
            reply == reply_to(Signal::Focus(focused)),
    {
        Reply { inhibit: false, redraw: false }
    }

    /// Data was dropped on the widget: `uris` as the drop lists them, `text`
    /// where the drop carries text. At most one event is enqueued and no
    /// redraw is asked for.
    pub fn drag_data_received(&mut self, uris: &Vec<String>, text: Option<&str>) -> (reply: Reply)
        ensures
            final(self)@ == after(old(self)@, Signal::Drop(strings_view(uris@), text_view(text))),
            reply == reply_to(Signal::Drop(strings_view(uris@), text_view(text))),
    {
        match drop_text(uris, text) {
            Some(line) => {
                self.enqueue(Event::StrInput(line));
            },
            None => {},
        }
        Reply { inhibit: false, redraw: false }
    }
}

} // verus!
