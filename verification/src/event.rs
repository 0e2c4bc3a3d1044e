//! User events awaiting the next render tick.

use vstd::prelude::*;

verus! {

/// One pending user event. Events are applied in the order they were enqueued.
#[derive(Debug, Clone, PartialEq, Eq)]
pub enum Event {
    /// A single character typed on the keyboard.
    CharInput(char),
    /// Text committed by the input method or dropped on the widget.
    StrInput(String),
    /// The drawing area now has this width and height, in pixels.
    WindowResized(u32, u32),
    /// Grow or shrink the font by this many steps.
    ChangeFontSize(i8),
    /// Return to the configured font size.
    ResetFontSize,
}

/// The mathematical value of an [`Event`].
pub enum EventView {
    CharInput(char),
    StrInput(Seq<char>),
    WindowResized(u32, u32),
    ChangeFontSize(i8),
    ResetFontSize,
}

impl View for Event {
    type V = EventView;

    open spec fn view(&self) -> EventView {
        match *self {
            Event::CharInput(c) => EventView::CharInput(c),
            Event::StrInput(s) => EventView::StrInput(s@),
            Event::WindowResized(w, h) => EventView::WindowResized(w, h),
            Event::ChangeFontSize(delta) => EventView::ChangeFontSize(delta),
            Event::ResetFontSize => EventView::ResetFontSize,
        }
    }
}

/// The values of a sequence of events, in the same order.
pub open spec fn events_view(events: Seq<Event>) -> Seq<EventView> {
    Seq::new(events.len(), |i: int| events[i]@)
}

} // verus!
