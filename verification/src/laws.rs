//! Laws of the widget's life, of the queue, of the commands of a frame and of
//! the text of a drop.

use vstd::prelude::*;
use vstd::utf8::encode_utf8;
use crate::encode::{char_bytes, utf8_len};
use crate::event::EventView;
use crate::frame::{
    closing, command_of, commands_of, frame_commands, size_after, CommandView, StepView,
};
use crate::text::{dropped, joined, uri_path, uri_paths};
use crate::widget::{after, enqueued, reply_to, Signal, WidgetView};

verus! {

/// The widget after each of `signals` in turn.
pub open spec fn after_all(w: WidgetView, signals: Seq<Signal>) -> WidgetView
    decreases signals.len(),
{
    if signals.len() == 0 {
        w
    } else {
        after(after_all(w, signals.drop_last()), signals.last())
    }
}

/// A widget between unrealize and the next realize: no state, and nothing in
/// the wakeup slot.
pub open spec fn torn_down(w: WidgetView) -> bool {
    w.queue is None && !w.slot
}

/// The state is present exactly from a realize to the next unrealize, and a
/// realize publishes it whole: with its queue, which is empty.
pub proof fn law_present_between_realize_and_unrealize(w: WidgetView, signal: Signal)
    ensures
        after(w, signal).queue is Some <==> (signal is Realize) || (w.queue is Some
            && !(signal is Unrealize)),
        after(w, Signal::Realize).queue == Some(Seq::<EventView>::empty()),
        torn_down(after(w, Signal::Unrealize)),
        after(after(w, Signal::Realize), Signal::Unrealize) == after(w, Signal::Unrealize),
{
    match signal {
        Signal::Drop(uris, text) => {
            match dropped(uris, text) {
                Some(line) => {},
                None => {},
            }
        },
        _ => {},
    }
}

/// After unrealize, and until the next realize, whatever else happens: the
/// state stays absent, no frame has a command (so nothing is written to the
/// PTY), and no wakeup from the I/O worker leads to a redraw.
pub proof fn law_quiet_after_unrealize(w: WidgetView, signals: Seq<Signal>)
    requires
        forall|i: int| 0 <= i < signals.len() ==> !(#[trigger] signals[i] is Realize),
    ensures
        torn_down(after_all(after(w, Signal::Unrealize), signals)),
        frame_commands(after_all(after(w, Signal::Unrealize), signals)) is None,
    decreases signals.len(),
{
    if signals.len() > 0 {
        let before = signals.drop_last();
        assert forall|i: int| 0 <= i < before.len() implies !(#[trigger] before[i] is Realize) by {
            assert(before[i] == signals[i]);
        }
        law_quiet_after_unrealize(w, before);
        let reached = after_all(after(w, Signal::Unrealize), before);
        assert(!(signals.last() is Realize));
        law_present_between_realize_and_unrealize(reached, signals.last());
        match signals.last() {
            Signal::Drop(uris, text) => {
                match dropped(uris, text) {
                    Some(line) => {},
                    None => {},
                }
            },
            _ => {},
        }
    }
}

/// A key that the input method consumed, a key release, a change of focus
/// and a change of the scale factor leave the widget as it was. Of these
/// only the change of the scale factor asks for a redraw, and it always does.
pub proof fn law_silent_signals(w: WidgetView, keyval: u32, unicode: Option<char>, flag: bool)
    ensures
        after(w, Signal::KeyPress(true, keyval, unicode)) == w,
        after(w, Signal::KeyRelease(flag)) == w,
        after(w, Signal::Focus(flag)) == w,
        after(w, Signal::ScaleFactor) == w,
        reply_to(Signal::ScaleFactor).redraw,
        !reply_to(Signal::KeyPress(true, keyval, unicode)).redraw,
        !reply_to(Signal::KeyRelease(flag)).redraw,
        !reply_to(Signal::Focus(flag)).redraw,
{
}

/// A drop enqueues at most one event, behind what was pending, and none
/// where the state is absent.
pub proof fn law_one_event_per_drop(
    w: WidgetView,
    uris: Seq<Seq<char>>,
    text: Option<Seq<char>>,
)
    ensures
        w.queue is None ==> after(w, Signal::Drop(uris, text)).queue is None,
        w.queue is Some ==> {
            let before = w.queue->0;
            let behind = after(w, Signal::Drop(uris, text)).queue;
            &&& behind is Some
            &&& before.len() <= behind->0.len() <= before.len() + 1
            &&& behind->0.take(before.len() as int) == before
            &&& behind->0.len() == before.len() + 1 ==> behind->0.last() is StrInput
        },
{
    if w.queue is Some {
        let before = w.queue->0;
        let behind = after(w, Signal::Drop(uris, text)).queue;
        match dropped(uris, text) {
            Some(line) => {
                assert(behind->0 == before.push(EventView::StrInput(line)));
                assert(behind->0.take(before.len() as int) =~= before);
            },
            None => {
                assert(behind->0.take(before.len() as int) =~= before);
            },
        }
    }
}

/// Events are applied in the order of their deposit: the commands of a queue
/// that got `first` and then `second` are the commands of the queue as it
/// was, then the command of `first`, then the command of `second`.
pub proof fn law_order_kept(queue: Seq<EventView>, first: EventView, second: EventView)
    ensures
        commands_of(queue.push(first).push(second)) == commands_of(queue).push(
            command_of(first),
        ).push(command_of(second)),
        forall|i: int|
            0 <= i < queue.len() ==> #[trigger] commands_of(queue)[i] == command_of(queue[i]),
{
    assert(commands_of(queue.push(first).push(second)) =~= commands_of(queue).push(
        command_of(first),
    ).push(command_of(second)));
}

/// A typed character reaches the PTY as its UTF-8 encoding, the same bytes
/// that the one-character string has, and in exactly as many bytes as the
/// encoding is long.
pub proof fn law_char_write(c: char)
    ensures
        command_of(EventView::CharInput(c)) == CommandView::Write(char_bytes(c)),
        char_bytes(c) == encode_utf8(seq![c]),
        char_bytes(c).len() == utf8_len(c),
{
    let one = seq![c];
    assert(one.drop_first() =~= Seq::<char>::empty());
    assert(encode_utf8(one.drop_first()) =~= Seq::<u8>::empty());
    assert(encode_utf8(one) =~= char_bytes(c));
}

/// An event offered while the state is absent is dropped, not buffered.
pub proof fn law_absent_state_drops(event: EventView)
    ensures
        enqueued(None, event) is None,
{
}

/// A frame over an empty queue with nothing to draw and no new title has no
/// command and no step: it leaves the terminal as it was.
pub proof fn law_idle_frame()
    ensures
        commands_of(Seq::<EventView>::empty()) == Seq::<CommandView>::empty(),
        closing(None, false) == Seq::<StepView>::empty(),
{
    assert(commands_of(Seq::<EventView>::empty()) =~= Seq::<CommandView>::empty());
}

/// Two successive resizes to the same dimensions leave the display with the
/// same size as one.
pub proof fn law_repeated_resize(queue: Seq<EventView>, w: u32, h: u32, current: (u32, u32))
    ensures
        size_after(
            commands_of(
                queue.push(EventView::WindowResized(w, h)).push(EventView::WindowResized(w, h)),
            ),
            current,
        ) == size_after(commands_of(queue.push(EventView::WindowResized(w, h))), current),
        size_after(commands_of(queue.push(EventView::WindowResized(w, h))), current) == (w, h),
{
    let once = queue.push(EventView::WindowResized(w, h));
    let twice = once.push(EventView::WindowResized(w, h));
    assert(commands_of(once).last() == CommandView::Resize(w, h));
    assert(commands_of(twice).last() == CommandView::Resize(w, h));
}

/// A drop without URIs whose text is missing or empty stands for no input.
pub proof fn law_empty_drop()
    ensures
        dropped(Seq::empty(), None) is None,
        dropped(Seq::empty(), Some(Seq::empty())) is None,
{
}

/// A drop with URIs stands for exactly one line, whatever text came with it:
/// the URIs' paths in order, single spaces between them. For two URIs that
/// is the first path, one space, the second path.
pub proof fn law_uris_joined(uris: Seq<Seq<char>>, text: Option<Seq<char>>)
    requires
        uris.len() > 0,
    ensures
        dropped(uris, text) == Some(joined(uri_paths(uris))),
        uris.len() == 1 ==> joined(uri_paths(uris)) == uri_path(uris[0]),
        uris.len() == 2 ==> joined(uri_paths(uris)) == uri_path(uris[0]) + seq![' '] + uri_path(
            uris[1],
        ),
        uris.len() >= 2 ==> joined(uri_paths(uris)) == joined(uri_paths(uris.drop_last()))
            + seq![' '] + uri_path(uris.last()),
{
    let paths = uri_paths(uris);
    if uris.len() >= 2 {
        assert(paths.drop_last() =~= uri_paths(uris.drop_last()));
        if uris.len() == 2 {
            assert(paths.drop_last().len() == 1);
            assert(joined(paths.drop_last()) == paths.drop_last()[0]);
        }
    }
}

} // verus!
