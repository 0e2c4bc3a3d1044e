//! The render tick: pending events become commands for the terminal, the PTY
//! and the display, in the order the events came in, and the terminal's
//! answers decide what closes the frame.

use vstd::prelude::*;
use vstd::string::*;
use vstd::utf8::encode_utf8;
use crate::encode::{char_bytes, encode_char};
use crate::event::{Event, EventView};
use crate::text::line_view;
use crate::widget::{after, Signal, State, Widget, WidgetView};

verus! {

/// One piece of work that the render tick hands to the embedder, to be done
/// while it holds the terminal's lock.
#[derive(Debug, Clone, PartialEq, Eq)]
pub enum Command {
    /// Send these bytes to the PTY through the I/O worker's channel.
    Write(Vec<u8>),
    /// Send this width and height on the display's resize channel and mark
    /// the terminal dirty.
    Resize(u32, u32),
    /// Change the terminal's font size by this many steps.
    ChangeFontSize(i8),
    /// Reset the terminal's font size.
    ResetFontSize,
}

/// The mathematical value of a [`Command`].
pub enum CommandView {
    Write(Seq<u8>),
    Resize(u32, u32),
    ChangeFontSize(i8),
    ResetFontSize,
}

impl View for Command {
    type V = CommandView;

    open spec fn view(&self) -> CommandView {
        match *self {
            Command::Write(bytes) => CommandView::Write(bytes@),
            Command::Resize(w, h) => CommandView::Resize(w, h),
            Command::ChangeFontSize(delta) => CommandView::ChangeFontSize(delta),
            Command::ResetFontSize => CommandView::ResetFontSize,
        }
    }
}

/// What closes a frame once the commands are done, in the order given.
#[derive(Debug, Clone, PartialEq, Eq)]
pub enum Step {
    /// Show this title in the window's header bar.
    SetTitle(String),
    /// Tell the input method where the cursor's cell is.
    PlaceCursor,
    /// Let the display apply a pending resize, to the terminal and the PTY.
    HandleResize,
    /// Draw the locked terminal.
    Draw,
}

/// The mathematical value of a [`Step`].
pub enum StepView {
    SetTitle(Seq<char>),
    PlaceCursor,
    HandleResize,
    Draw,
}

impl View for Step {
    type V = StepView;

    open spec fn view(&self) -> StepView {
        match *self {
            Step::SetTitle(title) => StepView::SetTitle(title@),
            Step::PlaceCursor => StepView::PlaceCursor,
            Step::HandleResize => StepView::HandleResize,
            Step::Draw => StepView::Draw,
        }
    }
}

/// The command that applies one event: typed characters and committed text
/// go to the PTY as their UTF-8 bytes, the others to the display and the
/// terminal as they are.
pub open spec fn command_of(event: EventView) -> CommandView {
    match event {
        EventView::CharInput(c) => CommandView::Write(char_bytes(c)),
        EventView::StrInput(s) => CommandView::Write(encode_utf8(s)),
        EventView::WindowResized(w, h) => CommandView::Resize(w, h),
        EventView::ChangeFontSize(delta) => CommandView::ChangeFontSize(delta),
        EventView::ResetFontSize => CommandView::ResetFontSize,
    }
}

/// The commands that apply a queue of events: one for each, in queue order.
pub open spec fn commands_of(events: Seq<EventView>) -> Seq<CommandView> {
    Seq::new(events.len(), |i: int| command_of(events[i]))
}

/// The values of a sequence of commands, in the same order.
pub open spec fn commands_view(commands: Seq<Command>) -> Seq<CommandView> {
    Seq::new(commands.len(), |i: int| commands[i]@)
}

/// The values of a sequence of steps, in the same order.
pub open spec fn steps_view(steps: Seq<Step>) -> Seq<StepView> {
    Seq::new(steps.len(), |i: int| steps[i]@)
}

/// The size that the display holds once it has taken everything from its
/// resize channel: the last one sent, or `current` where none was.
pub open spec fn size_after(commands: Seq<CommandView>, current: (u32, u32)) -> (u32, u32)
    decreases commands.len(),
{
    if commands.len() == 0 {
        current
    } else {
        match commands.last() {
            CommandView::Resize(w, h) => (w, h),
            _ => size_after(commands.drop_last(), current),
        }
    }
}

/// The steps that close a frame: a pending title first; then, where the
/// terminal needs drawing, the cursor's place, the pending resize and the
/// draw itself.
pub open spec fn closing(title: Option<Seq<char>>, needs_draw: bool) -> Seq<StepView> {
    let head = match title {
        Some(t) => seq![StepView::SetTitle(t)],
        None => Seq::<StepView>::empty(),
    };
    if needs_draw {
        head + seq![StepView::PlaceCursor, StepView::HandleResize, StepView::Draw]
    } else {
        head
    }
}

/// The commands of the frame that opens on `w`: those of the pending
/// events where the state is present, none at all where it is absent.
pub open spec fn frame_commands(w: WidgetView) -> Option<Seq<CommandView>> {
    match w.queue {
        Some(pending) => Some(commands_of(pending)),
        None => None,
    }
}

/// Builds the command that applies `event`.
pub fn command_for(event: &Event) -> (command: Command)
    ensures
        command@ == command_of(event@),
{
    match event {
        Event::CharInput(c) => Command::Write(encode_char(*c)),
        Event::StrInput(s) => Command::Write(s.as_str().as_bytes_vec()),
        Event::WindowResized(w, h) => Command::Resize(*w, *h),
        Event::ChangeFontSize(delta) => Command::ChangeFontSize(*delta),
        Event::ResetFontSize => Command::ResetFontSize,
    }
}

/// Decides what closes the frame. `title` is the terminal's next title, if
/// one is pending; `needs_draw` is the terminal's answer after the commands
/// were applied.
pub fn closing_steps(title: Option<String>, needs_draw: bool) -> (steps: Vec<Step>)
    ensures
        steps_view(steps@) == closing(line_view(title), needs_draw),
{
    let mut steps: Vec<Step> = Vec::new();
    match title {
        Some(t) => {
            steps.push(Step::SetTitle(t));
        },
        None => {},
    }
    if needs_draw {
        steps.push(Step::PlaceCursor);
        steps.push(Step::HandleResize);
        steps.push(Step::Draw);
    }
    assert(steps_view(steps@) =~= closing(line_view(title), needs_draw));
    steps
}

impl State {
    /// Empties the queue and returns one command for each event that was
    /// pending, oldest first.
    pub fn drain(&mut self) -> (commands: Vec<Command>)
        ensures
            final(self).pending() == Seq::<EventView>::empty(),
            commands_view(commands@) == commands_of(old(self).pending()),
            old(self).pending().len() == 0 ==> commands@.len() == 0,
    {
        let mut commands: Vec<Command> = Vec::new();
        let mut i: usize = 0;
        while i < self.event_queue.len()
            invariant
                i <= self.event_queue.len(),
                *self == *old(self),
                commands@.len() == i,
                forall|j: int| 0 <= j < i ==> (#[trigger] commands@[j])@ == command_of(self.event_queue@[j]@),
            decreases self.event_queue.len() - i,
        {
            let command = command_for(&self.event_queue[i]);
            commands.push(command);
            i += 1;
        }
        self.event_queue.clear();
        assert(self.pending() =~= Seq::<EventView>::empty());
        assert(commands_view(commands@) =~= commands_of(old(self).pending()));
        commands
    }
}

impl Widget {
    /// Opens a render tick. Without a state there is nothing to render and
    /// the answer is `None`; with one, the queue is drained into commands.
    pub fn begin_frame(&mut self) -> (commands: Option<Vec<Command>>)
        ensures
            final(self)@ == after(old(self)@, Signal::Frame),
            match commands {
                Some(list) => Some(commands_view(list@)),
                None => None,
            } == frame_commands(old(self)@),
    {
        match &mut self.state {
            Some(state) => Some(state.drain()),
            None => None,
        }
    }
}

} // verus!
