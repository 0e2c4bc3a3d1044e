use termbridge::event::Event;
use termbridge::frame::{closing_steps, Command, Step};
use termbridge::widget::Widget;

fn realized() -> Widget {
    let mut widget = Widget::new();
    widget.realize();
    widget
}

#[test]
fn typing_ab_writes_two_single_bytes() {
    let mut widget = realized();
    let first = widget.key_press(false, 0x61, Some('a'));
    let second = widget.key_press(false, 0x62, Some('b'));
    assert!(!first.inhibit && first.redraw);
    assert!(!second.inhibit && second.redraw);
    assert_eq!(
        widget.state.as_ref().unwrap().event_queue,
        vec![Event::CharInput('a'), Event::CharInput('b')]
    );
    let commands = widget.begin_frame().unwrap();
    assert_eq!(commands, vec![Command::Write(vec![0x61]), Command::Write(vec![0x62])]);
    assert!(widget.state.as_ref().unwrap().event_queue.is_empty());
}

#[test]
fn im_commit_of_two_han_characters_writes_six_bytes() {
    let mut widget = realized();
    let reply = widget.im_commit("你好");
    assert!(!reply.inhibit && reply.redraw);
    assert_eq!(
        widget.state.as_ref().unwrap().event_queue,
        vec![Event::StrInput("你好".to_string())]
    );
    let commands = widget.begin_frame().unwrap();
    assert_eq!(commands, vec![Command::Write(vec![0xE4, 0xBD, 0xA0, 0xE5, 0xA5, 0xBD])]);
}

#[test]
fn resize_to_800_by_600_is_sent_and_drawn_once() {
    let mut widget = realized();
    let reply = widget.resize(800, 600);
    assert!(reply.redraw);
    assert_eq!(
        widget.state.as_ref().unwrap().event_queue,
        vec![Event::WindowResized(800, 600)]
    );
    let commands = widget.begin_frame().unwrap();
    assert_eq!(commands, vec![Command::Resize(800, 600)]);
    let steps = closing_steps(None, true);
    assert_eq!(steps, vec![Step::PlaceCursor, Step::HandleResize, Step::Draw]);
    assert_eq!(steps.iter().filter(|s| **s == Step::Draw).count(), 1);
}

#[test]
fn dropped_file_uris_become_one_line_of_paths() {
    let mut widget = realized();
    let uris = vec!["file:///tmp/a.txt".to_string(), "file:///tmp/b.txt".to_string()];
    let reply = widget.drag_data_received(&uris, None);
    assert!(!reply.inhibit && !reply.redraw);
    assert_eq!(
        widget.state.as_ref().unwrap().event_queue,
        vec![Event::StrInput("/tmp/a.txt /tmp/b.txt".to_string())]
    );
    let commands = widget.begin_frame().unwrap();
    assert_eq!(commands, vec![Command::Write("/tmp/a.txt /tmp/b.txt".as_bytes().to_vec())]);
    match &commands[0] {
        Command::Write(bytes) => assert!(bytes.is_ascii()),
        other => panic!("unexpected command {:?}", other),
    }
}

#[test]
fn wakeup_after_unrealize_does_nothing() {
    let mut widget = realized();
    assert!(widget.wakeup());
    widget.key_press(false, 0x61, Some('a'));
    widget.unrealize();
    assert!(!widget.is_realized());
    assert!(!widget.wakeup());
    assert!(!widget.wakeup());
    assert_eq!(widget.begin_frame(), None);
}

#[test]
fn font_size_cycle_is_applied_in_order() {
    let mut widget = realized();
    widget.enqueue(Event::ChangeFontSize(1));
    widget.enqueue(Event::ChangeFontSize(1));
    widget.enqueue(Event::ResetFontSize);
    let commands = widget.begin_frame().unwrap();
    assert_eq!(
        commands,
        vec![Command::ChangeFontSize(1), Command::ChangeFontSize(1), Command::ResetFontSize]
    );
    let steps = closing_steps(None, true);
    assert_eq!(steps.last(), Some(&Step::Draw));
}

#[test]
fn resize_is_applied_before_the_character_that_followed_it() {
    let mut widget = realized();
    widget.resize(640, 480);
    widget.key_press(false, 0x78, Some('x'));
    let commands = widget.begin_frame().unwrap();
    assert_eq!(commands, vec![Command::Resize(640, 480), Command::Write(vec![0x78])]);
}

#[test]
fn frame_without_state_is_nothing() {
    let mut widget = Widget::new();
    assert!(!widget.is_realized());
    assert_eq!(widget.begin_frame(), None);
    assert!(widget.state.is_none());
}

#[test]
fn frame_over_empty_queue_has_no_command_and_no_step() {
    let mut widget = realized();
    assert_eq!(widget.begin_frame(), Some(Vec::new()));
    assert_eq!(closing_steps(None, false), Vec::new());
    assert!(widget.state.as_ref().unwrap().event_queue.is_empty());
}

#[test]
fn repeated_resize_sends_the_same_size_twice() {
    let mut widget = realized();
    widget.resize(800, 600);
    widget.resize(800, 600);
    let commands = widget.begin_frame().unwrap();
    assert_eq!(commands, vec![Command::Resize(800, 600), Command::Resize(800, 600)]);
    assert_eq!(commands.last(), Some(&Command::Resize(800, 600)));
}

#[test]
fn pending_title_comes_before_the_draw() {
    let steps = closing_steps(Some("shell".to_string()), true);
    assert_eq!(
        steps,
        vec![
            Step::SetTitle("shell".to_string()),
            Step::PlaceCursor,
            Step::HandleResize,
            Step::Draw
        ]
    );
    assert_eq!(
        closing_steps(Some("idle".to_string()), false),
        vec![Step::SetTitle("idle".to_string())]
    );
}

#[test]
fn realize_after_unrealize_starts_with_an_empty_queue() {
    let mut widget = realized();
    widget.im_commit("left over");
    widget.unrealize();
    widget.realize();
    assert!(widget.is_realized());
    assert!(widget.wakeup());
    assert!(widget.state.as_ref().unwrap().event_queue.is_empty());
}
