use rusty_player::input::Command;
use rusty_player::transport::{
    dispatch, hear, transport_action, ControlMessage, ListenerAction, ListenerNext, TransportCommand,
    TransportQueue,
};

#[test]
fn control_lines_are_the_player_commands() {
    assert_eq!(ControlMessage::Stop.line(), "stop");
    assert_eq!(ControlMessage::CyclePause.line(), "cycle pause");
}

#[test]
fn skips_are_queued_and_stop_the_player() {
    assert_eq!(
        dispatch(TransportCommand::SkipNext),
        ListenerAction {
            enqueue: Some(TransportCommand::SkipNext),
            control: Some(ControlMessage::Stop),
            next: ListenerNext::Listen,
        }
    );
    assert_eq!(
        dispatch(TransportCommand::SkipPrevious),
        ListenerAction {
            enqueue: Some(TransportCommand::SkipPrevious),
            control: Some(ControlMessage::Stop),
            next: ListenerNext::Listen,
        }
    );
}

#[test]
fn stop_is_queued_and_ends_the_listener() {
    assert_eq!(
        dispatch(TransportCommand::Stop),
        ListenerAction {
            enqueue: Some(TransportCommand::Stop),
            control: Some(ControlMessage::Stop),
            next: ListenerNext::Finish,
        }
    );
}

#[test]
fn pause_reaches_the_player_only() {
    assert_eq!(
        dispatch(TransportCommand::TogglePause),
        ListenerAction { enqueue: None, control: Some(ControlMessage::CyclePause), next: ListenerNext::Listen }
    );
}

#[test]
fn back_and_select_become_skips() {
    assert_eq!(transport_action(Command::Back), dispatch(TransportCommand::SkipPrevious));
    assert_eq!(transport_action(Command::Select), dispatch(TransportCommand::SkipNext));
    assert_eq!(transport_action(Command::Pause), dispatch(TransportCommand::TogglePause));
}

#[test]
fn cursor_moves_mean_nothing_during_playback() {
    let nothing = ListenerAction { enqueue: None, control: None, next: ListenerNext::Listen };
    assert_eq!(transport_action(Command::Up), nothing);
    assert_eq!(transport_action(Command::Down), nothing);
}

#[test]
fn quit_during_playback_stops_the_player_and_ends_the_program() {
    assert_eq!(
        transport_action(Command::Quit),
        ListenerAction { enqueue: None, control: Some(ControlMessage::Stop), next: ListenerNext::Quit }
    );
}

#[test]
fn new_queue_is_empty() {
    let mut queue = TransportQueue::new();
    assert_eq!(queue.len(), 0);
    assert_eq!(queue.take(), None);
    assert_eq!(queue.len(), 0);
}

#[test]
fn queue_gives_back_in_the_order_of_arrival() {
    let mut queue = TransportQueue::new();
    queue.put(TransportCommand::SkipNext);
    queue.put(TransportCommand::SkipPrevious);
    queue.put(TransportCommand::Stop);
    assert_eq!(queue.len(), 3);
    assert_eq!(queue.take(), Some(TransportCommand::SkipNext));
    assert_eq!(queue.len(), 2);
    assert_eq!(queue.take(), Some(TransportCommand::SkipPrevious));
    assert_eq!(queue.take(), Some(TransportCommand::Stop));
    assert_eq!(queue.take(), None);
}

#[test]
fn hearing_a_skip_puts_it_into_the_queue() {
    let mut queue = TransportQueue::new();
    assert_eq!(hear(&mut queue, Command::Select), dispatch(TransportCommand::SkipNext));
    assert_eq!(hear(&mut queue, Command::Back), dispatch(TransportCommand::SkipPrevious));
    assert_eq!(queue.len(), 2);
    assert_eq!(queue.take(), Some(TransportCommand::SkipNext));
    assert_eq!(queue.take(), Some(TransportCommand::SkipPrevious));
}

#[test]
fn hearing_anything_else_leaves_the_queue_alone() {
    let mut queue = TransportQueue::new();
    queue.put(TransportCommand::SkipNext);
    for command in [Command::Pause, Command::Up, Command::Down, Command::Quit] {
        assert_eq!(hear(&mut queue, command), transport_action(command));
        assert_eq!(queue.len(), 1);
    }
    assert_eq!(queue.take(), Some(TransportCommand::SkipNext));
}
