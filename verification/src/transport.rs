//! Transport control: what the listener does with a command while a track plays.
//!
//! The listener runs beside the playback controller. It talks to the
//! controller through a [`TransportQueue`] and to the running player
//! through its control endpoint, one [`ControlMessage`] per line.

use vstd::prelude::*;
use crate::input::Command;

verus! {

/// A playback-control instruction.
#[derive(Clone, Copy, Debug, PartialEq, Eq, Structural)]
pub enum TransportCommand {
    Stop,
    SkipNext,
    SkipPrevious,
    TogglePause,
}

/// A line for the control endpoint of the running player.
#[derive(Clone, Copy, Debug, PartialEq, Eq, Structural)]
pub enum ControlMessage {
    /// Ends the running player, so that the controller's wait returns.
    Stop,
    /// Pauses a playing track and resumes a paused one.
    CyclePause,
}

/// What the listener does after it has acted on a command.
#[derive(Clone, Copy, Debug, PartialEq, Eq, Structural)]
pub enum ListenerNext {
    /// Goes on listening.
    Listen,
    /// Ends itself; the program goes on.
    Finish,
    /// Ends the whole program.
    Quit,
}

/// Everything the listener does in answer to one command.
#[derive(Clone, Copy, Debug, PartialEq, Eq, Structural)]
pub struct ListenerAction {
    /// Put on the queue to the controller, if anything.
    pub enqueue: Option<TransportCommand>,
    /// Sent to the control endpoint of the player, if anything.
    pub control: Option<ControlMessage>,
    pub next: ListenerNext,
}

/// The text of a control message, without the line end.
pub open spec fn control_line(message: ControlMessage) -> Seq<char> {
    match message {
        ControlMessage::Stop => "stop"@,
        ControlMessage::CyclePause => "cycle pause"@,
    }
}

/// The transport meaning of a command: going back asks for the previous
/// track, selecting for the next one, and pausing toggles the pause. Moving
/// the cursor means nothing while a track plays, and quitting is no
/// transport command.
pub open spec fn transport_of(command: Command) -> Option<TransportCommand> {
    match command {
        Command::Back => Some(TransportCommand::SkipPrevious),
        Command::Select => Some(TransportCommand::SkipNext),
        Command::Pause => Some(TransportCommand::TogglePause),
        Command::Up | Command::Down | Command::Quit => None,
    }
}

/// How a transport command is carried out. Stopping and skipping are queued
/// for the controller and stop the running player; toggling the pause only
/// reaches the player. After a stop the listener ends.
pub open spec fn dispatch_of(command: TransportCommand) -> ListenerAction {
    match command {
        TransportCommand::Stop => ListenerAction {
            enqueue: Some(TransportCommand::Stop),
            control: Some(ControlMessage::Stop),
            next: ListenerNext::Finish,
        },
        TransportCommand::SkipNext => ListenerAction {
            enqueue: Some(TransportCommand::SkipNext),
            control: Some(ControlMessage::Stop),
            next: ListenerNext::Listen,
        },
        TransportCommand::SkipPrevious => ListenerAction {
            enqueue: Some(TransportCommand::SkipPrevious),
            control: Some(ControlMessage::Stop),
            next: ListenerNext::Listen,
        },
        TransportCommand::TogglePause => ListenerAction {
            enqueue: None,
            control: Some(ControlMessage::CyclePause),
            next: ListenerNext::Listen,
        },
    }
}

/// What the listener does with a command heard while a track plays.
/// Quitting stops the player a last time and ends the program.
pub open spec fn transport_action_of(command: Command) -> ListenerAction {
    match transport_of(command) {
        Some(t) => dispatch_of(t),
        None => if command == Command::Quit {
            ListenerAction { enqueue: None, control: Some(ControlMessage::Stop), next: ListenerNext::Quit }
        } else {
            ListenerAction { enqueue: None, control: None, next: ListenerNext::Listen }
        },
    }
}

impl ControlMessage {
    /// The line to write to the control endpoint.
    pub fn line(self) -> (res: &'static str)
        ensures
            res@ == control_line(self),
    {
        match self {
            ControlMessage::Stop => "stop",
            ControlMessage::CyclePause => "cycle pause",
        }
    }
}

/// Carries out one transport command.
pub fn dispatch(command: TransportCommand) -> (res: ListenerAction)
    ensures
        res == dispatch_of(command),
{
    match command {
        TransportCommand::Stop => ListenerAction {
            enqueue: Some(TransportCommand::Stop),
            control: Some(ControlMessage::Stop),
            next: ListenerNext::Finish,
        },
        TransportCommand::SkipNext => ListenerAction {
            enqueue: Some(TransportCommand::SkipNext),
            control: Some(ControlMessage::Stop),
            next: ListenerNext::Listen,
        },
        TransportCommand::SkipPrevious => ListenerAction {
            enqueue: Some(TransportCommand::SkipPrevious),
            control: Some(ControlMessage::Stop),
            next: ListenerNext::Listen,
        },
        TransportCommand::TogglePause => ListenerAction {
            enqueue: None,
            control: Some(ControlMessage::CyclePause),
            next: ListenerNext::Listen,
        },
    }
}

/// Decides what the listener does with a command heard while a track plays.
pub fn transport_action(command: Command) -> (res: ListenerAction)
    ensures
        res == transport_action_of(command),
{
    match command {
        Command::Back => dispatch(TransportCommand::SkipPrevious),
        Command::Select => dispatch(TransportCommand::SkipNext),
        Command::Pause => dispatch(TransportCommand::TogglePause),
        Command::Quit => ListenerAction {
            enqueue: None,
            control: Some(ControlMessage::Stop),
            next: ListenerNext::Quit,
        },
        Command::Up | Command::Down => ListenerAction {
            enqueue: None,
            control: None,
            next: ListenerNext::Listen,
        },
    }
}

/// The commands on their way from the listener to the controller, oldest
/// first. What is put in stays until it is taken out, and leaves in the
/// order in which it came.
#[derive(Debug, PartialEq, Eq)]
pub struct TransportQueue {
    pending: Vec<TransportCommand>,
}

impl View for TransportQueue {
    type V = Seq<TransportCommand>;

    closed spec fn view(&self) -> Seq<TransportCommand> {
        self.pending@
    }
}

impl TransportQueue {
    /// An empty queue.
    pub fn new() -> (res: TransportQueue)
        ensures
            res@ == Seq::<TransportCommand>::empty(),
    {
        TransportQueue { pending: Vec::new() }
    }

    /// The number of commands that wait.
    pub fn len(&self) -> (res: usize)
        ensures
            res == self@.len(),
    {
        self.pending.len()
    }

    /// Puts a command behind those that wait.
    pub fn put(&mut self, command: TransportCommand)
        ensures
            final(self)@ == old(self)@.push(command),
    {
        self.pending.push(command);
    }

    /// Takes out the oldest command without waiting for one: `None` and no
    /// change when the queue is empty.
    pub fn take(&mut self) -> (res: Option<TransportCommand>)
        ensures
            old(self)@.len() == 0 ==> res is None && final(self)@ == old(self)@,
            old(self)@.len() > 0 ==> res == Some(old(self)@[0]) && final(self)@ == old(self)@.drop_first(),
    {
        if self.pending.len() == 0 {
            None
        } else {
            let oldest = self.pending.remove(0);
            assert(self.pending@ =~= old(self).pending@.drop_first());
            Some(oldest)
        }
    }
}

/// Acts on a command heard while a track plays, as far as the queue is
/// concerned: what the action asks to enqueue is put into the queue. The
/// action is returned for the message to send and for what to do next.
pub fn hear(queue: &mut TransportQueue, command: Command) -> (res: ListenerAction)
    ensures
        res == transport_action_of(command),
        final(queue)@ == match res.enqueue {
            Some(queued) => old(queue)@.push(queued),
            None => old(queue)@,
        },
{
    let action = transport_action(command);
    match action.enqueue {
        Some(queued) => queue.put(queued),
        None => {},
    }
    action
}

} // verus!
