//! Converting queued timer events (key presses and ticks) into control
//! commands for the session loop.

use vstd::prelude::*;
use std::sync::mpsc;

verus! {

/// Modifier keys active during a key press.
#[derive(PartialEq, Eq, Structural, Clone, Copy, Debug)]
pub struct Modifiers {
    /// A shift key is held.
    pub shift: bool,
    /// A control key is held.
    pub control: bool,
    /// An alt key is held.
    pub alt: bool,
}

impl Modifiers {
    /// No modifier key is held.
    pub open spec fn spec_is_empty(self) -> bool {
        !self.shift && !self.control && !self.alt
    }

    /// The empty modifier set.
    pub fn none() -> (r: Self)
        ensures
            r.spec_is_empty(),
    {
        Modifiers { shift: false, control: false, alt: false }
    }

    /// Whether no modifier key is held.
    pub fn is_empty(&self) -> (r: bool)
        ensures
            r == self.spec_is_empty(),
    {
        !self.shift && !self.control && !self.alt
    }
}

/// The key codes the interpreter distinguishes: a printable character, or
/// any other key.
#[derive(PartialEq, Eq, Structural, Clone, Copy, Debug)]
pub enum KeyCode {
    /// A character key
    Char(char),
    /// Any key that carries no character
    Other,
}

/// A key press: the key's code together with the active modifiers.
#[derive(PartialEq, Eq, Structural, Clone, Copy, Debug)]
pub struct KeyEvent {
    /// The key that was pressed
    pub code: KeyCode,
    /// The modifiers active when it was pressed
    pub modifiers: Modifiers,
}

/// Enum indicating the type of event.
#[derive(Clone, Copy, Debug)]
pub enum Event {
    /// Event when a key has been pressed
    KeyInput(KeyEvent),
    /// Event when nothing has happened
    Tick,
}

/// Commands to be carried out.
#[derive(Clone, Copy, Debug)]
pub enum Command {
    /// Do nothing
    Continue,
    /// Quit and print the given message
    QuitWithError(&'static str),
    /// Quit with no message
    Quit,
}

/// What one non-blocking receive attempt on the event queue yielded.
#[derive(Clone, Copy, Debug)]
pub enum RecvOutcome {
    /// An event was waiting in the queue
    Received(Event),
    /// The queue holds no event right now
    Empty,
    /// The queue is closed: the producer is gone
    Disconnected,
}

/// The command a single key press maps to: quit on `q` with no modifiers or
/// on `c` with control held; anything else continues.
pub open spec fn spec_interpret_key(k: KeyEvent) -> Command {
    if k.code == KeyCode::Char('q') && k.modifiers.spec_is_empty() {
        Command::Quit
    } else if k.code == KeyCode::Char('c') && k.modifiers.control {
        Command::Quit
    } else {
        Command::Continue
    }
}

/// The command a dequeued event maps to: key presses go through
/// `spec_interpret_key`; a tick never carries a command.
pub open spec fn spec_interpret_event(e: Event) -> Command {
    match e {
        Event::KeyInput(k) => spec_interpret_key(k),
        Event::Tick => Command::Continue,
    }
}

/// The message reported when the event queue's producer has gone away.
pub open spec fn spec_disconnect_message() -> Seq<char> {
    "mpsc channel disconnected"@
}

/// The command a receive attempt's outcome maps to: a received event is
/// interpreted, an empty queue continues, and a closed queue quits with the
/// disconnect message.
pub open spec fn spec_outcome_command(o: RecvOutcome, r: Command) -> bool {
    match o {
        RecvOutcome::Received(e) => r == spec_interpret_event(e),
        RecvOutcome::Empty => r == Command::Continue,
        RecvOutcome::Disconnected => r matches Command::QuitWithError(m) && m@
            == spec_disconnect_message(),
    }
}

/// Interpret one dequeued timer event. This is a pure function of the event:
/// the same event always yields the same command.
pub fn interpret_event(e: &Event) -> (r: Command)
    ensures
        r == spec_interpret_event(*e),
{
    match e {
        Event::KeyInput(k) => {
            match k.code {
                KeyCode::Char(c) => {
                    if c == 'q' && k.modifiers.is_empty() {
                        Command::Quit
                    } else if c == 'c' && k.modifiers.control {
                        Command::Quit
                    } else {
                        Command::Continue
                    }
                },
                KeyCode::Other => Command::Continue,
            }
        },
        Event::Tick => Command::Continue,
    }
}

/// Interpret the outcome of one receive attempt on the event queue.
pub fn process_outcome(o: &RecvOutcome) -> (r: Command)
    ensures
        spec_outcome_command(*o, r),
{
    match o {
        RecvOutcome::Received(e) => interpret_event(e),
        RecvOutcome::Empty => Command::Continue,
        RecvOutcome::Disconnected => Command::QuitWithError("mpsc channel disconnected"),
    }
}

#[verifier::external_type_specification]
#[verifier::external_body]
#[verifier::reject_recursive_types(T)]
pub struct ExReceiver<T>(mpsc::Receiver<T>);

/// Relies on std's `mpsc::Receiver::try_recv`: a non-blocking receive that
/// returns a queued value if one is waiting, and otherwise reports the queue
/// empty or (when the sender is dropped) disconnected. Which outcome comes
/// back depends on the producer thread, so nothing is promised about it.
#[verifier::external_body]
fn try_recv_event(rx: &mpsc::Receiver<Event>) -> (r: RecvOutcome) {
    match rx.try_recv() {
        Ok(e) => RecvOutcome::Received(e),
        Err(mpsc::TryRecvError::Empty) => RecvOutcome::Empty,
        Err(mpsc::TryRecvError::Disconnected) => RecvOutcome::Disconnected,
    }
}

/// Convert key inputs into `Command`s: pull at most one timer event from the
/// queue, without blocking, and interpret it. Whatever the receive attempt
/// yielded, the result is that outcome's command.
pub fn process_command_event(rx: &mpsc::Receiver<Event>) -> (r: Command)
    ensures
        exists|o: RecvOutcome| spec_outcome_command(o, r),
{
    let outcome = try_recv_event(rx);
    process_outcome(&outcome)
}

/// Interpreting is deterministic and pure — the command is a function of the
/// dequeued event alone — and a tick event never quits: it always maps to
/// `Continue`, as does any key press other than the two quit chords.
pub proof fn lemma_tick_continues(e: Event)
    ensures
        spec_interpret_event(Event::Tick) == Command::Continue,
        e matches Event::KeyInput(k) ==> spec_interpret_key(k) == Command::Continue
            || spec_interpret_key(k) == Command::Quit,
{
}

/// A closed queue maps to `QuitWithError` carrying a non-empty message.
pub proof fn lemma_disconnect_message_nonempty(r: Command)
    requires
        spec_outcome_command(RecvOutcome::Disconnected, r),
    ensures
        r matches Command::QuitWithError(m) && m@.len() > 0,
{
    reveal_strlit("mpsc channel disconnected");
}

} // verus!
