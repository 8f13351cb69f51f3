//! One run of a script, as a state machine.
//!
//! A run goes from idle through building the plugin, launching Studio and
//! waiting for the plugin to report in, to streaming the script's output
//! and done. Whoever drives a run performs the actions it is handed, one
//! after the other, and reports back what came of them; every decision is
//! taken here. Whatever ends a run, the same teardown releases what the run
//! still holds, and releases nothing twice.

use crate::message_receiver::{output_views, received_from, ListenerView, Message, MessageView};
use crate::message_receiver::{OutputView, Received, ReceivedView, RobloxMessage};
use vstd::prelude::*;
use vstd::string::*;

verus! {

/// How long a run waits for the plugin to report in, in seconds.
pub const START_TIMEOUT_SECS: u64 = 60;

/// Why a run failed.
#[derive(Debug, Clone, Copy, PartialEq, Eq, Structural)]
pub enum RunError {
    /// No installation of Studio was found.
    InstallNotFound,
    /// Studio could not be started.
    LaunchFailed,
    /// The plugin did not report in before the bound ran out.
    StartTimeout,
    /// The first thing the plugin reported was not the start of the script.
    ProtocolViolation,
    /// The listener could not be started, or closed while the run needed it.
    ListenerIoError,
    /// The plugin could not be written out.
    SerializationError,
    /// The caller gave the run up.
    Abandoned,
}

/// Where a run stands.
#[derive(Debug, Clone, Copy, PartialEq, Eq, Structural)]
pub enum Phase {
    Idle,
    Building,
    Launching,
    AwaitingStart,
    Streaming,
    Done,
    TimedOut,
    Failed(RunError),
}

/// A run: where it stands and what it holds.
#[derive(Debug, Clone, Copy, PartialEq, Eq, Structural)]
pub struct Session {
    pub phase: Phase,
    /// The plugin's file may exist.
    pub plugin_installed: bool,
    /// The listener runs.
    pub listener_running: bool,
    /// Studio runs.
    pub studio_running: bool,
    /// The plugin's file could not be removed at the end of the run.
    pub cleanup_failed: bool,
}

/// What the driver of a run reports to it.
#[derive(Debug, PartialEq, Eq)]
pub enum Event {
    /// The run is to begin.
    Begin,
    /// An installation of Studio was found.
    StudioLocated,
    /// No installation of Studio was found.
    StudioNotFound,
    /// The plugin's file was written.
    PluginWritten,
    /// The plugin could not be encoded or its file could not be written.
    PluginNotWritten,
    /// The listener is bound and serving.
    ListenerStarted,
    /// The listener could not be bound.
    ListenerNotStarted,
    /// Studio was started.
    StudioLaunched,
    /// Studio could not be started.
    StudioNotLaunched,
    /// The listener handed out an event.
    Received(Message),
    /// The bound of the wait for the plugin ran out.
    StartTimedOut,
    /// The listener closed.
    ListenerClosed,
    /// The caller gave the run up.
    Abandoned,
    /// The plugin's file could not be removed.
    PluginNotRemoved,
}

/// What a run asks its driver to do.
#[derive(Debug, PartialEq, Eq)]
pub enum Action {
    /// Find the installation of Studio.
    LocateStudio,
    /// Write the plugin to its file.
    WritePlugin,
    /// Bind the listener.
    StartListener,
    /// Start Studio on the place.
    LaunchStudio,
    /// Wait for the next event of the listener, `START_TIMEOUT_SECS` at most.
    AwaitStart,
    /// Wait for the next event of the listener, however long it takes.
    AwaitNext,
    /// Hand a message to the caller.
    Forward(RobloxMessage),
    /// Tell the caller that no message will follow.
    EndOfStream,
    /// Stop the listener.
    StopListener,
    /// Terminate Studio.
    KillStudio,
    /// Remove the plugin's file.
    RemovePlugin,
}

/// An `Event` as a mathematical value.
pub enum EventView {
    Begin,
    StudioLocated,
    StudioNotFound,
    PluginWritten,
    PluginNotWritten,
    ListenerStarted,
    ListenerNotStarted,
    StudioLaunched,
    StudioNotLaunched,
    Received(MessageView),
    StartTimedOut,
    ListenerClosed,
    Abandoned,
    PluginNotRemoved,
}

/// An `Action` as a mathematical value.
pub enum ActionView {
    LocateStudio,
    WritePlugin,
    StartListener,
    LaunchStudio,
    AwaitStart,
    AwaitNext,
    Forward(OutputView),
    EndOfStream,
    StopListener,
    KillStudio,
    RemovePlugin,
}

impl View for Event {
    type V = EventView;

    open spec fn view(&self) -> EventView {
        match self {
            Event::Begin => EventView::Begin,
            Event::StudioLocated => EventView::StudioLocated,
            Event::StudioNotFound => EventView::StudioNotFound,
            Event::PluginWritten => EventView::PluginWritten,
            Event::PluginNotWritten => EventView::PluginNotWritten,
            Event::ListenerStarted => EventView::ListenerStarted,
            Event::ListenerNotStarted => EventView::ListenerNotStarted,
            Event::StudioLaunched => EventView::StudioLaunched,
            Event::StudioNotLaunched => EventView::StudioNotLaunched,
            Event::Received(message) => EventView::Received(message@),
            Event::StartTimedOut => EventView::StartTimedOut,
            Event::ListenerClosed => EventView::ListenerClosed,
            Event::Abandoned => EventView::Abandoned,
            Event::PluginNotRemoved => EventView::PluginNotRemoved,
        }
    }
}

impl View for Action {
    type V = ActionView;

    open spec fn view(&self) -> ActionView {
        match self {
            Action::LocateStudio => ActionView::LocateStudio,
            Action::WritePlugin => ActionView::WritePlugin,
            Action::StartListener => ActionView::StartListener,
            Action::LaunchStudio => ActionView::LaunchStudio,
            Action::AwaitStart => ActionView::AwaitStart,
            Action::AwaitNext => ActionView::AwaitNext,
            Action::Forward(message) => ActionView::Forward(message@),
            Action::EndOfStream => ActionView::EndOfStream,
            Action::StopListener => ActionView::StopListener,
            Action::KillStudio => ActionView::KillStudio,
            Action::RemovePlugin => ActionView::RemovePlugin,
        }
    }
}

/// The views of a run of actions, in order.
pub open spec fn action_views(actions: Seq<Action>) -> Seq<ActionView> {
    Seq::new(actions.len(), |i: int| actions[i]@)
}

/// The views of a run of events, in order.
pub open spec fn event_views(events: Seq<Event>) -> Seq<EventView> {
    Seq::new(events.len(), |i: int| events[i]@)
}

/// One `Forward` for each message of a batch, in the batch's order.
pub open spec fn forwards(batch: Seq<OutputView>) -> Seq<ActionView> {
    Seq::new(batch.len(), |i: int| ActionView::Forward(batch[i]))
}

impl RunError {
    /// What to tell the user of the error.
    pub open spec fn text(self) -> Seq<char> {
        match self {
            RunError::InstallNotFound => "Could not locate a Roblox Studio installation."@,
            RunError::LaunchFailed => "Could not start Roblox Studio"@,
            RunError::StartTimeout =>
                "Timeout reached while waiting for Roblox Studio to come online"@,
            RunError::ProtocolViolation =>
                "Invalid first message received from Roblox Studio plugin"@,
            RunError::ListenerIoError => "The message receiver could not be reached"@,
            RunError::SerializationError => "Could not write the plugin file"@,
            RunError::Abandoned => "The run was abandoned"@,
        }
    }

    /// What to tell the user of the error.
    pub fn describe(self) -> (message: String)
        ensures
            message@ == self.text(),
    {
        match self {
            RunError::InstallNotFound => String::from_str(
                "Could not locate a Roblox Studio installation.",
            ),
            RunError::LaunchFailed => String::from_str("Could not start Roblox Studio"),
            RunError::StartTimeout => String::from_str(
                "Timeout reached while waiting for Roblox Studio to come online",
            ),
            RunError::ProtocolViolation => String::from_str(
                "Invalid first message received from Roblox Studio plugin",
            ),
            RunError::ListenerIoError => String::from_str(
                "The message receiver could not be reached",
            ),
            RunError::SerializationError => String::from_str("Could not write the plugin file"),
            RunError::Abandoned => String::from_str("The run was abandoned"),
        }
    }
}

impl Phase {
    /// Whether a run in this phase has ended.
    pub open spec fn is_terminal(self) -> bool {
        self is Done || self is TimedOut || self is Failed
    }

    /// The error a run in this phase has failed with, if it has failed.
    pub open spec fn error(self) -> Option<RunError> {
        match self {
            Phase::TimedOut => Some(RunError::StartTimeout),
            Phase::Failed(error) => Some(error),
            _ => None,
        }
    }

    /// Whether a run in this phase has ended.
    pub fn terminal(self) -> (ended: bool)
        ensures
            ended == self.is_terminal(),
    {
        match self {
            Phase::Done | Phase::TimedOut | Phase::Failed(_) => true,
            _ => false,
        }
    }

    /// The error a run in this phase has failed with, if it has failed.
    pub fn failure(self) -> (error: Option<RunError>)
        ensures
            error == self.error(),
    {
        match self {
            Phase::TimedOut => Some(RunError::StartTimeout),
            Phase::Failed(error) => Some(error),
            _ => None,
        }
    }
}

impl Session {
    /// A run that has not begun and holds nothing.
    pub open spec fn idle() -> Session {
        Session {
            phase: Phase::Idle,
            plugin_installed: false,
            listener_running: false,
            studio_running: false,
            cleanup_failed: false,
        }
    }

    /// Whether what the run holds fits where it stands: nothing before it
    /// builds and after it has ended, the plugin before the listener and
    /// the listener before Studio, and all three while it waits and
    /// streams.
    pub open spec fn well_formed(self) -> bool {
        match self.phase {
            Phase::Idle => !self.plugin_installed && !self.listener_running && !self.studio_running
                && !self.cleanup_failed,
            Phase::Building => !self.listener_running && !self.studio_running
                && !self.cleanup_failed,
            Phase::Launching => self.plugin_installed && !self.studio_running
                && !self.cleanup_failed,
            Phase::AwaitingStart | Phase::Streaming => self.plugin_installed
                && self.listener_running && self.studio_running && !self.cleanup_failed,
            Phase::Done | Phase::TimedOut | Phase::Failed(_) => !self.plugin_installed
                && !self.listener_running && !self.studio_running,
        }
    }

    /// Whether the run holds nothing.
    pub open spec fn holds_nothing(self) -> bool {
        !self.plugin_installed && !self.listener_running && !self.studio_running
    }

    /// The teardown of what the run holds: the listener is stopped, then
    /// Studio is terminated, then the plugin's file is removed; what the
    /// run does not hold is left alone.
    pub open spec fn release(self) -> Seq<ActionView> {
        (if self.listener_running {
            seq![ActionView::StopListener]
        } else {
            Seq::empty()
        }) + (if self.studio_running {
            seq![ActionView::KillStudio]
        } else {
            Seq::empty()
        }) + (if self.plugin_installed {
            seq![ActionView::RemovePlugin]
        } else {
            Seq::empty()
        })
    }

    /// The run, ended in `phase` and holding nothing.
    pub open spec fn ended(self, phase: Phase) -> Session {
        Session {
            phase,
            plugin_installed: false,
            listener_running: false,
            studio_running: false,
            cleanup_failed: self.cleanup_failed,
        }
    }

    /// The run failing with `error`: it ends and tears down what it holds.
    pub open spec fn fail(self, error: RunError) -> (Session, Seq<ActionView>) {
        (self.ended(Phase::Failed(error)), self.release())
    }

    /// What the run does when its driver reports `event`: where it stands
    /// afterwards, and what it asks the driver to do, in order. An event
    /// that has no meaning where the run stands changes nothing and asks
    /// for nothing.
    pub open spec fn step_of(self, event: EventView) -> (Session, Seq<ActionView>) {
        match (self.phase, event) {
            (Phase::Idle, EventView::Begin) => (
                Session { phase: Phase::Building, ..self },
                seq![ActionView::LocateStudio],
            ),
            (Phase::Building, EventView::StudioLocated) => if self.plugin_installed {
                (self, Seq::empty())
            } else {
                (Session { plugin_installed: true, ..self }, seq![ActionView::WritePlugin])
            },
            (Phase::Building, EventView::StudioNotFound) => self.fail(RunError::InstallNotFound),
            (Phase::Building, EventView::PluginWritten) => if self.plugin_installed {
                (Session { phase: Phase::Launching, ..self }, seq![ActionView::StartListener])
            } else {
                (self, Seq::empty())
            },
            (Phase::Building, EventView::PluginNotWritten) => self.fail(
                RunError::SerializationError,
            ),
            (Phase::Launching, EventView::ListenerStarted) => if self.listener_running {
                (self, Seq::empty())
            } else {
                (Session { listener_running: true, ..self }, seq![ActionView::LaunchStudio])
            },
            (Phase::Launching, EventView::ListenerNotStarted) => self.fail(
                RunError::ListenerIoError,
            ),
            (Phase::Launching, EventView::StudioLaunched) => if self.listener_running {
                (
                    Session { phase: Phase::AwaitingStart, studio_running: true, ..self },
                    seq![ActionView::AwaitStart],
                )
            } else {
                (self, Seq::empty())
            },
            (Phase::Launching, EventView::StudioNotLaunched) => self.fail(RunError::LaunchFailed),
            (Phase::AwaitingStart, EventView::Received(MessageView::Start)) => (
                Session { phase: Phase::Streaming, ..self },
                seq![ActionView::AwaitNext],
            ),
            (Phase::AwaitingStart, EventView::Received(_)) => self.fail(
                RunError::ProtocolViolation,
            ),
            (Phase::AwaitingStart, EventView::StartTimedOut) => (
                self.ended(Phase::TimedOut),
                self.release(),
            ),
            (Phase::Streaming, EventView::Received(MessageView::Start)) => (
                self,
                seq![ActionView::AwaitNext],
            ),
            (Phase::Streaming, EventView::Received(MessageView::Messages(batch))) => (
                self,
                forwards(batch).push(ActionView::AwaitNext),
            ),
            (Phase::Streaming, EventView::Received(MessageView::Stop)) => (
                self.ended(Phase::Done),
                seq![ActionView::EndOfStream] + self.release(),
            ),
            (Phase::AwaitingStart, EventView::ListenerClosed) => self.fail(
                RunError::ListenerIoError,
            ),
            (Phase::Streaming, EventView::ListenerClosed) => self.fail(RunError::ListenerIoError),
            (Phase::Done, EventView::PluginNotRemoved) => (
                Session { cleanup_failed: true, ..self },
                Seq::empty(),
            ),
            (Phase::TimedOut, EventView::PluginNotRemoved) => (
                Session { cleanup_failed: true, ..self },
                Seq::empty(),
            ),
            (Phase::Failed(_), EventView::PluginNotRemoved) => (
                Session { cleanup_failed: true, ..self },
                Seq::empty(),
            ),
            (Phase::Done, _) => (self, Seq::empty()),
            (Phase::TimedOut, _) => (self, Seq::empty()),
            (Phase::Failed(_), _) => (self, Seq::empty()),
            (_, EventView::Abandoned) => self.fail(RunError::Abandoned),
            _ => (self, Seq::empty()),
        }
    }

    /// What the teardown routine does: a run that has not ended is given
    /// up, a run that has ended is left as it is.
    pub open spec fn teardown_of(self) -> (Session, Seq<ActionView>) {
        self.step_of(EventView::Abandoned)
    }

    /// The run after `events`, reported one after the other.
    pub open spec fn after(self, events: Seq<EventView>) -> Session
        decreases events.len(),
    {
        if events.len() == 0 {
            self
        } else {
            self.after(events.drop_last()).step_of(events.last()).0
        }
    }

    /// All that the run asks for while `events` are reported one after the
    /// other, in order.
    pub open spec fn asked(self, events: Seq<EventView>) -> Seq<ActionView>
        decreases events.len(),
    {
        if events.len() == 0 {
            Seq::empty()
        } else {
            self.asked(events.drop_last()) + self.after(events.drop_last()).step_of(
                events.last(),
            ).1
        }
    }

    /// A run that has not begun.
    pub fn new() -> (session: Session)
        ensures
            session == Session::idle(),
            session.well_formed(),
    {
        Session {
            phase: Phase::Idle,
            plugin_installed: false,
            listener_running: false,
            studio_running: false,
            cleanup_failed: false,
        }
    }

    /// Appends the teardown of what the run holds to `actions`.
    fn push_release(&self, actions: &mut Vec<Action>)
        ensures
            action_views(final(actions)@) == action_views(old(actions)@) + self.release(),
    {
        if self.listener_running {
            actions.push(Action::StopListener);
        }
        if self.studio_running {
            actions.push(Action::KillStudio);
        }
        if self.plugin_installed {
            actions.push(Action::RemovePlugin);
        }
        assert(action_views(actions@) =~= action_views(old(actions)@) + self.release());
    }

    /// Ends the run in `phase`, holding nothing.
    fn end(&mut self, phase: Phase)
        ensures
            *final(self) == old(self).ended(phase),
    {
        self.phase = phase;
        self.plugin_installed = false;
        self.listener_running = false;
        self.studio_running = false;
    }

    /// Fails the run with `error` and tears down what it holds.
    fn fail_with(&mut self, error: RunError) -> (actions: Vec<Action>)
        ensures
            (*final(self), action_views(actions@)) == old(self).fail(error),
    {
        let mut actions = Vec::new();
        self.push_release(&mut actions);
        self.end(Phase::Failed(error));
        assert(action_views(actions@) =~= old(self).release());
        actions
    }

    /// Takes one step of the run: tells what to do about `event` and moves
    /// the run on.
    pub fn step(&mut self, event: Event) -> (actions: Vec<Action>)
        ensures
            (*final(self), action_views(actions@)) == old(self).step_of(event@),
            old(self).well_formed() ==> final(self).well_formed(),
    {
        let ghost before = *self;
        let mut actions: Vec<Action> = Vec::new();
        assert(action_views(actions@) =~= Seq::empty());
        match self.phase {
            Phase::Done | Phase::TimedOut | Phase::Failed(_) => {
                match event {
                    Event::PluginNotRemoved => {
                        self.cleanup_failed = true;
                    },
                    _ => {},
                }
                return actions;
            },
            _ => {},
        }
        match event {
            Event::Abandoned => {
                return self.fail_with(RunError::Abandoned);
            },
            _ => {},
        }
        match self.phase {
            Phase::Idle => {
                match event {
                    Event::Begin => {
                        self.phase = Phase::Building;
                        actions.push(Action::LocateStudio);
                        assert(action_views(actions@) =~= seq![ActionView::LocateStudio]);
                    },
                    _ => {},
                }
            },
            Phase::Building => {
                match event {
                    Event::StudioLocated => {
                        if !self.plugin_installed {
                            self.plugin_installed = true;
                            actions.push(Action::WritePlugin);
                            assert(action_views(actions@) =~= seq![ActionView::WritePlugin]);
                        }
                    },
                    Event::StudioNotFound => {
                        return self.fail_with(RunError::InstallNotFound);
                    },
                    Event::PluginWritten => {
                        if self.plugin_installed {
                            self.phase = Phase::Launching;
                            actions.push(Action::StartListener);
                            assert(action_views(actions@) =~= seq![ActionView::StartListener]);
                        }
                    },
                    Event::PluginNotWritten => {
                        return self.fail_with(RunError::SerializationError);
                    },
                    _ => {},
                }
            },
            Phase::Launching => {
                match event {
                    Event::ListenerStarted => {
                        if !self.listener_running {
                            self.listener_running = true;
                            actions.push(Action::LaunchStudio);
                            assert(action_views(actions@) =~= seq![ActionView::LaunchStudio]);
                        }
                    },
                    Event::ListenerNotStarted => {
                        return self.fail_with(RunError::ListenerIoError);
                    },
                    Event::StudioLaunched => {
                        if self.listener_running {
                            self.phase = Phase::AwaitingStart;
                            self.studio_running = true;
                            actions.push(Action::AwaitStart);
                            assert(action_views(actions@) =~= seq![ActionView::AwaitStart]);
                        }
                    },
                    Event::StudioNotLaunched => {
                        return self.fail_with(RunError::LaunchFailed);
                    },
                    _ => {},
                }
            },
            Phase::AwaitingStart => {
                match event {
                    Event::Received(Message::Start) => {
                        self.phase = Phase::Streaming;
                        actions.push(Action::AwaitNext);
                        assert(action_views(actions@) =~= seq![ActionView::AwaitNext]);
                    },
                    Event::Received(_) => {
                        return self.fail_with(RunError::ProtocolViolation);
                    },
                    Event::StartTimedOut => {
                        self.push_release(&mut actions);
                        self.end(Phase::TimedOut);
                        assert(action_views(actions@) =~= before.release());
                    },
                    Event::ListenerClosed => {
                        return self.fail_with(RunError::ListenerIoError);
                    },
                    _ => {},
                }
            },
            Phase::Streaming => {
                match event {
                    Event::Received(Message::Start) => {
                        actions.push(Action::AwaitNext);
                        assert(action_views(actions@) =~= seq![ActionView::AwaitNext]);
                    },
                    Event::Received(Message::Messages(batch)) => {
                        let ghost sent = output_views(batch@);
                        forward_all(batch, &mut actions);
                        actions.push(Action::AwaitNext);
                        assert(action_views(actions@) =~= forwards(sent).push(
                            ActionView::AwaitNext,
                        ));
                    },
                    Event::Received(Message::Stop) => {
                        actions.push(Action::EndOfStream);
                        self.push_release(&mut actions);
                        self.end(Phase::Done);
                        assert(action_views(actions@) =~= seq![ActionView::EndOfStream]
                            + before.release());
                    },
                    Event::ListenerClosed => {
                        return self.fail_with(RunError::ListenerIoError);
                    },
                    _ => {},
                }
            },
            _ => {},
        }
        actions
    }

    /// Tears the run down: a run that has not ended is given up and what it
    /// holds is released; a run that has ended holds nothing, so nothing is
    /// asked for.
    pub fn teardown(&mut self) -> (actions: Vec<Action>)
        ensures
            (*final(self), action_views(actions@)) == old(self).teardown_of(),
            old(self).phase.is_terminal() ==> *final(self) == *old(self) && actions@.len() == 0,
            old(self).well_formed() ==> final(self).well_formed() && final(self).holds_nothing(),
    {
        self.step(Event::Abandoned)
    }
}

/// The items of `items` in the opposite order.
fn reversed<T>(items: Vec<T>) -> (turned: Vec<T>)
    ensures
        turned@ == items@.reverse(),
{
    let ghost whole = items@;
    let mut rest = items;
    let mut turned: Vec<T> = Vec::new();
    while rest.len() > 0
        invariant
            rest.len() + turned.len() == whole.len(),
            forall|i: int| 0 <= i < rest.len() ==> rest[i] == whole[i],
            forall|i: int| 0 <= i < turned.len() ==> turned[i] == whole[whole.len() - 1 - i],
        decreases rest.len(),
    {
        let last = rest.pop().unwrap();
        turned.push(last);
    }
    assert(turned@ =~= whole.reverse());
    turned
}

/// Appends one `Forward` for each message of a batch to `actions`, in the
/// batch's order.
fn forward_all(batch: Vec<RobloxMessage>, actions: &mut Vec<Action>)
    ensures
        action_views(final(actions)@) == action_views(old(actions)@) + forwards(
            output_views(batch@),
        ),
{
    let ghost start = action_views(actions@);
    let ghost sent = output_views(batch@);
    let mut rest = reversed(batch);
    while rest.len() > 0
        invariant
            rest.len() <= sent.len(),
            forall|i: int| 0 <= i < rest.len() ==> (#[trigger] rest[i])@ == sent[sent.len() - 1 - i],
            action_views(actions@) == start + forwards(sent.take(sent.len() - rest.len())),
        decreases rest.len(),
    {
        let ghost done = sent.len() - rest.len();
        let ghost earlier = actions@;
        let next = rest.pop().unwrap();
        assert(next@ == sent[done]);
        actions.push(Action::Forward(next));
        assert(action_views(actions@) =~= action_views(earlier).push(ActionView::Forward(next@)));
        assert(forwards(sent.take(done + 1)) =~= forwards(sent.take(done)).push(
            ActionView::Forward(sent[done]),
        ));
    }
    assert(sent.take(sent.len() as int) =~= sent);
}

/// The event that the outcome of a bounded wait on the listener is to the
/// run, if it is one: none while the wait goes on.
pub open spec fn event_of(received: ReceivedView) -> Option<EventView> {
    match received {
        ReceivedView::Ready(message) => Some(EventView::Received(message)),
        ReceivedView::Pending => None,
        ReceivedView::TimedOut => Some(EventView::StartTimedOut),
        ReceivedView::Closed => Some(EventView::ListenerClosed),
    }
}

/// Turns the outcome of a bounded wait on the listener into the event to
/// report to the run; `None` means that the wait goes on.
pub fn event_for(received: Received) -> (event: Option<Event>)
    ensures
        match event {
            Some(reported) => event_of(received@) == Some(reported@),
            None => event_of(received@) is None,
        },
{
    match received {
        Received::Ready(message) => Some(Event::Received(message)),
        Received::Pending => None,
        Received::TimedOut => Some(Event::StartTimedOut),
        Received::Closed => Some(Event::ListenerClosed),
    }
}

/// The events of a whole run as its driver plays them: the run begins, the
/// driver reports `events`, and whatever state that leaves the run in, it
/// is torn down.
pub open spec fn played(events: Seq<EventView>) -> Seq<EventView> {
    (seq![EventView::Begin] + events).push(EventView::Abandoned)
}

impl Session {
    /// Plays a whole run from idle: the run begins, `events` are reported
    /// to it one after the other, and at the end it is torn down, whatever
    /// state it is in. Hands back the run at its end and all that it asked
    /// for on the way.
    pub fn play(events: Vec<Event>) -> (outcome: (Session, Vec<Action>))
        ensures
            outcome.0 == Session::idle().after(played(event_views(events@))),
            action_views(outcome.1@) == Session::idle().asked(played(event_views(events@))),
            outcome.0.phase.is_terminal(),
            outcome.0.holds_nothing(),
    {
        let ghost reported = event_views(events@);
        let mut session = Session::new();
        let mut actions = session.step(Event::Begin);
        let ghost mut fed = seq![EventView::Begin];
        proof {
            assert(fed.drop_last() =~= Seq::<EventView>::empty());
            assert(Session::idle().after(fed.drop_last()) == Session::idle());
            assert(Session::idle().asked(fed.drop_last()) =~= Seq::<ActionView>::empty());
            assert(Session::idle().asked(fed) =~= Session::idle().step_of(EventView::Begin).1);
        }
        let mut rest = reversed(events);
        while rest.len() > 0
            invariant
                rest.len() <= reported.len(),
                forall|i: int|
                    0 <= i < rest.len() ==> (#[trigger] rest[i])@ == reported[reported.len() - 1
                        - i],
                fed == seq![EventView::Begin] + reported.take(reported.len() - rest.len()),
                session == Session::idle().after(fed),
                action_views(actions@) == Session::idle().asked(fed),
            decreases rest.len(),
        {
            let ghost done = reported.len() - rest.len();
            let ghost earlier = actions@;
            let next = rest.pop().unwrap();
            assert(next@ == reported[done]);
            let mut asked = session.step(next);
            let ghost added = asked@;
            actions.append(&mut asked);
            proof {
                let longer = fed.push(reported[done]);
                assert(longer.drop_last() =~= fed);
                assert(longer =~= seq![EventView::Begin] + reported.take(done + 1));
                assert(action_views(actions@) =~= action_views(earlier) + action_views(added));
                fed = longer;
            }
        }
        let ghost earlier = actions@;
        let mut asked = session.teardown();
        let ghost added = asked@;
        actions.append(&mut asked);
        proof {
            assert(reported.take(reported.len() as int) =~= reported);
            let whole = played(reported);
            assert(whole =~= fed.push(EventView::Abandoned));
            assert(whole.drop_last() =~= fed);
            assert(action_views(actions@) =~= action_views(earlier) + action_views(added));
            lemma_run_stays_well_formed(fed);
            lemma_teardown_is_idempotent(Session::idle().after(fed));
        }
        (session, actions)
    }
}

/// The messages that a run of actions hands to the caller, in order.
pub fn collect_messages(actions: Vec<Action>) -> (messages: Vec<RobloxMessage>)
    ensures
        output_views(messages@) == messages_of(action_views(actions@)),
{
    let ghost asked = action_views(actions@);
    let mut rest = reversed(actions);
    let mut messages: Vec<RobloxMessage> = Vec::new();
    assert(asked.take(0) =~= Seq::<ActionView>::empty());
    assert(output_views(messages@) =~= Seq::<OutputView>::empty());
    while rest.len() > 0
        invariant
            rest.len() <= asked.len(),
            forall|i: int| 0 <= i < rest.len() ==> (#[trigger] rest[i])@ == asked[asked.len() - 1 - i],
            output_views(messages@) == messages_of(asked.take(asked.len() - rest.len())),
        decreases rest.len(),
    {
        let ghost done = asked.len() - rest.len();
        let ghost earlier = messages@;
        let next = rest.pop().unwrap();
        assert(next@ == asked[done]);
        assert(asked.take(done + 1).drop_last() =~= asked.take(done));
        assert(asked.take(done + 1).last() == asked[done]);
        match next {
            Action::Forward(message) => {
                messages.push(message);
                assert(output_views(messages@) =~= output_views(earlier).push(message@));
            },
            _ => {},
        }
    }
    assert(asked.take(asked.len() as int) =~= asked);
    messages
}

/// However a run goes, it ends, and it ends holding nothing: the teardown
/// at the end of a played run releases whatever the events left it with.
pub proof fn lemma_played_run_ends_torn_down(events: Seq<EventView>)
    ensures
        Session::idle().after(played(events)).phase.is_terminal(),
        Session::idle().after(played(events)).holds_nothing(),
        Session::idle().after(played(events)).well_formed(),
{
    let before = seq![EventView::Begin] + events;
    assert(played(events).drop_last() =~= before);
    lemma_run_stays_well_formed(before);
    lemma_teardown_is_idempotent(Session::idle().after(before));
    lemma_run_stays_well_formed(played(events));
}

/// The messages that a run of actions hands to the caller, in order.
pub open spec fn messages_of(actions: Seq<ActionView>) -> Seq<OutputView>
    decreases actions.len(),
{
    if actions.len() == 0 {
        Seq::empty()
    } else {
        match actions.last() {
            ActionView::Forward(message) => messages_of(actions.drop_last()).push(message),
            _ => messages_of(actions.drop_last()),
        }
    }
}

/// If the plugin has not reported in when the bound runs out, the run ends
/// timed out: it fails with `StartTimeout`, the listener is stopped, Studio
/// is terminated and the plugin's file is removed, and the run holds
/// nothing afterwards.
pub proof fn lemma_start_timeout_tears_down(session: Session)
    requires
        session.well_formed(),
        session.phase == Phase::AwaitingStart,
    ensures
        session.step_of(EventView::StartTimedOut) == (
            Session { phase: Phase::TimedOut, ..Session::idle() },
            seq![ActionView::StopListener, ActionView::KillStudio, ActionView::RemovePlugin],
        ),
        session.step_of(EventView::StartTimedOut).0.phase.error() == Some(RunError::StartTimeout),
{
    assert(session.release() =~= seq![
        ActionView::StopListener,
        ActionView::KillStudio,
        ActionView::RemovePlugin,
    ]);
}

/// The timeout, from the listener's side to the run's: if a running
/// listener has nothing queued when the time waited reaches the bound, the
/// wait comes to a timeout, and reporting that to a run that waits for the
/// plugin ends the run timed out with everything released.
pub proof fn lemma_silent_plugin_times_out(
    listener: ListenerView,
    session: Session,
    timeout: u64,
    waited: u64,
)
    requires
        !listener.stopped,
        listener.queue.len() == 0,
        waited >= timeout,
        session.well_formed(),
        session.phase == Phase::AwaitingStart,
    ensures
        event_of(received_from(listener, timeout, waited)) == Some(EventView::StartTimedOut),
        session.step_of(EventView::StartTimedOut).0.phase == Phase::TimedOut,
        session.step_of(EventView::StartTimedOut).0.holds_nothing(),
        session.step_of(EventView::StartTimedOut).1 == seq![
            ActionView::StopListener,
            ActionView::KillStudio,
            ActionView::RemovePlugin,
        ],
{
    lemma_start_timeout_tears_down(session);
}

/// Only the start of the script takes a waiting run on to streaming; any
/// other event of the listener fails it as a violation of the protocol.
pub proof fn lemma_only_start_begins_streaming(session: Session, event: EventView)
    requires
        session.phase == Phase::AwaitingStart,
    ensures
        session.step_of(event).0.phase == Phase::Streaming <==> event == EventView::Received(
            MessageView::Start,
        ),
        event is Received && event != EventView::Received(MessageView::Start) ==> session.step_of(
            event,
        ).0.phase == Phase::Failed(RunError::ProtocolViolation),
{
}

/// Tearing down twice is tearing down once: the second teardown asks for
/// nothing and changes nothing, whatever state the first one started from.
pub proof fn lemma_teardown_is_idempotent(session: Session)
    ensures
        session.teardown_of().0.teardown_of() == (session.teardown_of().0, Seq::<ActionView>::empty()),
        session.teardown_of().0.phase.is_terminal(),
        session.well_formed() ==> session.teardown_of().0.holds_nothing(),
        session.well_formed() ==> session.teardown_of().0.release() == Seq::<ActionView>::empty(),
{
    let torn = session.teardown_of().0;
    if session.well_formed() {
        assert(torn.release() =~= Seq::<ActionView>::empty());
    }
}

/// A run that has ended asks for nothing more, whatever is reported to it,
/// and stays as it ended; only a failed removal of the plugin's file is
/// noted.
pub proof fn lemma_ended_run_asks_nothing(session: Session, event: EventView)
    requires
        session.phase.is_terminal(),
    ensures
        session.step_of(event).1 == Seq::<ActionView>::empty(),
        session.step_of(event).0 == (Session {
            cleanup_failed: session.cleanup_failed || event is PluginNotRemoved,
            ..session
        }),
{
}

/// Every way out of a run goes through the teardown: the step that ends a
/// run releases all that the run holds, the listener first, then Studio,
/// then the plugin's file, and leaves the run holding nothing. Only the
/// end of the stream is announced before it, and only when the script
/// finished.
pub proof fn lemma_every_end_releases_all(session: Session, event: EventView)
    requires
        !session.phase.is_terminal(),
        session.step_of(event).0.phase.is_terminal(),
    ensures
        session.step_of(event).0.holds_nothing(),
        session.step_of(event).0.phase == Phase::Done ==> session.step_of(event).1
            == seq![ActionView::EndOfStream] + session.release(),
        session.step_of(event).0.phase != Phase::Done ==> session.step_of(event).1
            == session.release(),
{
}

/// A step keeps what a run holds in line with where it stands.
pub proof fn lemma_step_keeps_well_formed(session: Session, event: EventView)
    requires
        session.well_formed(),
    ensures
        session.step_of(event).0.well_formed(),
{
}

/// Whatever is reported to a run that started idle, what it holds stays in
/// line with where it stands.
pub proof fn lemma_run_stays_well_formed(events: Seq<EventView>)
    ensures
        Session::idle().after(events).well_formed(),
    decreases events.len(),
{
    if events.len() > 0 {
        lemma_run_stays_well_formed(events.drop_last());
        lemma_step_keeps_well_formed(Session::idle().after(events.drop_last()), events.last());
    }
}

/// A step hands the caller exactly the batch it received while streaming,
/// message for message and in the batch's order, and nothing otherwise.
pub proof fn lemma_step_forwards_exactly_the_batch(session: Session, event: EventView)
    ensures
        messages_of(session.step_of(event).1) == (match (session.phase, event) {
            (Phase::Streaming, EventView::Received(MessageView::Messages(batch))) => batch,
            _ => Seq::<OutputView>::empty(),
        }),
{
    let asked = session.step_of(event).1;
    match (session.phase, event) {
        (Phase::Streaming, EventView::Received(MessageView::Messages(batch))) => {
            assert(asked.drop_last() =~= forwards(batch));
            lemma_messages_of_forwards(batch);
        },
        _ => {
            assert forall|i: int| 0 <= i < asked.len() implies !(#[trigger] asked[i] is Forward) by {
                lemma_release_is_plain(session);
            }
            lemma_plain_actions_forward_nothing(asked);
        },
    }
}

/// A run of actions without a `Forward` hands the caller nothing.
pub proof fn lemma_plain_actions_forward_nothing(actions: Seq<ActionView>)
    requires
        forall|i: int| 0 <= i < actions.len() ==> !(#[trigger] actions[i] is Forward),
    ensures
        messages_of(actions) == Seq::<OutputView>::empty(),
    decreases actions.len(),
{
    if actions.len() > 0 {
        assert(!(actions[actions.len() - 1] is Forward));
        lemma_plain_actions_forward_nothing(actions.drop_last());
    }
}

/// A teardown holds no `Forward`.
proof fn lemma_release_is_plain(session: Session)
    ensures
        forall|i: int|
            0 <= i < session.release().len() ==> !(#[trigger] session.release()[i] is Forward),
        forall|i: int|
            0 <= i < session.release().len() + 1 ==> !(#[trigger] (seq![ActionView::EndOfStream]
                + session.release())[i] is Forward),
{
}

/// The messages that the plugin reported to a run while it streamed: the
/// batches that the listener handed out while the run stood in
/// `Streaming`, one after the other.
pub open spec fn streamed(session: Session, events: Seq<EventView>) -> Seq<OutputView>
    decreases events.len(),
{
    if events.len() == 0 {
        Seq::empty()
    } else {
        let earlier = streamed(session, events.drop_last());
        match (session.after(events.drop_last()).phase, events.last()) {
            (Phase::Streaming, EventView::Received(MessageView::Messages(batch))) => earlier
                + batch,
            _ => earlier,
        }
    }
}

/// What a run hands to its caller is what the plugin reported while the
/// run streamed: every message of every batch, in the order of the batches
/// and, within a batch, in the batch's order; nothing is added, dropped or
/// moved.
pub proof fn lemma_run_forwards_what_was_streamed(session: Session, events: Seq<EventView>)
    ensures
        messages_of(session.asked(events)) == streamed(session, events),
    decreases events.len(),
{
    if events.len() > 0 {
        let earlier = events.drop_last();
        let before = session.after(earlier);
        lemma_run_forwards_what_was_streamed(session, earlier);
        lemma_step_forwards_exactly_the_batch(before, events.last());
        lemma_messages_of_concat(session.asked(earlier), before.step_of(events.last()).1);
        match (before.phase, events.last()) {
            (Phase::Streaming, EventView::Received(MessageView::Messages(batch))) => {},
            _ => {
                assert(streamed(session, earlier) + Seq::<OutputView>::empty() =~= streamed(
                    session,
                    earlier,
                ));
            },
        }
    }
}

/// The messages of a run of `Forward`s are the messages forwarded.
pub proof fn lemma_messages_of_forwards(batch: Seq<OutputView>)
    ensures
        messages_of(forwards(batch)) == batch,
    decreases batch.len(),
{
    if batch.len() > 0 {
        lemma_messages_of_forwards(batch.drop_last());
        assert(forwards(batch).drop_last() =~= forwards(batch.drop_last()));
        assert(batch.drop_last().push(batch.last()) =~= batch);
    } else {
        assert(messages_of(forwards(batch)) =~= batch);
    }
}

/// The messages of two runs of actions, one after the other, are the
/// messages of the first followed by those of the second.
pub proof fn lemma_messages_of_concat(first: Seq<ActionView>, second: Seq<ActionView>)
    ensures
        messages_of(first + second) == messages_of(first) + messages_of(second),
    decreases second.len(),
{
    if second.len() == 0 {
        assert(first + second =~= first);
        assert(messages_of(first) + messages_of(second) =~= messages_of(first));
    } else {
        lemma_messages_of_concat(first, second.drop_last());
        assert((first + second).drop_last() =~= first + second.drop_last());
        match second.last() {
            ActionView::Forward(message) => {
                assert((messages_of(first) + messages_of(second.drop_last())).push(message)
                    =~= messages_of(first) + messages_of(second.drop_last()).push(message));
            },
            _ => {},
        }
    }
}

} // verus!
