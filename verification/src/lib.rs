//! Runs a Lua script inside Roblox Studio and streams its output back.
//!
//! The crate holds the session logic: building the plugin that Studio loads,
//! routing the callbacks that the plugin makes, and the state machine that
//! drives one run from launch to teardown.

pub mod cli;
pub mod dom;
pub mod message_receiver;
pub mod place;
pub mod place_runner;
pub mod plugin;
pub mod roblox_install;
pub mod session;
pub mod session_id;
pub mod start;
pub mod text;

use crate::message_receiver::{output_views, OutputView, RobloxMessage};
use crate::session::{collect_messages, event_views, messages_of, played};
use crate::session::{Event, EventView, Phase, RunError, Session};
use crate::start::{PlaceRunnerOptions, DEFAULT_PORT, DEFAULT_TIMEOUT};
use vstd::prelude::*;
use vstd::string::*;

verus! {

/// What every complaint about a place file's name begins with.
pub const BAD_PATH_HEAD: &'static str = "Invalid file type: ";

/// What a script runs in.
#[derive(Debug, PartialEq, Eq)]
pub enum RunEnvironment {
    /// A place with nothing in it.
    EmptyPlace,
    /// The place in the file at this path.
    PlaceFile(String),
}

/// What to run, and how.
#[derive(Debug, PartialEq, Eq)]
pub struct RunOptions {
    pub env: RunEnvironment,
    pub lua_script: String,
    /// The port to call back on; the default where there is none.
    pub port: Option<u16>,
    /// The time the script is given, in seconds; the default where there
    /// is none.
    pub timeout: Option<u16>,
}

/// A place file whose name tells no format.
#[derive(Debug, PartialEq, Eq)]
pub struct BadPathError {
    pub path: String,
}

impl BadPathError {
    /// What to tell the user of the error: that the file's type is
    /// invalid, and the path.
    pub fn message(&self) -> (message: String)
        ensures
            message@ == BAD_PATH_HEAD@ + self.path@,
    {
        let mut message = String::from_str(BAD_PATH_HEAD);
        message.append(self.path.as_str());
        message
    }
}

/// Why a run yielded no messages.
#[derive(Debug, PartialEq, Eq)]
pub enum RunFailure {
    /// The place file's name has no extension.
    BadPath(BadPathError),
    /// The run failed.
    Run(RunError),
}

/// A `RunEnvironment` as a mathematical value.
pub enum EnvironmentView {
    EmptyPlace,
    PlaceFile(Seq<char>),
}

/// What a run comes to, as a mathematical value.
pub enum OutcomeView {
    /// The script finished; these are its messages, in order.
    Finished(Seq<OutputView>),
    /// The place file's name has no extension.
    BadPath(Seq<char>),
    /// The run failed.
    Failed(RunError),
}

impl View for RunEnvironment {
    type V = EnvironmentView;

    open spec fn view(&self) -> EnvironmentView {
        match self {
            RunEnvironment::EmptyPlace => EnvironmentView::EmptyPlace,
            RunEnvironment::PlaceFile(path) => EnvironmentView::PlaceFile(path@),
        }
    }
}

/// The view of what `run` hands back.
pub open spec fn outcome_view(outcome: Result<Vec<RobloxMessage>, RunFailure>) -> OutcomeView {
    match outcome {
        Ok(messages) => OutcomeView::Finished(output_views(messages@)),
        Err(RunFailure::BadPath(error)) => OutcomeView::BadPath(error.path@),
        Err(RunFailure::Run(error)) => OutcomeView::Failed(error),
    }
}

/// What a played run comes to: if it ended done, the messages it handed
/// on, in order; otherwise the error it ended with.
pub open spec fn played_outcome(events: Seq<EventView>) -> OutcomeView {
    let end = Session::idle().after(played(events));
    match end.phase.error() {
        Some(error) => OutcomeView::Failed(error),
        None => OutcomeView::Finished(messages_of(Session::idle().asked(played(events)))),
    }
}

/// What `run` comes to: a place file without an extension is refused
/// before anything is started; every other run is played.
pub open spec fn run_outcome(
    env: EnvironmentView,
    has_extension: bool,
    events: Seq<EventView>,
) -> OutcomeView {
    match env {
        EnvironmentView::PlaceFile(path) => if has_extension {
            played_outcome(events)
        } else {
            OutcomeView::BadPath(path)
        },
        EnvironmentView::EmptyPlace => played_outcome(events),
    }
}

/// The settings of a run: what the options choose, and the defaults for
/// what they leave open.
pub fn resolve(opts: &RunOptions) -> (options: PlaceRunnerOptions)
    ensures
        options.lua_script@ == opts.lua_script@,
        options.port == (match opts.port {
            Some(port) => port,
            None => DEFAULT_PORT,
        }),
        options.timeout == (match opts.timeout {
            Some(timeout) => timeout,
            None => DEFAULT_TIMEOUT,
        }),
{
    PlaceRunnerOptions {
        lua_script: opts.lua_script.clone(),
        port: match opts.port {
            Some(port) => port,
            None => DEFAULT_PORT,
        },
        timeout: match opts.timeout {
            Some(timeout) => timeout,
            None => DEFAULT_TIMEOUT,
        },
    }
}

/// The extension of a path, as `std::path::Path::extension` tells it. What
/// counts as a file name depends on the platform, so nothing is said of
/// the result.
#[verifier::external_body]
fn path_extension(path: &str) -> (extension: Option<String>) {
    std::path::Path::new(path).extension().map(|found| found.to_string_lossy().into_owned())
}

/// What a whole run yields, given the extension of the place file's name,
/// if it has one, and what the outside world reported during the run, in
/// order.
pub fn run_with_extension(
    opts: RunOptions,
    extension: Option<String>,
    events: Vec<Event>,
) -> (outcome: Result<Vec<RobloxMessage>, RunFailure>)
    ensures
        outcome_view(outcome) == run_outcome(opts.env@, extension is Some, event_views(events@)),
{
    match opts.env {
        RunEnvironment::PlaceFile(path) => {
            if extension.is_none() {
                return Err(RunFailure::BadPath(BadPathError { path }));
            }
        },
        RunEnvironment::EmptyPlace => {},
    }
    let (session, actions) = Session::play(events);
    match session.phase.failure() {
        Some(error) => Err(RunFailure::Run(error)),
        None => Ok(collect_messages(actions)),
    }
}

/// What a whole run yields, given what the outside world reported during
/// the run, in order: the messages of the script if it finished, and why
/// not if it did not. A place file is refused if its name has no
/// extension.
pub fn run(opts: RunOptions, events: Vec<Event>) -> (outcome: Result<Vec<RobloxMessage>, RunFailure>)
    ensures
        opts.env is EmptyPlace ==> outcome_view(outcome) == played_outcome(event_views(events@)),
        opts.env matches RunEnvironment::PlaceFile(path) ==> outcome_view(outcome)
            == played_outcome(event_views(events@)) || outcome_view(outcome)
            == OutcomeView::BadPath(path@),
{
    let extension = match &opts.env {
        RunEnvironment::PlaceFile(path) => path_extension(path.as_str()),
        RunEnvironment::EmptyPlace => None,
    };
    run_with_extension(opts, extension, events)
}

/// A played run finishes with messages only if it ended done, and then
/// with no error; every other end is a failure with the error of that end.
pub proof fn lemma_played_outcome(events: Seq<EventView>)
    ensures
        played_outcome(events) is Finished <==> Session::idle().after(played(events)).phase
            == Phase::Done,
        !(played_outcome(events) is BadPath),
{
    crate::session::lemma_played_run_ends_torn_down(events);
}

} // verus!
