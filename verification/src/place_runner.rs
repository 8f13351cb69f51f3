//! What one run needs to know, and the whole run played in one go.

use crate::message_receiver::MessageReceiverOptions;
use crate::plugin::{PluginView, RunInRbxPlugin};
use crate::session::{action_views, event_views, played, Action, Event, Session};
use crate::text::{decimal, lemma_decimal_is_injective, push_decimal};
use vstd::prelude::*;
use vstd::string::*;

verus! {

/// What stands before the port in the name of a plugin's file.
pub const PLUGIN_FILE_HEAD: &'static str = "run_in_roblox-";

/// What stands after the port in the name of a plugin's file.
pub const PLUGIN_FILE_TAIL: &'static str = ".rbxmx";

/// The name of the file that holds the plugin of the run on `port`.
pub open spec fn plugin_file_name_of(port: u16) -> Seq<char> {
    PLUGIN_FILE_HEAD@ + decimal(port as nat) + PLUGIN_FILE_TAIL@
}

/// What one run needs to know.
#[derive(Debug, PartialEq, Eq)]
pub struct PlaceRunner {
    pub port: u16,
    pub place_path: String,
    pub server_id: String,
    pub lua_script: String,
}

/// A `PlaceRunner` as a mathematical value.
pub struct RunnerView {
    pub port: u16,
    pub place_path: Seq<char>,
    pub server_id: Seq<char>,
    pub lua_script: Seq<char>,
}

impl View for PlaceRunner {
    type V = RunnerView;

    open spec fn view(&self) -> RunnerView {
        RunnerView {
            port: self.port,
            place_path: self.place_path@,
            server_id: self.server_id@,
            lua_script: self.lua_script@,
        }
    }
}

/// What came of a run.
#[derive(Debug, PartialEq, Eq)]
pub struct RunReport {
    /// The run at its end.
    pub session: Session,
    /// All that the run asked for, in order.
    pub actions: Vec<Action>,
    /// The name of the file that `WritePlugin` and `RemovePlugin` speak of.
    pub plugin_file: String,
}

impl PlaceRunner {
    /// The name of the file that holds this run's plugin. It carries the
    /// port, so that runs on different ports never touch each other's file.
    pub fn plugin_file_name(&self) -> (name: String)
        ensures
            name@ == plugin_file_name_of(self.port),
    {
        let mut name = String::from_str(PLUGIN_FILE_HEAD);
        push_decimal(&mut name, self.port as u64);
        name.append(PLUGIN_FILE_TAIL);
        name
    }

    /// The plugin of this run.
    pub fn plugin(&self) -> (plugin: RunInRbxPlugin<'_>)
        ensures
            plugin@ == (PluginView {
                port: self.port,
                server_id: self.server_id@,
                lua_script: self.lua_script@,
            }),
    {
        RunInRbxPlugin {
            port: self.port,
            server_id: self.server_id.as_str(),
            lua_script: self.lua_script.as_str(),
        }
    }

    /// The settings of this run's listener.
    pub fn receiver_options(&self) -> (options: MessageReceiverOptions)
        ensures
            options.port == self.port,
            options.server_id@ == self.server_id@,
    {
        MessageReceiverOptions { port: self.port, server_id: self.server_id.clone() }
    }

    /// The arguments Studio is started with: the place to open.
    pub fn studio_arguments(&self) -> (arguments: Vec<String>)
        ensures
            arguments@.len() == 1,
            arguments@[0]@ == self.place_path@,
    {
        let mut arguments = Vec::new();
        arguments.push(self.place_path.clone());
        arguments
    }

    /// Plays a whole run: the run begins, `events` are reported to it one
    /// after the other, and at the end it is torn down, whatever state it
    /// is in. The report tells where the run ended and all that it asked
    /// for on the way.
    pub fn run(&self, events: Vec<Event>) -> (report: RunReport)
        ensures
            report.session == Session::idle().after(played(event_views(events@))),
            action_views(report.actions@) == Session::idle().asked(played(event_views(events@))),
            report.plugin_file@ == plugin_file_name_of(self.port),
            report.session.phase.is_terminal(),
            report.session.holds_nothing(),
    {
        let (session, actions) = Session::play(events);
        RunReport { session, actions, plugin_file: self.plugin_file_name() }
    }
}

/// Runs on different ports keep their plugins in different files.
pub proof fn lemma_plugin_files_differ(a: u16, b: u16)
    requires
        a != b,
    ensures
        plugin_file_name_of(a) != plugin_file_name_of(b),
{
    if plugin_file_name_of(a) == plugin_file_name_of(b) {
        let head = PLUGIN_FILE_HEAD@.len() as int;
        let name_a = plugin_file_name_of(a);
        let name_b = plugin_file_name_of(b);
        assert(name_a.len() == name_b.len());
        assert(decimal(a as nat).len() == decimal(b as nat).len());
        assert(name_a.subrange(head, head + decimal(a as nat).len()) =~= decimal(a as nat));
        assert(name_b.subrange(head, head + decimal(b as nat).len()) =~= decimal(b as nat));
        lemma_decimal_is_injective(a as nat, b as nat);
    }
}

} // verus!
