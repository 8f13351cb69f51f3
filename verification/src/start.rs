//! The two ways to start a run: on an empty place, or on a place that was
//! opened from a file.

use crate::dom::{item, tree_items, tree_new, visit_order, ItemView, Property};
use crate::place::{prepared, RunInRbxPlace};
use crate::session::{action_views, Action, ActionView, Event, EventView, Phase, Session};
use rbx_dom_weak::RbxTree;
use vstd::prelude::*;

verus! {

/// The port a run calls back on where none is chosen.
pub const DEFAULT_PORT: u16 = 54023;

/// The time a script is given where none is chosen, in seconds.
pub const DEFAULT_TIMEOUT: u16 = 15;

/// The name of the root of an empty place.
pub const EMPTY_PLACE_NAME: &'static str = "Place";

/// The class of the root of a place.
pub const PLACE_CLASS: &'static str = "DataModel";

/// The settings of one run.
#[derive(Debug, PartialEq, Eq)]
pub struct PlaceRunnerOptions {
    pub lua_script: String,
    pub port: u16,
    /// The time the script is given, in seconds. The plugin sees to it; the
    /// run itself sets no deadline once the script has started.
    pub timeout: u16,
}

/// A run that has been started: the place that Studio is to open, and the
/// run with the first thing it asks for.
pub struct PreparedRun {
    pub place: RunInRbxPlace,
    pub session: Session,
    pub actions: Vec<Action>,
}

/// The instances of an empty place: a root and nothing below it.
pub open spec fn empty_place() -> Seq<ItemView> {
    seq![item(0, EMPTY_PLACE_NAME@, PLACE_CLASS@, Seq::<Property>::empty())]
}

/// Starts a run on a place: makes the place ready for the run's port and
/// begins the run.
fn start_on(tree: RbxTree, options: &PlaceRunnerOptions) -> (run: PreparedRun)
    ensures
        run.place.items() == prepared(tree_items(tree), visit_order(tree), options.port),
        (run.session, action_views(run.actions@)) == Session::idle().step_of(EventView::Begin),
{
    let place = RunInRbxPlace::new(tree, options.port);
    let mut session = Session::new();
    let actions = session.step(Event::Begin);
    PreparedRun { place, session, actions }
}

/// Starts a run on a place that was opened from a file: the place is made
/// ready for the run's port, and the run begins by asking for Studio's
/// installation.
pub fn run_place(tree: RbxTree, options: &PlaceRunnerOptions) -> (run: PreparedRun)
    ensures
        run.place.items() == prepared(tree_items(tree), visit_order(tree), options.port),
        run.session == (Session { phase: Phase::Building, ..Session::idle() }),
        action_views(run.actions@) == seq![ActionView::LocateStudio],
{
    start_on(tree, options)
}

/// Starts a run on an empty place: a place of nothing but its root is made
/// ready for the run's port, and the run begins by asking for Studio's
/// installation.
pub fn run_script(options: &PlaceRunnerOptions) -> (run: PreparedRun)
    ensures
        run.place.items() == prepared(empty_place(), Seq::<int>::empty(), options.port),
        run.session == (Session { phase: Phase::Building, ..Session::idle() }),
        action_views(run.actions@) == seq![ActionView::LocateStudio],
{
    let properties: Vec<Property> = Vec::new();
    let tree = tree_new(EMPTY_PLACE_NAME, PLACE_CLASS, &properties);
    start_on(tree, options)
}

} // verus!
