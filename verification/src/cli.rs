//! What the command line decides: how Studio is asked to open a place, how
//! a message is shown, and what the process exits with.

use crate::message_receiver::{output_views, OutputLevel, OutputView, RobloxMessage};
use crate::text::{decimal, to_decimal};
use vstd::prelude::*;
use vstd::string::*;

verus! {

/// The place that Studio opens where none is named: an empty baseplate.
pub const DEFAULT_PLACE_ID: u64 = 95206881;

/// The universe of the default place.
pub const DEFAULT_UNIVERSE_ID: u64 = 28220420;

/// The name of the copy of a place file that a run works on, without its
/// extension.
pub const TEMP_PLACE_STEM: &'static str = "run-in-roblox-place.";

/// The colour a message is shown in.
#[derive(Debug, Clone, Copy, PartialEq, Eq, Structural)]
pub enum Tint {
    Plain,
    Cyan,
    Yellow,
    Red,
}

/// The colour that stands for a level.
pub open spec fn tint_of(level: OutputLevel) -> Tint {
    match level {
        OutputLevel::Print => Tint::Plain,
        OutputLevel::Info => Tint::Cyan,
        OutputLevel::Warning => Tint::Yellow,
        OutputLevel::Error => Tint::Red,
    }
}

/// The colour that a message of the given level is shown in.
pub fn tint(level: OutputLevel) -> (colour: Tint)
    ensures
        colour == tint_of(level),
{
    match level {
        OutputLevel::Print => Tint::Plain,
        OutputLevel::Info => Tint::Cyan,
        OutputLevel::Warning => Tint::Yellow,
        OutputLevel::Error => Tint::Red,
    }
}

/// Whether some message of the run is an error.
pub open spec fn has_error(messages: Seq<OutputView>) -> bool {
    exists|i: int| 0 <= i < messages.len() && (#[trigger] messages[i]).level == OutputLevel::Error
}

/// What the process exits with after a run that came to its end: 1 if the
/// script reported an error, 0 if it did not.
pub fn exit_code(messages: &Vec<RobloxMessage>) -> (code: i32)
    ensures
        code == (if has_error(output_views(messages@)) {
            1i32
        } else {
            0i32
        }),
{
    let mut i: usize = 0;
    while i < messages.len()
        invariant
            i <= messages.len(),
            forall|j: int| 0 <= j < i ==> (#[trigger] output_views(messages@)[j]).level
                != OutputLevel::Error,
        decreases messages.len() - i,
    {
        match messages[i].level() {
            OutputLevel::Error => {
                assert(output_views(messages@)[i as int].level == OutputLevel::Error);
                return 1;
            },
            _ => {},
        }
        i += 1;
    }
    0
}

/// The texts of a list of strings, in order.
pub open spec fn texts(list: Seq<String>) -> Seq<Seq<char>> {
    Seq::new(list.len(), |i: int| list[i]@)
}

/// The name of the copy of a place file with the given extension.
pub open spec fn temp_place_name_of(extension: Seq<char>) -> Seq<char> {
    TEMP_PLACE_STEM@ + extension
}

/// The name of the copy of a place file that a run works on. The copy
/// keeps the extension of the file it is made from, by which Studio tells
/// the format.
pub fn temp_place_name(extension: &str) -> (name: String)
    ensures
        name@ == temp_place_name_of(extension@),
{
    let mut name = String::from_str(TEMP_PLACE_STEM);
    name.append(extension);
    name
}

/// The arguments that make Studio open a place by its identifier. Without
/// a place, the default place in its universe; with a place and no
/// universe, the place alone.
pub open spec fn place_arguments_of(universe_id: Option<u64>, place_id: Option<u64>) -> Seq<
    Seq<char>,
> {
    let place = match place_id {
        Some(id) => id,
        None => DEFAULT_PLACE_ID,
    };
    let universe = match place_id {
        Some(_) => universe_id,
        None => Some(DEFAULT_UNIVERSE_ID),
    };
    seq!["-task"@, "EditPlace"@, "-placeId"@, decimal(place as nat)] + (match universe {
        Some(id) => seq!["-universeId"@, decimal(id as nat)],
        None => Seq::empty(),
    })
}

/// The arguments that make Studio open a place by its identifier. A
/// universe without a place names nothing to open.
pub fn place_arguments(universe_id: Option<u64>, place_id: Option<u64>) -> (arguments: Vec<String>)
    requires
        universe_id is Some ==> place_id is Some,
    ensures
        texts(arguments@) == place_arguments_of(universe_id, place_id),
{
    let place = match place_id {
        Some(id) => id,
        None => DEFAULT_PLACE_ID,
    };
    let universe = match place_id {
        Some(_) => universe_id,
        None => Some(DEFAULT_UNIVERSE_ID),
    };
    let mut arguments = Vec::new();
    arguments.push(String::from_str("-task"));
    arguments.push(String::from_str("EditPlace"));
    arguments.push(String::from_str("-placeId"));
    arguments.push(to_decimal(place));
    match universe {
        Some(id) => {
            arguments.push(String::from_str("-universeId"));
            arguments.push(to_decimal(id));
        },
        None => {},
    }
    assert(texts(arguments@) =~= place_arguments_of(universe_id, place_id));
    arguments
}

} // verus!
