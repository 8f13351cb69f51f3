use run_in_roblox::message_receiver::{Message, OutputLevel, RobloxMessage};
use run_in_roblox::session::{Event, RunError};
use run_in_roblox::{
    resolve, run, run_with_extension, BadPathError, RunEnvironment, RunFailure, RunOptions,
};

fn options(env: RunEnvironment) -> RunOptions {
    RunOptions { env, lua_script: "print('hi')".to_string(), port: Some(9001), timeout: Some(30) }
}

fn output(level: OutputLevel, body: &str) -> RobloxMessage {
    RobloxMessage::Output { level, body: body.to_string() }
}

fn finished() -> Vec<Event> {
    vec![
        Event::StudioLocated,
        Event::PluginWritten,
        Event::ListenerStarted,
        Event::StudioLaunched,
        Event::Received(Message::Start),
        Event::Received(Message::Messages(vec![output(OutputLevel::Print, "hi")])),
        Event::Received(Message::Stop),
    ]
}

fn silent() -> Vec<Event> {
    vec![
        Event::StudioLocated,
        Event::PluginWritten,
        Event::ListenerStarted,
        Event::StudioLaunched,
        Event::StartTimedOut,
    ]
}

#[test]
fn options_fall_back_on_the_defaults() {
    let chosen = resolve(&options(RunEnvironment::EmptyPlace));
    assert_eq!(chosen.lua_script, "print('hi')");
    assert_eq!(chosen.port, 9001);
    assert_eq!(chosen.timeout, 30);
    let open = RunOptions {
        env: RunEnvironment::EmptyPlace,
        lua_script: String::new(),
        port: None,
        timeout: None,
    };
    let defaults = resolve(&open);
    assert_eq!(defaults.lua_script, "");
    assert_eq!(defaults.port, 54023);
    assert_eq!(defaults.timeout, 15);
}

#[test]
fn a_finished_run_yields_its_messages() {
    let outcome = run(options(RunEnvironment::EmptyPlace), finished());
    assert_eq!(outcome, Ok(vec![output(OutputLevel::Print, "hi")]));
}

#[test]
fn a_run_without_a_start_fails_with_the_timeout() {
    let outcome = run(options(RunEnvironment::EmptyPlace), silent());
    assert_eq!(outcome, Err(RunFailure::Run(RunError::StartTimeout)));
}

#[test]
fn a_run_that_is_cut_short_was_abandoned() {
    let mut events = finished();
    events.pop();
    let outcome = run(options(RunEnvironment::EmptyPlace), events);
    assert_eq!(outcome, Err(RunFailure::Run(RunError::Abandoned)));
}

#[test]
fn every_failure_is_told_apart() {
    let cases = [
        (vec![Event::StudioNotFound], RunError::InstallNotFound),
        (vec![Event::StudioLocated, Event::PluginNotWritten], RunError::SerializationError),
        (
            vec![Event::StudioLocated, Event::PluginWritten, Event::ListenerNotStarted],
            RunError::ListenerIoError,
        ),
        (
            vec![
                Event::StudioLocated,
                Event::PluginWritten,
                Event::ListenerStarted,
                Event::StudioNotLaunched,
            ],
            RunError::LaunchFailed,
        ),
        (
            vec![
                Event::StudioLocated,
                Event::PluginWritten,
                Event::ListenerStarted,
                Event::StudioLaunched,
                Event::Received(Message::Stop),
            ],
            RunError::ProtocolViolation,
        ),
        (vec![Event::Abandoned], RunError::Abandoned),
    ];
    for (events, error) in cases {
        assert_eq!(
            run(options(RunEnvironment::EmptyPlace), events),
            Err(RunFailure::Run(error))
        );
    }
}

#[test]
fn a_place_file_without_an_extension_is_refused() {
    let outcome = run(options(RunEnvironment::PlaceFile("places/game".to_string())), finished());
    assert_eq!(
        outcome,
        Err(RunFailure::BadPath(BadPathError { path: "places/game".to_string() }))
    );
}

#[test]
fn a_place_file_with_an_extension_is_run() {
    let outcome =
        run(options(RunEnvironment::PlaceFile("places/game.rbxlx".to_string())), finished());
    assert_eq!(outcome, Ok(vec![output(OutputLevel::Print, "hi")]));
}

#[test]
fn the_extension_decides_before_anything_is_played() {
    let place = || RunEnvironment::PlaceFile("game.rbxlx".to_string());
    assert_eq!(
        run_with_extension(options(place()), None, finished()),
        Err(RunFailure::BadPath(BadPathError { path: "game.rbxlx".to_string() }))
    );
    assert_eq!(
        run_with_extension(options(place()), Some("rbxlx".to_string()), silent()),
        Err(RunFailure::Run(RunError::StartTimeout))
    );
    assert_eq!(
        run_with_extension(options(RunEnvironment::EmptyPlace), None, finished()),
        Ok(vec![output(OutputLevel::Print, "hi")])
    );
}

#[test]
fn a_bad_path_says_which_path() {
    let error = BadPathError { path: "places/game".to_string() };
    assert_eq!(error.message(), "Invalid file type: places/game");
}

#[test]
fn messages_of_several_batches_come_in_order() {
    let mut events = finished();
    events.insert(
        6,
        Event::Received(Message::Messages(vec![
            output(OutputLevel::Warning, "two"),
            output(OutputLevel::Error, "three"),
        ])),
    );
    assert_eq!(
        run(options(RunEnvironment::EmptyPlace), events),
        Ok(vec![
            output(OutputLevel::Print, "hi"),
            output(OutputLevel::Warning, "two"),
            output(OutputLevel::Error, "three"),
        ])
    );
}
