use run_in_roblox::cli::{
    exit_code, place_arguments, temp_place_name, tint, Tint, DEFAULT_PLACE_ID, DEFAULT_UNIVERSE_ID,
};
use run_in_roblox::message_receiver::{OutputLevel, RobloxMessage};
use run_in_roblox::session_id::{generate_server_id, server_id_for};
use run_in_roblox::text::{digit_to_char, to_decimal};

fn output(level: OutputLevel, body: &str) -> RobloxMessage {
    RobloxMessage::Output { level, body: body.to_string() }
}

#[test]
fn levels_have_their_colours() {
    assert_eq!(tint(OutputLevel::Print), Tint::Plain);
    assert_eq!(tint(OutputLevel::Info), Tint::Cyan);
    assert_eq!(tint(OutputLevel::Warning), Tint::Yellow);
    assert_eq!(tint(OutputLevel::Error), Tint::Red);
}

#[test]
fn the_exit_code_tells_of_errors() {
    assert_eq!(exit_code(&vec![]), 0);
    assert_eq!(exit_code(&vec![output(OutputLevel::Print, "a"), output(OutputLevel::Warning, "b")]), 0);
    assert_eq!(exit_code(&vec![output(OutputLevel::Error, "a")]), 1);
    assert_eq!(
        exit_code(&vec![
            output(OutputLevel::Print, "a"),
            output(OutputLevel::Info, "b"),
            output(OutputLevel::Error, "c"),
            output(OutputLevel::Print, "d"),
        ]),
        1
    );
}

#[test]
fn the_copy_of_a_place_keeps_its_extension() {
    assert_eq!(temp_place_name("rbxlx"), "run-in-roblox-place.rbxlx");
    assert_eq!(temp_place_name("rbxl"), "run-in-roblox-place.rbxl");
    assert_eq!(temp_place_name(""), "run-in-roblox-place.");
}

#[test]
fn without_a_place_studio_opens_the_default_one() {
    assert_eq!(DEFAULT_PLACE_ID, 95206881);
    assert_eq!(DEFAULT_UNIVERSE_ID, 28220420);
    assert_eq!(
        place_arguments(None, None),
        vec!["-task", "EditPlace", "-placeId", "95206881", "-universeId", "28220420"]
    );
}

#[test]
fn a_place_alone_is_opened_without_a_universe() {
    assert_eq!(place_arguments(None, Some(1818)), vec!["-task", "EditPlace", "-placeId", "1818"]);
    assert_eq!(place_arguments(None, Some(0)), vec!["-task", "EditPlace", "-placeId", "0"]);
}

#[test]
fn a_place_in_a_universe_names_both() {
    assert_eq!(
        place_arguments(Some(42), Some(u64::MAX)),
        vec!["-task", "EditPlace", "-placeId", "18446744073709551615", "-universeId", "42"]
    );
}

#[test]
fn numbers_are_written_in_decimal() {
    assert_eq!(to_decimal(0), "0");
    assert_eq!(to_decimal(7), "7");
    assert_eq!(to_decimal(10), "10");
    assert_eq!(to_decimal(54023), "54023");
    assert_eq!(to_decimal(1_000_000), "1000000");
    assert_eq!(to_decimal(u64::MAX), u64::MAX.to_string());
}

#[test]
fn digits_are_lower_case() {
    let digits: String = (0u8..16).map(digit_to_char).collect();
    assert_eq!(digits, "0123456789abcdef");
}

#[test]
fn a_session_id_is_the_number_in_hexadecimal() {
    assert_eq!(server_id_for(0), "run-in-roblox-0");
    assert_eq!(server_id_for(15), "run-in-roblox-f");
    assert_eq!(server_id_for(16), "run-in-roblox-10");
    assert_eq!(server_id_for(255), "run-in-roblox-ff");
    assert_eq!(server_id_for(0xdead_beef), "run-in-roblox-deadbeef");
    assert_eq!(server_id_for(u128::MAX), format!("run-in-roblox-{:x}", u128::MAX));
    assert_eq!(server_id_for(0x1234_5678_9abc_def0), format!("run-in-roblox-{:x}", 0x1234_5678_9abc_def0u128));
}

#[test]
fn a_fresh_session_id_has_the_shape_of_one() {
    let id = generate_server_id();
    let number = id.strip_prefix("run-in-roblox-").expect("the fixed beginning");
    assert!(!number.is_empty() && number.len() <= 32);
    assert!(number.chars().all(|c| c.is_ascii_digit() || ('a'..='f').contains(&c)));
    assert!(number == "0" || !number.starts_with('0'));
}

#[test]
fn fresh_session_ids_differ() {
    assert_ne!(generate_server_id(), generate_server_id());
}
