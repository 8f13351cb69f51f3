use std::collections::HashMap;

use rbx_dom_weak::{RbxInstance, RbxInstanceProperties, RbxTree, RbxValue};
use run_in_roblox::place::RunInRbxPlace;
use run_in_roblox::session::{Action, Phase};
use run_in_roblox::start::{run_place, run_script, PlaceRunnerOptions, DEFAULT_PORT, DEFAULT_TIMEOUT};

fn options(port: u16) -> PlaceRunnerOptions {
    PlaceRunnerOptions { lua_script: "print('hi')".to_string(), port, timeout: 30 }
}

fn data_model() -> RbxTree {
    RbxTree::new(RbxInstanceProperties {
        name: "Game".to_string(),
        class_name: "DataModel".to_string(),
        properties: HashMap::new(),
    })
}

fn add(tree: &mut RbxTree, parent: rbx_dom_weak::RbxId, name: &str, class_name: &str) -> rbx_dom_weak::RbxId {
    tree.insert_instance(
        RbxInstanceProperties {
            name: name.to_string(),
            class_name: class_name.to_string(),
            properties: HashMap::new(),
        },
        parent,
    )
}

fn read_back(place: &RunInRbxPlace) -> RbxTree {
    let bytes = place.write().expect("the place encodes");
    rbx_xml::from_reader_default(&bytes[..]).expect("the place decodes")
}

fn top_level(tree: &RbxTree) -> Vec<&RbxInstance> {
    let root = tree.get_instance(tree.get_root_id()).unwrap();
    root.get_children_ids().iter().map(|id| tree.get_instance(*id).unwrap()).collect()
}

fn number(value: Option<&RbxValue>) -> i64 {
    match value {
        Some(RbxValue::Int32 { value }) => *value as i64,
        Some(RbxValue::Int64 { value }) => *value,
        other => panic!("not a number: {:?}", other),
    }
}

#[test]
fn the_defaults_are_the_documented_ones() {
    assert_eq!(DEFAULT_PORT, 54023);
    assert_eq!(DEFAULT_TIMEOUT, 15);
}

#[test]
fn an_empty_place_gets_the_service_and_the_marker() {
    let run = run_script(&options(9001));
    let tree = read_back(&run.place);
    let items = top_level(&tree);
    assert_eq!(items.len(), 2);
    assert_eq!(items[0].name, "HttpService");
    assert_eq!(items[0].class_name, "HttpService");
    assert_eq!(items[0].properties.get("HttpEnabled"), Some(&RbxValue::Bool { value: true }));
    assert_eq!(items[1].name, "RUN_IN_ROBLOX_PORT");
    assert_eq!(items[1].class_name, "IntValue");
    assert_eq!(number(items[1].properties.get("Value")), 9001);
}

#[test]
fn starting_a_run_begins_it() {
    let run = run_script(&options(9001));
    assert_eq!(run.session.phase, Phase::Building);
    assert!(!run.session.plugin_installed);
    assert!(!run.session.listener_running);
    assert!(!run.session.studio_running);
    assert!(!run.session.cleanup_failed);
    assert_eq!(run.actions, vec![Action::LocateStudio]);
    let opened = run_place(data_model(), &options(1));
    assert_eq!(opened.session.phase, Phase::Building);
    assert_eq!(opened.actions, vec![Action::LocateStudio]);
}

#[test]
fn the_marker_carries_the_port() {
    for port in [0u16, 1, 54023, 65535] {
        let tree = read_back(&run_script(&options(port)).place);
        let items = top_level(&tree);
        assert_eq!(number(items.last().unwrap().properties.get("Value")), port as i64);
    }
}

#[test]
fn a_place_with_a_bare_service_has_it_switched_on() {
    let mut tree = data_model();
    let root = tree.get_root_id();
    add(&mut tree, root, "Workspace", "Workspace");
    add(&mut tree, root, "HttpService", "HttpService");
    let place = run_place(tree, &options(80)).place;
    let tree = read_back(&place);
    let items = top_level(&tree);
    assert_eq!(items.len(), 3);
    assert_eq!(items[0].class_name, "Workspace");
    assert_eq!(items[1].class_name, "HttpService");
    assert_eq!(items[1].properties.get("HttpEnabled"), Some(&RbxValue::Bool { value: true }));
    assert_eq!(items[2].name, "RUN_IN_ROBLOX_PORT");
    assert_eq!(number(items[2].properties.get("Value")), 80);
}

#[test]
fn a_service_switched_off_by_hand_stays_off() {
    let mut tree = data_model();
    let root = tree.get_root_id();
    let mut properties = HashMap::new();
    properties.insert("HttpEnabled".to_string(), RbxValue::Bool { value: false });
    tree.insert_instance(
        RbxInstanceProperties {
            name: "HttpService".to_string(),
            class_name: "HttpService".to_string(),
            properties,
        },
        root,
    );
    let place = RunInRbxPlace::new(tree, 80);
    let tree = read_back(&place);
    let items = top_level(&tree);
    assert_eq!(items.len(), 2);
    assert_eq!(items[0].properties.get("HttpEnabled"), Some(&RbxValue::Bool { value: false }));
    assert_eq!(items[1].name, "RUN_IN_ROBLOX_PORT");
}

#[test]
fn only_the_first_service_visited_is_switched_on() {
    let mut tree = data_model();
    let root = tree.get_root_id();
    add(&mut tree, root, "First", "HttpService");
    let folder = add(&mut tree, root, "Folder", "Folder");
    add(&mut tree, folder, "Nested", "HttpService");
    add(&mut tree, root, "Last", "HttpService");
    let place = RunInRbxPlace::new(tree, 80);
    let tree = read_back(&place);
    let items = top_level(&tree);
    assert_eq!(items.len(), 4);
    assert_eq!(items[0].name, "First");
    assert_eq!(items[0].properties.get("HttpEnabled"), None);
    assert_eq!(items[1].name, "Folder");
    let nested = tree.get_instance(items[1].get_children_ids()[0]).unwrap();
    assert_eq!(nested.name, "Nested");
    assert_eq!(nested.properties.get("HttpEnabled"), None);
    assert_eq!(items[2].name, "Last");
    assert_eq!(items[2].properties.get("HttpEnabled"), Some(&RbxValue::Bool { value: true }));
    assert_eq!(items[3].name, "RUN_IN_ROBLOX_PORT");
}

#[test]
fn a_service_deep_in_the_place_is_found() {
    let mut tree = data_model();
    let root = tree.get_root_id();
    let folder = add(&mut tree, root, "Folder", "Folder");
    let inner = add(&mut tree, folder, "Inner", "Folder");
    add(&mut tree, inner, "Deep", "HttpService");
    let place = RunInRbxPlace::new(tree, 80);
    let tree = read_back(&place);
    let items = top_level(&tree);
    assert_eq!(items.len(), 2);
    let inner = tree.get_instance(items[0].get_children_ids()[0]).unwrap();
    let deep = tree.get_instance(inner.get_children_ids()[0]).unwrap();
    assert_eq!(deep.properties.get("HttpEnabled"), Some(&RbxValue::Bool { value: true }));
    assert_eq!(items[1].name, "RUN_IN_ROBLOX_PORT");
}

#[test]
fn a_place_file_holds_what_stands_under_the_root() {
    let bytes = run_script(&options(9001)).place.write().unwrap();
    let text = String::from_utf8(bytes).unwrap();
    assert!(text.starts_with("<roblox version=\"4\">"));
    assert!(!text.contains("DataModel"));
    assert_eq!(text.matches("<Item ").count(), 2);
}

#[test]
fn a_place_that_cannot_be_encoded_says_why() {
    let mut tree = data_model();
    let root = tree.get_root_id();
    let mut properties = HashMap::new();
    properties.insert("HttpEnabled".to_string(), RbxValue::String { value: "yes".to_string() });
    tree.insert_instance(
        RbxInstanceProperties {
            name: "HttpService".to_string(),
            class_name: "HttpService".to_string(),
            properties,
        },
        root,
    );
    let error = RunInRbxPlace::new(tree, 80).write().unwrap_err();
    assert!(!error.message.is_empty());
}
