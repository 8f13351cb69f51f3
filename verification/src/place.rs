//! The place that Studio opens for a run.
//!
//! A place is made ready for a run in two steps: HTTP requests are switched
//! on, so that the plugin can call back, and the port of the run is left in
//! the place as a marker.

use crate::dom::{all_plain, default_property, descendant_classes, encoded_xml};
use crate::dom::{lemma_single_property, top_level, top_level_xml, tree_insert_top, tree_items};
use crate::dom::{visit_order, with_default, ItemView, Property, PropertyValue, PropertyView};
use crate::dom::WriteError;
use crate::message_receiver::same_text;
use rbx_dom_weak::RbxTree;
use vstd::prelude::*;
use vstd::string::*;

verus! {

/// The class, and the name, of the service that makes HTTP requests.
pub const HTTP_SERVICE: &'static str = "HttpService";

/// The property that switches HTTP requests on.
pub const HTTP_ENABLED: &'static str = "HttpEnabled";

/// The name of the marker that carries the port.
pub const PORT_MARKER: &'static str = "RUN_IN_ROBLOX_PORT";

/// The class of the marker that carries the port.
pub const PORT_MARKER_CLASS: &'static str = "IntValue";

/// The property of the marker that holds the port.
pub const PORT_MARKER_VALUE: &'static str = "Value";

/// The place in `order` of the first instance of class `class_name`, if
/// `order` leads to one.
pub open spec fn first_of_class(
    items: Seq<ItemView>,
    order: Seq<int>,
    class_name: Seq<char>,
) -> Option<int>
    decreases order.len(),
{
    if order.len() == 0 {
        None
    } else {
        match first_of_class(items, order.drop_last(), class_name) {
            Some(at) => Some(at),
            None => if items[order.last()].class_name == class_name {
                Some(order.len() - 1)
            } else {
                None
            },
        }
    }
}

/// The service that makes HTTP requests, switched on, as a new instance
/// under the root.
pub open spec fn http_service_item() -> ItemView {
    ItemView {
        depth: 1,
        name: HTTP_SERVICE@,
        class_name: HTTP_SERVICE@,
        properties: Map::<Seq<char>, PropertyView>::empty().insert(
            HTTP_ENABLED@,
            PropertyView::Bool(true),
        ),
    }
}

/// The marker that carries `port`, as a new instance under the root.
pub open spec fn port_marker_item(port: u16) -> ItemView {
    ItemView {
        depth: 1,
        name: PORT_MARKER@,
        class_name: PORT_MARKER_CLASS@,
        properties: Map::<Seq<char>, PropertyView>::empty().insert(
            PORT_MARKER_VALUE@,
            PropertyView::Int32(port as i32),
        ),
    }
}

/// The instances of a tree after HTTP requests have been switched on: the
/// first HTTP service among the descendants, in the order in which the tree
/// is visited, has its switch defaulted to on; a tree without the service
/// gets one that is switched on. A service that is switched off by hand
/// stays off.
pub open spec fn http_enabled(items: Seq<ItemView>, order: Seq<int>) -> Seq<ItemView> {
    match first_of_class(items, order, HTTP_SERVICE@) {
        Some(at) => items.update(
            order[at],
            with_default(items[order[at]], HTTP_ENABLED@, PropertyView::Bool(true)),
        ),
        None => items.push(http_service_item()),
    }
}

/// The instances of a place made ready for the run on `port`, from the
/// instances and the visiting order of the tree it is made from.
pub open spec fn prepared(items: Seq<ItemView>, order: Seq<int>, port: u16) -> Seq<ItemView> {
    http_enabled(items, order).push(port_marker_item(port))
}

/// `first_of_class` finds an instance of the class, none of the class is
/// visited before it, and it finds nothing only where none is visited.
pub proof fn lemma_first_of_class(items: Seq<ItemView>, order: Seq<int>, class_name: Seq<char>)
    ensures
        match first_of_class(items, order, class_name) {
            Some(at) => 0 <= at < order.len() && items[order[at]].class_name == class_name
                && forall|i: int| 0 <= i < at ==> items[#[trigger] order[i]].class_name != class_name,
            None => forall|i: int|
                0 <= i < order.len() ==> items[#[trigger] order[i]].class_name != class_name,
        },
    decreases order.len(),
{
    if order.len() > 0 {
        lemma_first_of_class(items, order.drop_last(), class_name);
        assert(forall|i: int| 0 <= i < order.len() - 1 ==> order.drop_last()[i] == order[i]);
    }
}

/// A place made ready for a run.
pub struct RunInRbxPlace {
    tree: RbxTree,
}

impl RunInRbxPlace {
    /// The instances of the place, in document order.
    pub closed spec fn items(&self) -> Seq<ItemView> {
        tree_items(self.tree)
    }

    /// Makes a place ready for the run on `port`.
    pub fn new(tree: RbxTree, port: u16) -> (place: RunInRbxPlace)
        ensures
            place.items() == prepared(tree_items(tree), visit_order(tree), port),
    {
        let mut tree = tree;
        enable_http(&mut tree);
        add_plugin_marker(&mut tree, port);
        RunInRbxPlace { tree }
    }

    /// The place as the bytes of a place file: the instances under the root,
    /// as Studio expects them; or why it could not be encoded.
    pub fn write(&self) -> (file: Result<Vec<u8>, WriteError>)
        ensures
            all_plain(self.items()) ==> match file {
                Ok(bytes) => encoded_xml(self.items(), top_level(self.items())) == Some(bytes@),
                Err(_) => encoded_xml(self.items(), top_level(self.items())) is None,
            },
    {
        top_level_xml(&self.tree)
    }
}

/// Leaves the port of the run in the place, as the value of a marker under
/// the root.
fn add_plugin_marker(tree: &mut RbxTree, port: u16)
    ensures
        tree_items(*final(tree)) == tree_items(*old(tree)).push(port_marker_item(port)),
{
    let mut properties = Vec::new();
    properties.push(
        Property {
            name: String::from_str(PORT_MARKER_VALUE),
            value: PropertyValue::Int32(port as i32),
        },
    );
    proof {
        lemma_single_property(properties@);
    }
    tree_insert_top(tree, PORT_MARKER, PORT_MARKER_CLASS, &properties);
}

/// Switches HTTP requests on: in the first HTTP service that the tree holds
/// below its root, unless that service has the switch set already, or else
/// in a service of its own.
fn enable_http(tree: &mut RbxTree)
    ensures
        tree_items(*final(tree)) == http_enabled(tree_items(*old(tree)), visit_order(*old(tree))),
{
    let classes = descendant_classes(tree);
    let ghost items = tree_items(*tree);
    let ghost order = visit_order(*tree);
    let mut at: usize = 0;
    while at < classes.len()
        invariant
            at <= classes.len(),
            classes@.len() == order.len(),
            items == tree_items(*tree),
            order == visit_order(*tree),
            items == tree_items(*old(tree)),
            order == visit_order(*old(tree)),
            forall|i: int| 0 <= i < classes@.len() ==> 0 < #[trigger] order[i] < items.len(),
            forall|i: int|
                0 <= i < classes@.len() ==> (#[trigger] classes@[i])@
                    == items[order[i]].class_name,
            forall|i: int| 0 <= i < at ==> items[#[trigger] order[i]].class_name != HTTP_SERVICE@,
        decreases classes.len() - at,
    {
        if same_text(classes[at].as_str(), HTTP_SERVICE) {
            proof {
                lemma_first_of_class(items, order, HTTP_SERVICE@);
            }
            let switch = Property {
                name: String::from_str(HTTP_ENABLED),
                value: PropertyValue::Bool(true),
            };
            default_property(tree, at, &switch);
            return ;
        }
        at += 1;
    }
    proof {
        lemma_first_of_class(items, order, HTTP_SERVICE@);
    }
    insert_http_service(tree);
}

/// Adds an HTTP service, switched on, under the root.
fn insert_http_service(tree: &mut RbxTree)
    ensures
        tree_items(*final(tree)) == tree_items(*old(tree)).push(http_service_item()),
{
    let mut properties = Vec::new();
    properties.push(
        Property { name: String::from_str(HTTP_ENABLED), value: PropertyValue::Bool(true) },
    );
    proof {
        lemma_single_property(properties@);
    }
    tree_insert_top(tree, HTTP_SERVICE, HTTP_SERVICE, &properties);
}

} // verus!
