//! Trees of Roblox instances and their XML form.
//!
//! The trees are `rbx_dom_weak`'s and the encoding is `rbx_xml`'s. This
//! module states what the rest of the crate relies on of the two: what a
//! tree holds after it has been made or added to, and that the XML of a
//! tree is settled by what the tree holds.

use rbx_dom_weak::{RbxInstanceProperties, RbxTree, RbxValue};
use vstd::prelude::*;

verus! {

/// `rbx_dom_weak::RbxTree`: a tree of instances. Nothing of its inside is
/// visible here; `tree_items` and `visit_order` name what it holds.
#[verifier::external_type_specification]
#[verifier::external_body]
pub struct ExRbxTree(RbxTree);

/// `rbx_xml::EncodeError`: why a tree could not be written as XML.
#[verifier::external_type_specification]
#[verifier::external_body]
pub struct ExEncodeError(rbx_xml::EncodeError);

/// The value of a property, of the kinds this crate sets.
#[derive(Debug, PartialEq, Eq)]
pub enum PropertyValue {
    Bool(bool),
    Int32(i32),
    Text(String),
}

/// The value of a property as a mathematical value. `Other` stands for
/// every kind of value that this crate does not set itself.
pub enum PropertyView {
    Bool(bool),
    Int32(i32),
    Text(Seq<char>),
    Other,
}

impl View for PropertyValue {
    type V = PropertyView;

    open spec fn view(&self) -> PropertyView {
        match self {
            PropertyValue::Bool(value) => PropertyView::Bool(*value),
            PropertyValue::Int32(value) => PropertyView::Int32(*value),
            PropertyValue::Text(value) => PropertyView::Text(value@),
        }
    }
}

/// A named property.
#[derive(Debug, PartialEq, Eq)]
pub struct Property {
    pub name: String,
    pub value: PropertyValue,
}

/// An instance as a mathematical value: how deep it stands in its tree (the
/// root at depth 0), its name, its class and its properties.
pub struct ItemView {
    pub depth: nat,
    pub name: Seq<char>,
    pub class_name: Seq<char>,
    pub properties: Map<Seq<char>, PropertyView>,
}

/// The properties that a list of named properties sets: where a name
/// occurs more than once, the last occurrence counts.
pub open spec fn properties_of(list: Seq<Property>) -> Map<Seq<char>, PropertyView>
    decreases list.len(),
{
    if list.len() == 0 {
        Map::empty()
    } else {
        properties_of(list.drop_last()).insert(list.last().name@, list.last().value@)
    }
}

/// The instance at depth `depth` with the given name, class and properties.
pub open spec fn item(
    depth: nat,
    name: Seq<char>,
    class_name: Seq<char>,
    properties: Seq<Property>,
) -> ItemView {
    ItemView { depth, name, class_name, properties: properties_of(properties) }
}

/// Whether every property of every instance is of a kind this crate sets.
pub open spec fn all_plain(items: Seq<ItemView>) -> bool {
    forall|i: int, key: Seq<char>|
        0 <= i < items.len() && #[trigger] items[i].properties.contains_key(key)
            ==> !(items[i].properties[key] is Other)
}

/// The positions of the instances that stand directly under the root, in
/// their order.
pub open spec fn top_level(items: Seq<ItemView>) -> Seq<int>
    decreases items.len(),
{
    if items.len() == 0 {
        Seq::empty()
    } else if items.last().depth == 1 {
        top_level(items.drop_last()).push(items.len() - 1)
    } else {
        top_level(items.drop_last())
    }
}

/// The instances of a tree in document order: each instance before its
/// children, the children of an instance in their order, so that the root
/// comes first.
pub uninterp spec fn tree_items(tree: RbxTree) -> Seq<ItemView>;

/// The order in which `RbxTree::descendants`, asked for the descendants of
/// the root, yields them: each is given by its position in `tree_items`.
pub uninterp spec fn visit_order(tree: RbxTree) -> Seq<int>;

/// The XML that `rbx_xml::to_writer_default` writes for the instances at
/// the positions `roots` of a tree that holds `items`, each with all below
/// it; `None` where it fails.
pub uninterp spec fn encoded_xml(items: Seq<ItemView>, roots: Seq<int>) -> Option<Seq<u8>>;

/// Makes a tree of one instance, its root, with `RbxTree::new`.
#[verifier::external_body]
pub(crate) fn tree_new(name: &str, class_name: &str, properties: &Vec<Property>) -> (tree: RbxTree)
    ensures
        tree_items(tree) == seq![item(0, name@, class_name@, properties@)],
        visit_order(tree) == Seq::<int>::empty(),
{
    RbxTree::new(RbxInstanceProperties {
        name: name.to_owned(),
        class_name: class_name.to_owned(),
        properties: properties.iter().map(|p| (p.name.clone(), match &p.value {
            PropertyValue::Bool(value) => RbxValue::Bool { value: *value },
            PropertyValue::Int32(value) => RbxValue::Int32 { value: *value },
            PropertyValue::Text(value) => RbxValue::String { value: value.clone() },
        })).collect(),
    })
}

/// Adds an instance as the last child of the root, with
/// `RbxTree::insert_instance`. In document order the new instance comes
/// last; `RbxTree::descendants` yields it first.
#[verifier::external_body]
pub(crate) fn tree_insert_top(
    tree: &mut RbxTree,
    name: &str,
    class_name: &str,
    properties: &Vec<Property>,
)
    ensures
        tree_items(*final(tree)) == tree_items(*old(tree)).push(
            item(1, name@, class_name@, properties@),
        ),
        visit_order(*final(tree)) == seq![tree_items(*old(tree)).len() as int] + visit_order(
            *old(tree),
        ),
{
    let root = tree.get_root_id();
    tree.insert_instance(RbxInstanceProperties {
        name: name.to_owned(),
        class_name: class_name.to_owned(),
        properties: properties.iter().map(|p| (p.name.clone(), match &p.value {
            PropertyValue::Bool(value) => RbxValue::Bool { value: *value },
            PropertyValue::Int32(value) => RbxValue::Int32 { value: *value },
            PropertyValue::Text(value) => RbxValue::String { value: value.clone() },
        })).collect(),
    }, root);
}

/// An instance with a property defaulted: if it has no property of that
/// name it gets one with the given value, and if it has one it stays as it
/// is.
pub open spec fn with_default(instance: ItemView, name: Seq<char>, value: PropertyView) -> ItemView {
    if instance.properties.contains_key(name) {
        instance
    } else {
        ItemView { properties: instance.properties.insert(name, value), ..instance }
    }
}

/// The classes of the descendants of the root, in the order in which
/// `RbxTree::descendants` yields them. Every position in `visit_order` is
/// that of an instance below the root.
#[verifier::external_body]
pub(crate) fn descendant_classes(tree: &RbxTree) -> (classes: Vec<String>)
    ensures
        classes@.len() == visit_order(*tree).len(),
        forall|i: int|
            0 <= i < classes@.len() ==> 0 < #[trigger] visit_order(*tree)[i] < tree_items(
                *tree,
            ).len(),
        forall|i: int|
            0 <= i < classes@.len() ==> (#[trigger] classes@[i])@ == tree_items(
                *tree,
            )[visit_order(*tree)[i]].class_name,
{
    tree.descendants(tree.get_root_id()).map(|instance| instance.class_name.clone()).collect()
}

/// Defaults a property of the descendant that `RbxTree::descendants`
/// yields at place `at`: through `RbxTree::get_instance_mut`, the property
/// is set unless the instance has one of that name. Nothing else of the
/// tree changes.
#[verifier::external_body]
pub(crate) fn default_property(tree: &mut RbxTree, at: usize, property: &Property)
    requires
        at < visit_order(*old(tree)).len(),
    ensures
        visit_order(*final(tree)) == visit_order(*old(tree)),
        tree_items(*final(tree)) == tree_items(*old(tree)).update(
            visit_order(*old(tree))[at as int],
            with_default(
                tree_items(*old(tree))[visit_order(*old(tree))[at as int]],
                property.name@,
                property.value@,
            ),
        ),
{
    let id = tree.descendants(tree.get_root_id()).nth(at).unwrap().get_id();
    let value = match &property.value {
        PropertyValue::Bool(value) => RbxValue::Bool { value: *value },
        PropertyValue::Int32(value) => RbxValue::Int32 { value: *value },
        PropertyValue::Text(value) => RbxValue::String { value: value.clone() },
    };
    tree.get_instance_mut(id).unwrap().properties.entry(property.name.clone()).or_insert(value);
}

/// Writes the root of a tree, with all below it, as XML, with
/// `rbx_xml::to_writer_default`. For a tree of plain properties the
/// outcome is the one that `encoded_xml` names.
#[verifier::external_body]
pub(crate) fn encode_root(tree: &RbxTree) -> (xml: Result<Vec<u8>, rbx_xml::EncodeError>)
    ensures
        all_plain(tree_items(*tree)) ==> match xml {
            Ok(bytes) => encoded_xml(tree_items(*tree), seq![0int]) == Some(bytes@),
            Err(_) => encoded_xml(tree_items(*tree), seq![0int]) is None,
        },
{
    let mut xml = Vec::new();
    rbx_xml::to_writer_default(&mut xml, tree, &[tree.get_root_id()])?;
    Ok(xml)
}

/// Writes the instances that stand directly under the root of a tree, each
/// with all below it, as XML, with `rbx_xml::to_writer_default`. For a
/// tree of plain properties the outcome is the one that `encoded_xml`
/// names.
#[verifier::external_body]
pub(crate) fn encode_top_level(tree: &RbxTree) -> (xml: Result<Vec<u8>, rbx_xml::EncodeError>)
    ensures
        all_plain(tree_items(*tree)) ==> match xml {
            Ok(bytes) => encoded_xml(tree_items(*tree), top_level(tree_items(*tree))) == Some(
                bytes@,
            ),
            Err(_) => encoded_xml(tree_items(*tree), top_level(tree_items(*tree))) is None,
        },
{
    let root = tree.get_instance(tree.get_root_id()).unwrap();
    let mut xml = Vec::new();
    rbx_xml::to_writer_default(&mut xml, tree, root.get_children_ids())?;
    Ok(xml)
}

/// What an `rbx_xml::EncodeError` says of itself.
#[verifier::external_body]
pub(crate) fn encode_error_text(error: &rbx_xml::EncodeError) -> (text: String) {
    error.to_string()
}

/// Why a tree could not be written out.
#[derive(Debug, PartialEq, Eq)]
pub struct WriteError {
    /// What the encoder said.
    pub message: String,
}

/// The XML of the root of a tree with all below it, or why there is none.
pub fn root_xml(tree: &RbxTree) -> (xml: Result<Vec<u8>, WriteError>)
    ensures
        all_plain(tree_items(*tree)) ==> match xml {
            Ok(bytes) => encoded_xml(tree_items(*tree), seq![0int]) == Some(bytes@),
            Err(_) => encoded_xml(tree_items(*tree), seq![0int]) is None,
        },
{
    match encode_root(tree) {
        Ok(bytes) => Ok(bytes),
        Err(error) => Err(WriteError { message: encode_error_text(&error) }),
    }
}

/// The XML of the instances directly under the root of a tree, each with
/// all below it, or why there is none.
pub fn top_level_xml(tree: &RbxTree) -> (xml: Result<Vec<u8>, WriteError>)
    ensures
        all_plain(tree_items(*tree)) ==> match xml {
            Ok(bytes) => encoded_xml(tree_items(*tree), top_level(tree_items(*tree))) == Some(
                bytes@,
            ),
            Err(_) => encoded_xml(tree_items(*tree), top_level(tree_items(*tree))) is None,
        },
{
    match encode_top_level(tree) {
        Ok(bytes) => Ok(bytes),
        Err(error) => Err(WriteError { message: encode_error_text(&error) }),
    }
}

/// A list of one property holds that property and no other.
pub proof fn lemma_single_property(list: Seq<Property>)
    requires
        list.len() == 1,
    ensures
        properties_of(list) == Map::<Seq<char>, PropertyView>::empty().insert(
            list[0].name@,
            list[0].value@,
        ),
{
    assert(properties_of(list.drop_last()) =~= Map::<Seq<char>, PropertyView>::empty());
}

/// No list of properties sets a value of a kind that this crate does not
/// set.
pub proof fn lemma_properties_are_plain(list: Seq<Property>)
    ensures
        forall|key: Seq<char>| #[trigger]
            properties_of(list).contains_key(key) ==> !(properties_of(list)[key] is Other),
    decreases list.len(),
{
    if list.len() > 0 {
        lemma_properties_are_plain(list.drop_last());
    }
}

} // verus!
