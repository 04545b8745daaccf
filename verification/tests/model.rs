use validator::arrays::{BitsArray, BoolArray, IntArray, StrArray};
use validator::base::{
    clone_node_properties, clone_properties, clone_strings, copy_vec, AggregatorProperties,
    DataType, Nature, NatureCategorical, NatureContinuous, NodeProperties, Properties, Value,
    Vector1DNull, Vector2DJagged,
};
use validator::errors::{Capability, Error};
use validator::graph::{Component, ComponentExpansion, Neighboring, Variant};
use validator::named::NamedMap;
use validator::utilities::get_literal;

fn strings(items: &[&str]) -> Vec<String> {
    items.iter().map(|s| s.to_string()).collect()
}

fn sample() -> Properties {
    let mut inner: NodeProperties = NamedMap::new();
    inner.insert(
        "data".to_string(),
        Properties {
            num_records: None,
            num_columns: Some(2),
            nature: Some(Nature::Continuous(NatureContinuous {
                min: Vector1DNull::Str(vec![Some("a".to_string()), None]),
                max: Vector1DNull::Bool(vec![None, Some(true)]),
            })),
            data_type: DataType::Str,
            aggregator: None,
        },
    );
    Properties {
        num_records: Some(3),
        num_columns: Some(1),
        nature: Some(Nature::Categorical(NatureCategorical {
            categories: Vector2DJagged::Str(vec![strings(&["x", "y"]), strings(&[])]),
        })),
        data_type: DataType::I64,
        aggregator: Some(AggregatorProperties { component: Variant::Sum, properties: inner }),
    }
}

#[test]
fn a_named_map_holds_the_value_inserted_last() {
    let mut map: NamedMap<u32> = NamedMap::new();
    assert_eq!(map.get("data"), None);
    assert!(!map.contains_key("data"));
    map.insert("data".to_string(), 1);
    map.insert("categories".to_string(), 2);
    assert_eq!(map.get("data"), Some(&1));
    assert_eq!(map.get("categories"), Some(&2));
    assert_eq!(map.get("dat"), None);
    assert_eq!(map.get(""), None);
    map.insert("data".to_string(), 3);
    assert_eq!(map.get("data"), Some(&3));
    assert_eq!(map.get("categories"), Some(&2));
    assert!(map.contains_key("data"));
    assert!(!map.contains_key("Data"));
}

#[test]
fn node_properties_hold_the_properties_inserted_last() {
    let mut properties: NodeProperties = NamedMap::new();
    assert_eq!(properties.get_properties("data"), None);
    properties.insert_properties("data".to_string(), sample());
    assert_eq!(properties.get_properties("data"), Some(&sample()));
    let mut other = sample();
    other.num_records = None;
    properties.insert_properties("data".to_string(), other);
    assert_eq!(properties.get_properties("data").unwrap().num_records, None);
    assert_eq!(properties.get_properties("left"), None);
}

#[test]
fn neighboring_relations_are_decoded() {
    assert_eq!(Neighboring::from_i32(0), Some(Neighboring::Substitute));
    assert_eq!(Neighboring::from_i32(1), Some(Neighboring::AddRemove));
    assert_eq!(Neighboring::from_i32(2), None);
    assert_eq!(Neighboring::from_i32(-1), None);
    assert_eq!(Neighboring::from_i32(i32::MIN), None);
}

#[test]
fn every_error_has_its_message() {
    assert_eq!(Error::MissingArgument("data").message(), "data: missing");
    assert_eq!(Error::MissingArgument("categories").message(), "categories: missing");
    assert_eq!(
        Error::UnsupportedShape("categories must contain only one column").message(),
        "categories must contain only one column"
    );
    assert_eq!(
        Error::AlreadyAggregated.message(),
        "sensitivity is not defined for aggregated data"
    );
    assert_eq!(
        Error::UnsupportedSensitivitySpace.message(),
        "sensitivity is not implemented for this space"
    );
    assert_eq!(
        Error::UnsupportedNeighboringDefinition.message(),
        "neighboring definition must be either \"AddRemove\" or \"Substitute\""
    );
    assert_eq!(
        (Error::CapabilityNotImplemented {
            kind: Variant::Resize,
            capability: Capability::Expansion
        })
        .message(),
        "Resize does not implement graph expansion"
    );
}

#[test]
fn kinds_and_capabilities_have_names() {
    assert_eq!(Variant::Count.name(), "Count");
    assert_eq!(Variant::Kthrawsamplemoment.name(), "Kthrawsamplemoment");
    assert_eq!(Variant::Negative.name(), "Negative");
    assert_eq!(Capability::PropertyPropagation.name(), "property propagation");
    assert_eq!(Capability::Names.name(), "column names");
    assert_eq!(Capability::Expansion.name(), "graph expansion");
    assert_eq!(Capability::Sensitivity.name(), "sensitivity");
}

#[test]
fn an_array_of_one_axis_holds_its_items_in_order() {
    let integers = IntArray::from_vec(&vec![3, 1, 2]);
    assert_eq!(integers.shape(), vec![3]);
    assert_eq!(integers.to_vec(), vec![3, 1, 2]);
    let booleans = BoolArray::from_vec(&vec![true, false, false, true]);
    assert_eq!(booleans.shape(), vec![4]);
    assert_eq!(booleans.to_vec(), vec![true, false, false, true]);
    let bits = BitsArray::from_vec(&vec![1.5f64.to_bits(), (-0.0f64).to_bits()]);
    assert_eq!(bits.shape(), vec![2]);
    assert_eq!(bits.to_vec(), vec![1.5f64.to_bits(), (-0.0f64).to_bits()]);
    let words = StrArray::from_vec(&strings(&["b", "", "a"]));
    assert_eq!(words.shape(), vec![3]);
    assert_eq!(words.to_vec(), strings(&["b", "", "a"]));
    let empty = IntArray::from_vec(&vec![]);
    assert_eq!(empty.shape(), vec![0]);
    assert_eq!(empty.to_vec(), Vec::<i64>::new());
}

#[test]
fn a_filled_array_has_rows_and_columns() {
    let array = IntArray::filled(2, 3, 7).unwrap();
    assert_eq!(array.shape(), vec![2, 3]);
    assert_eq!(array.to_vec(), vec![7; 6]);
    let no_rows = IntArray::filled(0, 4, 7).unwrap();
    assert_eq!(no_rows.shape(), vec![0, 4]);
    assert_eq!(no_rows.to_vec(), Vec::<i64>::new());
    let no_columns = IntArray::filled(4, 0, 7).unwrap();
    assert_eq!(no_columns.shape(), vec![4, 0]);
    assert_eq!(no_columns.to_vec(), Vec::<i64>::new());
    let one = IntArray::filled(1, 1, -2).unwrap();
    assert_eq!(one.shape(), vec![1, 1]);
    assert_eq!(one.to_vec(), vec![-2]);
}

#[test]
fn an_array_that_cannot_be_held_is_not_made() {
    assert_eq!(IntArray::filled(usize::MAX, 2, 0), None);
    assert_eq!(IntArray::filled(usize::MAX, 0, 0), None);
    assert_eq!(IntArray::filled(0, usize::MAX, 0), None);
    assert_eq!(IntArray::filled(usize::MAX / 2 + 1, 1, 0), None);
}

#[test]
fn a_literal_is_a_constant_node_and_its_value() {
    let (node, release) = get_literal(Value::I64(IntArray::from_vec(&vec![4, 5])), 9);
    assert_eq!(node, Component { variant: Variant::Constant, arguments: NamedMap::new(), batch: 9 });
    assert_eq!(release.value, Value::I64(IntArray::from_vec(&vec![4, 5])));
}

#[test]
fn copies_equal_their_originals() {
    assert_eq!(copy_vec(&vec![Some(1i64), None]), vec![Some(1), None]);
    assert_eq!(clone_strings(&strings(&["a", "b"])), strings(&["a", "b"]));
    let original = sample();
    assert_eq!(clone_properties(&original), original);
    assert_eq!(original.clone(), sample());
    let mut properties: NodeProperties = NamedMap::new();
    properties.insert("data".to_string(), sample());
    properties.insert("by".to_string(), sample());
    assert_eq!(clone_node_properties(&properties), properties);
    let mut arguments = NamedMap::new();
    arguments.insert("data".to_string(), 3);
    let node = Component { variant: Variant::Mean, arguments, batch: 1 };
    assert_eq!(node.clone(), node);
}

#[test]
fn categories_know_their_columns() {
    let categories = Vector2DJagged::Str(vec![strings(&["x", "y"]), strings(&[]), strings(&["z"])]);
    assert_eq!(categories.get_num_columns(), 3);
    assert_eq!(categories.get_lengths(), vec![2, 0, 1]);
    assert_eq!(categories.get_length(2), 1);
    assert_eq!(Vector2DJagged::Bool(vec![]).get_num_columns(), 0);
    assert_eq!(Vector2DJagged::Bool(vec![]).get_lengths(), Vec::<usize>::new());
    assert_eq!(categories.clone(), categories);
}

#[test]
fn properties_answer_for_what_they_know() {
    let known = sample();
    assert_eq!(
        known.get_categories(),
        Ok(&Vector2DJagged::Str(vec![strings(&["x", "y"]), strings(&[])]))
    );
    assert_eq!(known.get_num_columns(), Ok(1));
    assert_eq!(known.assert_is_not_aggregated(), Err(Error::AlreadyAggregated));
    let inner = known.aggregator.as_ref().unwrap().properties.get("data").unwrap();
    assert_eq!(
        inner.get_categories(),
        Err(Error::UnsupportedShape("categories are not defined"))
    );
    assert_eq!(inner.assert_is_not_aggregated(), Ok(()));
    let bare = Properties {
        num_records: None,
        num_columns: None,
        nature: None,
        data_type: DataType::Bool,
        aggregator: None,
    };
    assert_eq!(
        bare.get_num_columns(),
        Err(Error::UnsupportedShape("number of columns is not defined"))
    );
    assert_eq!(bare.get_categories(), Err(Error::UnsupportedShape("categories are not defined")));
}

#[test]
fn a_new_patch_is_empty() {
    let patch = ComponentExpansion::new();
    assert!(patch.computation_graph.is_empty());
    assert!(patch.properties.is_empty());
    assert!(patch.releases.is_empty());
    assert!(patch.traversal.is_empty());
}
