use validator::base::{
    DataType, Nature, NatureCategorical, NodeProperties, Properties, Value, Vector2DJagged,
};
use validator::components::Expandable;
use validator::errors::Error;
use validator::graph::{Component, ComponentExpansion, Count, PrivacyDefinition, Variant};
use validator::named::NamedMap;

fn strings(items: &[&str]) -> Vec<String> {
    items.iter().map(|s| s.to_string()).collect()
}

fn inputs(categories: Option<Vector2DJagged>) -> NodeProperties {
    let nature = categories.map(|categories| Nature::Categorical(NatureCategorical { categories }));
    let mut properties = NamedMap::new();
    properties.insert(
        "data".to_string(),
        Properties {
            num_records: None,
            num_columns: Some(1),
            nature,
            data_type: DataType::Str,
            aggregator: None,
        },
    );
    properties
}

fn count_node(batch: u32) -> Component {
    let mut arguments = NamedMap::new();
    arguments.insert("data".to_string(), 3);
    Component { variant: Variant::Count, arguments, batch }
}

fn expand(
    component: &Component,
    properties: &NodeProperties,
    component_id: u32,
    maximum_id: u32,
) -> Result<ComponentExpansion, Error> {
    let privacy_definition = PrivacyDefinition { neighboring: 0 };
    (Count {}).expand_component(&privacy_definition, component, properties, component_id, maximum_id)
}

fn is_empty(patch: &ComponentExpansion) -> bool {
    patch.computation_graph.is_empty()
        && patch.properties.is_empty()
        && patch.releases.is_empty()
        && patch.traversal.is_empty()
}

#[test]
fn known_categories_become_a_constant_node() {
    let properties = inputs(Some(Vector2DJagged::Str(vec![strings(&["X", "Y", "Z"])])));
    let patch = expand(&count_node(7), &properties, 5, 10).unwrap();

    assert_eq!(patch.computation_graph.len(), 2);
    let literal = &patch.computation_graph[&11];
    assert_eq!(literal.variant, Variant::Constant);
    assert!(literal.arguments.entries.is_empty());
    assert_eq!(literal.batch, 7);

    let rewired = &patch.computation_graph[&5];
    assert_eq!(rewired.variant, Variant::Count);
    assert_eq!(rewired.batch, 7);
    assert_eq!(rewired.arguments.get("categories"), Some(&11));
    assert_eq!(rewired.arguments.get("data"), Some(&3));

    assert_eq!(patch.releases.len(), 1);
    match &patch.releases[&11].value {
        Value::Str(array) => {
            assert_eq!(array.shape(), vec![3]);
            assert_eq!(array.to_vec(), strings(&["X", "Y", "Z"]));
        }
        other => panic!("the categories are strings, not {:?}", other),
    }
    assert!(patch.properties.is_empty());
    assert!(patch.traversal.is_empty());
}

#[test]
fn a_wired_node_is_not_expanded_again() {
    let properties = inputs(Some(Vector2DJagged::Str(vec![strings(&["X", "Y", "Z"])])));
    let first = expand(&count_node(0), &properties, 5, 10).unwrap();
    let wired = &first.computation_graph[&5];
    let second = expand(wired, &properties, 5, 11).unwrap();
    assert!(is_empty(&second));
}

#[test]
fn a_node_with_its_categories_needs_no_data() {
    let mut node = count_node(0);
    node.arguments.insert("categories".to_string(), 4);
    let properties: NodeProperties = NamedMap::new();
    assert!(is_empty(&expand(&node, &properties, 5, 10).unwrap()));
}

#[test]
fn unknown_categories_leave_the_node_alone() {
    let patch = expand(&count_node(0), &inputs(None), 5, 10).unwrap();
    assert!(is_empty(&patch));
}

#[test]
fn the_constant_has_the_type_of_the_categories() {
    let integers = inputs(Some(Vector2DJagged::I64(vec![vec![-1, 0, 1]])));
    match &expand(&count_node(0), &integers, 0, 0).unwrap().releases[&1].value {
        Value::I64(array) => {
            assert_eq!(array.shape(), vec![3]);
            assert_eq!(array.to_vec(), vec![-1, 0, 1]);
        }
        other => panic!("the categories are integers, not {:?}", other),
    }
    let booleans = inputs(Some(Vector2DJagged::Bool(vec![vec![false, true]])));
    match &expand(&count_node(0), &booleans, 0, 0).unwrap().releases[&1].value {
        Value::Bool(array) => {
            assert_eq!(array.shape(), vec![2]);
            assert_eq!(array.to_vec(), vec![false, true]);
        }
        other => panic!("the categories are booleans, not {:?}", other),
    }
    let floats = inputs(Some(Vector2DJagged::F64(vec![vec![0.5f64.to_bits(), 2.0f64.to_bits()]])));
    match &expand(&count_node(0), &floats, 0, 0).unwrap().releases[&1].value {
        Value::F64(array) => {
            assert_eq!(array.shape(), vec![2]);
            let values: Vec<f64> = array.to_vec().into_iter().map(f64::from_bits).collect();
            assert_eq!(values, vec![0.5, 2.0]);
        }
        other => panic!("the categories are floats, not {:?}", other),
    }
}

#[test]
fn the_constant_holds_the_first_column() {
    let properties = inputs(Some(Vector2DJagged::I64(vec![vec![8, 9], vec![1, 2, 3]])));
    match &expand(&count_node(0), &properties, 2, 6).unwrap().releases[&7].value {
        Value::I64(array) => assert_eq!(array.to_vec(), vec![8, 9]),
        other => panic!("the categories are integers, not {:?}", other),
    }
}

#[test]
fn an_empty_column_becomes_an_empty_constant() {
    let properties = inputs(Some(Vector2DJagged::Str(vec![vec![]])));
    match &expand(&count_node(0), &properties, 2, 6).unwrap().releases[&7].value {
        Value::Str(array) => {
            assert_eq!(array.shape(), vec![0]);
            assert_eq!(array.to_vec(), Vec::<String>::new());
        }
        other => panic!("the categories are strings, not {:?}", other),
    }
}

#[test]
fn new_ids_follow_the_greatest_id() {
    let properties = inputs(Some(Vector2DJagged::I64(vec![vec![1, 2]])));
    for (component_id, maximum_id) in [(0, 0), (5, 10), (10, 10), (3, u32::MAX - 1)] {
        let patch = expand(&count_node(0), &properties, component_id, maximum_id).unwrap();
        let mut nodes: Vec<u32> = patch.computation_graph.keys().copied().collect();
        nodes.sort();
        assert_eq!(nodes, vec![component_id, maximum_id + 1]);
        let releases: Vec<u32> = patch.releases.keys().copied().collect();
        assert_eq!(releases, vec![maximum_id + 1]);
    }
}

#[test]
fn expansion_fails_without_data() {
    let properties: NodeProperties = NamedMap::new();
    assert_eq!(expand(&count_node(0), &properties, 5, 10), Err(Error::MissingArgument("data")));
}

#[test]
fn expansion_fails_on_categories_without_columns() {
    let properties = inputs(Some(Vector2DJagged::Str(vec![])));
    assert_eq!(
        expand(&count_node(0), &properties, 5, 10),
        Err(Error::UnsupportedShape("categories must contain a column"))
    );
}

#[test]
fn expansion_leaves_the_node_it_was_given() {
    let properties = inputs(Some(Vector2DJagged::I64(vec![vec![1, 2]])));
    let node = count_node(2);
    let _ = expand(&node, &properties, 5, 10).unwrap();
    assert_eq!(node, count_node(2));
    assert_eq!(node.arguments.get("categories"), None);
}
