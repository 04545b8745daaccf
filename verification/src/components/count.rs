//! The rules of the node kind that counts records.
//!
//! A count over data whose categories are known is a count per category;
//! over other data it is one number.

use crate::arrays::{nonzero_size, BitsArray, BoolArray, IntArray, StrArray};
use crate::base::{
    AggregatorProperties, AggregatorView, ColumnView, DataType, Nature, NatureContinuous,
    NatureView, NodeProperties, Properties, PropertiesView, PublicArguments, SensitivitySpace,
    Value, ValueView, Vector1DNull, Vector1DNullView, Vector2DJagged, clone_node_properties,
    lemma_categories_fit, lemma_entries_model,
};
use crate::components::{Aggregator, Component, Expandable};
use crate::errors::{Capability, Error};
use crate::graph::{
    Component as Node, ComponentExpansion, ComponentView, Count, ExpansionView, Neighboring,
    PrivacyDefinition, ReleaseView, Variant,
};
use crate::utilities::{get_literal, literal_node};
use vstd::prelude::*;
use vstd::string::*;

verus! {

broadcast use vstd::std_specs::hash::group_hash_axioms;

/// The bounds of `columns` counts: none is negative, and none has a known
/// greatest value.
pub open spec fn count_nature(columns: u64) -> NatureView {
    NatureView::Continuous {
        min: Vector1DNullView::I64(Seq::new(columns as nat, |i: int| Some(0i64))),
        max: Vector1DNullView::I64(Seq::new(columns as nat, |i: int| None::<i64>)),
    }
}

/// The properties of a count of `num_records` records in each of
/// `num_columns` columns, taken over inputs with the properties `inputs`.
pub open spec fn counted(
    inputs: Map<Seq<char>, PropertiesView>,
    num_records: u64,
    num_columns: Option<u64>,
) -> Result<PropertiesView, Error> {
    match num_columns {
        None => Err(Error::UnsupportedShape("number of columns is not defined")),
        Some(columns) => Ok(
            PropertiesView {
                num_records: Some(num_records),
                num_columns: Some(columns),
                nature: Some(count_nature(columns)),
                data_type: DataType::I64,
                aggregator: Some(AggregatorView { component: Variant::Count, properties: inputs }),
            },
        ),
    }
}

/// The properties of the output of a count over inputs with the properties
/// `inputs`. Where the categories of the data are known they must form one
/// column, and there is one record for each category; else the count is one
/// number.
pub open spec fn count_properties(inputs: Map<Seq<char>, PropertiesView>) -> Result<
    PropertiesView,
    Error,
> {
    if !inputs.contains_key("data"@) {
        Err(Error::MissingArgument("data"))
    } else {
        let data = inputs["data"@];
        match data.categories() {
            Some(categories) => if categories.len() != 1 {
                Err(Error::UnsupportedShape("categories must contain only one column"))
            } else {
                counted(inputs, categories[0].len() as u64, data.num_columns)
            },
            None => counted(inputs, 1, Some(1)),
        }
    }
}

/// The number of categories that a count groups by: the length of the
/// first column of the categories, where there is one.
pub open spec fn categories_length(data: PropertiesView) -> Option<nat> {
    match data.categories() {
        Some(categories) => if categories.len() > 0 {
            Some(categories[0].len())
        } else {
            None
        },
        None => None,
    }
}

/// How far one cell of a count moves between neighboring datasets.
///
/// Without categories, or with one, the count is the number of records: it
/// does not move where that number is known, and is held to move by one
/// where it is not. With two categories a record moves one unit. With any
/// other number of categories a substituted record leaves one cell and
/// enters another, and an added or removed record touches one cell.
pub open spec fn count_sensitivity_value(
    neighboring: Neighboring,
    categories_length: Option<nat>,
    records_known: bool,
) -> i64 {
    match categories_length {
        None => if records_known {
            0
        } else {
            1
        },
        Some(length) => if length == 1 {
            if records_known {
                0
            } else {
                1
            }
        } else if length == 2 {
            1
        } else {
            match neighboring {
                Neighboring::Substitute => 2,
                Neighboring::AddRemove => 1,
            }
        },
    }
}

/// Whether an array of `rows` rows and `columns` columns can be held.
pub open spec fn sensitivity_shape_fits(rows: nat, columns: u64) -> bool {
    rows <= usize::MAX && columns <= usize::MAX && nonzero_size(rows as usize, columns as usize)
        <= isize::MAX
}

/// The array that holds the sensitivity `value` for each cell of a count
/// over `data`: one cell for each category and column, or one cell where
/// the count is one number.
pub open spec fn sensitivity_array(data: PropertiesView, value: i64) -> Result<ValueView, Error> {
    match categories_length(data) {
        None => Ok(ValueView { shape: seq![1usize], items: ColumnView::I64(seq![value]) }),
        Some(rows) => match data.num_columns {
            None => Err(Error::UnsupportedShape("number of columns is not defined")),
            Some(columns) => if sensitivity_shape_fits(rows, columns) {
                Ok(
                    ValueView {
                        shape: seq![rows as usize, columns as usize],
                        items: ColumnView::I64(Seq::new((rows * columns) as nat, |i: int| value)),
                    },
                )
            } else {
                Err(Error::UnsupportedShape("sensitivity does not fit in an array"))
            },
        },
    }
}

/// The sensitivity of a count over inputs with the properties `inputs`,
/// under the neighboring relation encoded as `neighboring`, in `space`.
pub open spec fn count_sensitivity(
    neighboring: i32,
    inputs: Map<Seq<char>, PropertiesView>,
    space: SensitivitySpace,
) -> Result<ValueView, Error> {
    if !inputs.contains_key("data"@) {
        Err(Error::MissingArgument("data"))
    } else if inputs["data"@].aggregator is Some {
        Err(Error::AlreadyAggregated)
    } else if !(space is KNorm) {
        Err(Error::UnsupportedSensitivitySpace)
    } else {
        match Neighboring::from_i32_spec(neighboring) {
            None => Err(Error::UnsupportedNeighboringDefinition),
            Some(relation) => {
                let data = inputs["data"@];
                sensitivity_array(
                    data,
                    count_sensitivity_value(
                        relation,
                        categories_length(data),
                        data.num_records is Some,
                    ),
                )
            },
        }
    }
}

/// The value of the constant node that holds the categories `column`.
pub open spec fn categories_literal(column: ColumnView) -> ValueView {
    ValueView { shape: seq![column.len() as usize], items: column }
}

/// The node `component` with its argument `categories` wired to the node
/// `id`.
pub open spec fn rewired(component: ComponentView, id: u32) -> ComponentView {
    ComponentView {
        variant: component.variant,
        arguments: component.arguments.insert("categories"@, id),
        batch: component.batch,
    }
}

/// The patch that makes the categories `column` an argument of the node
/// `component`: a constant node under the id after `maximum_id`, its value,
/// and `component` wired to it under its own id.
pub open spec fn categories_patch(
    component: ComponentView,
    column: ColumnView,
    component_id: u32,
    maximum_id: u32,
) -> ExpansionView {
    let id = (maximum_id + 1) as u32;
    ExpansionView {
        computation_graph: Map::<u32, ComponentView>::empty().insert(
            id,
            literal_node(component.batch),
        ).insert(component_id, rewired(component, id)),
        properties: Map::empty(),
        releases: Map::<u32, ReleaseView>::empty().insert(
            id,
            ReleaseView { value: categories_literal(column) },
        ),
        traversal: Seq::empty(),
    }
}

/// The expansion of the count node `component`. A node that has its
/// categories as an argument is left alone, and so is one whose data has no
/// known categories.
pub open spec fn count_expansion(
    component: ComponentView,
    inputs: Map<Seq<char>, PropertiesView>,
    component_id: u32,
    maximum_id: u32,
) -> Result<ExpansionView, Error> {
    if component.arguments.contains_key("categories"@) {
        Ok(ExpansionView::empty())
    } else if !inputs.contains_key("data"@) {
        Err(Error::MissingArgument("data"))
    } else {
        match inputs["data"@].categories() {
            None => Ok(ExpansionView::empty()),
            Some(categories) => if categories.len() == 0 {
                Err(Error::UnsupportedShape("categories must contain a column"))
            } else {
                Ok(categories_patch(component, categories[0], component_id, maximum_id))
            },
        }
    }
}

/// Computes `count_sensitivity_value`.
pub fn sensitivity_value(
    neighboring: Neighboring,
    categories_length: Option<usize>,
    records_known: bool,
) -> (r: i64)
    ensures
        r == count_sensitivity_value(
            neighboring,
            match categories_length {
                Some(length) => Some(length as nat),
                None => None,
            },
            records_known,
        ),
{
    match categories_length {
        None => if records_known {
            0
        } else {
            1
        },
        Some(length) => if length == 1 {
            if records_known {
                0
            } else {
                1
            }
        } else if length == 2 {
            1
        } else {
            match neighboring {
                Neighboring::Substitute => 2,
                Neighboring::AddRemove => 1,
            }
        },
    }
}

/// The bounds of `columns` counts.
fn make_count_nature(columns: u64) -> (r: Nature)
    ensures
        r@ == count_nature(columns),
{
    let mut min: Vec<Option<i64>> = Vec::new();
    let mut max: Vec<Option<i64>> = Vec::new();
    let mut i: u64 = 0;
    while i < columns
        invariant
            i <= columns,
            min.len() == i,
            max.len() == i,
            forall|j: int| 0 <= j < i ==> min@[j] == Some(0i64),
            forall|j: int| 0 <= j < i ==> max@[j] == None::<i64>,
        decreases columns - i,
    {
        min.push(Some(0));
        max.push(None);
        i = i + 1;
    }
    assert(min@ =~= Seq::new(columns as nat, |i: int| Some(0i64)));
    assert(max@ =~= Seq::new(columns as nat, |i: int| None::<i64>));
    Nature::Continuous(
        NatureContinuous { min: Vector1DNull::I64(min), max: Vector1DNull::I64(max) },
    )
}

/// The length of the first column of the categories of `data`, where there
/// is one.
fn first_categories_length(data: &Properties) -> (r: Option<usize>)
    ensures
        categories_length(data@) == match r {
            Some(length) => Some(length as nat),
            None => None,
        },
{
    match data.get_categories() {
        Ok(categories) => if categories.get_num_columns() > 0 {
            Some(categories.get_length(0))
        } else {
            None
        },
        Err(_) => None,
    }
}

/// The first column of `categories` as the value of a constant node.
fn first_column_literal(categories: &Vector2DJagged) -> (r: Value)
    requires
        categories@.len() > 0,
    ensures
        r@ == categories_literal(categories@[0]),
{
    match categories {
        Vector2DJagged::Bool(columns) => Value::Bool(BoolArray::from_vec(&columns[0])),
        Vector2DJagged::I64(columns) => Value::I64(IntArray::from_vec(&columns[0])),
        Vector2DJagged::F64(columns) => Value::F64(BitsArray::from_vec(&columns[0])),
        Vector2DJagged::Str(columns) => Value::Str(StrArray::from_vec(&columns[0])),
    }
}

impl Component for Count {
    open spec fn propagated(
        &self,
        privacy_definition: &PrivacyDefinition,
        public_arguments: &PublicArguments,
        properties: &NodeProperties,
    ) -> Result<PropertiesView, Error> {
        count_properties(properties@)
    }

    fn propagate_property(
        &self,
        _privacy_definition: &PrivacyDefinition,
        _public_arguments: &PublicArguments,
        properties: &NodeProperties,
    ) -> (r: Result<Properties, Error>) {
        let data = match properties.get_properties("data") {
            Some(data) => data,
            None => { return Err(Error::MissingArgument("data")); },
        };
        let (num_records, num_columns) = match data.get_categories() {
            Ok(categories) => {
                if categories.get_num_columns() != 1 {
                    return Err(
                        Error::UnsupportedShape("categories must contain only one column"),
                    );
                }
                (categories.get_length(0) as u64, data.num_columns)
            },
            Err(_) => (1, Some(1)),
        };
        let columns = match num_columns {
            Some(columns) => columns,
            None => {
                return Err(Error::UnsupportedShape("number of columns is not defined"));
            },
        };
        // the state in which the aggregation is made
        let aggregator = AggregatorProperties {
            component: self.variant(),
            properties: clone_node_properties(properties),
        };
        Ok(
            Properties {
                num_records: Some(num_records),
                num_columns: Some(columns),
                nature: Some(make_count_nature(columns)),
                data_type: DataType::I64,
                aggregator: Some(aggregator),
            },
        )
    }

    open spec fn names(&self, properties: &NodeProperties) -> Result<Seq<Seq<char>>, Error> {
        Err(Error::CapabilityNotImplemented { kind: Variant::Count, capability: Capability::Names })
    }

    fn get_names(&self, _properties: &NodeProperties) -> (r: Result<Vec<String>, Error>) {
        Err(Error::CapabilityNotImplemented { kind: Variant::Count, capability: Capability::Names })
    }
}

impl Expandable for Count {
    open spec fn expansion(
        &self,
        privacy_definition: &PrivacyDefinition,
        component: &Node,
        properties: &NodeProperties,
        component_id: u32,
        maximum_id: u32,
    ) -> Result<ExpansionView, Error> {
        count_expansion(component@, properties@, component_id, maximum_id)
    }

    fn expand_component(
        &self,
        _privacy_definition: &PrivacyDefinition,
        component: &Node,
        properties: &NodeProperties,
        component_id: u32,
        maximum_id: u32,
    ) -> (r: Result<ComponentExpansion, Error>) {
        if component.arguments.contains_key("categories") {
            return Ok(ComponentExpansion::new());
        }
        let data = match properties.get_properties("data") {
            Some(data) => data,
            None => { return Err(Error::MissingArgument("data")); },
        };
        let categories = match data.get_categories() {
            Ok(categories) => categories,
            Err(_) => { return Ok(ComponentExpansion::new()); },
        };
        if categories.get_num_columns() == 0 {
            return Err(Error::UnsupportedShape("categories must contain a column"));
        }
        let id_categories: u32 = maximum_id + 1;
        let value = first_column_literal(categories);
        let (patch_node, release) = get_literal(value, component.batch);

        let mut expansion = ComponentExpansion::new();
        expansion.computation_graph.insert(id_categories, patch_node);
        expansion.releases.insert(id_categories, release);

        let mut node = component.clone();
        node.arguments.insert(String::from_str("categories"), id_categories);
        assert(node@.arguments =~= component@.arguments.insert("categories"@, id_categories));
        expansion.computation_graph.insert(component_id, node);

        proof {
            let expected = categories_patch(
                component@,
                categories@[0],
                component_id,
                maximum_id,
            );
            assert(expansion@.computation_graph =~= expected.computation_graph);
            assert(expansion@.releases =~= expected.releases);
            assert(expansion@.properties =~= expected.properties);
        }
        Ok(expansion)
    }
}

impl Aggregator for Count {
    open spec fn sensitivity(
        &self,
        privacy_definition: &PrivacyDefinition,
        properties: &NodeProperties,
        sensitivity_type: &SensitivitySpace,
    ) -> Result<ValueView, Error> {
        count_sensitivity(privacy_definition.neighboring, properties@, *sensitivity_type)
    }

    fn compute_sensitivity(
        &self,
        privacy_definition: &PrivacyDefinition,
        properties: &NodeProperties,
        sensitivity_type: &SensitivitySpace,
    ) -> (r: Result<Value, Error>) {
        let data = match properties.get_properties("data") {
            Some(data) => data,
            None => { return Err(Error::MissingArgument("data")); },
        };
        match data.assert_is_not_aggregated() {
            Ok(_) => {},
            Err(e) => { return Err(e); },
        }
        match sensitivity_type {
            // the norm's order has no effect on the sensitivity of a count
            SensitivitySpace::KNorm(_k) => {},
            SensitivitySpace::Exponential => {
                return Err(Error::UnsupportedSensitivitySpace);
            },
        }
        let neighboring = match Neighboring::from_i32(privacy_definition.neighboring) {
            Some(neighboring) => neighboring,
            None => { return Err(Error::UnsupportedNeighboringDefinition); },
        };
        // with categories, the count is taken in each of them
        let length = first_categories_length(data);
        let sensitivity = sensitivity_value(neighboring, length, data.num_records.is_some());
        match length {
            Some(rows) => {
                let columns = match data.get_num_columns() {
                    Ok(columns) => columns,
                    Err(e) => { return Err(e); },
                };
                if columns > usize::MAX as u64 {
                    return Err(Error::UnsupportedShape("sensitivity does not fit in an array"));
                }
                match IntArray::filled(rows, columns as usize, sensitivity) {
                    Some(cells) => Ok(Value::I64(cells)),
                    None => Err(Error::UnsupportedShape("sensitivity does not fit in an array")),
                }
            },
            None => {
                let mut cell: Vec<i64> = Vec::new();
                cell.push(sensitivity);
                Ok(Value::I64(IntArray::from_vec(&cell)))
            },
        }
    }
}

/// Sensitivity is defined for data whose records still stand one by one: a
/// count over data that is already aggregated fails, whatever the privacy
/// definition and the space, and so through the dispatch on its kind.
pub proof fn lemma_aggregated_data_is_refused(
    privacy_definition: PrivacyDefinition,
    properties: NodeProperties,
    sensitivity_type: SensitivitySpace,
)
    requires
        properties@.contains_key("data"@),
        properties@["data"@].aggregator is Some,
    ensures
        (Count {  }).sensitivity(&privacy_definition, &properties, &sensitivity_type) == Err::<
            ValueView,
            Error,
        >(Error::AlreadyAggregated),
        Variant::Count.sensitivity(&privacy_definition, &properties, &sensitivity_type) == Err::<
            ValueView,
            Error,
        >(Error::AlreadyAggregated),
{
}

/// Over data whose parts agree and whose categories form one column, a
/// count has one record for each category.
pub proof fn lemma_count_of_categories(
    privacy_definition: PrivacyDefinition,
    public_arguments: PublicArguments,
    properties: NodeProperties,
)
    requires
        properties@.contains_key("data"@),
        properties@["data"@].valid(),
        properties@["data"@].categories() is Some,
        properties@["data"@].categories()->0.len() == 1,
    ensures
        (Count {  }).propagated(&privacy_definition, &public_arguments, &properties) is Ok,
        (Count {  }).propagated(
            &privacy_definition,
            &public_arguments,
            &properties,
        )->Ok_0.num_records matches Some(n) && n == properties@["data"@].categories()->0[0].len(),
{
    lemma_entries_model(properties.entries@, "data"@);
    let data = crate::named::lookup(properties.entries@, "data"@)->0;
    lemma_categories_fit(data, 0);
}

/// Over data without known categories a count is one number: one record in
/// one column.
pub proof fn lemma_count_without_categories(
    privacy_definition: PrivacyDefinition,
    public_arguments: PublicArguments,
    properties: NodeProperties,
)
    requires
        properties@.contains_key("data"@),
        properties@["data"@].categories() is None,
    ensures
        (Count {  }).propagated(&privacy_definition, &public_arguments, &properties) is Ok,
        (Count {  }).propagated(
            &privacy_definition,
            &public_arguments,
            &properties,
        )->Ok_0.num_records == Some(1u64),
        (Count {  }).propagated(
            &privacy_definition,
            &public_arguments,
            &properties,
        )->Ok_0.num_columns == Some(1u64),
{
}

/// Whatever the type of the data, a count is an integer that is not
/// negative and has no known greatest value, in each of its columns, and it
/// is marked as the aggregation that it is, with the inputs it was taken
/// over.
pub proof fn lemma_count_is_a_bounded_integer(
    privacy_definition: PrivacyDefinition,
    public_arguments: PublicArguments,
    properties: NodeProperties,
)
    ensures
        (Count {  }).propagated(&privacy_definition, &public_arguments, &properties) matches Ok(
            output,
        ) ==> {
            &&& output.data_type == DataType::I64
            &&& output.num_columns is Some
            &&& output.nature matches Some(NatureView::Continuous { min, max })
            &&& min matches Vector1DNullView::I64(least)
            &&& max matches Vector1DNullView::I64(greatest)
            &&& least.len() == output.num_columns->0
            &&& greatest.len() == output.num_columns->0
            &&& forall|i: int| 0 <= i < least.len() ==> least[i] == Some(0i64)
            &&& forall|i: int| 0 <= i < greatest.len() ==> greatest[i] is None
            &&& output.valid()
            &&& output.aggregator == Some(
                AggregatorView { component: Variant::Count, properties: properties@ },
            )
        },
{
}

/// The sensitivity of one cell of a count, case by case. The number of
/// records matters without categories and with one; the neighboring
/// relation matters with more than two.
pub proof fn lemma_sensitivity_table(neighboring: Neighboring, length: nat, records_known: bool)
    ensures
        count_sensitivity_value(neighboring, None, true) == 0,
        count_sensitivity_value(neighboring, Some(1), true) == 0,
        count_sensitivity_value(neighboring, None, false) == 1,
        count_sensitivity_value(neighboring, Some(1), false) == 1,
        count_sensitivity_value(neighboring, Some(2), records_known) == 1,
        length > 2 ==> count_sensitivity_value(
            Neighboring::Substitute,
            Some(length),
            records_known,
        ) == 2,
        length > 2 ==> count_sensitivity_value(Neighboring::AddRemove, Some(length), records_known)
            == 1,
        length > 2 ==> count_sensitivity_value(neighboring, Some(length), true)
            == count_sensitivity_value(neighboring, Some(length), false),
{
}

/// Where a count has a sensitivity, every cell of the result holds the
/// value of the table for the data, and there is one cell for each category
/// and column, or one cell without categories.
pub proof fn lemma_sensitivity_is_uniform(
    privacy_definition: PrivacyDefinition,
    properties: NodeProperties,
    sensitivity_type: SensitivitySpace,
)
    ensures
        (Count {  }).sensitivity(&privacy_definition, &properties, &sensitivity_type) matches Ok(
            cells,
        ) ==> {
            let data = properties@["data"@];
            &&& Neighboring::from_i32_spec(privacy_definition.neighboring) matches Some(relation)
            &&& cells.items matches ColumnView::I64(items)
            &&& forall|i: int|
                0 <= i < items.len() ==> items[i] == count_sensitivity_value(
                    relation,
                    categories_length(data),
                    data.num_records is Some,
                )
            &&& categories_length(data) is None ==> items.len() == 1 && cells.shape
                == seq![1usize]
            &&& categories_length(data) matches Some(rows) ==> items.len() == rows
                * data.num_columns->0 && cells.shape == seq![
                rows as usize,
                data.num_columns->0 as usize,
            ]
        },
{
}

/// A node that has its categories as an argument is not expanded again: the
/// patch is empty and no id is taken. The node that an expansion has wired
/// is such a node.
pub proof fn lemma_expansion_is_not_repeated(
    privacy_definition: PrivacyDefinition,
    component: Node,
    properties: NodeProperties,
    component_id: u32,
    maximum_id: u32,
    expanded: Node,
    later_maximum_id: u32,
)
    ensures
        component@.arguments.contains_key("categories"@) ==> (Count {  }).expansion(
            &privacy_definition,
            &component,
            &properties,
            component_id,
            maximum_id,
        ) == Ok::<ExpansionView, Error>(ExpansionView::empty()),
        ((Count {  }).expansion(
            &privacy_definition,
            &component,
            &properties,
            component_id,
            maximum_id,
        ) matches Ok(patch) && patch.computation_graph.contains_key(component_id)
            && patch.computation_graph[component_id] == expanded@) ==> (Count {  }).expansion(
            &privacy_definition,
            &expanded,
            &properties,
            component_id,
            later_maximum_id,
        ) == Ok::<ExpansionView, Error>(ExpansionView::empty()),
{
}

/// Every id of a patch is the id of the expanded node or follows the
/// greatest id of the graph. Where the expanded node lies in the graph, the
/// constant node takes an id of its own: the patch then holds the expanded
/// node and the constant node under two ids, and the value of the constant
/// under the second.
pub proof fn lemma_expansion_ids(
    privacy_definition: PrivacyDefinition,
    component: Node,
    properties: NodeProperties,
    component_id: u32,
    maximum_id: u32,
)
    requires
        maximum_id < u32::MAX,
    ensures
        (Count {  }).expansion(
            &privacy_definition,
            &component,
            &properties,
            component_id,
            maximum_id,
        ) matches Ok(patch) ==> {
            &&& forall|id: u32| #[trigger]
                patch.computation_graph.contains_key(id) ==> id == component_id || id > maximum_id
            &&& forall|id: u32| #[trigger]
                patch.releases.contains_key(id) ==> id == maximum_id + 1
                    && patch.computation_graph.contains_key(id)
            &&& forall|id: u32| !patch.properties.contains_key(id)
            &&& patch.traversal.len() == 0
            &&& component_id <= maximum_id ==> forall|id: u32| #[trigger]
                patch.releases.contains_key(id) ==> id != component_id
                    && patch.computation_graph.contains_key(component_id)
                    && patch.computation_graph[id] == literal_node(component@.batch)
        },
{
}

/// A kind is analysed by its own rules, and a kind that has no rule for an
/// analysis is reported by name with the analysis that was asked for.
pub proof fn lemma_dispatch(
    kind: Variant,
    privacy_definition: PrivacyDefinition,
    public_arguments: PublicArguments,
    component: Node,
    properties: NodeProperties,
    sensitivity_type: SensitivitySpace,
    component_id: u32,
    maximum_id: u32,
)
    ensures
        kind == Variant::Count ==> {
            &&& kind.propagated(&privacy_definition, &public_arguments, &properties) == (Count {
            }).propagated(&privacy_definition, &public_arguments, &properties)
            &&& kind.expansion(
                &privacy_definition,
                &component,
                &properties,
                component_id,
                maximum_id,
            ) == (Count {  }).expansion(
                &privacy_definition,
                &component,
                &properties,
                component_id,
                maximum_id,
            )
            &&& kind.sensitivity(&privacy_definition, &properties, &sensitivity_type) == (Count {
            }).sensitivity(&privacy_definition, &properties, &sensitivity_type)
        },
        kind != Variant::Count ==> {
            &&& kind.propagated(&privacy_definition, &public_arguments, &properties) == Err::<
                PropertiesView,
                Error,
            >(
                Error::CapabilityNotImplemented {
                    kind,
                    capability: Capability::PropertyPropagation,
                },
            )
            &&& kind.expansion(
                &privacy_definition,
                &component,
                &properties,
                component_id,
                maximum_id,
            ) == Err::<ExpansionView, Error>(
                Error::CapabilityNotImplemented { kind, capability: Capability::Expansion },
            )
            &&& kind.sensitivity(&privacy_definition, &properties, &sensitivity_type) == Err::<
                ValueView,
                Error,
            >(Error::CapabilityNotImplemented { kind, capability: Capability::Sensitivity })
        },
        kind.names(&properties) == Err::<Seq<Seq<char>>, Error>(
            Error::CapabilityNotImplemented { kind, capability: Capability::Names },
        ),
{
}

} // verus!
