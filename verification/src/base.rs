//! The metadata that is attached to the output of every node.

use crate::arrays::{
    bits_array_items, bits_array_shape, bool_array_items, bool_array_shape, int_array_items,
    int_array_shape, str_array_items, str_array_shape, strings_view, BitsArray, BoolArray,
    IntArray, StrArray,
};
use crate::errors::Error;
use crate::graph::Variant;
use crate::named::{lookup, NamedMap};
use vstd::prelude::*;

verus! {

/// The type of the values of a column.
#[derive(Clone, Copy, Debug, PartialEq, Eq, Hash, Structural)]
pub enum DataType {
    Bool,
    I64,
    /// Floating-point numbers, which this library holds as their IEEE 754
    /// bit patterns.
    F64,
    Str,
}

/// A space in which a sensitivity is measured.
#[derive(Clone, Copy, Debug, PartialEq, Eq, Hash, Structural)]
pub enum SensitivitySpace {
    /// The distance under the L-k norm.
    KNorm(u32),
    /// The space of the exponential mechanism.
    Exponential,
}

/// One optional value per column.
#[derive(Debug, PartialEq)]
pub enum Vector1DNull {
    Bool(Vec<Option<bool>>),
    I64(Vec<Option<i64>>),
    F64(Vec<Option<u64>>),
    Str(Vec<Option<String>>),
}

/// What a `Vector1DNull` is in contracts.
pub enum Vector1DNullView {
    Bool(Seq<Option<bool>>),
    I64(Seq<Option<i64>>),
    F64(Seq<Option<u64>>),
    Str(Seq<Option<Seq<char>>>),
}

impl Vector1DNullView {
    /// The number of columns.
    pub open spec fn len(self) -> nat {
        match self {
            Vector1DNullView::Bool(v) => v.len(),
            Vector1DNullView::I64(v) => v.len(),
            Vector1DNullView::F64(v) => v.len(),
            Vector1DNullView::Str(v) => v.len(),
        }
    }
}

/// The characters of each string of `strings` that is there.
pub open spec fn optional_strings_view(strings: Seq<Option<String>>) -> Seq<Option<Seq<char>>> {
    Seq::new(
        strings.len(),
        |i: int|
            match strings[i] {
                Some(s) => Some(s@),
                None => None,
            },
    )
}

impl View for Vector1DNull {
    type V = Vector1DNullView;

    open spec fn view(&self) -> Vector1DNullView {
        match self {
            Vector1DNull::Bool(v) => Vector1DNullView::Bool(v@),
            Vector1DNull::I64(v) => Vector1DNullView::I64(v@),
            Vector1DNull::F64(v) => Vector1DNullView::F64(v@),
            Vector1DNull::Str(v) => Vector1DNullView::Str(optional_strings_view(v@)),
        }
    }
}

/// A copy of a vector of plain values.
pub fn copy_vec<T: Copy>(v: &Vec<T>) -> (r: Vec<T>)
    ensures
        r@ == v@,
{
    let mut r: Vec<T> = Vec::new();
    let mut i: usize = 0;
    while i < v.len()
        invariant
            i <= v.len(),
            r@ == v@.take(i as int),
        decreases v.len() - i,
    {
        r.push(v[i]);
        i = i + 1;
    }
    assert(v@.take(i as int) == v@);
    r
}

/// A copy of a vector of strings.
pub fn clone_strings(v: &Vec<String>) -> (r: Vec<String>)
    ensures
        r@ == v@,
{
    let mut r: Vec<String> = Vec::new();
    let mut i: usize = 0;
    while i < v.len()
        invariant
            i <= v.len(),
            r@ == v@.take(i as int),
        decreases v.len() - i,
    {
        r.push(v[i].clone());
        i = i + 1;
    }
    assert(v@.take(i as int) == v@);
    r
}

/// A copy of a vector of optional strings.
pub fn clone_optional_strings(v: &Vec<Option<String>>) -> (r: Vec<Option<String>>)
    ensures
        r@ == v@,
{
    let mut r: Vec<Option<String>> = Vec::new();
    let mut i: usize = 0;
    while i < v.len()
        invariant
            i <= v.len(),
            r@ == v@.take(i as int),
        decreases v.len() - i,
    {
        let item = match &v[i] {
            Some(s) => Some(s.clone()),
            None => None,
        };
        r.push(item);
        i = i + 1;
    }
    assert(v@.take(i as int) == v@);
    r
}

impl Clone for Vector1DNull {
    fn clone(&self) -> (r: Vector1DNull)
        ensures
            r@ == self@,
    {
        match self {
            Vector1DNull::Bool(v) => Vector1DNull::Bool(copy_vec(v)),
            Vector1DNull::I64(v) => Vector1DNull::I64(copy_vec(v)),
            Vector1DNull::F64(v) => Vector1DNull::F64(copy_vec(v)),
            Vector1DNull::Str(v) => Vector1DNull::Str(clone_optional_strings(v)),
        }
    }
}

/// The values that each column can take: one sequence per column, not all
/// of one length.
#[derive(Debug, PartialEq)]
pub enum Vector2DJagged {
    Bool(Vec<Vec<bool>>),
    I64(Vec<Vec<i64>>),
    F64(Vec<Vec<u64>>),
    Str(Vec<Vec<String>>),
}

/// The values of one column.
pub enum ColumnView {
    Bool(Seq<bool>),
    I64(Seq<i64>),
    F64(Seq<u64>),
    Str(Seq<Seq<char>>),
}

impl ColumnView {
    /// The number of values.
    pub open spec fn len(self) -> nat {
        match self {
            ColumnView::Bool(v) => v.len(),
            ColumnView::I64(v) => v.len(),
            ColumnView::F64(v) => v.len(),
            ColumnView::Str(v) => v.len(),
        }
    }
}

/// In contracts a `Vector2DJagged` is the sequence of its columns.
impl View for Vector2DJagged {
    type V = Seq<ColumnView>;

    open spec fn view(&self) -> Seq<ColumnView> {
        match self {
            Vector2DJagged::Bool(v) => Seq::new(v.len() as nat, |i: int| ColumnView::Bool(v[i]@)),
            Vector2DJagged::I64(v) => Seq::new(v.len() as nat, |i: int| ColumnView::I64(v[i]@)),
            Vector2DJagged::F64(v) => Seq::new(v.len() as nat, |i: int| ColumnView::F64(v[i]@)),
            Vector2DJagged::Str(v) => Seq::new(
                v.len() as nat,
                |i: int| ColumnView::Str(strings_view(v[i]@)),
            ),
        }
    }
}

/// A copy of the columns `v`.
pub fn copy_columns<T: Copy>(v: &Vec<Vec<T>>) -> (r: Vec<Vec<T>>)
    ensures
        r.len() == v.len(),
        forall|i: int| 0 <= i < v.len() ==> r[i]@ == v[i]@,
{
    let mut r: Vec<Vec<T>> = Vec::new();
    let mut i: usize = 0;
    while i < v.len()
        invariant
            i <= v.len(),
            r.len() == i,
            forall|j: int| 0 <= j < i ==> r[j]@ == v[j]@,
        decreases v.len() - i,
    {
        r.push(copy_vec(&v[i]));
        i = i + 1;
    }
    r
}

/// A copy of the columns `v`.
pub fn clone_string_columns(v: &Vec<Vec<String>>) -> (r: Vec<Vec<String>>)
    ensures
        r.len() == v.len(),
        forall|i: int| 0 <= i < v.len() ==> r[i]@ == v[i]@,
{
    let mut r: Vec<Vec<String>> = Vec::new();
    let mut i: usize = 0;
    while i < v.len()
        invariant
            i <= v.len(),
            r.len() == i,
            forall|j: int| 0 <= j < i ==> r[j]@ == v[j]@,
        decreases v.len() - i,
    {
        r.push(clone_strings(&v[i]));
        i = i + 1;
    }
    r
}

impl Clone for Vector2DJagged {
    fn clone(&self) -> (r: Vector2DJagged)
        ensures
            r@ == self@,
    {
        let r = match self {
            Vector2DJagged::Bool(v) => Vector2DJagged::Bool(copy_columns(v)),
            Vector2DJagged::I64(v) => Vector2DJagged::I64(copy_columns(v)),
            Vector2DJagged::F64(v) => Vector2DJagged::F64(copy_columns(v)),
            Vector2DJagged::Str(v) => Vector2DJagged::Str(clone_string_columns(v)),
        };
        assert(r@ =~= self@);
        r
    }
}

impl Vector2DJagged {
    /// The number of columns.
    pub fn get_num_columns(&self) -> (r: usize)
        ensures
            r == self@.len(),
    {
        match self {
            Vector2DJagged::Bool(v) => v.len(),
            Vector2DJagged::I64(v) => v.len(),
            Vector2DJagged::F64(v) => v.len(),
            Vector2DJagged::Str(v) => v.len(),
        }
    }

    /// The number of values of column `column`.
    pub fn get_length(&self, column: usize) -> (r: usize)
        requires
            column < self@.len(),
        ensures
            r == self@[column as int].len(),
    {
        match self {
            Vector2DJagged::Bool(v) => v[column].len(),
            Vector2DJagged::I64(v) => v[column].len(),
            Vector2DJagged::F64(v) => v[column].len(),
            Vector2DJagged::Str(v) => v[column].len(),
        }
    }

    /// The number of values of each column.
    pub fn get_lengths(&self) -> (r: Vec<usize>)
        ensures
            r.len() == self@.len(),
            forall|i: int| 0 <= i < r.len() ==> r[i] == self@[i].len(),
    {
        let mut r: Vec<usize> = Vec::new();
        let mut i: usize = 0;
        while i < self.get_num_columns()
            invariant
                i <= self@.len(),
                r.len() == i,
                forall|j: int| 0 <= j < i ==> r[j] == self@[j].len(),
            decreases self@.len() - i,
        {
            r.push(self.get_length(i));
            i = i + 1;
        }
        r
    }
}

/// The bounds of numeric columns.
#[derive(Debug, PartialEq)]
pub struct NatureContinuous {
    /// The least value of each column, where it is known.
    pub min: Vector1DNull,
    /// The greatest value of each column, where it is known.
    pub max: Vector1DNull,
}

/// The domain of categorical columns.
#[derive(Debug, PartialEq)]
pub struct NatureCategorical {
    pub categories: Vector2DJagged,
}

/// What is known of the values of the columns.
#[derive(Debug, PartialEq)]
pub enum Nature {
    Continuous(NatureContinuous),
    Categorical(NatureCategorical),
}

/// What a `Nature` is in contracts.
pub enum NatureView {
    Continuous { min: Vector1DNullView, max: Vector1DNullView },
    Categorical { categories: Seq<ColumnView> },
}

impl View for Nature {
    type V = NatureView;

    open spec fn view(&self) -> NatureView {
        match self {
            Nature::Continuous(c) => NatureView::Continuous { min: c.min@, max: c.max@ },
            Nature::Categorical(c) => NatureView::Categorical { categories: c.categories@ },
        }
    }
}

impl Clone for Nature {
    fn clone(&self) -> (r: Nature)
        ensures
            r@ == self@,
    {
        match self {
            Nature::Continuous(c) => Nature::Continuous(
                NatureContinuous { min: c.min.clone(), max: c.max.clone() },
            ),
            Nature::Categorical(c) => Nature::Categorical(
                NatureCategorical { categories: c.categories.clone() },
            ),
        }
    }
}

/// The view of an optional nature.
pub open spec fn optional_nature_view(nature: Option<Nature>) -> Option<NatureView> {
    match nature {
        Some(n) => Some(n@),
        None => None,
    }
}

/// The metadata of the output of a node.
#[derive(Debug, PartialEq)]
pub struct Properties {
    /// The number of records, where it is statically known.
    pub num_records: Option<u64>,
    /// The number of columns, where it is statically known.
    pub num_columns: Option<u64>,
    /// The bounds or the domain of the columns, where they can be derived.
    pub nature: Option<Nature>,
    /// The type of the values.
    pub data_type: DataType,
    /// Set exactly when the value is the result of an aggregation: the
    /// kind of the node that aggregated, and the properties of its inputs
    /// at that time.
    pub aggregator: Option<AggregatorProperties>,
}

/// The state in which an aggregation was made.
#[derive(Debug, PartialEq)]
pub struct AggregatorProperties {
    /// The kind of the node that aggregated.
    pub component: Variant,
    /// The properties of its inputs before the aggregation.
    pub properties: NodeProperties,
}

/// The properties of the inputs of a node, by argument name.
pub type NodeProperties = NamedMap<Properties>;

/// The values of the arguments of a node that are public, by argument name.
pub type PublicArguments = NamedMap<Value>;

/// What a `Properties` is in contracts.
pub struct PropertiesView {
    pub num_records: Option<u64>,
    pub num_columns: Option<u64>,
    pub nature: Option<NatureView>,
    pub data_type: DataType,
    pub aggregator: Option<AggregatorView>,
}

/// What an `AggregatorProperties` is in contracts.
pub struct AggregatorView {
    pub component: Variant,
    pub properties: Map<Seq<char>, PropertiesView>,
}

/// What `p` is in contracts.
pub open spec fn properties_model(p: Properties) -> PropertiesView
    decreases p,
{
    PropertiesView {
        num_records: p.num_records,
        num_columns: p.num_columns,
        nature: optional_nature_view(p.nature),
        data_type: p.data_type,
        aggregator: match p.aggregator {
            None => None,
            Some(a) => Some(
                AggregatorView {
                    component: a.component,
                    properties: entries_model(a.properties.entries@),
                },
            ),
        },
    }
}

/// The map from names to properties that `entries` stands for: of two
/// entries with one name the later one counts.
pub open spec fn entries_model(entries: Seq<(String, Properties)>) -> Map<
    Seq<char>,
    PropertiesView,
>
    decreases entries,
{
    if entries.len() == 0 {
        Map::empty()
    } else {
        entries_model(entries.drop_last()).insert(
            entries.last().0@,
            properties_model(entries.last().1),
        )
    }
}

/// The model of `entries` holds under each name the model of what `lookup`
/// finds there.
pub proof fn lemma_entries_model(entries: Seq<(String, Properties)>, name: Seq<char>)
    ensures
        entries_model(entries).contains_key(name) <==> lookup(entries, name) is Some,
        lookup(entries, name) matches Some(p) ==> entries_model(entries)[name]
            == properties_model(p),
    decreases entries.len(),
{
    if entries.len() > 0 {
        lemma_entries_model(entries.drop_last(), name);
    }
}

/// An entry that is added last decides its name in the model and leaves
/// the others.
pub proof fn lemma_entries_model_push(
    entries: Seq<(String, Properties)>,
    name: String,
    p: Properties,
)
    ensures
        entries_model(entries.push((name, p))) == entries_model(entries).insert(
            name@,
            properties_model(p),
        ),
{
    assert(entries.push((name, p)).drop_last() =~= entries);
}

/// The columns of known categories are those of vectors, whose lengths are
/// machine numbers.
pub proof fn lemma_categories_fit(p: Properties, column: int)
    requires
        p@.categories() is Some,
        0 <= column < p@.categories()->0.len(),
    ensures
        p@.categories()->0[column].len() <= usize::MAX,
{
    match p.nature {
        Some(Nature::Categorical(c)) => {
            match c.categories {
                Vector2DJagged::Bool(v) => {
                    assert(v[column]@.len() == v[column].len());
                },
                Vector2DJagged::I64(v) => {
                    assert(v[column]@.len() == v[column].len());
                },
                Vector2DJagged::F64(v) => {
                    assert(v[column]@.len() == v[column].len());
                },
                Vector2DJagged::Str(v) => {
                    assert(v[column]@.len() == v[column].len());
                },
            }
        },
        _ => {},
    }
}

impl View for Properties {
    type V = PropertiesView;

    open spec fn view(&self) -> PropertiesView {
        properties_model(*self)
    }
}

impl View for NamedMap<Properties> {
    type V = Map<Seq<char>, PropertiesView>;

    open spec fn view(&self) -> Map<Seq<char>, PropertiesView> {
        entries_model(self.entries@)
    }
}

impl PropertiesView {
    /// The domain of the columns, where the nature is categorical.
    pub open spec fn categories(self) -> Option<Seq<ColumnView>> {
        match self.nature {
            Some(NatureView::Categorical { categories }) => Some(categories),
            _ => None,
        }
    }

    /// Whether the parts agree: the nature speaks of as many columns as
    /// there are.
    pub open spec fn valid(self) -> bool {
        match self.nature {
            None => true,
            Some(NatureView::Continuous { min, max }) => self.num_columns == Some(min.len() as u64)
                && min.len() == max.len() && min.len() <= u64::MAX,
            Some(NatureView::Categorical { categories }) => self.num_columns == Some(
                categories.len() as u64,
            ) && categories.len() <= u64::MAX,
        }
    }
}

/// A copy of `p`.
pub fn clone_properties(p: &Properties) -> (r: Properties)
    ensures
        r@ == p@,
    decreases *p,
{
    let nature = match &p.nature {
        Some(n) => Some(n.clone()),
        None => None,
    };
    let aggregator = match &p.aggregator {
        None => None,
        Some(a) => Some(
            AggregatorProperties {
                component: a.component,
                properties: clone_node_properties(&a.properties),
            },
        ),
    };
    Properties {
        num_records: p.num_records,
        num_columns: p.num_columns,
        nature,
        data_type: p.data_type,
        aggregator,
    }
}

/// A copy of `properties`.
pub fn clone_node_properties(properties: &NodeProperties) -> (r: NodeProperties)
    ensures
        r@ == properties@,
    decreases *properties,
{
    let mut entries: Vec<(String, Properties)> = Vec::new();
    let mut i: usize = 0;
    while i < properties.entries.len()
        invariant
            i <= properties.entries.len(),
            entries_model(entries@) == entries_model(properties.entries@.take(i as int)),
        decreases properties.entries.len() - i,
    {
        let name = properties.entries[i].0.clone();
        let p = clone_properties(&properties.entries[i].1);
        let ghost prev = entries@;
        entries.push((name, p));
        i = i + 1;
        proof {
            let src = properties.entries@.take(i as int);
            assert(entries@.drop_last() =~= prev);
            assert(src.drop_last() =~= properties.entries@.take(i - 1));
            assert(src.last() == properties.entries@[i - 1]);
        }
    }
    proof {
        assert(properties.entries@.take(i as int) =~= properties.entries@);
    }
    NamedMap { entries }
}

impl Clone for Properties {
    fn clone(&self) -> (r: Properties)
        ensures
            r@ == self@,
    {
        clone_properties(self)
    }
}

impl Clone for AggregatorProperties {
    fn clone(&self) -> (r: AggregatorProperties)
        ensures
            r.component == self.component,
            r.properties@ == self.properties@,
    {
        AggregatorProperties {
            component: self.component,
            properties: clone_node_properties(&self.properties),
        }
    }
}

impl Properties {
    /// The domain of the columns, or an error where the nature is not
    /// categorical: no caller takes unknown categories for none.
    pub fn get_categories(&self) -> (r: Result<&Vector2DJagged, Error>)
        ensures
            match r {
                Ok(categories) => self@.categories() == Some(categories@),
                Err(e) => self@.categories() is None && e == Error::UnsupportedShape(
                    "categories are not defined",
                ),
            },
    {
        match &self.nature {
            Some(Nature::Categorical(c)) => Ok(&c.categories),
            _ => Err(Error::UnsupportedShape("categories are not defined")),
        }
    }

    /// The number of columns, or an error where it is not known.
    pub fn get_num_columns(&self) -> (r: Result<u64, Error>)
        ensures
            match r {
                Ok(n) => self@.num_columns == Some(n),
                Err(e) => self@.num_columns is None && e == Error::UnsupportedShape(
                    "number of columns is not defined",
                ),
            },
    {
        match self.num_columns {
            Some(n) => Ok(n),
            None => Err(Error::UnsupportedShape("number of columns is not defined")),
        }
    }

    /// Fails on a value that is the result of an aggregation.
    pub fn assert_is_not_aggregated(&self) -> (r: Result<(), Error>)
        ensures
            r == if self@.aggregator is Some {
                Err::<(), Error>(Error::AlreadyAggregated)
            } else {
                Ok::<(), Error>(())
            },
    {
        match &self.aggregator {
            Some(_) => Err(Error::AlreadyAggregated),
            None => Ok(()),
        }
    }
}

impl NamedMap<Properties> {
    /// Holds `properties` under `name` from now on.
    pub fn insert_properties(&mut self, name: String, properties: Properties)
        ensures
            final(self)@ == old(self)@.insert(name@, properties@),
    {
        proof {
            lemma_entries_model_push(self.entries@, name, properties);
        }
        self.insert(name, properties);
    }

    /// The properties held under `name`, if there are any.
    pub fn get_properties(&self, name: &str) -> (r: Option<&Properties>)
        ensures
            match r {
                Some(p) => self@.contains_key(name@) && self@[name@] == p@,
                None => !self@.contains_key(name@),
            },
    {
        proof {
            lemma_entries_model(self.entries@, name@);
        }
        self.get(name)
    }
}

/// A value that is known without touching data: an array of one of the
/// four data types.
#[derive(Debug, PartialEq)]
pub enum Value {
    Bool(BoolArray),
    I64(IntArray),
    F64(BitsArray),
    Str(StrArray),
}

/// What a `Value` is in contracts.
pub struct ValueView {
    /// The length of each axis.
    pub shape: Seq<usize>,
    /// The elements in logical order.
    pub items: ColumnView,
}

impl View for Value {
    type V = ValueView;

    open spec fn view(&self) -> ValueView {
        match self {
            Value::Bool(a) => ValueView {
                shape: bool_array_shape(*a),
                items: ColumnView::Bool(bool_array_items(*a)),
            },
            Value::I64(a) => ValueView {
                shape: int_array_shape(*a),
                items: ColumnView::I64(int_array_items(*a)),
            },
            Value::F64(a) => ValueView {
                shape: bits_array_shape(*a),
                items: ColumnView::F64(bits_array_items(*a)),
            },
            Value::Str(a) => ValueView {
                shape: str_array_shape(*a),
                items: ColumnView::Str(str_array_items(*a)),
            },
        }
    }
}

} // verus!
