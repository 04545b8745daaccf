//! The nodes of a computation graph and the patches that rewrite them.

use crate::base::{properties_model, Properties, PropertiesView, Value, ValueView};
use crate::named::NamedMap;
use std::collections::HashMap;
use vstd::prelude::*;

verus! {

/// The kinds of node. The set is closed: every analysis matches on all of
/// it, so a kind that is added without a rule is reported, never skipped.
#[derive(Clone, Copy, Debug, PartialEq, Eq, Hash, Structural)]
pub enum Variant {
    Bin,
    Cast,
    Clamp,
    Constant,
    Count,
    Covariance,
    Dpcount,
    Dpcovariance,
    Dphistogram,
    Dpmaximum,
    Dpmean,
    Dpmedian,
    Dpminimum,
    Dpmomentraw,
    Dpsum,
    Dpvariance,
    Filter,
    Impute,
    Index,
    Kthrawsamplemoment,
    Materialize,
    Maximum,
    Mean,
    Exponentialmechanism,
    Gaussianmechanism,
    Laplacemechanism,
    Simplegeometricmechanism,
    Minimum,
    Quantile,
    Resize,
    Rowmin,
    Sum,
    Variance,
    Add,
    Subtract,
    Divide,
    Multiply,
    Power,
    Log,
    Modulo,
    Remainder,
    And,
    Or,
    Negate,
    Equal,
    Lessthan,
    Greaterthan,
    Negative,
}

impl Variant {
    /// The kind's name as it appears in messages.
    pub open spec fn name_spec(self) -> &'static str {
        match self {
            Variant::Bin => "Bin",
            Variant::Cast => "Cast",
            Variant::Clamp => "Clamp",
            Variant::Constant => "Constant",
            Variant::Count => "Count",
            Variant::Covariance => "Covariance",
            Variant::Dpcount => "Dpcount",
            Variant::Dpcovariance => "Dpcovariance",
            Variant::Dphistogram => "Dphistogram",
            Variant::Dpmaximum => "Dpmaximum",
            Variant::Dpmean => "Dpmean",
            Variant::Dpmedian => "Dpmedian",
            Variant::Dpminimum => "Dpminimum",
            Variant::Dpmomentraw => "Dpmomentraw",
            Variant::Dpsum => "Dpsum",
            Variant::Dpvariance => "Dpvariance",
            Variant::Filter => "Filter",
            Variant::Impute => "Impute",
            Variant::Index => "Index",
            Variant::Kthrawsamplemoment => "Kthrawsamplemoment",
            Variant::Materialize => "Materialize",
            Variant::Maximum => "Maximum",
            Variant::Mean => "Mean",
            Variant::Exponentialmechanism => "Exponentialmechanism",
            Variant::Gaussianmechanism => "Gaussianmechanism",
            Variant::Laplacemechanism => "Laplacemechanism",
            Variant::Simplegeometricmechanism => "Simplegeometricmechanism",
            Variant::Minimum => "Minimum",
            Variant::Quantile => "Quantile",
            Variant::Resize => "Resize",
            Variant::Rowmin => "Rowmin",
            Variant::Sum => "Sum",
            Variant::Variance => "Variance",
            Variant::Add => "Add",
            Variant::Subtract => "Subtract",
            Variant::Divide => "Divide",
            Variant::Multiply => "Multiply",
            Variant::Power => "Power",
            Variant::Log => "Log",
            Variant::Modulo => "Modulo",
            Variant::Remainder => "Remainder",
            Variant::And => "And",
            Variant::Or => "Or",
            Variant::Negate => "Negate",
            Variant::Equal => "Equal",
            Variant::Lessthan => "Lessthan",
            Variant::Greaterthan => "Greaterthan",
            Variant::Negative => "Negative",
        }
    }

    /// The kind's name as it appears in messages.
    pub fn name(&self) -> (r: &'static str)
        ensures
            r == self.name_spec(),
    {
        match self {
            Variant::Bin => "Bin",
            Variant::Cast => "Cast",
            Variant::Clamp => "Clamp",
            Variant::Constant => "Constant",
            Variant::Count => "Count",
            Variant::Covariance => "Covariance",
            Variant::Dpcount => "Dpcount",
            Variant::Dpcovariance => "Dpcovariance",
            Variant::Dphistogram => "Dphistogram",
            Variant::Dpmaximum => "Dpmaximum",
            Variant::Dpmean => "Dpmean",
            Variant::Dpmedian => "Dpmedian",
            Variant::Dpminimum => "Dpminimum",
            Variant::Dpmomentraw => "Dpmomentraw",
            Variant::Dpsum => "Dpsum",
            Variant::Dpvariance => "Dpvariance",
            Variant::Filter => "Filter",
            Variant::Impute => "Impute",
            Variant::Index => "Index",
            Variant::Kthrawsamplemoment => "Kthrawsamplemoment",
            Variant::Materialize => "Materialize",
            Variant::Maximum => "Maximum",
            Variant::Mean => "Mean",
            Variant::Exponentialmechanism => "Exponentialmechanism",
            Variant::Gaussianmechanism => "Gaussianmechanism",
            Variant::Laplacemechanism => "Laplacemechanism",
            Variant::Simplegeometricmechanism => "Simplegeometricmechanism",
            Variant::Minimum => "Minimum",
            Variant::Quantile => "Quantile",
            Variant::Resize => "Resize",
            Variant::Rowmin => "Rowmin",
            Variant::Sum => "Sum",
            Variant::Variance => "Variance",
            Variant::Add => "Add",
            Variant::Subtract => "Subtract",
            Variant::Divide => "Divide",
            Variant::Multiply => "Multiply",
            Variant::Power => "Power",
            Variant::Log => "Log",
            Variant::Modulo => "Modulo",
            Variant::Remainder => "Remainder",
            Variant::And => "And",
            Variant::Or => "Or",
            Variant::Negate => "Negate",
            Variant::Equal => "Equal",
            Variant::Lessthan => "Lessthan",
            Variant::Greaterthan => "Greaterthan",
            Variant::Negative => "Negative",
        }
    }
}

/// The node kind that counts records, in total or per category.
#[derive(Clone, Copy, Debug, PartialEq, Eq, Hash, Structural)]
pub struct Count {}

impl Count {
    /// The kind of this node.
    pub open spec fn variant_spec(self) -> Variant {
        Variant::Count
    }

    /// The kind of this node.
    pub fn variant(&self) -> (r: Variant)
        ensures
            r == self.variant_spec(),
    {
        Variant::Count
    }
}

/// Which datasets count as adjacent.
#[derive(Clone, Copy, Debug, PartialEq, Eq, Hash, Structural)]
pub enum Neighboring {
    /// The value of one record may change arbitrarily.
    Substitute,
    /// One record may be added or removed.
    AddRemove,
}

impl Neighboring {
    /// The relation that a privacy definition encodes as `value`.
    pub open spec fn from_i32_spec(value: i32) -> Option<Neighboring> {
        if value == 0 {
            Some(Neighboring::Substitute)
        } else if value == 1 {
            Some(Neighboring::AddRemove)
        } else {
            None
        }
    }

    /// The relation that a privacy definition encodes as `value`, if any.
    pub fn from_i32(value: i32) -> (r: Option<Neighboring>)
        ensures
            r == Neighboring::from_i32_spec(value),
    {
        if value == 0 {
            Some(Neighboring::Substitute)
        } else if value == 1 {
            Some(Neighboring::AddRemove)
        } else {
            None
        }
    }
}

/// The privacy definition that an analysis runs under.
#[derive(Clone, Copy, Debug, PartialEq, Eq, Hash, Structural)]
pub struct PrivacyDefinition {
    /// The encoded neighboring relation: 0 for substitution, 1 for
    /// addition and removal.
    pub neighboring: i32,
}

/// An accuracy: with probability `1 - alpha` the released value lies within
/// `value` of the true one. Both are floating-point numbers, held as their
/// IEEE 754 bit patterns.
#[derive(Clone, Copy, Debug, PartialEq, Eq, Hash, Structural)]
pub struct AccuracyLevel {
    pub value: u64,
    pub alpha: u64,
}

/// The privacy budget that a release spends. Both parts are floating-point
/// numbers, held as their IEEE 754 bit patterns.
#[derive(Clone, Copy, Debug, PartialEq, Eq, Hash, Structural)]
pub struct PrivacyUsage {
    pub epsilon: u64,
    pub delta: u64,
}

/// One record of a disclosure report.
#[derive(Debug, PartialEq)]
pub struct JSONRelease {
    /// The id of the released node.
    pub node_id: u32,
    /// The batch of the released node.
    pub batch: u32,
    /// The kind of the released node.
    pub statistic: Variant,
    /// What was released, in words.
    pub description: String,
}

/// The upstream node wired to each argument of a node, by argument name.
pub type Arguments = NamedMap<u32>;

/// A node of the graph.
#[derive(Debug, PartialEq)]
pub struct Component {
    /// The node's kind.
    pub variant: Variant,
    /// The id of the node that feeds each argument.
    pub arguments: Arguments,
    /// The group that the node belongs to; a constant node made by an
    /// expansion takes the batch of the node that was expanded.
    pub batch: u32,
}

/// What a `Component` is in contracts.
pub struct ComponentView {
    pub variant: Variant,
    pub arguments: Map<Seq<char>, u32>,
    pub batch: u32,
}

impl View for Component {
    type V = ComponentView;

    open spec fn view(&self) -> ComponentView {
        ComponentView {
            variant: self.variant,
            arguments: self.arguments.names_view(),
            batch: self.batch,
        }
    }
}

impl Clone for Component {
    fn clone(&self) -> (r: Component)
        ensures
            r@ == self@,
    {
        let mut arguments: Arguments = NamedMap::new();
        let mut i: usize = 0;
        while i < self.arguments.entries.len()
            invariant
                i <= self.arguments.entries.len(),
                arguments.entries@ == self.arguments.entries@.take(i as int),
            decreases self.arguments.entries.len() - i,
        {
            let name = self.arguments.entries[i].0.clone();
            let id = self.arguments.entries[i].1;
            arguments.entries.push((name, id));
            i = i + 1;
        }
        assert(self.arguments.entries@.take(i as int) =~= self.arguments.entries@);
        assert(arguments.names_view() =~= self.arguments.names_view());
        Component { variant: self.variant, arguments, batch: self.batch }
    }
}

/// A value that is known before any data is touched.
#[derive(Debug, PartialEq)]
pub struct ReleaseNode {
    pub value: Value,
}

/// What a `ReleaseNode` is in contracts.
pub struct ReleaseView {
    pub value: ValueView,
}

impl View for ReleaseNode {
    type V = ReleaseView;

    open spec fn view(&self) -> ReleaseView {
        ReleaseView { value: self.value@ }
    }
}

/// The patch that an expansion hands back. The graph is never edited in
/// place: the caller applies the patch.
#[derive(Debug, PartialEq)]
pub struct ComponentExpansion {
    /// The nodes to insert, and the expanded node where it was rewired.
    pub computation_graph: HashMap<u32, Component>,
    /// Properties that are known for nodes of the patch.
    pub properties: HashMap<u32, Properties>,
    /// The values of the constant nodes of the patch.
    pub releases: HashMap<u32, ReleaseNode>,
    /// The order in which to visit the nodes of the patch.
    pub traversal: Vec<u32>,
}

/// What a `ComponentExpansion` is in contracts.
pub struct ExpansionView {
    pub computation_graph: Map<u32, ComponentView>,
    pub properties: Map<u32, PropertiesView>,
    pub releases: Map<u32, ReleaseView>,
    pub traversal: Seq<u32>,
}

impl ExpansionView {
    /// The patch that changes nothing.
    pub open spec fn empty() -> ExpansionView {
        ExpansionView {
            computation_graph: Map::empty(),
            properties: Map::empty(),
            releases: Map::empty(),
            traversal: Seq::empty(),
        }
    }
}

impl View for ComponentExpansion {
    type V = ExpansionView;

    open spec fn view(&self) -> ExpansionView {
        ExpansionView {
            computation_graph: self.computation_graph@.map_values(|c: Component| c@),
            properties: self.properties@.map_values(|p: Properties| properties_model(p)),
            releases: self.releases@.map_values(|r: ReleaseNode| r@),
            traversal: self.traversal@,
        }
    }
}

impl ComponentExpansion {
    /// The patch that changes nothing.
    pub fn new() -> (r: ComponentExpansion)
        ensures
            r@ == ExpansionView::empty(),
    {
        let r = ComponentExpansion {
            computation_graph: HashMap::new(),
            properties: HashMap::new(),
            releases: HashMap::new(),
            traversal: Vec::new(),
        };
        assert(r@.computation_graph =~= Map::empty());
        assert(r@.properties =~= Map::empty());
        assert(r@.releases =~= Map::empty());
        r
    }
}

} // verus!
