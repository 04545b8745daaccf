//! The analyses of a node, and their dispatch on the node's kind.
//!
//! Each analysis is a trait of its own, so that a kind supports any of them
//! without the others. A node kind is analysed through `Variant`, whose
//! rules match on every kind by name: a kind that is added to the set does
//! not compile until each analysis says what becomes of it.

pub mod count;

use crate::base::{
    NodeProperties, Properties, PropertiesView, PublicArguments, SensitivitySpace, Value,
    ValueView,
};
use crate::errors::{Capability, Error};
use crate::graph::{
    AccuracyLevel, Component as Node, ComponentExpansion, Count, ExpansionView, JSONRelease,
    PrivacyDefinition, PrivacyUsage, Variant,
};
use vstd::prelude::*;

verus! {

/// The view of the properties that an analysis returned.
pub open spec fn properties_result(r: Result<Properties, Error>) -> Result<PropertiesView, Error> {
    match r {
        Ok(p) => Ok(p@),
        Err(e) => Err(e),
    }
}

/// The view of the names that an analysis returned.
pub open spec fn names_result(r: Result<Vec<String>, Error>) -> Result<Seq<Seq<char>>, Error> {
    match r {
        Ok(names) => Ok(Seq::new(names.len() as nat, |i: int| names[i]@)),
        Err(e) => Err(e),
    }
}

/// The view of the patch that an analysis returned.
pub open spec fn expansion_result(r: Result<ComponentExpansion, Error>) -> Result<
    ExpansionView,
    Error,
> {
    match r {
        Ok(patch) => Ok(patch@),
        Err(e) => Err(e),
    }
}

/// The view of the value that an analysis returned.
pub open spec fn value_result(r: Result<Value, Error>) -> Result<ValueView, Error> {
    match r {
        Ok(value) => Ok(value@),
        Err(e) => Err(e),
    }
}

/// Derives the properties of a node's output from those of its inputs.
pub trait Component {
    /// The properties of the output, or the error of the analysis.
    spec fn propagated(
        &self,
        privacy_definition: &PrivacyDefinition,
        public_arguments: &PublicArguments,
        properties: &NodeProperties,
    ) -> Result<PropertiesView, Error>;

    /// Derives the properties of the output. The inputs are left as they
    /// are: the output is a value of its own.
    fn propagate_property(
        &self,
        privacy_definition: &PrivacyDefinition,
        public_arguments: &PublicArguments,
        properties: &NodeProperties,
    ) -> (r: Result<Properties, Error>)
        ensures
            properties_result(r) == self.propagated(
                privacy_definition,
                public_arguments,
                properties,
            ),
    ;

    /// The names of the output's columns, or the error of the analysis.
    spec fn names(&self, properties: &NodeProperties) -> Result<Seq<Seq<char>>, Error>;

    /// Derives the names of the output's columns.
    fn get_names(&self, properties: &NodeProperties) -> (r: Result<Vec<String>, Error>)
        ensures
            names_result(r) == self.names(properties),
    ;
}

/// Rewrites a node into itself and the constant nodes that hold what is
/// statically known of its arguments.
pub trait Expandable {
    /// The patch, or the error of the analysis.
    spec fn expansion(
        &self,
        privacy_definition: &PrivacyDefinition,
        component: &Node,
        properties: &NodeProperties,
        component_id: u32,
        maximum_id: u32,
    ) -> Result<ExpansionView, Error>;

    /// Expands the node `component`, whose id is `component_id`, in a graph
    /// whose greatest id is `maximum_id`. New nodes take the ids that
    /// follow `maximum_id`, so one must be left.
    fn expand_component(
        &self,
        privacy_definition: &PrivacyDefinition,
        component: &Node,
        properties: &NodeProperties,
        component_id: u32,
        maximum_id: u32,
    ) -> (r: Result<ComponentExpansion, Error>)
        requires
            maximum_id < u32::MAX,
        ensures
            expansion_result(r) == self.expansion(
                privacy_definition,
                component,
                properties,
                component_id,
                maximum_id,
            ),
    ;
}

/// Derives how far the output of an aggregation moves between neighboring
/// datasets.
pub trait Aggregator {
    /// The sensitivity of each cell of the output, or the error of the
    /// analysis.
    spec fn sensitivity(
        &self,
        privacy_definition: &PrivacyDefinition,
        properties: &NodeProperties,
        sensitivity_type: &SensitivitySpace,
    ) -> Result<ValueView, Error>;

    /// Derives the sensitivity in the space `sensitivity_type`.
    fn compute_sensitivity(
        &self,
        privacy_definition: &PrivacyDefinition,
        properties: &NodeProperties,
        sensitivity_type: &SensitivitySpace,
    ) -> (r: Result<Value, Error>)
        ensures
            value_result(r) == self.sensitivity(privacy_definition, properties, sensitivity_type),
    ;
}

/// Converts between an accuracy and the privacy usage that buys it. A kind
/// that cannot convert answers `None`: that fails no analysis.
pub trait Accuracy {
    /// The privacy usage that reaches `accuracy`, where the kind converts.
    spec fn usage_for_accuracy(
        &self,
        privacy_definition: &PrivacyDefinition,
        properties: &NodeProperties,
        accuracy: &AccuracyLevel,
    ) -> Option<PrivacyUsage>;

    /// The privacy usage that reaches `accuracy`.
    fn accuracy_to_privacy_usage(
        &self,
        privacy_definition: &PrivacyDefinition,
        properties: &NodeProperties,
        accuracy: &AccuracyLevel,
    ) -> (r: Option<PrivacyUsage>)
        ensures
            r == self.usage_for_accuracy(privacy_definition, properties, accuracy),
    ;

    /// The accuracy that the kind's privacy usage reaches, as the bit
    /// pattern of a floating-point number, where the kind converts.
    spec fn accuracy_for_usage(
        &self,
        privacy_definition: &PrivacyDefinition,
        properties: &NodeProperties,
    ) -> Option<u64>;

    /// The accuracy that the kind's privacy usage reaches.
    fn privacy_usage_to_accuracy(
        &self,
        privacy_definition: &PrivacyDefinition,
        properties: &NodeProperties,
    ) -> (r: Option<u64>)
        ensures
            r == self.accuracy_for_usage(privacy_definition, properties),
    ;
}

/// Describes a released node for a disclosure report.
pub trait Report {
    /// Whether the kind describes its releases.
    spec fn reports(&self) -> bool;

    /// The records that describe the release of the node `node_id`; `None`
    /// where the kind describes none.
    fn summarize(
        &self,
        node_id: &u32,
        component: &Node,
        properties: &NodeProperties,
        release: &Value,
    ) -> (r: Option<Vec<JSONRelease>>)
        ensures
            r is Some <==> self.reports(),
    ;
}

impl Variant {
    /// The error of a kind that has no rule for `capability`.
    pub open spec fn not_implemented(self, capability: Capability) -> Error {
        Error::CapabilityNotImplemented { kind: self, capability }
    }
}

impl Component for Variant {
    open spec fn propagated(
        &self,
        privacy_definition: &PrivacyDefinition,
        public_arguments: &PublicArguments,
        properties: &NodeProperties,
    ) -> Result<PropertiesView, Error> {
        match self {
            Variant::Count => (Count {  }).propagated(
                privacy_definition,
                public_arguments,
                properties,
            ),
            Variant::Bin | Variant::Cast | Variant::Clamp | Variant::Constant
            | Variant::Covariance | Variant::Dpcount | Variant::Dpcovariance
            | Variant::Dphistogram | Variant::Dpmaximum | Variant::Dpmean | Variant::Dpmedian
            | Variant::Dpminimum | Variant::Dpmomentraw | Variant::Dpsum | Variant::Dpvariance
            | Variant::Filter | Variant::Impute | Variant::Index | Variant::Kthrawsamplemoment
            | Variant::Materialize | Variant::Maximum | Variant::Mean
            | Variant::Exponentialmechanism | Variant::Gaussianmechanism
            | Variant::Laplacemechanism | Variant::Simplegeometricmechanism | Variant::Minimum
            | Variant::Quantile | Variant::Resize | Variant::Rowmin | Variant::Sum
            | Variant::Variance | Variant::Add | Variant::Subtract | Variant::Divide
            | Variant::Multiply | Variant::Power | Variant::Log | Variant::Modulo
            | Variant::Remainder | Variant::And | Variant::Or | Variant::Negate
            | Variant::Equal | Variant::Lessthan | Variant::Greaterthan | Variant::Negative => Err(
                self.not_implemented(Capability::PropertyPropagation),
            ),
        }
    }

    fn propagate_property(
        &self,
        privacy_definition: &PrivacyDefinition,
        public_arguments: &PublicArguments,
        properties: &NodeProperties,
    ) -> (r: Result<Properties, Error>) {
        match self {
            Variant::Count => (Count {  }).propagate_property(
                privacy_definition,
                public_arguments,
                properties,
            ),
            Variant::Bin | Variant::Cast | Variant::Clamp | Variant::Constant
            | Variant::Covariance | Variant::Dpcount | Variant::Dpcovariance
            | Variant::Dphistogram | Variant::Dpmaximum | Variant::Dpmean | Variant::Dpmedian
            | Variant::Dpminimum | Variant::Dpmomentraw | Variant::Dpsum | Variant::Dpvariance
            | Variant::Filter | Variant::Impute | Variant::Index | Variant::Kthrawsamplemoment
            | Variant::Materialize | Variant::Maximum | Variant::Mean
            | Variant::Exponentialmechanism | Variant::Gaussianmechanism
            | Variant::Laplacemechanism | Variant::Simplegeometricmechanism | Variant::Minimum
            | Variant::Quantile | Variant::Resize | Variant::Rowmin | Variant::Sum
            | Variant::Variance | Variant::Add | Variant::Subtract | Variant::Divide
            | Variant::Multiply | Variant::Power | Variant::Log | Variant::Modulo
            | Variant::Remainder | Variant::And | Variant::Or | Variant::Negate
            | Variant::Equal | Variant::Lessthan | Variant::Greaterthan | Variant::Negative => Err(
                Error::CapabilityNotImplemented {
                    kind: *self,
                    capability: Capability::PropertyPropagation,
                },
            ),
        }
    }

    open spec fn names(&self, properties: &NodeProperties) -> Result<Seq<Seq<char>>, Error> {
        match self {
            Variant::Count => (Count {  }).names(properties),
            Variant::Bin | Variant::Cast | Variant::Clamp | Variant::Constant
            | Variant::Covariance | Variant::Dpcount | Variant::Dpcovariance
            | Variant::Dphistogram | Variant::Dpmaximum | Variant::Dpmean | Variant::Dpmedian
            | Variant::Dpminimum | Variant::Dpmomentraw | Variant::Dpsum | Variant::Dpvariance
            | Variant::Filter | Variant::Impute | Variant::Index | Variant::Kthrawsamplemoment
            | Variant::Materialize | Variant::Maximum | Variant::Mean
            | Variant::Exponentialmechanism | Variant::Gaussianmechanism
            | Variant::Laplacemechanism | Variant::Simplegeometricmechanism | Variant::Minimum
            | Variant::Quantile | Variant::Resize | Variant::Rowmin | Variant::Sum
            | Variant::Variance | Variant::Add | Variant::Subtract | Variant::Divide
            | Variant::Multiply | Variant::Power | Variant::Log | Variant::Modulo
            | Variant::Remainder | Variant::And | Variant::Or | Variant::Negate
            | Variant::Equal | Variant::Lessthan | Variant::Greaterthan | Variant::Negative => Err(self.not_implemented(Capability::Names)),
        }
    }

    fn get_names(&self, properties: &NodeProperties) -> (r: Result<Vec<String>, Error>) {
        match self {
            Variant::Count => (Count {  }).get_names(properties),
            Variant::Bin | Variant::Cast | Variant::Clamp | Variant::Constant
            | Variant::Covariance | Variant::Dpcount | Variant::Dpcovariance
            | Variant::Dphistogram | Variant::Dpmaximum | Variant::Dpmean | Variant::Dpmedian
            | Variant::Dpminimum | Variant::Dpmomentraw | Variant::Dpsum | Variant::Dpvariance
            | Variant::Filter | Variant::Impute | Variant::Index | Variant::Kthrawsamplemoment
            | Variant::Materialize | Variant::Maximum | Variant::Mean
            | Variant::Exponentialmechanism | Variant::Gaussianmechanism
            | Variant::Laplacemechanism | Variant::Simplegeometricmechanism | Variant::Minimum
            | Variant::Quantile | Variant::Resize | Variant::Rowmin | Variant::Sum
            | Variant::Variance | Variant::Add | Variant::Subtract | Variant::Divide
            | Variant::Multiply | Variant::Power | Variant::Log | Variant::Modulo
            | Variant::Remainder | Variant::And | Variant::Or | Variant::Negate
            | Variant::Equal | Variant::Lessthan | Variant::Greaterthan | Variant::Negative => Err(
                Error::CapabilityNotImplemented { kind: *self, capability: Capability::Names },
            ),
        }
    }
}

impl Expandable for Variant {
    open spec fn expansion(
        &self,
        privacy_definition: &PrivacyDefinition,
        component: &Node,
        properties: &NodeProperties,
        component_id: u32,
        maximum_id: u32,
    ) -> Result<ExpansionView, Error> {
        match self {
            Variant::Count => (Count {  }).expansion(
                privacy_definition,
                component,
                properties,
                component_id,
                maximum_id,
            ),
            Variant::Bin | Variant::Cast | Variant::Clamp | Variant::Constant
            | Variant::Covariance | Variant::Dpcount | Variant::Dpcovariance
            | Variant::Dphistogram | Variant::Dpmaximum | Variant::Dpmean | Variant::Dpmedian
            | Variant::Dpminimum | Variant::Dpmomentraw | Variant::Dpsum | Variant::Dpvariance
            | Variant::Filter | Variant::Impute | Variant::Index | Variant::Kthrawsamplemoment
            | Variant::Materialize | Variant::Maximum | Variant::Mean
            | Variant::Exponentialmechanism | Variant::Gaussianmechanism
            | Variant::Laplacemechanism | Variant::Simplegeometricmechanism | Variant::Minimum
            | Variant::Quantile | Variant::Resize | Variant::Rowmin | Variant::Sum
            | Variant::Variance | Variant::Add | Variant::Subtract | Variant::Divide
            | Variant::Multiply | Variant::Power | Variant::Log | Variant::Modulo
            | Variant::Remainder | Variant::And | Variant::Or | Variant::Negate
            | Variant::Equal | Variant::Lessthan | Variant::Greaterthan | Variant::Negative => Err(self.not_implemented(Capability::Expansion)),
        }
    }

    fn expand_component(
        &self,
        privacy_definition: &PrivacyDefinition,
        component: &Node,
        properties: &NodeProperties,
        component_id: u32,
        maximum_id: u32,
    ) -> (r: Result<ComponentExpansion, Error>) {
        match self {
            Variant::Count => (Count {  }).expand_component(
                privacy_definition,
                component,
                properties,
                component_id,
                maximum_id,
            ),
            Variant::Bin | Variant::Cast | Variant::Clamp | Variant::Constant
            | Variant::Covariance | Variant::Dpcount | Variant::Dpcovariance
            | Variant::Dphistogram | Variant::Dpmaximum | Variant::Dpmean | Variant::Dpmedian
            | Variant::Dpminimum | Variant::Dpmomentraw | Variant::Dpsum | Variant::Dpvariance
            | Variant::Filter | Variant::Impute | Variant::Index | Variant::Kthrawsamplemoment
            | Variant::Materialize | Variant::Maximum | Variant::Mean
            | Variant::Exponentialmechanism | Variant::Gaussianmechanism
            | Variant::Laplacemechanism | Variant::Simplegeometricmechanism | Variant::Minimum
            | Variant::Quantile | Variant::Resize | Variant::Rowmin | Variant::Sum
            | Variant::Variance | Variant::Add | Variant::Subtract | Variant::Divide
            | Variant::Multiply | Variant::Power | Variant::Log | Variant::Modulo
            | Variant::Remainder | Variant::And | Variant::Or | Variant::Negate
            | Variant::Equal | Variant::Lessthan | Variant::Greaterthan | Variant::Negative => Err(
                Error::CapabilityNotImplemented {
                    kind: *self,
                    capability: Capability::Expansion,
                },
            ),
        }
    }
}

impl Aggregator for Variant {
    open spec fn sensitivity(
        &self,
        privacy_definition: &PrivacyDefinition,
        properties: &NodeProperties,
        sensitivity_type: &SensitivitySpace,
    ) -> Result<ValueView, Error> {
        match self {
            Variant::Count => (Count {  }).sensitivity(
                privacy_definition,
                properties,
                sensitivity_type,
            ),
            Variant::Bin | Variant::Cast | Variant::Clamp | Variant::Constant
            | Variant::Covariance | Variant::Dpcount | Variant::Dpcovariance
            | Variant::Dphistogram | Variant::Dpmaximum | Variant::Dpmean | Variant::Dpmedian
            | Variant::Dpminimum | Variant::Dpmomentraw | Variant::Dpsum | Variant::Dpvariance
            | Variant::Filter | Variant::Impute | Variant::Index | Variant::Kthrawsamplemoment
            | Variant::Materialize | Variant::Maximum | Variant::Mean
            | Variant::Exponentialmechanism | Variant::Gaussianmechanism
            | Variant::Laplacemechanism | Variant::Simplegeometricmechanism | Variant::Minimum
            | Variant::Quantile | Variant::Resize | Variant::Rowmin | Variant::Sum
            | Variant::Variance | Variant::Add | Variant::Subtract | Variant::Divide
            | Variant::Multiply | Variant::Power | Variant::Log | Variant::Modulo
            | Variant::Remainder | Variant::And | Variant::Or | Variant::Negate
            | Variant::Equal | Variant::Lessthan | Variant::Greaterthan | Variant::Negative => Err(self.not_implemented(Capability::Sensitivity)),
        }
    }

    fn compute_sensitivity(
        &self,
        privacy_definition: &PrivacyDefinition,
        properties: &NodeProperties,
        sensitivity_type: &SensitivitySpace,
    ) -> (r: Result<Value, Error>) {
        match self {
            Variant::Count => (Count {  }).compute_sensitivity(
                privacy_definition,
                properties,
                sensitivity_type,
            ),
            Variant::Bin | Variant::Cast | Variant::Clamp | Variant::Constant
            | Variant::Covariance | Variant::Dpcount | Variant::Dpcovariance
            | Variant::Dphistogram | Variant::Dpmaximum | Variant::Dpmean | Variant::Dpmedian
            | Variant::Dpminimum | Variant::Dpmomentraw | Variant::Dpsum | Variant::Dpvariance
            | Variant::Filter | Variant::Impute | Variant::Index | Variant::Kthrawsamplemoment
            | Variant::Materialize | Variant::Maximum | Variant::Mean
            | Variant::Exponentialmechanism | Variant::Gaussianmechanism
            | Variant::Laplacemechanism | Variant::Simplegeometricmechanism | Variant::Minimum
            | Variant::Quantile | Variant::Resize | Variant::Rowmin | Variant::Sum
            | Variant::Variance | Variant::Add | Variant::Subtract | Variant::Divide
            | Variant::Multiply | Variant::Power | Variant::Log | Variant::Modulo
            | Variant::Remainder | Variant::And | Variant::Or | Variant::Negate
            | Variant::Equal | Variant::Lessthan | Variant::Greaterthan | Variant::Negative => Err(
                Error::CapabilityNotImplemented {
                    kind: *self,
                    capability: Capability::Sensitivity,
                },
            ),
        }
    }
}

impl Accuracy for Variant {
    open spec fn usage_for_accuracy(
        &self,
        privacy_definition: &PrivacyDefinition,
        properties: &NodeProperties,
        accuracy: &AccuracyLevel,
    ) -> Option<PrivacyUsage> {
        None
    }

    fn accuracy_to_privacy_usage(
        &self,
        privacy_definition: &PrivacyDefinition,
        properties: &NodeProperties,
        accuracy: &AccuracyLevel,
    ) -> (r: Option<PrivacyUsage>) {
        match self {
            Variant::Count
            | Variant::Bin | Variant::Cast | Variant::Clamp | Variant::Constant
            | Variant::Covariance | Variant::Dpcount | Variant::Dpcovariance
            | Variant::Dphistogram | Variant::Dpmaximum | Variant::Dpmean | Variant::Dpmedian
            | Variant::Dpminimum | Variant::Dpmomentraw | Variant::Dpsum | Variant::Dpvariance
            | Variant::Filter | Variant::Impute | Variant::Index | Variant::Kthrawsamplemoment
            | Variant::Materialize | Variant::Maximum | Variant::Mean
            | Variant::Exponentialmechanism | Variant::Gaussianmechanism
            | Variant::Laplacemechanism | Variant::Simplegeometricmechanism | Variant::Minimum
            | Variant::Quantile | Variant::Resize | Variant::Rowmin | Variant::Sum
            | Variant::Variance | Variant::Add | Variant::Subtract | Variant::Divide
            | Variant::Multiply | Variant::Power | Variant::Log | Variant::Modulo
            | Variant::Remainder | Variant::And | Variant::Or | Variant::Negate
            | Variant::Equal | Variant::Lessthan | Variant::Greaterthan | Variant::Negative => None,
        }
    }

    open spec fn accuracy_for_usage(
        &self,
        privacy_definition: &PrivacyDefinition,
        properties: &NodeProperties,
    ) -> Option<u64> {
        None
    }

    fn privacy_usage_to_accuracy(
        &self,
        privacy_definition: &PrivacyDefinition,
        properties: &NodeProperties,
    ) -> (r: Option<u64>) {
        match self {
            Variant::Count
            | Variant::Bin | Variant::Cast | Variant::Clamp | Variant::Constant
            | Variant::Covariance | Variant::Dpcount | Variant::Dpcovariance
            | Variant::Dphistogram | Variant::Dpmaximum | Variant::Dpmean | Variant::Dpmedian
            | Variant::Dpminimum | Variant::Dpmomentraw | Variant::Dpsum | Variant::Dpvariance
            | Variant::Filter | Variant::Impute | Variant::Index | Variant::Kthrawsamplemoment
            | Variant::Materialize | Variant::Maximum | Variant::Mean
            | Variant::Exponentialmechanism | Variant::Gaussianmechanism
            | Variant::Laplacemechanism | Variant::Simplegeometricmechanism | Variant::Minimum
            | Variant::Quantile | Variant::Resize | Variant::Rowmin | Variant::Sum
            | Variant::Variance | Variant::Add | Variant::Subtract | Variant::Divide
            | Variant::Multiply | Variant::Power | Variant::Log | Variant::Modulo
            | Variant::Remainder | Variant::And | Variant::Or | Variant::Negate
            | Variant::Equal | Variant::Lessthan | Variant::Greaterthan | Variant::Negative => None,
        }
    }
}

impl Report for Variant {
    open spec fn reports(&self) -> bool {
        false
    }

    fn summarize(
        &self,
        node_id: &u32,
        component: &Node,
        properties: &NodeProperties,
        release: &Value,
    ) -> (r: Option<Vec<JSONRelease>>) {
        match self {
            Variant::Count
            | Variant::Bin | Variant::Cast | Variant::Clamp | Variant::Constant
            | Variant::Covariance | Variant::Dpcount | Variant::Dpcovariance
            | Variant::Dphistogram | Variant::Dpmaximum | Variant::Dpmean | Variant::Dpmedian
            | Variant::Dpminimum | Variant::Dpmomentraw | Variant::Dpsum | Variant::Dpvariance
            | Variant::Filter | Variant::Impute | Variant::Index | Variant::Kthrawsamplemoment
            | Variant::Materialize | Variant::Maximum | Variant::Mean
            | Variant::Exponentialmechanism | Variant::Gaussianmechanism
            | Variant::Laplacemechanism | Variant::Simplegeometricmechanism | Variant::Minimum
            | Variant::Quantile | Variant::Resize | Variant::Rowmin | Variant::Sum
            | Variant::Variance | Variant::Add | Variant::Subtract | Variant::Divide
            | Variant::Multiply | Variant::Power | Variant::Log | Variant::Modulo
            | Variant::Remainder | Variant::And | Variant::Or | Variant::Negate
            | Variant::Equal | Variant::Lessthan | Variant::Greaterthan | Variant::Negative => None,
        }
    }
}

} // verus!
