//! The errors of an analysis, and the text shown for each.

use crate::graph::Variant;
use vstd::prelude::*;
use vstd::string::*;

verus! {

/// One of the analyses that a node kind may support.
#[derive(Clone, Copy, Debug, PartialEq, Eq, Hash, Structural)]
pub enum Capability {
    /// Deriving the properties of a node's output.
    PropertyPropagation,
    /// Deriving the column names of a node's output.
    Names,
    /// Rewriting a node into itself and auxiliary nodes.
    Expansion,
    /// Deriving the sensitivity of an aggregation.
    Sensitivity,
}

impl Capability {
    /// The capability's name as it appears in messages.
    pub open spec fn name_spec(self) -> &'static str {
        match self {
            Capability::PropertyPropagation => "property propagation",
            Capability::Names => "column names",
            Capability::Expansion => "graph expansion",
            Capability::Sensitivity => "sensitivity",
        }
    }

    /// The capability's name as it appears in messages.
    pub fn name(&self) -> (r: &'static str)
        ensures
            r == self.name_spec(),
    {
        match self {
            Capability::PropertyPropagation => "property propagation",
            Capability::Names => "column names",
            Capability::Expansion => "graph expansion",
            Capability::Sensitivity => "sensitivity",
        }
    }
}

/// Why the analysis of a node failed. No analysis recovers from its own
/// error: each is handed to the caller as it is.
#[derive(Clone, Copy, Debug, PartialEq, Eq)]
pub enum Error {
    /// A required argument has no properties; the payload is its name.
    MissingArgument(&'static str),
    /// The input has a shape that the node kind cannot analyse; the payload
    /// describes what was expected.
    UnsupportedShape(&'static str),
    /// Sensitivity was asked for data that is already aggregated.
    AlreadyAggregated,
    /// The node kind does not derive its sensitivity in the requested space.
    UnsupportedSensitivitySpace,
    /// The node kind has no rule for the requested analysis.
    CapabilityNotImplemented { kind: Variant, capability: Capability },
    /// The neighboring relation of the privacy definition is not recognized.
    UnsupportedNeighboringDefinition,
}

impl Error {
    /// The text of `message`.
    pub open spec fn message_spec(self) -> Seq<char> {
        match self {
            Error::MissingArgument(argument) => argument@ + ": missing"@,
            Error::UnsupportedShape(expected) => expected@,
            Error::AlreadyAggregated => "sensitivity is not defined for aggregated data"@,
            Error::UnsupportedSensitivitySpace => "sensitivity is not implemented for this space"@,
            Error::CapabilityNotImplemented { kind, capability } => kind.name_spec()@
                + " does not implement "@ + capability.name_spec()@,
            Error::UnsupportedNeighboringDefinition =>
                "neighboring definition must be either \"AddRemove\" or \"Substitute\""@,
        }
    }

    /// A description of the error, qualified by the argument or the node
    /// kind that it concerns.
    pub fn message(&self) -> (r: String)
        ensures
            r@ == self.message_spec(),
    {
        match self {
            Error::MissingArgument(argument) => {
                let mut text = String::from_str(argument);
                text.append(": missing");
                text
            },
            Error::UnsupportedShape(expected) => String::from_str(expected),
            Error::AlreadyAggregated => String::from_str(
                "sensitivity is not defined for aggregated data",
            ),
            Error::UnsupportedSensitivitySpace => String::from_str(
                "sensitivity is not implemented for this space",
            ),
            Error::CapabilityNotImplemented { kind, capability } => {
                let mut text = String::from_str(kind.name());
                text.append(" does not implement ");
                text.append(capability.name());
                text
            },
            Error::UnsupportedNeighboringDefinition => String::from_str(
                "neighboring definition must be either \"AddRemove\" or \"Substitute\"",
            ),
        }
    }
}

} // verus!
