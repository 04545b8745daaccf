use validator::base::{
    DataType, NodeProperties, Properties, PublicArguments, SensitivitySpace, Value,
};
use validator::arrays::IntArray;
use validator::components::{Accuracy, Aggregator, Component, Expandable, Report};
use validator::errors::{Capability, Error};
use validator::graph::{AccuracyLevel, Count, PrivacyDefinition, Variant};
use validator::named::NamedMap;

fn inputs() -> NodeProperties {
    let mut properties = NamedMap::new();
    properties.insert(
        "data".to_string(),
        Properties {
            num_records: Some(500),
            num_columns: Some(1),
            nature: None,
            data_type: DataType::F64,
            aggregator: None,
        },
    );
    properties
}

fn node(variant: Variant) -> validator::graph::Component {
    validator::graph::Component { variant, arguments: NamedMap::new(), batch: 0 }
}

const WITHOUT_RULES: [Variant; 6] = [
    Variant::Bin,
    Variant::Constant,
    Variant::Dpcount,
    Variant::Laplacemechanism,
    Variant::Sum,
    Variant::Negative,
];

#[test]
fn a_count_is_analysed_by_the_rules_of_counts() {
    let privacy_definition = PrivacyDefinition { neighboring: 1 };
    let public_arguments: PublicArguments = NamedMap::new();
    let properties = inputs();
    assert_eq!(
        Variant::Count.propagate_property(&privacy_definition, &public_arguments, &properties),
        (Count {}).propagate_property(&privacy_definition, &public_arguments, &properties)
    );
    assert_eq!(
        Variant::Count.compute_sensitivity(
            &privacy_definition,
            &properties,
            &SensitivitySpace::KNorm(1)
        ),
        (Count {}).compute_sensitivity(&privacy_definition, &properties, &SensitivitySpace::KNorm(1))
    );
    assert_eq!(
        Variant::Count.expand_component(
            &privacy_definition,
            &node(Variant::Count),
            &properties,
            1,
            1
        ),
        (Count {}).expand_component(&privacy_definition, &node(Variant::Count), &properties, 1, 1)
    );
    assert_eq!(Variant::Count.get_names(&properties), (Count {}).get_names(&properties));
    assert_eq!((Count {}).variant(), Variant::Count);
}

#[test]
fn a_kind_without_a_rule_is_reported_for_propagation() {
    let privacy_definition = PrivacyDefinition { neighboring: 1 };
    let public_arguments: PublicArguments = NamedMap::new();
    for kind in WITHOUT_RULES {
        assert_eq!(
            kind.propagate_property(&privacy_definition, &public_arguments, &inputs()),
            Err(Error::CapabilityNotImplemented {
                kind,
                capability: Capability::PropertyPropagation
            })
        );
    }
}

#[test]
fn a_kind_without_a_rule_is_reported_for_sensitivity() {
    let privacy_definition = PrivacyDefinition { neighboring: 1 };
    for kind in WITHOUT_RULES {
        assert_eq!(
            kind.compute_sensitivity(&privacy_definition, &inputs(), &SensitivitySpace::KNorm(2)),
            Err(Error::CapabilityNotImplemented { kind, capability: Capability::Sensitivity })
        );
    }
}

#[test]
fn a_kind_without_a_rule_is_reported_for_expansion() {
    let privacy_definition = PrivacyDefinition { neighboring: 1 };
    for kind in WITHOUT_RULES {
        assert_eq!(
            kind.expand_component(&privacy_definition, &node(kind), &inputs(), 4, 9),
            Err(Error::CapabilityNotImplemented { kind, capability: Capability::Expansion })
        );
    }
}

#[test]
fn no_kind_derives_column_names() {
    for kind in [Variant::Count, Variant::Rowmin, Variant::Impute] {
        assert_eq!(
            kind.get_names(&inputs()),
            Err(Error::CapabilityNotImplemented { kind, capability: Capability::Names })
        );
    }
}

#[test]
fn a_kind_that_converts_no_accuracy_fails_nothing() {
    let privacy_definition = PrivacyDefinition { neighboring: 1 };
    let accuracy = AccuracyLevel { value: 0.1f64.to_bits(), alpha: 0.05f64.to_bits() };
    for kind in [Variant::Count, Variant::Dpmean, Variant::Add] {
        assert_eq!(kind.accuracy_to_privacy_usage(&privacy_definition, &inputs(), &accuracy), None);
        assert_eq!(kind.privacy_usage_to_accuracy(&privacy_definition, &inputs()), None);
    }
}

#[test]
fn a_kind_that_describes_no_release_answers_none() {
    let release = Value::I64(IntArray::from_vec(&vec![3]));
    for kind in [Variant::Count, Variant::Dpmean, Variant::Add] {
        assert_eq!(kind.summarize(&2, &node(kind), &inputs(), &release), None);
    }
}

#[test]
fn the_message_names_the_kind_and_the_analysis() {
    let error = Error::CapabilityNotImplemented {
        kind: Variant::Gaussianmechanism,
        capability: Capability::Sensitivity,
    };
    assert_eq!(error.message(), "Gaussianmechanism does not implement sensitivity");
    let error = Error::CapabilityNotImplemented {
        kind: Variant::Bin,
        capability: Capability::PropertyPropagation,
    };
    assert_eq!(error.message(), "Bin does not implement property propagation");
    let error =
        Error::CapabilityNotImplemented { kind: Variant::Count, capability: Capability::Names };
    assert_eq!(error.message(), "Count does not implement column names");
    let error =
        Error::CapabilityNotImplemented { kind: Variant::Mean, capability: Capability::Expansion };
    assert_eq!(error.message(), "Mean does not implement graph expansion");
}
