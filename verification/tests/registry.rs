use alumet_core::measurement::WrappedMeasurementType;
use alumet_core::metrics::MetricCreationError;
use alumet_core::metrics::MetricRegistry;
use alumet_core::metrics::RawMetricId;
use alumet_core::units::Unit;

#[test]
fn metric_ids_follow_registration_order() {
    let mut registry = MetricRegistry::new();
    assert_eq!(registry.len(), 0);
    let a = registry
        .create_metric("a", WrappedMeasurementType::U64, Unit::Unity, "first")
        .unwrap();
    let b = registry
        .create_metric("b", WrappedMeasurementType::F64, Unit::Joule, "second")
        .unwrap();
    assert_eq!(a, RawMetricId(0));
    assert_eq!(b, RawMetricId(1));
    assert_eq!(registry.len(), 2);
}

#[test]
fn duplicate_metric_names_are_rejected() {
    let mut registry = MetricRegistry::new();
    registry
        .create_metric("cpu_power", WrappedMeasurementType::F64, Unit::Watt, "power")
        .unwrap();
    let second = registry.create_metric(
        "cpu_power",
        WrappedMeasurementType::U64,
        Unit::Joule,
        "something else",
    );
    assert_eq!(second, Err(MetricCreationError::DuplicateName));
    assert_eq!(registry.len(), 1);
}

#[test]
fn empty_metric_names_are_invalid() {
    let mut registry = MetricRegistry::new();
    let r = registry.create_metric("", WrappedMeasurementType::U64, Unit::Unity, "unnamed");
    assert_eq!(r, Err(MetricCreationError::InvalidDefinition));
    assert_eq!(registry.len(), 0);
}

#[test]
fn by_id_is_a_pure_lookup() {
    let mut registry = MetricRegistry::new();
    let id = registry
        .create_metric("mem_used", WrappedMeasurementType::U64, Unit::Byte, "memory in use")
        .unwrap();
    let def = registry.by_id(id).unwrap();
    assert_eq!(def.name, "mem_used");
    assert_eq!(def.value_type, WrappedMeasurementType::U64);
    assert_eq!(def.description, "memory in use");
    assert!(registry.by_id(RawMetricId(1)).is_none());
    assert!(registry.by_id(RawMetricId(u64::MAX)).is_none());
}

#[test]
fn unit_names() {
    assert_eq!(Unit::Unity.unique_name(), "1");
    assert_eq!(Unit::Unity.display_name(), "");
    assert_eq!(Unit::Second.unique_name(), "s");
    assert_eq!(Unit::Second.display_name(), "second");
    assert_eq!(Unit::Watt.unique_name(), "W");
    assert_eq!(Unit::Watt.display_name(), "watt");
    assert_eq!(Unit::Joule.unique_name(), "J");
    assert_eq!(Unit::Joule.display_name(), "joule");
    assert_eq!(Unit::Byte.unique_name(), "B");
    assert_eq!(Unit::Byte.display_name(), "byte");
    let custom = Unit::Custom {
        unique_name: String::from("degC"),
        display_name: String::from("celsius"),
    };
    assert_eq!(custom.unique_name(), "degC");
    assert_eq!(custom.display_name(), "celsius");
}
