use alumet_core::attributes::AttributeValue;
use alumet_core::exporter::assemble_labels;
use alumet_core::exporter::exported_metric_name;
use alumet_core::exporter::metric_base_name;
use alumet_core::exporter::metric_display_name;
use alumet_core::exporter::sanitize_name;
use alumet_core::exporter::sort_labels;
use alumet_core::measurement::MeasurementBuffer;
use alumet_core::measurement::MeasurementPoint;
use alumet_core::measurement::Timestamp;
use alumet_core::measurement::WrappedMeasurementType;
use alumet_core::measurement::WrappedMeasurementValue;
use alumet_core::metrics::MetricDefinition;
use alumet_core::metrics::MetricRegistry;
use alumet_core::pipeline::Transform;
use alumet_core::pipeline::TransformContext;
use alumet_core::pipeline::TransformError;
use alumet_core::post_processing::Config;
use alumet_core::post_processing::PostProcessingTransform;
use alumet_core::resources::ResourceConsumerId;
use alumet_core::resources::ResourceId;
use alumet_core::text::str_le_exec;
use alumet_core::text::u64_to_string;
use alumet_core::units::Unit;

fn watt_metric(name: &str) -> MetricDefinition {
    MetricDefinition {
        name: String::from(name),
        value_type: WrappedMeasurementType::F64,
        unit: Unit::Watt,
        description: String::from("power draw"),
    }
}

#[test]
fn decimal_rendering() {
    assert_eq!(u64_to_string(0), "0");
    assert_eq!(u64_to_string(7), "7");
    assert_eq!(u64_to_string(105), "105");
    assert_eq!(u64_to_string(u64::MAX), "18446744073709551615");
}

#[test]
fn sanitize_replaces_forbidden_characters() {
    assert_eq!(sanitize_name(String::from("cpu_power")), "cpu_power");
    assert_eq!(sanitize_name(String::from("cpu power!")), "cpu_power_");
    assert_eq!(sanitize_name(String::from("a-b.c/d")), "a_b_c_d");
    assert_eq!(sanitize_name(String::from("ABC123_xyz")), "ABC123_xyz");
    assert_eq!(sanitize_name(String::from("")), "");
}

#[test]
fn string_order_is_lexicographic() {
    assert!(str_le_exec("a", "b"));
    assert!(!str_le_exec("b", "a"));
    assert!(str_le_exec("ab", "b"));
    assert!(str_le_exec("", "a"));
    assert!(str_le_exec("abc", "abc"));
    assert!(str_le_exec("abc", "abd"));
    assert!(!str_le_exec("abd", "abc"));
    assert!(str_le_exec("ab", "abc"));
    assert!(!str_le_exec("abc", "ab"));
}

#[test]
fn base_name_appends_the_unit() {
    let def = watt_metric("cpu_power");
    assert_eq!(metric_base_name(&def, true, true), "cpu_power_watt");
    assert_eq!(metric_base_name(&def, true, false), "cpu_power_W");
    assert_eq!(metric_base_name(&def, false, true), "cpu_power");
}

#[test]
fn base_name_skips_an_empty_unit_name() {
    let def = MetricDefinition {
        name: String::from("ratio"),
        value_type: WrappedMeasurementType::F64,
        unit: Unit::Unity,
        description: String::from("a ratio"),
    };
    // the dimensionless unit has an empty display name
    assert_eq!(metric_base_name(&def, true, true), "ratio");
    assert_eq!(metric_base_name(&def, true, false), "ratio_1");
}

#[test]
fn exported_name_is_sanitized_and_framed() {
    let def = watt_metric("cpu power");
    assert_eq!(
        exported_metric_name(&def, true, true, "pre_", "_alumet"),
        "pre_cpu_power_watt_alumet"
    );
    assert_eq!(
        exported_metric_name(&def, false, true, "", ""),
        "cpu_power"
    );
}

#[test]
fn display_name_is_framed_but_not_sanitized() {
    let def = watt_metric("cpu power");
    assert_eq!(
        metric_display_name(&def, true, true, "p ", " s"),
        "p cpu power_watt s"
    );
}

#[test]
fn labels_hold_the_resource_identities() {
    let p = MeasurementPoint::new_untyped(
        Timestamp::from_unix(0, 0),
        alumet_core::metrics::RawMetricId(0),
        ResourceId::CpuPackage { id: 0 },
        ResourceConsumerId::LocalMachine,
        WrappedMeasurementValue::U64(1),
    );
    let labels = assemble_labels(&p, true);
    assert_eq!(labels.len(), 4);
    assert_eq!(labels[0].0, "resource_kind");
    assert_eq!(
        labels[0].1,
        AttributeValue::String(String::from("cpu_package"))
    );
    assert_eq!(labels[1].0, "resource_id");
    assert_eq!(labels[1].1, AttributeValue::String(String::from("0")));
    assert_eq!(labels[2].0, "resource_consumer_kind");
    assert_eq!(
        labels[2].1,
        AttributeValue::String(String::from("local_machine"))
    );
    assert_eq!(labels[3].0, "resource_consumer_id");
    assert_eq!(labels[3].1, AttributeValue::String(String::from("")));
}

#[test]
fn labels_append_sanitized_attributes_when_asked() {
    let p = MeasurementPoint::new_untyped(
        Timestamp::from_unix(0, 0),
        alumet_core::metrics::RawMetricId(0),
        ResourceId::LocalMachine,
        ResourceConsumerId::Process { pid: 42 },
        WrappedMeasurementValue::U64(1),
    )
    .with_attr("my attr", AttributeValue::U64(5));
    let with = assemble_labels(&p, true);
    assert_eq!(with.len(), 5);
    assert_eq!(with[4].0, "my_attr");
    assert_eq!(with[4].1, AttributeValue::U64(5));
    let without = assemble_labels(&p, false);
    assert_eq!(without.len(), 4);
}

#[test]
fn labels_sort_by_name() {
    let labels = vec![
        (String::from("zeta"), AttributeValue::U64(1)),
        (String::from("alpha"), AttributeValue::U64(2)),
        (String::from("mu"), AttributeValue::U64(3)),
        (String::from("alpha"), AttributeValue::U64(4)),
    ];
    let sorted = sort_labels(labels);
    let keys: Vec<&str> = sorted.iter().map(|e| e.0.as_str()).collect();
    assert_eq!(keys, vec!["alpha", "alpha", "mu", "zeta"]);
    // both duplicates survive, with their values
    let values: Vec<&AttributeValue> = sorted.iter().map(|e| &e.1).collect();
    assert!(matches!(values[2], AttributeValue::U64(3)));
    assert!(matches!(values[3], AttributeValue::U64(1)));
}

#[test]
fn transform_attaches_display_names() {
    let mut registry = MetricRegistry::new();
    let id = registry
        .create_metric("cpu_power", WrappedMeasurementType::F64, Unit::Watt, "power")
        .unwrap();
    let mut buffer = MeasurementBuffer::new();
    buffer.push(MeasurementPoint::new_untyped(
        Timestamp::from_unix(3, 0),
        id,
        ResourceId::CpuPackage { id: 0 },
        ResourceConsumerId::LocalMachine,
        WrappedMeasurementValue::F64(12.5f64.to_bits()),
    ));
    let mut transform = PostProcessingTransform {
        append_unit_to_metric_name: true,
        use_unit_display_name: true,
        prefix: Some(String::from("[")),
        suffix: Some(String::from("]")),
    };
    let ctx = TransformContext { metrics: &registry };
    transform.apply(&mut buffer, &ctx).unwrap();
    assert_eq!(buffer.len(), 1);
    let point = buffer.get(0);
    assert_eq!(
        point.attributes().get("display_name"),
        Some(&AttributeValue::String(String::from("[cpu_power_watt]")))
    );
    // the rest of the point is untouched
    assert_eq!(point.metric, id);
    assert_eq!(point.value, WrappedMeasurementValue::F64(12.5f64.to_bits()));
}

#[test]
fn transform_without_prefix_fails_fatally() {
    let registry = MetricRegistry::new();
    let mut buffer = MeasurementBuffer::new();
    let mut transform = PostProcessingTransform {
        append_unit_to_metric_name: true,
        use_unit_display_name: true,
        prefix: None,
        suffix: Some(String::from("")),
    };
    let ctx = TransformContext { metrics: &registry };
    let r = transform.apply(&mut buffer, &ctx);
    assert!(matches!(r, Err(TransformError::Fatal(_))));
}

#[test]
fn transform_rejects_unknown_metrics() {
    let registry = MetricRegistry::new();
    let mut buffer = MeasurementBuffer::new();
    buffer.push(MeasurementPoint::new_untyped(
        Timestamp::from_unix(3, 0),
        alumet_core::metrics::RawMetricId(9),
        ResourceId::LocalMachine,
        ResourceConsumerId::LocalMachine,
        WrappedMeasurementValue::U64(1),
    ));
    let mut transform = PostProcessingTransform {
        append_unit_to_metric_name: false,
        use_unit_display_name: false,
        prefix: Some(String::new()),
        suffix: Some(String::new()),
    };
    let ctx = TransformContext { metrics: &registry };
    let r = transform.apply(&mut buffer, &ctx);
    assert!(matches!(r, Err(TransformError::Fatal(_))));
}

#[test]
fn default_config_frames_nothing() {
    let config = Config::default();
    assert!(config.append_unit_to_metric_name);
    assert!(config.use_unit_display_name);
    assert_eq!(config.prefix, "");
    assert_eq!(config.suffix, "");
}

#[test]
fn end_to_end_metric_point_buffer_lookup() {
    let mut registry = MetricRegistry::new();
    let id = registry
        .create_metric("cpu_power", WrappedMeasurementType::F64, Unit::Watt, "power")
        .unwrap();
    let point = MeasurementPoint::new_untyped(
        Timestamp::now(),
        id,
        ResourceId::CpuPackage { id: 0 },
        ResourceConsumerId::LocalMachine,
        WrappedMeasurementValue::F64(12.5f64.to_bits()),
    );
    let mut buffer = MeasurementBuffer::new();
    let metric_of_point = point.metric;
    buffer.push(point);
    assert_eq!(buffer.len(), 1);
    let def = registry.by_id(metric_of_point).unwrap();
    assert_eq!(def.name, "cpu_power");
}
