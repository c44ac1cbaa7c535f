use alumet_core::attributes::AttributeMap;
use alumet_core::attributes::AttributeValue;
use alumet_core::measurement::F64Bits;
use alumet_core::measurement::MeasurementBuffer;
use alumet_core::measurement::MeasurementPoint;
use alumet_core::measurement::MeasurementType;
use alumet_core::measurement::Timestamp;
use alumet_core::measurement::WrappedMeasurementType;
use alumet_core::measurement::WrappedMeasurementValue;
use alumet_core::measurement::NANOS_PER_SEC;
use alumet_core::metrics::MetricRegistry;
use alumet_core::metrics::RawMetricId;
use alumet_core::metrics::TypedMetricId;
use alumet_core::resources::ResourceConsumerId;
use alumet_core::resources::ResourceId;
use alumet_core::units::Unit;

fn point(metric: u64, value: u64) -> MeasurementPoint {
    MeasurementPoint::new_untyped(
        Timestamp::from_unix(10, 0),
        RawMetricId(metric),
        ResourceId::LocalMachine,
        ResourceConsumerId::LocalMachine,
        WrappedMeasurementValue::U64(value),
    )
}

#[test]
fn timestamp_now_has_normalized_nanos() {
    let t = Timestamp::now();
    assert!(t.nanos < NANOS_PER_SEC);
}

#[test]
fn timestamp_compares_for_equality() {
    assert_eq!(Timestamp::from_unix(5, 2), Timestamp::from_unix(5, 2));
    assert_ne!(Timestamp::from_unix(5, 2), Timestamp::from_unix(5, 3));
}

#[test]
fn measurement_type_of_values() {
    assert_eq!(
        WrappedMeasurementValue::U64(3).measurement_type(),
        WrappedMeasurementType::U64
    );
    assert_eq!(
        WrappedMeasurementValue::F64(12.5f64.to_bits()).measurement_type(),
        WrappedMeasurementType::F64
    );
}

#[test]
fn wrapped_values_from_typed_values() {
    assert_eq!(u64::wrapped_type(), WrappedMeasurementType::U64);
    assert_eq!(u64::wrapped_value(9), WrappedMeasurementValue::U64(9));
    assert_eq!(F64Bits::wrapped_type(), WrappedMeasurementType::F64);
    assert_eq!(
        F64Bits::wrapped_value(F64Bits(2.5f64.to_bits())),
        WrappedMeasurementValue::F64(2.5f64.to_bits())
    );
}

#[test]
fn typed_constructor_uses_the_declared_type() {
    let mut registry = MetricRegistry::new();
    let raw = registry
        .create_metric("ticks", WrappedMeasurementType::U64, Unit::Second, "tick count")
        .unwrap();
    let typed: TypedMetricId<u64> = TypedMetricId::try_new(raw, &registry).unwrap();
    let p = MeasurementPoint::new(
        Timestamp::from_unix(1, 0),
        typed,
        ResourceId::CpuPackage { id: 1 },
        ResourceConsumerId::Process { pid: 2 },
        42u64,
    );
    assert_eq!(p.metric, raw);
    assert_eq!(p.value, WrappedMeasurementValue::U64(42));
    assert_eq!(p.resource, ResourceId::CpuPackage { id: 1 });
    assert_eq!(p.consumer, ResourceConsumerId::Process { pid: 2 });
    assert_eq!(p.attributes_len(), 0);
}

#[test]
fn typed_id_rejects_a_mismatched_type() {
    let mut registry = MetricRegistry::new();
    let raw = registry
        .create_metric("power", WrappedMeasurementType::F64, Unit::Watt, "power draw")
        .unwrap();
    assert!(TypedMetricId::<u64>::try_new(raw, &registry).is_none());
    assert!(TypedMetricId::<F64Bits>::try_new(raw, &registry).is_some());
    assert!(TypedMetricId::<u64>::try_new(RawMetricId(5), &registry).is_none());
}

#[test]
fn attribute_overwrite_keeps_only_the_later_value() {
    let p = point(0, 1)
        .with_attr("k", AttributeValue::U64(1))
        .with_attr("k", AttributeValue::U64(2));
    assert_eq!(p.attributes_len(), 1);
    assert_eq!(p.attributes().get("k"), Some(&AttributeValue::U64(2)));
    let keys = p.attributes_keys();
    assert_eq!(keys, vec![String::from("k")]);
}

#[test]
fn attributes_from_vec_replace_on_conflict() {
    let p = point(0, 1).with_attr("a", AttributeValue::Bool(false));
    let p = p.with_attr_vec(vec![
        (String::from("a"), AttributeValue::Bool(true)),
        (String::from("b"), AttributeValue::U64(9)),
    ]);
    assert_eq!(p.attributes_len(), 2);
    assert_eq!(p.attributes().get("a"), Some(&AttributeValue::Bool(true)));
    assert_eq!(p.attributes().get("b"), Some(&AttributeValue::U64(9)));
    assert_eq!(p.attributes().get("c"), None);
}

#[test]
fn attributes_from_map_replace_on_conflict() {
    let mut extra = AttributeMap::new();
    extra.insert(String::from("x"), AttributeValue::String(String::from("v")));
    extra.insert(String::from("y"), AttributeValue::U64(1));
    let p = point(0, 1).with_attr("x", AttributeValue::U64(0));
    let p = p.with_attr_map(extra);
    assert_eq!(p.attributes_len(), 2);
    assert_eq!(
        p.attributes().get("x"),
        Some(&AttributeValue::String(String::from("v")))
    );
    assert_eq!(p.attributes().get("y"), Some(&AttributeValue::U64(1)));
}

#[test]
fn attributes_into_an_empty_map_take_its_place() {
    let mut extra = AttributeMap::new();
    extra.insert(String::from("x"), AttributeValue::U64(1));
    let p = point(0, 1).with_attr_map(extra);
    assert_eq!(p.attributes_len(), 1);
    assert_eq!(p.attributes().get("x"), Some(&AttributeValue::U64(1)));
}

#[test]
fn attribute_values_display() {
    assert_eq!(
        AttributeValue::U64(42).display_string(),
        Some(String::from("42"))
    );
    assert_eq!(
        AttributeValue::Bool(true).display_string(),
        Some(String::from("true"))
    );
    assert_eq!(
        AttributeValue::Bool(false).display_string(),
        Some(String::from("false"))
    );
    assert_eq!(
        AttributeValue::String(String::from("s")).display_string(),
        Some(String::from("s"))
    );
    assert_eq!(AttributeValue::F64(1.5f64.to_bits()).display_string(), None);
}

#[test]
fn buffer_keeps_insertion_order() {
    let mut buf = MeasurementBuffer::new();
    buf.push(point(1, 10));
    buf.push(point(2, 20));
    buf.push(point(3, 30));
    assert_eq!(buf.len(), 3);
    let ids: Vec<u64> = buf.iter().iter().map(|p| p.metric.0).collect();
    assert_eq!(ids, vec![1, 2, 3]);
    buf.clear();
    assert_eq!(buf.len(), 0);
    assert!(buf.is_empty());
}

#[test]
fn buffer_reserve_keeps_contents() {
    let mut buf = MeasurementBuffer::with_capacity(2);
    buf.push(point(1, 10));
    buf.reserve(100);
    assert_eq!(buf.len(), 1);
    assert_eq!(buf.get(0).metric, RawMetricId(1));
}

#[test]
fn buffer_from_points() {
    let buf = MeasurementBuffer::from(vec![point(4, 1), point(5, 2)]);
    assert_eq!(buf.len(), 2);
    assert_eq!(buf.get(0).metric, RawMetricId(4));
    assert_eq!(buf.get(1).metric, RawMetricId(5));
}

#[test]
fn points_can_be_modified_in_place() {
    let mut buf = MeasurementBuffer::new();
    buf.push(point(1, 10));
    buf.push(point(2, 20));
    for p in buf.iter_mut().iter_mut() {
        p.add_attr("touched", AttributeValue::Bool(true));
    }
    assert_eq!(
        buf.get(0).attributes().get("touched"),
        Some(&AttributeValue::Bool(true))
    );
    assert_eq!(
        buf.get(1).attributes().get("touched"),
        Some(&AttributeValue::Bool(true))
    );
}

#[test]
fn accumulator_appends_without_touching_previous_points() {
    let mut buf = MeasurementBuffer::new();
    buf.push(point(1, 10).with_attr("a", AttributeValue::U64(1)));
    let mut acc = buf.as_accumulator();
    acc.push(point(2, 20));
    acc.push(point(3, 30));
    let buf = acc.into_buffer();
    assert_eq!(buf.len(), 3);
    assert_eq!(buf.get(0).metric, RawMetricId(1));
    assert_eq!(buf.get(0).value, WrappedMeasurementValue::U64(10));
    assert_eq!(buf.get(0).attributes().get("a"), Some(&AttributeValue::U64(1)));
    assert_eq!(buf.get(1).metric, RawMetricId(2));
    assert_eq!(buf.get(2).metric, RawMetricId(3));
}
