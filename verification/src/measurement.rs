//! Measurement points and buffers.
//!
//! Each stage of the pipeline reads, produces or modifies timeseries data
//! points, each represented as a [`MeasurementPoint`]. Transforms and
//! outputs work on a [`MeasurementBuffer`]; sources produce into a
//! [`MeasurementAccumulator`], which only lets them append.

use vstd::prelude::*;

use crate::attributes::insert_all;
use crate::attributes::lemma_insert_all_union;
use crate::attributes::AttributeMap;
use crate::attributes::AttributeValue;
use crate::metrics::RawMetricId;
use crate::metrics::TypedMetricId;
use crate::resources::ResourceConsumerId;
use crate::resources::ResourceId;

verus! {

/// How many nanoseconds one second holds.
pub const NANOS_PER_SEC: u32 = 1_000_000_000;

/// A measurement of a clock: an absolute point in time, as whole seconds
/// and a nanosecond remainder. Compared for equality only; ordering and
/// arithmetic are not exposed at this layer.
#[derive(Debug, Clone, Copy, PartialEq, Eq, Hash, Structural)]
pub struct Timestamp {
    /// Whole seconds.
    pub secs: u64,
    /// Nanoseconds within the second, below [`NANOS_PER_SEC`].
    pub nanos: u32,
}

/// Relies on `std::time::SystemTime::now` (with `duration_since` from the
/// epoch as the conversion): the clock reading as whole seconds and a
/// nanosecond remainder. Of the reading itself nothing can be promised;
/// only the remainder's range is stated.
#[verifier::external_body]
fn system_clock_now() -> (r: (u64, u32))
    ensures
        r.1 < NANOS_PER_SEC,
{
    match std::time::SystemTime::now().duration_since(std::time::UNIX_EPOCH) {
        Ok(d) => (d.as_secs(), d.subsec_nanos()),
        Err(_) => (0, 0),
    }
}

impl Timestamp {
    /// Reads the clock.
    pub fn now() -> (r: Timestamp)
        ensures
            r.nanos < NANOS_PER_SEC,
    {
        let (secs, nanos) = system_clock_now();
        Timestamp { secs, nanos }
    }

    /// Builds a timestamp from an external time value.
    pub fn from_unix(secs: u64, nanos: u32) -> (r: Timestamp)
        requires
            nanos < NANOS_PER_SEC,
        ensures
            r == (Timestamp { secs, nanos }),
    {
        Timestamp { secs, nanos }
    }
}

/// The possible measurement value types, as a definition-time type tag.
#[derive(Debug, Clone, Copy, PartialEq, Eq, Structural)]
pub enum WrappedMeasurementType {
    /// 64-bit floating point.
    F64,
    /// 64-bit unsigned integer.
    U64,
}

impl WrappedMeasurementType {
    /// The name of this type tag.
    pub fn display_string(&self) -> (r: String)
        ensures
            *self is F64 ==> r@ == "F64"@,
            *self is U64 ==> r@ == "U64"@,
    {
        match self {
            WrappedMeasurementType::F64 => "F64".to_owned(),
            WrappedMeasurementType::U64 => "U64".to_owned(),
        }
    }
}

/// A measurement value of any supported measurement type.
///
/// The `F64` variant carries a 64-bit floating-point value as its raw bit
/// pattern; producers and exporters convert at the boundary.
#[derive(Debug, Clone, Copy, PartialEq, Eq, Structural)]
pub enum WrappedMeasurementValue {
    /// A 64-bit floating-point value, held as its bit pattern.
    F64(u64),
    /// A 64-bit unsigned integer.
    U64(u64),
}

/// The type tag of a wrapped value.
pub open spec fn spec_type_of(v: WrappedMeasurementValue) -> WrappedMeasurementType {
    match v {
        WrappedMeasurementValue::F64(_) => WrappedMeasurementType::F64,
        WrappedMeasurementValue::U64(_) => WrappedMeasurementType::U64,
    }
}

impl WrappedMeasurementValue {
    /// The type tag of this value.
    pub fn measurement_type(&self) -> (r: WrappedMeasurementType)
        ensures
            r == spec_type_of(*self),
    {
        match self {
            WrappedMeasurementValue::F64(_) => WrappedMeasurementType::F64,
            WrappedMeasurementValue::U64(_) => WrappedMeasurementType::U64,
        }
    }
}

/// A 64-bit floating-point measurement value, as its raw bit pattern: the
/// typed constructor path uses this type for floating-point metrics, and
/// producers convert at the boundary.
#[derive(Debug, Clone, Copy, PartialEq, Eq, Structural)]
pub struct F64Bits(pub u64);

/// Trait implemented by the types that are accepted as measurement values.
pub trait MeasurementType {
    /// The value type itself.
    type T;

    /// The type tag this value type is declared under.
    spec fn spec_wrapped_type() -> WrappedMeasurementType;

    /// What wrapping a value yields.
    spec fn spec_wrap(v: Self::T) -> WrappedMeasurementValue;

    /// Wraps a value; the wrapped value carries this type's tag.
    fn wrapped_value(v: Self::T) -> (r: WrappedMeasurementValue)
        ensures
            r == Self::spec_wrap(v),
            spec_type_of(r) == Self::spec_wrapped_type(),
    ;

    /// The type tag this value type is declared under.
    fn wrapped_type() -> (r: WrappedMeasurementType)
        ensures
            r == Self::spec_wrapped_type(),
    ;
}

impl MeasurementType for u64 {
    type T = u64;

    open spec fn spec_wrapped_type() -> WrappedMeasurementType {
        WrappedMeasurementType::U64
    }

    open spec fn spec_wrap(v: u64) -> WrappedMeasurementValue {
        WrappedMeasurementValue::U64(v)
    }

    fn wrapped_value(v: u64) -> (r: WrappedMeasurementValue)
        ensures
            r == Self::spec_wrap(v),
            spec_type_of(r) == Self::spec_wrapped_type(),
    {
        WrappedMeasurementValue::U64(v)
    }

    fn wrapped_type() -> (r: WrappedMeasurementType)
        ensures
            r == Self::spec_wrapped_type(),
    {
        WrappedMeasurementType::U64
    }
}

impl MeasurementType for F64Bits {
    type T = F64Bits;

    open spec fn spec_wrapped_type() -> WrappedMeasurementType {
        WrappedMeasurementType::F64
    }

    open spec fn spec_wrap(v: F64Bits) -> WrappedMeasurementValue {
        WrappedMeasurementValue::F64(v.0)
    }

    fn wrapped_value(v: F64Bits) -> (r: WrappedMeasurementValue)
        ensures
            r == Self::spec_wrap(v),
            spec_type_of(r) == Self::spec_wrapped_type(),
    {
        WrappedMeasurementValue::F64(v.0)
    }

    fn wrapped_type() -> (r: WrappedMeasurementType)
        ensures
            r == Self::spec_wrapped_type(),
    {
        WrappedMeasurementType::F64
    }
}

/// A value that has been measured at a given point in time, for one metric,
/// about one resource, attributed to one consumer, with optional attributes.
#[derive(Debug, Clone)]
pub struct MeasurementPoint {
    /// The metric that has been measured.
    pub metric: RawMetricId,
    /// The time of the measurement.
    pub timestamp: Timestamp,
    /// The measured value.
    pub value: WrappedMeasurementValue,
    /// The resource this measurement is about.
    pub resource: ResourceId,
    /// The consumer of the resource.
    pub consumer: ResourceConsumerId,
    /// Additional attributes, keyed by name.
    pub attributes: AttributeMap,
}

impl MeasurementPoint {
    /// The attributes, as the mapping they denote.
    pub open spec fn spec_attributes(&self) -> Map<Seq<char>, AttributeValue> {
        self.attributes@
    }

    /// Creates a new point without attributes, using a typed metric id:
    /// the value must be of the metric's declared type.
    pub fn new<T: MeasurementType>(
        timestamp: Timestamp,
        metric: TypedMetricId<T>,
        resource: ResourceId,
        consumer: ResourceConsumerId,
        value: T::T,
    ) -> (r: MeasurementPoint)
        ensures
            r.metric == metric.0,
            r.timestamp == timestamp,
            r.value == T::spec_wrap(value),
            spec_type_of(r.value) == T::spec_wrapped_type(),
            r.resource == resource,
            r.consumer == consumer,
            r.spec_attributes() == Map::<Seq<char>, AttributeValue>::empty(),
    {
        Self::new_untyped(timestamp, metric.0, resource, consumer, T::wrapped_value(value))
    }

    /// Creates a new point without attributes, using an untyped metric id;
    /// the caller is responsible for the value being of the metric's
    /// declared type. Prefer [`MeasurementPoint::new`].
    pub fn new_untyped(
        timestamp: Timestamp,
        metric: RawMetricId,
        resource: ResourceId,
        consumer: ResourceConsumerId,
        value: WrappedMeasurementValue,
    ) -> (r: MeasurementPoint)
        ensures
            r.metric == metric,
            r.timestamp == timestamp,
            r.value == value,
            r.resource == resource,
            r.consumer == consumer,
            r.spec_attributes() == Map::<Seq<char>, AttributeValue>::empty(),
    {
        MeasurementPoint {
            metric,
            timestamp,
            value,
            resource,
            consumer,
            attributes: AttributeMap::new(),
        }
    }

    /// The number of attributes attached to this point.
    pub fn attributes_len(&self) -> (r: usize)
        ensures
            r == self.spec_attributes().dom().len(),
    {
        self.attributes.len()
    }

    /// The attributes attached to this point.
    pub fn attributes(&self) -> (r: &AttributeMap)
        ensures
            r@ == self.spec_attributes(),
    {
        &self.attributes
    }

    /// The names of the attributes attached to this point.
    pub fn attributes_keys(&self) -> (r: Vec<String>)
        ensures
            r@.len() == self.spec_attributes().dom().len(),
            forall|i: int|
                0 <= i < r@.len() ==> self.spec_attributes().contains_key(#[trigger] r@[i]@),
    {
        let entries = self.attributes.entries();
        let mut keys: Vec<String> = Vec::new();
        let n = entries.len();
        let mut i: usize = 0;
        while i < n
            invariant
                n == entries@.len(),
                entries@ == self.attributes.entry_seq(),
                self.spec_attributes().dom().len() == n,
                forall|p: int|
                    0 <= p < n ==> self.spec_attributes().contains_key(
                        #[trigger] entries@[p].0@,
                    ),
                i <= n,
                keys@.len() == i,
                forall|p: int| 0 <= p < i ==> keys@[p]@ == entries@[p].0@,
            decreases n - i,
        {
            keys.push(entries[i].0.clone());
            i = i + 1;
        }
        keys
    }

    /// Sets an attribute on this point; if one with the same name exists,
    /// its value is replaced.
    pub fn add_attr(&mut self, key: &str, value: AttributeValue)
        ensures
            final(self).metric == old(self).metric,
            final(self).timestamp == old(self).timestamp,
            final(self).value == old(self).value,
            final(self).resource == old(self).resource,
            final(self).consumer == old(self).consumer,
            final(self).spec_attributes() == old(self).spec_attributes().insert(key@, value),
    {
        self.attributes.insert(key.to_owned(), value);
    }

    /// Sets an attribute, returning the point; replace-on-conflict.
    pub fn with_attr(self, key: &str, value: AttributeValue) -> (r: MeasurementPoint)
        ensures
            r.metric == self.metric,
            r.timestamp == self.timestamp,
            r.value == self.value,
            r.resource == self.resource,
            r.consumer == self.consumer,
            r.spec_attributes() == self.spec_attributes().insert(key@, value),
    {
        let mut this = self;
        this.add_attr(key, value);
        this
    }

    /// Attaches several attributes, from a list of entries taken first to
    /// last; existing attributes with conflicting names are replaced.
    pub fn with_attr_vec(self, attributes: Vec<(String, AttributeValue)>) -> (r: MeasurementPoint)
        ensures
            r.metric == self.metric,
            r.timestamp == self.timestamp,
            r.value == self.value,
            r.resource == self.resource,
            r.consumer == self.consumer,
            r.spec_attributes() == insert_all(self.spec_attributes(), attributes@),
    {
        let ghost s0 = attributes@;
        let ghost m0 = self.spec_attributes();
        let mut this = self;
        let mut rest = attributes;
        let ghost mut k: int = 0;
        while rest.len() > 0
            invariant
                0 <= k <= s0.len(),
                rest@ =~= s0.skip(k),
                this.metric == self.metric,
                this.timestamp == self.timestamp,
                this.value == self.value,
                this.resource == self.resource,
                this.consumer == self.consumer,
                this.spec_attributes() == insert_all(m0, s0.take(k)),
            decreases rest@.len(),
        {
            let e = rest.remove(0);
            proof {
                assert(e == s0[k]);
                assert(s0.take(k + 1).drop_last() =~= s0.take(k));
                assert(s0.take(k + 1).last() == s0[k]);
            }
            this.add_attr(e.0.as_str(), e.1);
            proof {
                assert(rest@ =~= s0.skip(k + 1));
                k = k + 1;
            }
        }
        proof {
            assert(s0.take(k) =~= s0);
        }
        this
    }

    /// Attaches several attributes from another attribute mapping; existing
    /// attributes with conflicting names are replaced.
    pub fn with_attr_map(self, attributes: AttributeMap) -> (r: MeasurementPoint)
        ensures
            r.metric == self.metric,
            r.timestamp == self.timestamp,
            r.value == self.value,
            r.resource == self.resource,
            r.consumer == self.consumer,
            r.spec_attributes() == self.spec_attributes().union_prefer_right(attributes@),
    {
        let ghost m0 = self.spec_attributes();
        let mut this = self;
        if this.attributes.is_empty() {
            proof {
                assert(m0.union_prefer_right(attributes@) =~= attributes@);
            }
            this.attributes = attributes;
            this
        } else {
            let entries = attributes.into_entries();
            proof {
                lemma_insert_all_union(m0, entries@);
            }
            this.with_attr_vec(entries)
        }
    }
}

/// A `MeasurementBuffer` stores measured data points, in insertion order,
/// owned exclusively by whichever pipeline stage currently holds it.
#[derive(Debug, Clone)]
pub struct MeasurementBuffer {
    points: Vec<MeasurementPoint>,
}

impl View for MeasurementBuffer {
    type V = Seq<MeasurementPoint>;

    closed spec fn view(&self) -> Seq<MeasurementPoint> {
        self.points@
    }
}

impl MeasurementBuffer {
    /// Constructs an empty buffer.
    pub fn new() -> (r: MeasurementBuffer)
        ensures
            r@ == Seq::<MeasurementPoint>::empty(),
    {
        MeasurementBuffer { points: Vec::new() }
    }

    /// Constructs an empty buffer with at least the given capacity
    /// allocated up front.
    pub fn with_capacity(capacity: usize) -> (r: MeasurementBuffer)
        ensures
            r@ == Seq::<MeasurementPoint>::empty(),
    {
        MeasurementBuffer { points: Vec::with_capacity(capacity) }
    }

    /// The number of points in the buffer.
    pub fn len(&self) -> (r: usize)
        ensures
            r == self@.len(),
    {
        self.points.len()
    }

    /// Whether the buffer holds no point.
    pub fn is_empty(&self) -> (r: bool)
        ensures
            r == (self@.len() == 0),
    {
        self.points.len() == 0
    }

    /// Reserves capacity for at least `additional` more points; the
    /// contents are untouched.
    pub fn reserve(&mut self, additional: usize)
        ensures
            final(self)@ == old(self)@,
    {
        self.points.reserve(additional);
    }

    /// Appends a point. Points are never deduplicated or reordered.
    pub fn push(&mut self, point: MeasurementPoint)
        ensures
            final(self)@ == old(self)@.push(point),
    {
        self.points.push(point);
    }

    /// Removes all points (reserved capacity is kept).
    pub fn clear(&mut self)
        ensures
            final(self)@ == Seq::<MeasurementPoint>::empty(),
    {
        self.points.clear();
    }

    /// Read access to the points, in insertion order.
    pub fn iter(&self) -> (r: &Vec<MeasurementPoint>)
        ensures
            r@ == self@,
    {
        &self.points
    }

    /// Write access to the points, in insertion order.
    pub fn iter_mut(&mut self) -> (r: &mut Vec<MeasurementPoint>)
        ensures
            (*r)@ == old(self)@,
            final(self)@ == (*final(r))@,
    {
        &mut self.points
    }

    /// The point at one index.
    pub fn get(&self, i: usize) -> (r: &MeasurementPoint)
        requires
            i < self@.len(),
        ensures
            *r == self@[i as int],
    {
        &self.points[i]
    }

    /// Write access to the point at one index.
    pub fn get_mut(&mut self, i: usize) -> (r: &mut MeasurementPoint)
        requires
            i < old(self)@.len(),
        ensures
            *r == old(self)@[i as int],
            final(self)@ == old(self)@.update(i as int, *final(r)),
    {
        &mut self.points[i]
    }

    /// Turns the buffer into an accumulator that appends to it; get the
    /// buffer back with [`MeasurementAccumulator::into_buffer`].
    pub fn as_accumulator(self) -> (r: MeasurementAccumulator)
        ensures
            r@ == self@,
    {
        MeasurementAccumulator { buffer: self }
    }
}

impl From<Vec<MeasurementPoint>> for MeasurementBuffer {
    /// Wraps an existing list of points as a buffer.
    fn from(value: Vec<MeasurementPoint>) -> (r: MeasurementBuffer) {
        MeasurementBuffer { points: value }
    }
}

impl vstd::std_specs::convert::FromSpecImpl<Vec<MeasurementPoint>> for MeasurementBuffer {
    open spec fn obeys_from_spec() -> bool {
        true
    }

    closed spec fn from_spec(t: Vec<MeasurementPoint>) -> MeasurementBuffer {
        MeasurementBuffer { points: t }
    }
}

/// What converting a vector of points into a buffer yields: a buffer whose
/// view is the vector's view.
pub proof fn lemma_buffer_from_points(v: Vec<MeasurementPoint>)
    ensures
        (<MeasurementBuffer as vstd::std_specs::convert::FromSpec<
            Vec<MeasurementPoint>,
        >>::from_spec(v))@ == v@,
{
}

/// An accumulator holds a measurement buffer and exposes only appending,
/// so that a source handed one cannot inspect or remove what was buffered
/// before. It exists only for the duration of one poll.
pub struct MeasurementAccumulator {
    buffer: MeasurementBuffer,
}

impl View for MeasurementAccumulator {
    type V = Seq<MeasurementPoint>;

    closed spec fn view(&self) -> Seq<MeasurementPoint> {
        self.buffer@
    }
}

impl MeasurementAccumulator {
    /// Appends a new point to the backing buffer: everything already
    /// buffered stays exactly as it was.
    pub fn push(&mut self, point: MeasurementPoint)
        ensures
            final(self)@ == old(self)@.push(point),
    {
        self.buffer.push(point);
    }

    /// Hands the backing buffer back, with everything that was appended.
    pub fn into_buffer(self) -> (r: MeasurementBuffer)
        ensures
            r@ == self@,
    {
        self.buffer
    }
}

/// Accumulator isolation law: a push through an accumulator is visible in
/// the backing buffer immediately and only additively. What
/// [`MeasurementAccumulator::push`] leaves behind holds every point that
/// was already buffered, unaltered and in its place, followed by the new
/// point.
pub proof fn lemma_accumulator_push_additive(s: Seq<MeasurementPoint>, p: MeasurementPoint)
    ensures
        s.push(p).len() == s.len() + 1,
        s.push(p).subrange(0, s.len() as int) == s,
        forall|i: int| 0 <= i < s.len() ==> s.push(p)[i] == s[i],
        s.push(p)[s.len() as int] == p,
{
    assert(s.push(p).subrange(0, s.len() as int) =~= s);
}

} // verus!
