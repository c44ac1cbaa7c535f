//! The metric registry: named, typed, unit-bearing metrics with globally
//! unique names and stable numeric ids.
//!
//! The registry is populated only during the sequential plugin startup phase
//! (through the startup mediator) and is read-only afterwards.

use vstd::prelude::*;

use crate::measurement::MeasurementType;
use crate::measurement::WrappedMeasurementType;
use crate::units::Unit;

verus! {

/// The numeric, type-erased id of a registered metric.
#[derive(Debug, Clone, Copy, PartialEq, Eq, Hash, Structural)]
pub struct RawMetricId(pub u64);

/// A metric id that carries, at compile time, the measurement value type
/// the metric was declared with: the typed constructor of a measurement
/// point only accepts values of that type.
#[derive(Debug)]
pub struct TypedMetricId<T: MeasurementType>(pub RawMetricId, pub core::marker::PhantomData<T>);

impl<T: MeasurementType> Clone for TypedMetricId<T> {
    fn clone(&self) -> (r: Self)
        ensures
            r == *self,
    {
        TypedMetricId(self.0, core::marker::PhantomData)
    }
}

impl<T: MeasurementType> Copy for TypedMetricId<T> {

}

/// Everything a metric is declared with.
#[derive(Debug, Clone)]
pub struct MetricDefinition {
    /// The globally unique name.
    pub name: String,
    /// The declared type of every measured value of this metric.
    pub value_type: WrappedMeasurementType,
    /// The unit the values are expressed in.
    pub unit: Unit,
    /// A human-readable description.
    pub description: String,
}

/// Why a metric could not be created.
#[derive(Debug, Clone, Copy, PartialEq, Eq, Structural)]
pub enum MetricCreationError {
    /// A metric with the same name is already registered.
    DuplicateName,
    /// The definition itself is invalid (the name is empty).
    InvalidDefinition,
}

/// Whether a definition list holds a metric of the given name.
pub open spec fn contains_name(s: Seq<MetricDefinition>, name: Seq<char>) -> bool {
    exists|i: int| 0 <= i < s.len() && s[i].name@ == name
}

/// What a successful metric creation does to the definition list: exactly
/// one definition, holding what was passed, is appended.
pub open spec fn spec_created(
    old_defs: Seq<MetricDefinition>,
    new_defs: Seq<MetricDefinition>,
    name: Seq<char>,
    value_type: WrappedMeasurementType,
    unit: Unit,
    description: Seq<char>,
) -> bool {
    &&& new_defs.len() == old_defs.len() + 1
    &&& new_defs.subrange(0, old_defs.len() as int) == old_defs
    &&& new_defs.last().name@ == name
    &&& new_defs.last().value_type == value_type
    &&& new_defs.last().unit == unit
    &&& new_defs.last().description@ == description
}

/// Metric uniqueness law: once a creation with some name has succeeded,
/// the registry contains that name, so [`MetricRegistry::create_metric`]'s
/// contract forces a second creation under the same name to fail with
/// `DuplicateName` and to leave the registry, and so its metric count,
/// unchanged.
pub proof fn lemma_created_name_is_taken(
    old_defs: Seq<MetricDefinition>,
    new_defs: Seq<MetricDefinition>,
    name: Seq<char>,
    value_type: WrappedMeasurementType,
    unit: Unit,
    description: Seq<char>,
)
    requires
        spec_created(old_defs, new_defs, name, value_type, unit, description),
    ensures
        contains_name(new_defs, name),
{
    assert(new_defs[new_defs.len() - 1].name@ == name);
}

/// The metric registry. Metric names are globally unique; ids are indices
/// into the registration order and stay stable for the registry's life.
pub struct MetricRegistry {
    definitions: Vec<MetricDefinition>,
}

impl View for MetricRegistry {
    type V = Seq<MetricDefinition>;

    closed spec fn view(&self) -> Seq<MetricDefinition> {
        self.definitions@
    }
}

impl MetricRegistry {
    #[verifier::type_invariant]
    spec fn inv(self) -> bool {
        forall|i: int, j: int|
            0 <= i < j < self.definitions@.len() ==> self.definitions@[i].name@
                != self.definitions@[j].name@
    }

    /// An empty registry.
    pub fn new() -> (r: MetricRegistry)
        ensures
            r@ == Seq::<MetricDefinition>::empty(),
    {
        MetricRegistry { definitions: Vec::new() }
    }

    /// The number of registered metrics.
    pub fn len(&self) -> (r: usize)
        ensures
            r == self@.len(),
    {
        self.definitions.len()
    }

    /// Registers a metric. Fails with `InvalidDefinition` on an empty name,
    /// and with `DuplicateName` when a metric of the same name is already
    /// registered; in both cases the registry is unchanged. Otherwise the
    /// new metric is appended and its id is the registration index.
    pub fn create_metric(
        &mut self,
        name: &str,
        value_type: WrappedMeasurementType,
        unit: Unit,
        description: &str,
    ) -> (r: Result<RawMetricId, MetricCreationError>)
        ensures
            name@.len() == 0 ==> r == Err::<RawMetricId, MetricCreationError>(
                MetricCreationError::InvalidDefinition,
            ) && final(self)@ == old(self)@,
            name@.len() > 0 && contains_name(old(self)@, name@) ==> r == Err::<
                RawMetricId,
                MetricCreationError,
            >(MetricCreationError::DuplicateName) && final(self)@ == old(self)@,
            name@.len() > 0 && !contains_name(old(self)@, name@) ==> r == Ok::<
                RawMetricId,
                MetricCreationError,
            >(RawMetricId(old(self)@.len() as u64)) && spec_created(
                old(self)@,
                final(self)@,
                name@,
                value_type,
                unit,
                description@,
            ) && contains_name(final(self)@, name@),
    {
        proof {
            use_type_invariant(&*self);
        }
        if name.is_empty() {
            return Err(MetricCreationError::InvalidDefinition);
        }
        let owned = name.to_owned();
        let n = self.definitions.len();
        let mut i: usize = 0;
        while i < n
            invariant
                self@ == old(self)@,
                n == self@.len(),
                owned@ == name@,
                name@.len() > 0,
                i <= n,
                forall|j: int| 0 <= j < i ==> self@[j].name@ != name@,
            decreases n - i,
        {
            if self.definitions[i].name == owned {
                proof {
                    assert(contains_name(old(self)@, name@)) by {
                        assert(old(self)@[i as int].name@ == name@);
                    }
                }
                return Err(MetricCreationError::DuplicateName);
            }
            i = i + 1;
        }
        let def = MetricDefinition { name: owned, value_type, unit, description: description.to_owned() };
        let id = RawMetricId(n as u64);
        let mut defs: Vec<MetricDefinition> = Vec::new();
        core::mem::swap(&mut defs, &mut self.definitions);
        defs.push(def);
        self.definitions = defs;
        proof {
            assert(self.definitions@.subrange(0, old(self)@.len() as int) =~= old(self)@);
            assert(contains_name(self.definitions@, name@)) by {
                assert(self.definitions@[old(self)@.len() as int].name@ == name@);
            }
        }
        Ok(id)
    }

    /// Looks a metric up by id: a pure lookup, `Some` exactly for the ids
    /// that have been issued.
    pub fn by_id(&self, id: RawMetricId) -> (r: Option<&MetricDefinition>)
        ensures
            match r {
                Some(d) => id.0 < self@.len() && *d == self@[id.0 as int],
                None => id.0 >= self@.len(),
            },
    {
        if id.0 < self.definitions.len() as u64 {
            Some(&self.definitions[id.0 as usize])
        } else {
            None
        }
    }
}

impl<T: MeasurementType> TypedMetricId<T> {
    /// Wraps a raw id after checking, against the registry, that the
    /// metric was declared with this value type. `None` when the id is
    /// unknown or the declared type differs.
    pub fn try_new(raw: RawMetricId, registry: &MetricRegistry) -> (r: Option<TypedMetricId<T>>)
        ensures
            match r {
                Some(t) => t.0 == raw && raw.0 < registry@.len() && registry@[raw.0 as int].value_type
                    == T::spec_wrapped_type(),
                None => raw.0 >= registry@.len() || registry@[raw.0 as int].value_type
                    != T::spec_wrapped_type(),
            },
    {
        match registry.by_id(raw) {
            Some(def) => {
                if def.value_type == T::wrapped_type() {
                    Some(TypedMetricId(raw, core::marker::PhantomData))
                } else {
                    None
                }
            },
            None => None,
        }
    }
}

} // verus!
