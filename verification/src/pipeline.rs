//! Pipeline element contracts and the element registry.
//!
//! Sources produce measurements, transforms modify them in flight, outputs
//! export them. Concrete elements live in plugins; the registry collects
//! them during startup, tagged with the owning plugin's name, in
//! registration order, and hands them off to the scheduler once startup
//! completes. No element is ever removed once registered.
//!
//! A trait object is opaque to the contracts here, so each collection of
//! elements is specified through the sequence of its owners: one owner
//! name per element, in registration order, read off the stored pairs.

use vstd::prelude::*;

use crate::measurement::MeasurementAccumulator;
use crate::measurement::MeasurementBuffer;
use crate::measurement::Timestamp;
use crate::metrics::MetricRegistry;

verus! {

/// Why an output could not write a buffer. `Fatal` aborts the pipeline;
/// a recoverable error is logged and the pipeline continues.
#[derive(Debug)]
pub enum WriteError {
    /// The pipeline cannot continue.
    Fatal(String),
    /// The write failed but the pipeline may continue.
    Recoverable(String),
}

/// Why a transform could not process a buffer. `Fatal` aborts the
/// pipeline; a recoverable error is logged and the buffer continues
/// downstream.
#[derive(Debug)]
pub enum TransformError {
    /// The pipeline cannot continue.
    Fatal(String),
    /// The transform failed but the pipeline may continue.
    Recoverable(String),
}

/// Why a source could not poll. `Fatal` aborts the pipeline; a recoverable
/// error is logged and polling continues.
#[derive(Debug)]
pub enum PollError {
    /// The pipeline cannot continue.
    Fatal(String),
    /// The poll failed but polling may continue.
    Recoverable(String),
}

/// What an output sees besides the buffer it writes.
pub struct OutputContext<'a> {
    /// The metric registry, read-only after startup.
    pub metrics: &'a MetricRegistry,
}

/// What a transform sees besides the buffer it processes.
pub struct TransformContext<'a> {
    /// The metric registry, read-only after startup.
    pub metrics: &'a MetricRegistry,
}

/// A measurement source: polled by the scheduler, it appends new points
/// through the accumulator it is handed.
pub trait Source {
    /// Produces measurements for one poll, with the poll's timestamp.
    fn poll(&mut self, into: &mut MeasurementAccumulator, timestamp: Timestamp) -> Result<
        (),
        PollError,
    >;
}

/// A measurement transform: modifies a buffer in flight.
pub trait Transform {
    /// Applies this transform to the buffer.
    fn apply(&mut self, measurements: &mut MeasurementBuffer, ctx: &TransformContext) -> Result<
        (),
        TransformError,
    >;
}

/// A measurement output: exports a buffer.
pub trait Output {
    /// Writes the buffer out.
    fn write(&mut self, measurements: &MeasurementBuffer, ctx: &OutputContext) -> Result<
        (),
        WriteError,
    >;
}

/// The owner of each entry, in order.
pub open spec fn owners_of<E>(s: Seq<(String, E)>) -> Seq<String> {
    s.map_values(|p: (String, E)| p.0)
}

/// Holds the registered pipeline elements, each paired with the name of
/// the plugin that registered it, in registration order.
pub struct ElementRegistry {
    sources: Vec<(String, Box<dyn Source>)>,
    transforms: Vec<(String, Box<dyn Transform>)>,
    outputs: Vec<(String, Box<dyn Output>)>,
}

impl ElementRegistry {
    /// The owners of the registered sources, one per source, in
    /// registration order.
    pub closed spec fn spec_source_owners(&self) -> Seq<String> {
        owners_of(self.sources@)
    }

    /// The owners of the registered transforms, in registration order.
    pub closed spec fn spec_transform_owners(&self) -> Seq<String> {
        owners_of(self.transforms@)
    }

    /// The owners of the registered outputs, in registration order.
    pub closed spec fn spec_output_owners(&self) -> Seq<String> {
        owners_of(self.outputs@)
    }

    /// An empty registry.
    pub fn new() -> (r: ElementRegistry)
        ensures
            r.spec_source_owners() == Seq::<String>::empty(),
            r.spec_transform_owners() == Seq::<String>::empty(),
            r.spec_output_owners() == Seq::<String>::empty(),
    {
        let r = ElementRegistry { sources: Vec::new(), transforms: Vec::new(), outputs: Vec::new() };
        proof {
            assert(r.spec_source_owners() =~= Seq::<String>::empty());
            assert(r.spec_transform_owners() =~= Seq::<String>::empty());
            assert(r.spec_output_owners() =~= Seq::<String>::empty());
        }
        r
    }

    /// Registers a source under the given plugin name; everything already
    /// registered stays as it was.
    pub fn add_source(&mut self, plugin: String, source: Box<dyn Source>)
        ensures
            final(self).spec_source_owners() == old(self).spec_source_owners().push(plugin),
            final(self).spec_transform_owners() == old(self).spec_transform_owners(),
            final(self).spec_output_owners() == old(self).spec_output_owners(),
    {
        self.sources.push((plugin, source));
        proof {
            assert(self.sources@ == old(self).sources@.push((plugin, source)));
            old(self).sources@.lemma_push_map_commute(
                |q: (String, Box<dyn Source>)| q.0,
                (plugin, source),
            );
            assert(self.spec_source_owners() =~= old(self).spec_source_owners().push(plugin));
        }
    }

    /// Registers a transform under the given plugin name.
    pub fn add_transform(&mut self, plugin: String, transform: Box<dyn Transform>)
        ensures
            final(self).spec_source_owners() == old(self).spec_source_owners(),
            final(self).spec_transform_owners() == old(self).spec_transform_owners().push(plugin),
            final(self).spec_output_owners() == old(self).spec_output_owners(),
    {
        self.transforms.push((plugin, transform));
        proof {
            assert(self.transforms@ == old(self).transforms@.push((plugin, transform)));
            old(self).transforms@.lemma_push_map_commute(
                |q: (String, Box<dyn Transform>)| q.0,
                (plugin, transform),
            );
            assert(self.spec_transform_owners() =~= old(self).spec_transform_owners().push(plugin));
        }
    }

    /// Registers an output under the given plugin name.
    pub fn add_output(&mut self, plugin: String, output: Box<dyn Output>)
        ensures
            final(self).spec_source_owners() == old(self).spec_source_owners(),
            final(self).spec_transform_owners() == old(self).spec_transform_owners(),
            final(self).spec_output_owners() == old(self).spec_output_owners().push(plugin),
    {
        self.outputs.push((plugin, output));
        proof {
            assert(self.outputs@ == old(self).outputs@.push((plugin, output)));
            old(self).outputs@.lemma_push_map_commute(
                |q: (String, Box<dyn Output>)| q.0,
                (plugin, output),
            );
            assert(self.spec_output_owners() =~= old(self).spec_output_owners().push(plugin));
        }
    }

    /// How many sources are registered.
    pub fn source_count(&self) -> (r: usize)
        ensures
            r == self.spec_source_owners().len(),
    {
        self.sources.len()
    }

    /// How many transforms are registered.
    pub fn transform_count(&self) -> (r: usize)
        ensures
            r == self.spec_transform_owners().len(),
    {
        self.transforms.len()
    }

    /// How many outputs are registered.
    pub fn output_count(&self) -> (r: usize)
        ensures
            r == self.spec_output_owners().len(),
    {
        self.outputs.len()
    }

    /// The owners of the registered sources, in registration order.
    pub fn source_owners(&self) -> (r: Vec<String>)
        ensures
            r@.len() == self.spec_source_owners().len(),
            forall|i: int|
                0 <= i < r@.len() ==> r@[i] == self.spec_source_owners()[i],
    {
        let n = self.sources.len();
        let mut owners: Vec<String> = Vec::new();
        let mut i: usize = 0;
        while i < n
            invariant
                n == self.sources@.len(),
                i <= n,
                owners@.len() == i,
                forall|j: int| 0 <= j < i ==> owners@[j] == self.spec_source_owners()[j],
            decreases n - i,
        {
            owners.push(self.sources[i].0.clone());
            i = i + 1;
        }
        owners
    }

    /// The owners of the registered transforms, in registration order.
    pub fn transform_owners(&self) -> (r: Vec<String>)
        ensures
            r@.len() == self.spec_transform_owners().len(),
            forall|i: int|
                0 <= i < r@.len() ==> r@[i] == self.spec_transform_owners()[i],
    {
        let n = self.transforms.len();
        let mut owners: Vec<String> = Vec::new();
        let mut i: usize = 0;
        while i < n
            invariant
                n == self.transforms@.len(),
                i <= n,
                owners@.len() == i,
                forall|j: int| 0 <= j < i ==> owners@[j] == self.spec_transform_owners()[j],
            decreases n - i,
        {
            owners.push(self.transforms[i].0.clone());
            i = i + 1;
        }
        owners
    }

    /// The owners of the registered outputs, in registration order.
    pub fn output_owners(&self) -> (r: Vec<String>)
        ensures
            r@.len() == self.spec_output_owners().len(),
            forall|i: int|
                0 <= i < r@.len() ==> r@[i] == self.spec_output_owners()[i],
    {
        let n = self.outputs.len();
        let mut owners: Vec<String> = Vec::new();
        let mut i: usize = 0;
        while i < n
            invariant
                n == self.outputs@.len(),
                i <= n,
                owners@.len() == i,
                forall|j: int| 0 <= j < i ==> owners@[j] == self.spec_output_owners()[j],
            decreases n - i,
        {
            owners.push(self.outputs[i].0.clone());
            i = i + 1;
        }
        owners
    }

    /// Hands the registered elements off to the scheduler once startup
    /// completes: one entry per registered element, in registration order,
    /// each paired with the owner the registration was tagged with.
    pub fn into_parts(self) -> (r: (
        Vec<(String, Box<dyn Source>)>,
        Vec<(String, Box<dyn Transform>)>,
        Vec<(String, Box<dyn Output>)>,
    ))
        ensures
            r.0@.len() == self.spec_source_owners().len(),
            forall|i: int|
                0 <= i < r.0@.len() ==> (#[trigger] r.0@[i]).0 == self.spec_source_owners()[i],
            r.1@.len() == self.spec_transform_owners().len(),
            forall|i: int|
                0 <= i < r.1@.len() ==> (#[trigger] r.1@[i]).0 == self.spec_transform_owners()[i],
            r.2@.len() == self.spec_output_owners().len(),
            forall|i: int|
                0 <= i < r.2@.len() ==> (#[trigger] r.2@[i]).0 == self.spec_output_owners()[i],
    {
        (self.sources, self.transforms, self.outputs)
    }
}

} // verus!
