//! The plugin lifecycle and the startup mediator.
//!
//! Each plugin cycles through `start` and `stop`: `stop` is called exactly
//! once between two calls of `start`, so a plugin must not assume that
//! `start` runs only once over its lifetime. Startup is strictly
//! sequential: the [`PluginStarter`] starts one plugin at a time, handing
//! it an [`AlumetStart`] as the only API surface it sees, which routes
//! registrations to the metric and element registries and tags each
//! registered element with the plugin currently starting. The mediator
//! moves by value through each call and is handed back, so that its state
//! is never shared.

use vstd::prelude::*;

use crate::codec::ENCODED_ID_WIDTH;
use crate::measurement::WrappedMeasurementType;
use crate::metrics::contains_name;
use crate::metrics::spec_created;
use crate::metrics::MetricCreationError;
use crate::metrics::MetricRegistry;
use crate::metrics::RawMetricId;
use crate::pipeline::ElementRegistry;
use crate::pipeline::Output;
use crate::pipeline::Source;
use crate::pipeline::Transform;
use crate::units::Unit;

verus! {

/// Every sequence is a prefix of itself: what a plugin that registers
/// nothing must show of the registries.
pub proof fn lemma_prefix_reflexive<A>(s: Seq<A>)
    ensures
        s.is_prefix_of(s),
{
    assert(s =~= s.subrange(0, s.len() as int));
}

/// Extending a sequence by one element keeps the old sequence a prefix:
/// what a plugin that registers one element must show.
pub proof fn lemma_prefix_of_extended<A>(s: Seq<A>, t: Seq<A>)
    requires
        t.len() == s.len() + 1,
        t.drop_last() == s,
    ensures
        s.is_prefix_of(t),
{
    assert(s =~= t.subrange(0, s.len() as int));
}

/// Whether a plugin built against the given encoded-identity width may be
/// loaded: the load-time policy that rejects a plugin compiled for another
/// framework version, whose identity layout may differ.
pub fn layout_compatible(encoded_width: usize) -> (r: bool)
    ensures
        r == (encoded_width == ENCODED_ID_WIDTH),
{
    encoded_width == ENCODED_ID_WIDTH
}

/// One kind per lifecycle failure; no kind is invented outside this set.
#[derive(Debug, Clone, Copy, PartialEq, Eq, Structural)]
pub enum PluginErrorKind {
    /// The plugin's configuration could not be parsed or contains invalid
    /// entries.
    InvalidConfiguration,
    /// The plugin requires a sensor that could not be found on this host.
    SensorNotFound,
    /// The plugin attempted an I/O operation and failed.
    IoFailure,
    /// The plugin failed to initialize.
    InitFailure,
}

/// The description of a plugin error kind.
pub open spec fn spec_kind_message(k: PluginErrorKind) -> Seq<char> {
    match k {
        PluginErrorKind::InvalidConfiguration => "invalid configuration"@,
        PluginErrorKind::SensorNotFound => "required sensor not found"@,
        PluginErrorKind::IoFailure => "I/O failure"@,
        PluginErrorKind::InitFailure => "initialization failure"@,
    }
}

impl PluginErrorKind {
    /// Renders this kind for diagnostics.
    pub fn display_string(&self) -> (r: String)
        ensures
            r@ == spec_kind_message(*self),
    {
        match self {
            PluginErrorKind::InvalidConfiguration => "invalid configuration".to_owned(),
            PluginErrorKind::SensorNotFound => "required sensor not found".to_owned(),
            PluginErrorKind::IoFailure => "I/O failure".to_owned(),
            PluginErrorKind::InitFailure => "initialization failure".to_owned(),
        }
    }
}

/// A plugin lifecycle failure: a kind, an optional human-readable
/// description, and an optional rendered underlying cause.
#[derive(Debug)]
pub struct PluginError {
    /// What went wrong.
    pub kind: PluginErrorKind,
    /// A human-readable description.
    pub description: Option<String>,
    /// The rendered underlying cause, where there is one.
    pub cause: Option<String>,
}

impl PluginError {
    /// An error of the given kind, with no description and no cause.
    pub fn new(kind: PluginErrorKind) -> (r: PluginError)
        ensures
            r.kind == kind,
            r.description is None,
            r.cause is None,
    {
        PluginError { kind, description: None, cause: None }
    }

    /// An error of the given kind with a description.
    pub fn with_description(kind: PluginErrorKind, description: &str) -> (r: PluginError)
        ensures
            r.kind == kind,
            r.description matches Some(d) && d@ == description@,
            r.cause is None,
    {
        PluginError { kind, description: Some(description.to_owned()), cause: None }
    }

    /// An error of the given kind with a description and an underlying
    /// cause, already rendered.
    pub fn with_cause(kind: PluginErrorKind, description: &str, cause: String) -> (r: PluginError)
        ensures
            r.kind == kind,
            r.description matches Some(d) && d@ == description@,
            r.cause == Some(cause),
    {
        PluginError { kind, description: Some(description.to_owned()), cause: Some(cause) }
    }
}

/// A plugin known to the framework: its name and its version. How the
/// plugin is instantiated from its configuration lives with the process
/// entry point, outside the framework.
pub struct PluginInfo {
    /// The plugin's unique name.
    pub name: String,
    /// The plugin's version.
    pub version: String,
}

/// The plugin contract. Plugins produce, transform and export the
/// measurements; the framework drives them through `start` and `stop`.
pub trait Plugin {
    /// The unique name of the plugin, as the contracts speak of it.
    /// Verified plugins give it their name; a plugin implemented outside
    /// the verifier inherits an unspecified default.
    open spec fn spec_name(&self) -> Seq<char> {
        vstd::pervasive::arbitrary()
    }

    /// The unique name of the plugin.
    fn name(&self) -> (r: &str)
        ensures
            r@ == self.spec_name(),
    ;

    /// The version of the plugin, as in `"1.2.3"`.
    fn version(&self) -> &str;

    /// Starts the plugin, letting it register metrics, sources, transforms
    /// and outputs through the mediator, which it hands back. A plugin may
    /// be started and stopped several times; [`Plugin::stop`] is called
    /// exactly once between two calls of `start`. Whatever a start does, it
    /// only adds to the registries: nothing already registered is removed
    /// or reordered.
    fn start(&mut self, alumet: AlumetStart) -> (r: (AlumetStart, Result<(), PluginError>))
        requires
            alumet.ready(),
        ensures
            r.0.ready(),
            alumet.spec_metrics().is_prefix_of(r.0.spec_metrics()),
            alumet.spec_source_owners().is_prefix_of(r.0.spec_source_owners()),
            alumet.spec_transform_owners().is_prefix_of(r.0.spec_transform_owners()),
            alumet.spec_output_owners().is_prefix_of(r.0.spec_output_owners()),
            r.0.current_plugin() == alumet.current_plugin(),
            forall|i: int|
                alumet.spec_source_owners().len() <= i < r.0.spec_source_owners().len() ==> (
                #[trigger] r.0.spec_source_owners()[i])@ == alumet.current_plugin()->0@,
            forall|i: int|
                alumet.spec_transform_owners().len() <= i < r.0.spec_transform_owners().len()
                    ==> (#[trigger] r.0.spec_transform_owners()[i])@ == alumet.current_plugin()->0@,
            forall|i: int|
                alumet.spec_output_owners().len() <= i < r.0.spec_output_owners().len() ==> (
                #[trigger] r.0.spec_output_owners()[i])@ == alumet.current_plugin()->0@,
    ;

    /// Stops the plugin, after everything it registered has been stopped
    /// and unregistered.
    fn stop(&mut self) -> Result<(), PluginError>;
}

/// The startup mediator: the only handle a plugin receives inside `start`.
/// It owns the registries while plugins start and tracks which plugin is
/// currently starting, so that each registered element is tagged with its
/// owner.
pub struct AlumetStart {
    metrics: MetricRegistry,
    pipeline_elements: ElementRegistry,
    current_plugin_name: Option<String>,
}

impl AlumetStart {
    /// The registered metrics.
    pub closed spec fn spec_metrics(&self) -> Seq<crate::metrics::MetricDefinition> {
        self.metrics@
    }

    /// The owners of the registered sources, in registration order.
    pub closed spec fn spec_source_owners(&self) -> Seq<String> {
        self.pipeline_elements.spec_source_owners()
    }

    /// The owners of the registered transforms, in registration order.
    pub closed spec fn spec_transform_owners(&self) -> Seq<String> {
        self.pipeline_elements.spec_transform_owners()
    }

    /// The owners of the registered outputs, in registration order.
    pub closed spec fn spec_output_owners(&self) -> Seq<String> {
        self.pipeline_elements.spec_output_owners()
    }

    /// The plugin currently starting, if one is.
    pub closed spec fn current_plugin(&self) -> Option<String> {
        self.current_plugin_name
    }

    /// Whether a plugin is currently starting: only then may elements be
    /// registered. The starter sets this before each plugin's `start`;
    /// registering earlier is a programming error, kept out by
    /// precondition.
    pub open spec fn ready(&self) -> bool {
        self.current_plugin() is Some
    }

    /// Whether a plugin is currently starting.
    pub fn has_current_plugin(&self) -> (r: bool)
        ensures
            r == self.ready(),
    {
        self.current_plugin_name.is_some()
    }

    /// The name of the plugin currently starting.
    pub fn get_current_plugin_name(&self) -> (r: String)
        requires
            self.ready(),
        ensures
            self.current_plugin() matches Some(p) && r@ == p@,
    {
        match &self.current_plugin_name {
            Some(name) => name.clone(),
            None => unreached(),
        }
    }

    /// Registers a metric: the name must be globally unique and nonempty.
    /// On failure nothing changes and the error kind is
    /// `InvalidConfiguration`.
    pub fn create_metric(
        self,
        name: &str,
        value_type: WrappedMeasurementType,
        unit: Unit,
        description: &str,
    ) -> (r: (AlumetStart, Result<RawMetricId, PluginError>))
        ensures
            r.0.current_plugin() == self.current_plugin(),
            r.0.spec_source_owners() == self.spec_source_owners(),
            r.0.spec_transform_owners() == self.spec_transform_owners(),
            r.0.spec_output_owners() == self.spec_output_owners(),
            name@.len() > 0 && !contains_name(self.spec_metrics(), name@) ==> (r.1 matches Ok(id)
                && id == RawMetricId(self.spec_metrics().len() as u64) && spec_created(
                self.spec_metrics(),
                r.0.spec_metrics(),
                name@,
                value_type,
                unit,
                description@,
            )),
            name@.len() == 0 || contains_name(self.spec_metrics(), name@) ==> (r.1 matches Err(e)
                && e.kind == PluginErrorKind::InvalidConfiguration && r.0.spec_metrics()
                == self.spec_metrics()),
    {
        let mut this = self;
        match this.metrics.create_metric(name, value_type, unit, description) {
            Ok(id) => (this, Ok(id)),
            Err(MetricCreationError::DuplicateName) => (
                this,
                Err(
                    PluginError::with_description(
                        PluginErrorKind::InvalidConfiguration,
                        "a metric with this name is already registered",
                    ),
                ),
            ),
            Err(MetricCreationError::InvalidDefinition) => (
                this,
                Err(
                    PluginError::with_description(
                        PluginErrorKind::InvalidConfiguration,
                        "the metric definition is invalid",
                    ),
                ),
            ),
        }
    }

    /// Registers a source, tagged with the plugin currently starting.
    pub fn add_source(self, source: Box<dyn Source>) -> (r: AlumetStart)
        requires
            self.ready(),
        ensures
            r.current_plugin() == self.current_plugin(),
            r.spec_metrics() == self.spec_metrics(),
            r.spec_transform_owners() == self.spec_transform_owners(),
            r.spec_output_owners() == self.spec_output_owners(),
            r.spec_source_owners().len() == self.spec_source_owners().len() + 1,
            r.spec_source_owners().drop_last() == self.spec_source_owners(),
            self.current_plugin() matches Some(p) && r.spec_source_owners().last()@ == p@,
    {
        let mut this = self;
        let plugin = this.get_current_plugin_name();
        this.pipeline_elements.add_source(plugin, source);
        proof {
            assert(this.spec_source_owners().drop_last() =~= self.spec_source_owners());
        }
        this
    }

    /// Registers a transform, tagged with the plugin currently starting.
    pub fn add_transform(self, transform: Box<dyn Transform>) -> (r: AlumetStart)
        requires
            self.ready(),
        ensures
            r.current_plugin() == self.current_plugin(),
            r.spec_metrics() == self.spec_metrics(),
            r.spec_source_owners() == self.spec_source_owners(),
            r.spec_output_owners() == self.spec_output_owners(),
            r.spec_transform_owners().len() == self.spec_transform_owners().len() + 1,
            r.spec_transform_owners().drop_last() == self.spec_transform_owners(),
            self.current_plugin() matches Some(p) && r.spec_transform_owners().last()@ == p@,
    {
        let mut this = self;
        let plugin = this.get_current_plugin_name();
        this.pipeline_elements.add_transform(plugin, transform);
        proof {
            assert(this.spec_transform_owners().drop_last() =~= self.spec_transform_owners());
        }
        this
    }

    /// Registers an output, tagged with the plugin currently starting.
    pub fn add_output(self, output: Box<dyn Output>) -> (r: AlumetStart)
        requires
            self.ready(),
        ensures
            r.current_plugin() == self.current_plugin(),
            r.spec_metrics() == self.spec_metrics(),
            r.spec_source_owners() == self.spec_source_owners(),
            r.spec_transform_owners() == self.spec_transform_owners(),
            r.spec_output_owners().len() == self.spec_output_owners().len() + 1,
            r.spec_output_owners().drop_last() == self.spec_output_owners(),
            self.current_plugin() matches Some(p) && r.spec_output_owners().last()@ == p@,
    {
        let mut this = self;
        let plugin = this.get_current_plugin_name();
        this.pipeline_elements.add_output(plugin, output);
        proof {
            assert(this.spec_output_owners().drop_last() =~= self.spec_output_owners());
        }
        this
    }
}

/// Starts plugins, one at a time, each fully completing `start` before the
/// next begins; the mediator's current-plugin tag would be unsound under
/// concurrent starts.
pub struct PluginStarter {
    start: AlumetStart,
}

impl PluginStarter {
    /// The registered metrics.
    pub closed spec fn spec_metrics(&self) -> Seq<crate::metrics::MetricDefinition> {
        self.start.spec_metrics()
    }

    /// The owners of the registered sources, in registration order.
    pub closed spec fn spec_source_owners(&self) -> Seq<String> {
        self.start.spec_source_owners()
    }

    /// The owners of the registered transforms, in registration order.
    pub closed spec fn spec_transform_owners(&self) -> Seq<String> {
        self.start.spec_transform_owners()
    }

    /// The owners of the registered outputs, in registration order.
    pub closed spec fn spec_output_owners(&self) -> Seq<String> {
        self.start.spec_output_owners()
    }

    /// A starter over the registries that the plugins will populate.
    pub fn new(metrics: MetricRegistry, pipeline_elements: ElementRegistry) -> (r: PluginStarter)
        ensures
            r.spec_metrics() == metrics@,
            r.spec_source_owners() == pipeline_elements.spec_source_owners(),
            r.spec_transform_owners() == pipeline_elements.spec_transform_owners(),
            r.spec_output_owners() == pipeline_elements.spec_output_owners(),
    {
        PluginStarter {
            start: AlumetStart { metrics, pipeline_elements, current_plugin_name: None },
        }
    }

    /// Starts one plugin: tags the mediator with the plugin's name, then
    /// runs the plugin's `start` exactly once, and hands the starter back.
    /// Whatever the plugin does, everything registered before stays
    /// registered, in its order, and everything registered during the call
    /// is attributed to the started plugin's name.
    pub fn start(self, plugin: &mut Box<dyn Plugin>) -> (r: (
        PluginStarter,
        Result<(), PluginError>,
    ))
        ensures
            self.spec_metrics().is_prefix_of(r.0.spec_metrics()),
            self.spec_source_owners().is_prefix_of(r.0.spec_source_owners()),
            self.spec_transform_owners().is_prefix_of(r.0.spec_transform_owners()),
            self.spec_output_owners().is_prefix_of(r.0.spec_output_owners()),
            forall|i: int|
                self.spec_source_owners().len() <= i < r.0.spec_source_owners().len() ==> (
                #[trigger] r.0.spec_source_owners()[i])@ == old(plugin).spec_name(),
            forall|i: int|
                self.spec_transform_owners().len() <= i < r.0.spec_transform_owners().len()
                    ==> (#[trigger] r.0.spec_transform_owners()[i])@ == old(plugin).spec_name(),
            forall|i: int|
                self.spec_output_owners().len() <= i < r.0.spec_output_owners().len() ==> (
                #[trigger] r.0.spec_output_owners()[i])@ == old(plugin).spec_name(),
    {
        let PluginStarter { start } = self;
        let mut start = start;
        let name = plugin.name().to_owned();
        start.current_plugin_name = Some(name);
        let (start, result) = plugin.start(start);
        (PluginStarter { start }, result)
    }

    /// Hands the populated registries off once all plugins have started.
    pub fn finish(self) -> (r: (MetricRegistry, ElementRegistry))
        ensures
            r.0@ == self.spec_metrics(),
            r.1.spec_source_owners() == self.spec_source_owners(),
            r.1.spec_transform_owners() == self.spec_transform_owners(),
            r.1.spec_output_owners() == self.spec_output_owners(),
    {
        (self.start.metrics, self.start.pipeline_elements)
    }
}

} // verus!
