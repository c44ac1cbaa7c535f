//! A transform that attaches a display name to every point in a buffer:
//! the point's metric name, with its unit appended where configured so,
//! framed by a configured prefix and suffix, stored under the
//! `"display_name"` attribute.

use vstd::prelude::*;

use crate::attributes::AttributeValue;
use crate::exporter::metric_display_name;
use crate::exporter::spec_base_name;
use crate::measurement::MeasurementBuffer;
use crate::measurement::MeasurementPoint;
use crate::metrics::MetricDefinition;
use crate::pipeline::Transform;
use crate::pipeline::TransformContext;
use crate::pipeline::TransformError;
use crate::plugin::lemma_prefix_of_extended;
use crate::plugin::lemma_prefix_reflexive;
use crate::plugin::AlumetStart;
use crate::plugin::Plugin;
use crate::plugin::PluginError;

verus! {

/// What the post-processing plugin is configured with.
pub struct Config {
    /// Whether the unit's name is appended to the metric name.
    pub append_unit_to_metric_name: bool,
    /// Whether the unit's display name is used, rather than its unique
    /// name.
    pub use_unit_display_name: bool,
    /// Put in front of every display name.
    pub prefix: String,
    /// Put after every display name.
    pub suffix: String,
}

impl Default for Config {
    /// Append the unit under its display name, with no prefix and no
    /// suffix.
    fn default() -> (r: Config)
        ensures
            r.append_unit_to_metric_name == true,
            r.use_unit_display_name == true,
            r.prefix@ == Seq::<char>::empty(),
            r.suffix@ == Seq::<char>::empty(),
    {
        Config {
            append_unit_to_metric_name: true,
            use_unit_display_name: true,
            prefix: String::new(),
            suffix: String::new(),
        }
    }
}

/// The plugin that registers the post-processing transform.
pub struct PostProcessingPlugin {
    /// The configuration its transform is built from.
    pub config: Config,
}

impl Plugin for PostProcessingPlugin {
    open spec fn spec_name(&self) -> Seq<char> {
        "post-processing"@
    }

    fn name(&self) -> (r: &str)
        ensures
            r@ == self.spec_name(),
    {
        "post-processing"
    }

    fn version(&self) -> &str {
        "0.1.0"
    }

    fn start(&mut self, alumet: AlumetStart) -> (r: (AlumetStart, Result<(), PluginError>)) {
        let transform = PostProcessingTransform {
            append_unit_to_metric_name: self.config.append_unit_to_metric_name,
            use_unit_display_name: self.config.use_unit_display_name,
            prefix: Some(self.config.prefix.clone()),
            suffix: Some(self.config.suffix.clone()),
        };
        let ghost before = alumet;
        let alumet = alumet.add_transform(Box::new(transform));
        proof {
            lemma_prefix_reflexive(alumet.spec_metrics());
            lemma_prefix_reflexive(alumet.spec_source_owners());
            lemma_prefix_reflexive(alumet.spec_output_owners());
            lemma_prefix_of_extended(before.spec_transform_owners(), alumet.spec_transform_owners());
        }
        (alumet, Ok(()))
    }

    fn stop(&mut self) -> Result<(), PluginError> {
        Ok(())
    }
}

/// The transform: computes each point's display name and attaches it.
pub struct PostProcessingTransform {
    /// Whether the unit's name is appended to the metric name.
    pub append_unit_to_metric_name: bool,
    /// Whether the unit's display name is used, rather than its unique
    /// name.
    pub use_unit_display_name: bool,
    /// Put in front of every display name; must be set before the
    /// transform runs.
    pub prefix: Option<String>,
    /// Put after every display name; must be set before the transform
    /// runs.
    pub suffix: Option<String>,
}

/// The display name of a point measured under the given definition.
pub open spec fn spec_display_name_attr(
    def: MetricDefinition,
    append_unit: bool,
    use_display: bool,
    prefix: Seq<char>,
    suffix: Seq<char>,
) -> Seq<char> {
    prefix + spec_base_name(def, append_unit, use_display) + suffix
}

/// Whether `q` is `p` with exactly the display-name attribute of the given
/// contents attached (replacing any previous one), and nothing else
/// changed.
pub open spec fn display_named(p: MeasurementPoint, q: MeasurementPoint, name: Seq<char>) -> bool {
    &&& q.metric == p.metric
    &&& q.timestamp == p.timestamp
    &&& q.value == p.value
    &&& q.resource == p.resource
    &&& q.consumer == p.consumer
    &&& exists|s: String|
        s@ == name && q.spec_attributes() == p.spec_attributes().insert(
            "display_name"@,
            AttributeValue::String(s),
        )
}

impl PostProcessingTransform {
    /// Attaches to every point of the buffer its display name, under the
    /// `"display_name"` attribute: the metric's base name (unit appended
    /// where configured so), framed by the configured prefix and suffix.
    /// Everything else about every point, and the order of the points,
    /// stays as it was.
    pub fn prepare_display_name(
        &mut self,
        measurements: &mut MeasurementBuffer,
        ctx: &TransformContext,
    )
        requires
            old(self).prefix is Some,
            old(self).suffix is Some,
            forall|j: int|
                0 <= j < old(measurements)@.len() ==> (#[trigger] old(measurements)@[j]).metric.0
                    < ctx.metrics@.len(),
        ensures
            *final(self) == *old(self),
            final(measurements)@.len() == old(measurements)@.len(),
            old(self).prefix matches Some(pre) ==> (old(self).suffix matches Some(suf)
                ==> (forall|j: int|
                0 <= j < old(measurements)@.len() ==> display_named(
                    #[trigger] old(measurements)@[j],
                    final(measurements)@[j],
                    spec_display_name_attr(
                        ctx.metrics@[old(measurements)@[j].metric.0 as int],
                        old(self).append_unit_to_metric_name,
                        old(self).use_unit_display_name,
                        pre@,
                        suf@,
                    ),
                ))),
    {
        let n = measurements.len();
        let mut i: usize = 0;
        while i < n
            invariant
                *self == *old(self),
                self.prefix is Some,
                self.suffix is Some,
                n == old(measurements)@.len(),
                measurements@.len() == n,
                i <= n,
                forall|j: int|
                    0 <= j < n ==> (#[trigger] old(measurements)@[j]).metric.0
                        < ctx.metrics@.len(),
                forall|j: int|
                    i <= j < n ==> measurements@[j] == #[trigger] old(measurements)@[j],
                self.prefix matches Some(pre) ==> (self.suffix matches Some(suf) ==> (forall|
                    j: int,
                |
                    0 <= j < i ==> display_named(
                        #[trigger] old(measurements)@[j],
                        measurements@[j],
                        spec_display_name_attr(
                            ctx.metrics@[old(measurements)@[j].metric.0 as int],
                            self.append_unit_to_metric_name,
                            self.use_unit_display_name,
                            pre@,
                            suf@,
                        ),
                    ))),
            decreases n - i,
        {
            let metric_id = measurements.get(i).metric;
            proof {
                assert(measurements@[i as int] == old(measurements)@[i as int]);
                assert(old(measurements)@[i as int].metric.0 < ctx.metrics@.len());
            }
            let def = match ctx.metrics.by_id(metric_id) {
                Some(d) => d,
                None => unreached(),
            };
            let prefix = match &self.prefix {
                Some(s) => s.as_str(),
                None => unreached(),
            };
            let suffix = match &self.suffix {
                Some(s) => s.as_str(),
                None => unreached(),
            };
            let name = metric_display_name(
                def,
                self.append_unit_to_metric_name,
                self.use_unit_display_name,
                prefix,
                suffix,
            );
            let ghost name_view = name@;
            let q = measurements.get_mut(i);
            q.add_attr("display_name", AttributeValue::String(name));
            proof {
                assert(measurements@[i as int].spec_attributes() == old(
                    measurements,
                )@[i as int].spec_attributes().insert(
                    "display_name"@,
                    AttributeValue::String(name),
                ));
            }
            i = i + 1;
        }
    }
}

impl Transform for PostProcessingTransform {
    /// Attaches display names to the whole buffer. Fails with a fatal
    /// error, leaving the buffer untouched, when the transform was built
    /// without a prefix or a suffix, or when some point's metric is not
    /// registered.
    fn apply(&mut self, measurements: &mut MeasurementBuffer, ctx: &TransformContext) -> Result<
        (),
        TransformError,
    > {
        if self.prefix.is_none() || self.suffix.is_none() {
            return Err(
                TransformError::Fatal("the display-name prefix and suffix are not set".to_owned()),
            );
        }
        let n = measurements.len();
        let mut i: usize = 0;
        while i < n
            invariant
                n == measurements@.len(),
                i <= n,
                forall|j: int|
                    0 <= j < i ==> (#[trigger] measurements@[j]).metric.0 < ctx.metrics@.len(),
            decreases n - i,
        {
            match ctx.metrics.by_id(measurements.get(i).metric) {
                Some(_) => {
                },
                None => {
                    return Err(
                        TransformError::Fatal("a point references an unknown metric".to_owned()),
                    );
                },
            }
            i = i + 1;
        }
        self.prepare_display_name(measurements, ctx);
        Ok(())
    }
}

} // verus!
