//! A minimal plugin that registers nothing yet: it only takes part in the
//! lifecycle.

use vstd::prelude::*;

use crate::plugin::lemma_prefix_reflexive;
use crate::plugin::AlumetStart;
use crate::plugin::Plugin;
use crate::plugin::PluginError;

verus! {

/// A plugin that will rename metrics in flight; for now it only cycles
/// through the lifecycle.
pub struct RenameMetricsPlugin;

impl Plugin for RenameMetricsPlugin {
    open spec fn spec_name(&self) -> Seq<char> {
        "rename-metrics"@
    }

    fn name(&self) -> (r: &str)
        ensures
            r@ == self.spec_name(),
    {
        "rename-metrics"
    }

    fn version(&self) -> &str {
        "0.1.0"
    }

    fn start(&mut self, alumet: AlumetStart) -> (r: (AlumetStart, Result<(), PluginError>)) {
        proof {
            lemma_prefix_reflexive(alumet.spec_metrics());
            lemma_prefix_reflexive(alumet.spec_source_owners());
            lemma_prefix_reflexive(alumet.spec_transform_owners());
            lemma_prefix_reflexive(alumet.spec_output_owners());
        }
        (alumet, Ok(()))
    }

    fn stop(&mut self) -> Result<(), PluginError> {
        Ok(())
    }
}

} // verus!
