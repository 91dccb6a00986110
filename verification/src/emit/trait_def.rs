//! What emitters of every deployment model have in common.
use vstd::prelude::*;

verus! {

/// An emitter of configuration.
pub trait PlanEmitter: Send + Sync {
    /// What it reads.
    type Input;

    /// What it writes.
    type Output;

    /// The name of the emitter.
    fn name(&self) -> &'static str;

    /// Write the configuration of an input, or say why it cannot be written.
    fn emit(&self, input: &Self::Input) -> Result<Self::Output, String>;
}

} // verus!
