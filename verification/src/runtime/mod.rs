//! The runtimes: a sandboxed engine instance together with the
//! host-side state and source composition around it.

use vstd::prelude::*;

use crate::errors::Error;

mod default;
pub(crate) mod engine;
mod zencode;

pub use default::DefaultRuntime;
pub use engine::Facilities;
pub use zencode::{compose_begin_source, compose_load_source, ZencodeRuntime};

verus! {

/// A runtime executes interpreted source: `load` binds source without
/// running it, `eval` runs against the runtime's current state and
/// reads the result back as text, or as absent where the script
/// returned nothing.
pub trait Runtime {
    /// Bind source into the runtime, replacing what was loaded before.
    fn load(&mut self, source: &str) -> Result<(), Error>;

    /// Evaluate against the runtime's current state.
    fn eval(&self) -> Result<Option<String>, Error>;
}

} // verus!
