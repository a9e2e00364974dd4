//! Capabilities: native features built into script-visible artifacts on
//! demand, the registry that hands them to scripts through one `import`
//! function, and the scenario resolver.

use vstd::prelude::*;

use crate::value::{script_value_view, ScriptValue, ScriptValueView};

mod capability;
mod importer;
mod scenario;

pub use capability::{Json, KeyringClass, OctetClass, Zencode};
pub use importer::{Capability, Importer};
pub use scenario::{FileScenarioLinker, MapScenarioLinker, ScenarioLinker, ScenarioLoader};

verus! {

/// What building a capability yields: a plain engine value whose
/// callable leaves are native functions, or source text the embedder
/// evaluates in the engine to produce the module's value.
#[derive(Debug, PartialEq)]
pub enum Artifact {
    /// A value bound into the engine as it stands.
    Value(ScriptValue),
    /// Source the embedder evaluates in the engine; the interpreter
    /// module is delivered this way.
    EngineEval(String),
}

/// The mathematical mirror of an [`Artifact`].
pub enum ArtifactView {
    Value(ScriptValueView),
    EngineEval(Seq<char>),
}

/// The mirror of a built artifact.
pub open spec fn artifact_view(a: &Artifact) -> ArtifactView {
    match a {
        Artifact::Value(v) => ArtifactView::Value(script_value_view(v)),
        Artifact::EngineEval(src) => ArtifactView::EngineEval(src@),
    }
}

/// A native feature that can be built into a script-visible artifact.
/// Building is repeatable: each call yields a fresh artifact of the
/// same described shape, which is what lets a runtime import a
/// capability again after a reset.
pub trait Module {
    /// The artifact this capability builds, over the mirrors.
    spec fn build_view(&self) -> ArtifactView;

    /// Build the script-visible artifact.
    fn build_module(&self) -> (a: Artifact)
        ensures
            artifact_view(&a) == self.build_view(),
    ;
}

/// A capability with a fixed global-binding name, so a runtime builder
/// can bind it eagerly at start-up without an `import` call from
/// script source.
pub trait DefaultModule: Module {
    /// The global name, over the mirrors.
    spec fn spec_global_var(&self) -> Seq<char>;

    /// The global name the runtime builder binds this capability to.
    fn global_var(&self) -> (r: &'static str)
        ensures
            r@ == self.spec_global_var(),
    ;
}

} // verus!
