//! A minimal embedding of a sandboxed Lua engine together with the host-side
//! logic that surrounds it: a bidirectional value bridge between host values
//! and the engine's dynamic value model, a capability registry exposed to
//! scripts as a single `import` function, byte-buffer and signing helpers,
//! a scenario resolver that pulls named script fragments into the sandbox,
//! and the runtimes that compose all of the above.
//!
//! The engine itself, the JSON and base64 codecs and the elliptic-curve
//! signing primitive are outside collaborators: they are reached only
//! through narrow, explicitly trusted declarations, while everything the
//! host decides or computes around them is verified.

pub mod bridge;
pub mod errors;
pub mod keyring;
pub mod literal;
pub mod module;
pub mod octet;
pub mod runtime;
pub mod value;

pub use errors::Error;
pub use keyring::Keyring;
pub use runtime::{DefaultRuntime, Facilities, Runtime, ZencodeRuntime};
pub use module::{Artifact, Capability, DefaultModule, FileScenarioLinker, Importer, Json, KeyringClass, MapScenarioLinker, Module, OctetClass, ScenarioLinker, ScenarioLoader, Zencode};
pub use octet::Octet;
pub use value::{Handle, HostType, HostValue, NativeFn, ScriptValue, StaticUserData};
