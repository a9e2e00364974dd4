//! The library's own capabilities: JSON, keyring and byte-buffer
//! factories, and the interpreter module.
//!
//! Each builds a table of native functions — or, for the interpreter,
//! hands over its source — exactly as its `*_module_view` function
//! describes; the embedder turns native functions into engine
//! callables.

use vstd::prelude::*;

use crate::module::{artifact_view, Artifact, ArtifactView, DefaultModule, Module};
use crate::value::{NativeFn, ScriptValue, ScriptValueView};

verus! {

/// The JSON capability's artifact: a table with `encode` and `decode`.
pub open spec fn json_module_view() -> ScriptValueView {
    ScriptValueView::Table(
        seq![
            (
                ScriptValueView::Str("encode"@),
                ScriptValueView::Function(NativeFn::JsonEncode),
            ),
            (
                ScriptValueView::Str("decode"@),
                ScriptValueView::Function(NativeFn::JsonDecode),
            ),
        ],
    )
}

/// The keyring capability's artifact: a factory table with `new` and
/// `generate`.
pub open spec fn keyring_module_view() -> ScriptValueView {
    ScriptValueView::Table(
        seq![
            (ScriptValueView::Str("new"@), ScriptValueView::Function(NativeFn::KeyringNew)),
            (
                ScriptValueView::Str("generate"@),
                ScriptValueView::Function(NativeFn::KeyringGenerate),
            ),
        ],
    )
}

/// The byte-buffer capability's artifact: a factory table with `new`,
/// `base64` and `string`.
pub open spec fn octet_module_view() -> ScriptValueView {
    ScriptValueView::Table(
        seq![
            (ScriptValueView::Str("new"@), ScriptValueView::Function(NativeFn::OctetNew)),
            (
                ScriptValueView::Str("base64"@),
                ScriptValueView::Function(NativeFn::OctetFromBase64),
            ),
            (
                ScriptValueView::Str("string"@),
                ScriptValueView::Function(NativeFn::OctetFromString),
            ),
        ],
    )
}

/// Builds one `(name, native function)` table pair.
fn fn_pair(name: &str, f: NativeFn) -> (r: (ScriptValue, ScriptValue))
    ensures
        (r.0@, r.1@) == (ScriptValueView::Str(name@), ScriptValueView::Function(f)),
{
    (ScriptValue::Str(name.to_owned()), ScriptValue::Function(f))
}

/// JSON encoding and decoding for engine values, exposed to scripts as
/// a module with `encode` and `decode`. The codec itself is an outside
/// collaborator the embedder wires to the two native functions.
#[derive(Clone, Copy, Debug, PartialEq, Eq, Structural, Default)]
pub struct Json;

impl Module for Json {
    open spec fn build_view(&self) -> ArtifactView {
        ArtifactView::Value(json_module_view())
    }

    fn build_module(&self) -> (a: Artifact)
        ensures
            artifact_view(&a) == self.build_view(),
    {
        let mut pairs: Vec<(ScriptValue, ScriptValue)> = Vec::new();
        pairs.push(fn_pair("encode", NativeFn::JsonEncode));
        pairs.push(fn_pair("decode", NativeFn::JsonDecode));
        proof {
            crate::value::lemma_script_pair_views(pairs@);
            assert(crate::value::script_pair_views(pairs@) =~~= json_module_view()->Table_0);
        }
        Artifact::Value(ScriptValue::Table(pairs))
    }
}

impl DefaultModule for Json {
    open spec fn spec_global_var(&self) -> Seq<char> {
        "JSON"@
    }

    fn global_var(&self) -> (r: &'static str)
        ensures
            r@ == self.spec_global_var(),
    {
        "JSON"
    }
}

/// A keyring factory, exposed to scripts as a module with `new` and
/// `generate`.
#[derive(Clone, Copy, Debug, PartialEq, Eq, Structural, Default)]
pub struct KeyringClass;

impl Module for KeyringClass {
    open spec fn build_view(&self) -> ArtifactView {
        ArtifactView::Value(keyring_module_view())
    }

    fn build_module(&self) -> (a: Artifact)
        ensures
            artifact_view(&a) == self.build_view(),
    {
        let mut pairs: Vec<(ScriptValue, ScriptValue)> = Vec::new();
        pairs.push(fn_pair("new", NativeFn::KeyringNew));
        pairs.push(fn_pair("generate", NativeFn::KeyringGenerate));
        proof {
            crate::value::lemma_script_pair_views(pairs@);
            assert(crate::value::script_pair_views(pairs@) =~~= keyring_module_view()->Table_0);
        }
        Artifact::Value(ScriptValue::Table(pairs))
    }
}

impl DefaultModule for KeyringClass {
    open spec fn spec_global_var(&self) -> Seq<char> {
        "KEYRING"@
    }

    fn global_var(&self) -> (r: &'static str)
        ensures
            r@ == self.spec_global_var(),
    {
        "KEYRING"
    }
}

/// A byte-buffer factory, exposed to scripts as a module with `new`,
/// `base64` and `string`.
#[derive(Clone, Copy, Debug, PartialEq, Eq, Structural, Default)]
pub struct OctetClass;

impl Module for OctetClass {
    open spec fn build_view(&self) -> ArtifactView {
        ArtifactView::Value(octet_module_view())
    }

    fn build_module(&self) -> (a: Artifact)
        ensures
            artifact_view(&a) == self.build_view(),
    {
        let mut pairs: Vec<(ScriptValue, ScriptValue)> = Vec::new();
        pairs.push(fn_pair("new", NativeFn::OctetNew));
        pairs.push(fn_pair("base64", NativeFn::OctetFromBase64));
        pairs.push(fn_pair("string", NativeFn::OctetFromString));
        proof {
            crate::value::lemma_script_pair_views(pairs@);
            assert(crate::value::script_pair_views(pairs@) =~~= octet_module_view()->Table_0);
        }
        Artifact::Value(ScriptValue::Table(pairs))
    }
}

impl DefaultModule for OctetClass {
    open spec fn spec_global_var(&self) -> Seq<char> {
        "OCTET"@
    }

    fn global_var(&self) -> (r: &'static str)
        ensures
            r@ == self.spec_global_var(),
    {
        "OCTET"
    }
}

/// The interpreter module: externally authored script source, held
/// verbatim and evaluated by the embedder to produce the interpreter's
/// table. The bundled source is handed in by whoever assembles the
/// runtime.
#[derive(Clone, Debug, PartialEq)]
pub struct Zencode {
    source: String,
}

impl Zencode {
    /// Holds the interpreter source as given.
    pub fn new(source: String) -> (r: Self)
        ensures
            r.spec_source() == source@,
    {
        Zencode { source }
    }

    /// The source held.
    pub closed spec fn spec_source(&self) -> Seq<char> {
        self.source@
    }
}

impl Default for Zencode {
    /// No source yet: the embedder supplies the bundled interpreter.
    fn default() -> (r: Self)
        ensures
            r.spec_source() == Seq::<char>::empty(),
    {
        Zencode { source: String::new() }
    }
}

impl Module for Zencode {
    open spec fn build_view(&self) -> ArtifactView {
        ArtifactView::EngineEval(self.spec_source())
    }

    fn build_module(&self) -> (a: Artifact)
        ensures
            artifact_view(&a) == self.build_view(),
    {
        Artifact::EngineEval(self.source.clone())
    }
}

impl DefaultModule for Zencode {
    open spec fn spec_global_var(&self) -> Seq<char> {
        "ZEN"@
    }

    fn global_var(&self) -> (r: &'static str)
        ensures
            r@ == self.spec_global_var(),
    {
        "ZEN"
    }
}

} // verus!
