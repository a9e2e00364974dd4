//! Tests of the capability registry: duplicate rejection, resolution
//! shape, and the default module set.

use zenroom_minimal::{
    Artifact, Capability, Error, Importer, Json, Module, NativeFn, ScriptValue, Zencode,
};

#[test]
fn register_then_resolve_matches_build() {
    let mut importer = Importer::new();
    importer.register("x", Capability::Json(Json)).unwrap();
    let resolved = importer.resolve("x").unwrap();
    assert_eq!(resolved, Json.build_module());
}

#[test]
fn duplicate_registration_fails() {
    let mut importer = Importer::new();
    importer.register("x", Capability::Json(Json)).unwrap();
    let second = importer.register("x", Capability::Json(Json));
    assert!(matches!(second, Err(Error::DuplicateCapability(n)) if n == "x"));
}

#[test]
fn unknown_name_is_not_found() {
    let importer = Importer::new();
    assert!(matches!(importer.resolve("nope"), Err(Error::NotFound(n)) if n == "nope"));
}

#[test]
fn resolution_is_rebuildable() {
    let mut importer = Importer::new();
    importer.register("x", Capability::Json(Json)).unwrap();
    let first = importer.resolve("x").unwrap();
    let second = importer.resolve("x").unwrap();
    assert_eq!(first, second);
}

#[test]
fn default_modules_resolve() {
    let importer = Importer::with_default_modules();
    for name in ["json", "keyring", "octet", "zenroom"] {
        assert!(importer.resolve(name).is_ok(), "{} should resolve", name);
    }
    assert!(importer.resolve("missing").is_err());
}

#[test]
fn json_module_shape() {
    let importer = Importer::with_default_modules();
    let artifact = importer.resolve("json").unwrap();
    let Artifact::Value(ScriptValue::Table(pairs)) = artifact else {
        panic!("json should build a table");
    };
    assert_eq!(pairs.len(), 2);
    assert_eq!(
        pairs[0],
        (
            ScriptValue::Str("encode".to_string()),
            ScriptValue::Function(NativeFn::JsonEncode)
        )
    );
    assert_eq!(
        pairs[1],
        (
            ScriptValue::Str("decode".to_string()),
            ScriptValue::Function(NativeFn::JsonDecode)
        )
    );
}

#[test]
fn zenroom_module_carries_source() {
    let module = Zencode::new("return {}".to_string());
    let artifact = module.build_module();
    assert_eq!(artifact, Artifact::EngineEval("return {}".to_string()));
}
