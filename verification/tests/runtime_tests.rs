//! Tests of the runtimes against a real engine: the sandbox allow-list,
//! the import glue, and data written into the engine as source
//! literals.

use rlua::{Context, Lua};
use zenroom_minimal::bridge::to_script;
use zenroom_minimal::literal::lua_literal;
use rlua::ToLua;
use zenroom_minimal::{
    Artifact, DefaultRuntime, Handle, HostType, HostValue, Importer, NativeFn, Runtime,
    ScriptValue,
};

#[test]
fn empty() {
    let mut runtime = DefaultRuntime::default();
    runtime.load("").unwrap();
    let res = runtime.eval();
    match res {
        Ok(None) => (),
        _ => panic!("empty script should return none"),
    }
}

#[test]
fn require_fails() {
    let mut runtime = DefaultRuntime::default();
    runtime.load("return require").unwrap();
    let res = runtime.eval();
    match res {
        Ok(None) => (),
        _ => panic!("require should be none"),
    }
}

#[test]
fn os_facilities_unreachable() {
    let mut runtime = DefaultRuntime::default();
    for probe in [
        "return os",
        "return io",
        "return require",
        "return debug",
        "return dofile",
        "return loadfile",
    ] {
        runtime.load(probe).unwrap();
        match runtime.eval() {
            Ok(None) => (),
            other => panic!("{} should be none, got {:?}", probe, other),
        }
    }
}

/// Turns a built artifact's callable leaves into engine functions; only
/// the JSON pair is wired here, the way an embedder would.
fn materialize<'lua>(ctx: Context<'lua>, artifact: &Artifact) -> rlua::Result<rlua::Value<'lua>> {
    match artifact {
        Artifact::Value(v) => script_to_lua(ctx, v),
        Artifact::EngineEval(src) => ctx.load(src).eval(),
    }
}

fn script_to_lua<'lua>(ctx: Context<'lua>, v: &ScriptValue) -> rlua::Result<rlua::Value<'lua>> {
    match v {
        ScriptValue::Nil => Ok(rlua::Value::Nil),
        ScriptValue::Boolean(b) => (*b).to_lua(ctx),
        ScriptValue::Number(n) => (*n).to_lua(ctx),
        ScriptValue::Str(s) => s.as_str().to_lua(ctx),
        ScriptValue::Table(pairs) => {
            let table = ctx.create_table()?;
            for (k, val) in pairs {
                table.set(script_to_lua(ctx, k)?, script_to_lua(ctx, val)?)?;
            }
            Ok(rlua::Value::Table(table))
        }
        ScriptValue::Function(f) => Ok(rlua::Value::Function(native_fn(ctx, *f)?)),
        ScriptValue::Handle(_) => Err(rlua::Error::RuntimeError("handle".to_string())),
    }
}

fn native_fn<'lua>(ctx: Context<'lua>, f: NativeFn) -> rlua::Result<rlua::Function<'lua>> {
    match f {
        NativeFn::JsonEncode => ctx.create_function(|_, v: rlua::Value| {
            let json: serde_json::Value = rlua_serde::from_value(v)?;
            serde_json::to_string(&json).map_err(|e| rlua::Error::RuntimeError(e.to_string()))
        }),
        NativeFn::JsonDecode => ctx.create_function(|ctx2, s: String| {
            let json: serde_json::Value = serde_json::from_str(&s)
                .map_err(|e| rlua::Error::RuntimeError(e.to_string()))?;
            rlua_serde::to_value(ctx2, json)
        }),
        _ => ctx.create_function(|_, ()| {
            Err::<rlua::Value, _>(rlua::Error::RuntimeError("not wired".to_string()))
        }),
    }
}

#[test]
fn import() {
    let lua = Lua::new();
    lua.context(|ctx| {
        let importer = Importer::with_default_modules();
        let import = ctx.create_function(move |ctx2, name: String| {
            let artifact = importer
                .resolve(&name)
                .map_err(|e| rlua::Error::RuntimeError(format!("{:?}", e)))?;
            materialize(ctx2, &artifact)
        })?;
        ctx.globals().set("import", import)
    })
    .unwrap();
    let mut runtime = DefaultRuntime::new(lua);
    runtime
        .load(
            r#"
JSON = import('json')
return JSON.encode({a = 1})
        "#,
        )
        .unwrap();
    let res = runtime.eval().unwrap();
    assert_eq!(res, Some("{\"a\":1}".to_string()));
}

#[test]
fn json_decode_encode_round_trips_in_engine() {
    let lua = Lua::new();
    lua.context(|ctx| {
        let importer = Importer::with_default_modules();
        let import = ctx.create_function(move |ctx2, name: String| {
            let artifact = importer
                .resolve(&name)
                .map_err(|e| rlua::Error::RuntimeError(format!("{:?}", e)))?;
            materialize(ctx2, &artifact)
        })?;
        ctx.globals().set("import", import)
    })
    .unwrap();
    let mut runtime = DefaultRuntime::new(lua);
    // The codec glue reads every engine table as a map, so arrays do
    // not survive the trip; maps, scalars and nesting do.
    for value in [
        "{}",
        "{\"a\":1}",
        "{\"a\":{\"b\":2}}",
        "\"text\"",
        "7",
        "true",
    ] {
        let script = format!(
            "JSON = import('json')\nreturn JSON.encode(JSON.decode('{}'))",
            value.replace('"', "\\\"")
        );
        runtime.load(&script).unwrap();
        let res = runtime.eval().unwrap();
        assert_eq!(res, Some(value.to_string()), "round trip of {}", value);
    }
}

#[test]
fn literal_binds_value_into_engine() {
    let v = HostValue::Dict(vec![
        ("a".to_string(), HostValue::Int(1)),
        ("t".to_string(), HostValue::Text("hé\nllo".to_string())),
        ("xs".to_string(), HostValue::List(vec![HostValue::Int(5), HostValue::Int(6)])),
    ]);
    let bridged = to_script(&v).unwrap();
    let lit = lua_literal(&bridged).unwrap();
    let lua = Lua::new();
    lua.context(|ctx| -> rlua::Result<()> {
        ctx.load(&format!("x = {}", lit)).exec()?;
        let a: i64 = ctx.load("return x['a']").eval()?;
        assert_eq!(a, 1);
        let t: String = ctx.load("return x['t']").eval()?;
        assert_eq!(t, "hé\nllo".to_string());
        let x1: i64 = ctx.load("return x['xs'][1]").eval()?;
        let x2: i64 = ctx.load("return x['xs'][2]").eval()?;
        assert_eq!((x1, x2), (5, 6));
        Ok(())
    })
    .unwrap();
}

#[test]
fn literal_refuses_handles() {
    let v = ScriptValue::Handle(Handle { tag: "octet".to_string(), id: 1 });
    assert!(lua_literal(&v).is_err());
}

#[test]
fn eval_into_bridges_typed_results() {
    let mut runtime = DefaultRuntime::default();
    runtime.load("return {1, 2, 3}").unwrap();
    let got = runtime.eval_into(&HostType::List(Box::new(HostType::Int))).unwrap();
    assert_eq!(
        got,
        HostValue::List(vec![HostValue::Int(1), HostValue::Int(2), HostValue::Int(3)])
    );

    runtime.load("return {a = 'x'}").unwrap();
    let got = runtime.eval_into(&HostType::Dict(Box::new(HostType::Text))).unwrap();
    assert_eq!(
        got,
        HostValue::Dict(vec![("a".to_string(), HostValue::Text("x".to_string()))])
    );

    runtime.load("return nil").unwrap();
    let got = runtime.eval_into(&HostType::Opt(Box::new(HostType::Int))).unwrap();
    assert_eq!(got, HostValue::Opt(None));
}

#[test]
fn eval_into_reports_shape_of_bad_results() {
    let mut runtime = DefaultRuntime::default();
    runtime.load("return {1, 2, 3}").unwrap();
    let got = runtime.eval_into(&HostType::Bool);
    assert!(matches!(
        got,
        Err(zenroom_minimal::Error::TypeMismatch { .. })
    ));
}

#[test]
fn load_replaces_source() {
    let mut runtime = DefaultRuntime::default();
    runtime.load("return 'first'").unwrap();
    runtime.load("return 'second'").unwrap();
    assert_eq!(runtime.eval().unwrap(), Some("second".to_string()));
    assert_eq!(runtime.eval().unwrap(), Some("second".to_string()));
}

#[test]
fn script_error_is_preserved() {
    let mut runtime = DefaultRuntime::default();
    runtime.load("this is not lua").unwrap();
    assert!(matches!(runtime.eval(), Err(zenroom_minimal::Error::Script(_))));
}
