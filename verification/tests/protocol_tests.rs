//! Tests of the DSL runtime's protocol composition, driven against a
//! recording stand-in for the interpreter module so the exact protocol
//! traffic is observable.

use rlua::Lua;
use zenroom_minimal::runtime::{compose_begin_source, compose_load_source};
use zenroom_minimal::{Error, Handle, HostType, HostValue, Runtime, ZencodeRuntime};

#[test]
fn begin_source_text() {
    assert_eq!(compose_begin_source(1), "ZEN:begin(1)".to_string());
    assert_eq!(compose_begin_source(-3), "ZEN:begin(-3)".to_string());
    assert_eq!(compose_begin_source(10), "ZEN:begin(10)".to_string());
}

#[test]
fn load_source_text() {
    assert_eq!(
        compose_load_source("Given nothing"),
        "\nZEN:reset()\nscript = [[\nGiven nothing\n]]\nZEN:parse(script)\n".to_string()
    );
}

const RECORDER: &str = r#"
calls = {}
ZEN = {}
function ZEN:begin(v) table.insert(calls, 'begin ' .. v) end
function ZEN:reset() table.insert(calls, 'reset') end
function ZEN:parse(s) table.insert(calls, 'parse'); _G['last_script'] = s end
function ZEN:run(d, k) table.insert(calls, 'run'); return _G['run_result'] end
"#;

fn recording_engine() -> Lua {
    let lua = Lua::new();
    lua.context(|ctx| ctx.load(RECORDER).exec()).unwrap();
    lua
}

#[test]
fn with_engine_starts_protocol() {
    let lua = recording_engine();
    let runtime = ZencodeRuntime::with_engine(lua, 1).unwrap();
    let first: String = runtime
        .engine()
        .context(|ctx| ctx.load("return calls[1]").eval())
        .unwrap();
    assert_eq!(first, "begin 1".to_string());
}

#[test]
fn load_resets_before_parsing() {
    let lua = recording_engine();
    let mut runtime = ZencodeRuntime::with_engine(lua, 1).unwrap();
    runtime.load("Given that my name is 'Julian'").unwrap();
    let (second, third, script): (String, String, String) = runtime
        .engine()
        .context(|ctx| ctx.load("return calls[2], calls[3], _G['last_script']").eval())
        .unwrap();
    assert_eq!(second, "reset".to_string());
    assert_eq!(third, "parse".to_string());
    // The engine drops the newline right after an opening long bracket.
    assert_eq!(script, "Given that my name is 'Julian'\n".to_string());
}

#[test]
fn eval_runs_against_bound_globals() {
    let lua = recording_engine();
    let mut runtime = ZencodeRuntime::with_engine(lua, 1).unwrap();
    runtime.load("").unwrap();
    runtime
        .engine()
        .context(|ctx| ctx.load("_G['run_result'] = 'Hello, Julian!'").exec())
        .unwrap();
    assert_eq!(runtime.eval().unwrap(), Some("Hello, Julian!".to_string()));
}

#[test]
fn load_data_binds_bridged_global() {
    let lua = recording_engine();
    let mut runtime = ZencodeRuntime::with_engine(lua, 1).unwrap();
    let data = HostValue::Dict(vec![
        ("a".to_string(), HostValue::Int(1)),
        ("b".to_string(), HostValue::Int(2)),
    ]);
    runtime.load_data(&data).unwrap();
    let (a, b): (i64, i64) = runtime
        .engine()
        .context(|ctx| ctx.load("return _DATA['a'], _DATA['b']").eval())
        .unwrap();
    assert_eq!((a, b), (1, 2));

    let keys = HostValue::Text("secret".to_string());
    runtime.load_keys(&keys).unwrap();
    let k: String = runtime
        .engine()
        .context(|ctx| ctx.load("return _KEYS").eval())
        .unwrap();
    assert_eq!(k, "secret".to_string());
}

#[test]
fn empty_run_result_reads_as_empty_map() {
    let lua = recording_engine();
    let mut runtime = ZencodeRuntime::with_engine(lua, 1).unwrap();
    runtime.load("").unwrap();
    runtime
        .engine()
        .context(|ctx| ctx.load("_G['run_result'] = {}").exec())
        .unwrap();
    let got = runtime.eval_into(&HostType::Dict(Box::new(HostType::Text))).unwrap();
    assert_eq!(got, HostValue::Dict(vec![]));
}

#[test]
fn load_data_refuses_handles() {
    let lua = recording_engine();
    let mut runtime = ZencodeRuntime::with_engine(lua, 1).unwrap();
    let data = HostValue::Handle(Handle { tag: "octet".to_string(), id: 1 });
    assert!(matches!(runtime.load_data(&data), Err(Error::Shape)));
}

#[test]
fn with_engine_fails_without_interpreter() {
    let lua = Lua::new();
    assert!(matches!(
        ZencodeRuntime::with_engine(lua, 1),
        Err(Error::Script(_))
    ));
}
