//! Tests of scenario resolution: the pure linker contract, the loader
//! running resolved source in the current global scope, and the file
//! linker's path convention.

use rlua::Lua;
use zenroom_minimal::{Error, FileScenarioLinker, MapScenarioLinker, ScenarioLinker, ScenarioLoader};

#[test]
fn dummy_load() {
    let lua = Lua::new();
    let mut linker = MapScenarioLinker::new();
    linker.insert("hello", "_G['loaded_scenario'] = 'hello'");
    let loader = ScenarioLoader::new(linker);
    let scenario = "hello";
    let res: String = {
        lua.context(|ctx| {
            let scenario_fn = ctx.create_function(move |ctx2, name: String| {
                let source = match loader.resolve_scenario(&name) {
                    Ok(source) => source,
                    Err(e) => return Err(rlua::Error::RuntimeError(format!("{:?}", e))),
                };
                ctx2.load(&source).exec()
            })?;
            ctx.globals().set("scenario", scenario_fn)?;
            ctx.load(&format!("scenario('{}')", scenario)).exec()?;
            ctx.load("return _G['loaded_scenario']").eval()
        })
        .unwrap()
    };
    assert_eq!(res, scenario);
}

#[test]
fn loader_runs_in_current_global_scope() {
    let lua = Lua::new();
    let mut linker = MapScenarioLinker::new();
    linker.insert("frag", "_G['seen'] = 'frag'");
    let loader = ScenarioLoader::new(linker);
    loader.load_scenario(&lua, "frag").unwrap();
    let seen: String = lua.context(|ctx| ctx.load("return _G['seen']").eval()).unwrap();
    assert_eq!(seen, "frag".to_string());
}

#[test]
fn unknown_scenario_fails() {
    let lua = Lua::new();
    let loader = ScenarioLoader::new(MapScenarioLinker::new());
    assert!(matches!(loader.load_scenario(&lua, "nope"), Err(Error::NotFound(n)) if n == "nope"));
}

#[test]
fn map_linker_first_entry_wins() {
    let mut linker = MapScenarioLinker::new();
    linker.insert("n", "first");
    linker.insert("n", "second");
    assert_eq!(linker.read_scenario("n").unwrap(), "first".to_string());
}

#[test]
fn file_linker_path_convention() {
    let linker = FileScenarioLinker::new("/tmp");
    assert_eq!(linker.scenario_path("demo"), "/tmp/zencode_demo.lua".to_string());
    let dot = FileScenarioLinker::default();
    assert_eq!(dot.scenario_path("x"), "./zencode_x.lua".to_string());
}
