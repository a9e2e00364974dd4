//! The default runtime: a sandboxed engine instance plus the most
//! recently loaded source. Loading replaces the source without running
//! anything; evaluating hands the current source to the engine.

use vstd::prelude::*;

use crate::bridge::{from_script, from_script_spec};
use crate::errors::{Error, ErrorView};
use crate::runtime::engine::{engine_eval_opt_string, engine_eval_value, engine_new, Facilities};
use crate::runtime::Runtime;
use crate::value::{host_value_view, HostType, HostValue, HostValueView, ScriptValue,
    ScriptValueView};

verus! {

/// A basic sandboxed engine environment. The engine is built from an
/// explicit [`Facilities`] allow-list, so no file-system or
/// operating-system access is reachable from scripts; capabilities are
/// bound into its global scope by the embedder before use.
pub struct DefaultRuntime {
    lua: rlua::Lua,
    source: String,
}

impl DefaultRuntime {
    /// The source the runtime holds: what the next `eval` will run.
    pub closed spec fn spec_source(&self) -> Seq<char> {
        self.source@
    }

    /// Wraps an engine instance; no source is loaded yet.
    pub fn new(lua: rlua::Lua) -> (r: Self)
        ensures
            r.spec_source() == Seq::<char>::empty(),
    {
        DefaultRuntime { lua, source: String::new() }
    }

    /// Builds a fresh sandboxed engine with the given facilities.
    pub fn sandboxed(f: &Facilities) -> (r: Self)
        ensures
            r.spec_source() == Seq::<char>::empty(),
    {
        DefaultRuntime::new(engine_new(f))
    }

    /// The engine instance, for an embedder to bind capabilities into.
    pub fn engine(&self) -> &rlua::Lua {
        &self.lua
    }

    /// Surrenders the engine instance, for an embedder that composes a
    /// different runtime around the same sandbox.
    pub fn into_engine(self) -> rlua::Lua {
        self.lua
    }

    /// Evaluates the loaded source and carries the engine's result over
    /// into the host's value model. What the engine computes is its
    /// own; the value's onward reading is [`from_script`]'s.
    pub fn eval_value(&self) -> (r: Result<ScriptValue, Error>)
        ensures
            r matches Err(e) ==> e matches Error::Script(_),
    {
        engine_eval_value(&self.lua, self.source.as_str())
    }

    /// Evaluates the loaded source and bridges the engine's result into
    /// the requested host shape: whatever value the engine returned, the
    /// reading applied to it is exactly [`from_script_spec`].
    pub fn eval_into(&self, t: &HostType) -> (r: Result<HostValue, Error>)
        ensures
            r matches Ok(h) ==> exists|s: ScriptValueView|
                from_script_spec(s, *t) == Ok::<HostValueView, ErrorView>(host_value_view(&h)),
            r matches Err(e) ==> (e matches Error::Script(_) || exists|s: ScriptValueView|
                from_script_spec(s, *t) == Err::<HostValueView, ErrorView>(e@)),
    {
        let sv = self.eval_value()?;
        let r = from_script(&sv, t);
        proof {
            let s = sv@;
            match &r {
                Ok(h) => assert(from_script_spec(s, *t) == Ok::<HostValueView, ErrorView>(
                    host_value_view(h),
                )),
                Err(e) => assert(from_script_spec(s, *t) == Err::<HostValueView, ErrorView>(e@)),
            }
        }
        r
    }
}

impl Default for DefaultRuntime {
    /// A fresh sandboxed engine with every expressible facility.
    fn default() -> (r: Self)
        ensures
            r.spec_source() == Seq::<char>::empty(),
    {
        DefaultRuntime::sandboxed(&Facilities::default())
    }
}

impl Runtime for DefaultRuntime {
    /// Replaces the loaded source, executing nothing.
    fn load(&mut self, source: &str) -> (r: Result<(), Error>)
        ensures
            final(self).spec_source() == source@,
            r is Ok,
    {
        self.source = source.to_owned();
        Ok(())
    }

    /// Hands the loaded source to the engine; re-evaluating re-runs the
    /// same source. An engine-level failure surfaces as `Script` with
    /// the diagnostic preserved.
    fn eval(&self) -> (r: Result<Option<String>, Error>)
        ensures
            r matches Err(e) ==> e matches Error::Script(_),
    {
        engine_eval_opt_string(&self.lua, self.source.as_str())
    }
}

} // verus!
