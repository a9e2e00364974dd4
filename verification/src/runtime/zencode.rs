//! The composed DSL runtime: a sandboxed engine prepared by the
//! embedder with the interpreter module and the capability registry,
//! driven through the interpreter's fixed protocol — begin, parse, run,
//! reset. The host's part, composing the protocol source verbatim, is
//! specified exactly; what the interpreter then does with it is the
//! engine's.

use vstd::prelude::*;

use crate::bridge::{from_script, from_script_spec, table_sizes_fit, to_script, to_script_view};
use crate::errors::{Error, ErrorView};
use crate::literal::{dec_int, i64_to_string, literalizable, lua_literal};
use crate::runtime::engine::{engine_eval_opt_string, engine_eval_value, engine_exec};
use crate::runtime::Runtime;
use crate::value::{host_value_view, HostType, HostValue, HostValueView, ScriptValue,
    ScriptValueView};

verus! {

/// The source that starts the interpreter protocol at a verbosity.
pub open spec fn begin_source_view(verbosity: int) -> Seq<char> {
    "ZEN:begin("@ + dec_int(verbosity) + ")"@
}

/// The source that binds DSL source into the interpreter: every load
/// discards prior interpreter state by resetting before parsing.
pub open spec fn load_source_view(source: Seq<char>) -> Seq<char> {
    "\nZEN:reset()\nscript = [[\n"@ + source + "\n]]\nZEN:parse(script)\n"@
}

/// The protocol source a load hands the engine.
pub fn compose_load_source(source: &str) -> (r: String)
    ensures
        r@ == load_source_view(source@),
{
    let mut out: String = "\nZEN:reset()\nscript = [[\n".to_owned();
    out.append(source);
    out.append("\n]]\nZEN:parse(script)\n");
    out
}

/// The protocol source that starts the interpreter.
pub fn compose_begin_source(verbosity: i64) -> (r: String)
    ensures
        r@ == begin_source_view(verbosity as int),
{
    let mut out: String = "ZEN:begin(".to_owned();
    let digits = i64_to_string(verbosity);
    out.append(digits.as_str());
    out.append(")");
    out
}

/// An execution environment for parsing DSL source and running it
/// against bound data and keys. The embedder prepares the engine — the
/// interpreter module under its global name, the registry's `import`,
/// the scenario loader — and hands it over; from then on every
/// interaction goes through the fixed protocol.
pub struct ZencodeRuntime {
    lua: rlua::Lua,
}

impl ZencodeRuntime {
    /// Wraps a prepared engine and starts the interpreter protocol at
    /// the given verbosity.
    pub fn with_engine(lua: rlua::Lua, verbosity: i64) -> (r: Result<Self, Error>)
        ensures
            r matches Err(e) ==> e matches Error::Script(_),
    {
        let begin = compose_begin_source(verbosity);
        match engine_exec(&lua, begin.as_str()) {
            Ok(()) => Ok(ZencodeRuntime { lua }),
            Err(e) => Err(e),
        }
    }

    /// The engine instance, for an embedder to bind further
    /// capabilities into.
    pub fn engine(&self) -> &rlua::Lua {
        &self.lua
    }

    /// Binds a host value to a global the interpreter consults, by
    /// bridging it and writing it into the engine as a source literal.
    /// A conversion failure aborts before anything reaches the engine:
    /// over-long sequences fail with `Range`, values holding a handle
    /// or function with `Shape`.
    fn bind_global(&self, target: &str, data: &HostValue) -> (r: Result<(), Error>)
        ensures
            !table_sizes_fit(host_value_view(data)) ==> (r matches Err(e) && e@
                == ErrorView::Range),
            table_sizes_fit(host_value_view(data)) && !literalizable(
                to_script_view(host_value_view(data)),
            ) ==> (r matches Err(e) && e@ == ErrorView::Shape),
            r matches Err(e) ==> (e@ == ErrorView::Range ==> !table_sizes_fit(
                host_value_view(data),
            )),
            r matches Err(e) ==> (e@ == ErrorView::Shape ==> table_sizes_fit(
                host_value_view(data),
            ) && !literalizable(to_script_view(host_value_view(data)))),
            r matches Err(e) ==> (e@ == ErrorView::Range || e@ == ErrorView::Shape || e matches
                Error::Script(_)),
    {
        let bridged = to_script(data)?;
        let lit = lua_literal(&bridged)?;
        let mut src = target.to_owned();
        src.append(" = ");
        src.append(lit.as_str());
        engine_exec(&self.lua, src.as_str())
    }

    /// Binds host data into the well-known data global the interpreter
    /// runs against. A conversion failure aborts before the engine sees
    /// anything.
    pub fn load_data(&mut self, data: &HostValue) -> (r: Result<(), Error>)
        ensures
            !table_sizes_fit(host_value_view(data)) ==> (r matches Err(e) && e@
                == ErrorView::Range),
            table_sizes_fit(host_value_view(data)) && !literalizable(
                to_script_view(host_value_view(data)),
            ) ==> (r matches Err(e) && e@ == ErrorView::Shape),
            r matches Err(e) ==> (e@ == ErrorView::Range ==> !table_sizes_fit(
                host_value_view(data),
            )),
            r matches Err(e) ==> (e@ == ErrorView::Shape ==> table_sizes_fit(
                host_value_view(data),
            ) && !literalizable(to_script_view(host_value_view(data)))),
            r matches Err(e) ==> (e@ == ErrorView::Range || e@ == ErrorView::Shape || e matches
                Error::Script(_)),
    {
        self.bind_global("_DATA", data)
    }

    /// Runs the parsed script against the bound data and keys and
    /// carries the interpreter's result over into the host's value
    /// model. What the interpreter computes is its own; the value's
    /// onward reading is [`from_script`]'s.
    pub fn eval_value(&self) -> (r: Result<ScriptValue, Error>)
        ensures
            r matches Err(e) ==> e matches Error::Script(_),
    {
        engine_eval_value(&self.lua, "ZEN:run(_DATA, _KEYS)")
    }

    /// Runs the parsed script against the bound data and keys and
    /// bridges the interpreter's result into the requested host shape:
    /// whatever value came back, the reading applied to it is exactly
    /// [`from_script_spec`]. A run error propagates as `Script` and
    /// resets nothing.
    pub fn eval_into(&self, t: &HostType) -> (r: Result<HostValue, Error>)
        ensures
            r matches Ok(h) ==> exists|s: ScriptValueView|
                from_script_spec(s, *t) == Ok::<HostValueView, ErrorView>(host_value_view(&h)),
            r matches Err(e) ==> (e matches Error::Script(_) || exists|s: ScriptValueView|
                from_script_spec(s, *t) == Err::<HostValueView, ErrorView>(e@)),
    {
        let sv = self.eval_value()?;
        let r = from_script(&sv, t);
        proof {
            let s = sv@;
            match &r {
                Ok(h) => assert(from_script_spec(s, *t) == Ok::<HostValueView, ErrorView>(
                    host_value_view(h),
                )),
                Err(e) => assert(from_script_spec(s, *t) == Err::<HostValueView, ErrorView>(e@)),
            }
        }
        r
    }

    /// Binds host keys into the well-known keys global the interpreter
    /// runs against. A conversion failure aborts before the engine sees
    /// anything.
    pub fn load_keys(&mut self, keys: &HostValue) -> (r: Result<(), Error>)
        ensures
            !table_sizes_fit(host_value_view(keys)) ==> (r matches Err(e) && e@
                == ErrorView::Range),
            table_sizes_fit(host_value_view(keys)) && !literalizable(
                to_script_view(host_value_view(keys)),
            ) ==> (r matches Err(e) && e@ == ErrorView::Shape),
            r matches Err(e) ==> (e@ == ErrorView::Range ==> !table_sizes_fit(
                host_value_view(keys),
            )),
            r matches Err(e) ==> (e@ == ErrorView::Shape ==> table_sizes_fit(
                host_value_view(keys),
            ) && !literalizable(to_script_view(host_value_view(keys)))),
            r matches Err(e) ==> (e@ == ErrorView::Range || e@ == ErrorView::Shape || e matches
                Error::Script(_)),
    {
        self.bind_global("_KEYS", keys)
    }
}

impl Runtime for ZencodeRuntime {
    /// Resets the interpreter and parses the source, exactly through
    /// the protocol text [`load_source_view`] describes: a parse error
    /// therefore never leaves the interpreter holding the previous
    /// script.
    fn load(&mut self, source: &str) -> (r: Result<(), Error>)
        ensures
            r matches Err(e) ==> e matches Error::Script(_),
    {
        let composed = compose_load_source(source);
        engine_exec(&self.lua, composed.as_str())
    }

    /// Runs the parsed script against the bound data and keys. A run
    /// error propagates with its diagnostic and resets nothing.
    fn eval(&self) -> (r: Result<Option<String>, Error>)
        ensures
            r matches Err(e) ==> e matches Error::Script(_),
    {
        engine_eval_opt_string(&self.lua, "ZEN:run(_DATA, _KEYS)")
    }
}

} // verus!
