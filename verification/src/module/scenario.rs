//! Scenario resolution: turning a symbolic name into script source, and
//! running that source in the sandbox's current global scope — the way
//! a sandbox bootstraps a domain environment incrementally from named
//! fragments.

use vstd::prelude::*;

use crate::errors::{Error, ErrorView};
use crate::module::{artifact_view, Artifact, ArtifactView, DefaultModule, Module};
use crate::runtime::engine::engine_exec;
use crate::value::{NativeFn, ScriptValue, ScriptValueView};

verus! {

/// A pure mapping from scenario names to script source. `spec_resolve`
/// is the mapping itself; `read_scenario` must return exactly the
/// mapped text, and must fail on an unmapped name.
pub trait ScenarioLinker {
    /// The source text this linker maps each name to, if any.
    spec fn spec_resolve(&self, name: Seq<char>) -> Option<Seq<char>>;

    /// Resolve a name to script source.
    fn read_scenario(&self, name: &str) -> (r: Result<String, Error>)
        ensures
            match self.spec_resolve(name@) {
                Option::Some(src) => r matches Ok(s) && s@ == src,
                Option::None => r is Err,
            },
    ;
}

/// The first source registered under a name, if any.
pub open spec fn find_source(es: Seq<(String, String)>, n: Seq<char>) -> Option<Seq<char>>
    decreases es,
{
    if es.len() == 0 {
        Option::None
    } else if es.first().0@ == n {
        Option::Some(es.first().1@)
    } else {
        find_source(es.drop_first(), n)
    }
}

/// A linker over an explicit name-to-source table, for scenarios the
/// host assembles in memory.
pub struct MapScenarioLinker {
    entries: Vec<(String, String)>,
}

impl MapScenarioLinker {
    /// An empty table.
    pub fn new() -> (r: Self)
        ensures
            forall|n: Seq<char>| r.spec_resolve(n) is None,
    {
        MapScenarioLinker { entries: Vec::new() }
    }

    /// Maps a name to source; an earlier entry for the same name wins,
    /// every other name is untouched.
    pub fn insert(&mut self, name: &str, source: &str)
        ensures
            old(self).spec_resolve(name@) is Some ==> final(self).spec_resolve(name@) == old(
                self,
            ).spec_resolve(name@),
            old(self).spec_resolve(name@) is None ==> final(self).spec_resolve(name@)
                == Option::Some(source@),
            forall|m: Seq<char>|
                m != name@ ==> final(self).spec_resolve(m) == old(self).spec_resolve(m),
    {
        let ghost es = self.entries@;
        self.entries.push((name.to_owned(), source.to_owned()));
        proof {
            let pushed = self.entries@.last();
            assert(self.entries@ == es.push(pushed));
            lemma_find_source_push(es, pushed, name@);
            assert forall|m: Seq<char>| m != name@ implies find_source(self.entries@, m)
                == find_source(es, m) by {
                lemma_find_source_push(es, pushed, m);
            }
        }
    }
}

impl ScenarioLinker for MapScenarioLinker {
    closed spec fn spec_resolve(&self, name: Seq<char>) -> Option<Seq<char>> {
        find_source(self.entries@, name)
    }

    fn read_scenario(&self, name: &str) -> (r: Result<String, Error>)
        ensures
            match self.spec_resolve(name@) {
                Option::Some(src) => r matches Ok(s) && s@ == src,
                Option::None => r is Err,
            },
    {
        let ghost es = self.entries@;
        let owned = name.to_owned();
        let n = self.entries.len();
        proof {
            assert(es.skip(0) =~= es);
        }
        for j in 0..n
            invariant
                n == self.entries@.len(),
                es == self.entries@,
                owned@ == name@,
                find_source(es.skip(j as int), name@) == find_source(es, name@),
        {
            proof {
                assert(es.skip(j as int).first() == es[j as int]);
                assert(es.skip(j as int).drop_first() =~= es.skip(j + 1));
            }
            if self.entries[j].0 == owned {
                return Ok(self.entries[j].1.clone());
            }
        }
        proof {
            assert(es.skip(n as int) =~= Seq::<(String, String)>::empty());
        }
        Err(Error::NotFound(owned))
    }
}

/// Looking a name up after appending an entry: an earlier entry still
/// wins; otherwise the appended entry answers for its own name.
proof fn lemma_find_source_push(es: Seq<(String, String)>, p: (String, String), n: Seq<char>)
    ensures
        find_source(es.push(p), n) == (match find_source(es, n) {
            Option::Some(src) => Option::Some(src),
            Option::None => if p.0@ == n {
                Option::Some(p.1@)
            } else {
                Option::<Seq<char>>::None
            },
        }),
    decreases es,
{
    if es.len() == 0 {
        assert(es.push(p).first() == p);
        assert(es.push(p).drop_first() =~= Seq::<(String, String)>::empty());
        assert(find_source(Seq::<(String, String)>::empty(), n) is None);
        assert(find_source(es, n) is None);
    } else {
        assert(es.push(p).first() == es.first());
        assert(es.push(p).drop_first() =~= es.drop_first().push(p));
        lemma_find_source_push(es.drop_first(), p, n);
        assert(find_source(es.push(p), n) == if es.first().0@ == n {
            Option::Some(es.first().1@)
        } else {
            find_source(es.drop_first().push(p), n)
        });
    }
}

/// The file-based linker convention: a base directory, and for a name
/// `N` the file `<dir>/zencode_<N>.lua`. The path computation lives
/// here; the reading itself is file access and belongs to the embedder.
pub struct FileScenarioLinker {
    dir: String,
}

impl FileScenarioLinker {
    /// The base directory.
    pub closed spec fn spec_dir(&self) -> Seq<char> {
        self.dir@
    }

    /// A linker resolving names under the given directory.
    pub fn new(path: &str) -> (r: Self)
        ensures
            r.spec_dir() == path@,
    {
        FileScenarioLinker { dir: path.to_owned() }
    }

    /// The file path a scenario name resolves to.
    pub fn scenario_path(&self, name: &str) -> (r: String)
        ensures
            r@ == self.spec_dir() + "/zencode_"@ + name@ + ".lua"@,
    {
        let mut out = self.dir.clone();
        out.append("/zencode_");
        out.append(name);
        out.append(".lua");
        out
    }
}

impl Default for FileScenarioLinker {
    /// Resolves names under the current directory.
    fn default() -> (r: Self)
        ensures
            r.spec_dir() == "."@,
    {
        FileScenarioLinker { dir: ".".to_owned() }
    }
}

/// Wraps a linker into the `load_scenario` capability: resolving a name
/// and running the resolved source in the caller's current global scope
/// — not a fresh one — so the fragment can install globals the rest of
/// the script sees.
pub struct ScenarioLoader<L: ScenarioLinker> {
    linker: L,
}

impl<L: ScenarioLinker> ScenarioLoader<L> {
    /// The linker consulted for every load.
    pub closed spec fn spec_linker(&self) -> L {
        self.linker
    }

    /// Wraps the linker.
    pub fn new(ld: L) -> (r: Self)
        ensures
            r.spec_linker() == ld,
    {
        ScenarioLoader { linker: ld }
    }

    /// Resolves a name to its source text through the linker.
    pub fn resolve_scenario(&self, name: &str) -> (r: Result<String, Error>)
        ensures
            match self.spec_linker().spec_resolve(name@) {
                Option::Some(src) => r matches Ok(s) && s@ == src,
                Option::None => r is Err,
            },
    {
        self.linker.read_scenario(name)
    }

    /// Resolves a name and runs the resolved source in the engine's
    /// current global scope. An unmapped name fails without touching
    /// the engine; a mapped name runs, and can then fail only with the
    /// engine's own diagnostic, preserved verbatim.
    pub fn load_scenario(&self, lua: &rlua::Lua, name: &str) -> (r: Result<(), Error>)
        ensures
            self.spec_linker().spec_resolve(name@) is None ==> r is Err,
            self.spec_linker().spec_resolve(name@) is Some ==> (r is Ok || (r matches Err(e)
                && e matches Error::Script(_))),
    {
        let source = self.resolve_scenario(name)?;
        engine_exec(lua, source.as_str())
    }
}

impl<L: ScenarioLinker> Module for ScenarioLoader<L> {
    open spec fn build_view(&self) -> ArtifactView {
        ArtifactView::Value(ScriptValueView::Function(NativeFn::LoadScenario))
    }

    fn build_module(&self) -> (a: Artifact)
        ensures
            artifact_view(&a) == self.build_view(),
    {
        Artifact::Value(ScriptValue::Function(NativeFn::LoadScenario))
    }
}

impl<L: ScenarioLinker> DefaultModule for ScenarioLoader<L> {
    open spec fn spec_global_var(&self) -> Seq<char> {
        "load_scenario"@
    }

    fn global_var(&self) -> (r: &'static str)
        ensures
            r@ == self.spec_global_var(),
    {
        "load_scenario"
    }
}

} // verus!
