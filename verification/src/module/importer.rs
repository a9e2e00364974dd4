//! The capability registry: a name-indexed, append-only collection of
//! capabilities, exposed to scripts as one `import(name)` function.
//!
//! Registration rejects duplicate names at setup time. Resolution is
//! rebuildable: every call builds a fresh artifact of the registered
//! capability's described shape, which is what keeps re-import safe
//! after an interpreter reset.

use vstd::prelude::*;

use crate::errors::{Error, ErrorView};
use crate::module::capability::{Json, KeyringClass, OctetClass, Zencode};
use crate::module::{artifact_view, Artifact, ArtifactView, DefaultModule, Module};

verus! {

/// One of the library's capabilities, ready to be registered under a
/// name. The set is closed — capability dispatch is a sum type rather
/// than an open trait object, so the bridge and registry stay fully
/// inspectable; a new capability is added here, next to its builder.
#[derive(Clone, Debug, PartialEq)]
pub enum Capability {
    Json(Json),
    Keyring(KeyringClass),
    Octet(OctetClass),
    Zencode(Zencode),
}

/// The artifact a capability builds, over the mirrors.
pub open spec fn capability_view(c: &Capability) -> ArtifactView {
    match c {
        Capability::Json(m) => m.build_view(),
        Capability::Keyring(m) => m.build_view(),
        Capability::Octet(m) => m.build_view(),
        Capability::Zencode(m) => m.build_view(),
    }
}

impl Capability {
    /// Builds a fresh artifact of this capability's described shape.
    pub fn build(&self) -> (a: Artifact)
        ensures
            artifact_view(&a) == capability_view(self),
    {
        match self {
            Capability::Json(m) => m.build_module(),
            Capability::Keyring(m) => m.build_module(),
            Capability::Octet(m) => m.build_module(),
            Capability::Zencode(m) => m.build_module(),
        }
    }
}

/// The first capability registered under a name, if any.
pub open spec fn find_cap(es: Seq<(String, Capability)>, n: Seq<char>) -> Option<Capability>
    decreases es,
{
    if es.len() == 0 {
        Option::None
    } else if es.first().0@ == n {
        Option::Some(es.first().1)
    } else {
        find_cap(es.drop_first(), n)
    }
}

/// A module which imports other modules which have been registered,
/// available to scripts as `import("name")`.
pub struct Importer {
    entries: Vec<(String, Capability)>,
}

impl Importer {
    /// The registry's entries, in registration order.
    pub closed spec fn spec_entries(&self) -> Seq<(String, Capability)> {
        self.entries@
    }

    /// Whether a capability is registered under the name.
    pub open spec fn has_name(&self, n: Seq<char>) -> bool {
        find_cap(self.spec_entries(), n) is Some
    }

    /// The artifact shape registered under the name.
    pub open spec fn artifact_for(&self, n: Seq<char>) -> ArtifactView {
        capability_view(&find_cap(self.spec_entries(), n)->Some_0)
    }

    /// Registered names never repeat.
    pub open spec fn wf(&self) -> bool {
        forall|i: int, j: int|
            0 <= i < j < self.spec_entries().len() ==> (#[trigger] self.spec_entries()[i]).0@ != (
            #[trigger] self.spec_entries()[j]).0@
    }

    /// An empty registry.
    pub fn new() -> (r: Importer)
        ensures
            r.wf(),
            forall|n: Seq<char>| !r.has_name(n),
    {
        Importer { entries: Vec::new() }
    }

    /// Registers a capability under a fresh name; a name already
    /// registered is rejected with `DuplicateCapability`, leaving the
    /// registry unchanged. On success the name resolves to exactly the
    /// capability's described shape, and every other name resolves as
    /// before.
    pub fn register(&mut self, name: &str, cap: Capability) -> (r: Result<(), Error>)
        ensures
            old(self).wf() ==> final(self).wf(),
            old(self).has_name(name@) ==> (r matches Err(e) && e@ == ErrorView::DuplicateCapability(
                name@,
            ) && *final(self) == *old(self)),
            !old(self).has_name(name@) ==> (r is Ok
                && final(self).has_name(name@)
                && final(self).artifact_for(name@) == capability_view(&cap)
                && (forall|m: Seq<char>|
                    m != name@ ==> final(self).has_name(m) == old(self).has_name(m))
                && (forall|m: Seq<char>|
                    m != name@ && old(self).has_name(m) ==> final(self).artifact_for(m) == old(
                        self,
                    ).artifact_for(m))),
    {
        let ghost es = self.entries@;
        let owned = name.to_owned();
        let n = self.entries.len();
        proof {
            assert(es.skip(0) =~= es);
        }
        for j in 0..n
            invariant
                n == self.entries@.len(),
                es == self.entries@,
                owned@ == name@,
                find_cap(es.skip(j as int), name@) == find_cap(es, name@),
        {
            proof {
                assert(es.skip(j as int).first() == es[j as int]);
                assert(es.skip(j as int).drop_first() =~= es.skip(j + 1));
            }
            if self.entries[j].0 == owned {
                return Err(Error::DuplicateCapability(owned));
            }
        }
        proof {
            assert(es.skip(n as int) =~= Seq::<(String, Capability)>::empty());
            assert(!old(self).has_name(name@));
        }
        self.entries.push((owned, cap));
        proof {
            let pushed = self.entries@.last();
            assert(self.entries@ == es.push(pushed));
            lemma_find_cap_push(es, pushed, name@);
            assert forall|m: Seq<char>| m != name@ implies find_cap(self.entries@, m) == find_cap(
                es,
                m,
            ) by {
                lemma_find_cap_push(es, pushed, m);
            }
            if old(self).wf() {
                lemma_find_cap_none_no_entry(es, name@);
                assert forall|i: int, j: int|
                    0 <= i < j < self.entries@.len() implies (
                #[trigger] self.entries@[i]).0@ != (#[trigger] self.entries@[j]).0@ by {
                    if j < es.len() {
                        assert(self.entries@[i] == es[i]);
                        assert(self.entries@[j] == es[j]);
                    } else {
                        assert(self.entries@[i] == es[i]);
                        assert(self.entries@[j] == pushed);
                    }
                }
            }
        }
        Ok(())
    }

    /// Builds a fresh artifact for the name — exactly the registered
    /// capability's shape — or fails with `NotFound`.
    pub fn resolve(&self, name: &str) -> (r: Result<Artifact, Error>)
        ensures
            self.has_name(name@) ==> (r matches Ok(a) && artifact_view(&a) == self.artifact_for(
                name@,
            )),
            !self.has_name(name@) ==> (r matches Err(e) && e@ == ErrorView::NotFound(name@)),
    {
        let ghost es = self.entries@;
        let owned = name.to_owned();
        let n = self.entries.len();
        proof {
            assert(es.skip(0) =~= es);
        }
        for j in 0..n
            invariant
                n == self.entries@.len(),
                es == self.entries@,
                owned@ == name@,
                find_cap(es.skip(j as int), name@) == find_cap(es, name@),
        {
            proof {
                assert(es.skip(j as int).first() == es[j as int]);
                assert(es.skip(j as int).drop_first() =~= es.skip(j + 1));
            }
            if self.entries[j].0 == owned {
                return Ok(self.entries[j].1.build());
            }
        }
        proof {
            assert(es.skip(n as int) =~= Seq::<(String, Capability)>::empty());
        }
        Err(Error::NotFound(owned))
    }

    /// A registry holding the library's own capabilities under their
    /// conventional names — `json`, `keyring`, `octet` and `zenroom`
    /// (the interpreter, its source still to be supplied) — and nothing
    /// else: no other name resolves.
    pub fn with_default_modules() -> (r: Importer)
        ensures
            r.wf(),
            r.has_name("json"@) && r.artifact_for("json"@) == Json.build_view(),
            r.has_name("keyring"@) && r.artifact_for("keyring"@) == KeyringClass.build_view(),
            r.has_name("octet"@) && r.artifact_for("octet"@) == OctetClass.build_view(),
            r.has_name("zenroom"@) && r.artifact_for("zenroom"@) == ArtifactView::EngineEval(
                Seq::<char>::empty(),
            ),
            forall|m: Seq<char>|
                r.has_name(m) ==> (m == "json"@ || m == "keyring"@ || m == "octet"@ || m
                    == "zenroom"@),
    {
        proof {
            reveal_strlit("json");
            reveal_strlit("keyring");
            reveal_strlit("octet");
            reveal_strlit("zenroom");
            assert("json"@.len() == 4 && "keyring"@.len() == 7 && "octet"@.len() == 5
                && "zenroom"@.len() == 7);
            assert("keyring"@[0] == 'k' && "zenroom"@[0] == 'z');
            assert("json"@ != "keyring"@ && "json"@ != "octet"@ && "json"@ != "zenroom"@);
            assert("keyring"@ != "octet"@ && "keyring"@ != "zenroom"@);
            assert("octet"@ != "zenroom"@);
        }
        let mut importer = Importer::new();
        let _ = importer.register("json", Capability::Json(Json));
        let _ = importer.register("keyring", Capability::Keyring(KeyringClass));
        let _ = importer.register("octet", Capability::Octet(OctetClass));
        let _ = importer.register("zenroom", Capability::Zencode(Zencode::default()));
        importer
    }
}

impl Module for Importer {
    open spec fn build_view(&self) -> ArtifactView {
        ArtifactView::Value(
            crate::value::ScriptValueView::Function(crate::value::NativeFn::Import),
        )
    }

    fn build_module(&self) -> (a: Artifact)
        ensures
            artifact_view(&a) == self.build_view(),
    {
        Artifact::Value(crate::value::ScriptValue::Function(crate::value::NativeFn::Import))
    }
}

impl DefaultModule for Importer {
    open spec fn spec_global_var(&self) -> Seq<char> {
        "import"@
    }

    fn global_var(&self) -> (r: &'static str)
        ensures
            r@ == self.spec_global_var(),
    {
        "import"
    }
}

/// Looking a name up after appending an entry: an earlier entry still
/// wins; otherwise the appended entry answers for its own name.
proof fn lemma_find_cap_push(es: Seq<(String, Capability)>, p: (String, Capability), n: Seq<char>)
    ensures
        find_cap(es.push(p), n) == (match find_cap(es, n) {
            Option::Some(c) => Option::Some(c),
            Option::None => if p.0@ == n {
                Option::Some(p.1)
            } else {
                Option::<Capability>::None
            },
        }),
    decreases es,
{
    if es.len() == 0 {
        assert(es.push(p).first() == p);
        assert(es.push(p).drop_first() =~= Seq::<(String, Capability)>::empty());
        assert(find_cap(Seq::<(String, Capability)>::empty(), n) is None);
        assert(find_cap(es, n) is None);
    } else {
        assert(es.push(p).first() == es.first());
        assert(es.push(p).drop_first() =~= es.drop_first().push(p));
        lemma_find_cap_push(es.drop_first(), p, n);
        assert(find_cap(es.push(p), n) == if es.first().0@ == n {
            Option::Some(es.first().1)
        } else {
            find_cap(es.drop_first().push(p), n)
        });
    }
}

/// A name that no lookup finds is no entry's name.
proof fn lemma_find_cap_none_no_entry(es: Seq<(String, Capability)>, n: Seq<char>)
    requires
        find_cap(es, n) is None,
    ensures
        forall|i: int| 0 <= i < es.len() ==> (#[trigger] es[i]).0@ != n,
    decreases es,
{
    if es.len() > 0 {
        lemma_find_cap_none_no_entry(es.drop_first(), n);
        assert(forall|i: int|
            1 <= i < es.len() ==> (#[trigger] es[i]) == es.drop_first()[i - 1]);
    }
}

} // verus!
