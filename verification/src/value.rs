//! The two value models the bridge converts between.
//!
//! `ScriptValue` is the host's model of the engine's dynamic values: a
//! closed tagged union with explicit shape, so that shape inspection
//! happens once, at conversion time. `HostValue` is the closed union of
//! host-native values the bridge supports, and `HostType` describes the
//! host shape a script value is to be read back into.
//!
//! Each model has a mathematical mirror (`ScriptValueView`,
//! `HostValueView`) over `Seq` and `int`, which the contracts speak of.

use vstd::prelude::*;

verus! {

broadcast use vstd::seq::axiom_seq_index_decreases, vstd::std_specs::vec::axiom_vec_decreases_to_view;

/// A host-owned opaque value exposed to scripts by reference: scripts see
/// only the fixed method set attached to its tag, never the internals.
/// The `id` names the host-side instance the handle stands for.
#[derive(Clone, Debug, PartialEq)]
pub struct Handle {
    /// The tag naming the handle's method table, fixed at capability
    /// build time.
    pub tag: String,
    /// The host-side instance this handle refers to.
    pub id: u64,
}

/// The mathematical mirror of a [`Handle`].
pub struct HandleView {
    pub tag: Seq<char>,
    pub id: u64,
}

impl View for Handle {
    type V = HandleView;

    open spec fn view(&self) -> HandleView {
        HandleView { tag: self.tag@, id: self.id }
    }
}

/// The native functions a capability can expose to scripts. Building a
/// capability yields script-visible artifacts whose callable leaves are
/// drawn from this closed set; the embedder turns each into an actual
/// engine function.
#[derive(Clone, Copy, Debug, PartialEq, Eq, Structural)]
pub enum NativeFn {
    /// Look a capability up in the registry and build it.
    Import,
    /// Encode an engine value as a JSON string.
    JsonEncode,
    /// Decode a JSON string into an engine value.
    JsonDecode,
    /// Make a new empty byte buffer.
    OctetNew,
    /// Make a byte buffer from a base64 string.
    OctetFromBase64,
    /// Make a byte buffer from a text string.
    OctetFromString,
    /// Make a new blank keyring.
    KeyringNew,
    /// Make a keyring with a freshly generated keypair.
    KeyringGenerate,
    /// Resolve a named scenario and run it in the current global scope.
    LoadScenario,
}

/// The host's model of an engine value: a closed tagged union. Tables
/// are kept as an ordered list of key/value pairs, numbers as signed
/// integers (the engine's fractional numbers are not bridged), functions
/// as references to the closed native set.
#[derive(Debug, PartialEq)]
pub enum ScriptValue {
    Nil,
    Boolean(bool),
    Number(i64),
    Str(String),
    Table(Vec<(ScriptValue, ScriptValue)>),
    Handle(Handle),
    Function(NativeFn),
}

/// The mathematical mirror of a [`ScriptValue`].
pub enum ScriptValueView {
    Nil,
    Boolean(bool),
    Number(int),
    Str(Seq<char>),
    Table(Seq<(ScriptValueView, ScriptValueView)>),
    Handle(HandleView),
    Function(NativeFn),
}

/// The mathematical mirror of a [`ScriptValue`], spelled out as a free
/// function so the recursion through vectors is explicit.
pub open spec fn script_value_view(s: &ScriptValue) -> ScriptValueView
    decreases s,
{
    match s {
        ScriptValue::Nil => ScriptValueView::Nil,
        ScriptValue::Boolean(b) => ScriptValueView::Boolean(*b),
        ScriptValue::Number(n) => ScriptValueView::Number(*n as int),
        ScriptValue::Str(s) => ScriptValueView::Str(s@),
        ScriptValue::Table(ps) => ScriptValueView::Table(script_pair_views(ps@)),
        ScriptValue::Handle(h) => ScriptValueView::Handle(h@),
        ScriptValue::Function(f) => ScriptValueView::Function(*f),
    }
}

/// The mirrors of a table's key/value pairs, in order.
pub open spec fn script_pair_views(ps: Seq<(ScriptValue, ScriptValue)>) -> Seq<
    (ScriptValueView, ScriptValueView),
>
    decreases ps,
{
    if ps.len() == 0 {
        Seq::empty()
    } else {
        script_pair_views(ps.drop_last()).push(
            (script_value_view(&ps.last().0), script_value_view(&ps.last().1)),
        )
    }
}

pub broadcast proof fn lemma_script_pair_views(ps: Seq<(ScriptValue, ScriptValue)>)
    ensures
        (#[trigger] script_pair_views(ps)).len() == ps.len(),
        forall|i: int|
            0 <= i < ps.len() ==> script_pair_views(ps)[i] == (
                script_value_view(&ps[i].0),
                script_value_view(&ps[i].1),
            ),
    decreases ps,
{
    if ps.len() > 0 {
        lemma_script_pair_views(ps.drop_last());
    }
}

impl View for ScriptValue {
    type V = ScriptValueView;

    open spec fn view(&self) -> ScriptValueView {
        script_value_view(self)
    }
}

/// A host-native value the bridge can carry: the unit value, booleans,
/// integers, text, byte buffers, ordered sequences, keyed maps with text
/// keys, optional values and opaque handles.
#[derive(Debug, PartialEq)]
pub enum HostValue {
    Nil,
    Bool(bool),
    Int(i64),
    Text(String),
    Bytes(Vec<u8>),
    List(Vec<HostValue>),
    Dict(Vec<(String, HostValue)>),
    Opt(Option<Box<HostValue>>),
    Handle(Handle),
}

/// The mathematical mirror of a [`HostValue`].
pub enum HostValueView {
    Nil,
    Bool(bool),
    Int(int),
    Text(Seq<char>),
    Bytes(Seq<u8>),
    List(Seq<HostValueView>),
    Dict(Seq<(Seq<char>, HostValueView)>),
    OptNone,
    OptSome(Box<HostValueView>),
    Handle(HandleView),
}

/// The mathematical mirror of a [`HostValue`], spelled out as a free
/// function so the recursion through boxes and vectors is explicit.
pub open spec fn host_value_view(h: &HostValue) -> HostValueView
    decreases h,
{
    match h {
        HostValue::Nil => HostValueView::Nil,
        HostValue::Bool(b) => HostValueView::Bool(*b),
        HostValue::Int(n) => HostValueView::Int(*n as int),
        HostValue::Text(s) => HostValueView::Text(s@),
        HostValue::Bytes(bs) => HostValueView::Bytes(bs@),
        HostValue::List(vs) => HostValueView::List(host_value_views(vs@)),
        HostValue::Dict(ps) => HostValueView::Dict(host_entry_views(ps@)),
        HostValue::Opt(o) => match o {
            Option::None => HostValueView::OptNone,
            Option::Some(v) => HostValueView::OptSome(Box::new(host_value_view(v))),
        },
        HostValue::Handle(h) => HostValueView::Handle(h@),
    }
}

/// The mirrors of a sequence of host values, in order.
pub open spec fn host_value_views(vs: Seq<HostValue>) -> Seq<HostValueView>
    decreases vs,
{
    if vs.len() == 0 {
        Seq::empty()
    } else {
        host_value_views(vs.drop_last()).push(host_value_view(&vs.last()))
    }
}

/// The mirrors of a map's entries, in order.
pub open spec fn host_entry_views(ps: Seq<(String, HostValue)>) -> Seq<(Seq<char>, HostValueView)>
    decreases ps,
{
    if ps.len() == 0 {
        Seq::empty()
    } else {
        host_entry_views(ps.drop_last()).push(
            (ps.last().0@, host_value_view(&ps.last().1)),
        )
    }
}

pub proof fn lemma_host_value_views_push(vs: Seq<HostValue>, v: HostValue)
    ensures
        host_value_views(vs.push(v)) == host_value_views(vs).push(host_value_view(&v)),
{
    assert(vs.push(v).drop_last() =~= vs);
    assert(vs.push(v).last() == v);
}

pub proof fn lemma_host_entry_views_push(ps: Seq<(String, HostValue)>, p: (String, HostValue))
    ensures
        host_entry_views(ps.push(p)) == host_entry_views(ps).push((p.0@, host_value_view(&p.1))),
{
    assert(ps.push(p).drop_last() =~= ps);
    assert(ps.push(p).last() == p);
}

pub broadcast proof fn lemma_host_value_views(vs: Seq<HostValue>)
    ensures
        (#[trigger] host_value_views(vs)).len() == vs.len(),
        forall|i: int| 0 <= i < vs.len() ==> host_value_views(vs)[i] == host_value_view(&vs[i]),
    decreases vs,
{
    if vs.len() > 0 {
        lemma_host_value_views(vs.drop_last());
    }
}

pub broadcast proof fn lemma_host_entry_views(ps: Seq<(String, HostValue)>)
    ensures
        (#[trigger] host_entry_views(ps)).len() == ps.len(),
        forall|i: int|
            0 <= i < ps.len() ==> host_entry_views(ps)[i] == (
                ps[i].0@,
                host_value_view(&ps[i].1),
            ),
    decreases ps,
{
    if ps.len() > 0 {
        lemma_host_entry_views(ps.drop_last());
    }
}

impl View for HostValue {
    type V = HostValueView;

    open spec fn view(&self) -> HostValueView {
        host_value_view(self)
    }
}

/// A host type exposed to scripts as an opaque handle. Its tag names
/// the fixed method table the embedder attaches at capability build
/// time; the bridge matches handles against expected tags.
pub trait StaticUserData {
    /// The tag, over the mirrors.
    spec fn spec_handle_tag(&self) -> Seq<char>;

    /// The tag under which scripts hold values of this type.
    fn handle_tag(&self) -> (r: &'static str)
        ensures
            r@ == self.spec_handle_tag(),
    ;
}

/// The host shape a script value is read back into by the bridge.
#[derive(Debug, PartialEq)]
pub enum HostType {
    /// The unit shape: only nil converts into it.
    Unit,
    Bool,
    Int,
    Text,
    /// A byte buffer read from a 1..N-indexed table of byte-sized numbers.
    Bytes,
    /// An ordered sequence read from a 1..N-indexed table with no gaps.
    List(Box<HostType>),
    /// A keyed map with text keys.
    Dict(Box<HostType>),
    /// An optional value: nil reads as absent.
    Opt(Box<HostType>),
    /// A handle whose tag must match the given one.
    Handle(String),
}

} // verus!
