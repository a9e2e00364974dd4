//! The bidirectional value bridge: recursive conversion between
//! host-native values and the host's model of engine values.
//!
//! `to_script` turns a [`HostValue`] into the engine shape: scalars map
//! one to one, sequences become 1..N-indexed tables, maps become tables
//! keyed by strings, absent options become nil. `from_script` reads an
//! engine value back into a requested [`HostType`], failing with
//! `TypeMismatch`, `Range` or `Shape` and never building a partial
//! container: any entry failure aborts the whole conversion.
//!
//! Both directions are specified by the pure functions
//! [`to_script_view`] and [`from_script_spec`] over the mathematical
//! mirrors, and the round trip between them is proved below.

use vstd::prelude::*;

use crate::errors::{Error, ErrorView, ValueKind, ValueKindView};
use crate::value::{
    host_entry_views, host_value_view, host_value_views, script_pair_views, script_value_view,
    Handle, HostType, HostValue, HostValueView, ScriptValue, ScriptValueView,
};

verus! {

broadcast use vstd::seq::axiom_seq_index_decreases, vstd::std_specs::vec::axiom_vec_decreases_to_view, vstd::std_specs::vec::axiom_vec_index_decreases, crate::value::lemma_script_pair_views, crate::value::lemma_host_value_views, crate::value::lemma_host_entry_views;

/// The surface kind of an engine value, as reported in mismatch errors.
pub open spec fn kind_of(s: ScriptValueView) -> ValueKindView {
    match s {
        ScriptValueView::Nil => ValueKindView::Nil,
        ScriptValueView::Boolean(_) => ValueKindView::Boolean,
        ScriptValueView::Number(_) => ValueKindView::Number,
        ScriptValueView::Str(_) => ValueKindView::Str,
        ScriptValueView::Table(_) => ValueKindView::Table,
        ScriptValueView::Handle(h) => ValueKindView::Handle(h.tag),
        ScriptValueView::Function(_) => ValueKindView::Function,
    }
}

/// The kind a host shape expects to read, as reported in mismatch errors.
pub open spec fn expected_kind(t: HostType) -> ValueKindView
    decreases t,
{
    match t {
        HostType::Unit => ValueKindView::Nil,
        HostType::Bool => ValueKindView::Boolean,
        HostType::Int => ValueKindView::Number,
        HostType::Text => ValueKindView::Str,
        HostType::Bytes => ValueKindView::Table,
        HostType::List(_) => ValueKindView::Table,
        HostType::Dict(_) => ValueKindView::Table,
        HostType::Opt(t2) => expected_kind(*t2),
        HostType::Handle(tag) => ValueKindView::Handle(tag@),
    }
}

/// What reading an engine value back into a host shape yields: the
/// converted value, or the exact conversion failure.
pub open spec fn from_script_spec(s: ScriptValueView, t: HostType) -> Result<
    HostValueView,
    ErrorView,
>
    decreases s, t, 0int,
{
    match t {
        HostType::Opt(t2) => {
            if s is Nil {
                Ok(HostValueView::OptNone)
            } else {
                match from_script_spec(s, *t2) {
                    Ok(h) => Ok(HostValueView::OptSome(Box::new(h))),
                    Err(e) => Err(e),
                }
            }
        },
        HostType::Unit => {
            if s is Nil {
                Ok(HostValueView::Nil)
            } else {
                Err(mismatch(s, t))
            }
        },
        HostType::Bool => match s {
            ScriptValueView::Boolean(b) => Ok(HostValueView::Bool(b)),
            _ => Err(mismatch(s, t)),
        },
        HostType::Int => match s {
            ScriptValueView::Number(n) => Ok(HostValueView::Int(n)),
            _ => Err(mismatch(s, t)),
        },
        HostType::Text => match s {
            ScriptValueView::Str(cs) => Ok(HostValueView::Text(cs)),
            _ => Err(mismatch(s, t)),
        },
        HostType::Bytes => match s {
            ScriptValueView::Table(ps) => match from_bytes_spec(ps, 0) {
                Ok(bs) => Ok(HostValueView::Bytes(bs)),
                Err(e) => Err(e),
            },
            _ => Err(mismatch(s, t)),
        },
        HostType::List(t2) => match s {
            ScriptValueView::Table(ps) => match from_list_spec(ps, *t2, 0) {
                Ok(vs) => Ok(HostValueView::List(vs)),
                Err(e) => Err(e),
            },
            _ => Err(mismatch(s, t)),
        },
        HostType::Dict(t2) => match s {
            ScriptValueView::Table(ps) => match from_dict_spec(ps, *t2, 0) {
                Ok(es) => Ok(HostValueView::Dict(es)),
                Err(e) => Err(e),
            },
            _ => Err(mismatch(s, t)),
        },
        HostType::Handle(tag) => match s {
            ScriptValueView::Handle(h) => {
                if h.tag == tag@ {
                    Ok(HostValueView::Handle(h))
                } else {
                    Err(
                        ErrorView::TypeMismatch {
                            expected: ValueKindView::Handle(tag@),
                            found: ValueKindView::Handle(h.tag),
                        },
                    )
                }
            },
            _ => Err(mismatch(s, t)),
        },
    }
}

/// The mismatch failure reading `s` into shape `t`.
pub open spec fn mismatch(s: ScriptValueView, t: HostType) -> ErrorView {
    ErrorView::TypeMismatch { expected: expected_kind(t), found: kind_of(s) }
}

/// Reading a table's pairs from position `j` on as the tail of a byte
/// buffer: pair `j` must be keyed by the number `j + 1`, and its value
/// must be a byte-sized number.
pub open spec fn from_bytes_spec(ps: Seq<(ScriptValueView, ScriptValueView)>, j: int) -> Result<
    Seq<u8>,
    ErrorView,
>
    decreases ps.len() - j,
{
    if j < 0 || j >= ps.len() {
        Ok(Seq::empty())
    } else if !(ps[j].0 matches ScriptValueView::Number(k) && k == j + 1) {
        Err(ErrorView::Shape)
    } else {
        match ps[j].1 {
            ScriptValueView::Number(x) => {
                if 0 <= x <= 255 {
                    match from_bytes_spec(ps, j + 1) {
                        Ok(rest) => Ok(seq![x as u8] + rest),
                        Err(e) => Err(e),
                    }
                } else {
                    Err(ErrorView::Range)
                }
            },
            v => Err(
                ErrorView::TypeMismatch { expected: ValueKindView::Number, found: kind_of(v) },
            ),
        }
    }
}

/// Reading a table's pairs from position `j` on as the tail of a
/// sequence of shape `t`: pair `j` must be keyed by the number `j + 1`,
/// so a table with index gaps fails with `Shape` rather than being
/// silently truncated.
pub open spec fn from_list_spec(
    ps: Seq<(ScriptValueView, ScriptValueView)>,
    t: HostType,
    j: int,
) -> Result<Seq<HostValueView>, ErrorView>
    decreases ps, t, ps.len() - j,
{
    if j < 0 || j >= ps.len() {
        Ok(Seq::empty())
    } else if !(ps[j].0 matches ScriptValueView::Number(k) && k == j + 1) {
        Err(ErrorView::Shape)
    } else {
        match from_script_spec(ps[j].1, t) {
            Err(e) => Err(e),
            Ok(h) => match from_list_spec(ps, t, j + 1) {
                Err(e) => Err(e),
                Ok(rest) => Ok(seq![h] + rest),
            },
        }
    }
}

/// Reading a table's pairs from position `j` on as the tail of a keyed
/// map with values of shape `t`: every key must be a string.
pub open spec fn from_dict_spec(
    ps: Seq<(ScriptValueView, ScriptValueView)>,
    t: HostType,
    j: int,
) -> Result<Seq<(Seq<char>, HostValueView)>, ErrorView>
    decreases ps, t, ps.len() - j,
{
    if j < 0 || j >= ps.len() {
        Ok(Seq::empty())
    } else {
        match ps[j].0 {
            ScriptValueView::Str(k) => match from_script_spec(ps[j].1, t) {
                Err(e) => Err(e),
                Ok(h) => match from_dict_spec(ps, t, j + 1) {
                    Err(e) => Err(e),
                    Ok(rest) => Ok(seq![(k, h)] + rest),
                },
            },
            other => Err(
                ErrorView::TypeMismatch { expected: ValueKindView::Str, found: kind_of(other) },
            ),
        }
    }
}

/// What bridging a host value into the engine yields, over the mirrors.
pub open spec fn to_script_view(h: HostValueView) -> ScriptValueView
    decreases h,
{
    match h {
        HostValueView::Nil => ScriptValueView::Nil,
        HostValueView::Bool(b) => ScriptValueView::Boolean(b),
        HostValueView::Int(n) => ScriptValueView::Number(n),
        HostValueView::Text(cs) => ScriptValueView::Str(cs),
        HostValueView::Bytes(bs) => ScriptValueView::Table(byte_table_pairs(bs)),
        HostValueView::List(vs) => ScriptValueView::Table(
            seq_table_pairs(to_script_views(vs)),
        ),
        HostValueView::Dict(ps) => ScriptValueView::Table(to_script_entries(ps)),
        HostValueView::OptNone => ScriptValueView::Nil,
        HostValueView::OptSome(b) => to_script_view(*b),
        HostValueView::Handle(hd) => ScriptValueView::Handle(hd),
    }
}

/// The bridged elements of a sequence, in order.
pub open spec fn to_script_views(vs: Seq<HostValueView>) -> Seq<ScriptValueView>
    decreases vs,
{
    if vs.len() == 0 {
        Seq::empty()
    } else {
        to_script_views(vs.drop_last()).push(to_script_view(vs.last()))
    }
}

/// The bridged entries of a keyed map, in order.
pub open spec fn to_script_entries(ps: Seq<(Seq<char>, HostValueView)>) -> Seq<
    (ScriptValueView, ScriptValueView),
>
    decreases ps,
{
    if ps.len() == 0 {
        Seq::empty()
    } else {
        to_script_entries(ps.drop_last()).push(
            (ScriptValueView::Str(ps.last().0), to_script_view(ps.last().1)),
        )
    }
}

/// A sequence's elements laid out as table pairs keyed 1..N.
pub open spec fn seq_table_pairs(svs: Seq<ScriptValueView>) -> Seq<
    (ScriptValueView, ScriptValueView),
> {
    Seq::new(svs.len(), |i: int| (ScriptValueView::Number(i + 1), svs[i]))
}

/// A byte buffer's bytes laid out as table pairs keyed 1..N.
pub open spec fn byte_table_pairs(bs: Seq<u8>) -> Seq<(ScriptValueView, ScriptValueView)> {
    Seq::new(
        bs.len(),
        |i: int| (ScriptValueView::Number(i + 1), ScriptValueView::Number(bs[i] as int)),
    )
}

/// Sequences and byte buffers become tables keyed by engine numbers, so
/// their lengths must fit the engine's signed width; this holds of every
/// value a real machine can build, and the bridge checks it.
pub open spec fn table_sizes_fit(h: HostValueView) -> bool
    decreases h,
{
    match h {
        HostValueView::Bytes(bs) => bs.len() <= i64::MAX,
        HostValueView::List(vs) => vs.len() <= i64::MAX && sizes_fit_all(vs),
        HostValueView::Dict(ps) => sizes_fit_entries(ps),
        HostValueView::OptSome(b) => table_sizes_fit(*b),
        _ => true,
    }
}

/// [`table_sizes_fit`], over every element of a sequence.
pub open spec fn sizes_fit_all(vs: Seq<HostValueView>) -> bool
    decreases vs,
{
    if vs.len() == 0 {
        true
    } else {
        sizes_fit_all(vs.drop_last()) && table_sizes_fit(vs.last())
    }
}

/// [`table_sizes_fit`], over every value of a keyed map.
pub open spec fn sizes_fit_entries(ps: Seq<(Seq<char>, HostValueView)>) -> bool
    decreases ps,
{
    if ps.len() == 0 {
        true
    } else {
        sizes_fit_entries(ps.drop_last()) && table_sizes_fit(ps.last().1)
    }
}

pub broadcast proof fn lemma_to_script_views(vs: Seq<HostValueView>)
    ensures
        (#[trigger] to_script_views(vs)).len() == vs.len(),
        forall|i: int| 0 <= i < vs.len() ==> to_script_views(vs)[i] == to_script_view(vs[i]),
    decreases vs,
{
    if vs.len() > 0 {
        lemma_to_script_views(vs.drop_last());
    }
}

pub broadcast proof fn lemma_to_script_entries(ps: Seq<(Seq<char>, HostValueView)>)
    ensures
        (#[trigger] to_script_entries(ps)).len() == ps.len(),
        forall|i: int|
            0 <= i < ps.len() ==> to_script_entries(ps)[i] == (
                ScriptValueView::Str(ps[i].0),
                to_script_view(ps[i].1),
            ),
    decreases ps,
{
    if ps.len() > 0 {
        lemma_to_script_entries(ps.drop_last());
    }
}

pub broadcast proof fn lemma_sizes_fit_all(vs: Seq<HostValueView>)
    ensures
        #[trigger] sizes_fit_all(vs) <==> forall|i: int|
            0 <= i < vs.len() ==> table_sizes_fit(#[trigger] vs[i]),
    decreases vs,
{
    if vs.len() > 0 {
        lemma_sizes_fit_all(vs.drop_last());
        assert(forall|i: int| 0 <= i < vs.len() - 1 ==> vs.drop_last()[i] == vs[i]);
    }
}

pub broadcast proof fn lemma_sizes_fit_entries(ps: Seq<(Seq<char>, HostValueView)>)
    ensures
        #[trigger] sizes_fit_entries(ps) <==> forall|i: int|
            0 <= i < ps.len() ==> table_sizes_fit((#[trigger] ps[i]).1),
    decreases ps,
{
    if ps.len() > 0 {
        lemma_sizes_fit_entries(ps.drop_last());
        assert(forall|i: int| 0 <= i < ps.len() - 1 ==> ps.drop_last()[i] == ps[i]);
    }
}

/// Whether a host value has the given host shape, so that reading its
/// bridged form back into that shape is meaningful.
pub open spec fn has_type(h: HostValueView, t: HostType) -> bool
    decreases h, t, 0int,
{
    match t {
        HostType::Unit => h is Nil,
        HostType::Bool => h is Bool,
        HostType::Int => h is Int,
        HostType::Text => h is Text,
        HostType::Bytes => h is Bytes,
        HostType::List(t2) => h matches HostValueView::List(vs) && all_have_type(vs, *t2),
        HostType::Dict(t2) => h matches HostValueView::Dict(ps) && entries_have_type(ps, *t2),
        HostType::Opt(t2) => match h {
            HostValueView::OptNone => true,
            HostValueView::OptSome(b) => has_type(*b, *t2),
            _ => false,
        },
        HostType::Handle(tag) => h matches HostValueView::Handle(hd) && hd.tag == tag@,
    }
}

/// [`has_type`], over every element of a sequence.
pub open spec fn all_have_type(vs: Seq<HostValueView>, t: HostType) -> bool
    decreases vs, t, 0int,
{
    if vs.len() == 0 {
        true
    } else {
        all_have_type(vs.drop_last(), t) && has_type(vs.last(), t)
    }
}

/// [`has_type`], over every value of a keyed map.
pub open spec fn entries_have_type(ps: Seq<(Seq<char>, HostValueView)>, t: HostType) -> bool
    decreases ps, t, 0int,
{
    if ps.len() == 0 {
        true
    } else {
        entries_have_type(ps.drop_last(), t) && has_type(ps.last().1, t)
    }
}

pub broadcast proof fn lemma_all_have_type(vs: Seq<HostValueView>, t: HostType)
    ensures
        #[trigger] all_have_type(vs, t) <==> forall|i: int|
            0 <= i < vs.len() ==> has_type(#[trigger] vs[i], t),
    decreases vs,
{
    if vs.len() > 0 {
        lemma_all_have_type(vs.drop_last(), t);
        assert(forall|i: int| 0 <= i < vs.len() - 1 ==> vs.drop_last()[i] == vs[i]);
    }
}

pub broadcast proof fn lemma_entries_have_type(ps: Seq<(Seq<char>, HostValueView)>, t: HostType)
    ensures
        #[trigger] entries_have_type(ps, t) <==> forall|i: int|
            0 <= i < ps.len() ==> has_type((#[trigger] ps[i]).1, t),
    decreases ps,
{
    if ps.len() > 0 {
        lemma_entries_have_type(ps.drop_last(), t);
        assert(forall|i: int| 0 <= i < ps.len() - 1 ==> ps.drop_last()[i] == ps[i]);
    }
}

/// A present optional value bridges to the same engine value as its
/// payload, and nil reads back as absent. So a payload that itself
/// bridges to nil cannot survive a round trip; this predicate rules such
/// payloads out, everywhere in the value.
pub open spec fn opt_payloads_visible(h: HostValueView) -> bool
    decreases h,
{
    match h {
        HostValueView::List(vs) => all_opt_payloads_visible(vs),
        HostValueView::Dict(ps) => entries_opt_payloads_visible(ps),
        HostValueView::OptSome(b) => to_script_view(*b) != ScriptValueView::Nil
            && opt_payloads_visible(*b),
        _ => true,
    }
}

/// [`opt_payloads_visible`], over every element of a sequence.
pub open spec fn all_opt_payloads_visible(vs: Seq<HostValueView>) -> bool
    decreases vs,
{
    if vs.len() == 0 {
        true
    } else {
        all_opt_payloads_visible(vs.drop_last()) && opt_payloads_visible(vs.last())
    }
}

/// [`opt_payloads_visible`], over every value of a keyed map.
pub open spec fn entries_opt_payloads_visible(ps: Seq<(Seq<char>, HostValueView)>) -> bool
    decreases ps,
{
    if ps.len() == 0 {
        true
    } else {
        entries_opt_payloads_visible(ps.drop_last()) && opt_payloads_visible(ps.last().1)
    }
}

pub broadcast proof fn lemma_all_opt_payloads_visible(vs: Seq<HostValueView>)
    ensures
        #[trigger] all_opt_payloads_visible(vs) <==> forall|i: int|
            0 <= i < vs.len() ==> opt_payloads_visible(#[trigger] vs[i]),
    decreases vs,
{
    if vs.len() > 0 {
        lemma_all_opt_payloads_visible(vs.drop_last());
        assert(forall|i: int| 0 <= i < vs.len() - 1 ==> vs.drop_last()[i] == vs[i]);
    }
}

pub broadcast proof fn lemma_entries_opt_payloads_visible(ps: Seq<(Seq<char>, HostValueView)>)
    ensures
        #[trigger] entries_opt_payloads_visible(ps) <==> forall|i: int|
            0 <= i < ps.len() ==> opt_payloads_visible((#[trigger] ps[i]).1),
    decreases ps,
{
    if ps.len() > 0 {
        lemma_entries_opt_payloads_visible(ps.drop_last());
        assert(forall|i: int| 0 <= i < ps.len() - 1 ==> ps.drop_last()[i] == ps[i]);
    }
}

/// THE ROUND TRIP: reading a bridged host value back into its own shape
/// recovers the value exactly, for scalars, byte buffers, sequences,
/// maps, options and handles alike. Present optional payloads must not
/// themselves bridge to nil, and sequence lengths must fit the engine's
/// number width; nothing else is assumed.
pub proof fn lemma_bridge_round_trip(h: HostValueView, t: HostType)
    requires
        has_type(h, t),
        table_sizes_fit(h),
        opt_payloads_visible(h),
    ensures
        from_script_spec(to_script_view(h), t) == Ok::<HostValueView, ErrorView>(h),
    decreases h, t, 0int,
{
    match t {
        HostType::Unit => {},
        HostType::Bool => {},
        HostType::Int => {},
        HostType::Text => {},
        HostType::Bytes => {
            if let HostValueView::Bytes(bs) = h {
                lemma_bytes_round_trip(bs, 0);
                assert(bs.skip(0) =~= bs);
            }
        },
        HostType::List(t2) => {
            if let HostValueView::List(vs) = h {
                lemma_list_round_trip(vs, *t2, 0);
                assert(vs.skip(0) =~= vs);
            }
        },
        HostType::Dict(t2) => {
            if let HostValueView::Dict(ps) = h {
                lemma_dict_round_trip(ps, *t2, 0);
                assert(ps.skip(0) =~= ps);
            }
        },
        HostType::Opt(t2) => match h {
            HostValueView::OptNone => {},
            HostValueView::OptSome(b) => {
                lemma_bridge_round_trip(*b, *t2);
            },
            _ => {},
        },
        HostType::Handle(_) => {},
    }
}

/// The bridged form of a byte buffer reads back to its own tail from
/// position `j` on.
proof fn lemma_bytes_round_trip(bs: Seq<u8>, j: int)
    requires
        0 <= j <= bs.len(),
        bs.len() <= i64::MAX,
    ensures
        from_bytes_spec(byte_table_pairs(bs), j) == Ok::<Seq<u8>, ErrorView>(bs.skip(j)),
    decreases bs.len() - j,
{
    if j < bs.len() {
        lemma_bytes_round_trip(bs, j + 1);
        assert(seq![bs[j]] + bs.skip(j + 1) =~= bs.skip(j));
    } else {
        assert(bs.skip(j) =~= Seq::empty());
    }
}

/// The bridged form of a sequence reads back to its own tail from
/// position `j` on.
proof fn lemma_list_round_trip(vs: Seq<HostValueView>, t: HostType, j: int)
    requires
        0 <= j <= vs.len(),
        vs.len() <= i64::MAX,
        all_have_type(vs, t),
        sizes_fit_all(vs),
        all_opt_payloads_visible(vs),
    ensures
        from_list_spec(seq_table_pairs(to_script_views(vs)), t, j) == Ok::<
            Seq<HostValueView>,
            ErrorView,
        >(vs.skip(j)),
    decreases vs, t, vs.len() - j + 1,
{
    lemma_to_script_views(vs);
    lemma_all_have_type(vs, t);
    lemma_sizes_fit_all(vs);
    lemma_all_opt_payloads_visible(vs);
    let ps = seq_table_pairs(to_script_views(vs));
    if j < vs.len() {
        assert(ps[j] == (ScriptValueView::Number(j + 1), to_script_view(vs[j])));
        lemma_bridge_round_trip(vs[j], t);
        lemma_list_round_trip(vs, t, j + 1);
        assert(seq![vs[j]] + vs.skip(j + 1) =~= vs.skip(j));
    } else {
        assert(vs.skip(j) =~= Seq::empty());
    }
}

/// The bridged form of a keyed map reads back to its own tail from
/// position `j` on.
proof fn lemma_dict_round_trip(ps: Seq<(Seq<char>, HostValueView)>, t: HostType, j: int)
    requires
        0 <= j <= ps.len(),
        entries_have_type(ps, t),
        sizes_fit_entries(ps),
        entries_opt_payloads_visible(ps),
    ensures
        from_dict_spec(to_script_entries(ps), t, j) == Ok::<
            Seq<(Seq<char>, HostValueView)>,
            ErrorView,
        >(ps.skip(j)),
    decreases ps, t, ps.len() - j + 1,
{
    lemma_to_script_entries(ps);
    lemma_entries_have_type(ps, t);
    lemma_sizes_fit_entries(ps);
    lemma_entries_opt_payloads_visible(ps);
    let sps = to_script_entries(ps);
    if j < ps.len() {
        assert(sps[j] == (ScriptValueView::Str(ps[j].0), to_script_view(ps[j].1)));
        lemma_bridge_round_trip(ps[j].1, t);
        lemma_dict_round_trip(ps, t, j + 1);
        assert(seq![ps[j]] + ps.skip(j + 1) =~= ps.skip(j));
    } else {
        assert(ps.skip(j) =~= Seq::empty());
    }
}

/// NO SILENT TRUNCATION: reading a table as a sequence either yields
/// exactly one element per table pair, or fails; and a table whose pairs
/// do not sit at their own 1-based positions — index gaps included —
/// always fails.
pub proof fn lemma_no_silent_truncation(ps: Seq<(ScriptValueView, ScriptValueView)>, t: HostType)
    ensures
        from_list_spec(ps, t, 0) matches Ok(vs) ==> vs.len() == ps.len(),
        (exists|j: int|
            0 <= j < ps.len() && !((#[trigger] ps[j]).0 matches ScriptValueView::Number(k) && k
                == j + 1)) ==> from_list_spec(ps, t, 0) is Err,
{
    lemma_list_suffix_len(ps, t, 0);
    if exists|j: int|
        0 <= j < ps.len() && !((#[trigger] ps[j]).0 matches ScriptValueView::Number(k) && k == j
            + 1) {
        let j0 = choose|j: int|
            0 <= j < ps.len() && !((#[trigger] ps[j]).0 matches ScriptValueView::Number(k) && k
                == j + 1);
        lemma_list_misplaced_key_fails(ps, t, 0, j0);
    }
}

/// A successful suffix read yields one element per remaining pair.
proof fn lemma_list_suffix_len(ps: Seq<(ScriptValueView, ScriptValueView)>, t: HostType, j: int)
    requires
        0 <= j <= ps.len(),
    ensures
        from_list_spec(ps, t, j) matches Ok(vs) ==> vs.len() == ps.len() - j,
    decreases ps.len() - j,
{
    if j < ps.len() {
        lemma_list_suffix_len(ps, t, j + 1);
    }
}

/// A pair away from its own 1-based position fails every read that
/// reaches it.
proof fn lemma_list_misplaced_key_fails(
    ps: Seq<(ScriptValueView, ScriptValueView)>,
    t: HostType,
    j: int,
    j0: int,
)
    requires
        0 <= j <= j0 < ps.len(),
        !(ps[j0].0 matches ScriptValueView::Number(k) && k == j0 + 1),
    ensures
        from_list_spec(ps, t, j) is Err,
    decreases j0 - j,
{
    if j < j0 {
        lemma_list_misplaced_key_fails(ps, t, j + 1, j0);
    }
}

/// A conversion result, over the mirrors.
pub open spec fn host_result_view(r: Result<HostValue, Error>) -> Result<
    HostValueView,
    ErrorView,
> {
    match r {
        Ok(h) => Ok(host_value_view(&h)),
        Err(e) => Err(e@),
    }
}

/// A bridging result, over the mirrors.
pub open spec fn script_result_view(r: Result<ScriptValue, Error>) -> Result<
    ScriptValueView,
    ErrorView,
> {
    match r {
        Ok(s) => Ok(script_value_view(&s)),
        Err(e) => Err(e@),
    }
}

/// Bridges a host value into the engine's value model. Succeeds on
/// every value whose sequence lengths fit the engine's number width,
/// with exactly the value [`to_script_view`] describes; a longer
/// sequence fails with `Range`. No other input is rejected.
pub fn to_script(h: &HostValue) -> (r: Result<ScriptValue, Error>)
    ensures
        table_sizes_fit(h@) ==> script_result_view(r) == Ok::<ScriptValueView, ErrorView>(
            to_script_view(h@),
        ),
        !table_sizes_fit(h@) ==> script_result_view(r) == Err::<ScriptValueView, ErrorView>(
            ErrorView::Range,
        ),
    decreases h,
{
    match h {
        HostValue::Nil => Ok(ScriptValue::Nil),
        HostValue::Bool(b) => Ok(ScriptValue::Boolean(*b)),
        HostValue::Int(n) => Ok(ScriptValue::Number(*n)),
        HostValue::Text(s) => Ok(ScriptValue::Str(s.clone())),
        HostValue::Bytes(bs) => to_script_bytes(bs),
        HostValue::List(vs) => to_script_list(vs),
        HostValue::Dict(ps) => to_script_dict(ps),
        HostValue::Opt(o) => match o {
            Option::None => Ok(ScriptValue::Nil),
            Option::Some(b) => to_script(&**b),
        },
        HostValue::Handle(hd) => Ok(
            ScriptValue::Handle(Handle { tag: hd.tag.clone(), id: hd.id }),
        ),
    }
}

/// Lays a byte buffer out as a 1..N-indexed table of numbers.
fn to_script_bytes(bs: &Vec<u8>) -> (r: Result<ScriptValue, Error>)
    ensures
        bs@.len() <= i64::MAX ==> (r matches Ok(s) && s@ == ScriptValueView::Table(
            byte_table_pairs(bs@),
        )),
        bs@.len() > i64::MAX ==> (r matches Err(e) && e@ == ErrorView::Range),
{
    if bs.len() as u64 > i64::MAX as u64 {
        return Err(Error::Range);
    }
    let mut pairs: Vec<(ScriptValue, ScriptValue)> = Vec::new();
    for j in 0..bs.len()
        invariant
            bs@.len() <= i64::MAX,
            pairs@.len() == j,
            forall|i: int|
                0 <= i < j ==> #[trigger] pairs@[i].0@ == ScriptValueView::Number(i + 1)
                    && pairs@[i].1@ == ScriptValueView::Number(bs@[i] as int),
    {
        let ghost prev = pairs@;
        pairs.push((ScriptValue::Number((j + 1) as i64), ScriptValue::Number(bs[j] as i64)));
        proof {
            assert(pairs@[j as int].0@ == ScriptValueView::Number(j + 1));
            assert(pairs@[j as int].1@ == ScriptValueView::Number(bs@[j as int] as int));
            assert(forall|i: int| 0 <= i < j ==> pairs@[i] == prev[i]);
        }
    }
    proof {
        crate::value::lemma_script_pair_views(pairs@);
        assert(pairs@.len() == bs@.len());
        assert(script_pair_views(pairs@).len() == byte_table_pairs(bs@).len());
        assert(forall|i: int|
            0 <= i < bs@.len() ==> script_pair_views(pairs@)[i] == (
                pairs@[i].0@,
                pairs@[i].1@,
            ));
        assert(script_pair_views(pairs@) =~~= byte_table_pairs(bs@));
    }
    Ok(ScriptValue::Table(pairs))
}

/// Lays a sequence out as a 1..N-indexed table, bridging each element.
fn to_script_list(vs: &Vec<HostValue>) -> (r: Result<ScriptValue, Error>)
    ensures
        table_sizes_fit(HostValueView::List(host_value_views(vs@))) ==> (r matches Ok(s)
            && s@ == to_script_view(HostValueView::List(host_value_views(vs@)))),
        !table_sizes_fit(HostValueView::List(host_value_views(vs@))) ==> (r matches Err(e)
            && e@ == ErrorView::Range),
    decreases vs,
{
    let ghost hv = HostValueView::List(host_value_views(vs@));
    if vs.len() as u64 > i64::MAX as u64 {
        return Err(Error::Range);
    }
    let mut pairs: Vec<(ScriptValue, ScriptValue)> = Vec::new();
    for j in 0..vs.len()
        invariant
            vs@.len() <= i64::MAX,
            pairs@.len() == j,
            sizes_fit_all(host_value_views(vs@).take(j as int)),
            forall|i: int|
                0 <= i < j ==> #[trigger] pairs@[i].0@ == ScriptValueView::Number(i + 1)
                    && pairs@[i].1@ == to_script_view(host_value_view(&vs@[i])),
    {
        let sv = match to_script(&vs[j]) {
            Ok(sv) => sv,
            Err(e) => {
                proof {
                    crate::value::lemma_host_value_views(vs@);
                    lemma_sizes_fit_all(host_value_views(vs@));
                    assert(host_value_views(vs@)[j as int] == host_value_view(&vs@[j as int]));
                    assert(!table_sizes_fit(HostValueView::List(host_value_views(vs@))));
                }
                return Err(e);
            },
        };
        proof {
            assert(host_value_views(vs@).take(j + 1) =~= host_value_views(vs@).take(
                j as int,
            ).push(host_value_view(&vs@[j as int])));
            lemma_sizes_fit_all(host_value_views(vs@).take(j + 1));
            lemma_sizes_fit_all(host_value_views(vs@).take(j as int));
        }
        let ghost prev = pairs@;
        pairs.push((ScriptValue::Number((j + 1) as i64), sv));
        proof {
            assert(pairs@[j as int].0@ == ScriptValueView::Number(j + 1));
            assert(pairs@[j as int].1@ == to_script_view(host_value_view(&vs@[j as int])));
            assert(forall|i: int| 0 <= i < j ==> pairs@[i] == prev[i]);
        }
    }
    proof {
        crate::value::lemma_host_value_views(vs@);
        crate::value::lemma_script_pair_views(pairs@);
        lemma_to_script_views(host_value_views(vs@));
        assert(host_value_views(vs@).take(vs@.len() as int) =~= host_value_views(vs@));
        assert(forall|i: int|
            0 <= i < vs@.len() ==> script_pair_views(pairs@)[i] == (
                pairs@[i].0@,
                pairs@[i].1@,
            ));
        assert(forall|i: int|
            0 <= i < vs@.len() ==> to_script_views(host_value_views(vs@))[i] == to_script_view(
                host_value_view(&vs@[i]),
            ));
        assert(script_pair_views(pairs@) =~~= seq_table_pairs(
            to_script_views(host_value_views(vs@)),
        ));
    }
    Ok(ScriptValue::Table(pairs))
}

/// Lays a keyed map out as a table of string keys, bridging each value.
fn to_script_dict(ps: &Vec<(String, HostValue)>) -> (r: Result<ScriptValue, Error>)
    ensures
        table_sizes_fit(HostValueView::Dict(host_entry_views(ps@))) ==> (r matches Ok(s)
            && s@ == to_script_view(HostValueView::Dict(host_entry_views(ps@)))),
        !table_sizes_fit(HostValueView::Dict(host_entry_views(ps@))) ==> (r matches Err(e)
            && e@ == ErrorView::Range),
    decreases ps,
{
    let mut pairs: Vec<(ScriptValue, ScriptValue)> = Vec::new();
    for j in 0..ps.len()
        invariant
            pairs@.len() == j,
            sizes_fit_entries(host_entry_views(ps@).take(j as int)),
            forall|i: int|
                0 <= i < j ==> #[trigger] pairs@[i].0@ == ScriptValueView::Str(ps@[i].0@)
                    && pairs@[i].1@ == to_script_view(host_value_view(&ps@[i].1)),
    {
        let sv = match to_script(&ps[j].1) {
            Ok(sv) => sv,
            Err(e) => {
                proof {
                    crate::value::lemma_host_entry_views(ps@);
                    lemma_sizes_fit_entries(host_entry_views(ps@));
                    assert(host_entry_views(ps@)[j as int] == (
                        ps@[j as int].0@,
                        host_value_view(&ps@[j as int].1),
                    ));
                    assert(!table_sizes_fit(HostValueView::Dict(host_entry_views(ps@))));
                }
                return Err(e);
            },
        };
        proof {
            assert(host_entry_views(ps@).take(j + 1) =~= host_entry_views(ps@).take(
                j as int,
            ).push((ps@[j as int].0@, host_value_view(&ps@[j as int].1))));
            lemma_sizes_fit_entries(host_entry_views(ps@).take(j + 1));
            lemma_sizes_fit_entries(host_entry_views(ps@).take(j as int));
        }
        let ghost prev = pairs@;
        pairs.push((ScriptValue::Str(ps[j].0.clone()), sv));
        proof {
            assert(pairs@[j as int].0@ == ScriptValueView::Str(ps@[j as int].0@));
            assert(pairs@[j as int].1@ == to_script_view(host_value_view(&ps@[j as int].1)));
            assert(forall|i: int| 0 <= i < j ==> pairs@[i] == prev[i]);
        }
    }
    proof {
        crate::value::lemma_host_entry_views(ps@);
        crate::value::lemma_script_pair_views(pairs@);
        lemma_to_script_entries(host_entry_views(ps@));
        assert(host_entry_views(ps@).take(ps@.len() as int) =~= host_entry_views(ps@));
        assert(forall|i: int|
            0 <= i < ps@.len() ==> script_pair_views(pairs@)[i] == (
                pairs@[i].0@,
                pairs@[i].1@,
            ));
        assert(forall|i: int|
            0 <= i < ps@.len() ==> to_script_entries(host_entry_views(ps@))[i] == (
                ScriptValueView::Str(ps@[i].0@),
                to_script_view(host_value_view(&ps@[i].1)),
            ));
        assert(script_pair_views(pairs@) =~~= to_script_entries(host_entry_views(ps@)));
    }
    Ok(ScriptValue::Table(pairs))
}

/// The surface kind of an engine value, for error reports.
fn value_kind_of(s: &ScriptValue) -> (k: ValueKind)
    ensures
        k@ == kind_of(s@),
{
    match s {
        ScriptValue::Nil => ValueKind::Nil,
        ScriptValue::Boolean(_) => ValueKind::Boolean,
        ScriptValue::Number(_) => ValueKind::Number,
        ScriptValue::Str(_) => ValueKind::Str,
        ScriptValue::Table(_) => ValueKind::Table,
        ScriptValue::Handle(h) => ValueKind::Handle(h.tag.clone()),
        ScriptValue::Function(_) => ValueKind::Function,
    }
}

/// The kind a host shape expects, for error reports.
fn host_expected_kind(t: &HostType) -> (k: ValueKind)
    ensures
        k@ == expected_kind(*t),
    decreases t,
{
    match t {
        HostType::Unit => ValueKind::Nil,
        HostType::Bool => ValueKind::Boolean,
        HostType::Int => ValueKind::Number,
        HostType::Text => ValueKind::Str,
        HostType::Bytes => ValueKind::Table,
        HostType::List(_) => ValueKind::Table,
        HostType::Dict(_) => ValueKind::Table,
        HostType::Opt(t2) => host_expected_kind(&**t2),
        HostType::Handle(tag) => ValueKind::Handle(tag.clone()),
    }
}

/// The mismatch failure reading `s` into shape `t`.
fn mismatch_error(s: &ScriptValue, t: &HostType) -> (e: Error)
    ensures
        e@ == mismatch(s@, *t),
{
    Error::TypeMismatch { expected: host_expected_kind(t), found: value_kind_of(s) }
}

/// Reads an engine value back into the requested host shape, returning
/// exactly what [`from_script_spec`] describes: the converted value, or
/// the precise `TypeMismatch`, `Range` or `Shape` failure, with no
/// partially built container either way.
pub fn from_script(s: &ScriptValue, t: &HostType) -> (r: Result<HostValue, Error>)
    ensures
        host_result_view(r) == from_script_spec(s@, *t),
    decreases s, t, 0int,
{
    match t {
        HostType::Opt(t2) => match s {
            ScriptValue::Nil => Ok(HostValue::Opt(Option::None)),
            _ => match from_script(s, &**t2) {
                Ok(h) => Ok(HostValue::Opt(Option::Some(Box::new(h)))),
                Err(e) => Err(e),
            },
        },
        HostType::Unit => match s {
            ScriptValue::Nil => Ok(HostValue::Nil),
            _ => Err(mismatch_error(s, t)),
        },
        HostType::Bool => match s {
            ScriptValue::Boolean(b) => Ok(HostValue::Bool(*b)),
            _ => Err(mismatch_error(s, t)),
        },
        HostType::Int => match s {
            ScriptValue::Number(n) => Ok(HostValue::Int(*n)),
            _ => Err(mismatch_error(s, t)),
        },
        HostType::Text => match s {
            ScriptValue::Str(cs) => Ok(HostValue::Text(cs.clone())),
            _ => Err(mismatch_error(s, t)),
        },
        HostType::Bytes => match s {
            ScriptValue::Table(ps) => match from_script_bytes(ps) {
                Ok(bs) => Ok(HostValue::Bytes(bs)),
                Err(e) => Err(e),
            },
            _ => Err(mismatch_error(s, t)),
        },
        HostType::List(t2) => match s {
            ScriptValue::Table(ps) => match from_script_list(ps, &**t2) {
                Ok(vs) => Ok(HostValue::List(vs)),
                Err(e) => Err(e),
            },
            _ => Err(mismatch_error(s, t)),
        },
        HostType::Dict(t2) => match s {
            ScriptValue::Table(ps) => match from_script_dict(ps, &**t2) {
                Ok(es) => Ok(HostValue::Dict(es)),
                Err(e) => Err(e),
            },
            _ => Err(mismatch_error(s, t)),
        },
        HostType::Handle(tag) => match s {
            ScriptValue::Handle(h) => {
                if h.tag == *tag {
                    Ok(HostValue::Handle(Handle { tag: h.tag.clone(), id: h.id }))
                } else {
                    Err(
                        Error::TypeMismatch {
                            expected: ValueKind::Handle(tag.clone()),
                            found: ValueKind::Handle(h.tag.clone()),
                        },
                    )
                }
            },
            _ => Err(mismatch_error(s, t)),
        },
    }
}

/// Reads a table as a byte buffer, as [`from_bytes_spec`] describes.
fn from_script_bytes(ps: &Vec<(ScriptValue, ScriptValue)>) -> (r: Result<Vec<u8>, Error>)
    ensures
        match r {
            Ok(bs) => from_bytes_spec(script_pair_views(ps@), 0) == Ok::<Seq<u8>, ErrorView>(bs@),
            Err(e) => from_bytes_spec(script_pair_views(ps@), 0) == Err::<Seq<u8>, ErrorView>(e@),
        },
{
    let ghost spv = script_pair_views(ps@);
    proof {
        crate::value::lemma_script_pair_views(ps@);
    }
    let mut out: Vec<u8> = Vec::new();
    for j in 0..ps.len()
        invariant
            spv == script_pair_views(ps@),
            spv.len() == ps@.len(),
            forall|i: int| 0 <= i < ps@.len() ==> #[trigger] spv[i] == (ps@[i].0@, ps@[i].1@),
            out@.len() == j,
            from_bytes_spec(spv, 0) == (match from_bytes_spec(spv, j as int) {
                Ok(rest) => Ok::<Seq<u8>, ErrorView>(out@ + rest),
                Err(e) => Err::<Seq<u8>, ErrorView>(e),
            }),
    {
        let key_ok = match &ps[j].0 {
            ScriptValue::Number(k) => *k >= 1 && (*k as u64) == (j as u64) + 1,
            _ => false,
        };
        if !key_ok {
            proof {
                assert(from_bytes_spec(spv, j as int) == Err::<Seq<u8>, ErrorView>(
                    ErrorView::Shape,
                ));
            }
            return Err(Error::Shape);
        }
        match &ps[j].1 {
            ScriptValue::Number(x) => {
                if *x >= 0 && *x <= 255 {
                    let ghost old_out = out@;
                    out.push(*x as u8);
                    proof {
                        match from_bytes_spec(spv, j + 1) {
                            Ok(rest) => {
                                assert(old_out + (seq![(*x as u8)] + rest) =~= out@ + rest);
                            },
                            Err(_) => {},
                        }
                    }
                } else {
                    return Err(Error::Range);
                }
            },
            other => {
                return Err(
                    Error::TypeMismatch {
                        expected: ValueKind::Number,
                        found: value_kind_of(other),
                    },
                );
            },
        }
    }
    proof {
        assert(out@ + Seq::<u8>::empty() =~= out@);
    }
    Ok(out)
}

/// Reads a table as a sequence of shape `t`, as [`from_list_spec`]
/// describes.
fn from_script_list(ps: &Vec<(ScriptValue, ScriptValue)>, t: &HostType) -> (r: Result<
    Vec<HostValue>,
    Error,
>)
    ensures
        match r {
            Ok(vs) => from_list_spec(script_pair_views(ps@), *t, 0) == Ok::<
                Seq<HostValueView>,
                ErrorView,
            >(host_value_views(vs@)),
            Err(e) => from_list_spec(script_pair_views(ps@), *t, 0) == Err::<
                Seq<HostValueView>,
                ErrorView,
            >(e@),
        },
    decreases ps, t, 0int,
{
    let ghost spv = script_pair_views(ps@);
    proof {
        crate::value::lemma_script_pair_views(ps@);
        assert(host_value_views(Seq::<HostValue>::empty()) == Seq::<HostValueView>::empty());
    }
    let mut out: Vec<HostValue> = Vec::new();
    for j in 0..ps.len()
        invariant
            spv == script_pair_views(ps@),
            spv.len() == ps@.len(),
            forall|i: int| 0 <= i < ps@.len() ==> #[trigger] spv[i] == (ps@[i].0@, ps@[i].1@),
            out@.len() == j,
            from_list_spec(spv, *t, 0) == (match from_list_spec(spv, *t, j as int) {
                Ok(rest) => Ok::<Seq<HostValueView>, ErrorView>(host_value_views(out@) + rest),
                Err(e) => Err::<Seq<HostValueView>, ErrorView>(e),
            }),
    {
        let key_ok = match &ps[j].0 {
            ScriptValue::Number(k) => *k >= 1 && (*k as u64) == (j as u64) + 1,
            _ => false,
        };
        if !key_ok {
            proof {
                assert(from_list_spec(spv, *t, j as int) == Err::<
                    Seq<HostValueView>,
                    ErrorView,
                >(ErrorView::Shape));
            }
            return Err(Error::Shape);
        }
        match from_script(&ps[j].1, t) {
            Ok(h) => {
                let ghost old_out = out@;
                let ghost hv = host_value_view(&h);
                out.push(h);
                proof {
                    crate::value::lemma_host_value_views_push(old_out, out@.last());
                    crate::value::lemma_host_value_views(old_out);
                    match from_list_spec(spv, *t, j + 1) {
                        Ok(rest) => {
                            assert(host_value_views(old_out) + (seq![hv] + rest)
                                =~= host_value_views(out@) + rest);
                        },
                        Err(_) => {},
                    }
                }
            },
            Err(e) => {
                return Err(e);
            },
        }
    }
    proof {
        assert(host_value_views(out@) + Seq::<HostValueView>::empty() =~= host_value_views(out@));
    }
    Ok(out)
}

/// Reads a table as a keyed map with values of shape `t`, as
/// [`from_dict_spec`] describes.
fn from_script_dict(ps: &Vec<(ScriptValue, ScriptValue)>, t: &HostType) -> (r: Result<
    Vec<(String, HostValue)>,
    Error,
>)
    ensures
        match r {
            Ok(es) => from_dict_spec(script_pair_views(ps@), *t, 0) == Ok::<
                Seq<(Seq<char>, HostValueView)>,
                ErrorView,
            >(host_entry_views(es@)),
            Err(e) => from_dict_spec(script_pair_views(ps@), *t, 0) == Err::<
                Seq<(Seq<char>, HostValueView)>,
                ErrorView,
            >(e@),
        },
    decreases ps, t, 0int,
{
    let ghost spv = script_pair_views(ps@);
    proof {
        crate::value::lemma_script_pair_views(ps@);
        assert(host_entry_views(Seq::<(String, HostValue)>::empty()) == Seq::<
            (Seq<char>, HostValueView),
        >::empty());
    }
    let mut out: Vec<(String, HostValue)> = Vec::new();
    for j in 0..ps.len()
        invariant
            spv == script_pair_views(ps@),
            spv.len() == ps@.len(),
            forall|i: int| 0 <= i < ps@.len() ==> #[trigger] spv[i] == (ps@[i].0@, ps@[i].1@),
            out@.len() == j,
            from_dict_spec(spv, *t, 0) == (match from_dict_spec(spv, *t, j as int) {
                Ok(rest) => Ok::<Seq<(Seq<char>, HostValueView)>, ErrorView>(
                    host_entry_views(out@) + rest,
                ),
                Err(e) => Err::<Seq<(Seq<char>, HostValueView)>, ErrorView>(e),
            }),
    {
        let key = match &ps[j].0 {
            ScriptValue::Str(k) => k.clone(),
            other => {
                return Err(
                    Error::TypeMismatch { expected: ValueKind::Str, found: value_kind_of(other) },
                );
            },
        };
        match from_script(&ps[j].1, t) {
            Ok(h) => {
                let ghost old_out = out@;
                let ghost kv = (key@, host_value_view(&h));
                out.push((key, h));
                proof {
                    crate::value::lemma_host_entry_views_push(old_out, out@.last());
                    crate::value::lemma_host_entry_views(old_out);
                    match from_dict_spec(spv, *t, j + 1) {
                        Ok(rest) => {
                            assert(host_entry_views(old_out) + (seq![kv] + rest)
                                =~= host_entry_views(out@) + rest);
                        },
                        Err(_) => {},
                    }
                }
            },
            Err(e) => {
                return Err(e);
            },
        }
    }
    proof {
        assert(host_entry_views(out@) + Seq::<(Seq<char>, HostValueView)>::empty()
            =~= host_entry_views(out@));
    }
    Ok(out)
}

} // verus!
