//! Writing engine values out as engine source literals.
//!
//! Bound data and keys travel into the engine as source text: a value
//! is written as the literal the engine parses back into it. Numbers
//! become decimal digits, strings become quoted text with every byte
//! written as a three-digit decimal escape — so no byte can ever break
//! out of the quotes — and tables become brace literals with explicit
//! keys. Handles and functions have no source form; writing a value
//! that contains one fails, before anything is handed to the engine.

use vstd::prelude::*;

use crate::errors::{Error, ErrorView};
use crate::value::{script_pair_views, ScriptValue, ScriptValueView};

verus! {

broadcast use vstd::seq::axiom_seq_index_decreases, vstd::std_specs::vec::axiom_vec_decreases_to_view, vstd::std_specs::vec::axiom_vec_index_decreases;

/// The decimal digit character for `d` (0 through 9).
pub open spec fn digit_char(d: int) -> char {
    ((48 + d) as u8) as char
}

/// The decimal digits of a nonnegative number, most significant first.
pub open spec fn dec_nat(n: int) -> Seq<char>
    decreases n,
{
    if n < 10 {
        seq![digit_char(n)]
    } else {
        dec_nat(n / 10).push(digit_char(n % 10))
    }
}

/// The decimal form of a number: a leading minus for negatives.
pub open spec fn dec_int(n: int) -> Seq<char> {
    if n < 0 {
        seq!['-'] + dec_nat(-n)
    } else {
        dec_nat(n)
    }
}

/// The digit characters of a digit sequence read back to front: the
/// order they come out in when digits are extracted lowest first.
pub open spec fn rev_digit_chars(ds: Seq<u8>) -> Seq<char>
    decreases ds,
{
    if ds.len() == 0 {
        Seq::empty()
    } else {
        seq![digit_char(ds.last() as int)] + rev_digit_chars(ds.drop_last())
    }
}

proof fn lemma_rev_digit_chars_push(ds: Seq<u8>, d: u8)
    ensures
        rev_digit_chars(ds.push(d)) == seq![digit_char(d as int)] + rev_digit_chars(ds),
{
    assert(ds.push(d).drop_last() =~= ds);
    assert(ds.push(d).last() == d);
}

/// Extracting a digit sequence from the front emits its character at
/// the back.
proof fn lemma_rev_digit_chars_prepend(x: u8, ds: Seq<u8>)
    ensures
        rev_digit_chars(seq![x] + ds) == rev_digit_chars(ds) + seq![digit_char(x as int)],
    decreases ds,
{
    if ds.len() == 0 {
        assert(seq![x] + ds =~= seq![x]);
        assert(seq![x].drop_last() =~= Seq::<u8>::empty());
        assert(rev_digit_chars(Seq::<u8>::empty()) =~= Seq::<char>::empty());
        assert(rev_digit_chars(seq![x]) =~= seq![digit_char(x as int)]);
        assert(rev_digit_chars(ds) + seq![digit_char(x as int)] =~= seq![digit_char(x as int)]);
    } else {
        let s = seq![x] + ds;
        assert(s.last() == ds.last());
        assert(s.drop_last() =~= seq![x] + ds.drop_last());
        lemma_rev_digit_chars_prepend(x, ds.drop_last());
        assert(rev_digit_chars(s) =~= rev_digit_chars(ds) + seq![digit_char(x as int)]);
    }
}

/// The decimal text of a number: the digits most significant first,
/// with a leading minus for negatives — exactly [`dec_int`].
pub fn i64_to_string(n: i64) -> (r: String)
    ensures
        r@ == dec_int(n as int),
{
    if n == 0 {
        proof {
            reveal_strlit("0");
            assert("0"@ =~= dec_int(0));
        }
        return "0".to_owned();
    }
    let ghost orig_n = n as int;
    let mut m: u64 = if n >= 0 {
        n as u64
    } else {
        (-(n as i128)) as u64
    };
    let ghost orig = m as int;
    let mut digits: Vec<u8> = Vec::new();
    proof {
        assert(rev_digit_chars(Seq::<u8>::empty()) =~= Seq::<char>::empty());
        assert(dec_nat(orig) =~= dec_nat(orig) + rev_digit_chars(Seq::<u8>::empty()));
    }
    while m > 0
        invariant
            forall|i: int| 0 <= i < digits@.len() ==> digits@[i] < 10,
            if m > 0 {
                dec_nat(orig) == dec_nat(m as int) + rev_digit_chars(digits@)
            } else {
                rev_digit_chars(digits@) == dec_nat(orig)
            },
        decreases m,
    {
        let d = (m % 10) as u8;
        let ghost before = digits@;
        let ghost m_before = m as int;
        digits.push(d);
        m = m / 10;
        proof {
            lemma_rev_digit_chars_push(before, d);
            if m_before < 10 {
                assert(dec_nat(m_before) == seq![digit_char(m_before % 10)]);
                assert(dec_nat(m_before) + rev_digit_chars(before) =~= rev_digit_chars(digits@));
            } else {
                assert(dec_nat(m_before) == dec_nat(m_before / 10).push(
                    digit_char(m_before % 10),
                ));
                assert(dec_nat(m_before / 10) + (seq![digit_char(m_before % 10)]
                    + rev_digit_chars(before)) =~= dec_nat(m_before) + rev_digit_chars(before));
            }
        }
    }
    let mut out: String = if n < 0 {
        "-".to_owned()
    } else {
        "".to_owned()
    };
    let ghost sign: Seq<char> = out@;
    let total = digits.len();
    proof {
        reveal_strlit("-");
        reveal_strlit("");
        assert(digits@.skip(total as int) =~= Seq::<u8>::empty());
    }
    for j in 0..total
        invariant
            total == digits@.len(),
            forall|i: int| 0 <= i < digits@.len() ==> digits@[i] < 10,
            out@ == sign + rev_digit_chars(digits@.skip(total - j)),
    {
        out.append(digit_str(digits[total - 1 - j]));
        proof {
            assert(digits@.skip(total - j - 1) =~= seq![digits@[total - j - 1]] + digits@.skip(
                total - j,
            ));
            lemma_rev_digit_chars_prepend(digits@[total - j - 1], digits@.skip(total - j));
        }
    }
    proof {
        assert(digits@.skip(0) =~= digits@);
        if n >= 0 {
            assert(out@ =~= dec_int(orig_n));
        } else {
            assert(orig == -orig_n);
            assert(out@ =~= dec_int(orig_n));
        }
    }
    out
}

/// A byte written as a backslash and three decimal digits, the escape
/// form the engine reads back as exactly that byte.
pub open spec fn byte_escape(b: u8) -> Seq<char> {
    seq![
        '\\',
        digit_char(b as int / 100),
        digit_char((b as int / 10) % 10),
        digit_char(b as int % 10),
    ]
}

/// Every byte of a string written in escape form, in order.
pub open spec fn escape_bytes(bs: Seq<u8>) -> Seq<char>
    decreases bs,
{
    if bs.len() == 0 {
        Seq::empty()
    } else {
        escape_bytes(bs.drop_last()) + byte_escape(bs.last())
    }
}

/// A text written as a quoted engine string literal over its UTF-8
/// bytes.
pub open spec fn string_literal(s: Seq<char>) -> Seq<char> {
    seq!['"'] + escape_bytes(vstd::utf8::encode_utf8(s)) + seq!['"']
}

/// Whether a value can be written as source: nil, booleans, numbers,
/// strings, and tables of such values under number or string keys.
/// Handles and functions cannot.
pub open spec fn literalizable(v: ScriptValueView) -> bool
    decreases v, 0int,
{
    match v {
        ScriptValueView::Nil => true,
        ScriptValueView::Boolean(_) => true,
        ScriptValueView::Number(_) => true,
        ScriptValueView::Str(_) => true,
        ScriptValueView::Table(ps) => pairs_literalizable(ps),
        ScriptValueView::Handle(_) => false,
        ScriptValueView::Function(_) => false,
    }
}

/// [`literalizable`], over a table's pairs: every key a number or a
/// string, every value writable.
pub open spec fn pairs_literalizable(ps: Seq<(ScriptValueView, ScriptValueView)>) -> bool
    decreases ps, 1int,
{
    if ps.len() == 0 {
        true
    } else {
        pairs_literalizable(ps.drop_last()) && (ps.last().0 is Number || ps.last().0 is Str)
            && literalizable(ps.last().1)
    }
}

/// The source literal of a writable value.
pub open spec fn literal_view(v: ScriptValueView) -> Seq<char>
    decreases v, 0int,
{
    match v {
        ScriptValueView::Nil => "nil"@,
        ScriptValueView::Boolean(b) => if b {
            "true"@
        } else {
            "false"@
        },
        ScriptValueView::Number(n) => dec_int(n),
        ScriptValueView::Str(cs) => string_literal(cs),
        ScriptValueView::Table(ps) => seq!['{'] + pairs_literal(ps) + seq!['}'],
        ScriptValueView::Handle(_) => Seq::empty(),
        ScriptValueView::Function(_) => Seq::empty(),
    }
}

/// The pair literals of a table, in order: `[key]=value,` each.
pub open spec fn pairs_literal(ps: Seq<(ScriptValueView, ScriptValueView)>) -> Seq<char>
    decreases ps, 1int,
{
    if ps.len() == 0 {
        Seq::empty()
    } else {
        pairs_literal(ps.drop_last()) + pair_literal(ps.last())
    }
}

/// One table pair written as `[key]=value,`.
pub open spec fn pair_literal(p: (ScriptValueView, ScriptValueView)) -> Seq<char>
    decreases p, 0int,
{
    seq!['['] + literal_view(p.0) + seq![']', '='] + literal_view(p.1) + seq![',']
}

/// The decimal digit text for `d` (0 through 9).
fn digit_str(d: u8) -> (r: &'static str)
    requires
        d < 10,
    ensures
        r@ == seq![digit_char(d as int)],
{
    proof {
        reveal_strlit("0");
        reveal_strlit("1");
        reveal_strlit("2");
        reveal_strlit("3");
        reveal_strlit("4");
        reveal_strlit("5");
        reveal_strlit("6");
        reveal_strlit("7");
        reveal_strlit("8");
        reveal_strlit("9");
    }
    match d {
        0 => "0",
        1 => "1",
        2 => "2",
        3 => "3",
        4 => "4",
        5 => "5",
        6 => "6",
        7 => "7",
        8 => "8",
        _ => "9",
    }
}

/// Appends one byte's escape form.
fn append_byte_escape(out: &mut String, b: u8)
    ensures
        final(out)@ == old(out)@ + byte_escape(b),
{
    proof {
        reveal_strlit("\\");
    }
    out.append("\\");
    out.append(digit_str(b / 100));
    out.append(digit_str((b / 10) % 10));
    out.append(digit_str(b % 10));
}

/// Writes a text as a quoted engine string literal.
fn string_literal_exec(cs: &String) -> (r: String)
    ensures
        r@ == string_literal(cs@),
{
    let bytes = cs.as_str().as_bytes_vec();
    let ghost all = bytes@;
    let mut out: String = "\"".to_owned();
    proof {
        reveal_strlit("\"");
        assert(all.take(0) =~= Seq::<u8>::empty());
    }
    for j in 0..bytes.len()
        invariant
            bytes@ == all,
            out@ == seq!['"'] + escape_bytes(all.take(j as int)),
    {
        let ghost before = out@;
        append_byte_escape(&mut out, bytes[j]);
        proof {
            assert(all.take(j + 1).drop_last() =~= all.take(j as int));
            assert(all.take(j + 1).last() == all[j as int]);
        }
    }
    proof {
        assert(all.take(bytes@.len() as int) =~= all);
    }
    out.append("\"");
    proof {
        assert(out@ =~= string_literal(cs@));
    }
    out
}

/// Writes a writable value as its source literal; a value containing a
/// handle or a function has no source form and fails with `Shape`,
/// before anything is handed to the engine.
pub fn lua_literal(v: &ScriptValue) -> (r: Result<String, Error>)
    ensures
        literalizable(v@) ==> (r matches Ok(s) && s@ == literal_view(v@)),
        !literalizable(v@) ==> (r matches Err(e) && e@ == ErrorView::Shape),
    decreases v, 0int,
{
    match v {
        ScriptValue::Nil => Ok("nil".to_owned()),
        ScriptValue::Boolean(b) => if *b {
            Ok("true".to_owned())
        } else {
            Ok("false".to_owned())
        },
        ScriptValue::Number(n) => Ok(i64_to_string(*n)),
        ScriptValue::Str(cs) => Ok(string_literal_exec(cs)),
        ScriptValue::Table(ps) => table_literal_exec(ps),
        ScriptValue::Handle(_) => Err(Error::Shape),
        ScriptValue::Function(_) => Err(Error::Shape),
    }
}

/// Writes a table as a brace literal of `[key]=value,` pairs.
fn table_literal_exec(ps: &Vec<(ScriptValue, ScriptValue)>) -> (r: Result<String, Error>)
    ensures
        pairs_literalizable(script_pair_views(ps@)) ==> (r matches Ok(s) && s@ == seq!['{']
            + pairs_literal(script_pair_views(ps@)) + seq!['}']),
        !pairs_literalizable(script_pair_views(ps@)) ==> (r matches Err(e) && e@
            == ErrorView::Shape),
    decreases ps, 1int,
{
    let ghost spv = script_pair_views(ps@);
    proof {
        crate::value::lemma_script_pair_views(ps@);
        assert(spv.take(0) =~= Seq::<(ScriptValueView, ScriptValueView)>::empty());
    }
    let mut out: String = "{".to_owned();
    proof {
        reveal_strlit("{");
        reveal_strlit("}");
        reveal_strlit("]=");
        reveal_strlit("[");
        reveal_strlit(",");
    }
    for j in 0..ps.len()
        invariant
            spv == script_pair_views(ps@),
            spv.len() == ps@.len(),
            forall|i: int| 0 <= i < ps@.len() ==> #[trigger] spv[i] == (ps@[i].0@, ps@[i].1@),
            pairs_literalizable(spv.take(j as int)),
            out@ == seq!['{'] + pairs_literal(spv.take(j as int)),
    {
        let key_ok = match &ps[j].0 {
            ScriptValue::Number(_) => true,
            ScriptValue::Str(_) => true,
            _ => false,
        };
        if !key_ok {
            proof {
                lemma_pairs_unliteralizable(spv, j as int);
            }
            return Err(Error::Shape);
        }
        let key_text = match lua_literal(&ps[j].0) {
            Ok(s) => s,
            Err(_) => {
                proof {
                    lemma_pairs_unliteralizable(spv, j as int);
                }
                return Err(Error::Shape);
            },
        };
        let val_text = match lua_literal(&ps[j].1) {
            Ok(s) => s,
            Err(_) => {
                proof {
                    lemma_pairs_unliteralizable(spv, j as int);
                }
                return Err(Error::Shape);
            },
        };
        out.append("[");
        out.append(key_text.as_str());
        out.append("]=");
        out.append(val_text.as_str());
        out.append(",");
        proof {
            reveal_strlit("{");
            reveal_strlit("[");
            reveal_strlit("]=");
            reveal_strlit(",");
            assert(spv.take(j + 1).drop_last() =~= spv.take(j as int));
            assert(spv.take(j + 1).last() == spv[j as int]);
            assert(pairs_literal(spv.take(j + 1)) == pairs_literal(spv.take(j as int))
                + pair_literal(spv[j as int]));
            assert(key_text@ == literal_view(spv[j as int].0));
            assert(val_text@ == literal_view(spv[j as int].1));
            assert(out@ =~= seq!['{'] + pairs_literal(spv.take(j + 1)));
        }
    }
    proof {
        assert(spv.take(ps@.len() as int) =~= spv);
    }
    out.append("}");
    proof {
        assert(out@ =~= seq!['{'] + pairs_literal(spv) + seq!['}']);
    }
    Ok(out)
}

/// A pair that cannot be written poisons the whole table.
proof fn lemma_pairs_unliteralizable(ps: Seq<(ScriptValueView, ScriptValueView)>, j: int)
    requires
        0 <= j < ps.len(),
        !((ps[j].0 is Number || ps[j].0 is Str) && literalizable(ps[j].1)),
    ensures
        !pairs_literalizable(ps),
    decreases ps.len(),
{
    if ps.len() > 0 {
        if j == ps.len() - 1 {
        } else {
            lemma_pairs_unliteralizable(ps.drop_last(), j);
        }
    }
}

} // verus!
