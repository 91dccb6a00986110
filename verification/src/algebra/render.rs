//! Scalar expressions written out as text, in the form of their constructors:
//! `BinaryOp { op: Eq, lhs: Column("env"), rhs: Literal(Str("prod")) }`.
use vstd::prelude::*;
use vstd::string::*;

use crate::algebra::expr;
use crate::algebra::expr::{BinaryOpKind, LiteralValue, LiteralView, ScalarExpr, ScalarView};
use crate::decimal;
use crate::text;

verus! {

/// A string in quotes with its special characters escaped, as the standard
/// library's debug form of a string writes it.
pub uninterp spec fn quoted(s: Seq<char>) -> Seq<char>;

/// `format!("{:?}")` of a `str`: the string in quotes, escaped by
/// `str`'s `Debug`. The result depends on the characters alone; how each is
/// escaped is left to the standard library.
#[verifier::external_body]
pub(crate) fn quote(s: &str) -> (r: String)
    ensures
        r@ == quoted(s@),
{
    format!("{:?}", s)
}

/// A list of strings in brackets, each in quotes.
pub open spec fn quoted_list(items: Seq<Seq<char>>) -> Seq<char> {
    "["@ + text::joined(Seq::new(items.len(), |i: int| quoted(items[i])), ", "@) + "]"@
}

/// A list of strings in brackets, each in quotes.
pub fn quote_list(items: &Vec<String>) -> (r: String)
    ensures
        r@ == quoted_list(text::texts(items@)),
{
    let mut parts: Vec<String> = Vec::new();
    for i in 0..items.len()
        invariant
            parts@.len() == i,
            forall|j: int| 0 <= j < i ==> (#[trigger] parts@[j])@ == quoted(items@[j]@),
    {
        parts.push(quote(items[i].as_str()));
    }
    let ghost all = text::texts(items@);
    assert(text::texts(parts@) =~= Seq::new(all.len(), |i: int| quoted(all[i])));
    let mut out = "[".to_owned();
    out.append(text::join(&parts, ", ").as_str());
    out.append("]");
    out
}

/// The name of an operator.
pub open spec fn op_text(op: BinaryOpKind) -> Seq<char> {
    match op {
        BinaryOpKind::Add => "Add"@,
        BinaryOpKind::Sub => "Sub"@,
        BinaryOpKind::Mul => "Mul"@,
        BinaryOpKind::Div => "Div"@,
        BinaryOpKind::Mod => "Mod"@,
        BinaryOpKind::Pow => "Pow"@,
        BinaryOpKind::Eq => "Eq"@,
        BinaryOpKind::Ne => "Ne"@,
        BinaryOpKind::Lt => "Lt"@,
        BinaryOpKind::Le => "Le"@,
        BinaryOpKind::Gt => "Gt"@,
        BinaryOpKind::Ge => "Ge"@,
        BinaryOpKind::And => "And"@,
        BinaryOpKind::Or => "Or"@,
        BinaryOpKind::Unless => "Unless"@,
        BinaryOpKind::Atan2 => "Atan2"@,
        BinaryOpKind::BitAnd => "BitAnd"@,
        BinaryOpKind::BitOr => "BitOr"@,
        BinaryOpKind::BitXor => "BitXor"@,
        BinaryOpKind::Concat => "Concat"@,
        BinaryOpKind::Like => "Like"@,
        BinaryOpKind::NotLike => "NotLike"@,
        BinaryOpKind::Regex => "Regex"@,
        BinaryOpKind::NotRegex => "NotRegex"@,
    }
}

/// The name of an operator.
pub fn op_name(op: BinaryOpKind) -> (r: &'static str)
    ensures
        r@ == op_text(op),
{
    match op {
        BinaryOpKind::Add => "Add",
        BinaryOpKind::Sub => "Sub",
        BinaryOpKind::Mul => "Mul",
        BinaryOpKind::Div => "Div",
        BinaryOpKind::Mod => "Mod",
        BinaryOpKind::Pow => "Pow",
        BinaryOpKind::Eq => "Eq",
        BinaryOpKind::Ne => "Ne",
        BinaryOpKind::Lt => "Lt",
        BinaryOpKind::Le => "Le",
        BinaryOpKind::Gt => "Gt",
        BinaryOpKind::Ge => "Ge",
        BinaryOpKind::And => "And",
        BinaryOpKind::Or => "Or",
        BinaryOpKind::Unless => "Unless",
        BinaryOpKind::Atan2 => "Atan2",
        BinaryOpKind::BitAnd => "BitAnd",
        BinaryOpKind::BitOr => "BitOr",
        BinaryOpKind::BitXor => "BitXor",
        BinaryOpKind::Concat => "Concat",
        BinaryOpKind::Like => "Like",
        BinaryOpKind::NotLike => "NotLike",
        BinaryOpKind::Regex => "Regex",
        BinaryOpKind::NotRegex => "NotRegex",
    }
}

/// `true` or `false`.
pub open spec fn bool_text(b: bool) -> Seq<char> {
    if b {
        "true"@
    } else {
        "false"@
    }
}

/// `true` or `false`.
pub fn bool_name(b: bool) -> (r: &'static str)
    ensures
        r@ == bool_text(b),
{
    if b {
        "true"
    } else {
        "false"
    }
}

/// A signed integer in decimal.
pub open spec fn int_text(i: int) -> Seq<char> {
    if i < 0 {
        "-"@ + text::nat_text((-i) as nat)
    } else {
        text::nat_text(i as nat)
    }
}

/// A constant as text.
pub open spec fn literal_text(v: LiteralView) -> Seq<char> {
    match v {
        LiteralView::Null => "Null"@,
        LiteralView::Bool(b) => "Bool("@ + bool_text(b) + ")"@,
        LiteralView::Int(i) => "Int("@ + int_text(i as int) + ")"@,
        LiteralView::Float(d) => "Float("@ + decimal::decimal_debug_text(d) + ")"@,
        LiteralView::Str(s) => "Str("@ + quoted(s) + ")"@,
    }
}

/// Append a constant as text.
fn push_literal(out: &mut String, v: &LiteralValue)
    ensures
        final(out)@ == old(out)@ + literal_text(v@),
{
    let ghost before = out@;
    match v {
        LiteralValue::Null => {
            out.append("Null");
        },
        LiteralValue::Bool(b) => {
            out.append("Bool(");
            out.append(bool_name(*b));
            out.append(")");
        },
        LiteralValue::Int(i) => {
            out.append("Int(");
            if *i < 0 {
                out.append("-");
                text::push_u128(out, (-(*i as i128)) as u128);
            } else {
                text::push_u128(out, *i as u128);
            }
            out.append(")");
        },
        LiteralValue::Float(d) => {
            out.append("Float(");
            decimal::push_decimal_debug(out, *d);
            out.append(")");
        },
        LiteralValue::Str(s) => {
            out.append("Str(");
            out.append(quote(s.as_str()).as_str());
            out.append(")");
        },
    }
    assert(out@ =~= before + literal_text(v@));
}

/// A scalar expression as text. A subquery is shown as `..`.
pub open spec fn scalar_text(e: ScalarView) -> Seq<char>
    decreases e,
{
    match e {
        ScalarView::Column(s) => "Column("@ + quoted(s) + ")"@,
        ScalarView::Literal(v) => "Literal("@ + literal_text(v) + ")"@,
        ScalarView::BinaryOp { op, lhs, rhs } => "BinaryOp { op: "@ + op_text(op) + ", lhs: "@
            + scalar_text(*lhs) + ", rhs: "@ + scalar_text(*rhs) + " }"@,
        ScalarView::IsNull { expr, negated } => "IsNull { expr: "@ + scalar_text(*expr)
            + ", negated: "@ + bool_text(negated) + " }"@,
        ScalarView::Between { expr, low, high, negated } => "Between { expr: "@ + scalar_text(*expr)
            + ", low: "@ + scalar_text(*low) + ", high: "@ + scalar_text(*high) + ", negated: "@
            + bool_text(negated) + " }"@,
        ScalarView::InList { expr, list, negated } => "InList { expr: "@ + scalar_text(*expr)
            + ", list: ["@ + scalars_text(list) + "], negated: "@ + bool_text(negated) + " }"@,
        ScalarView::FunctionCall { name, args } => "FunctionCall { name: "@ + quoted(name)
            + ", args: ["@ + scalars_text(args) + "] }"@,
        ScalarView::ScalarSubquery(_) => "ScalarSubquery(..)"@,
    }
}

/// Scalar expressions as text, separated by commas.
pub open spec fn scalars_text(s: Seq<ScalarView>) -> Seq<char>
    decreases s,
{
    if s.len() == 0 {
        Seq::empty()
    } else if s.len() == 1 {
        scalar_text(s[0])
    } else {
        scalars_text(s.subrange(0, s.len() - 1)) + ", "@ + scalar_text(s[s.len() - 1])
    }
}

/// Append scalar expressions as text, separated by commas.
fn push_scalars(out: &mut String, v: &Vec<ScalarExpr>)
    ensures
        final(out)@ == old(out)@ + scalars_text(expr::scalars_view(v@)),
    decreases v,
{
    broadcast use expr::group_list_views;

    let ghost before = out@;
    let ghost shown = expr::scalars_view(v@);
    assert(shown.subrange(0, 0) =~= Seq::<ScalarView>::empty());
    assert(before + Seq::<char>::empty() =~= before);
    for i in 0..v.len()
        invariant
            shown == expr::scalars_view(v@),
            shown.len() == v@.len(),
            out@ == before + scalars_text(shown.subrange(0, i as int)),
    {
        broadcast use expr::group_list_views;
        broadcast use vstd::std_specs::vec::axiom_vec_index_decreases;

        let ghost seen = shown.subrange(0, i as int + 1);
        assert(seen.subrange(0, seen.len() - 1) =~= shown.subrange(0, i as int));
        assert(seen[i as int] == expr::scalar_view(v@[i as int]));
        if i > 0 {
            out.append(", ");
        } else {
            assert(out@ =~= before);
        }
        assert(decreases_to!(*v => v[i as int]));
        push_scalar(out, &v[i]);
        assert(out@ =~= before + scalars_text(seen));
    }
    assert(shown.subrange(0, v@.len() as int) =~= shown);
}

/// Append a scalar expression as text.
pub fn push_scalar(out: &mut String, e: &ScalarExpr)
    ensures
        final(out)@ == old(out)@ + scalar_text(e@),
    decreases e,
{
    let ghost before = out@;
    match e {
        ScalarExpr::Column(s) => {
            out.append("Column(");
            out.append(quote(s.as_str()).as_str());
            out.append(")");
        },
        ScalarExpr::Literal(v) => {
            out.append("Literal(");
            push_literal(out, v);
            out.append(")");
        },
        ScalarExpr::BinaryOp { op, lhs, rhs } => {
            out.append("BinaryOp { op: ");
            out.append(op_name(*op));
            out.append(", lhs: ");
            push_scalar(out, lhs);
            out.append(", rhs: ");
            push_scalar(out, rhs);
            out.append(" }");
        },
        ScalarExpr::IsNull { expr, negated } => {
            out.append("IsNull { expr: ");
            push_scalar(out, expr);
            out.append(", negated: ");
            out.append(bool_name(*negated));
            out.append(" }");
        },
        ScalarExpr::Between { expr, low, high, negated } => {
            out.append("Between { expr: ");
            push_scalar(out, expr);
            out.append(", low: ");
            push_scalar(out, low);
            out.append(", high: ");
            push_scalar(out, high);
            out.append(", negated: ");
            out.append(bool_name(*negated));
            out.append(" }");
        },
        ScalarExpr::InList { expr, list, negated } => {
            out.append("InList { expr: ");
            push_scalar(out, expr);
            out.append(", list: [");
            push_scalars(out, list);
            out.append("], negated: ");
            out.append(bool_name(*negated));
            out.append(" }");
        },
        ScalarExpr::FunctionCall { name, args } => {
            out.append("FunctionCall { name: ");
            out.append(quote(name.as_str()).as_str());
            out.append(", args: [");
            push_scalars(out, args);
            out.append("] }");
        },
        ScalarExpr::ScalarSubquery(_) => {
            out.append("ScalarSubquery(..)");
        },
    }
    assert(out@ =~= before + scalar_text(e@));
}

/// A scalar expression as text.
pub fn render_scalar(e: &ScalarExpr) -> (r: String)
    ensures
        r@ == scalar_text(e@),
{
    let mut out = String::new();
    push_scalar(&mut out, e);
    assert(Seq::<char>::empty() + scalar_text(e@) =~= scalar_text(e@));
    out
}

/// A whole number is written so that it reads back.
pub proof fn law_integer_reads_back(i: i64)
    ensures
        text::i64_value(int_text(i as int)) == Some(i),
{
    let t = int_text(i as int);
    if i < 0 {
        let n = (-(i as int)) as nat;
        text::law_digits_read_back(n);
        reveal_strlit("-");
        assert(t[0] == '-');
        assert(t.drop_first() =~= text::nat_text(n));
    } else {
        text::law_digits_read_back(i as nat);
        assert(text::is_digit(t[0]));
    }
}

} // verus!
