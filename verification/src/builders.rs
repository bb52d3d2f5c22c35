//! Builders for the emitted syntax tree: one executable constructor per node
//! shape, each mirrored by a spec-level constructor, so that the generator's
//! contracts can spell out the produced tree node by node.

use vstd::prelude::*;
use vstd::string::*;
use crate::ast::BinOp;
use crate::ast::Expr;
use crate::ast::ExprV;
use crate::ast::Stmt;
use crate::ast::StmtV;
use crate::ast::UnOp;
use crate::ast::view_expr;
use crate::ast::view_exprs;
use crate::ast::view_stmt;
use crate::ast::view_stmts;
use crate::ast::view_strings;

verus! {

/// Member access, in the model.
pub open spec fn ev_member(o: ExprV, p: Seq<char>) -> ExprV {
    ExprV::Member(Box::new(o), p)
}

/// Computed member access, in the model.
pub open spec fn ev_computed(o: ExprV, i: ExprV) -> ExprV {
    ExprV::ComputedMember(Box::new(o), Box::new(i))
}

/// A call, in the model.
pub open spec fn ev_call(f: ExprV, args: Seq<ExprV>) -> ExprV {
    ExprV::Call(Box::new(f), args)
}

/// A constructor call, in the model.
pub open spec fn ev_new(f: ExprV, args: Seq<ExprV>) -> ExprV {
    ExprV::New(Box::new(f), args)
}

/// A binary operation, in the model.
pub open spec fn ev_bin(op: BinOp, l: ExprV, r: ExprV) -> ExprV {
    ExprV::Bin(op, Box::new(l), Box::new(r))
}

/// A unary operation, in the model.
pub open spec fn ev_unary(op: UnOp, x: ExprV) -> ExprV {
    ExprV::Unary(op, Box::new(x))
}

/// A conditional, in the model.
pub open spec fn ev_cond(t: ExprV, c: ExprV, a: ExprV) -> ExprV {
    ExprV::Cond(Box::new(t), Box::new(c), Box::new(a))
}

/// A parenthesized expression, in the model.
pub open spec fn ev_paren(x: ExprV) -> ExprV {
    ExprV::Paren(Box::new(x))
}

/// An assignment, in the model.
pub open spec fn ev_assign(t: ExprV, v: ExprV) -> ExprV {
    ExprV::Assign(Box::new(t), Box::new(v))
}

/// A non-null assertion, in the model.
pub open spec fn ev_non_null(x: ExprV) -> ExprV {
    ExprV::NonNull(Box::new(x))
}

/// An arrow function with an expression body, in the model.
pub open spec fn ev_arrow_short(params: Seq<Seq<char>>, body: ExprV) -> ExprV {
    ExprV::ArrowShort(params, Box::new(body))
}

/// The shape test `typeof x === "t"`, in the model.
pub open spec fn ev_typeof(x: ExprV, t: Seq<char>) -> ExprV {
    ev_bin(BinOp::EqEqEq, ev_unary(UnOp::TypeOf, x), ExprV::StrLit(t))
}

/// An if-statement, in the model.
pub open spec fn sv_if(t: ExprV, b: StmtV) -> StmtV {
    StmtV::IfStmt(t, Box::new(b))
}

/// An identifier.
pub fn ident(s: &str) -> (e: Expr)
    ensures
        e@ == ExprV::Ident(s@),
{
    Expr::Ident(s.to_owned())
}

/// An identifier from an owned string.
pub fn ident_owned(s: String) -> (e: Expr)
    ensures
        e@ == ExprV::Ident(s@),
{
    Expr::Ident(s)
}

/// A string literal.
pub fn str_lit(s: &str) -> (e: Expr)
    ensures
        e@ == ExprV::StrLit(s@),
{
    Expr::StrLit(s.to_owned())
}

/// A string literal from an owned string.
pub fn str_lit_owned(s: String) -> (e: Expr)
    ensures
        e@ == ExprV::StrLit(s@),
{
    Expr::StrLit(s)
}

/// A member access `o.p`.
pub fn member(o: Expr, p: &str) -> (e: Expr)
    ensures
        e@ == ev_member(o@, p@),
{
    Expr::Member(Box::new(o), p.to_owned())
}

/// A member access with an owned property name.
pub fn member_owned(o: Expr, p: String) -> (e: Expr)
    ensures
        e@ == ev_member(o@, p@),
{
    Expr::Member(Box::new(o), p)
}

/// A computed member access `o[i]`.
pub fn computed_member(o: Expr, i: Expr) -> (e: Expr)
    ensures
        e@ == ev_computed(o@, i@),
{
    Expr::ComputedMember(Box::new(o), Box::new(i))
}

/// A call with no arguments.
pub fn call0(f: Expr) -> (e: Expr)
    ensures
        e@ == ev_call(f@, Seq::empty()),
{
    let args: Vec<Expr> = Vec::new();
    proof {
        assert(view_exprs(args@) =~= Seq::<ExprV>::empty());
    }
    Expr::Call(Box::new(f), args)
}

/// A call with one argument.
pub fn call1(f: Expr, a: Expr) -> (e: Expr)
    ensures
        e@ == ev_call(f@, seq![a@]),
{
    let ghost av = a@;
    let mut args: Vec<Expr> = Vec::new();
    args.push(a);
    proof {
        assert(args@.drop_last() =~= Seq::<Expr>::empty());
        assert(view_exprs(args@.drop_last()) =~= Seq::<ExprV>::empty());
        assert(view_exprs(args@) =~= seq![av]);
    }
    Expr::Call(Box::new(f), args)
}

/// A call with two arguments.
pub fn call2(f: Expr, a: Expr, b: Expr) -> (e: Expr)
    ensures
        e@ == ev_call(f@, seq![a@, b@]),
{
    let ghost av = a@;
    let ghost bv = b@;
    let mut args: Vec<Expr> = Vec::new();
    args.push(a);
    args.push(b);
    proof {
        assert(args@.drop_last().drop_last() =~= Seq::<Expr>::empty());
        assert(view_exprs(args@.drop_last().drop_last()) =~= Seq::<ExprV>::empty());
        assert(args@.drop_last().last() == args@[0]);
        assert(view_exprs(args@.drop_last()) =~= seq![av]);
        assert(view_exprs(args@) =~= seq![av, bv]);
    }
    Expr::Call(Box::new(f), args)
}

/// A constructor call with no arguments.
pub fn new0(f: Expr) -> (e: Expr)
    ensures
        e@ == ev_new(f@, Seq::empty()),
{
    let args: Vec<Expr> = Vec::new();
    proof {
        assert(view_exprs(args@) =~= Seq::<ExprV>::empty());
    }
    Expr::New(Box::new(f), args)
}

/// A constructor call with one argument.
pub fn new1(f: Expr, a: Expr) -> (e: Expr)
    ensures
        e@ == ev_new(f@, seq![a@]),
{
    let ghost av = a@;
    let mut args: Vec<Expr> = Vec::new();
    args.push(a);
    proof {
        assert(args@.drop_last() =~= Seq::<Expr>::empty());
        assert(view_exprs(args@.drop_last()) =~= Seq::<ExprV>::empty());
        assert(view_exprs(args@) =~= seq![av]);
    }
    Expr::New(Box::new(f), args)
}

/// A binary operation.
pub fn bin(op: BinOp, l: Expr, r: Expr) -> (e: Expr)
    ensures
        e@ == ev_bin(op, l@, r@),
{
    Expr::Bin(op, Box::new(l), Box::new(r))
}

/// A unary operation.
pub fn unary(op: UnOp, x: Expr) -> (e: Expr)
    ensures
        e@ == ev_unary(op, x@),
{
    Expr::Unary(op, Box::new(x))
}

/// A conditional expression.
pub fn cond(t: Expr, c: Expr, a: Expr) -> (e: Expr)
    ensures
        e@ == ev_cond(t@, c@, a@),
{
    Expr::Cond(Box::new(t), Box::new(c), Box::new(a))
}

/// A parenthesized expression.
pub fn paren(x: Expr) -> (e: Expr)
    ensures
        e@ == ev_paren(x@),
{
    Expr::Paren(Box::new(x))
}

/// An assignment.
pub fn assign(t: Expr, v: Expr) -> (e: Expr)
    ensures
        e@ == ev_assign(t@, v@),
{
    Expr::Assign(Box::new(t), Box::new(v))
}

/// A non-null assertion.
pub fn non_null(x: Expr) -> (e: Expr)
    ensures
        e@ == ev_non_null(x@),
{
    Expr::NonNull(Box::new(x))
}

/// The shape test `typeof x === "t"`.
pub fn typeof_check(x: Expr, t: &str) -> (e: Expr)
    ensures
        e@ == ev_typeof(x@, t@),
{
    bin(BinOp::EqEqEq, unary(UnOp::TypeOf, x), str_lit(t))
}

/// An arrow function with an expression body and one parameter.
pub fn arrow_short1(param: &str, body: Expr) -> (e: Expr)
    ensures
        e@ == ev_arrow_short(seq![param@], body@),
{
    let mut params: Vec<String> = Vec::new();
    params.push(param.to_owned());
    proof {
        assert(view_strings(params@) =~= seq![param@]);
    }
    Expr::ArrowShort(params, Box::new(body))
}

/// An arrow function with a statement body and one parameter.
pub fn arrow1(param: &str, body: Vec<Stmt>) -> (e: Expr)
    ensures
        e@ == ExprV::Arrow(seq![param@], view_stmts(body@)),
{
    let mut params: Vec<String> = Vec::new();
    params.push(param.to_owned());
    proof {
        assert(view_strings(params@) =~= seq![param@]);
    }
    Expr::Arrow(params, body)
}

/// An arrow function with a statement body and two parameters.
pub fn arrow2(p0: &str, p1: &str, body: Vec<Stmt>) -> (e: Expr)
    ensures
        e@ == ExprV::Arrow(seq![p0@, p1@], view_stmts(body@)),
{
    let mut params: Vec<String> = Vec::new();
    params.push(p0.to_owned());
    params.push(p1.to_owned());
    proof {
        assert(view_strings(params@) =~= seq![p0@, p1@]);
    }
    Expr::Arrow(params, body)
}

/// An if-statement.
pub fn if_stmt(t: Expr, b: Stmt) -> (s: Stmt)
    ensures
        s@ == sv_if(t@, b@),
{
    Stmt::IfStmt(t, Box::new(b))
}

/// A single statement vector.
pub fn stmts1(s0: Stmt) -> (r: Vec<Stmt>)
    ensures
        view_stmts(r@) == seq![s0@],
{
    let ghost v0 = s0@;
    let mut out: Vec<Stmt> = Vec::new();
    out.push(s0);
    proof {
        assert(out@.drop_last() =~= Seq::<Stmt>::empty());
        assert(view_stmts(out@.drop_last()) =~= Seq::<StmtV>::empty());
        assert(view_stmts(out@) =~= seq![v0]);
    }
    out
}

} // verus!
