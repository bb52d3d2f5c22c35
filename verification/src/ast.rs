//! The syntax tree of the emitted program. The generator's output is a
//! fragment of this tree per compilation unit; rendering the tree to source
//! text is a downstream concern. Every node is mirrored by a mathematical
//! model (`ExprV`, `StmtV`, ...) through a deep view, so that contracts can
//! state exactly which tree a generation step produces.

use vstd::prelude::*;

verus! {

broadcast use vstd::std_specs::vec::group_vec_axioms, vstd::seq::group_seq_axioms;

/// Binary operators of the emitted language that the generator uses.
#[derive(Clone, Copy, PartialEq, Eq, Structural, Debug)]
pub enum BinOp {
    /// strict equality `===`
    EqEqEq,
    /// strict inequality `!==`
    NotEqEq,
    /// `>=`
    GtEq,
    /// `<=`
    LtEq,
    /// logical `&&`
    And,
    /// logical `||`
    Or,
    /// membership test `in`
    In,
}

/// Unary operators of the emitted language that the generator uses.
#[derive(Clone, Copy, PartialEq, Eq, Structural, Debug)]
pub enum UnOp {
    /// logical negation `!`
    Not,
    /// `typeof`
    TypeOf,
    /// numeric coercion `+`
    Plus,
}

/// An expression of the emitted program.
#[derive(PartialEq, Eq, Debug)]
pub enum Expr {
    /// An identifier, also used for verbatim expression text.
    Ident(String),
    /// A string literal.
    StrLit(String),
    /// A numeric literal that fits the target's number type exactly.
    NumLit(i64),
    /// A numeric literal kept as its textual (exponent) form.
    NumText(String),
    /// A big-integer literal (the target's arbitrary-precision kind).
    BigIntLit(i128),
    /// A boolean literal.
    BoolLit(bool),
    /// A member access `object.property`.
    Member(Box<Expr>, String),
    /// A computed member access `object[index]`.
    ComputedMember(Box<Expr>, Box<Expr>),
    /// A call `callee(args...)`.
    Call(Box<Expr>, Vec<Expr>),
    /// A constructor call `new callee(args...)`.
    New(Box<Expr>, Vec<Expr>),
    /// A binary operation.
    Bin(BinOp, Box<Expr>, Box<Expr>),
    /// A unary operation.
    Unary(UnOp, Box<Expr>),
    /// A conditional `test ? consequent : alternate`.
    Cond(Box<Expr>, Box<Expr>, Box<Expr>),
    /// An arrow function with a statement body.
    Arrow(Vec<String>, Vec<Stmt>),
    /// An arrow function whose body is a single expression.
    ArrowShort(Vec<String>, Box<Expr>),
    /// A parenthesized expression.
    Paren(Box<Expr>),
    /// An assignment `target = value`.
    Assign(Box<Expr>, Box<Expr>),
    /// A non-null assertion `expression!`.
    NonNull(Box<Expr>),
}

/// A statement of the emitted program.
#[derive(PartialEq, Eq, Debug)]
pub enum Stmt {
    /// An expression statement.
    ExprStmt(Expr),
    /// `if (test) body`.
    IfStmt(Expr, Box<Stmt>),
    /// A block `{ ... }`.
    Block(Vec<Stmt>),
    /// `throw expression;`.
    Throw(Expr),
    /// `return expression;`.
    Ret(Expr),
    /// `const text = init;` where `text` carries the binding and annotation.
    ConstDecl(String, Expr),
    /// `for (const binding of iterable) { body }`.
    ForOf(String, Expr, Vec<Stmt>),
}

/// The model of an expression: the same shape over mathematical strings.
pub enum ExprV {
    Ident(Seq<char>),
    StrLit(Seq<char>),
    NumLit(i64),
    NumText(Seq<char>),
    BigIntLit(i128),
    BoolLit(bool),
    Member(Box<ExprV>, Seq<char>),
    ComputedMember(Box<ExprV>, Box<ExprV>),
    Call(Box<ExprV>, Seq<ExprV>),
    New(Box<ExprV>, Seq<ExprV>),
    Bin(BinOp, Box<ExprV>, Box<ExprV>),
    Unary(UnOp, Box<ExprV>),
    Cond(Box<ExprV>, Box<ExprV>, Box<ExprV>),
    Arrow(Seq<Seq<char>>, Seq<StmtV>),
    ArrowShort(Seq<Seq<char>>, Box<ExprV>),
    Paren(Box<ExprV>),
    Assign(Box<ExprV>, Box<ExprV>),
    NonNull(Box<ExprV>),
}

/// The model of a statement.
pub enum StmtV {
    ExprStmt(ExprV),
    IfStmt(ExprV, Box<StmtV>),
    Block(Seq<StmtV>),
    Throw(ExprV),
    Ret(ExprV),
    ConstDecl(Seq<char>, ExprV),
    ForOf(Seq<char>, ExprV, Seq<StmtV>),
}

/// The views of a sequence of strings.
pub open spec fn view_strings(ss: Seq<String>) -> Seq<Seq<char>> {
    ss.map_values(|s: String| s@)
}

/// The deep view of an expression.
pub open spec fn view_expr(e: Expr) -> ExprV
    decreases e,
{
    match e {
        Expr::Ident(s) => ExprV::Ident(s@),
        Expr::StrLit(s) => ExprV::StrLit(s@),
        Expr::NumLit(n) => ExprV::NumLit(n),
        Expr::NumText(s) => ExprV::NumText(s@),
        Expr::BigIntLit(n) => ExprV::BigIntLit(n),
        Expr::BoolLit(b) => ExprV::BoolLit(b),
        Expr::Member(o, p) => ExprV::Member(Box::new(view_expr(*o)), p@),
        Expr::ComputedMember(o, i) => ExprV::ComputedMember(
            Box::new(view_expr(*o)),
            Box::new(view_expr(*i)),
        ),
        Expr::Call(f, a) => ExprV::Call(Box::new(view_expr(*f)), view_exprs(a@)),
        Expr::New(f, a) => ExprV::New(Box::new(view_expr(*f)), view_exprs(a@)),
        Expr::Bin(op, l, r) => ExprV::Bin(op, Box::new(view_expr(*l)), Box::new(view_expr(*r))),
        Expr::Unary(op, x) => ExprV::Unary(op, Box::new(view_expr(*x))),
        Expr::Cond(t, c, a) => ExprV::Cond(
            Box::new(view_expr(*t)),
            Box::new(view_expr(*c)),
            Box::new(view_expr(*a)),
        ),
        Expr::Arrow(ps, body) => ExprV::Arrow(view_strings(ps@), view_stmts(body@)),
        Expr::ArrowShort(ps, body) => ExprV::ArrowShort(
            view_strings(ps@),
            Box::new(view_expr(*body)),
        ),
        Expr::Paren(x) => ExprV::Paren(Box::new(view_expr(*x))),
        Expr::Assign(t, v) => ExprV::Assign(Box::new(view_expr(*t)), Box::new(view_expr(*v))),
        Expr::NonNull(x) => ExprV::NonNull(Box::new(view_expr(*x))),
    }
}

/// The deep view of a sequence of expressions.
pub open spec fn view_exprs(es: Seq<Expr>) -> Seq<ExprV>
    decreases es,
{
    if es.len() == 0 {
        Seq::empty()
    } else {
        view_exprs(es.drop_last()).push(view_expr(es.last()))
    }
}

/// The deep view of a statement.
pub open spec fn view_stmt(s: Stmt) -> StmtV
    decreases s,
{
    match s {
        Stmt::ExprStmt(e) => StmtV::ExprStmt(view_expr(e)),
        Stmt::IfStmt(t, b) => StmtV::IfStmt(view_expr(t), Box::new(view_stmt(*b))),
        Stmt::Block(ss) => StmtV::Block(view_stmts(ss@)),
        Stmt::Throw(e) => StmtV::Throw(view_expr(e)),
        Stmt::Ret(e) => StmtV::Ret(view_expr(e)),
        Stmt::ConstDecl(t, e) => StmtV::ConstDecl(t@, view_expr(e)),
        Stmt::ForOf(b, e, ss) => StmtV::ForOf(b@, view_expr(e), view_stmts(ss@)),
    }
}

/// The deep view of a sequence of statements.
pub open spec fn view_stmts(ss: Seq<Stmt>) -> Seq<StmtV>
    decreases ss,
{
    if ss.len() == 0 {
        Seq::empty()
    } else {
        view_stmts(ss.drop_last()).push(view_stmt(ss.last()))
    }
}

impl View for Expr {
    type V = ExprV;

    open spec fn view(&self) -> ExprV {
        view_expr(*self)
    }
}

impl View for Stmt {
    type V = StmtV;

    open spec fn view(&self) -> StmtV {
        view_stmt(*self)
    }
}

/// The view of a sequence of expressions is pointwise.
pub proof fn lemma_view_exprs_pointwise(es: Seq<Expr>)
    ensures
        view_exprs(es).len() == es.len(),
        forall|i: int| 0 <= i < es.len() ==> view_exprs(es)[i] == view_expr(es[i]),
    decreases es.len(),
{
    if es.len() > 0 {
        lemma_view_exprs_pointwise(es.drop_last());
    }
}

/// The view of a sequence of statements is pointwise.
pub proof fn lemma_view_stmts_pointwise(ss: Seq<Stmt>)
    ensures
        view_stmts(ss).len() == ss.len(),
        forall|i: int| 0 <= i < ss.len() ==> view_stmts(ss)[i] == view_stmt(ss[i]),
    decreases ss.len(),
{
    if ss.len() > 0 {
        lemma_view_stmts_pointwise(ss.drop_last());
    }
}

/// One import declaration of the emitted program: a named specifier list and
/// the source it is imported from.
#[derive(PartialEq, Eq, Debug)]
pub struct ImportDecl {
    pub specifier: String,
    pub src: String,
}

/// The model of an import declaration.
pub struct ImportDeclV {
    pub specifier: Seq<char>,
    pub src: Seq<char>,
}

impl View for ImportDecl {
    type V = ImportDeclV;

    open spec fn view(&self) -> ImportDeclV {
        ImportDeclV { specifier: self.specifier@, src: self.src@ }
    }
}

impl DeepView for ImportDecl {
    type V = ImportDeclV;

    open spec fn deep_view(&self) -> ImportDeclV {
        self.view()
    }
}

impl Clone for ImportDecl {
    fn clone(&self) -> (res: Self)
        ensures
            res@ == self@,
    {
        ImportDecl { specifier: self.specifier.clone(), src: self.src.clone() }
    }
}

/// One method of an emitted class.
#[derive(PartialEq, Eq, Debug)]
pub struct MethodDef {
    pub name: String,
    pub is_static: bool,
    pub params: Vec<String>,
    pub ret_type: Option<String>,
    pub body: Vec<Stmt>,
}

/// The model of a method.
pub struct MethodDefV {
    pub name: Seq<char>,
    pub is_static: bool,
    pub params: Seq<Seq<char>>,
    pub ret_type: Option<Seq<char>>,
    pub body: Seq<StmtV>,
}

impl View for MethodDef {
    type V = MethodDefV;

    open spec fn view(&self) -> MethodDefV {
        MethodDefV {
            name: self.name@,
            is_static: self.is_static,
            params: view_strings(self.params@),
            ret_type: match self.ret_type {
                Some(ref s) => Some(s@),
                None => None,
            },
            body: view_stmts(self.body@),
        }
    }
}

/// One member of an emitted class.
#[derive(PartialEq, Eq, Debug)]
pub enum ClassMember {
    Method(MethodDef),
}

/// The model of a class member.
pub enum ClassMemberV {
    Method(MethodDefV),
}

impl View for ClassMember {
    type V = ClassMemberV;

    open spec fn view(&self) -> ClassMemberV {
        match self {
            ClassMember::Method(m) => ClassMemberV::Method(m@),
        }
    }
}

impl DeepView for ClassMember {
    type V = ClassMemberV;

    open spec fn deep_view(&self) -> ClassMemberV {
        self.view()
    }
}

/// One item of an emitted compilation unit.
#[derive(PartialEq, Eq, Debug)]
pub enum ModuleItem {
    /// An import declaration.
    Import(ImportDecl),
    /// A module-level statement.
    Stmt(Stmt),
    /// A namespace construct wrapping nested items.
    Namespace(String, Vec<ModuleItem>),
}

/// The model of a module item.
pub enum ModuleItemV {
    Import(ImportDeclV),
    Stmt(StmtV),
    Namespace(Seq<char>, Seq<ModuleItemV>),
}

/// The deep view of a module item.
pub open spec fn view_module_item(m: ModuleItem) -> ModuleItemV
    decreases m,
{
    match m {
        ModuleItem::Import(d) => ModuleItemV::Import(d@),
        ModuleItem::Stmt(s) => ModuleItemV::Stmt(view_stmt(s)),
        ModuleItem::Namespace(n, items) => ModuleItemV::Namespace(n@, view_module_items(items@)),
    }
}

/// The deep view of a sequence of module items.
pub open spec fn view_module_items(ms: Seq<ModuleItem>) -> Seq<ModuleItemV>
    decreases ms,
{
    if ms.len() == 0 {
        Seq::empty()
    } else {
        view_module_items(ms.drop_last()).push(view_module_item(ms.last()))
    }
}

impl View for ModuleItem {
    type V = ModuleItemV;

    open spec fn view(&self) -> ModuleItemV {
        view_module_item(*self)
    }
}

impl DeepView for ModuleItem {
    type V = ModuleItemV;

    open spec fn deep_view(&self) -> ModuleItemV {
        self.view()
    }
}

/// The view of a sequence of module items is pointwise.
pub proof fn lemma_view_module_items_pointwise(ms: Seq<ModuleItem>)
    ensures
        view_module_items(ms).len() == ms.len(),
        forall|i: int| 0 <= i < ms.len() ==> view_module_items(ms)[i] == view_module_item(ms[i]),
    decreases ms.len(),
{
    if ms.len() > 0 {
        lemma_view_module_items_pointwise(ms.drop_last());
    }
}

} // verus!
