//! The tree model that the rewrite engine walks.
//!
//! The parsed function body is modeled as a sum type with one case per node
//! kind the traversal distinguishes: error-propagation sites, closures, nested
//! item definitions, macro-like invocations, ordinary composite nodes, and
//! atoms.  The host binding converts the front end's parsed tree into this
//! model and serializes the rewritten model back into source tokens.

use vstd::prelude::*;

verus! {

/// A source position: 1-based line and column of a token, as the host front
/// end reports it at expansion time.
#[derive(Clone, Copy, PartialEq, Eq, Structural, Debug)]
pub struct Loc {
    pub line: u32,
    pub col: u32,
}

/// One node of the modeled function body.
#[derive(PartialEq, Debug)]
pub enum Expr {
    /// An atom: a literal, a path, or any node the walk reads nothing inside.
    Leaf,
    /// An error-propagation site `inner?`; `loc` is the position of the `?`
    /// token.
    Try { inner: Box<Expr>, loc: Loc },
    /// A closure expression with its body.
    Closure { body: Box<Expr> },
    /// An item definition (for example a function) appearing as a statement
    /// inside the outer function's body.
    NestedItem { body: Box<Expr> },
    /// Any other composite node (block, call, operator, ...): its parts are
    /// always visited, in order.
    Compound { parts: ExprList },
    /// A macro-like invocation, matched by its bare name.
    MacroCall { name: String, args: MacroArgs },
    /// The wrapping construct placed around a propagation site's operand.
    /// It stands for `inner.map_err(|err| { eprintln!(fmt, err); err })`:
    /// evaluate `inner`; on failure, first write the line built from `fmt`
    /// and the error's display form to the error stream, then hand the same
    /// error on unchanged.
    Traced { inner: Box<Expr>, fmt: String },
}

/// An ordered list of sibling nodes.
#[derive(PartialEq, Debug)]
pub enum ExprList {
    Nil,
    Cons { head: Box<Expr>, tail: Box<ExprList> },
}

/// The argument tokens of a macro-like invocation.
#[derive(PartialEq, Debug)]
pub enum MacroArgs {
    /// The token sequence was reinterpreted as a comma-separated expression
    /// list.
    Parsed { items: ExprList },
    /// The token sequence was left unparsed.  For an invocation on the
    /// allow-list this records the reinterpretation failure: `loc` is the
    /// unparseable span and `msg` the parser's message.
    Raw { loc: Loc, msg: String },
}

/// Mathematical image of an [`Expr`]: strings become character sequences.
pub enum ExprV {
    Leaf,
    Try { inner: Box<ExprV>, loc: Loc },
    Closure { body: Box<ExprV> },
    NestedItem { body: Box<ExprV> },
    Compound { parts: ExprListV },
    MacroCall { name: Seq<char>, args: MacroArgsV },
    Traced { inner: Box<ExprV>, fmt: Seq<char> },
}

/// Mathematical image of an [`ExprList`].
pub enum ExprListV {
    Nil,
    Cons { head: Box<ExprV>, tail: Box<ExprListV> },
}

/// Mathematical image of a [`MacroArgs`].
pub enum MacroArgsV {
    Parsed { items: ExprListV },
    Raw { loc: Loc, msg: Seq<char> },
}

pub open spec fn expr_view(e: Expr) -> ExprV
    decreases e,
{
    match e {
        Expr::Leaf => ExprV::Leaf,
        Expr::Try { inner, loc } => ExprV::Try { inner: Box::new(expr_view(*inner)), loc },
        Expr::Closure { body } => ExprV::Closure { body: Box::new(expr_view(*body)) },
        Expr::NestedItem { body } => ExprV::NestedItem { body: Box::new(expr_view(*body)) },
        Expr::Compound { parts } => ExprV::Compound { parts: list_view(parts) },
        Expr::MacroCall { name, args } => ExprV::MacroCall {
            name: name@,
            args: args_view(args),
        },
        Expr::Traced { inner, fmt } => ExprV::Traced {
            inner: Box::new(expr_view(*inner)),
            fmt: fmt@,
        },
    }
}

pub open spec fn list_view(l: ExprList) -> ExprListV
    decreases l,
{
    match l {
        ExprList::Nil => ExprListV::Nil,
        ExprList::Cons { head, tail } => ExprListV::Cons {
            head: Box::new(expr_view(*head)),
            tail: Box::new(list_view(*tail)),
        },
    }
}

pub open spec fn args_view(a: MacroArgs) -> MacroArgsV
    decreases a,
{
    match a {
        MacroArgs::Parsed { items } => MacroArgsV::Parsed { items: list_view(items) },
        MacroArgs::Raw { loc, msg } => MacroArgsV::Raw { loc, msg: msg@ },
    }
}

impl View for Expr {
    type V = ExprV;

    open spec fn view(&self) -> ExprV {
        expr_view(*self)
    }
}

impl View for ExprList {
    type V = ExprListV;

    open spec fn view(&self) -> ExprListV {
        list_view(*self)
    }
}

impl View for MacroArgs {
    type V = MacroArgsV;

    open spec fn view(&self) -> MacroArgsV {
        args_view(*self)
    }
}

} // verus!
