//! The expression tree and its mathematical model.

use vstd::prelude::*;

verus! {

/// One parsed expression.
#[derive(Debug, PartialEq, Eq)]
pub enum Ast {
    /// An integer literal.
    Number(i64),
    /// A token that stands for itself; its text begins with `:`.
    Symbol(String),
    /// Zero or more expressions, in order.
    List(Vec<Ast>),
    /// The name of an operator; it only occurs as the head of a list.
    Function(String),
}

/// The value that an [`Ast`] denotes: the same tree over integers and
/// sequences of characters.
pub enum Expr {
    /// An integer.
    Number(int),
    /// A symbol, by its text.
    Symbol(Seq<char>),
    /// The expressions of a list, in order.
    List(Seq<Expr>),
    /// An operator, by its name.
    Function(Seq<char>),
}

impl View for Ast {
    type V = Expr;

    /// The tree with each number as an integer, each text as its
    /// characters and each list as the sequence of its items' views.
    open spec fn view(&self) -> Expr
        decreases self,
    {
        match self {
            Ast::Number(n) => Expr::Number(*n as int),
            Ast::Symbol(s) => Expr::Symbol(s@),
            Ast::List(items) => Expr::List(
                Seq::new(
                    items@.len(),
                    |i: int|
                        if 0 <= i < items@.len() {
                            items@[i]@
                        } else {
                            Expr::Number(0)
                        },
                ),
            ),
            Ast::Function(name) => Expr::Function(name@),
        }
    }
}

} // verus!
