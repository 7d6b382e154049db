//! The evaluator: from an expression to its display text.

use crate::ast::{Ast, Expr};
use crate::number::{decimal, decimal_text};
use crate::reader::empty_list_text;
use vstd::prelude::*;
use vstd::string::*;

verus! {

/// The display text of an expression: a number's decimal text, a symbol's
/// own text, and `()` for every list, whatever it holds. An operator's name
/// has no display text of its own, as it is never evaluated by itself.
pub open spec fn display(e: Expr) -> Seq<char>
    recommends
        !(e is Function),
{
    match e {
        Expr::Number(n) => decimal(n),
        Expr::Symbol(s) => s,
        Expr::List(_) => empty_list_text(),
        Expr::Function(_) => Seq::empty(),
    }
}

/// Evaluates `ast` to its display text. An operator's name alone is no
/// expression to evaluate.
pub fn eval(ast: Ast) -> (r: String)
    requires
        !(ast is Function),
    ensures
        r@ == display(ast@),
{
    match ast {
        Ast::Number(n) => decimal_text(n),
        Ast::Symbol(s) => s,
        Ast::List(_) => {
            proof {
                reveal_strlit("()");
            }
            let r = String::from_str("()");
            assert(r@ =~= empty_list_text());
            r
        },
        Ast::Function(_) => vstd::pervasive::unreached(),
    }
}

} // verus!
