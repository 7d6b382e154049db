//! The reader: from one line of text to one expression.

use crate::ast::{Ast, Expr};
use crate::number::{parse_integer, parse_integer_between};
use crate::text::{chars_of, trim, trim_bounds};
use vstd::prelude::*;
use vstd::string::*;

verus! {

/// A line that denotes no expression.
#[derive(Debug, PartialEq, Eq)]
pub struct Unreadable {
    /// The line as it was given, white space included.
    pub line: String,
}

impl Unreadable {
    /// What to tell the person who typed the line.
    pub fn message(&self) -> (r: String)
        ensures
            r@ == "not a number "@ + self.line@,
    {
        let mut r = String::from_str("not a number ");
        r.append(self.line.as_str());
        r
    }
}

/// The one call that the reader knows: the negation of 42.
pub open spec fn negation_text() -> Seq<char> {
    seq!['(', '-', ' ', '4', '2', ')']
}

/// The empty list.
pub open spec fn empty_list_text() -> Seq<char> {
    seq!['(', ')']
}

/// The expression that the call `negation_text` denotes.
pub open spec fn negation_expr() -> Expr {
    Expr::List(seq![Expr::Function(seq!['-']), Expr::Number(42)])
}

/// The expression that a line denotes, if any. White space around the
/// line's text does not count. The text is, in this order of precedence,
/// the one known call, the empty list, a symbol (whatever begins with `:`),
/// or a signed decimal integer.
pub open spec fn parse_line(line: Seq<char>) -> Option<Expr> {
    let text = trim(line);
    if text == negation_text() {
        Some(negation_expr())
    } else if text == empty_list_text() {
        Some(Expr::List(Seq::empty()))
    } else if text.len() > 0 && text[0] == ':' {
        Some(Expr::Symbol(text))
    } else {
        match parse_integer(text) {
            Some(n) => Some(Expr::Number(n)),
            None => None,
        }
    }
}

/// The shapes that a line can denote: a 64-bit integer, a symbol that
/// begins with `:`, the empty list, or the one known call. An operator's
/// name is never the whole expression.
pub open spec fn is_readable_shape(e: Expr) -> bool {
    match e {
        Expr::Number(n) => i64::MIN <= n <= i64::MAX,
        Expr::Symbol(s) => s.len() > 0 && s[0] == ':',
        Expr::List(items) => items.len() == 0 || e == negation_expr(),
        Expr::Function(_) => false,
    }
}

/// Reads one line. The result is the expression that the line denotes; a
/// line that denotes none comes back in the error, unchanged.
pub fn read(line: &str) -> (r: Result<Ast, Unreadable>)
    ensures
        match r {
            Ok(ast) => parse_line(line@) == Some(ast@) && is_readable_shape(ast@),
            Err(e) => parse_line(line@) is None && e.line@ == line@,
        },
{
    let chars = chars_of(line);
    let (lo, hi) = trim_bounds(&chars);
    let text = String::from_str(line.substring_char(lo, hi));
    assert(text@ == trim(line@));
    proof {
        reveal_strlit("(- 42)");
        reveal_strlit("()");
        reveal_strlit("-");
    }
    let negation = String::from_str("(- 42)");
    let empty_list = String::from_str("()");
    assert(negation@ =~= negation_text());
    assert(empty_list@ =~= empty_list_text());
    if text == negation {
        let operator = String::from_str("-");
        assert(operator@ =~= seq!['-']);
        let items = vec![Ast::Function(operator), Ast::Number(42)];
        let ghost held = items@;
        let ast = Ast::List(items);
        proof {
            assert(held.len() == 2);
            assert(held[0]@ == Expr::Function(seq!['-']));
            assert(held[1]@ == Expr::Number(42));
            match ast@ {
                Expr::List(s) => {
                    assert(s =~= seq![Expr::Function(seq!['-']), Expr::Number(42)]);
                },
                _ => {},
            }
        }
        Ok(ast)
    } else if text == empty_list {
        let ast = Ast::List(Vec::new());
        proof {
            match ast@ {
                Expr::List(s) => {
                    assert(s =~= Seq::empty());
                },
                _ => {},
            }
        }
        Ok(ast)
    } else if lo < hi && chars[lo] == ':' {
        Ok(Ast::Symbol(text))
    } else {
        match parse_integer_between(&chars, lo, hi) {
            Some(n) => Ok(Ast::Number(n)),
            None => Err(Unreadable { line: String::from_str(line) }),
        }
    }
}

} // verus!
