//! What holds of reading and evaluating, for every line.

use crate::ast::Expr;
use crate::cycle::answer;
use crate::evaluator::display;
use crate::number::{decimal, lemma_decimal_ends, lemma_parse_decimal};
use crate::printer::line_end;
use crate::reader::{empty_list_text, is_readable_shape, negation_text, parse_line};
use crate::text::{
    is_blank, is_whitespace, lemma_trim_end_keeps_head, lemma_trim_ignores_padding,
    lemma_trim_is_tight, lemma_trim_of_tight, trim,
};
use vstd::prelude::*;

verus! {

/// Whatever a line denotes has one of the readable shapes.
pub proof fn lemma_read_shapes(line: Seq<char>)
    ensures
        match parse_line(line) {
            Some(e) => is_readable_shape(e),
            None => true,
        },
{
}

/// White space around a line changes neither the expression that it
/// denotes nor the answer to it.
pub proof fn lemma_padding_ignored(pre: Seq<char>, line: Seq<char>, post: Seq<char>)
    requires
        is_blank(pre),
        is_blank(post),
    ensures
        parse_line(pre + line + post) == parse_line(line),
        answer(pre + line + post) == answer(line),
{
    lemma_trim_ignores_padding(pre, line, post);
}

/// The decimal text of a 64-bit integer, with or without white space
/// around it, denotes that integer, and the integer is displayed as that
/// same text.
pub proof fn lemma_number_round_trip(n: int, pre: Seq<char>, post: Seq<char>)
    requires
        i64::MIN <= n <= i64::MAX,
        is_blank(pre),
        is_blank(post),
    ensures
        parse_line(pre + decimal(n) + post) == Some(Expr::Number(n)),
        display(Expr::Number(n)) == decimal(n),
        answer(pre + decimal(n) + post) == Some(decimal(n) + line_end()),
{
    let text = decimal(n);
    lemma_padding_ignored(pre, text, post);
    lemma_decimal_ends(n);
    lemma_parse_decimal(n);
    lemma_trim_of_tight(text);
    assert(negation_text()[0] == '(');
    assert(empty_list_text()[0] == '(');
}

/// A text that begins with `:`, with or without white space around it,
/// denotes the symbol of that text without its trailing white space, and
/// the symbol is displayed as its own text. A text that does not end in
/// white space is kept whole.
pub proof fn lemma_symbol_round_trip(s: Seq<char>, pre: Seq<char>, post: Seq<char>)
    requires
        s.len() > 0,
        s[0] == ':',
        is_blank(pre),
        is_blank(post),
    ensures
        parse_line(pre + s + post) == Some(Expr::Symbol(trim(s))),
        display(Expr::Symbol(trim(s))) == trim(s),
        answer(pre + s + post) == Some(trim(s) + line_end()),
        trim(s).len() > 0 && trim(s)[0] == ':',
        !is_whitespace(s.last()) ==> trim(s) == s,
{
    lemma_padding_ignored(pre, s, post);
    lemma_trim_end_keeps_head(s);
    assert(negation_text()[0] == '(');
    assert(empty_list_text()[0] == '(');
}

/// The text `()`, with or without white space around it, denotes the empty
/// list, and every list, whatever it holds, is displayed as `()`.
pub proof fn lemma_lists_display_empty(pre: Seq<char>, post: Seq<char>, items: Seq<Expr>)
    requires
        is_blank(pre),
        is_blank(post),
    ensures
        parse_line(pre + empty_list_text() + post) == Some(Expr::List(Seq::empty())),
        display(Expr::List(items)) == empty_list_text(),
        answer(pre + empty_list_text() + post) == Some(empty_list_text() + line_end()),
{
    let text = empty_list_text();
    lemma_padding_ignored(pre, text, post);
    assert(text[0] == '(' && text.last() == ')');
    lemma_trim_of_tight(text);
    assert(negation_text().len() == 6);
}

/// The text `(- 42)`, with or without white space around it, denotes the
/// list of the operator `-` and the number 42.
pub proof fn lemma_negation_read(pre: Seq<char>, post: Seq<char>)
    requires
        is_blank(pre),
        is_blank(post),
    ensures
        parse_line(pre + negation_text() + post) == Some(
            Expr::List(seq![Expr::Function(seq!['-']), Expr::Number(42)]),
        ),
{
    let text = negation_text();
    lemma_padding_ignored(pre, text, post);
    assert(text[0] == '(' && text.last() == ')');
    lemma_trim_of_tight(text);
}

/// A line of white space only, the empty line among them, denotes nothing.
pub proof fn lemma_blank_line_unreadable(line: Seq<char>)
    requires
        is_blank(line),
    ensures
        parse_line(line) is None,
        answer(line) is None,
{
    lemma_trim_is_tight(line);
    assert(negation_text().len() == 6);
    assert(empty_list_text().len() == 2);
}

} // verus!
