//! One turn of the loop: read a line, evaluate it, print the result.

use crate::evaluator::{display, eval};
use crate::printer::{line_end, print};
use crate::reader::{parse_line, read, Unreadable};
use vstd::prelude::*;

verus! {

/// What is printed in answer to a line: the display text of the expression
/// that the line denotes, and a line feed. `None` where it denotes none.
pub open spec fn answer(line: Seq<char>) -> Option<Seq<char>> {
    match parse_line(line) {
        Some(e) => Some(display(e) + line_end()),
        None => None,
    }
}

/// Reads `input`, one line, and writes its answer at the end of `output`.
/// A line that denotes no expression comes back in the error, and nothing
/// is written.
pub fn repl(input: &str, output: &mut String) -> (r: Result<(), Unreadable>)
    ensures
        match answer(input@) {
            Some(text) => r is Ok && final(output)@ == old(output)@ + text,
            None => r is Err && r->Err_0.line@ == input@ && final(output)@ == old(output)@,
        },
{
    match read(input) {
        Ok(ast) => {
            let result = eval(ast);
            print(output, result);
            assert(final(output)@ =~= old(output)@ + (display(ast@) + line_end()));
            Ok(())
        },
        Err(e) => Err(e),
    }
}

} // verus!
