//! The printer: one result, one line.

use vstd::prelude::*;
use vstd::string::*;

verus! {

/// The line feed that ends every printed line.
pub open spec fn line_end() -> Seq<char> {
    seq!['\n']
}

/// Writes `s` and one line feed at the end of `output`.
pub fn print(output: &mut String, s: String)
    ensures
        final(output)@ == old(output)@ + s@ + line_end(),
{
    proof {
        reveal_strlit("\n");
    }
    output.append(s.as_str());
    output.append("\n");
    assert("\n"@ =~= line_end());
}

} // verus!
