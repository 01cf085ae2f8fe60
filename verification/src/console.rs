//! Console output of the kernel, one character at a time through the SBI.
use vstd::prelude::*;

verus! {

/// The values handed to the SBI `console_putchar` call to print `text`: the
/// code point of each character, in order.
pub open spec fn putchar_codes(text: Seq<char>) -> Seq<usize> {
    text.map_values(|c: char| c as usize)
}

/// Prints `text` (already formatted): the values to hand, one after the
/// other, to the SBI `console_putchar` call.
pub fn print(text: &str) -> (codes: Vec<usize>)
    ensures
        codes@ == putchar_codes(text@),
        codes@.len() == text@.len(),
        forall|i: int| 0 <= i < text@.len() ==> #[trigger] codes@[i] == text@[i] as usize,
{
    broadcast use vstd::string::axiom_spec_iter;

    let mut codes: Vec<usize> = Vec::new();
    for c in it: text.chars()
        invariant
            it.seq() == text@,
            codes@.len() == it.index(),
            forall|j: int| 0 <= j < it.index() ==> codes@[j] == it.seq()[j] as usize,
    {
        codes.push(c as usize);
    }
    assert(codes@ =~= putchar_codes(text@));
    codes
}

} // verus!
