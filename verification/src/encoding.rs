use crate::args::Dialect;
use crate::diagnostics::{diagnostics, lemma_diagnostics_push, Diagnostic, Warning};
use vstd::prelude::*;
use vstd::std_specs::iter::IteratorSpec;

verus! {

/// Whether the runtime behind a dialect can hold a character.  XenForo
/// keeps its text in 16-bit code units, which hold the characters up to
/// U+FFFF.
pub open spec fn representable(c: char, dialect: Dialect) -> bool {
    match dialect {
        Dialect::Xenforo => (c as u32) <= 0xffff,
        Dialect::Proboards => true,
    }
}

/// One warning for each character of the text that the dialect's runtime
/// cannot hold, in the order of the text.
pub open spec fn range_violations(output: Seq<char>, dialect: Dialect) -> Seq<Diagnostic>
    decreases output.len(),
{
    if output.len() == 0 {
        Seq::empty()
    } else if representable(output.last(), dialect) {
        range_violations(output.drop_last(), dialect)
    } else {
        range_violations(output.drop_last(), dialect).push(
            Diagnostic::EncodingRangeViolation(output.last()),
        )
    }
}

/// Whether the runtime behind a dialect can hold a character.
pub fn is_representable(c: char, dialect: Dialect) -> (r: bool)
    ensures
        r == representable(c, dialect),
{
    match dialect {
        Dialect::Xenforo => c <= '\u{ffff}',
        Dialect::Proboards => true,
    }
}

/// Looks through a finished text for characters that the dialect's runtime
/// cannot hold.  The text is left as it is.
pub fn validate(output: &str, dialect: Dialect) -> (warnings: Vec<Warning>)
    ensures
        diagnostics(warnings@) == range_violations(output@, dialect),
{
    let mut warnings: Vec<Warning> = Vec::new();
    assert(diagnostics(warnings@) =~= Seq::<Diagnostic>::empty());
    assert(output@.take(0) =~= Seq::<char>::empty());
    for c in it: output.chars()
        invariant
            it.seq() == output@,
            diagnostics(warnings@) == range_violations(output@.take(it.index() as int), dialect),
    {
        let ghost seen = output@.take(it.index() + 1);
        assert(seen.drop_last() == output@.take(it.index() as int));
        assert(seen.last() == c);
        if !is_representable(c, dialect) {
            let ghost before = warnings@;
            warnings.push(Warning::EncodingRangeViolation(c));
            proof {
                lemma_diagnostics_push(before, Warning::EncodingRangeViolation(c));
            }
        }
    }
    assert(output@.take(output@.len() as int) == output@);
    warnings
}

} // verus!
