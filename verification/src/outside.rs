use vstd::prelude::*;

verus! {

/// An event as the Markdown parser produces it.
#[verifier::external_type_specification]
#[verifier::external_body]
pub struct ExParserEvent<'a>(pulldown_cmark::Event<'a>);

/// A tag as the Markdown parser produces it.
#[verifier::external_type_specification]
#[verifier::external_body]
pub struct ExParserTag<'a>(pulldown_cmark::Tag<'a>);

/// A heading level as the Markdown parser produces it.
#[verifier::external_type_specification]
#[verifier::external_body]
pub struct ExParserLevel(pulldown_cmark::HeadingLevel);

} // verus!
