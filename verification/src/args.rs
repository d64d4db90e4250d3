use crate::markdown::ParserOptions;
use vstd::prelude::*;

verus! {

/// The forum markup that a document is rendered in.
#[derive(Clone, Copy, PartialEq, Eq, Debug, Structural)]
pub enum Dialect {
    Xenforo,
    Proboards,
}

/// What a run of the converter is configured with.
#[derive(Clone, Debug)]
pub struct Args {
    /// The dialect/flavour of BBCode to emit.
    pub dialect: Dialect,
    /// A path to the input Markdown file; standard input where there is none.
    pub input: Option<String>,
    /// A path to the output BBCode file; standard output where there is none.
    pub output: Option<String>,
    /// Enable non-CommonMark (GFM) table syntax.
    pub tables: bool,
    /// Enable non-CommonMark (GFM) footnote syntax.
    pub footnotes: bool,
    /// Enable non-CommonMark (GFM) strikethrough syntax.
    pub strikethrough: bool,
    /// Allow non-CommonMark (GFM) tasklist syntax.
    pub tasklists: bool,
    /// Enable "smart punctuation".
    pub smart_punctuation: bool,
    /// Report characters of the output that the dialect's runtime cannot hold.
    pub encoding_warnings: bool,
}

impl Args {
    /// The Markdown extensions that the arguments switch on.
    pub open spec fn parser_options(&self) -> ParserOptions {
        ParserOptions {
            tables: self.tables,
            footnotes: self.footnotes,
            strikethrough: self.strikethrough,
            tasklists: self.tasklists,
            smart_punctuation: self.smart_punctuation,
        }
    }

    /// The Markdown extensions that the arguments switch on.
    pub fn markdown_options(&self) -> (options: ParserOptions)
        ensures
            options == self.parser_options(),
    {
        ParserOptions {
            tables: self.tables,
            footnotes: self.footnotes,
            strikethrough: self.strikethrough,
            tasklists: self.tasklists,
            smart_punctuation: self.smart_punctuation,
        }
    }
}

} // verus!
