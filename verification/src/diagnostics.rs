use crate::args::Dialect;
use crate::policy::{
    dialect_name, dialect_name_text, marker_source, marker_source_text, InlineMarker,
};
use crate::text::{append_hex, append_str, hex, string_of};
use vstd::prelude::*;

verus! {

/// Why a translation was given up.
#[derive(Clone, Copy, PartialEq, Eq, Debug, Structural)]
pub enum TranslationError {
    /// The label of a disclosure did not come with its closing marker in one
    /// fragment of inline markup.
    MalformedInlineMarkup,
}

/// Something worth telling the user that does not stop a translation.
#[derive(Clone, Debug, PartialEq, Eq)]
pub enum Warning {
    /// The dialect has no markup for this marker; nothing was emitted for it.
    UnsupportedConstruct(Dialect, InlineMarker),
    /// Inline markup that is not known; it was emitted as it stood.
    UnrecognizedMarkup(String),
    /// A character of the output that the dialect's runtime cannot hold.
    EncodingRangeViolation(char),
}

/// A warning, with its text as a sequence of characters.
pub ghost enum Diagnostic {
    UnsupportedConstruct(Dialect, InlineMarker),
    UnrecognizedMarkup(Seq<char>),
    EncodingRangeViolation(char),
}

impl View for Warning {
    type V = Diagnostic;

    open spec fn view(&self) -> Diagnostic {
        match self {
            Warning::UnsupportedConstruct(d, m) => Diagnostic::UnsupportedConstruct(*d, *m),
            Warning::UnrecognizedMarkup(s) => Diagnostic::UnrecognizedMarkup(s@),
            Warning::EncodingRangeViolation(c) => Diagnostic::EncodingRangeViolation(*c),
        }
    }
}

/// The warnings of a sink, each by its view.
pub open spec fn diagnostics(warnings: Seq<Warning>) -> Seq<Diagnostic> {
    warnings.map_values(|w: Warning| w@)
}

/// A warning put at the end of a sink is put at the end of its view.
pub proof fn lemma_diagnostics_push(warnings: Seq<Warning>, w: Warning)
    ensures
        diagnostics(warnings.push(w)) == diagnostics(warnings).push(w@),
{
    assert(diagnostics(warnings.push(w)) =~= diagnostics(warnings).push(w@));
}

/// What the user is told when a translation is given up.
pub open spec fn error_text(e: TranslationError) -> Seq<char> {
    match e {
        TranslationError::MalformedInlineMarkup =>
            "A `<summary>` element (including its contents) must be all on a single line"@,
    }
}

/// The line that a warning is reported with.
pub open spec fn warning_text(w: Diagnostic) -> Seq<char> {
    match w {
        Diagnostic::UnsupportedConstruct(dialect, marker) => "[[WARN]] "@ + dialect_name(dialect)
            + " doesn\u{2019}t support `"@ + marker_source(marker) + "`"@,
        Diagnostic::UnrecognizedMarkup(text) => "[[WARN]] Unrecognised HTML tag: "@ + text,
        Diagnostic::EncodingRangeViolation(c) => "[[WARN]] Non-UCS-2 character in output: '"@.push(
            c,
        ) + "' (U+"@ + hex(c as nat) + ")"@,
    }
}

impl TranslationError {
    /// What the user is told when a translation is given up.
    pub fn message(&self) -> (text: String)
        ensures
            text@ == error_text(*self),
    {
        match self {
            TranslationError::MalformedInlineMarkup =>
                "A `<summary>` element (including its contents) must be all on a single line".to_owned(),
        }
    }
}

impl Warning {
    /// The line that the warning is reported with.
    pub fn message(&self) -> (text: String)
        ensures
            text@ == warning_text(self@),
    {
        let mut line: Vec<char> = Vec::new();
        match self {
            Warning::UnsupportedConstruct(dialect, marker) => {
                append_str(&mut line, "[[WARN]] ");
                append_str(&mut line, dialect_name_text(*dialect));
                append_str(&mut line, " doesn\u{2019}t support `");
                append_str(&mut line, marker_source_text(*marker));
                append_str(&mut line, "`");
            },
            Warning::UnrecognizedMarkup(text) => {
                append_str(&mut line, "[[WARN]] Unrecognised HTML tag: ");
                append_str(&mut line, text.as_str());
            },
            Warning::EncodingRangeViolation(c) => {
                append_str(&mut line, "[[WARN]] Non-UCS-2 character in output: '");
                line.push(*c);
                append_str(&mut line, "' (U+");
                append_hex(&mut line, *c as u32);
                append_str(&mut line, ")");
            },
        }
        assert(line@ =~= warning_text(self@));
        string_of(&line)
    }
}

} // verus!
