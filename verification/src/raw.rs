use crate::args::Dialect;
use crate::diagnostics::{Diagnostic, TranslationError, Warning};
use crate::policy::{
    disclosure_label_end, label_end_text, marker_markup, marker_text, InlineMarker,
};
use crate::text::{
    chars_of, ends_with, equals, is_white_space, is_whitespace, starts_with, string_of, trim,
    trimmed,
};
use vstd::prelude::*;
use vstd::string::StringExecFns;

verus! {

/// What a fragment of inline markup is taken for.
#[derive(Clone, Copy, PartialEq, Eq, Debug, Structural)]
pub enum RawConstruct {
    /// One of the markers that the dialects have a construct for.
    Marker(InlineMarker),
    /// Something that starts like a line break.
    Break,
    /// Something that starts like the label of a disclosure.
    Summary,
    /// Anything else.
    Other,
}

/// What a fragment of inline markup is taken for, once the white space
/// around it is gone.
pub open spec fn construct_of(t: Seq<char>) -> RawConstruct {
    if t == "<del>"@ {
        RawConstruct::Marker(InlineMarker::StrikeOpen)
    } else if t == "</del>"@ {
        RawConstruct::Marker(InlineMarker::StrikeClose)
    } else if t == "<sup>"@ {
        RawConstruct::Marker(InlineMarker::SuperscriptOpen)
    } else if t == "</sup>"@ {
        RawConstruct::Marker(InlineMarker::SuperscriptClose)
    } else if t == "<sub>"@ {
        RawConstruct::Marker(InlineMarker::SubscriptOpen)
    } else if t == "</sub>"@ {
        RawConstruct::Marker(InlineMarker::SubscriptClose)
    } else if t == "<b>"@ {
        RawConstruct::Marker(InlineMarker::BoldOpen)
    } else if t == "</b>"@ {
        RawConstruct::Marker(InlineMarker::BoldClose)
    } else if t == "<i>"@ {
        RawConstruct::Marker(InlineMarker::ItalicOpen)
    } else if t == "</i>"@ {
        RawConstruct::Marker(InlineMarker::ItalicClose)
    } else if t == "<blockquote>"@ {
        RawConstruct::Marker(InlineMarker::QuoteOpen)
    } else if t == "</blockquote>"@ {
        RawConstruct::Marker(InlineMarker::QuoteClose)
    } else if t == "<details>"@ {
        RawConstruct::Marker(InlineMarker::DisclosureOpen)
    } else if t == "</details>"@ {
        RawConstruct::Marker(InlineMarker::DisclosureClose)
    } else if "<br"@.is_prefix_of(t) {
        RawConstruct::Break
    } else if "<summary"@.is_prefix_of(t) {
        RawConstruct::Summary
    } else {
        RawConstruct::Other
    }
}

/// Whether what follows `<br` makes the fragment a line break.
pub open spec fn breaks_line(t: Seq<char>) -> bool {
    t.len() > 3 && (is_white_space(t[3]) || t[3] == '/' || t[3] == '>')
}

/// Whether a character is an angle bracket.
pub open spec fn is_delimiter(c: char) -> bool {
    c == '<' || c == '>'
}

/// The place of the first angle bracket at or after `from`; the length of
/// the text where there is none.
pub open spec fn next_delimiter(s: Seq<char>, from: int) -> int
    decreases s.len() - from,
{
    if from < 0 || from >= s.len() {
        s.len() as int
    } else if is_delimiter(s[from]) {
        from
    } else {
        next_delimiter(s, from + 1)
    }
}

/// Where the piece with the given number lies, counted from zero and from
/// `from` on, when the text is cut at every angle bracket.
pub open spec fn piece_span(s: Seq<char>, from: int, n: nat) -> Option<(int, int)>
    decreases n,
{
    let d = next_delimiter(s, from);
    if n == 0 {
        Some((from, d))
    } else if d >= s.len() {
        None
    } else {
        piece_span(s, d + 1, (n - 1) as nat)
    }
}

/// The piece with the given number, counted from zero, when the text is cut
/// at every angle bracket; none where there are fewer pieces.
pub open spec fn piece(s: Seq<char>, n: nat) -> Option<Seq<char>> {
    match piece_span(s, 0, n) {
        Some((from, to)) => Some(s.subrange(from, to)),
        None => None,
    }
}

/// The text with its HTML entities decoded, as `html_escape` decodes them.
pub uninterp spec fn decoded_entities(text: Seq<char>) -> Seq<char>;

/// What a fragment of inline markup adds to a translation.
pub ghost struct RawEffect {
    pub text: Seq<char>,
    pub warning: Option<Diagnostic>,
}

/// What a fragment of inline markup adds to a translation.
#[derive(Clone, Debug, PartialEq, Eq)]
pub struct RawTranslation {
    /// The markup to emit.
    pub text: String,
    /// What to tell the user, if anything.
    pub warning: Option<Warning>,
}

impl View for RawTranslation {
    type V = RawEffect;

    open spec fn view(&self) -> RawEffect {
        RawEffect {
            text: self.text@,
            warning: match self.warning {
                Some(w) => Some(w@),
                None => None,
            },
        }
    }
}

/// Nothing emitted and nothing said.
pub open spec fn silence() -> RawEffect {
    RawEffect { text: Seq::empty(), warning: None }
}

/// The effect of a marker: its markup in the dialect; where the dialect has
/// none, nothing is emitted, and a warning is given for an opening marker.
pub open spec fn marker_effect(marker: InlineMarker, dialect: Dialect) -> RawEffect {
    match marker_markup(marker, dialect) {
        Some(text) => RawEffect { text, warning: None },
        None => RawEffect {
            text: Seq::empty(),
            warning: if marker.opens() {
                Some(Diagnostic::UnsupportedConstruct(dialect, marker))
            } else {
                None
            },
        },
    }
}

/// The effect of a fragment that starts like a line break: a new line, or
/// the fragment as it stands, with a warning.
pub open spec fn break_effect(fragment: Seq<char>) -> RawEffect {
    if breaks_line(trim(fragment)) {
        RawEffect { text: "\n"@, warning: None }
    } else {
        RawEffect { text: fragment, warning: Some(Diagnostic::UnrecognizedMarkup(trim(fragment))) }
    }
}

/// The effect of a fragment that starts like the label of a disclosure.
/// Where the dialect has the construct, the label has to end within the
/// fragment; it is then emitted with its entities decoded.
pub open spec fn summary_effect(t: Seq<char>, dialect: Dialect) -> Result<
    RawEffect,
    TranslationError,
> {
    match disclosure_label_end(dialect) {
        None => Ok(silence()),
        Some(end) => if "</summary>"@.is_suffix_of(t) {
            match piece(t, 2) {
                Some(label) => Ok(RawEffect { text: decoded_entities(label) + end, warning: None }),
                None => Err(TranslationError::MalformedInlineMarkup),
            }
        } else {
            Err(TranslationError::MalformedInlineMarkup)
        },
    }
}

/// The effect of a fragment that is not known: nothing for a comment,
/// else the fragment as it stands, with a warning.
pub open spec fn other_effect(fragment: Seq<char>) -> RawEffect {
    if "<!"@.is_prefix_of(fragment) {
        silence()
    } else {
        RawEffect { text: fragment, warning: Some(Diagnostic::UnrecognizedMarkup(fragment)) }
    }
}

/// What a fragment of inline markup adds to a translation, or the error
/// that it ends the translation with.
pub open spec fn raw_effect(fragment: Seq<char>, dialect: Dialect) -> Result<
    RawEffect,
    TranslationError,
> {
    match construct_of(trim(fragment)) {
        RawConstruct::Marker(marker) => Ok(marker_effect(marker, dialect)),
        RawConstruct::Break => Ok(break_effect(fragment)),
        RawConstruct::Summary => summary_effect(trim(fragment), dialect),
        RawConstruct::Other => Ok(other_effect(fragment)),
    }
}

/// A range of places in a text.
#[derive(Clone, Copy, PartialEq, Eq, Debug, Structural)]
pub struct Span {
    pub from: usize,
    pub to: usize,
}

/// What a fragment of inline markup is taken for, once the white space
/// around it is gone.
pub fn classify(t: &Vec<char>) -> (r: RawConstruct)
    ensures
        r == construct_of(t@),
{
    if equals(t, "<del>") {
        RawConstruct::Marker(InlineMarker::StrikeOpen)
    } else if equals(t, "</del>") {
        RawConstruct::Marker(InlineMarker::StrikeClose)
    } else if equals(t, "<sup>") {
        RawConstruct::Marker(InlineMarker::SuperscriptOpen)
    } else if equals(t, "</sup>") {
        RawConstruct::Marker(InlineMarker::SuperscriptClose)
    } else if equals(t, "<sub>") {
        RawConstruct::Marker(InlineMarker::SubscriptOpen)
    } else if equals(t, "</sub>") {
        RawConstruct::Marker(InlineMarker::SubscriptClose)
    } else if equals(t, "<b>") {
        RawConstruct::Marker(InlineMarker::BoldOpen)
    } else if equals(t, "</b>") {
        RawConstruct::Marker(InlineMarker::BoldClose)
    } else if equals(t, "<i>") {
        RawConstruct::Marker(InlineMarker::ItalicOpen)
    } else if equals(t, "</i>") {
        RawConstruct::Marker(InlineMarker::ItalicClose)
    } else if equals(t, "<blockquote>") {
        RawConstruct::Marker(InlineMarker::QuoteOpen)
    } else if equals(t, "</blockquote>") {
        RawConstruct::Marker(InlineMarker::QuoteClose)
    } else if equals(t, "<details>") {
        RawConstruct::Marker(InlineMarker::DisclosureOpen)
    } else if equals(t, "</details>") {
        RawConstruct::Marker(InlineMarker::DisclosureClose)
    } else if starts_with(t, "<br") {
        RawConstruct::Break
    } else if starts_with(t, "<summary") {
        RawConstruct::Summary
    } else {
        RawConstruct::Other
    }
}

/// Whether what follows `<br` makes the fragment a line break.
pub fn is_line_break(t: &Vec<char>) -> (r: bool)
    ensures
        r == breaks_line(t@),
{
    if t.len() > 3 {
        let c = t[3];
        is_whitespace(c) || c == '/' || c == '>'
    } else {
        false
    }
}

/// The place of the first angle bracket at or after `from`; the length of
/// the text where there is none.
pub fn find_delimiter(s: &Vec<char>, from: usize) -> (d: usize)
    ensures
        d == next_delimiter(s@, from as int),
        from <= d <= s@.len() || (from > s@.len() && d == s@.len()),
{
    let mut i: usize = from;
    while i < s.len() && !(s[i] == '<' || s[i] == '>')
        invariant
            from <= i,
            next_delimiter(s@, from as int) == next_delimiter(s@, i as int),
        decreases s@.len() - i,
    {
        i += 1;
    }
    if i < s.len() {
        i
    } else {
        s.len()
    }
}

/// Where the piece with the given number lies, counted from zero, when the
/// text is cut at every angle bracket; none where there are fewer pieces.
pub fn find_piece(s: &Vec<char>, n: usize) -> (r: Option<Span>)
    ensures
        match piece_span(s@, 0, n as nat) {
            Some((from, to)) => r is Some && r->0.from == from && r->0.to == to && from <= to
                <= s@.len(),
            None => r is None,
        },
{
    let mut from: usize = 0;
    let mut k: usize = 0;
    loop
        invariant
            k <= n,
            from <= s@.len(),
            piece_span(s@, 0, n as nat) == piece_span(s@, from as int, (n - k) as nat),
        decreases n - k,
    {
        let d = find_delimiter(s, from);
        if k == n {
            return Some(Span { from, to: d });
        }
        if d >= s.len() {
            return None;
        }
        from = d + 1;
        k += 1;
    }
}

/// Calls `html_escape::decode_html_entities_to_string` with the text and an
/// empty buffer, and hands back what it wrote to the buffer.  The claim: that
/// is the text which `decoded_entities` names for this input.
#[verifier::external_body]
fn decode_entities(text: &str) -> (r: String)
    ensures
        r@ == decoded_entities(text@),
{
    let mut decoded = String::new();
    html_escape::decode_html_entities_to_string(text, &mut decoded);
    decoded
}

/// The label of a disclosure, given with its entities decoded already:
/// the label, and what ends it in the dialect's markup.
pub fn disclosure_label(decoded: String, end: &str) -> (r: RawTranslation)
    ensures
        r@ == (RawEffect { text: decoded@ + end@, warning: None }),
{
    let mut text = decoded;
    text.append(end);
    RawTranslation { text, warning: None }
}

/// The characters of a text from one place to another.
fn slice_string(s: &Vec<char>, span: Span) -> (r: String)
    requires
        span.from <= span.to <= s@.len(),
    ensures
        r@ == s@.subrange(span.from as int, span.to as int),
{
    let mut piece: Vec<char> = Vec::new();
    let mut i: usize = span.from;
    while i < span.to
        invariant
            span.from <= i <= span.to <= s@.len(),
            piece@ == s@.subrange(span.from as int, i as int),
        decreases span.to - i,
    {
        piece.push(s[i]);
        i += 1;
        assert(s@.subrange(span.from as int, i as int) == s@.subrange(span.from as int, i - 1).push(
            s@[i - 1],
        ));
    }
    string_of(&piece)
}

/// Translates a fragment of inline markup for a dialect.
pub fn translate_raw(fragment: &str, dialect: Dialect) -> (r: Result<
    RawTranslation,
    TranslationError,
>)
    ensures
        match raw_effect(fragment@, dialect) {
            Ok(effect) => r is Ok && r->Ok_0@ == effect,
            Err(e) => r == Err::<RawTranslation, TranslationError>(e),
        },
{
    let chars = chars_of(fragment);
    let t = trimmed(&chars);
    match classify(&t) {
        RawConstruct::Marker(marker) => match marker_text(marker, dialect) {
            Some(text) => Ok(RawTranslation { text: text.to_owned(), warning: None }),
            None => Ok(
                RawTranslation {
                    text: String::new(),
                    warning: if marker.is_opening() {
                        Some(Warning::UnsupportedConstruct(dialect, marker))
                    } else {
                        None
                    },
                },
            ),
        },
        RawConstruct::Break => if is_line_break(&t) {
            Ok(RawTranslation { text: "\n".to_owned(), warning: None })
        } else {
            Ok(
                RawTranslation {
                    text: fragment.to_owned(),
                    warning: Some(Warning::UnrecognizedMarkup(string_of(&t))),
                },
            )
        },
        RawConstruct::Summary => match label_end_text(dialect) {
            None => Ok(RawTranslation { text: String::new(), warning: None }),
            Some(end) => if ends_with(&t, "</summary>") {
                match find_piece(&t, 2) {
                    Some(span) => {
                        let label = slice_string(&t, span);
                        Ok(disclosure_label(decode_entities(label.as_str()), end))
                    },
                    None => Err(TranslationError::MalformedInlineMarkup),
                }
            } else {
                Err(TranslationError::MalformedInlineMarkup)
            },
        },
        RawConstruct::Other => if starts_with(&chars, "<!") {
            Ok(RawTranslation { text: String::new(), warning: None })
        } else {
            Ok(
                RawTranslation {
                    text: fragment.to_owned(),
                    warning: Some(Warning::UnrecognizedMarkup(fragment.to_owned())),
                },
            )
        },
    }
}

} // verus!
