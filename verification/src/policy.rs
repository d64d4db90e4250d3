use crate::args::Dialect;
use crate::event::{HeadingRank, TagKind};
use crate::text::append_str;
use vstd::prelude::*;

verus! {

/// A marker of inline markup that stands for a construct of the dialects.
#[derive(Clone, Copy, PartialEq, Eq, Debug, Structural)]
pub enum InlineMarker {
    StrikeOpen,
    StrikeClose,
    SuperscriptOpen,
    SuperscriptClose,
    SubscriptOpen,
    SubscriptClose,
    BoldOpen,
    BoldClose,
    ItalicOpen,
    ItalicClose,
    QuoteOpen,
    QuoteClose,
    DisclosureOpen,
    DisclosureClose,
}

impl InlineMarker {
    /// Whether the marker opens its construct.
    pub open spec fn opens(self) -> bool {
        match self {
            InlineMarker::StrikeOpen
            | InlineMarker::SuperscriptOpen
            | InlineMarker::SubscriptOpen
            | InlineMarker::BoldOpen
            | InlineMarker::ItalicOpen
            | InlineMarker::QuoteOpen
            | InlineMarker::DisclosureOpen => true,
            _ => false,
        }
    }

    /// Whether the marker opens its construct.
    pub fn is_opening(self) -> (r: bool)
        ensures
            r == self.opens(),
    {
        match self {
            InlineMarker::StrikeOpen
            | InlineMarker::SuperscriptOpen
            | InlineMarker::SubscriptOpen
            | InlineMarker::BoldOpen
            | InlineMarker::ItalicOpen
            | InlineMarker::QuoteOpen
            | InlineMarker::DisclosureOpen => true,
            _ => false,
        }
    }
}

/// The marker as it stands in inline markup.
pub open spec fn marker_source(marker: InlineMarker) -> Seq<char> {
    match marker {
        InlineMarker::StrikeOpen => "<del>"@,
        InlineMarker::StrikeClose => "</del>"@,
        InlineMarker::SuperscriptOpen => "<sup>"@,
        InlineMarker::SuperscriptClose => "</sup>"@,
        InlineMarker::SubscriptOpen => "<sub>"@,
        InlineMarker::SubscriptClose => "</sub>"@,
        InlineMarker::BoldOpen => "<b>"@,
        InlineMarker::BoldClose => "</b>"@,
        InlineMarker::ItalicOpen => "<i>"@,
        InlineMarker::ItalicClose => "</i>"@,
        InlineMarker::QuoteOpen => "<blockquote>"@,
        InlineMarker::QuoteClose => "</blockquote>"@,
        InlineMarker::DisclosureOpen => "<details>"@,
        InlineMarker::DisclosureClose => "</details>"@,
    }
}

/// The name that a dialect's forum software goes by.
pub open spec fn dialect_name(dialect: Dialect) -> Seq<char> {
    match dialect {
        Dialect::Xenforo => "XenForo"@,
        Dialect::Proboards => "ProBoards"@,
    }
}

/// The digit that stands for the size of a heading's text.
pub open spec fn size_token(rank: HeadingRank) -> char {
    match rank {
        HeadingRank::H1 => '7',
        HeadingRank::H2 => '6',
        HeadingRank::H3 => '5',
        _ => '3',
    }
}

/// The mark in front of a footnote's label.
pub open spec fn label_open() -> Seq<char> {
    seq!['\u{231c}']
}

/// The mark behind a footnote's label.
pub open spec fn label_close() -> Seq<char> {
    seq!['\u{231d}']
}

/// What opens a construct in a dialect.
pub open spec fn open_markup(tag: TagKind, dialect: Dialect) -> Seq<char> {
    match tag {
        TagKind::Paragraph => "\n"@,
        TagKind::Heading(rank) => match dialect {
            Dialect::Xenforo => "\n[size=\""@.push(size_token(rank)) + "\"][b][u]"@,
            Dialect::Proboards => "\n\n[font size=\""@.push(size_token(rank)) + "\"][b][u]"@,
        },
        TagKind::BlockQuote => match dialect {
            Dialect::Xenforo => "[quote]"@,
            Dialect::Proboards => "[blockquote]"@,
        },
        TagKind::CodeBlock => match dialect {
            Dialect::Xenforo => "[code]"@,
            Dialect::Proboards => "\n[pre]"@,
        },
        TagKind::List(true) => match dialect {
            Dialect::Xenforo => "[list=1]"@,
            Dialect::Proboards => "\n[ol]"@,
        },
        TagKind::List(false) => match dialect {
            Dialect::Xenforo => "[list]"@,
            Dialect::Proboards => "\n[ul]"@,
        },
        TagKind::ListItem => match dialect {
            Dialect::Xenforo => "\n[*]"@,
            Dialect::Proboards => "\n[li]"@,
        },
        TagKind::FootnoteDefinition(label) => "\n"@ + label_open() + label@ + label_close() + ": "@,
        TagKind::Table => "[table]"@,
        TagKind::TableHead => match dialect {
            Dialect::Xenforo => "[tr]"@,
            Dialect::Proboards => "\n  [thead][tr]"@,
        },
        TagKind::TableRow => "[tr]"@,
        TagKind::TableCell => "[td]"@,
        TagKind::Emphasis => "[i]"@,
        TagKind::Strong => "[b]"@,
        TagKind::Strikethrough => "[s]"@,
        TagKind::Link(url) => match dialect {
            Dialect::Xenforo => "[url="@ + url@ + "]"@,
            Dialect::Proboards => "[a href=\""@ + url@ + "\"]"@,
        },
        TagKind::Image(url, alt) => match dialect {
            Dialect::Xenforo => "[img]"@ + url@ + "[/img]"@,
            Dialect::Proboards => "[img src=\""@ + url@ + "\" alt=\""@ + alt@ + "\"]"@,
        },
    }
}

/// What closes a construct in a dialect.
pub open spec fn close_markup(tag: TagKind, dialect: Dialect) -> Seq<char> {
    match tag {
        TagKind::Paragraph => "\n"@,
        TagKind::Heading(_) => match dialect {
            Dialect::Xenforo => "[/u][/b][/size]\n"@,
            Dialect::Proboards => "[/u][/b][/font]\n\n"@,
        },
        TagKind::BlockQuote => match dialect {
            Dialect::Xenforo => "[/quote]"@,
            Dialect::Proboards => "[/blockquote]"@,
        },
        TagKind::CodeBlock => match dialect {
            Dialect::Xenforo => "[/code]\n"@,
            Dialect::Proboards => "[/pre]\n"@,
        },
        TagKind::List(ordered) => match dialect {
            Dialect::Xenforo => "\n[/list]"@,
            Dialect::Proboards => if ordered {
                "\n[/ol]"@
            } else {
                "\n[/ul]"@
            },
        },
        TagKind::ListItem => match dialect {
            Dialect::Xenforo => Seq::empty(),
            Dialect::Proboards => "[/li]"@,
        },
        TagKind::FootnoteDefinition(_) => "\n"@,
        TagKind::Table => match dialect {
            Dialect::Xenforo => "[/table]"@,
            Dialect::Proboards => "\n  [/tbody]\n[/table]"@,
        },
        TagKind::TableHead => match dialect {
            Dialect::Xenforo => "[/tr]"@,
            Dialect::Proboards => "[/tr][/thead]\n  [tbody]"@,
        },
        TagKind::TableRow => "[/tr]"@,
        TagKind::TableCell => "[/td]"@,
        TagKind::Emphasis => "[/i]"@,
        TagKind::Strong => "[/b]"@,
        TagKind::Strikethrough => "[/s]"@,
        TagKind::Link(_) => match dialect {
            Dialect::Xenforo => "[/url]"@,
            Dialect::Proboards => "[/a]"@,
        },
        TagKind::Image(_, _) => Seq::empty(),
    }
}

/// A piece of code within a line, in a dialect.
pub open spec fn inline_code(code: Seq<char>, dialect: Dialect) -> Seq<char> {
    match dialect {
        Dialect::Xenforo => "[font=Courier New]"@ + code + "[/font]"@,
        Dialect::Proboards => "[tt]"@ + code + "[/tt]"@,
    }
}

/// A reference to a footnote, in a dialect.
pub open spec fn footnote_reference(label: Seq<char>, dialect: Dialect) -> Seq<char> {
    match dialect {
        Dialect::Xenforo => label_open() + label + label_close(),
        Dialect::Proboards => "[sup]"@ + label_open() + label + label_close() + "[/sup]"@,
    }
}

/// A horizontal rule, in a dialect.
pub open spec fn thematic_break(dialect: Dialect) -> Seq<char> {
    match dialect {
        Dialect::Xenforo =>
            "\n\u{2501}\u{2501}\u{2501}\u{2501}\u{2501}\u{2501}\u{2501}\u{2501}\u{2501}\u{2501}\u{2501}\u{2501}\u{2501}\u{2501}\u{2501}\u{2501}\u{2501}\u{2501}\u{2501}\u{2501}\u{2501}\u{2501}\u{2501}\u{2501}\u{2501}\u{2501}\u{2501}\u{2501}\u{2501}\u{2501}\u{2501}\u{2501}\n"@,
        Dialect::Proboards => "\n[hr]\n"@,
    }
}

/// The box of a task list item: the glyph and a no-break space.
pub open spec fn task_marker(checked: bool) -> Seq<char> {
    if checked {
        seq!['\u{2611}', '\u{a0}']
    } else {
        seq!['\u{2610}', '\u{a0}']
    }
}

/// What a marker of inline markup becomes in a dialect, if the dialect has
/// the construct.
pub open spec fn marker_markup(marker: InlineMarker, dialect: Dialect) -> Option<Seq<char>> {
    match marker {
        InlineMarker::StrikeOpen => Some("[s]"@),
        InlineMarker::StrikeClose => Some("[/s]"@),
        InlineMarker::SuperscriptOpen => Some("[sup]"@),
        InlineMarker::SuperscriptClose => Some("[/sup]"@),
        InlineMarker::SubscriptOpen => Some("[sub]"@),
        InlineMarker::SubscriptClose => Some("[/sub]"@),
        InlineMarker::BoldOpen => Some("[b]"@),
        InlineMarker::BoldClose => Some("[/b]"@),
        InlineMarker::ItalicOpen => Some("[i]"@),
        InlineMarker::ItalicClose => Some("[/i]"@),
        InlineMarker::QuoteOpen => match dialect {
            Dialect::Xenforo => Some("[quote]"@),
            Dialect::Proboards => Some("[blockquote]"@),
        },
        InlineMarker::QuoteClose => match dialect {
            Dialect::Xenforo => Some("[/quote]"@),
            Dialect::Proboards => Some("[/blockquote]"@),
        },
        InlineMarker::DisclosureOpen => match dialect {
            Dialect::Xenforo => Some("\n[spoiler="@),
            Dialect::Proboards => None,
        },
        InlineMarker::DisclosureClose => match dialect {
            Dialect::Xenforo => Some("[/spoiler]\n"@),
            Dialect::Proboards => None,
        },
    }
}

/// What ends the label of a disclosure, if the dialect has the construct.
pub open spec fn disclosure_label_end(dialect: Dialect) -> Option<Seq<char>> {
    match dialect {
        Dialect::Xenforo => Some("]"@),
        Dialect::Proboards => None,
    }
}

/// The marker as it stands in inline markup.
pub fn marker_source_text(marker: InlineMarker) -> (r: &'static str)
    ensures
        r@ == marker_source(marker),
{
    match marker {
        InlineMarker::StrikeOpen => "<del>",
        InlineMarker::StrikeClose => "</del>",
        InlineMarker::SuperscriptOpen => "<sup>",
        InlineMarker::SuperscriptClose => "</sup>",
        InlineMarker::SubscriptOpen => "<sub>",
        InlineMarker::SubscriptClose => "</sub>",
        InlineMarker::BoldOpen => "<b>",
        InlineMarker::BoldClose => "</b>",
        InlineMarker::ItalicOpen => "<i>",
        InlineMarker::ItalicClose => "</i>",
        InlineMarker::QuoteOpen => "<blockquote>",
        InlineMarker::QuoteClose => "</blockquote>",
        InlineMarker::DisclosureOpen => "<details>",
        InlineMarker::DisclosureClose => "</details>",
    }
}

/// The name that a dialect's forum software goes by.
pub fn dialect_name_text(dialect: Dialect) -> (r: &'static str)
    ensures
        r@ == dialect_name(dialect),
{
    match dialect {
        Dialect::Xenforo => "XenForo",
        Dialect::Proboards => "ProBoards",
    }
}

/// The digit that stands for the size of a heading's text.
pub fn size_digit(rank: HeadingRank) -> (c: char)
    ensures
        c == size_token(rank),
{
    match rank {
        HeadingRank::H1 => '7',
        HeadingRank::H2 => '6',
        HeadingRank::H3 => '5',
        _ => '3',
    }
}

/// Appends what opens a construct in a dialect.
pub fn write_open(out: &mut Vec<char>, tag: &TagKind, dialect: Dialect)
    ensures
        final(out)@ == old(out)@ + open_markup(*tag, dialect),
{
    match tag {
        TagKind::Paragraph => append_str(out, "\n"),
        TagKind::Heading(rank) => {
            match dialect {
                Dialect::Xenforo => append_str(out, "\n[size=\""),
                Dialect::Proboards => append_str(out, "\n\n[font size=\""),
            }
            out.push(size_digit(*rank));
            append_str(out, "\"][b][u]");
        },
        TagKind::BlockQuote => match dialect {
            Dialect::Xenforo => append_str(out, "[quote]"),
            Dialect::Proboards => append_str(out, "[blockquote]"),
        },
        TagKind::CodeBlock => match dialect {
            Dialect::Xenforo => append_str(out, "[code]"),
            Dialect::Proboards => append_str(out, "\n[pre]"),
        },
        TagKind::List(true) => match dialect {
            Dialect::Xenforo => append_str(out, "[list=1]"),
            Dialect::Proboards => append_str(out, "\n[ol]"),
        },
        TagKind::List(false) => match dialect {
            Dialect::Xenforo => append_str(out, "[list]"),
            Dialect::Proboards => append_str(out, "\n[ul]"),
        },
        TagKind::ListItem => match dialect {
            Dialect::Xenforo => append_str(out, "\n[*]"),
            Dialect::Proboards => append_str(out, "\n[li]"),
        },
        TagKind::FootnoteDefinition(label) => {
            append_str(out, "\n");
            out.push('\u{231c}');
            append_str(out, label.as_str());
            out.push('\u{231d}');
            append_str(out, ": ");
        },
        TagKind::Table => append_str(out, "[table]"),
        TagKind::TableHead => match dialect {
            Dialect::Xenforo => append_str(out, "[tr]"),
            Dialect::Proboards => append_str(out, "\n  [thead][tr]"),
        },
        TagKind::TableRow => append_str(out, "[tr]"),
        TagKind::TableCell => append_str(out, "[td]"),
        TagKind::Emphasis => append_str(out, "[i]"),
        TagKind::Strong => append_str(out, "[b]"),
        TagKind::Strikethrough => append_str(out, "[s]"),
        TagKind::Link(url) => match dialect {
            Dialect::Xenforo => {
                append_str(out, "[url=");
                append_str(out, url.as_str());
                append_str(out, "]");
            },
            Dialect::Proboards => {
                append_str(out, "[a href=\"");
                append_str(out, url.as_str());
                append_str(out, "\"]");
            },
        },
        TagKind::Image(url, alt) => match dialect {
            Dialect::Xenforo => {
                append_str(out, "[img]");
                append_str(out, url.as_str());
                append_str(out, "[/img]");
            },
            Dialect::Proboards => {
                append_str(out, "[img src=\"");
                append_str(out, url.as_str());
                append_str(out, "\" alt=\"");
                append_str(out, alt.as_str());
                append_str(out, "\"]");
            },
        },
    }
    assert(out@ =~= old(out)@ + open_markup(*tag, dialect));
}

/// Appends what closes a construct in a dialect.
pub fn write_close(out: &mut Vec<char>, tag: &TagKind, dialect: Dialect)
    ensures
        final(out)@ == old(out)@ + close_markup(*tag, dialect),
{
    match tag {
        TagKind::Paragraph => append_str(out, "\n"),
        TagKind::Heading(_) => match dialect {
            Dialect::Xenforo => append_str(out, "[/u][/b][/size]\n"),
            Dialect::Proboards => append_str(out, "[/u][/b][/font]\n\n"),
        },
        TagKind::BlockQuote => match dialect {
            Dialect::Xenforo => append_str(out, "[/quote]"),
            Dialect::Proboards => append_str(out, "[/blockquote]"),
        },
        TagKind::CodeBlock => match dialect {
            Dialect::Xenforo => append_str(out, "[/code]\n"),
            Dialect::Proboards => append_str(out, "[/pre]\n"),
        },
        TagKind::List(ordered) => match dialect {
            Dialect::Xenforo => append_str(out, "\n[/list]"),
            Dialect::Proboards => if *ordered {
                append_str(out, "\n[/ol]")
            } else {
                append_str(out, "\n[/ul]")
            },
        },
        TagKind::ListItem => match dialect {
            Dialect::Xenforo => (),
            Dialect::Proboards => append_str(out, "[/li]"),
        },
        TagKind::FootnoteDefinition(_) => append_str(out, "\n"),
        TagKind::Table => match dialect {
            Dialect::Xenforo => append_str(out, "[/table]"),
            Dialect::Proboards => append_str(out, "\n  [/tbody]\n[/table]"),
        },
        TagKind::TableHead => match dialect {
            Dialect::Xenforo => append_str(out, "[/tr]"),
            Dialect::Proboards => append_str(out, "[/tr][/thead]\n  [tbody]"),
        },
        TagKind::TableRow => append_str(out, "[/tr]"),
        TagKind::TableCell => append_str(out, "[/td]"),
        TagKind::Emphasis => append_str(out, "[/i]"),
        TagKind::Strong => append_str(out, "[/b]"),
        TagKind::Strikethrough => append_str(out, "[/s]"),
        TagKind::Link(_) => match dialect {
            Dialect::Xenforo => append_str(out, "[/url]"),
            Dialect::Proboards => append_str(out, "[/a]"),
        },
        TagKind::Image(_, _) => (),
    }
    assert(out@ =~= old(out)@ + close_markup(*tag, dialect));
}

/// Appends a piece of code within a line.
pub fn write_inline_code(out: &mut Vec<char>, code: &str, dialect: Dialect)
    ensures
        final(out)@ == old(out)@ + inline_code(code@, dialect),
{
    match dialect {
        Dialect::Xenforo => {
            append_str(out, "[font=Courier New]");
            append_str(out, code);
            append_str(out, "[/font]");
        },
        Dialect::Proboards => {
            append_str(out, "[tt]");
            append_str(out, code);
            append_str(out, "[/tt]");
        },
    }
    assert(out@ =~= old(out)@ + inline_code(code@, dialect));
}

/// Appends a reference to a footnote.
pub fn write_footnote_reference(out: &mut Vec<char>, label: &str, dialect: Dialect)
    ensures
        final(out)@ == old(out)@ + footnote_reference(label@, dialect),
{
    match dialect {
        Dialect::Xenforo => (),
        Dialect::Proboards => append_str(out, "[sup]"),
    }
    out.push('\u{231c}');
    append_str(out, label);
    out.push('\u{231d}');
    match dialect {
        Dialect::Xenforo => (),
        Dialect::Proboards => append_str(out, "[/sup]"),
    }
    assert(out@ =~= old(out)@ + footnote_reference(label@, dialect));
}

/// A horizontal rule, in a dialect.
pub fn rule_markup(dialect: Dialect) -> (r: &'static str)
    ensures
        r@ == thematic_break(dialect),
{
    match dialect {
        Dialect::Xenforo =>
            "\n\u{2501}\u{2501}\u{2501}\u{2501}\u{2501}\u{2501}\u{2501}\u{2501}\u{2501}\u{2501}\u{2501}\u{2501}\u{2501}\u{2501}\u{2501}\u{2501}\u{2501}\u{2501}\u{2501}\u{2501}\u{2501}\u{2501}\u{2501}\u{2501}\u{2501}\u{2501}\u{2501}\u{2501}\u{2501}\u{2501}\u{2501}\u{2501}\n",
        Dialect::Proboards => "\n[hr]\n",
    }
}

/// Appends the box of a task list item.
pub fn write_task_marker(out: &mut Vec<char>, checked: bool)
    ensures
        final(out)@ == old(out)@ + task_marker(checked),
{
    if checked {
        out.push('\u{2611}');
    } else {
        out.push('\u{2610}');
    }
    out.push('\u{a0}');
    assert(out@ =~= old(out)@ + task_marker(checked));
}

/// What a marker of inline markup becomes in a dialect, if the dialect has
/// the construct.
pub fn marker_text(marker: InlineMarker, dialect: Dialect) -> (r: Option<&'static str>)
    ensures
        r is Some <==> marker_markup(marker, dialect) is Some,
        r is Some ==> r->0@ == marker_markup(marker, dialect)->0,
{
    match marker {
        InlineMarker::StrikeOpen => Some("[s]"),
        InlineMarker::StrikeClose => Some("[/s]"),
        InlineMarker::SuperscriptOpen => Some("[sup]"),
        InlineMarker::SuperscriptClose => Some("[/sup]"),
        InlineMarker::SubscriptOpen => Some("[sub]"),
        InlineMarker::SubscriptClose => Some("[/sub]"),
        InlineMarker::BoldOpen => Some("[b]"),
        InlineMarker::BoldClose => Some("[/b]"),
        InlineMarker::ItalicOpen => Some("[i]"),
        InlineMarker::ItalicClose => Some("[/i]"),
        InlineMarker::QuoteOpen => match dialect {
            Dialect::Xenforo => Some("[quote]"),
            Dialect::Proboards => Some("[blockquote]"),
        },
        InlineMarker::QuoteClose => match dialect {
            Dialect::Xenforo => Some("[/quote]"),
            Dialect::Proboards => Some("[/blockquote]"),
        },
        InlineMarker::DisclosureOpen => match dialect {
            Dialect::Xenforo => Some("\n[spoiler="),
            Dialect::Proboards => None,
        },
        InlineMarker::DisclosureClose => match dialect {
            Dialect::Xenforo => Some("[/spoiler]\n"),
            Dialect::Proboards => None,
        },
    }
}

/// What ends the label of a disclosure, if the dialect has the construct.
pub fn label_end_text(dialect: Dialect) -> (r: Option<&'static str>)
    ensures
        r is Some <==> disclosure_label_end(dialect) is Some,
        r is Some ==> r->0@ == disclosure_label_end(dialect)->0,
{
    match dialect {
        Dialect::Xenforo => Some("]"),
        Dialect::Proboards => None,
    }
}

} // verus!
