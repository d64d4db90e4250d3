use crate::event::{DocEvent, HeadingRank, TagKind};
use pulldown_cmark::{Event, HeadingLevel, Options, Parser, Tag};
use vstd::prelude::*;

verus! {

/// The Markdown extensions that the parser is to recognise.
#[derive(Clone, Copy, Debug, PartialEq, Eq, Structural)]
pub struct ParserOptions {
    pub tables: bool,
    pub footnotes: bool,
    pub strikethrough: bool,
    pub tasklists: bool,
    pub smart_punctuation: bool,
}

/// The events that the Markdown parser yields for a source text.
pub uninterp spec fn markdown_events(input: Seq<char>, options: ParserOptions) -> Seq<DocEvent>;

/// What an event of the parser holds, in this library's vocabulary.
pub uninterp spec fn event_of(event: Event<'_>) -> DocEvent;

/// What a tag of the parser holds, in this library's vocabulary.
pub uninterp spec fn tag_of(tag: Tag<'_>) -> TagKind;

/// The rank that a heading level of the parser stands for.
pub uninterp spec fn rank_of(level: HeadingLevel) -> HeadingRank;

/// Whether a tag carries nothing besides its kind.
pub open spec fn is_bare(tag: TagKind) -> bool {
    match tag {
        TagKind::Paragraph
        | TagKind::BlockQuote
        | TagKind::ListItem
        | TagKind::TableHead
        | TagKind::TableRow
        | TagKind::TableCell
        | TagKind::Emphasis
        | TagKind::Strong
        | TagKind::Strikethrough => true,
        _ => false,
    }
}

/// Runs `pulldown_cmark::Parser::new_ext` on the input, with exactly the
/// extensions that `options` switches on, and collects what it yields.  The
/// claim: the collected events are, one by one and in order, the ones that
/// `markdown_events` names for this input and these options.
#[verifier::external_body]
fn parse<'a>(input: &'a str, options: ParserOptions) -> (r: Vec<Event<'a>>)
    ensures
        r@.len() == markdown_events(input@, options).len(),
        forall|i: int|
            0 <= i < r@.len() ==> event_of(#[trigger] r@[i]) == markdown_events(input@, options)[i],
{
    let mut flags = Options::empty();
    flags.set(Options::ENABLE_TABLES, options.tables);
    flags.set(Options::ENABLE_FOOTNOTES, options.footnotes);
    flags.set(Options::ENABLE_STRIKETHROUGH, options.strikethrough);
    flags.set(Options::ENABLE_TASKLISTS, options.tasklists);
    flags.set(Options::ENABLE_SMART_PUNCTUATION, options.smart_punctuation);
    Parser::new_ext(input, flags).collect()
}

/// Picks the tag out of `pulldown_cmark::Event::Start` and `::End`.  The
/// claim: an event opens or closes a tag exactly when something comes back,
/// which is then that tag, with `true` where the event opens it.
#[verifier::external_body]
fn tag_event<'a>(event: &Event<'a>) -> (r: Option<(bool, Tag<'a>)>)
    ensures
        match r {
            Some((true, tag)) => event_of(*event) == DocEvent::StartTag(tag_of(tag)),
            Some((false, tag)) => event_of(*event) == DocEvent::EndTag(tag_of(tag)),
            None => !(event_of(*event) is StartTag) && !(event_of(*event) is EndTag),
        },
{
    match event {
        Event::Start(tag) => Some((true, tag.clone())),
        Event::End(tag) => Some((false, tag.clone())),
        _ => None,
    }
}

/// Tells apart the variants of `pulldown_cmark::Event` that hold no tag.  The
/// claim: what comes back is the library's event of the same kind with the
/// same text or flag, and nothing comes back only for a start or end event.
#[verifier::external_body]
fn plain_event(event: &Event<'_>) -> (r: Option<DocEvent>)
    ensures
        r is Some ==> r->0 == event_of(*event) && !(r->0 is StartTag) && !(r->0 is EndTag),
        r is None ==> event_of(*event) is StartTag || event_of(*event) is EndTag,
{
    match event {
        Event::Text(text) => Some(DocEvent::Text(text.to_string())),
        Event::Code(text) => Some(DocEvent::InlineCode(text.to_string())),
        Event::Html(text) => Some(DocEvent::RawInline(text.to_string())),
        Event::FootnoteReference(label) => Some(DocEvent::FootnoteReference(label.to_string())),
        Event::SoftBreak => Some(DocEvent::SoftBreak),
        Event::HardBreak => Some(DocEvent::HardBreak),
        Event::Rule => Some(DocEvent::ThematicBreak),
        Event::TaskListMarker(checked) => Some(DocEvent::TaskListMarker(*checked)),
        _ => None,
    }
}

/// Picks the level out of `pulldown_cmark::Tag::Heading`.  The claim: a tag
/// is a heading exactly when a level comes back, and the heading's rank is
/// the one that this level stands for.
#[verifier::external_body]
fn heading_level(tag: &Tag<'_>) -> (r: Option<HeadingLevel>)
    ensures
        r is Some ==> tag_of(*tag) == TagKind::Heading(rank_of(r->0)),
        r is None ==> !(tag_of(*tag) is Heading),
{
    match tag {
        Tag::Heading(level, _, _) => Some(*level),
        _ => None,
    }
}

/// Tells the variants of `pulldown_cmark::HeadingLevel` apart.  The claim:
/// `H1` to `H6` stand for the ranks of the same names.
#[verifier::external_body]
fn heading_rank(level: HeadingLevel) -> (r: HeadingRank)
    ensures
        r == rank_of(level),
{
    match level {
        HeadingLevel::H1 => HeadingRank::H1,
        HeadingLevel::H2 => HeadingRank::H2,
        HeadingLevel::H3 => HeadingRank::H3,
        HeadingLevel::H4 => HeadingRank::H4,
        HeadingLevel::H5 => HeadingRank::H5,
        HeadingLevel::H6 => HeadingRank::H6,
    }
}

/// The library's list for a list of the parser, which says with what number
/// its first item is numbered where it is ordered.  The dialects cannot start
/// a list at a number of choice, so the number is dropped: a list with a
/// first number is ordered, whatever the number.
pub open spec fn list_tag(first: Option<u64>) -> TagKind {
    TagKind::List(first is Some)
}

/// Picks the first number out of `pulldown_cmark::Tag::List`.  The claim: a
/// tag is a list exactly when something comes back, which is then what the
/// list holds: its first number, or nothing for a list without numbers.
#[verifier::external_body]
fn list_start(tag: &Tag<'_>) -> (r: Option<Option<u64>>)
    ensures
        r is Some ==> tag_of(*tag) == list_tag(r->0),
        r is None ==> !(tag_of(*tag) is List),
{
    match tag {
        Tag::List(first) => Some(*first),
        _ => None,
    }
}

/// The library's list for a list of the parser: the first number is dropped.
pub fn list_kind(first: Option<u64>) -> (r: TagKind)
    ensures
        r == list_tag(first),
{
    TagKind::List(first.is_some())
}

/// Tells apart the other variants of `pulldown_cmark::Tag` that carry data.
/// The claim: what comes back is what the tag holds (of a link its address,
/// of an image its address and title), and nothing comes back only for a
/// heading, for a list or for a tag without data.
#[verifier::external_body]
fn data_tag(tag: &Tag<'_>) -> (r: Option<TagKind>)
    ensures
        r is Some ==> r->0 == tag_of(*tag) && !is_bare(r->0) && !(r->0 is Heading) && !(r->0
            is List),
        r is None ==> is_bare(tag_of(*tag)) || tag_of(*tag) is Heading || tag_of(*tag) is List,
{
    match tag {
        Tag::CodeBlock(_) => Some(TagKind::CodeBlock),
        Tag::FootnoteDefinition(label) => Some(TagKind::FootnoteDefinition(label.to_string())),
        Tag::Table(_) => Some(TagKind::Table),
        Tag::Link(_, url, _) => Some(TagKind::Link(url.to_string())),
        Tag::Image(_, url, title) => Some(TagKind::Image(url.to_string(), title.to_string())),
        _ => None,
    }
}

/// Tells apart the variants of `pulldown_cmark::Tag` that carry no data.  The
/// claim: what comes back is the tag's kind, and nothing comes back only for
/// a tag that carries data.
#[verifier::external_body]
fn bare_tag(tag: &Tag<'_>) -> (r: Option<TagKind>)
    ensures
        r is Some ==> r->0 == tag_of(*tag) && is_bare(r->0),
        r is None ==> !is_bare(tag_of(*tag)),
{
    match tag {
        Tag::Paragraph => Some(TagKind::Paragraph),
        Tag::BlockQuote => Some(TagKind::BlockQuote),
        Tag::Item => Some(TagKind::ListItem),
        Tag::TableHead => Some(TagKind::TableHead),
        Tag::TableRow => Some(TagKind::TableRow),
        Tag::TableCell => Some(TagKind::TableCell),
        Tag::Emphasis => Some(TagKind::Emphasis),
        Tag::Strong => Some(TagKind::Strong),
        Tag::Strikethrough => Some(TagKind::Strikethrough),
        _ => None,
    }
}

/// The library's tag for a tag of the parser.
fn tag_kind(tag: &Tag<'_>) -> (r: TagKind)
    ensures
        r == tag_of(*tag),
{
    match heading_level(tag) {
        Some(level) => TagKind::Heading(heading_rank(level)),
        None => match list_start(tag) {
            Some(first) => list_kind(first),
            None => match data_tag(tag) {
                Some(kind) => kind,
                None => match bare_tag(tag) {
                    Some(kind) => kind,
                    None => {
                        proof {
                            assert(false);
                        }
                        TagKind::Paragraph
                    },
                },
            },
        },
    }
}

/// The library's event for an event of the parser.
fn doc_event(event: &Event<'_>) -> (r: DocEvent)
    ensures
        r == event_of(*event),
{
    match tag_event(event) {
        Some((opens, tag)) => {
            let kind = tag_kind(&tag);
            if opens {
                DocEvent::StartTag(kind)
            } else {
                DocEvent::EndTag(kind)
            }
        },
        None => match plain_event(event) {
            Some(e) => e,
            None => {
                proof {
                    assert(false);
                }
                DocEvent::SoftBreak
            },
        },
    }
}

/// Parses Markdown source text into the events of the document.
pub fn parse_markdown(input: &str, options: ParserOptions) -> (events: Vec<DocEvent>)
    ensures
        events@ == markdown_events(input@, options),
{
    let parsed = parse(input, options);
    let mut events: Vec<DocEvent> = Vec::new();
    let mut i: usize = 0;
    while i < parsed.len()
        invariant
            i <= parsed@.len(),
            parsed@.len() == markdown_events(input@, options).len(),
            forall|j: int|
                0 <= j < parsed@.len() ==> event_of(#[trigger] parsed@[j]) == markdown_events(
                    input@,
                    options,
                )[j],
            events@ == markdown_events(input@, options).take(i as int),
        decreases parsed@.len() - i,
    {
        let e = doc_event(&parsed[i]);
        events.push(e);
        i += 1;
        assert(markdown_events(input@, options).take(i as int) == markdown_events(
            input@,
            options,
        ).take(i - 1).push(e));
    }
    assert(markdown_events(input@, options).take(i as int) == markdown_events(input@, options));
    events
}

} // verus!
