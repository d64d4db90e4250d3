use crate::args::Dialect;
use crate::balance::lemma_markup_goes_by_shape;
use crate::diagnostics::{Diagnostic, TranslationError};
use crate::event::{DocEvent, HeadingRank, TagKind};
use crate::markdown::list_tag;
use crate::policy::{close_markup, disclosure_label_end, open_markup, size_token};
use crate::raw::{
    construct_of, decoded_entities, is_delimiter, next_delimiter, piece, piece_span, raw_effect,
    silence, RawConstruct, RawEffect,
};
use crate::text::{is_white_space, trim, trim_end};
use crate::translate::{
    advance, after_end, after_event, after_start, lemma_run_in_parts, quiet, run_from, Run, Step,
    TranslatorState,
};
use vstd::prelude::*;

verus! {

/// The size of a heading's text never grows as the level goes down from 1 to
/// 6.
pub proof fn lemma_heading_sizes_fall(a: HeadingRank, b: HeadingRank)
    requires
        a.number() <= b.number(),
    ensures
        size_token(a) as int >= size_token(b) as int,
{
}

/// The levels 4 to 6 are rendered alike, in every dialect.
pub proof fn lemma_small_headings_collapse(a: HeadingRank, b: HeadingRank, dialect: Dialect)
    requires
        a.number() >= 4,
        b.number() >= 4,
    ensures
        size_token(a) == size_token(b),
        open_markup(TagKind::Heading(a), dialect) == open_markup(TagKind::Heading(b), dialect),
        close_markup(TagKind::Heading(a), dialect) == close_markup(TagKind::Heading(b), dialect),
{
}

/// The number that an ordered list starts at is dropped: lists that differ
/// only in it are the same construct, with the markup of an ordered list.
pub proof fn lemma_start_number_is_dropped(a: u64, b: u64, dialect: Dialect)
    ensures
        list_tag(Some(a)) == list_tag(Some(b)),
        list_tag(Some(a)) == TagKind::List(true),
        list_tag(None) == TagKind::List(false),
        open_markup(list_tag(Some(a)), dialect) == open_markup(TagKind::List(true), dialect),
        close_markup(list_tag(Some(a)), dialect) == close_markup(TagKind::List(true), dialect),
{
}

/// Whatever has been translated before, and however deep the document is
/// nested: opening a construct emits exactly its opening markup, and closing
/// it emits exactly the closing markup of the same construct.  The two
/// exceptions are the ones that the state is kept for: the blank line before
/// a paragraph is left out where the paragraph is the first content of a list
/// item or of a footnote definition, and the white space at the end of a list
/// item goes before the item is closed.
pub proof fn lemma_tags_emit_their_markup(s: TranslatorState, tag: TagKind, dialect: Dialect)
    ensures
        after_event(s, DocEvent::StartTag(tag), dialect) is Ok,
        after_event(s, DocEvent::EndTag(tag), dialect) is Ok,
        !(tag is Paragraph && (s.pending_item_open || s.pending_footnote_open)) ==> after_start(
            s,
            tag,
            dialect,
        ).output == s.output + open_markup(tag, dialect),
        tag is Paragraph && (s.pending_item_open || s.pending_footnote_open) ==> after_start(
            s,
            tag,
            dialect,
        ).output == s.output,
        !(tag is ListItem) ==> after_end(s, tag, dialect).output == s.output + close_markup(
            tag,
            dialect,
        ),
        tag is ListItem ==> after_end(s, tag, dialect).output == trim_end(s.output) + close_markup(
            tag,
            dialect,
        ),
{
}

/// A construct around any content, at any depth of nesting: the content
/// goes on in the state that the opening of the construct leaves, and the
/// closing markup of the construct follows what the content has emitted
/// (for a list item, once the white space at its end is gone).
pub proof fn lemma_construct_wraps_its_content(
    start: Run,
    tag: TagKind,
    end: TagKind,
    content: Seq<DocEvent>,
    dialect: Dialect,
)
    requires
        end@ == tag@,
        start.failure is None,
        run_from(advance(start, DocEvent::StartTag(tag), dialect), content, dialect).failure
            is None,
    ensures
        ({
            let opened = advance(start, DocEvent::StartTag(tag), dialect);
            let inner = run_from(opened, content, dialect);
            let whole = run_from(
                start,
                seq![DocEvent::StartTag(tag)] + content + seq![DocEvent::EndTag(end)],
                dialect,
            );
            &&& opened.state == after_start(start.state, tag, dialect)
            &&& whole.failure is None
            &&& whole.warnings == inner.warnings
            &&& whole.state.output == if tag is ListItem {
                trim_end(inner.state.output) + close_markup(tag, dialect)
            } else {
                inner.state.output + close_markup(tag, dialect)
            }
        }),
{
    let first = seq![DocEvent::StartTag(tag)];
    let last = seq![DocEvent::EndTag(end)];
    lemma_markup_goes_by_shape(tag, end, dialect);
    lemma_run_in_parts(start, first + content, last, dialect);
    lemma_run_in_parts(start, first, content, dialect);
    assert(first.drop_last() =~= Seq::<DocEvent>::empty());
    assert(last.drop_last() =~= Seq::<DocEvent>::empty());
    reveal_with_fuel(run_from, 2);
    let opened = advance(start, DocEvent::StartTag(tag), dialect);
    assert(run_from(start, first, dialect) == advance(start, first[0], dialect));
    let inner = run_from(opened, content, dialect);
    assert(run_from(inner, last, dialect) == advance(inner, last[0], dialect));
    assert(inner.warnings + Seq::<Diagnostic>::empty() =~= inner.warnings);
}

/// Steps keep the state well formed: at most one construct waits for its
/// first content.
pub proof fn lemma_steps_keep_well_formed(s: TranslatorState, event: DocEvent, dialect: Dialect)
    requires
        s.well_formed(),
    ensures
        after_event(s, event, dialect) is Ok ==> after_event(
            s,
            event,
            dialect,
        )->Ok_0.state.well_formed(),
{
}

/// A list item and its first paragraph: the item's marker is emitted once,
/// and the paragraph's content follows it with no blank line in between.
pub proof fn lemma_item_then_paragraph(s: TranslatorState, dialect: Dialect)
    ensures
        after_start(after_start(s, TagKind::ListItem, dialect), TagKind::Paragraph, dialect).output
            == s.output + open_markup(TagKind::ListItem, dialect),
{
}

/// The events of a list item that holds one piece of text, in a paragraph
/// of its own where the list is loose.
pub open spec fn item_events(body: String, loose: bool) -> Seq<DocEvent> {
    if loose {
        seq![
            DocEvent::StartTag(TagKind::ListItem),
            DocEvent::StartTag(TagKind::Paragraph),
            DocEvent::Text(body),
            DocEvent::EndTag(TagKind::Paragraph),
            DocEvent::EndTag(TagKind::ListItem),
        ]
    } else {
        seq![
            DocEvent::StartTag(TagKind::ListItem),
            DocEvent::Text(body),
            DocEvent::EndTag(TagKind::ListItem),
        ]
    }
}

/// The events of the items of a list, one after the other.
pub open spec fn items_events(items: Seq<String>, loose: bool) -> Seq<DocEvent>
    decreases items.len(),
{
    if items.len() == 0 {
        Seq::empty()
    } else {
        items_events(items.drop_last(), loose) + item_events(items.last(), loose)
    }
}

/// The events of a list whose items hold one piece of text each.
pub open spec fn list_events(items: Seq<String>, ordered: bool, loose: bool) -> Seq<DocEvent> {
    seq![DocEvent::StartTag(TagKind::List(ordered))] + items_events(items, loose)
        + seq![DocEvent::EndTag(TagKind::List(ordered))]
}

/// The markup of the items of a list: for each item its opening marker, its
/// text without the white space at the end, and its closing marker.
pub open spec fn items_markup(items: Seq<String>, dialect: Dialect) -> Seq<char>
    decreases items.len(),
{
    if items.len() == 0 {
        Seq::empty()
    } else {
        items_markup(items.drop_last(), dialect) + open_markup(TagKind::ListItem, dialect)
            + trim_end(items.last()@) + close_markup(TagKind::ListItem, dialect)
    }
}

/// White space is taken from the end of a text only as far as the text
/// holds white space: what stands before another character stays.
pub proof fn lemma_trim_end_stops(a: Seq<char>, b: Seq<char>)
    requires
        a.len() > 0,
        !is_white_space(a.last()),
    ensures
        trim_end(a + b) == a + trim_end(b),
    decreases b.len(),
{
    if b.len() == 0 {
        assert(a + b =~= a);
    } else if is_white_space(b.last()) {
        assert((a + b).drop_last() =~= a + b.drop_last());
        lemma_trim_end_stops(a, b.drop_last());
    }
}

/// The opening marker of a list item ends with a bracket in every dialect.
proof fn lemma_item_marker_ends_tight(dialect: Dialect)
    ensures
        open_markup(TagKind::ListItem, dialect).len() > 0,
        open_markup(TagKind::ListItem, dialect).last() == ']',
{
    reveal_strlit("\n[*]");
    reveal_strlit("\n[li]");
}

/// One list item more: its marker, its text without the white space at the
/// end, and its closing marker are put behind what was there; nothing else
/// changes.
proof fn lemma_one_item(start: Run, body: String, loose: bool, dialect: Dialect)
    requires
        start.failure is None,
    ensures
        run_from(start, item_events(body, loose), dialect).failure is None,
        run_from(start, item_events(body, loose), dialect).warnings == start.warnings,
        run_from(start, item_events(body, loose), dialect).state.output == start.state.output
            + open_markup(TagKind::ListItem, dialect) + trim_end(body@) + close_markup(
            TagKind::ListItem,
            dialect,
        ),
{
    let events = item_events(body, loose);
    let open = open_markup(TagKind::ListItem, dialect);
    let marked = start.state.output + open;
    lemma_item_marker_ends_tight(dialect);
    assert(marked.last() == ']');
    reveal_strlit("\n");
    let r0 = start;
    let r1 = advance(r0, events[0], dialect);
    assert(r1.warnings =~= start.warnings);
    assert(r1.state.output == marked);
    if loose {
        let r2 = advance(r1, events[1], dialect);
        let r3 = advance(r2, events[2], dialect);
        let r4 = advance(r3, events[3], dialect);
        let r5 = advance(r4, events[4], dialect);
        assert(r2.state.output == marked);
        assert(r4.state.output =~= marked + (body@ + "\n"@));
        assert((body@ + "\n"@).drop_last() =~= body@);
        lemma_trim_end_stops(marked, body@ + "\n"@);
        assert(r5.warnings =~= start.warnings);
        assert(events.drop_last().drop_last().drop_last().drop_last().drop_last() =~= Seq::<
            DocEvent,
        >::empty());
        reveal_with_fuel(run_from, 6);
        assert(run_from(start, events, dialect) == r5);
    } else {
        let r2 = advance(r1, events[1], dialect);
        let r3 = advance(r2, events[2], dialect);
        assert(r2.state.output =~= marked + body@);
        lemma_trim_end_stops(marked, body@);
        assert(r3.warnings =~= start.warnings);
        assert(events.drop_last().drop_last().drop_last() =~= Seq::<DocEvent>::empty());
        reveal_with_fuel(run_from, 4);
        assert(run_from(start, events, dialect) == r3);
    }
}

/// The items of a list, one after the other: for each of them exactly one
/// opening marker and one closing marker are emitted, with the item's text
/// in between.
proof fn lemma_items(start: Run, items: Seq<String>, loose: bool, dialect: Dialect)
    requires
        start.failure is None,
    ensures
        run_from(start, items_events(items, loose), dialect).failure is None,
        run_from(start, items_events(items, loose), dialect).warnings == start.warnings,
        run_from(start, items_events(items, loose), dialect).state.output == start.state.output
            + items_markup(items, dialect),
    decreases items.len(),
{
    if items.len() == 0 {
        assert(start.state.output + items_markup(items, dialect) =~= start.state.output);
    } else {
        let before = items_events(items.drop_last(), loose);
        lemma_items(start, items.drop_last(), loose, dialect);
        lemma_run_in_parts(start, before, item_events(items.last(), loose), dialect);
        lemma_one_item(run_from(start, before, dialect), items.last(), loose, dialect);
        assert(start.state.output + items_markup(items.drop_last(), dialect) + open_markup(
            TagKind::ListItem,
            dialect,
        ) + trim_end(items.last()@) + close_markup(TagKind::ListItem, dialect)
            =~= start.state.output + items_markup(items, dialect));
    }
}

/// A list of any number of items, wherever it stands in a document: the
/// list is opened, each item gets exactly one opening marker and one closing
/// marker (which is empty in a dialect that has none), and the list is
/// closed.  No blank line stands between an item's marker and its text, and
/// no white space between its text and what follows.  Nothing is said to the
/// user.  The items are the ones that hold one piece of text each.
pub proof fn lemma_list_markup(
    start: Run,
    items: Seq<String>,
    ordered: bool,
    loose: bool,
    dialect: Dialect,
)
    requires
        start.failure is None,
    ensures
        run_from(start, list_events(items, ordered, loose), dialect).failure is None,
        run_from(start, list_events(items, ordered, loose), dialect).warnings == start.warnings,
        run_from(start, list_events(items, ordered, loose), dialect).state.output
            == start.state.output + open_markup(TagKind::List(ordered), dialect) + items_markup(
            items,
            dialect,
        ) + close_markup(TagKind::List(ordered), dialect),
{
    let first = seq![DocEvent::StartTag(TagKind::List(ordered))];
    let body = items_events(items, loose);
    let last = seq![DocEvent::EndTag(TagKind::List(ordered))];
    lemma_run_in_parts(start, first + body, last, dialect);
    lemma_run_in_parts(start, first, body, dialect);
    let r1 = run_from(start, first, dialect);
    assert(first.drop_last() =~= Seq::<DocEvent>::empty());
    reveal_with_fuel(run_from, 2);
    assert(r1 == advance(start, first[0], dialect));
    assert(r1.warnings =~= start.warnings);
    lemma_items(r1, items, loose, dialect);
    let r2 = run_from(r1, body, dialect);
    assert(last.drop_last() =~= Seq::<DocEvent>::empty());
    let r3 = run_from(r2, last, dialect);
    assert(r3 == advance(r2, last[0], dialect));
    assert(r3.warnings =~= start.warnings);
    assert(r3.state.output =~= start.state.output + open_markup(TagKind::List(ordered), dialect)
        + items_markup(items, dialect) + close_markup(TagKind::List(ordered), dialect));
}

/// Reveals the texts of the markers that inline markup is matched against.
proof fn lemma_marker_texts()
    ensures
        "<del>"@ == seq!['<', 'd', 'e', 'l', '>'],
        "</del>"@ == seq!['<', '/', 'd', 'e', 'l', '>'],
        "<sup>"@ == seq!['<', 's', 'u', 'p', '>'],
        "</sup>"@ == seq!['<', '/', 's', 'u', 'p', '>'],
        "<sub>"@ == seq!['<', 's', 'u', 'b', '>'],
        "</sub>"@ == seq!['<', '/', 's', 'u', 'b', '>'],
        "<b>"@ == seq!['<', 'b', '>'],
        "</b>"@ == seq!['<', '/', 'b', '>'],
        "<i>"@ == seq!['<', 'i', '>'],
        "</i>"@ == seq!['<', '/', 'i', '>'],
        "<blockquote>"@ == seq!['<', 'b', 'l', 'o', 'c', 'k', 'q', 'u', 'o', 't', 'e', '>'],
        "</blockquote>"@ == seq!['<', '/', 'b', 'l', 'o', 'c', 'k', 'q', 'u', 'o', 't', 'e', '>'],
        "<details>"@ == seq!['<', 'd', 'e', 't', 'a', 'i', 'l', 's', '>'],
        "</details>"@ == seq!['<', '/', 'd', 'e', 't', 'a', 'i', 'l', 's', '>'],
        "<br"@ == seq!['<', 'b', 'r'],
        "<summary"@ == seq!['<', 's', 'u', 'm', 'm', 'a', 'r', 'y'],
        "<summary>"@ == seq!['<', 's', 'u', 'm', 'm', 'a', 'r', 'y', '>'],
        "</summary>"@ == seq!['<', '/', 's', 'u', 'm', 'm', 'a', 'r', 'y', '>'],
        "<!"@ == seq!['<', '!'],
{
    reveal_strlit("<del>");
    reveal_strlit("</del>");
    reveal_strlit("<sup>");
    reveal_strlit("</sup>");
    reveal_strlit("<sub>");
    reveal_strlit("</sub>");
    reveal_strlit("<b>");
    reveal_strlit("</b>");
    reveal_strlit("<i>");
    reveal_strlit("</i>");
    reveal_strlit("<blockquote>");
    reveal_strlit("</blockquote>");
    reveal_strlit("<details>");
    reveal_strlit("</details>");
    reveal_strlit("<br");
    reveal_strlit("<summary");
    reveal_strlit("<summary>");
    reveal_strlit("</summary>");
    reveal_strlit("<!");
    assert("<del>"@ =~= seq!['<', 'd', 'e', 'l', '>']);
    assert("</del>"@ =~= seq!['<', '/', 'd', 'e', 'l', '>']);
    assert("<sup>"@ =~= seq!['<', 's', 'u', 'p', '>']);
    assert("</sup>"@ =~= seq!['<', '/', 's', 'u', 'p', '>']);
    assert("<sub>"@ =~= seq!['<', 's', 'u', 'b', '>']);
    assert("</sub>"@ =~= seq!['<', '/', 's', 'u', 'b', '>']);
    assert("<b>"@ =~= seq!['<', 'b', '>']);
    assert("</b>"@ =~= seq!['<', '/', 'b', '>']);
    assert("<i>"@ =~= seq!['<', 'i', '>']);
    assert("</i>"@ =~= seq!['<', '/', 'i', '>']);
    assert("<blockquote>"@ =~= seq!['<', 'b', 'l', 'o', 'c', 'k', 'q', 'u', 'o', 't', 'e', '>']);
    assert("</blockquote>"@ =~= seq![
        '<',
        '/',
        'b',
        'l',
        'o',
        'c',
        'k',
        'q',
        'u',
        'o',
        't',
        'e',
        '>',
    ]);
    assert("<details>"@ =~= seq!['<', 'd', 'e', 't', 'a', 'i', 'l', 's', '>']);
    assert("</details>"@ =~= seq!['<', '/', 'd', 'e', 't', 'a', 'i', 'l', 's', '>']);
    assert("<br"@ =~= seq!['<', 'b', 'r']);
    assert("<summary"@ =~= seq!['<', 's', 'u', 'm', 'm', 'a', 'r', 'y']);
    assert("<summary>"@ =~= seq!['<', 's', 'u', 'm', 'm', 'a', 'r', 'y', '>']);
    assert("</summary>"@ =~= seq!['<', '/', 's', 'u', 'm', 'm', 'a', 'r', 'y', '>']);
    assert("<!"@ =~= seq!['<', '!']);
}

/// A text that neither starts nor ends with white space is left as it is.
proof fn lemma_trim_of_tight(s: Seq<char>)
    requires
        s.len() > 0,
        !is_white_space(s.first()),
        !is_white_space(s.last()),
    ensures
        trim(s) == s,
{
}

/// Trimming keeps the start of a text that does not start with white space,
/// as far as any character of it that is no white space.
proof fn lemma_trim_keeps_the_start(s: Seq<char>, n: int)
    requires
        0 < n <= s.len(),
        !is_white_space(s[0]),
        !is_white_space(s[n - 1]),
    ensures
        trim(s).len() >= n,
        trim(s).is_prefix_of(s),
{
    crate::text::lemma_trim_end(s);
}

/// The first angle bracket at or after `from` stands at `k`, where there is
/// one at `k` and none before it.
proof fn lemma_next_delimiter_is(s: Seq<char>, from: int, k: int)
    requires
        0 <= from <= k <= s.len(),
        forall|i: int| from <= i < k ==> !is_delimiter(#[trigger] s[i]),
        k < s.len() ==> is_delimiter(s[k]),
    ensures
        next_delimiter(s, from) == k,
    decreases k - from,
{
    if from < k {
        lemma_next_delimiter_is(s, from + 1, k);
    }
}

/// The first angle bracket at or after `from` stands no further than any
/// angle bracket behind `from`.
proof fn lemma_next_delimiter_bound(s: Seq<char>, from: int, k: int)
    requires
        0 <= from <= k < s.len(),
        is_delimiter(s[k]),
    ensures
        from <= next_delimiter(s, from) <= k,
    decreases k - from,
{
    if from < k && !is_delimiter(s[from]) {
        lemma_next_delimiter_bound(s, from + 1, k);
    }
}

/// A fragment that starts like the label of a disclosure and ends with the
/// closing marker has a label: the text between its second and its third
/// angle bracket.
proof fn lemma_closed_summary_has_a_label(t: Seq<char>)
    requires
        "<summary"@.is_prefix_of(t),
        "</summary>"@.is_suffix_of(t),
    ensures
        piece(t, 2) is Some,
{
    lemma_marker_texts();
    let n = t.len() as int;
    assert(t[0] == "<summary"@[0]);
    assert(t[1] == "<summary"@[1]);
    assert(t[n - 10] == "</summary>"@[0]);
    assert(n - 10 + 1 < n && t[n - 10 + 1] == "</summary>"@[1]);
    assert(n - 10 >= 1);
    reveal_with_fuel(piece_span, 3);
    assert(next_delimiter(t, 0) == 0);
    lemma_next_delimiter_bound(t, 1, n - 10);
}

/// The label of a disclosure has to end in the fragment that it starts in.
/// In a dialect that has disclosures, a fragment that starts like such a
/// label is translated if it ends with the closing marker, and is an error
/// if it does not; in a dialect without them it is dropped, and never an
/// error.
pub proof fn lemma_summary_needs_its_end(fragment: Seq<char>, dialect: Dialect)
    requires
        construct_of(trim(fragment)) == RawConstruct::Summary,
    ensures
        disclosure_label_end(dialect) is Some ==> (raw_effect(fragment, dialect) is Ok
            <==> "</summary>"@.is_suffix_of(trim(fragment))),
        disclosure_label_end(dialect) is Some && !"</summary>"@.is_suffix_of(trim(fragment))
            ==> raw_effect(fragment, dialect) == Err::<RawEffect, TranslationError>(
            TranslationError::MalformedInlineMarkup,
        ),
        disclosure_label_end(dialect) is None ==> raw_effect(fragment, dialect) == Ok::<
            RawEffect,
            TranslationError,
        >(silence()),
{
    if "</summary>"@.is_suffix_of(trim(fragment)) {
        lemma_closed_summary_has_a_label(trim(fragment));
    }
}

/// The opening marker of a label, the label and the closing marker in one
/// fragment are translated without error: in a dialect that has disclosures
/// the label is emitted with its entities decoded, and closed.
pub proof fn lemma_summary_in_one_fragment(label: Seq<char>, dialect: Dialect)
    requires
        forall|i: int| 0 <= i < label.len() ==> !is_delimiter(#[trigger] label[i]),
    ensures
        match disclosure_label_end(dialect) {
            Some(end) => raw_effect("<summary>"@ + label + "</summary>"@, dialect) == Ok::<
                RawEffect,
                TranslationError,
            >(RawEffect { text: decoded_entities(label) + end, warning: None }),
            None => raw_effect("<summary>"@ + label + "</summary>"@, dialect) == Ok::<
                RawEffect,
                TranslationError,
            >(silence()),
        },
{
    lemma_marker_texts();
    let f = "<summary>"@ + label + "</summary>"@;
    let n = f.len() as int;
    let m = label.len() as int;
    assert(n == m + 19);
    assert(f.first() == '<');
    assert(f.last() == "</summary>"@[9]);
    lemma_trim_of_tight(f);
    assert("<summary"@ =~= f.subrange(0, 8));
    assert("</summary>"@ =~= f.subrange(n - 10, n));
    assert(f[1] == 's' && f[2] == 'u' && f[3] == 'm');
    assert(construct_of(f) == RawConstruct::Summary);
    reveal_with_fuel(piece_span, 3);
    assert(next_delimiter(f, 0) == 0);
    assert forall|i: int| 1 <= i < 8 implies !is_delimiter(#[trigger] f[i]) by {
        assert(f[i] == "<summary>"@[i]);
    }
    assert(f[8] == '>');
    lemma_next_delimiter_is(f, 1, 8);
    assert forall|i: int| 9 <= i < 9 + m implies !is_delimiter(#[trigger] f[i]) by {
        assert(f[i] == label[i - 9]);
    }
    assert(f[9 + m] == "</summary>"@[0]);
    lemma_next_delimiter_is(f, 9, 9 + m);
    assert(f.subrange(9, 9 + m) =~= label);
}

/// A fragment that starts with the marker of a comment is dropped: nothing
/// is emitted and nothing is said.
pub proof fn lemma_comment_is_dropped(fragment: Seq<char>, dialect: Dialect)
    requires
        "<!"@.is_prefix_of(fragment),
    ensures
        raw_effect(fragment, dialect) == Ok::<RawEffect, TranslationError>(silence()),
{
    lemma_marker_texts();
    assert(fragment[0] == "<!"@[0]);
    assert(fragment[1] == "<!"@[1]);
    lemma_trim_keeps_the_start(fragment, 2);
    let t = trim(fragment);
    assert(t[0] == fragment[0] && t[1] == fragment[1]);
    assert(construct_of(t) == RawConstruct::Other);
}

/// A fragment that is not known and no comment is emitted as it stands,
/// with exactly one warning, which names it.
pub proof fn lemma_unknown_is_passed_through(
    s: TranslatorState,
    fragment: String,
    dialect: Dialect,
)
    requires
        construct_of(trim(fragment@)) == RawConstruct::Other,
        !"<!"@.is_prefix_of(fragment@),
    ensures
        raw_effect(fragment@, dialect) == Ok::<RawEffect, TranslationError>(
            RawEffect {
                text: fragment@,
                warning: Some(Diagnostic::UnrecognizedMarkup(fragment@)),
            },
        ),
        after_event(s, DocEvent::RawInline(fragment), dialect) == Ok::<Step, TranslationError>(
            Step {
                state: s.emit(fragment@),
                warnings: seq![Diagnostic::UnrecognizedMarkup(fragment@)],
            },
        ),
{
}

/// What a comment leaves of a translation: nothing.
pub proof fn lemma_comment_changes_nothing(s: TranslatorState, fragment: String, dialect: Dialect)
    requires
        "<!"@.is_prefix_of(fragment@),
    ensures
        after_event(s, DocEvent::RawInline(fragment), dialect) == Ok::<Step, TranslationError>(
            quiet(s),
        ),
{
    lemma_comment_is_dropped(fragment@, dialect);
    assert(s.output + Seq::<char>::empty() =~= s.output);
}

} // verus!
