use crate::args::Dialect;
use crate::balance::{has_plain_data, is_plain};
use crate::event::{DocEvent, TagKind};
use crate::snippets::{lemma_proboards_snippets, lemma_xenforo_snippets};
use crate::policy::{
    close_markup, footnote_reference, inline_code, open_markup, size_token, task_marker,
    thematic_break,
};
use crate::text::{is_white_space, trim_end};
use crate::translate::run;
use vstd::prelude::*;

verus! {

/// How often a text holds another: at how many places the other one ends.
pub open spec fn occurrences(s: Seq<char>, p: Seq<char>) -> nat
    decreases s.len(),
{
    if s.len() == 0 || s.len() < p.len() {
        0
    } else if p.is_suffix_of(s) {
        occurrences(s.drop_last(), p) + 1
    } else {
        occurrences(s.drop_last(), p)
    }
}

/// Whether the last bracket of a text is an opening one.
pub open spec fn ends_open(s: Seq<char>) -> bool
    decreases s.len(),
{
    if s.len() == 0 {
        false
    } else if s.last() == ']' {
        false
    } else if s.last() == '[' {
        true
    } else {
        ends_open(s.drop_last())
    }
}

/// Whether a text is a tag: an opening bracket, a closing bracket, and no
/// bracket in between.
pub open spec fn is_marker(p: Seq<char>) -> bool {
    &&& p.len() >= 3
    &&& p[0] == '['
    &&& p.last() == ']'
    &&& forall|i: int| 0 < i < p.len() - 1 ==> #[trigger] p[i] != '[' && p[i] != ']'
}

/// A text with an opening bracket that no bracket follows ends open.
proof fn lemma_open_bracket_stays(a: Seq<char>, i: int)
    requires
        0 <= i < a.len(),
        a[i] == '[',
        forall|j: int| i < j < a.len() ==> #[trigger] a[j] != '[' && a[j] != ']',
    ensures
        ends_open(a),
    decreases a.len() - i,
{
    if i < a.len() - 1 {
        assert(a[a.len() - 1] != '[' && a[a.len() - 1] != ']');
        lemma_open_bracket_stays(a.drop_last(), i);
    }
}

/// Two texts that do not end open make one that does not.
pub proof fn lemma_closed_texts_join(a: Seq<char>, b: Seq<char>)
    requires
        !ends_open(a),
        !ends_open(b),
    ensures
        !ends_open(a + b),
    decreases b.len(),
{
    if b.len() == 0 {
        assert(a + b =~= a);
    } else {
        assert((a + b).drop_last() =~= a + b.drop_last());
        assert((a + b).last() == b.last());
        if b.last() != ']' && b.last() != '[' {
            lemma_closed_texts_join(a, b.drop_last());
        }
    }
}

/// Behind a text that does not end open, no tag can start before the text
/// ends and go on behind it: the two together hold a tag as often as each
/// of them does.
pub proof fn lemma_occurrences_add_up(a: Seq<char>, b: Seq<char>, p: Seq<char>)
    requires
        !ends_open(a),
        is_marker(p),
    ensures
        occurrences(a + b, p) == occurrences(a, p) + occurrences(b, p),
    decreases b.len(),
{
    let s = a + b;
    if b.len() == 0 {
        assert(s =~= a);
    } else {
        assert(s.drop_last() =~= a + b.drop_last());
        lemma_occurrences_add_up(a, b.drop_last(), p);
        if b.len() >= p.len() {
            assert(s.subrange(s.len() - p.len(), s.len() as int) =~= b.subrange(
                b.len() - p.len(),
                b.len() as int,
            ));
        } else {
            lemma_short_text_has_none(b, p);
            lemma_short_text_has_none(b.drop_last(), p);
            if s.len() >= p.len() && p.is_suffix_of(s) {
                let i = s.len() - p.len();
                let tail = s.subrange(i, s.len() as int);
                assert(tail == p);
                assert(a[i] == tail[0]);
                assert forall|j: int| i < j < a.len() implies #[trigger] a[j] != '[' && a[j]
                    != ']' by {
                    assert(a[j] == tail[j - i]);
                    assert(0 < j - i < p.len() - 1);
                    assert(p[j - i] != '[' && p[j - i] != ']');
                }
                lemma_open_bracket_stays(a, i);
            }
            if s.len() < p.len() {
                lemma_short_text_has_none(a, p);
            }
        }
    }
}

/// A text that is shorter than a tag does not hold it.
proof fn lemma_short_text_has_none(s: Seq<char>, p: Seq<char>)
    requires
        s.len() < p.len(),
    ensures
        occurrences(s, p) == 0,
{
}

/// Taking the white space at the end of a text away takes no tag away, and
/// does not change how the text ends.
pub proof fn lemma_trimming_keeps_markers(s: Seq<char>, p: Seq<char>)
    requires
        is_marker(p),
    ensures
        occurrences(trim_end(s), p) == occurrences(s, p),
        ends_open(trim_end(s)) == ends_open(s),
    decreases s.len(),
{
    if s.len() > 0 && is_white_space(s.last()) {
        lemma_trimming_keeps_markers(s.drop_last(), p);
        if s.len() >= p.len() && p.is_suffix_of(s) {
            assert(s.subrange(s.len() - p.len(), s.len() as int)[p.len() - 1] == s.last());
        }
        if s.len() < p.len() {
            lemma_short_text_has_none(s.drop_last(), p);
        }
    }
}

/// How often a text holds an opening bracket with the two given characters
/// behind it.
pub open spec fn triples(s: Seq<char>, c1: char, c2: char) -> nat
    decreases s.len(),
{
    if s.len() < 3 {
        0
    } else if s[s.len() - 3] == '[' && s[s.len() - 2] == c1 && s.last() == c2 {
        triples(s.drop_last(), c1, c2) + 1
    } else {
        triples(s.drop_last(), c1, c2)
    }
}

/// Whether neither of the last two characters of a text is an opening
/// bracket.
pub open spec fn sound_end(s: Seq<char>) -> bool {
    &&& s.len() >= 1 ==> s.last() != '['
    &&& s.len() >= 2 ==> s[s.len() - 2] != '['
}

/// The start of a text holds no more such brackets than the text.
proof fn lemma_triples_of_prefix(s: Seq<char>, n: int, c1: char, c2: char)
    requires
        0 <= n <= s.len(),
    ensures
        triples(s.take(n), c1, c2) <= triples(s, c1, c2),
    decreases s.len() - n,
{
    if n < s.len() {
        lemma_triples_of_prefix(s.drop_last(), n, c1, c2);
        assert(s.drop_last().take(n) =~= s.take(n));
    } else {
        assert(s.take(n) =~= s);
    }
}

/// Behind a text with a sound end, two texts together hold such brackets as
/// often as each of them does, and where the second has a sound end too, so
/// have the two together.
pub proof fn lemma_triples_add_up(a: Seq<char>, b: Seq<char>, c1: char, c2: char)
    requires
        sound_end(a),
    ensures
        triples(a + b, c1, c2) == triples(a, c1, c2) + triples(b, c1, c2),
        sound_end(b) ==> sound_end(a + b),
    decreases b.len(),
{
    let s = a + b;
    if b.len() == 0 {
        assert(s =~= a);
    } else {
        assert(s.drop_last() =~= a + b.drop_last());
        lemma_triples_add_up(a, b.drop_last(), c1, c2);
        assert(s.last() == b.last());
        if b.len() >= 2 {
            assert(s[s.len() - 2] == b[b.len() - 2]);
        } else if a.len() >= 1 {
            assert(s[s.len() - 2] == a.last());
        }
        if b.len() >= 3 {
            assert(s[s.len() - 3] == b[b.len() - 3]);
        } else if b.len() == 2 && a.len() >= 1 {
            assert(s[s.len() - 3] == a.last());
        } else if b.len() == 1 && a.len() >= 2 {
            assert(s[s.len() - 3] == a[a.len() - 2]);
        }
    }
}

/// A text without an opening bracket holds no such bracket, and has a sound
/// end.
pub proof fn lemma_plain_text_has_no_triples(s: Seq<char>, c1: char, c2: char)
    requires
        is_plain(s),
    ensures
        triples(s, c1, c2) == 0,
        sound_end(s),
    decreases s.len(),
{
    if s.len() >= 1 {
        assert(s[s.len() - 1] != '[');
    }
    if s.len() >= 2 {
        assert(s[s.len() - 2] != '[');
    }
    if s.len() >= 3 {
        assert(s[s.len() - 3] != '[');
        lemma_plain_text_has_no_triples(s.drop_last(), c1, c2);
    }
}

/// A text in which no bracket is followed as the bracket of a tag is does
/// not hold the tag.
pub proof fn lemma_no_lookalike_no_marker(s: Seq<char>, p: Seq<char>, c1: char, c2: char)
    requires
        p.len() >= 3,
        p[0] == '[',
        p[1] == c1,
        p[2] == c2,
        triples(s, c1, c2) == 0,
    ensures
        occurrences(s, p) == 0,
    decreases s.len(),
{
    if s.len() > 0 && s.len() >= p.len() {
        lemma_triples_of_prefix(s, s.len() - 1, c1, c2);
        assert(s.take(s.len() - 1) =~= s.drop_last());
        lemma_no_lookalike_no_marker(s.drop_last(), p, c1, c2);
        if p.is_suffix_of(s) {
            let i = s.len() - p.len();
            let tail = s.subrange(i, s.len() as int);
            assert(s[i] == tail[0] && s[i + 1] == tail[1] && s[i + 2] == tail[2]);
            let head = s.take(i + 3);
            assert(head[head.len() - 3] == '[' && head[head.len() - 2] == c1 && head.last()
                == c2);
            assert(triples(head, c1, c2) >= 1);
            lemma_triples_of_prefix(s, i + 3, c1, c2);
        }
    }
}

/// A text without an opening bracket does not end open.
proof fn lemma_plain_text_is_closed(s: Seq<char>)
    requires
        is_plain(s),
    ensures
        !ends_open(s),
    decreases s.len(),
{
    if s.len() > 0 {
        assert(s[s.len() - 1] != '[');
        lemma_plain_text_is_closed(s.drop_last());
    }
}

/// A text without an opening bracket holds no tag, and does not end open.
pub proof fn lemma_plain_text_has_no_marker(s: Seq<char>, p: Seq<char>)
    requires
        is_plain(s),
        p.len() >= 3,
        p[0] == '[',
    ensures
        occurrences(s, p) == 0,
        !ends_open(s),
{
    let c1 = p[1];
    let c2 = p[2];
    lemma_plain_text_has_no_triples(s, c1, c2);
    lemma_no_lookalike_no_marker(s, p, c1, c2);
    lemma_plain_text_is_closed(s);
}

/// The tag that marks the start of a list item in a dialect.
pub open spec fn item_open_marker(dialect: Dialect) -> Seq<char> {
    match dialect {
        Dialect::Xenforo => "[*]"@,
        Dialect::Proboards => "[li]"@,
    }
}

/// The tag that marks the end of a list item in a dialect, if the dialect
/// has one.
pub open spec fn item_close_marker(dialect: Dialect) -> Option<Seq<char>> {
    match dialect {
        Dialect::Xenforo => None,
        Dialect::Proboards => Some("[/li]"@),
    }
}

/// How many list items a sequence of events opens.
pub open spec fn items_opened(events: Seq<DocEvent>) -> nat
    decreases events.len(),
{
    if events.len() == 0 {
        0
    } else if events.last() is StartTag && events.last()->StartTag_0 is ListItem {
        items_opened(events.drop_last()) + 1
    } else {
        items_opened(events.drop_last())
    }
}

/// How many list items a sequence of events closes.
pub open spec fn items_closed(events: Seq<DocEvent>) -> nat
    decreases events.len(),
{
    if events.len() == 0 {
        0
    } else if events.last() is EndTag && events.last()->EndTag_0 is ListItem {
        items_closed(events.drop_last()) + 1
    } else {
        items_closed(events.drop_last())
    }
}

/// The events that the count of the item markers is stated for: all but raw
/// inline markup, with texts that hold no opening bracket.
pub open spec fn keeps_markers(event: DocEvent) -> bool {
    match event {
        DocEvent::StartTag(tag) => has_plain_data(tag),
        DocEvent::EndTag(tag) => has_plain_data(tag),
        DocEvent::Text(text) => is_plain(text@),
        DocEvent::InlineCode(code) => is_plain(code@),
        DocEvent::FootnoteReference(label) => is_plain(label@),
        DocEvent::RawInline(_) => false,
        _ => true,
    }
}

/// The markers of a list item are tags.
proof fn lemma_item_markers_are_tags()
    ensures
        is_marker("[*]"@) && "[*]"@[1] == '*' && "[*]"@[2] == ']',
        is_marker("[li]"@) && "[li]"@[1] == 'l' && "[li]"@[2] == 'i',
        is_marker("[/li]"@) && "[/li]"@[1] == '/' && "[/li]"@[2] == 'l',
{
    reveal_strlit("[*]");
    reveal_strlit("[li]");
    reveal_strlit("[/li]");
}

/// What the markup of a construct holds of the bullet of a list item in
/// XenForo: the opening markup of a list item holds it once, and nothing
/// else holds it.
proof fn lemma_xenforo_markup(tag: TagKind)
    requires
        has_plain_data(tag),
    ensures
        !ends_open(open_markup(tag, Dialect::Xenforo)),
        !ends_open(close_markup(tag, Dialect::Xenforo)),
        occurrences(open_markup(tag, Dialect::Xenforo), "[*]"@) == if tag is ListItem {
            1nat
        } else {
            0nat
        },
        occurrences(close_markup(tag, Dialect::Xenforo), "[*]"@) == 0,
{
    lemma_xenforo_snippets();
    lemma_item_markers_are_tags();
    let p = "[*]"@;
    let open = open_markup(tag, Dialect::Xenforo);
    let close = close_markup(tag, Dialect::Xenforo);
    lemma_plain_text_has_no_marker(Seq::<char>::empty(), p);
    match tag {
        TagKind::ListItem => {},
        TagKind::Heading(rank) => {
            let lead = "\n[size=\""@;
            let digit = seq![size_token(rank)];
            let rest = "\"][b][u]"@;
            assert(is_plain(digit));
            lemma_plain_text_has_no_triples(digit, '*', ']');
            lemma_triples_add_up(lead, digit, '*', ']');
            lemma_triples_add_up(lead + digit, rest, '*', ']');
            assert(open =~= lead + digit + rest);
            reveal_strlit("\"][b][u]");
            lemma_closed_end(lead + digit, rest);
            lemma_no_lookalike_no_marker(open, p, '*', ']');
            lemma_no_lookalike_no_marker(close, p, '*', ']');
        },
        TagKind::FootnoteDefinition(label) => {
            reveal_strlit("\n");
            reveal_strlit(": ");
            assert(is_plain(open));
            lemma_plain_text_has_no_marker(open, p);
            lemma_no_lookalike_no_marker(close, p, '*', ']');
        },
        TagKind::Link(url) => {
            lemma_plain_text_has_no_triples(url@, '*', ']');
            lemma_triples_add_up("[url="@, url@, '*', ']');
            lemma_triples_add_up("[url="@ + url@, "]"@, '*', ']');
            reveal_strlit("]");
            lemma_closed_end("[url="@ + url@, "]"@);
            lemma_no_lookalike_no_marker(open, p, '*', ']');
            lemma_no_lookalike_no_marker(close, p, '*', ']');
        },
        TagKind::Image(url, alt) => {
            lemma_plain_text_has_no_triples(url@, '*', ']');
            lemma_triples_add_up("[img]"@, url@, '*', ']');
            lemma_triples_add_up("[img]"@ + url@, "[/img]"@, '*', ']');
            reveal_strlit("[/img]");
            lemma_closed_end("[img]"@ + url@, "[/img]"@);
            lemma_no_lookalike_no_marker(open, p, '*', ']');
        },
        _ => {
            lemma_no_lookalike_no_marker(open, p, '*', ']');
            lemma_no_lookalike_no_marker(close, p, '*', ']');
        },
    }
}

/// A text that ends with a closing bracket does not end open.
proof fn lemma_closed_end(a: Seq<char>, b: Seq<char>)
    requires
        b.len() > 0,
        b.last() == ']',
    ensures
        !ends_open(a + b),
{
    assert((a + b).last() == b.last());
}

/// What the markup of a construct holds of the markers of a list item in
/// ProBoards: the opening markup of a list item holds the opening marker
/// once, its closing markup the closing marker, and nothing else holds
/// either.
proof fn lemma_proboards_markup(tag: TagKind)
    requires
        has_plain_data(tag),
    ensures
        !ends_open(open_markup(tag, Dialect::Proboards)),
        !ends_open(close_markup(tag, Dialect::Proboards)),
        occurrences(open_markup(tag, Dialect::Proboards), "[li]"@) == if tag is ListItem {
            1nat
        } else {
            0nat
        },
        occurrences(close_markup(tag, Dialect::Proboards), "[li]"@) == 0,
        occurrences(open_markup(tag, Dialect::Proboards), "[/li]"@) == 0,
        occurrences(close_markup(tag, Dialect::Proboards), "[/li]"@) == if tag is ListItem {
            1nat
        } else {
            0nat
        },
{
    lemma_proboards_snippets();
    lemma_item_markers_are_tags();
    let p = "[li]"@;
    let q = "[/li]"@;
    let open = open_markup(tag, Dialect::Proboards);
    let close = close_markup(tag, Dialect::Proboards);
    lemma_plain_text_has_no_marker(Seq::<char>::empty(), p);
    lemma_plain_text_has_no_marker(Seq::<char>::empty(), q);
    match tag {
        TagKind::ListItem => {
            lemma_no_lookalike_no_marker(open, q, '/', 'l');
            lemma_no_lookalike_no_marker(close, p, 'l', 'i');
        },
        TagKind::Heading(rank) => {
            let lead = "\n\n[font size=\""@;
            let digit = seq![size_token(rank)];
            let rest = "\"][b][u]"@;
            assert(is_plain(digit));
            lemma_plain_text_has_no_triples(digit, 'l', 'i');
            lemma_plain_text_has_no_triples(digit, '/', 'l');
            lemma_triples_add_up(lead, digit, 'l', 'i');
            lemma_triples_add_up(lead, digit, '/', 'l');
            lemma_triples_add_up(lead + digit, rest, 'l', 'i');
            lemma_triples_add_up(lead + digit, rest, '/', 'l');
            assert(open =~= lead + digit + rest);
            reveal_strlit("\"][b][u]");
            lemma_closed_end(lead + digit, rest);
            lemma_no_lookalike_no_marker(open, p, 'l', 'i');
            lemma_no_lookalike_no_marker(open, q, '/', 'l');
            lemma_no_lookalike_no_marker(close, p, 'l', 'i');
            lemma_no_lookalike_no_marker(close, q, '/', 'l');
        },
        TagKind::FootnoteDefinition(label) => {
            reveal_strlit("\n");
            reveal_strlit(": ");
            assert(is_plain(open));
            lemma_plain_text_has_no_marker(open, p);
            lemma_plain_text_has_no_marker(open, q);
            lemma_no_lookalike_no_marker(close, p, 'l', 'i');
            lemma_no_lookalike_no_marker(close, q, '/', 'l');
        },
        TagKind::Link(url) => {
            let lead = "[a href=\""@;
            let trail = "\"]"@;
            lemma_plain_text_has_no_triples(url@, 'l', 'i');
            lemma_plain_text_has_no_triples(url@, '/', 'l');
            lemma_triples_add_up(lead, url@, 'l', 'i');
            lemma_triples_add_up(lead, url@, '/', 'l');
            lemma_triples_add_up(lead + url@, trail, 'l', 'i');
            lemma_triples_add_up(lead + url@, trail, '/', 'l');
            reveal_strlit("\"]");
            lemma_closed_end(lead + url@, trail);
            lemma_no_lookalike_no_marker(open, p, 'l', 'i');
            lemma_no_lookalike_no_marker(open, q, '/', 'l');
            lemma_no_lookalike_no_marker(close, p, 'l', 'i');
            lemma_no_lookalike_no_marker(close, q, '/', 'l');
        },
        TagKind::Image(url, alt) => {
            let lead = "[img src=\""@;
            let middle = "\" alt=\""@;
            let trail = "\"]"@;
            lemma_plain_text_has_no_triples(url@, 'l', 'i');
            lemma_plain_text_has_no_triples(url@, '/', 'l');
            lemma_plain_text_has_no_triples(alt@, 'l', 'i');
            lemma_plain_text_has_no_triples(alt@, '/', 'l');
            lemma_triples_add_up(lead, url@, 'l', 'i');
            lemma_triples_add_up(lead, url@, '/', 'l');
            lemma_triples_add_up(lead + url@, middle, 'l', 'i');
            lemma_triples_add_up(lead + url@, middle, '/', 'l');
            lemma_triples_add_up(lead + url@ + middle, alt@, 'l', 'i');
            lemma_triples_add_up(lead + url@ + middle, alt@, '/', 'l');
            lemma_triples_add_up(lead + url@ + middle + alt@, trail, 'l', 'i');
            lemma_triples_add_up(lead + url@ + middle + alt@, trail, '/', 'l');
            reveal_strlit("\"]");
            lemma_closed_end(lead + url@ + middle + alt@, trail);
            lemma_no_lookalike_no_marker(open, p, 'l', 'i');
            lemma_no_lookalike_no_marker(open, q, '/', 'l');
        },
        _ => {
            lemma_no_lookalike_no_marker(open, p, 'l', 'i');
            lemma_no_lookalike_no_marker(open, q, '/', 'l');
            lemma_no_lookalike_no_marker(close, p, 'l', 'i');
            lemma_no_lookalike_no_marker(close, q, '/', 'l');
        },
    }
}

/// What an event that is no tag emits, where it emits the same whatever
/// came before.
pub open spec fn inline_markup(event: DocEvent, dialect: Dialect) -> Seq<char> {
    match event {
        DocEvent::Text(text) => text@,
        DocEvent::InlineCode(code) => inline_code(code@, dialect),
        DocEvent::FootnoteReference(label) => footnote_reference(label@, dialect),
        DocEvent::SoftBreak => " "@,
        DocEvent::HardBreak => "\n"@,
        DocEvent::ThematicBreak => thematic_break(dialect),
        DocEvent::TaskListMarker(checked) => task_marker(checked),
        _ => Seq::empty(),
    }
}

/// What the events that are no tags emit holds no marker of a list item, and
/// does not end open.
proof fn lemma_inline_markup(event: DocEvent, dialect: Dialect)
    requires
        keeps_markers(event),
        !(event is StartTag),
        !(event is EndTag),
    ensures
        !ends_open(inline_markup(event, dialect)),
        occurrences(inline_markup(event, dialect), item_open_marker(dialect)) == 0,
        item_close_marker(dialect) is Some ==> occurrences(
            inline_markup(event, dialect),
            item_close_marker(dialect)->0,
        ) == 0,
{
    lemma_item_markers_are_tags();
    let piece = inline_markup(event, dialect);
    let p = item_open_marker(dialect);
    match dialect {
        Dialect::Xenforo => {
            lemma_xenforo_snippets();
            match event {
                DocEvent::InlineCode(code) => {
                    lemma_plain_text_has_no_triples(code@, '*', ']');
                    lemma_triples_add_up("[font=Courier New]"@, code@, '*', ']');
                    lemma_triples_add_up("[font=Courier New]"@ + code@, "[/font]"@, '*', ']');
                    reveal_strlit("[/font]");
                    lemma_closed_end("[font=Courier New]"@ + code@, "[/font]"@);
                    lemma_no_lookalike_no_marker(piece, p, '*', ']');
                },
                DocEvent::SoftBreak | DocEvent::HardBreak | DocEvent::ThematicBreak => {
                    lemma_no_lookalike_no_marker(piece, p, '*', ']');
                },
                _ => {
                    assert(is_plain(piece));
                    lemma_plain_text_has_no_marker(piece, p);
                },
            }
        },
        Dialect::Proboards => {
            lemma_proboards_snippets();
            let q = "[/li]"@;
            match event {
                DocEvent::InlineCode(code) => {
                    lemma_plain_text_has_no_triples(code@, 'l', 'i');
                    lemma_plain_text_has_no_triples(code@, '/', 'l');
                    lemma_triples_add_up("[tt]"@, code@, 'l', 'i');
                    lemma_triples_add_up("[tt]"@, code@, '/', 'l');
                    lemma_triples_add_up("[tt]"@ + code@, "[/tt]"@, 'l', 'i');
                    lemma_triples_add_up("[tt]"@ + code@, "[/tt]"@, '/', 'l');
                    reveal_strlit("[/tt]");
                    lemma_closed_end("[tt]"@ + code@, "[/tt]"@);
                    lemma_no_lookalike_no_marker(piece, p, 'l', 'i');
                    lemma_no_lookalike_no_marker(piece, q, '/', 'l');
                },
                DocEvent::FootnoteReference(label) => {
                    let inner = seq!['\u{231c}'] + label@ + seq!['\u{231d}'];
                    assert(is_plain(inner));
                    lemma_plain_text_has_no_triples(inner, 'l', 'i');
                    lemma_plain_text_has_no_triples(inner, '/', 'l');
                    lemma_triples_add_up("[sup]"@, inner, 'l', 'i');
                    lemma_triples_add_up("[sup]"@, inner, '/', 'l');
                    lemma_triples_add_up("[sup]"@ + inner, "[/sup]"@, 'l', 'i');
                    lemma_triples_add_up("[sup]"@ + inner, "[/sup]"@, '/', 'l');
                    reveal_strlit("[/sup]");
                    lemma_closed_end("[sup]"@ + inner, "[/sup]"@);
                    assert(piece =~= "[sup]"@ + inner + "[/sup]"@);
                    lemma_no_lookalike_no_marker(piece, p, 'l', 'i');
                    lemma_no_lookalike_no_marker(piece, q, '/', 'l');
                },
                DocEvent::SoftBreak | DocEvent::HardBreak | DocEvent::ThematicBreak => {
                    lemma_no_lookalike_no_marker(piece, p, 'l', 'i');
                    lemma_no_lookalike_no_marker(piece, q, '/', 'l');
                },
                _ => {
                    assert(is_plain(piece));
                    lemma_plain_text_has_no_marker(piece, p);
                    lemma_plain_text_has_no_marker(piece, q);
                },
            }
        },
    }
}

/// What the markup of a construct holds of the markers of a list item: the
/// opening markup of a list item holds the opening marker once, its closing
/// markup the closing marker where the dialect has one, and nothing else
/// holds either.
pub proof fn lemma_markup_holds_markers(tag: TagKind, dialect: Dialect)
    requires
        has_plain_data(tag),
    ensures
        is_marker(item_open_marker(dialect)),
        item_close_marker(dialect) is Some ==> is_marker(item_close_marker(dialect)->0),
        !ends_open(open_markup(tag, dialect)),
        !ends_open(close_markup(tag, dialect)),
        occurrences(open_markup(tag, dialect), item_open_marker(dialect)) == if tag is ListItem {
            1nat
        } else {
            0nat
        },
        occurrences(close_markup(tag, dialect), item_open_marker(dialect)) == 0,
        item_close_marker(dialect) is Some ==> occurrences(
            open_markup(tag, dialect),
            item_close_marker(dialect)->0,
        ) == 0,
        item_close_marker(dialect) is Some ==> occurrences(
            close_markup(tag, dialect),
            item_close_marker(dialect)->0,
        ) == if tag is ListItem {
            1nat
        } else {
            0nat
        },
{
    lemma_item_markers_are_tags();
    match dialect {
        Dialect::Xenforo => lemma_xenforo_markup(tag),
        Dialect::Proboards => lemma_proboards_markup(tag),
    }
}

/// The markers of list items are emitted once for each item, in any
/// document: the output holds the opening marker as often as the events
/// open a list item, and the closing marker, where the dialect has one, as
/// often as they close one.  This holds of every sequence of events without
/// raw inline markup whose texts hold no opening bracket, nested well or
/// not.
pub proof fn lemma_item_markers_are_counted(events: Seq<DocEvent>, dialect: Dialect)
    requires
        forall|i: int| 0 <= i < events.len() ==> keeps_markers(#[trigger] events[i]),
    ensures
        run(events, dialect).failure is None,
        !ends_open(run(events, dialect).state.output),
        occurrences(run(events, dialect).state.output, item_open_marker(dialect))
            == items_opened(events),
        item_close_marker(dialect) is Some ==> occurrences(
            run(events, dialect).state.output,
            item_close_marker(dialect)->0,
        ) == items_closed(events),
    decreases events.len(),
{
    lemma_item_markers_are_tags();
    let p = item_open_marker(dialect);
    if events.len() > 0 {
        let before = events.drop_last();
        let event = events.last();
        assert forall|i: int| 0 <= i < before.len() implies keeps_markers(#[trigger] before[i]) by {
            assert(before[i] == events[i]);
        }
        lemma_item_markers_are_counted(before, dialect);
        let out = run(before, dialect).state.output;
        assert(keeps_markers(events[events.len() - 1]));
        match event {
            DocEvent::StartTag(tag) => {
                lemma_markup_holds_markers(tag, dialect);
                let piece = open_markup(tag, dialect);
                lemma_closed_texts_join(out, piece);
                lemma_occurrences_add_up(out, piece, p);
                if item_close_marker(dialect) is Some {
                    lemma_occurrences_add_up(out, piece, item_close_marker(dialect)->0);
                }
            },
            DocEvent::EndTag(tag) => {
                lemma_markup_holds_markers(tag, dialect);
                let piece = close_markup(tag, dialect);
                lemma_trimming_keeps_markers(out, p);
                lemma_closed_texts_join(out, piece);
                lemma_closed_texts_join(trim_end(out), piece);
                lemma_occurrences_add_up(out, piece, p);
                lemma_occurrences_add_up(trim_end(out), piece, p);
                if item_close_marker(dialect) is Some {
                    let q = item_close_marker(dialect)->0;
                    lemma_trimming_keeps_markers(out, q);
                    lemma_occurrences_add_up(out, piece, q);
                    lemma_occurrences_add_up(trim_end(out), piece, q);
                }
            },
            DocEvent::RawInline(_) => {},
            _ => {
                lemma_inline_markup(event, dialect);
                let piece = inline_markup(event, dialect);
                lemma_closed_texts_join(out, piece);
                lemma_occurrences_add_up(out, piece, p);
                if item_close_marker(dialect) is Some {
                    lemma_occurrences_add_up(out, piece, item_close_marker(dialect)->0);
                }
            },
        }
    }
}

} // verus!
