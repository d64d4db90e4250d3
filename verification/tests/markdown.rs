use md2bbcode::args::{Args, Dialect};
use md2bbcode::event::{DocEvent, HeadingRank, TagKind};
use md2bbcode::markdown::{list_kind, parse_markdown, ParserOptions};

fn plain() -> ParserOptions {
    ParserOptions {
        tables: false,
        footnotes: false,
        strikethrough: false,
        tasklists: false,
        smart_punctuation: false,
    }
}

fn all() -> ParserOptions {
    ParserOptions {
        tables: true,
        footnotes: true,
        strikethrough: true,
        tasklists: true,
        smart_punctuation: true,
    }
}

fn text(s: &str) -> DocEvent {
    DocEvent::Text(s.to_string())
}

fn start(tag: TagKind) -> DocEvent {
    DocEvent::StartTag(tag)
}

fn end(tag: TagKind) -> DocEvent {
    DocEvent::EndTag(tag)
}

#[test]
fn parses_a_heading() {
    assert_eq!(
        parse_markdown("# Hello", plain()),
        vec![
            start(TagKind::Heading(HeadingRank::H1)),
            text("Hello"),
            end(TagKind::Heading(HeadingRank::H1)),
        ]
    );
}

#[test]
fn parses_every_heading_level() {
    let ranks = [
        HeadingRank::H1,
        HeadingRank::H2,
        HeadingRank::H3,
        HeadingRank::H4,
        HeadingRank::H5,
        HeadingRank::H6,
    ];
    let mut marks = String::new();
    for rank in ranks {
        marks.push('#');
        assert_eq!(rank.to_number() as usize, marks.len());
        assert_eq!(HeadingRank::from_number(rank.to_number()), Some(rank));
        assert_eq!(
            parse_markdown(&format!("{} t", marks), plain()),
            vec![start(TagKind::Heading(rank)), text("t"), end(TagKind::Heading(rank))]
        );
    }
    assert_eq!(HeadingRank::from_number(0), None);
    assert_eq!(HeadingRank::from_number(7), None);
}

#[test]
fn parses_inline_constructs() {
    assert_eq!(
        parse_markdown("*a* **b** `c` [d](u \"t\") ![e](v \"w\")", plain()),
        vec![
            start(TagKind::Paragraph),
            start(TagKind::Emphasis),
            text("a"),
            end(TagKind::Emphasis),
            text(" "),
            start(TagKind::Strong),
            text("b"),
            end(TagKind::Strong),
            text(" "),
            DocEvent::InlineCode("c".to_string()),
            text(" "),
            start(TagKind::Link("u".to_string())),
            text("d"),
            end(TagKind::Link("u".to_string())),
            text(" "),
            start(TagKind::Image("v".to_string(), "w".to_string())),
            text("e"),
            end(TagKind::Image("v".to_string(), "w".to_string())),
            end(TagKind::Paragraph),
        ]
    );
}

#[test]
fn parses_blocks() {
    assert_eq!(
        parse_markdown("> q\n\n    code\n\n---\n", plain()),
        vec![
            start(TagKind::BlockQuote),
            start(TagKind::Paragraph),
            text("q"),
            end(TagKind::Paragraph),
            end(TagKind::BlockQuote),
            start(TagKind::CodeBlock),
            text("code\n"),
            end(TagKind::CodeBlock),
            DocEvent::ThematicBreak,
        ]
    );
}

#[test]
fn parses_lists_and_forgets_nothing_but_the_first_number() {
    assert_eq!(
        parse_markdown("- item", plain()),
        vec![
            start(TagKind::List(false)),
            start(TagKind::ListItem),
            text("item"),
            end(TagKind::ListItem),
            end(TagKind::List(false)),
        ]
    );
    assert_eq!(
        parse_markdown("3. a\n4. b", plain()),
        vec![
            start(TagKind::List(true)),
            start(TagKind::ListItem),
            text("a"),
            end(TagKind::ListItem),
            start(TagKind::ListItem),
            text("b"),
            end(TagKind::ListItem),
            end(TagKind::List(true)),
        ]
    );
}

#[test]
fn parses_breaks_and_inline_html() {
    assert_eq!(
        parse_markdown("a\nb  \nc <del>d</del>", plain()),
        vec![
            start(TagKind::Paragraph),
            text("a"),
            DocEvent::SoftBreak,
            text("b"),
            DocEvent::HardBreak,
            text("c "),
            DocEvent::RawInline("<del>".to_string()),
            text("d"),
            DocEvent::RawInline("</del>".to_string()),
            end(TagKind::Paragraph),
        ]
    );
}

#[test]
fn extensions_are_off_unless_asked_for() {
    assert_eq!(
        parse_markdown("~~a~~", plain()),
        vec![start(TagKind::Paragraph), text("~~a~~"), end(TagKind::Paragraph)]
    );
    assert_eq!(
        parse_markdown("~~a~~", all()),
        vec![
            start(TagKind::Paragraph),
            start(TagKind::Strikethrough),
            text("a"),
            end(TagKind::Strikethrough),
            end(TagKind::Paragraph),
        ]
    );
}

#[test]
fn each_extension_has_its_own_switch() {
    let strike = ParserOptions { strikethrough: true, ..plain() };
    assert!(parse_markdown("~~a~~", strike).contains(&start(TagKind::Strikethrough)));
    assert!(!parse_markdown("|a|\n|-|\n|b|", strike).contains(&start(TagKind::Table)));
    let tables = ParserOptions { tables: true, ..plain() };
    assert!(parse_markdown("|a|\n|-|\n|b|", tables).contains(&start(TagKind::Table)));
    assert!(!parse_markdown("~~a~~", tables).contains(&start(TagKind::Strikethrough)));
    let tasks = ParserOptions { tasklists: true, ..plain() };
    assert!(parse_markdown("- [x] a", tasks).contains(&DocEvent::TaskListMarker(true)));
    assert!(!parse_markdown("- [x] a", plain()).contains(&DocEvent::TaskListMarker(true)));
    let notes = ParserOptions { footnotes: true, ..plain() };
    assert!(parse_markdown("a[^1]\n\n[^1]: n", notes)
        .contains(&DocEvent::FootnoteReference("1".to_string())));
    assert!(!parse_markdown("a[^1]\n\n[^1]: n", plain())
        .contains(&DocEvent::FootnoteReference("1".to_string())));
    let smart = ParserOptions { smart_punctuation: true, ..plain() };
    assert!(parse_markdown("a -- b", smart).contains(&text("\u{2013}")));
    assert!(parse_markdown("a -- b", plain()).contains(&text("a -- b")));
}

#[test]
fn parses_a_table() {
    assert_eq!(
        parse_markdown("|h|\n|-|\n|c|", all()),
        vec![
            start(TagKind::Table),
            start(TagKind::TableHead),
            start(TagKind::TableCell),
            text("h"),
            end(TagKind::TableCell),
            end(TagKind::TableHead),
            start(TagKind::TableRow),
            start(TagKind::TableCell),
            text("c"),
            end(TagKind::TableCell),
            end(TagKind::TableRow),
            end(TagKind::Table),
        ]
    );
}

#[test]
fn parses_footnotes_and_task_lists() {
    assert_eq!(
        parse_markdown("a[^n]\n\n[^n]: note", all()),
        vec![
            start(TagKind::Paragraph),
            text("a"),
            DocEvent::FootnoteReference("n".to_string()),
            end(TagKind::Paragraph),
            start(TagKind::FootnoteDefinition("n".to_string())),
            start(TagKind::Paragraph),
            text("note"),
            end(TagKind::Paragraph),
            end(TagKind::FootnoteDefinition("n".to_string())),
        ]
    );
    assert_eq!(
        parse_markdown("- [ ] a", all()),
        vec![
            start(TagKind::List(false)),
            start(TagKind::ListItem),
            DocEvent::TaskListMarker(false),
            text("a"),
            end(TagKind::ListItem),
            end(TagKind::List(false)),
        ]
    );
}

#[test]
fn arguments_give_the_parser_options() {
    let args = Args {
        dialect: Dialect::Xenforo,
        input: None,
        output: Some("out.txt".to_string()),
        tables: true,
        footnotes: false,
        strikethrough: true,
        tasklists: false,
        smart_punctuation: true,
        encoding_warnings: false,
    };
    assert_eq!(
        args.markdown_options(),
        ParserOptions {
            tables: true,
            footnotes: false,
            strikethrough: true,
            tasklists: false,
            smart_punctuation: true,
        }
    );
}

#[test]
fn a_list_is_ordered_whatever_its_first_number() {
    assert_eq!(list_kind(None), TagKind::List(false));
    assert_eq!(list_kind(Some(0)), TagKind::List(true));
    assert_eq!(list_kind(Some(1)), TagKind::List(true));
    assert_eq!(list_kind(Some(3)), TagKind::List(true));
    assert_eq!(list_kind(Some(u64::MAX)), TagKind::List(true));
}
