use md2bbcode::args::Dialect;
use md2bbcode::diagnostics::{TranslationError, Warning};
use md2bbcode::event::{DocEvent, HeadingRank, TagKind};
use md2bbcode::policy::InlineMarker;
use md2bbcode::translate::{translate, Translator};

fn text(s: &str) -> DocEvent {
    DocEvent::Text(s.to_string())
}

fn start(tag: TagKind) -> DocEvent {
    DocEvent::StartTag(tag)
}

fn end(tag: TagKind) -> DocEvent {
    DocEvent::EndTag(tag)
}

fn render(events: Vec<DocEvent>, dialect: Dialect) -> String {
    let mut sink = Vec::new();
    let out = translate(&events, dialect, false, &mut sink).unwrap();
    assert!(sink.is_empty());
    out
}

fn wrapped(tag: TagKind, body: &str, dialect: Dialect) -> String {
    render(vec![start(tag.clone()), text(body), end(tag)], dialect)
}

#[test]
fn empty_document_gives_empty_output() {
    assert_eq!(render(vec![], Dialect::Xenforo), "");
    assert_eq!(render(vec![], Dialect::Proboards), "");
}

#[test]
fn heading_level_one_xenforo() {
    let out = wrapped(TagKind::Heading(HeadingRank::H1), "Hello", Dialect::Xenforo);
    assert_eq!(out, "\n[size=\"7\"][b][u]Hello[/u][/b][/size]\n");
    assert_eq!(out.trim(), "[size=\"7\"][b][u]Hello[/u][/b][/size]");
}

#[test]
fn heading_level_one_proboards() {
    let out = wrapped(TagKind::Heading(HeadingRank::H1), "Hello", Dialect::Proboards);
    assert_eq!(out, "\n\n[font size=\"7\"][b][u]Hello[/u][/b][/font]\n\n");
}

#[test]
fn heading_sizes_fall_with_the_level() {
    let ranks = [
        (HeadingRank::H1, '7'),
        (HeadingRank::H2, '6'),
        (HeadingRank::H3, '5'),
        (HeadingRank::H4, '3'),
        (HeadingRank::H5, '3'),
        (HeadingRank::H6, '3'),
    ];
    for (rank, digit) in ranks {
        let x = wrapped(TagKind::Heading(rank), "t", Dialect::Xenforo);
        assert_eq!(x, format!("\n[size=\"{}\"][b][u]t[/u][/b][/size]\n", digit));
        let p = wrapped(TagKind::Heading(rank), "t", Dialect::Proboards);
        assert_eq!(p, format!("\n\n[font size=\"{}\"][b][u]t[/u][/b][/font]\n\n", digit));
    }
}

#[test]
fn paragraph_gets_a_blank_line_before_and_a_line_end_after() {
    assert_eq!(wrapped(TagKind::Paragraph, "a", Dialect::Xenforo), "\na\n");
    assert_eq!(wrapped(TagKind::Paragraph, "a", Dialect::Proboards), "\na\n");
}

#[test]
fn block_quote() {
    assert_eq!(wrapped(TagKind::BlockQuote, "q", Dialect::Xenforo), "[quote]q[/quote]");
    assert_eq!(
        wrapped(TagKind::BlockQuote, "q", Dialect::Proboards),
        "[blockquote]q[/blockquote]"
    );
}

#[test]
fn code_block() {
    assert_eq!(wrapped(TagKind::CodeBlock, "c", Dialect::Xenforo), "[code]c[/code]\n");
    assert_eq!(wrapped(TagKind::CodeBlock, "c", Dialect::Proboards), "\n[pre]c[/pre]\n");
}

#[test]
fn single_item_unordered_list_xenforo() {
    let events = vec![
        start(TagKind::List(false)),
        start(TagKind::ListItem),
        text("item"),
        end(TagKind::ListItem),
        end(TagKind::List(false)),
    ];
    assert_eq!(render(events, Dialect::Xenforo), "[list]\n[*]item\n[/list]");
}

#[test]
fn single_item_unordered_list_proboards() {
    let events = vec![
        start(TagKind::List(false)),
        start(TagKind::ListItem),
        text("item"),
        end(TagKind::ListItem),
        end(TagKind::List(false)),
    ];
    assert_eq!(render(events, Dialect::Proboards), "\n[ul]\n[li]item[/li]\n[/ul]");
}

#[test]
fn ordered_list_uses_the_default_token() {
    let events = vec![
        start(TagKind::List(true)),
        start(TagKind::ListItem),
        text("a"),
        end(TagKind::ListItem),
        end(TagKind::List(true)),
    ];
    assert_eq!(render(events.clone(), Dialect::Xenforo), "[list=1]\n[*]a\n[/list]");
    assert_eq!(render(events, Dialect::Proboards), "\n[ol]\n[li]a[/li]\n[/ol]");
}

#[test]
fn list_of_three_items_has_three_markers() {
    let mut events = vec![start(TagKind::List(false))];
    for body in ["a", "b", "c"] {
        events.push(start(TagKind::ListItem));
        events.push(start(TagKind::Paragraph));
        events.push(text(body));
        events.push(end(TagKind::Paragraph));
        events.push(end(TagKind::ListItem));
    }
    events.push(end(TagKind::List(false)));
    let x = render(events.clone(), Dialect::Xenforo);
    assert_eq!(x, "[list]\n[*]a\n[*]b\n[*]c\n[/list]");
    assert_eq!(x.matches("[*]").count(), 3);
    let p = render(events, Dialect::Proboards);
    assert_eq!(p, "\n[ul]\n[li]a[/li]\n[li]b[/li]\n[li]c[/li]\n[/ul]");
    assert_eq!(p.matches("[li]").count(), 3);
    assert_eq!(p.matches("[/li]").count(), 3);
}

#[test]
fn only_the_first_paragraph_of_an_item_loses_its_blank_line() {
    let events = vec![
        start(TagKind::ListItem),
        start(TagKind::Paragraph),
        text("a"),
        end(TagKind::Paragraph),
        start(TagKind::Paragraph),
        text("b"),
        end(TagKind::Paragraph),
        end(TagKind::ListItem),
    ];
    assert_eq!(render(events, Dialect::Proboards), "\n[li]a\n\nb[/li]");
}

#[test]
fn closing_an_item_drops_all_trailing_white_space() {
    let events = vec![
        text("x \n"),
        start(TagKind::ListItem),
        text("a \t\n\u{a0}\u{3000}"),
        end(TagKind::ListItem),
    ];
    assert_eq!(render(events, Dialect::Proboards), "x \n\n[li]a[/li]");
}

#[test]
fn closing_an_item_right_after_white_space_output_trims_past_the_item() {
    let events = vec![text("x \n"), end(TagKind::ListItem)];
    assert_eq!(render(events.clone(), Dialect::Xenforo), "x");
    assert_eq!(render(events, Dialect::Proboards), "x[/li]");
}

#[test]
fn footnote_definition() {
    let tag = TagKind::FootnoteDefinition("n1".to_string());
    let events = vec![
        start(tag.clone()),
        start(TagKind::Paragraph),
        text("note"),
        end(TagKind::Paragraph),
        end(tag),
    ];
    assert_eq!(
        render(events.clone(), Dialect::Xenforo),
        "\n\u{231c}n1\u{231d}: note\n\n"
    );
    assert_eq!(render(events, Dialect::Proboards), "\n\u{231c}n1\u{231d}: note\n\n");
}

#[test]
fn pending_flags_are_cleared_together() {
    let events = vec![
        start(TagKind::ListItem),
        start(TagKind::FootnoteDefinition("f".to_string())),
        start(TagKind::Paragraph),
        start(TagKind::Paragraph),
    ];
    assert_eq!(
        render(events, Dialect::Xenforo),
        "\n[*]\n\u{231c}f\u{231d}: \n"
    );
}

#[test]
fn footnote_reference() {
    let events = vec![DocEvent::FootnoteReference("n1".to_string())];
    assert_eq!(render(events.clone(), Dialect::Xenforo), "\u{231c}n1\u{231d}");
    assert_eq!(
        render(events, Dialect::Proboards),
        "[sup]\u{231c}n1\u{231d}[/sup]"
    );
}

#[test]
fn table() {
    let events = vec![
        start(TagKind::Table),
        start(TagKind::TableHead),
        start(TagKind::TableCell),
        text("h"),
        end(TagKind::TableCell),
        end(TagKind::TableHead),
        start(TagKind::TableRow),
        start(TagKind::TableCell),
        text("c"),
        end(TagKind::TableCell),
        end(TagKind::TableRow),
        end(TagKind::Table),
    ];
    assert_eq!(
        render(events.clone(), Dialect::Xenforo),
        "[table][tr][td]h[/td][/tr][tr][td]c[/td][/tr][/table]"
    );
    assert_eq!(
        render(events, Dialect::Proboards),
        "[table]\n  [thead][tr][td]h[/td][/tr][/thead]\n  [tbody][tr][td]c[/td][/tr]\n  [/tbody]\n[/table]"
    );
}

#[test]
fn emphasis_strong_strikethrough() {
    for d in [Dialect::Xenforo, Dialect::Proboards] {
        assert_eq!(wrapped(TagKind::Emphasis, "e", d), "[i]e[/i]");
        assert_eq!(wrapped(TagKind::Strong, "s", d), "[b]s[/b]");
        assert_eq!(wrapped(TagKind::Strikethrough, "x", d), "[s]x[/s]");
    }
}

#[test]
fn link() {
    let tag = TagKind::Link("http://a.b/c".to_string());
    assert_eq!(
        wrapped(tag.clone(), "t", Dialect::Xenforo),
        "[url=http://a.b/c]t[/url]"
    );
    assert_eq!(
        wrapped(tag, "t", Dialect::Proboards),
        "[a href=\"http://a.b/c\"]t[/a]"
    );
}

#[test]
fn image() {
    let tag = TagKind::Image("u.png".to_string(), "alt".to_string());
    let events = vec![start(tag.clone()), end(tag)];
    assert_eq!(render(events.clone(), Dialect::Xenforo), "[img]u.png[/img]");
    assert_eq!(
        render(events, Dialect::Proboards),
        "[img src=\"u.png\" alt=\"alt\"]"
    );
}

#[test]
fn inline_code() {
    let events = vec![DocEvent::InlineCode("x()".to_string())];
    assert_eq!(
        render(events.clone(), Dialect::Xenforo),
        "[font=Courier New]x()[/font]"
    );
    assert_eq!(render(events, Dialect::Proboards), "[tt]x()[/tt]");
}

#[test]
fn breaks_and_rule() {
    assert_eq!(render(vec![DocEvent::SoftBreak], Dialect::Xenforo), " ");
    assert_eq!(render(vec![DocEvent::HardBreak], Dialect::Proboards), "\n");
    let bar: String = std::iter::repeat('\u{2501}').take(32).collect();
    assert_eq!(
        render(vec![DocEvent::ThematicBreak], Dialect::Xenforo),
        format!("\n{}\n", bar)
    );
    assert_eq!(render(vec![DocEvent::ThematicBreak], Dialect::Proboards), "\n[hr]\n");
}

#[test]
fn task_list_markers() {
    assert_eq!(
        render(vec![DocEvent::TaskListMarker(true)], Dialect::Xenforo),
        "\u{2611}\u{a0}"
    );
    assert_eq!(
        render(vec![DocEvent::TaskListMarker(false)], Dialect::Proboards),
        "\u{2610}\u{a0}"
    );
}

#[test]
fn nested_constructs_close_in_turn() {
    let link = TagKind::Link("u".to_string());
    let events = vec![
        start(TagKind::BlockQuote),
        start(TagKind::Strong),
        start(TagKind::Emphasis),
        start(link.clone()),
        text("t"),
        end(link),
        end(TagKind::Emphasis),
        end(TagKind::Strong),
        end(TagKind::BlockQuote),
    ];
    assert_eq!(
        render(events, Dialect::Xenforo),
        "[quote][b][i][url=u]t[/url][/i][/b][/quote]"
    );
}

#[test]
fn raw_inline_is_translated_in_place() {
    let events = vec![
        text("a"),
        DocEvent::RawInline("<del>".to_string()),
        text("b"),
        DocEvent::RawInline("</del>".to_string()),
    ];
    assert_eq!(render(events, Dialect::Xenforo), "a[s]b[/s]");
}

#[test]
fn unknown_raw_inline_warns_and_passes_through() {
    let events = vec![text("a"), DocEvent::RawInline(" <span> ".to_string()), text("b")];
    let mut sink = Vec::new();
    let out = translate(&events, Dialect::Xenforo, false, &mut sink).unwrap();
    assert_eq!(out, "a <span> b");
    assert_eq!(sink, vec![Warning::UnrecognizedMarkup(" <span> ".to_string())]);
}

#[test]
fn disclosure_xenforo() {
    let events = vec![
        DocEvent::RawInline("<details>".to_string()),
        DocEvent::RawInline("<summary>More &amp; more</summary>".to_string()),
        text("body"),
        DocEvent::RawInline("</details>".to_string()),
    ];
    assert_eq!(
        render(events, Dialect::Xenforo),
        "\n[spoiler=More & more]body[/spoiler]\n"
    );
}

#[test]
fn disclosure_proboards_leaves_no_brackets() {
    let events = vec![
        DocEvent::RawInline("<details>".to_string()),
        DocEvent::RawInline("<summary>More</summary>".to_string()),
        text("body"),
        DocEvent::RawInline("</details>".to_string()),
    ];
    let mut sink = Vec::new();
    let out = translate(&events, Dialect::Proboards, false, &mut sink).unwrap();
    assert_eq!(out, "body");
    assert_eq!(
        sink,
        vec![Warning::UnsupportedConstruct(
            Dialect::Proboards,
            InlineMarker::DisclosureOpen
        )]
    );
}

#[test]
fn malformed_summary_aborts_and_keeps_earlier_warnings() {
    let events = vec![
        DocEvent::RawInline("<x>".to_string()),
        DocEvent::RawInline("<summary>More".to_string()),
        DocEvent::RawInline("<y>".to_string()),
    ];
    let mut sink = vec![Warning::EncodingRangeViolation('\u{10000}')];
    let r = translate(&events, Dialect::Xenforo, true, &mut sink);
    assert_eq!(r, Err(TranslationError::MalformedInlineMarkup));
    assert_eq!(
        sink,
        vec![
            Warning::EncodingRangeViolation('\u{10000}'),
            Warning::UnrecognizedMarkup("<x>".to_string())
        ]
    );
}

#[test]
fn malformed_summary_is_no_error_without_disclosures() {
    let events = vec![DocEvent::RawInline("<summary>More".to_string())];
    assert_eq!(render(events, Dialect::Proboards), "");
}

#[test]
fn encoding_warnings_follow_the_translation_warnings() {
    let events = vec![
        text("a\u{1f600}"),
        DocEvent::RawInline("<u>".to_string()),
        text("\u{fffe}\u{ffff}\u{10000}"),
    ];
    let mut sink = Vec::new();
    let out = translate(&events, Dialect::Xenforo, true, &mut sink).unwrap();
    assert_eq!(out, "a\u{1f600}<u>\u{fffe}\u{ffff}\u{10000}");
    assert_eq!(
        sink,
        vec![
            Warning::UnrecognizedMarkup("<u>".to_string()),
            Warning::EncodingRangeViolation('\u{1f600}'),
            Warning::EncodingRangeViolation('\u{10000}'),
        ]
    );
    let mut quiet = Vec::new();
    translate(&events, Dialect::Xenforo, false, &mut quiet).unwrap();
    assert_eq!(quiet, vec![Warning::UnrecognizedMarkup("<u>".to_string())]);
    let mut other = Vec::new();
    translate(&events, Dialect::Proboards, true, &mut other).unwrap();
    assert_eq!(other, vec![Warning::UnrecognizedMarkup("<u>".to_string())]);
}

#[test]
fn translator_takes_events_one_by_one() {
    let mut sink = Vec::new();
    let mut t = Translator::new(Dialect::Proboards);
    t.feed(&start(TagKind::ListItem), &mut sink).unwrap();
    t.feed(&start(TagKind::Paragraph), &mut sink).unwrap();
    t.feed(&text("a"), &mut sink).unwrap();
    let r = t.feed(&DocEvent::RawInline("<summary".to_string()), &mut sink);
    assert_eq!(r, Ok(()));
    t.feed(&end(TagKind::Paragraph), &mut sink).unwrap();
    t.feed(&end(TagKind::ListItem), &mut sink).unwrap();
    assert_eq!(t.finish(), "\n[li]a[/li]");
    assert!(sink.is_empty());
}

#[test]
fn translator_is_unchanged_by_a_failing_event() {
    let mut sink = Vec::new();
    let mut t = Translator::new(Dialect::Xenforo);
    t.feed(&text("a"), &mut sink).unwrap();
    let r = t.feed(&DocEvent::RawInline("<summary>x".to_string()), &mut sink);
    assert_eq!(r, Err(TranslationError::MalformedInlineMarkup));
    assert!(sink.is_empty());
    assert_eq!(t.finish(), "a");
}

fn tags(out: &str) -> (usize, usize) {
    let chars: Vec<char> = out.chars().collect();
    let mut opened = 0;
    let mut closed = 0;
    for pair in chars.windows(2) {
        if pair[0] == '[' && pair[1].is_ascii_lowercase() {
            opened += 1;
        }
        if pair[0] == '[' && pair[1] == '/' {
            closed += 1;
        }
    }
    (opened, closed)
}

#[test]
fn nested_document_closes_what_it_opens() {
    let link = TagKind::Link("http://a.b".to_string());
    let note = TagKind::FootnoteDefinition("n".to_string());
    let events = vec![
        start(TagKind::Heading(HeadingRank::H2)),
        text("h"),
        end(TagKind::Heading(HeadingRank::H2)),
        start(TagKind::BlockQuote),
        start(TagKind::List(true)),
        start(TagKind::ListItem),
        start(TagKind::Paragraph),
        start(TagKind::Strong),
        start(link.clone()),
        text("t "),
        DocEvent::InlineCode("c".to_string()),
        end(link),
        end(TagKind::Strong),
        DocEvent::FootnoteReference("n".to_string()),
        end(TagKind::Paragraph),
        start(TagKind::List(false)),
        start(TagKind::ListItem),
        DocEvent::TaskListMarker(true),
        start(TagKind::Strikethrough),
        text("x"),
        end(TagKind::Strikethrough),
        DocEvent::SoftBreak,
        end(TagKind::ListItem),
        end(TagKind::List(false)),
        end(TagKind::ListItem),
        end(TagKind::List(true)),
        start(TagKind::CodeBlock),
        text("code"),
        end(TagKind::CodeBlock),
        end(TagKind::BlockQuote),
        start(note.clone()),
        start(TagKind::Paragraph),
        start(TagKind::Emphasis),
        text("e"),
        end(TagKind::Emphasis),
        DocEvent::HardBreak,
        end(TagKind::Paragraph),
        end(note),
    ];
    let x = render(events.clone(), Dialect::Xenforo);
    assert_eq!(
        x,
        "\n[size=\"6\"][b][u]h[/u][/b][/size]\n[quote][list=1]\n[*][b][url=http://a.b]t \
         [font=Courier New]c[/font][/url][/b]\u{231c}n\u{231d}\n[list]\n[*]\u{2611}\u{a0}[s]x[/s]\
         \n[/list]\n[/list][code]code[/code]\n[/quote]\n\u{231c}n\u{231d}: [i]e[/i]\n\n\n"
    );
    assert_eq!(tags(&x), (12, 12));
    let p = render(events, Dialect::Proboards);
    let (opened, closed) = tags(&p);
    assert_eq!(opened, closed);
    assert_eq!(opened, 15);
}

#[test]
fn table_and_head_balance_together() {
    let events = vec![
        start(TagKind::Table),
        start(TagKind::TableHead),
        end(TagKind::TableHead),
        end(TagKind::Table),
    ];
    for d in [Dialect::Xenforo, Dialect::Proboards] {
        let (opened, closed) = tags(&render(events.clone(), d));
        assert_eq!(opened, closed);
    }
    let image = TagKind::Image("u".to_string(), "a".to_string());
    let alone = vec![start(image.clone()), end(image)];
    assert_eq!(tags(&render(alone.clone(), Dialect::Xenforo)), (1, 1));
    assert_eq!(tags(&render(alone, Dialect::Proboards)), (1, 0));
}

#[test]
fn item_markers_are_emitted_once_for_each_item() {
    let mut events = vec![start(TagKind::List(false))];
    for body in ["a", "b ] c", "d"] {
        events.push(start(TagKind::ListItem));
        events.push(start(TagKind::Paragraph));
        events.push(text(body));
        events.push(DocEvent::InlineCode("li".to_string()));
        events.push(end(TagKind::Paragraph));
        events.push(start(TagKind::List(true)));
        for inner in ["x", "*]"] {
            events.push(start(TagKind::ListItem));
            events.push(DocEvent::TaskListMarker(false));
            events.push(text(inner));
            events.push(DocEvent::ThematicBreak);
            events.push(end(TagKind::ListItem));
        }
        events.push(end(TagKind::List(true)));
        events.push(end(TagKind::ListItem));
    }
    events.push(end(TagKind::List(false)));
    events.push(start(TagKind::ListItem));
    let x = render(events.clone(), Dialect::Xenforo);
    assert_eq!(x.matches("[*]").count(), 10);
    let p = render(events, Dialect::Proboards);
    assert_eq!(p.matches("[li]").count(), 10);
    assert_eq!(p.matches("[/li]").count(), 9);
}

#[test]
fn texts_with_brackets_can_join_to_a_marker() {
    let events = vec![text("["), text("*]")];
    assert_eq!(render(events, Dialect::Xenforo).matches("[*]").count(), 1);
}
