use md2bbcode::args::Dialect;
use md2bbcode::diagnostics::{TranslationError, Warning};
use md2bbcode::policy::InlineMarker;
use md2bbcode::raw::{
    classify, disclosure_label, find_delimiter, find_piece, is_line_break, translate_raw,
    RawConstruct, RawTranslation, Span,
};

fn chars(s: &str) -> Vec<char> {
    s.chars().collect()
}

fn plain(text: &str) -> Result<RawTranslation, TranslationError> {
    Ok(RawTranslation { text: text.to_string(), warning: None })
}

fn passed(fragment: &str, named: &str) -> Result<RawTranslation, TranslationError> {
    Ok(RawTranslation {
        text: fragment.to_string(),
        warning: Some(Warning::UnrecognizedMarkup(named.to_string())),
    })
}

#[test]
fn simple_markers_translate_the_same_in_both_dialects() {
    let pairs = [
        ("<del>", "[s]"),
        ("</del>", "[/s]"),
        ("<sup>", "[sup]"),
        ("</sup>", "[/sup]"),
        ("<sub>", "[sub]"),
        ("</sub>", "[/sub]"),
        ("<b>", "[b]"),
        ("</b>", "[/b]"),
        ("<i>", "[i]"),
        ("</i>", "[/i]"),
    ];
    for (source, markup) in pairs {
        assert_eq!(translate_raw(source, Dialect::Xenforo), plain(markup));
        assert_eq!(translate_raw(source, Dialect::Proboards), plain(markup));
    }
}

#[test]
fn block_quote_markers_follow_the_dialect() {
    assert_eq!(translate_raw("<blockquote>", Dialect::Xenforo), plain("[quote]"));
    assert_eq!(translate_raw("</blockquote>", Dialect::Xenforo), plain("[/quote]"));
    assert_eq!(translate_raw("<blockquote>", Dialect::Proboards), plain("[blockquote]"));
    assert_eq!(translate_raw("</blockquote>", Dialect::Proboards), plain("[/blockquote]"));
}

#[test]
fn markers_are_matched_after_trimming() {
    assert_eq!(translate_raw("  <del>\n", Dialect::Xenforo), plain("[s]"));
    assert_eq!(translate_raw("\t</details> ", Dialect::Xenforo), plain("[/spoiler]\n"));
}

#[test]
fn markers_are_case_sensitive() {
    assert_eq!(translate_raw("<DEL>", Dialect::Xenforo), passed("<DEL>", "<DEL>"));
    assert_eq!(translate_raw("<B>", Dialect::Proboards), passed("<B>", "<B>"));
}

#[test]
fn details_in_xenforo() {
    assert_eq!(translate_raw("<details>", Dialect::Xenforo), plain("\n[spoiler="));
    assert_eq!(translate_raw("</details>", Dialect::Xenforo), plain("[/spoiler]\n"));
}

#[test]
fn details_in_proboards_warn_once_and_emit_nothing() {
    assert_eq!(
        translate_raw("<details>", Dialect::Proboards),
        Ok(RawTranslation {
            text: String::new(),
            warning: Some(Warning::UnsupportedConstruct(
                Dialect::Proboards,
                InlineMarker::DisclosureOpen
            )),
        })
    );
    assert_eq!(translate_raw("</details>", Dialect::Proboards), plain(""));
}

#[test]
fn line_breaks() {
    for source in ["<br>", "<br/>", "<br />", " <br\t/> ", "<br\u{a0}>", "<br>x"] {
        assert_eq!(translate_raw(source, Dialect::Xenforo), plain("\n"));
        assert_eq!(translate_raw(source, Dialect::Proboards), plain("\n"));
    }
}

#[test]
fn what_only_starts_like_a_line_break_is_passed_through() {
    assert_eq!(translate_raw("<br", Dialect::Xenforo), passed("<br", "<br"));
    assert_eq!(translate_raw(" <brx> ", Dialect::Xenforo), passed(" <brx> ", "<brx>"));
    assert_eq!(translate_raw("<break>\n", Dialect::Proboards), passed("<break>\n", "<break>"));
}

#[test]
fn summary_with_its_label_and_closing_marker() {
    assert_eq!(
        translate_raw("<summary>Click me</summary>", Dialect::Xenforo),
        plain("Click me]")
    );
    assert_eq!(
        translate_raw("  <summary>Click me</summary>\n", Dialect::Xenforo),
        plain("Click me]")
    );
    assert_eq!(
        translate_raw("<summary class=\"x\">A</summary>", Dialect::Xenforo),
        plain("A]")
    );
    assert_eq!(translate_raw("<summary></summary>", Dialect::Xenforo), plain("]"));
}

#[test]
fn summary_label_has_its_entities_decoded() {
    assert_eq!(
        translate_raw("<summary>a &lt; b &amp;&amp; c &#x41; &unknown;</summary>", Dialect::Xenforo),
        plain("a < b && c A &unknown;]")
    );
}

#[test]
fn summary_label_ends_at_the_next_angle_bracket() {
    assert_eq!(
        translate_raw("<summary>a<b>c</b></summary>", Dialect::Xenforo),
        plain("a]")
    );
    assert_eq!(
        translate_raw("<summary</summary>", Dialect::Xenforo),
        plain("/summary]")
    );
}

#[test]
fn summary_without_its_closing_marker_is_an_error() {
    for source in ["<summary>Click me", "<summary>", "<summary", "<summary>a</summary> b"] {
        assert_eq!(
            translate_raw(source, Dialect::Xenforo),
            Err(TranslationError::MalformedInlineMarkup)
        );
    }
}

#[test]
fn summary_in_proboards_is_dropped_without_a_word() {
    assert_eq!(translate_raw("<summary>Click me</summary>", Dialect::Proboards), plain(""));
    assert_eq!(translate_raw("<summary>Click me", Dialect::Proboards), plain(""));
}

#[test]
fn comments_are_dropped_without_a_word() {
    for source in ["<!-- note -->", "<!DOCTYPE html>", "<!", "<!-- a --> "] {
        assert_eq!(translate_raw(source, Dialect::Xenforo), plain(""));
        assert_eq!(translate_raw(source, Dialect::Proboards), plain(""));
    }
}

#[test]
fn a_comment_behind_white_space_is_passed_through() {
    assert_eq!(
        translate_raw(" <!-- a -->", Dialect::Xenforo),
        passed(" <!-- a -->", " <!-- a -->")
    );
}

#[test]
fn unknown_fragments_are_passed_through_with_one_warning() {
    assert_eq!(translate_raw("<span>", Dialect::Xenforo), passed("<span>", "<span>"));
    assert_eq!(translate_raw(" <u> ", Dialect::Proboards), passed(" <u> ", " <u> "));
    assert_eq!(translate_raw("", Dialect::Proboards), passed("", ""));
    assert_eq!(translate_raw("<del >", Dialect::Proboards), passed("<del >", "<del >"));
}

#[test]
fn classification() {
    assert_eq!(classify(&chars("<sup>")), RawConstruct::Marker(InlineMarker::SuperscriptOpen));
    assert_eq!(classify(&chars("<details>")), RawConstruct::Marker(InlineMarker::DisclosureOpen));
    assert_eq!(classify(&chars("<br")), RawConstruct::Break);
    assert_eq!(classify(&chars("<brrr>")), RawConstruct::Break);
    assert_eq!(classify(&chars("<summaryx")), RawConstruct::Summary);
    assert_eq!(classify(&chars("<summar")), RawConstruct::Other);
    assert_eq!(classify(&chars(" <b>")), RawConstruct::Other);
    assert_eq!(classify(&chars("")), RawConstruct::Other);
}

#[test]
fn line_break_looks_at_the_fourth_character() {
    assert!(is_line_break(&chars("<br>")));
    assert!(is_line_break(&chars("<br/")));
    assert!(is_line_break(&chars("<br\n")));
    assert!(is_line_break(&chars("abc>")));
    assert!(!is_line_break(&chars("<br")));
    assert!(!is_line_break(&chars("<bra")));
    assert!(!is_line_break(&chars("")));
}

#[test]
fn delimiters_and_pieces() {
    let s = chars("ab<cd>ef");
    assert_eq!(find_delimiter(&s, 0), 2);
    assert_eq!(find_delimiter(&s, 2), 2);
    assert_eq!(find_delimiter(&s, 3), 5);
    assert_eq!(find_delimiter(&s, 6), 8);
    assert_eq!(find_delimiter(&s, 8), 8);
    assert_eq!(find_delimiter(&s, 20), 8);
    assert_eq!(find_piece(&s, 0), Some(Span { from: 0, to: 2 }));
    assert_eq!(find_piece(&s, 1), Some(Span { from: 3, to: 5 }));
    assert_eq!(find_piece(&s, 2), Some(Span { from: 6, to: 8 }));
    assert_eq!(find_piece(&s, 3), None);
    assert_eq!(find_piece(&chars(""), 0), Some(Span { from: 0, to: 0 }));
    assert_eq!(find_piece(&chars(""), 1), None);
    assert_eq!(find_piece(&chars(">"), 1), Some(Span { from: 1, to: 1 }));
}

#[test]
fn disclosure_label_puts_the_end_behind_the_label() {
    assert_eq!(
        disclosure_label("a & b".to_string(), "]"),
        RawTranslation { text: "a & b]".to_string(), warning: None }
    );
    assert_eq!(
        disclosure_label(String::new(), "]"),
        RawTranslation { text: "]".to_string(), warning: None }
    );
}
