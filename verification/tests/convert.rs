use md2bbcode::args::{Args, Dialect};
use md2bbcode::convert::{convert, convert_document, deliver};
use md2bbcode::diagnostics::{TranslationError, Warning};
use md2bbcode::markdown::ParserOptions;
use md2bbcode::policy::InlineMarker;

fn options(on: bool) -> ParserOptions {
    ParserOptions {
        tables: on,
        footnotes: on,
        strikethrough: on,
        tasklists: on,
        smart_punctuation: on,
    }
}

fn quiet(input: &str, dialect: Dialect) -> String {
    let mut sink = Vec::new();
    let out = convert(input, dialect, true, options(true), &mut sink).unwrap();
    assert_eq!(sink, vec![]);
    out
}

fn args(dialect: Dialect) -> Args {
    Args {
        dialect,
        input: None,
        output: None,
        tables: true,
        footnotes: true,
        strikethrough: true,
        tasklists: true,
        smart_punctuation: false,
        encoding_warnings: true,
    }
}

#[test]
fn hello_heading_in_xenforo() {
    let out = quiet("# Hello", Dialect::Xenforo);
    assert_eq!(out, "\n[size=\"7\"][b][u]Hello[/u][/b][/size]\n");
    assert_eq!(deliver(&out), "[size=\"7\"][b][u]Hello[/u][/b][/size]\n");
}

#[test]
fn single_item_list_in_xenforo() {
    let out = quiet("- item", Dialect::Xenforo);
    assert_eq!(out, "[list]\n[*]item\n[/list]");
}

#[test]
fn loose_list_in_both_dialects() {
    let source = "- a\n\n- b\n";
    assert_eq!(quiet(source, Dialect::Xenforo), "[list]\n[*]a\n[*]b\n[/list]");
    assert_eq!(
        quiet(source, Dialect::Proboards),
        "\n[ul]\n[li]a[/li]\n[li]b[/li]\n[/ul]"
    );
}

#[test]
fn ordered_list_with_a_start_number_uses_the_default_token() {
    assert_eq!(quiet("7. a\n8. b", Dialect::Xenforo), "[list=1]\n[*]a\n[*]b\n[/list]");
    assert_eq!(quiet("1. a\n2. b", Dialect::Xenforo), "[list=1]\n[*]a\n[*]b\n[/list]");
    assert_eq!(
        quiet("7. a\n8. b", Dialect::Proboards),
        "\n[ol]\n[li]a[/li]\n[li]b[/li]\n[/ol]"
    );
}

#[test]
fn paragraph_with_inline_markup() {
    assert_eq!(
        quiet("Some *text* with `code` and ~~more~~.", Dialect::Proboards),
        "\nSome [i]text[/i] with [tt]code[/tt] and [s]more[/s].\n"
    );
}

#[test]
fn disclosure_from_markdown() {
    let source = "<details>\n<summary>More &amp; more</summary>\n\nbody\n\n</details>\n";
    let mut sink = Vec::new();
    let x = convert(source, Dialect::Xenforo, false, options(false), &mut sink).unwrap();
    assert_eq!(x, "\n[spoiler=More & more]\nbody\n[/spoiler]\n");
    assert_eq!(sink, vec![]);
    let p = convert(source, Dialect::Proboards, false, options(false), &mut sink).unwrap();
    assert_eq!(p, "\nbody\n");
    assert_eq!(
        sink,
        vec![Warning::UnsupportedConstruct(
            Dialect::Proboards,
            InlineMarker::DisclosureOpen
        )]
    );
}

#[test]
fn summary_split_by_nested_markup_fails() {
    let source = "a <details><summary>More *and* more</summary>body</details>";
    let mut sink = Vec::new();
    assert_eq!(
        convert(source, Dialect::Xenforo, false, options(false), &mut sink),
        Err(TranslationError::MalformedInlineMarkup)
    );
    assert_eq!(sink, vec![]);
}

#[test]
fn unknown_inline_html_is_kept_and_reported() {
    let mut sink = Vec::new();
    let out = convert("a <span>b</span>", Dialect::Xenforo, false, options(false), &mut sink);
    assert_eq!(out, Ok("\na <span>b</span>\n".to_string()));
    assert_eq!(
        sink,
        vec![
            Warning::UnrecognizedMarkup("<span>".to_string()),
            Warning::UnrecognizedMarkup("</span>".to_string()),
        ]
    );
}

#[test]
fn comments_vanish() {
    let mut sink = Vec::new();
    let out = convert("a <!-- b --> c", Dialect::Xenforo, false, options(false), &mut sink);
    assert_eq!(out, Ok("\na  c\n".to_string()));
    assert_eq!(sink, vec![]);
}

#[test]
fn encoding_warnings_are_optional() {
    let mut sink = Vec::new();
    convert("a \u{1f600}", Dialect::Xenforo, false, options(false), &mut sink).unwrap();
    assert_eq!(sink, vec![]);
    convert("a \u{1f600}", Dialect::Xenforo, true, options(false), &mut sink).unwrap();
    assert_eq!(sink, vec![Warning::EncodingRangeViolation('\u{1f600}')]);
}

#[test]
fn deliver_trims_and_ends_the_line() {
    assert_eq!(deliver("\n\n a \n b \n\n"), "a \n b\n");
    assert_eq!(deliver(""), "\n");
    assert_eq!(deliver(" \n "), "\n");
}

#[test]
fn convert_document_follows_the_arguments() {
    let mut sink = Vec::new();
    let out = convert_document(&args(Dialect::Xenforo), "# Hello\n\n~~x~~ \u{1f600}", &mut sink);
    assert_eq!(
        out,
        Ok("[size=\"7\"][b][u]Hello[/u][/b][/size]\n\n[s]x[/s] \u{1f600}\n".to_string())
    );
    assert_eq!(sink, vec![Warning::EncodingRangeViolation('\u{1f600}')]);
    let mut none = Vec::new();
    let plain = Args { strikethrough: false, encoding_warnings: false, ..args(Dialect::Proboards) };
    assert_eq!(
        convert_document(&plain, "~~x~~ \u{1f600}", &mut none),
        Ok("~~x~~ \u{1f600}\n".to_string())
    );
    assert_eq!(none, vec![]);
}

#[test]
fn convert_document_fails_as_convert_does() {
    let mut sink = Vec::new();
    assert_eq!(
        convert_document(&args(Dialect::Xenforo), "a <summary>b", &mut sink),
        Err(TranslationError::MalformedInlineMarkup)
    );
}
