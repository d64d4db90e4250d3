use md2bbcode::args::Dialect;
use md2bbcode::diagnostics::{TranslationError, Warning};
use md2bbcode::encoding::{is_representable, validate};
use md2bbcode::policy::InlineMarker;

#[test]
fn xenforo_holds_what_fits_a_16_bit_code_unit() {
    assert!(is_representable('a', Dialect::Xenforo));
    assert!(is_representable('\u{fffd}', Dialect::Xenforo));
    assert!(is_representable('\u{fffe}', Dialect::Xenforo));
    assert!(is_representable('\u{ffff}', Dialect::Xenforo));
    assert!(!is_representable('\u{10000}', Dialect::Xenforo));
    assert!(!is_representable('\u{10ffff}', Dialect::Xenforo));
}

#[test]
fn proboards_holds_every_character() {
    assert!(is_representable('\u{fffe}', Dialect::Proboards));
    assert!(is_representable('\u{10ffff}', Dialect::Proboards));
}

#[test]
fn validate_reports_each_violation_in_order() {
    assert_eq!(
        validate("a\u{1f600}b\u{ffff}\u{1f600}", Dialect::Xenforo),
        vec![
            Warning::EncodingRangeViolation('\u{1f600}'),
            Warning::EncodingRangeViolation('\u{1f600}'),
        ]
    );
}

#[test]
fn validate_is_silent_on_clean_text_and_on_proboards() {
    assert_eq!(validate("", Dialect::Xenforo), vec![]);
    assert_eq!(validate("\u{fffd}\u{fffe}\u{ffff}", Dialect::Xenforo), vec![]);
    assert_eq!(
        validate("\u{ffff}\u{10000}\u{10ffff}", Dialect::Xenforo),
        vec![
            Warning::EncodingRangeViolation('\u{10000}'),
            Warning::EncodingRangeViolation('\u{10ffff}'),
        ]
    );
    assert_eq!(validate("plain \u{2501} text", Dialect::Xenforo), vec![]);
    assert_eq!(validate("a\u{1f600}", Dialect::Proboards), vec![]);
}

#[test]
fn warning_messages() {
    assert_eq!(
        Warning::UnsupportedConstruct(Dialect::Proboards, InlineMarker::DisclosureOpen).message(),
        "[[WARN]] ProBoards doesn\u{2019}t support `<details>`"
    );
    assert_eq!(
        Warning::UnsupportedConstruct(Dialect::Xenforo, InlineMarker::QuoteClose).message(),
        "[[WARN]] XenForo doesn\u{2019}t support `</blockquote>`"
    );
    assert_eq!(
        Warning::UnrecognizedMarkup("<span>".to_string()).message(),
        "[[WARN]] Unrecognised HTML tag: <span>"
    );
    assert_eq!(
        Warning::EncodingRangeViolation('\u{1f600}').message(),
        "[[WARN]] Non-UCS-2 character in output: '\u{1f600}' (U+1f600)"
    );
    assert_eq!(
        Warning::EncodingRangeViolation('\u{10000}').message(),
        "[[WARN]] Non-UCS-2 character in output: '\u{10000}' (U+10000)"
    );
}

#[test]
fn error_message() {
    assert_eq!(
        TranslationError::MalformedInlineMarkup.message(),
        "A `<summary>` element (including its contents) must be all on a single line"
    );
}
