use crate::args::{Args, Dialect};
use crate::diagnostics::{Diagnostic, TranslationError, Warning};
use crate::encoding::range_violations;
use crate::markdown::{markdown_events, parse_markdown, ParserOptions};
use crate::text::{append_str, chars_of, string_of, trim, trimmed};
use crate::translate::{gained, run, translate};
use vstd::prelude::*;

verus! {

/// Converts Markdown source text into the markup of a dialect: the text is
/// parsed, and the events are translated in order.  Warnings go to the sink;
/// with `encoding_warnings` the finished text is looked through as well.
pub fn convert(
    input: &str,
    dialect: Dialect,
    encoding_warnings: bool,
    markdown_opts: ParserOptions,
    sink: &mut Vec<Warning>,
) -> (r: Result<String, TranslationError>)
    ensures
        match r {
            Ok(text) => {
                &&& run(markdown_events(input@, markdown_opts), dialect).failure is None
                &&& text@ == run(markdown_events(input@, markdown_opts), dialect).state.output
                &&& gained(
                    old(sink)@,
                    final(sink)@,
                    run(markdown_events(input@, markdown_opts), dialect).warnings
                        + if encoding_warnings {
                        range_violations(text@, dialect)
                    } else {
                        Seq::empty()
                    },
                )
            },
            Err(e) => {
                &&& run(markdown_events(input@, markdown_opts), dialect).failure == Some(e)
                &&& gained(
                    old(sink)@,
                    final(sink)@,
                    run(markdown_events(input@, markdown_opts), dialect).warnings,
                )
            },
        },
{
    let events = parse_markdown(input, markdown_opts);
    translate(&events, dialect, encoding_warnings, sink)
}

/// A converted text as it is delivered: without the white space around it,
/// and with a line end.
pub open spec fn delivered(output: Seq<char>) -> Seq<char> {
    trim(output) + "\n"@
}

/// Makes a converted text ready for delivery.
pub fn deliver(output: &str) -> (text: String)
    ensures
        text@ == delivered(output@),
{
    let chars = chars_of(output);
    let mut body = trimmed(&chars);
    append_str(&mut body, "\n");
    string_of(&body)
}

/// Converts Markdown source text as the arguments ask for, and makes the
/// result ready for delivery.
pub fn convert_document(args: &Args, input: &str, sink: &mut Vec<Warning>) -> (r: Result<
    String,
    TranslationError,
>)
    ensures
        match r {
            Ok(text) => {
                let done = run(markdown_events(input@, args.parser_options()), args.dialect);
                &&& done.failure is None
                &&& text@ == delivered(done.state.output)
                &&& gained(
                    old(sink)@,
                    final(sink)@,
                    done.warnings + if args.encoding_warnings {
                        range_violations(done.state.output, args.dialect)
                    } else {
                        Seq::<Diagnostic>::empty()
                    },
                )
            },
            Err(e) => {
                let done = run(markdown_events(input@, args.parser_options()), args.dialect);
                &&& done.failure == Some(e)
                &&& gained(old(sink)@, final(sink)@, done.warnings)
            },
        },
{
    match convert(input, args.dialect, args.encoding_warnings, args.markdown_options(), sink) {
        Ok(output) => Ok(deliver(output.as_str())),
        Err(e) => Err(e),
    }
}

} // verus!
