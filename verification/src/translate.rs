use crate::args::Dialect;
use crate::diagnostics::{diagnostics, Diagnostic, TranslationError, Warning};
use crate::encoding::{range_violations, validate};
use crate::event::{DocEvent, TagKind};
use crate::policy::{
    close_markup, footnote_reference, inline_code, open_markup, rule_markup, task_marker,
    thematic_break, write_close, write_footnote_reference, write_inline_code, write_open,
    write_task_marker,
};
use crate::raw::{raw_effect, translate_raw};
use crate::text::{append_str, string_of, trim_end, truncate_white_space};
use vstd::prelude::*;

verus! {

/// What a translation holds between two events.
pub ghost struct TranslatorState {
    /// What has been emitted.
    pub output: Seq<char>,
    /// A list item was opened and has no content yet.
    pub pending_item_open: bool,
    /// A footnote definition was opened and has no content yet.
    pub pending_footnote_open: bool,
}

impl TranslatorState {
    /// At most one construct waits for its first content.
    pub open spec fn well_formed(self) -> bool {
        !(self.pending_item_open && self.pending_footnote_open)
    }

    /// The state with a text put at the end of the output.
    pub open spec fn emit(self, text: Seq<char>) -> TranslatorState {
        TranslatorState { output: self.output + text, ..self }
    }
}

/// The state that every translation starts from.
pub open spec fn initial_state() -> TranslatorState {
    TranslatorState {
        output: Seq::empty(),
        pending_item_open: false,
        pending_footnote_open: false,
    }
}

/// The state after a construct was opened.  A paragraph that is the first
/// content of a list item or of a footnote definition gets no blank line.
pub open spec fn after_start(s: TranslatorState, tag: TagKind, dialect: Dialect) -> TranslatorState {
    match tag {
        TagKind::Paragraph => if s.pending_item_open || s.pending_footnote_open {
            TranslatorState { pending_item_open: false, pending_footnote_open: false, ..s }
        } else {
            s.emit(open_markup(tag, dialect))
        },
        TagKind::ListItem => TranslatorState {
            output: s.output + open_markup(tag, dialect),
            pending_item_open: true,
            pending_footnote_open: false,
        },
        TagKind::FootnoteDefinition(_) => TranslatorState {
            output: s.output + open_markup(tag, dialect),
            pending_item_open: false,
            pending_footnote_open: true,
        },
        _ => s.emit(open_markup(tag, dialect)),
    }
}

/// The state after a construct was closed.  The white space that has
/// gathered at the end of a list item goes before the item is closed.
pub open spec fn after_end(s: TranslatorState, tag: TagKind, dialect: Dialect) -> TranslatorState {
    match tag {
        TagKind::ListItem => TranslatorState {
            output: trim_end(s.output) + close_markup(tag, dialect),
            ..s
        },
        _ => s.emit(close_markup(tag, dialect)),
    }
}

/// What one event leads to: the next state and what is told to the user.
pub ghost struct Step {
    pub state: TranslatorState,
    pub warnings: Seq<Diagnostic>,
}

/// A step that tells the user nothing.
pub open spec fn quiet(state: TranslatorState) -> Step {
    Step { state, warnings: Seq::empty() }
}

/// What one event leads to, or the error that it ends the translation with.
pub open spec fn after_event(s: TranslatorState, event: DocEvent, dialect: Dialect) -> Result<
    Step,
    TranslationError,
> {
    match event {
        DocEvent::StartTag(tag) => Ok(quiet(after_start(s, tag, dialect))),
        DocEvent::EndTag(tag) => Ok(quiet(after_end(s, tag, dialect))),
        DocEvent::Text(text) => Ok(quiet(s.emit(text@))),
        DocEvent::InlineCode(code) => Ok(quiet(s.emit(inline_code(code@, dialect)))),
        DocEvent::RawInline(fragment) => match raw_effect(fragment@, dialect) {
            Ok(effect) => Ok(
                Step {
                    state: s.emit(effect.text),
                    warnings: match effect.warning {
                        Some(w) => seq![w],
                        None => Seq::empty(),
                    },
                },
            ),
            Err(e) => Err(e),
        },
        DocEvent::FootnoteReference(label) => Ok(quiet(s.emit(footnote_reference(label@, dialect)))),
        DocEvent::SoftBreak => Ok(quiet(s.emit(" "@))),
        DocEvent::HardBreak => Ok(quiet(s.emit("\n"@))),
        DocEvent::ThematicBreak => Ok(quiet(s.emit(thematic_break(dialect)))),
        DocEvent::TaskListMarker(checked) => Ok(quiet(s.emit(task_marker(checked)))),
    }
}

/// How far a translation has come: its state, what it has told the user,
/// and the error that stopped it, if one did.
pub ghost struct Run {
    pub state: TranslatorState,
    pub warnings: Seq<Diagnostic>,
    pub failure: Option<TranslationError>,
}

/// A translation that has not seen any event.
pub open spec fn fresh() -> Run {
    Run { state: initial_state(), warnings: Seq::empty(), failure: None }
}

/// A translation after one more event.  Nothing changes after an error.
pub open spec fn advance(before: Run, event: DocEvent, dialect: Dialect) -> Run {
    if before.failure is Some {
        before
    } else {
        match after_event(before.state, event, dialect) {
            Ok(step) => Run {
                state: step.state,
                warnings: before.warnings + step.warnings,
                failure: None,
            },
            Err(e) => Run { failure: Some(e), ..before },
        }
    }
}

/// A translation after a sequence of events more, taken one by one and in
/// order.
pub open spec fn run_from(start: Run, events: Seq<DocEvent>, dialect: Dialect) -> Run
    decreases events.len(),
{
    if events.len() == 0 {
        start
    } else {
        advance(run_from(start, events.drop_last(), dialect), events.last(), dialect)
    }
}

/// The translation of a document.
pub open spec fn run(events: Seq<DocEvent>, dialect: Dialect) -> Run {
    run_from(fresh(), events, dialect)
}

/// Whether a sink has gained exactly the given warnings, at its end.
pub open spec fn gained(before: Seq<Warning>, after: Seq<Warning>, warnings: Seq<Diagnostic>) -> bool {
    &&& before.is_prefix_of(after)
    &&& diagnostics(after.skip(before.len() as int)) == warnings
}

/// A translation in progress.
pub struct Translator {
    dialect: Dialect,
    pending_item_open: bool,
    pending_footnote_open: bool,
    output: Vec<char>,
}

impl Translator {
    /// The state of the translation.
    pub closed spec fn view(&self) -> TranslatorState {
        TranslatorState {
            output: self.output@,
            pending_item_open: self.pending_item_open,
            pending_footnote_open: self.pending_footnote_open,
        }
    }

    /// The dialect that is translated into.
    pub closed spec fn target(&self) -> Dialect {
        self.dialect
    }

    /// A translation into the given dialect, with nothing emitted yet.
    pub fn new(dialect: Dialect) -> (t: Translator)
        ensures
            t@ == initial_state(),
            t.target() == dialect,
    {
        Translator {
            dialect,
            pending_item_open: false,
            pending_footnote_open: false,
            output: Vec::new(),
        }
    }

    /// Takes the next event of the document.  Warnings go to the sink; on an
    /// error nothing changes.
    pub fn feed(&mut self, event: &DocEvent, sink: &mut Vec<Warning>) -> (r: Result<
        (),
        TranslationError,
    >)
        requires
            old(self)@.well_formed(),
        ensures
            final(self).target() == old(self).target(),
            final(self)@.well_formed(),
            match after_event(old(self)@, *event, old(self).target()) {
                Ok(step) => r is Ok && final(self)@ == step.state && gained(
                    old(sink)@,
                    final(sink)@,
                    step.warnings,
                ),
                Err(e) => r == Err::<(), TranslationError>(e) && final(self)@ == old(self)@
                    && final(sink)@ == old(sink)@,
            },
    {
        proof {
            assert(old(sink)@.skip(old(sink)@.len() as int) =~= Seq::<Warning>::empty());
            assert(diagnostics(Seq::<Warning>::empty()) =~= Seq::<Diagnostic>::empty());
            assert(old(sink)@ =~= old(sink)@.subrange(0, old(sink)@.len() as int));
        }
        match event {
            DocEvent::StartTag(tag) => {
                match tag {
                    TagKind::Paragraph => {
                        if self.pending_item_open || self.pending_footnote_open {
                            self.pending_item_open = false;
                            self.pending_footnote_open = false;
                        } else {
                            write_open(&mut self.output, tag, self.dialect);
                        }
                    },
                    TagKind::ListItem => {
                        self.pending_item_open = true;
                        self.pending_footnote_open = false;
                        write_open(&mut self.output, tag, self.dialect);
                    },
                    TagKind::FootnoteDefinition(_) => {
                        self.pending_item_open = false;
                        self.pending_footnote_open = true;
                        write_open(&mut self.output, tag, self.dialect);
                    },
                    _ => {
                        write_open(&mut self.output, tag, self.dialect);
                    },
                }
                Ok(())
            },
            DocEvent::EndTag(tag) => {
                match tag {
                    TagKind::ListItem => {
                        truncate_white_space(&mut self.output);
                    },
                    _ => {},
                }
                write_close(&mut self.output, tag, self.dialect);
                Ok(())
            },
            DocEvent::Text(text) => {
                append_str(&mut self.output, text.as_str());
                Ok(())
            },
            DocEvent::InlineCode(code) => {
                write_inline_code(&mut self.output, code.as_str(), self.dialect);
                Ok(())
            },
            DocEvent::RawInline(fragment) => {
                match translate_raw(fragment.as_str(), self.dialect) {
                    Ok(translation) => {
                        append_str(&mut self.output, translation.text.as_str());
                        match translation.warning {
                            Some(w) => {
                                sink.push(w);
                                assert(sink@.skip(old(sink)@.len() as int) =~= seq![w]);
                                assert(diagnostics(seq![w]) =~= seq![w@]);
                                assert(old(sink)@ =~= sink@.subrange(0, old(sink)@.len() as int));
                            },
                            None => {},
                        }
                        Ok(())
                    },
                    Err(e) => Err(e),
                }
            },
            DocEvent::FootnoteReference(label) => {
                write_footnote_reference(&mut self.output, label.as_str(), self.dialect);
                Ok(())
            },
            DocEvent::SoftBreak => {
                append_str(&mut self.output, " ");
                Ok(())
            },
            DocEvent::HardBreak => {
                append_str(&mut self.output, "\n");
                Ok(())
            },
            DocEvent::ThematicBreak => {
                append_str(&mut self.output, rule_markup(self.dialect));
                Ok(())
            },
            DocEvent::TaskListMarker(checked) => {
                write_task_marker(&mut self.output, *checked);
                Ok(())
            },
        }
    }

    /// What has been emitted.
    pub fn finish(self) -> (text: String)
        ensures
            text@ == self@.output,
    {
        string_of(&self.output)
    }
}

/// A document may be translated in two parts: the second part goes on
/// from where the first has come to.
pub proof fn lemma_run_in_parts(start: Run, a: Seq<DocEvent>, b: Seq<DocEvent>, dialect: Dialect)
    ensures
        run_from(start, a + b, dialect) == run_from(run_from(start, a, dialect), b, dialect),
    decreases b.len(),
{
    if b.len() == 0 {
        assert(a + b =~= a);
    } else {
        assert((a + b).drop_last() =~= a + b.drop_last());
        lemma_run_in_parts(start, a, b.drop_last(), dialect);
    }
}

/// A translation that has failed stays as it is, whatever follows.
pub proof fn lemma_failure_is_final(events: Seq<DocEvent>, n: int, dialect: Dialect)
    requires
        0 <= n <= events.len(),
        run(events.take(n), dialect).failure is Some,
    ensures
        run(events, dialect) == run(events.take(n), dialect),
    decreases events.len() - n,
{
    if n < events.len() {
        assert(events.take(n + 1).drop_last() == events.take(n));
        lemma_failure_is_final(events, n + 1, dialect);
    } else {
        assert(events.take(n) == events);
    }
}

/// Translates a document into a dialect.  Warnings go to the sink, in the
/// order in which they arise; with `validate_encoding` the finished text is
/// looked through as well.  On an error no text is handed back.
pub fn translate(
    events: &Vec<DocEvent>,
    dialect: Dialect,
    validate_encoding: bool,
    sink: &mut Vec<Warning>,
) -> (r: Result<String, TranslationError>)
    ensures
        match r {
            Ok(text) => {
                &&& run(events@, dialect).failure is None
                &&& text@ == run(events@, dialect).state.output
                &&& gained(
                    old(sink)@,
                    final(sink)@,
                    run(events@, dialect).warnings + if validate_encoding {
                        range_violations(text@, dialect)
                    } else {
                        Seq::empty()
                    },
                )
            },
            Err(e) => {
                &&& run(events@, dialect).failure == Some(e)
                &&& gained(old(sink)@, final(sink)@, run(events@, dialect).warnings)
            },
        },
{
    let mut translator = Translator::new(dialect);
    let ghost start = sink@;
    proof {
        assert(events@.take(0) =~= Seq::<DocEvent>::empty());
        assert(sink@.skip(start.len() as int) =~= Seq::<Warning>::empty());
        assert(diagnostics(Seq::<Warning>::empty()) =~= Seq::<Diagnostic>::empty());
        assert(start =~= sink@.subrange(0, start.len() as int));
    }
    let mut i: usize = 0;
    while i < events.len()
        invariant
            i <= events@.len(),
            start == old(sink)@,
            translator.target() == dialect,
            translator@.well_formed(),
            run(events@.take(i as int), dialect).failure is None,
            run(events@.take(i as int), dialect).state == translator@,
            gained(start, sink@, run(events@.take(i as int), dialect).warnings),
        decreases events@.len() - i,
    {
        let ghost before = sink@;
        proof {
            assert(events@.take(i + 1).drop_last() == events@.take(i as int));
            assert(events@.take(i + 1).last() == events@[i as int]);
        }
        match translator.feed(&events[i], sink) {
            Ok(()) => {
                proof {
                    let gain = before.skip(start.len() as int);
                    let step = sink@.skip(before.len() as int);
                    assert(sink@.skip(start.len() as int) =~= gain + step);
                    assert(diagnostics(gain + step) =~= diagnostics(gain) + diagnostics(step));
                    assert(start =~= sink@.subrange(0, start.len() as int));
                }
            },
            Err(e) => {
                proof {
                    lemma_failure_is_final(events@, i + 1, dialect);
                }
                return Err(e);
            },
        }
        i += 1;
    }
    assert(events@.take(i as int) == events@);
    let text = translator.finish();
    if validate_encoding {
        let ghost before = sink@;
        let mut found = validate(text.as_str(), dialect);
        let ghost added = found@;
        sink.append(&mut found);
        proof {
            let gain = before.skip(start.len() as int);
            assert(sink@.skip(start.len() as int) =~= gain + added);
            assert(diagnostics(gain + added) =~= diagnostics(gain) + diagnostics(added));
            assert(start =~= sink@.subrange(0, start.len() as int));
        }
    } else {
        assert(run(events@, dialect).warnings + Seq::<Diagnostic>::empty() =~= run(
            events@,
            dialect,
        ).warnings);
    }
    Ok(text)
}

} // verus!
