//! The flow content type.
//!
//! **Flow** represents the sections, such as headings and code, which are
//! parsed per line.
//! An example is HTML, which has a certain starting condition (such as
//! `<script>` on its own line), then continues for a while, until an end
//! condition is found (such as `</style>`).
//! If that line with an end condition is never found, that flow goes until
//! the end.
//!
//! The constructs found in flow are blank line, code (fenced), code
//! (indented), definition, heading (atx), heading (setext), HTML (flow),
//! thematic break, and, when nothing else matches, paragraph.

use vstd::prelude::*;
use crate::event::Name;
use crate::state::{Name as StateName, State};
use crate::tokenizer::{Tokenizer, TokenizerView};

verus! {

/// Try `construct`: go to `ok` when it succeeds and to `nok` when it fails.
pub open spec fn spec_try(t: TokenizerView, construct: StateName, ok: State, nok: State) -> (
    TokenizerView,
    State,
) {
    (t.attempt(ok, nok), State::Retry(construct))
}

fn try_construct(tokenizer: &mut Tokenizer, construct: StateName, ok: State, nok: State) -> (r: State)
    ensures
        (final(tokenizer)@, r) == spec_try(old(tokenizer)@, construct, ok, nok),
{
    tokenizer.attempt(ok, nok);
    State::Retry(construct)
}

/// For a byte that can start a construct in flow: that construct.
pub open spec fn construct_at(b: u8) -> Option<StateName> {
    if b == 96 || b == 126 {
        Some(StateName::RawFlowStart)
    } else if b == 60 {
        Some(StateName::HtmlFlowStart)
    } else if b == 35 {
        Some(StateName::HeadingAtxStart)
    } else if b == 61 {
        Some(StateName::HeadingSetextStart)
    } else if b == 42 || b == 95 {
        Some(StateName::ThematicBreakStart)
    } else if b == 91 {
        Some(StateName::DefinitionStart)
    } else {
        None
    }
}

/// Whether a byte may start a blank line, indented code, or a setext
/// underline or thematic break made of `-`.
pub open spec fn blank_like(b: u8) -> bool {
    b == 9 || b == 10 || b == 32 || b == 45
}

/// Before flow: try the construct that the byte can start (a paragraph when
/// that fails); at the end, whitespace, a line ending, or `-`, first assume
/// a blank line; otherwise a paragraph.
pub open spec fn spec_start(t: TokenizerView) -> (TokenizerView, State) {
    match t.current {
        None => (t, State::Retry(StateName::FlowBlankLineBefore)),
        Some(b) => match construct_at(b) {
            Some(construct) => spec_try(
                t,
                construct,
                State::Next(StateName::FlowAfter),
                State::Next(StateName::FlowBeforeParagraph),
            ),
            None => if blank_like(b) {
                (t, State::Retry(StateName::FlowBlankLineBefore))
            } else {
                spec_try(t, StateName::ParagraphStart, State::Next(StateName::FlowAfter), State::Nok)
            },
        },
    }
}

/// Before flow.
///
/// First we assume a blank line.
///
/// ```markdown
/// |
/// |## alpha
/// |    bravo
/// |***
/// ```
pub fn start(tokenizer: &mut Tokenizer) -> (r: State)
    ensures
        (final(tokenizer)@, r) == spec_start(old(tokenizer)@),
{
    let ok = State::Next(StateName::FlowAfter);
    let nok = State::Next(StateName::FlowBeforeParagraph);
    match tokenizer.current {
        Some(96 | 126) => try_construct(tokenizer, StateName::RawFlowStart, ok, nok),
        Some(60) => try_construct(tokenizer, StateName::HtmlFlowStart, ok, nok),
        Some(35) => try_construct(tokenizer, StateName::HeadingAtxStart, ok, nok),
        Some(61) => try_construct(tokenizer, StateName::HeadingSetextStart, ok, nok),
        Some(42 | 95) => try_construct(tokenizer, StateName::ThematicBreakStart, ok, nok),
        Some(91) => try_construct(tokenizer, StateName::DefinitionStart, ok, nok),
        None | Some(9 | 10 | 32 | 45) => State::Retry(StateName::FlowBlankLineBefore),
        Some(_) => try_construct(tokenizer, StateName::ParagraphStart, ok, State::Nok),
    }
}

/// Before a blank line: try it, then indented code and the rest.
pub open spec fn spec_blank_line_before(t: TokenizerView) -> (TokenizerView, State) {
    spec_try(
        t,
        StateName::BlankLineStart,
        State::Next(StateName::FlowBlankLineAfter),
        State::Next(StateName::FlowBeforeCodeIndented),
    )
}

/// Before flow, perhaps a blank line.
///
/// ```markdown
/// |
/// |    bravo
/// ```
pub fn blank_line_before(tokenizer: &mut Tokenizer) -> (r: State)
    ensures
        (final(tokenizer)@, r) == spec_blank_line_before(old(tokenizer)@),
{
    try_construct(
        tokenizer,
        StateName::BlankLineStart,
        State::Next(StateName::FlowBlankLineAfter),
        State::Next(StateName::FlowBeforeCodeIndented),
    )
}

/// Before flow (initial): indented code is the only construct that starts Try it, and go on to the next construct when it
/// fails.
pub open spec fn spec_before_code_indented(t: TokenizerView) -> (TokenizerView, State) {
    spec_try(
        t,
        StateName::CodeIndentedStart,
        State::Next(StateName::FlowAfter),
        State::Next(StateName::FlowBeforeCodeFenced),
    )
}

/// Before flow (initial): indented code is the only construct that starts
/// right at the start of a line.
///
/// ```markdown
/// |qwe
/// |    asd
/// ```
pub fn before_code_indented(tokenizer: &mut Tokenizer) -> (r: State)
    ensures
        (final(tokenizer)@, r) == spec_before_code_indented(old(tokenizer)@),
{
    try_construct(
        tokenizer,
        StateName::CodeIndentedStart,
        State::Next(StateName::FlowAfter),
        State::Next(StateName::FlowBeforeCodeFenced),
    )
}

/// Before code (fenced). Try it, and go on to the next construct when it
/// fails.
pub open spec fn spec_before_code_fenced(t: TokenizerView) -> (TokenizerView, State) {
    spec_try(
        t,
        StateName::RawFlowStart,
        State::Next(StateName::FlowAfter),
        State::Next(StateName::FlowBeforeHtml),
    )
}

/// Before code (fenced).
///
/// ```markdown
/// |~~~js
/// |console.log(1)
/// ```
pub fn before_code_fenced(tokenizer: &mut Tokenizer) -> (r: State)
    ensures
        (final(tokenizer)@, r) == spec_before_code_fenced(old(tokenizer)@),
{
    try_construct(
        tokenizer,
        StateName::RawFlowStart,
        State::Next(StateName::FlowAfter),
        State::Next(StateName::FlowBeforeHtml),
    )
}

/// Before HTML (flow). Try it, and go on to the next construct when it
/// fails.
pub open spec fn spec_before_html(t: TokenizerView) -> (TokenizerView, State) {
    spec_try(
        t,
        StateName::HtmlFlowStart,
        State::Next(StateName::FlowAfter),
        State::Next(StateName::FlowBeforeHeadingAtx),
    )
}

/// Before HTML (flow).
///
/// ```markdown
/// |<div>
/// ```
pub fn before_html(tokenizer: &mut Tokenizer) -> (r: State)
    ensures
        (final(tokenizer)@, r) == spec_before_html(old(tokenizer)@),
{
    try_construct(
        tokenizer,
        StateName::HtmlFlowStart,
        State::Next(StateName::FlowAfter),
        State::Next(StateName::FlowBeforeHeadingAtx),
    )
}

/// Before heading (atx). Try it, and go on to the next construct when it
/// fails.
pub open spec fn spec_before_heading_atx(t: TokenizerView) -> (TokenizerView, State) {
    spec_try(
        t,
        StateName::HeadingAtxStart,
        State::Next(StateName::FlowAfter),
        State::Next(StateName::FlowBeforeHeadingSetext),
    )
}

/// Before heading (atx).
///
/// ```markdown
/// |# a
/// ```
pub fn before_heading_atx(tokenizer: &mut Tokenizer) -> (r: State)
    ensures
        (final(tokenizer)@, r) == spec_before_heading_atx(old(tokenizer)@),
{
    try_construct(
        tokenizer,
        StateName::HeadingAtxStart,
        State::Next(StateName::FlowAfter),
        State::Next(StateName::FlowBeforeHeadingSetext),
    )
}

/// Before heading (setext). Try it, and go on to the next construct when it
/// fails.
pub open spec fn spec_before_heading_setext(t: TokenizerView) -> (TokenizerView, State) {
    spec_try(
        t,
        StateName::HeadingSetextStart,
        State::Next(StateName::FlowAfter),
        State::Next(StateName::FlowBeforeThematicBreak),
    )
}

/// Before heading (setext).
///
/// ```markdown
/// |a
/// |==
/// ```
pub fn before_heading_setext(tokenizer: &mut Tokenizer) -> (r: State)
    ensures
        (final(tokenizer)@, r) == spec_before_heading_setext(old(tokenizer)@),
{
    try_construct(
        tokenizer,
        StateName::HeadingSetextStart,
        State::Next(StateName::FlowAfter),
        State::Next(StateName::FlowBeforeThematicBreak),
    )
}

/// Before thematic break. Try it, and go on to the next construct when it
/// fails.
pub open spec fn spec_before_thematic_break(t: TokenizerView) -> (TokenizerView, State) {
    spec_try(
        t,
        StateName::ThematicBreakStart,
        State::Next(StateName::FlowAfter),
        State::Next(StateName::FlowBeforeDefinition),
    )
}

/// Before thematic break.
///
/// ```markdown
/// |***
/// ```
pub fn before_thematic_break(tokenizer: &mut Tokenizer) -> (r: State)
    ensures
        (final(tokenizer)@, r) == spec_before_thematic_break(old(tokenizer)@),
{
    try_construct(
        tokenizer,
        StateName::ThematicBreakStart,
        State::Next(StateName::FlowAfter),
        State::Next(StateName::FlowBeforeDefinition),
    )
}

/// Before definition. Try it, and go on to the next construct when it
/// fails.
pub open spec fn spec_before_definition(t: TokenizerView) -> (TokenizerView, State) {
    spec_try(
        t,
        StateName::DefinitionStart,
        State::Next(StateName::FlowAfter),
        State::Next(StateName::FlowBeforeParagraph),
    )
}

/// Before definition.
///
/// ```markdown
/// |[a]: b
/// ```
pub fn before_definition(tokenizer: &mut Tokenizer) -> (r: State)
    ensures
        (final(tokenizer)@, r) == spec_before_definition(old(tokenizer)@),
{
    try_construct(
        tokenizer,
        StateName::DefinitionStart,
        State::Next(StateName::FlowAfter),
        State::Next(StateName::FlowBeforeParagraph),
    )
}

/// What `blank_line_after` and `after` need: they are at a line ending or
/// the end.
pub open spec fn pre_at_eol(t: TokenizerView) -> bool {
    t.at_eol_or_eof()
}

/// After a blank line: at the end, done; at a line ending, take it, and
/// let what follows interrupt.
pub open spec fn spec_blank_line_after(t: TokenizerView) -> (TokenizerView, State) {
    if t.current is None {
        (t, State::Okay)
    } else {
        (
            t.enter(Name::BlankLineEnding).consume().exit(Name::BlankLineEnding).set_interrupt(false),
            State::Next(StateName::FlowStart),
        )
    }
}

/// After a blank line.
///
/// Move to `start` afterwards.
///
/// ```markdown
/// ␠␠|
/// ```
pub fn blank_line_after(tokenizer: &mut Tokenizer) -> (r: State)
    requires
        pre_at_eol(old(tokenizer)@),
    ensures
        (final(tokenizer)@, r) == spec_blank_line_after(old(tokenizer)@),
{
    if tokenizer.current.is_none() {
        State::Okay
    } else {
        tokenizer.enter(Name::BlankLineEnding);
        tokenizer.consume();
        tokenizer.exit(Name::BlankLineEnding);
        // Feel free to interrupt.
        tokenizer.set_interrupt(false);
        State::Next(StateName::FlowStart)
    }
}

/// After something: at the end, done; at a line ending, take it.
pub open spec fn spec_after(t: TokenizerView) -> (TokenizerView, State) {
    if t.current is None {
        (t, State::Okay)
    } else {
        (
            t.enter(Name::LineEnding).consume().exit(Name::LineEnding),
            State::Next(StateName::FlowStart),
        )
    }
}

/// After something.
///
/// ```markdown
/// ## alpha|
/// |
/// ~~~js
/// asd
/// ~~~|
/// ```
pub fn after(tokenizer: &mut Tokenizer) -> (r: State)
    requires
        pre_at_eol(old(tokenizer)@),
    ensures
        (final(tokenizer)@, r) == spec_after(old(tokenizer)@),
{
    if tokenizer.current.is_none() {
        State::Okay
    } else {
        tokenizer.enter(Name::LineEnding);
        tokenizer.consume();
        tokenizer.exit(Name::LineEnding);
        State::Next(StateName::FlowStart)
    }
}

/// Before a paragraph: it must succeed.
pub open spec fn spec_before_paragraph(t: TokenizerView) -> (TokenizerView, State) {
    spec_try(t, StateName::ParagraphStart, State::Next(StateName::FlowAfter), State::Nok)
}

/// Before a paragraph.
///
/// ```markdown
/// |asd
/// ```
pub fn before_paragraph(tokenizer: &mut Tokenizer) -> (r: State)
    ensures
        (final(tokenizer)@, r) == spec_before_paragraph(old(tokenizer)@),
{
    try_construct(tokenizer, StateName::ParagraphStart, State::Next(StateName::FlowAfter), State::Nok)
}

/// Whether `blank_line_after` and `after` can run.
pub fn can_at_eol(tokenizer: &Tokenizer) -> (r: bool)
    ensures
        r == pre_at_eol(tokenizer@),
{
    matches!(tokenizer.current, None | Some(10))
}

} // verus!
