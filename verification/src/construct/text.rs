//! The text content type.
//!
//! **Text** contains phrasing content such as attention (emphasis, gfm
//! strikethrough, strong), raw (text) (code (text), math (text)), and actual
//! text.
//!
//! The constructs found in text are attention, autolink, character escape,
//! character reference, raw (text), GFM label start (footnote), GFM task list
//! item check, hard break (escape), HTML (text), label start (image), label
//! start (link), and label end.
//! Each starts at one of a few bytes; everything else is data.
//!
//! > 👉 **Note**: for performance reasons, hard break (trailing) is formed by
//! > whitespace.

use vstd::prelude::*;
use crate::construct::partial_whitespace::{pre_resolve_whitespace, resolve_whitespace, spec_resolve_whitespace};
use crate::resolve::Name as ResolveName;
use crate::state::{Name as StateName, State};
use crate::tokenizer::{Tokenizer, TokenizerView, TokenizeStateView};

verus! {

/// Characters that can start something in text: `!`, `$`, `&`, `*`, `<`,
/// `[`, `\`, `]`, `_`, `` ` ``, and `~`.
pub open spec fn markers() -> Seq<u8> {
    seq![33u8, 36u8, 38u8, 42u8, 60u8, 91u8, 92u8, 93u8, 95u8, 96u8, 126u8]
}

/// Start of text: set the markers, and check for a task list item check
/// first.
pub open spec fn spec_start(t: TokenizerView) -> (TokenizerView, State) {
    (
        t.with_ts(TokenizeStateView { markers: markers(), ..t.ts }).attempt(
            State::Next(StateName::TextBefore),
            State::Next(StateName::TextBefore),
        ),
        State::Retry(StateName::GfmTaskListItemCheckStart),
    )
}

/// Start of text.
///
/// There is a slightly weird case where task list items have their check at
/// the start of the first paragraph.
/// So we start by checking for that.
///
/// ```markdown
/// > | abc
///     ^
/// ```
pub fn start(tokenizer: &mut Tokenizer) -> (r: State)
    ensures
        (final(tokenizer)@, r) == spec_start(old(tokenizer)@),
{
    tokenizer.tokenize_state.markers = vec![33, 36, 38, 42, 60, 91, 92, 93, 95, 96, 126];
    proof {
        assert(tokenizer.tokenize_state.markers@ =~= markers());
    }
    tokenizer.attempt(State::Next(StateName::TextBefore), State::Next(StateName::TextBefore));
    State::Retry(StateName::GfmTaskListItemCheckStart)
}

/// For a byte that can start something: the state that starts it, and where
/// to go when that fails.
pub open spec fn construct_at(b: u8) -> Option<(StateName, StateName)> {
    if b == 33 {
        Some((StateName::LabelStartImageStart, StateName::TextBeforeData))
    } else if b == 36 || b == 96 {
        Some((StateName::RawTextStart, StateName::TextBeforeData))
    } else if b == 38 {
        Some((StateName::CharacterReferenceStart, StateName::TextBeforeData))
    } else if b == 42 || b == 95 || b == 126 {
        Some((StateName::AttentionStart, StateName::TextBeforeData))
    } else if b == 60 {
        Some((StateName::AutolinkStart, StateName::TextBeforeHtml))
    } else if b == 91 {
        Some((StateName::GfmLabelStartFootnoteStart, StateName::TextBeforeLabelStartLink))
    } else if b == 92 {
        Some((StateName::CharacterEscapeStart, StateName::TextBeforeHardBreakEscape))
    } else if b == 93 {
        Some((StateName::LabelEndStart, StateName::TextBeforeData))
    } else {
        None
    }
}

/// Before text: at the end, register the resolvers of data and text and
/// succeed; at a byte that can start something, try it; otherwise data.
pub open spec fn spec_before(t: TokenizerView) -> (TokenizerView, State) {
    match t.current {
        None => (
            t.register_resolver(ResolveName::Data).register_resolver(ResolveName::Text),
            State::Okay,
        ),
        Some(b) => match construct_at(b) {
            Some((construct, nok)) => (
                t.attempt(State::Next(StateName::TextBefore), State::Next(nok)),
                State::Retry(construct),
            ),
            None => (t, State::Retry(StateName::TextBeforeData)),
        },
    }
}

/// Try `construct`, and go to `nok` when it fails.
fn try_construct(tokenizer: &mut Tokenizer, construct: StateName, nok: StateName) -> (r: State)
    ensures
        final(tokenizer)@ == old(tokenizer)@.attempt(State::Next(StateName::TextBefore), State::Next(nok)),
        r == State::Retry(construct),
{
    tokenizer.attempt(State::Next(StateName::TextBefore), State::Next(nok));
    State::Retry(construct)
}

/// Before text.
///
/// ```markdown
/// > | abc
///     ^
/// ```
pub fn before(tokenizer: &mut Tokenizer) -> (r: State)
    ensures
        (final(tokenizer)@, r) == spec_before(old(tokenizer)@),
{
    match tokenizer.current {
        None => {
            tokenizer.register_resolver(ResolveName::Data);
            tokenizer.register_resolver(ResolveName::Text);
            State::Okay
        },
        Some(33) => try_construct(
            tokenizer,
            StateName::LabelStartImageStart,
            StateName::TextBeforeData,
        ),
        Some(36 | 96) => try_construct(tokenizer, StateName::RawTextStart, StateName::TextBeforeData),
        Some(38) => try_construct(
            tokenizer,
            StateName::CharacterReferenceStart,
            StateName::TextBeforeData,
        ),
        Some(42 | 95 | 126) => try_construct(
            tokenizer,
            StateName::AttentionStart,
            StateName::TextBeforeData,
        ),
        Some(60) => try_construct(tokenizer, StateName::AutolinkStart, StateName::TextBeforeHtml),
        Some(91) => try_construct(
            tokenizer,
            StateName::GfmLabelStartFootnoteStart,
            StateName::TextBeforeLabelStartLink,
        ),
        Some(92) => try_construct(
            tokenizer,
            StateName::CharacterEscapeStart,
            StateName::TextBeforeHardBreakEscape,
        ),
        Some(93) => try_construct(tokenizer, StateName::LabelEndStart, StateName::TextBeforeData),
        _ => State::Retry(StateName::TextBeforeData),
    }
}

/// Try `construct`, going back to text when it succeeds or fails.
pub open spec fn spec_retry_in_text(t: TokenizerView, construct: StateName) -> (
    TokenizerView,
    State,
) {
    (
        t.attempt(State::Next(StateName::TextBefore), State::Next(StateName::TextBeforeData)),
        State::Retry(construct),
    )
}

/// Before html (text): at `<`, which was not an autolink.
pub open spec fn spec_before_html(t: TokenizerView) -> (TokenizerView, State) {
    spec_retry_in_text(t, StateName::HtmlTextStart)
}

/// Before html (text).
///
/// At `<`, which wasn’t an autolink.
///
/// ```markdown
/// > | a <b>
///       ^
/// ```
pub fn before_html(tokenizer: &mut Tokenizer) -> (r: State)
    ensures
        (final(tokenizer)@, r) == spec_before_html(old(tokenizer)@),
{
    tokenizer.attempt(State::Next(StateName::TextBefore), State::Next(StateName::TextBeforeData));
    State::Retry(StateName::HtmlTextStart)
}

/// Before hard break escape: at `\`, which was not a character escape.
pub open spec fn spec_before_hard_break_escape(t: TokenizerView) -> (TokenizerView, State) {
    spec_retry_in_text(t, StateName::HardBreakEscapeStart)
}

/// Before hard break escape.
///
/// At `\`, which wasn’t a character escape.
///
/// ```markdown
/// > | a \␊
///       ^
/// ```
pub fn before_hard_break_escape(tokenizer: &mut Tokenizer) -> (r: State)
    ensures
        (final(tokenizer)@, r) == spec_before_hard_break_escape(old(tokenizer)@),
{
    tokenizer.attempt(State::Next(StateName::TextBefore), State::Next(StateName::TextBeforeData));
    State::Retry(StateName::HardBreakEscapeStart)
}

/// Before label start (link): at `[`, which was not a footnote label start.
pub open spec fn spec_before_label_start_link(t: TokenizerView) -> (TokenizerView, State) {
    spec_retry_in_text(t, StateName::LabelStartLinkStart)
}

/// Before label start (link).
///
/// At `[`, which wasn’t a GFM label start (footnote).
///
/// ```markdown
/// > | [https://example.com]
///     ^
/// ```
pub fn before_label_start_link(tokenizer: &mut Tokenizer) -> (r: State)
    ensures
        (final(tokenizer)@, r) == spec_before_label_start_link(old(tokenizer)@),
{
    tokenizer.attempt(State::Next(StateName::TextBefore), State::Next(StateName::TextBeforeData));
    State::Retry(StateName::LabelStartLinkStart)
}

/// Before data: data must succeed, then back to text.
pub open spec fn spec_before_data(t: TokenizerView) -> (TokenizerView, State) {
    (t.attempt(State::Next(StateName::TextBefore), State::Nok), State::Retry(StateName::DataStart))
}

/// Before data.
///
/// ```markdown
/// > | a
///     ^
/// ```
pub fn before_data(tokenizer: &mut Tokenizer) -> (r: State)
    ensures
        (final(tokenizer)@, r) == spec_before_data(old(tokenizer)@),
{
    tokenizer.attempt(State::Next(StateName::TextBefore), State::Nok);
    State::Retry(StateName::DataStart)
}

/// Resolve whitespace in text: trim data at the start and end of lines and
/// of the whole, with hard breaks (trailing) when they are turned on.
pub fn resolve(tokenizer: &mut Tokenizer)
    requires
        pre_resolve_whitespace(
            old(tokenizer)@,
            old(tokenizer)@.options.constructs.hard_break_trailing,
            true,
        ),
    ensures
        final(tokenizer)@ == spec_resolve_whitespace(
            old(tokenizer)@,
            old(tokenizer)@.options.constructs.hard_break_trailing,
            true,
        ),
{
    let hard_break = tokenizer.parse_state.options.constructs.hard_break_trailing;
    resolve_whitespace(tokenizer, hard_break, true);
}

} // verus!
