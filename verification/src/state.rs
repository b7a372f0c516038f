//! States of the state machine.

use vstd::prelude::*;
use crate::construct::{
    blank_line, document, flow, list_item, mdx_esm, mdx_expression_flow, mdx_expression_text, mdx_jsx_flow,
    mdx_jsx_text, paragraph, partial_bom, partial_data, partial_destination, partial_label,
    partial_mdx_expression, partial_non_lazy_continuation, partial_space_or_tab,
    partial_space_or_tab_eol, partial_title, raw_flow, raw_text, string, text, thematic_break,
};
use crate::tokenizer::{Tokenizer, TokenizerView};

verus! {

/// Result of a state.
#[derive(Clone, Copy, Debug, Eq, PartialEq, Structural)]
pub enum State {
    /// Move to [`Name`][] next.
    Next(Name),
    /// Retry in [`Name`][].
    Retry(Name),
    /// The state is successful.
    Okay,
    /// The state is not successful.
    Nok,
}

/// Names of states to move to.
#[derive(Clone, Copy, Debug, Eq, PartialEq, Structural)]
pub enum Name {
    BlockQuoteContStart,

    CodeIndentedStart,

    DefinitionStart,

    DocumentStart,
    DocumentBeforeFrontmatter,
    DocumentContainerExistingBefore,
    DocumentContainerExistingAfter,
    DocumentContainerNewBefore,
    DocumentContainerNewBeforeNotBlockQuote,
    DocumentContainerNewBeforeNotList,
    DocumentContainerNewBeforeNotGfmFootnoteDefinition,
    DocumentContainerNewAfter,
    DocumentContainersAfter,
    DocumentFlowInside,
    DocumentFlowEnd,

    FlowStart,
    FlowBlankLineBefore,
    FlowBeforeCodeIndented,
    FlowBeforeCodeFenced,
    FlowBeforeHtml,
    FlowBeforeHeadingAtx,
    FlowBeforeHeadingSetext,
    FlowBeforeThematicBreak,
    FlowBeforeDefinition,
    FlowBlankLineAfter,
    FlowAfter,
    FlowBeforeParagraph,

    HeadingAtxStart,

    HeadingSetextStart,

    HtmlFlowStart,

    StringStart,
    StringBefore,
    StringBeforeData,

    AttentionStart,

    AutolinkStart,

    CharacterEscapeStart,

    CharacterReferenceStart,

    GfmFootnoteDefinitionContStart,

    GfmLabelStartFootnoteStart,

    GfmTaskListItemCheckStart,

    HardBreakEscapeStart,

    HtmlTextStart,

    LabelEndStart,

    LabelStartImageStart,

    LabelStartLinkStart,

    MdxEsmStart,
    MdxEsmWord,
    MdxEsmInside,
    MdxEsmLineStart,
    MdxEsmBlankLineBefore,
    MdxEsmContinuationStart,
    MdxEsmAtEnd,

    MdxExpressionStart,
    MdxExpressionBefore,
    MdxExpressionPrefix,
    MdxExpressionInside,
    MdxExpressionEolAfter,

    MdxExpressionFlowStart,
    MdxExpressionFlowBefore,
    MdxExpressionFlowAfter,
    MdxExpressionFlowEnd,

    MdxExpressionTextStart,
    MdxExpressionTextAfter,

    MdxJsxStart,

    MdxJsxFlowStart,
    MdxJsxFlowBefore,
    MdxJsxFlowAfter,
    MdxJsxFlowEnd,
    MdxJsxFlowNok,

    MdxJsxTextStart,
    MdxJsxTextAfter,
    MdxJsxTextNok,

    TextStart,
    TextBefore,
    TextBeforeHtml,
    TextBeforeHardBreakEscape,
    TextBeforeLabelStartLink,
    TextBeforeData,

    BlankLineStart,
    BlankLineAfter,

    BomStart,
    BomInside,

    DataStart,
    DataInside,
    DataAtBreak,

    DestinationStart,
    DestinationEnclosedBefore,
    DestinationEnclosed,
    DestinationEnclosedEscape,
    DestinationRaw,
    DestinationRawEscape,

    LabelStart,
    LabelAtBreak,
    LabelEolAfter,
    LabelAtBlankLine,
    LabelEscape,
    LabelInside,

    ListItemStart,
    ListItemBefore,
    ListItemBeforeOrdered,
    ListItemBeforeUnordered,
    ListItemValue,
    ListItemMarker,
    ListItemMarkerAfter,
    ListItemMarkerAfterFilled,
    ListItemWhitespace,
    ListItemWhitespaceAfter,
    ListItemPrefixOther,
    ListItemAfter,
    ListItemContStart,
    ListItemContBlank,
    ListItemContFilled,

    NonLazyContinuationStart,
    NonLazyContinuationAfter,

    ParagraphStart,
    ParagraphLineStart,
    ParagraphInside,

    RawFlowStart,
    RawFlowBeforeSequenceOpen,
    RawFlowSequenceOpen,
    RawFlowInfoBefore,
    RawFlowInfo,
    RawFlowMetaBefore,
    RawFlowMeta,
    RawFlowAtNonLazyBreak,
    RawFlowCloseStart,
    RawFlowBeforeSequenceClose,
    RawFlowSequenceClose,
    RawFlowAfterSequenceClose,
    RawFlowContentBefore,
    RawFlowContentStart,
    RawFlowBeforeContentChunk,
    RawFlowContentChunk,
    RawFlowAfter,

    RawTextStart,
    RawTextSequenceOpen,
    RawTextBetween,
    RawTextData,
    RawTextSequenceClose,

    SpaceOrTabStart,
    SpaceOrTabInside,
    SpaceOrTabAfter,

    SpaceOrTabEolStart,
    SpaceOrTabEolAfterFirst,
    SpaceOrTabEolAfterEol,
    SpaceOrTabEolAtEol,
    SpaceOrTabEolAfterMore,

    ThematicBreakStart,
    ThematicBreakBefore,
    ThematicBreakSequence,
    ThematicBreakAtBreak,

    TitleStart,
    TitleBegin,
    TitleAfterEol,
    TitleAtBreak,
    TitleEscape,
    TitleInside,
    TitleNok,
}










/// What the state named `name` does to the tokenizer, and where it goes.
///
/// States of constructs that are not part of this library cannot be called
/// (see `is_available`); for them this is the tokenizer unchanged and `Nok`.
pub open spec fn spec_call(name: Name, t: TokenizerView) -> (TokenizerView, State) {
    match name {
        Name::BlankLineStart => blank_line::spec_start(t),
        Name::BlankLineAfter => blank_line::spec_after(t),
        Name::BomStart => partial_bom::spec_start(t),
        Name::BomInside => partial_bom::spec_inside(t),
        Name::DataStart => partial_data::spec_start(t),
        Name::DataInside => partial_data::spec_inside(t),
        Name::DataAtBreak => partial_data::spec_at_break(t),
        Name::DestinationStart => partial_destination::spec_start(t),
        Name::DestinationEnclosedBefore => partial_destination::spec_enclosed_before(t),
        Name::DestinationEnclosed => partial_destination::spec_enclosed(t),
        Name::DestinationEnclosedEscape => partial_destination::spec_enclosed_escape(t),
        Name::DestinationRaw => partial_destination::spec_raw(t),
        Name::DestinationRawEscape => partial_destination::spec_raw_escape(t),
        Name::LabelStart => partial_label::spec_start(t),
        Name::LabelAtBreak => partial_label::spec_at_break(t),
        Name::LabelEolAfter => partial_label::spec_eol_after(t),
        Name::LabelAtBlankLine => partial_label::spec_at_blank_line(t),
        Name::LabelEscape => partial_label::spec_escape(t),
        Name::LabelInside => partial_label::spec_inside(t),
        Name::ListItemStart => list_item::spec_start(t),
        Name::ListItemBefore => list_item::spec_before(t),
        Name::ListItemBeforeOrdered => list_item::spec_before_ordered(t),
        Name::ListItemBeforeUnordered => list_item::spec_before_unordered(t),
        Name::ListItemValue => list_item::spec_value(t),
        Name::ListItemMarker => list_item::spec_marker(t),
        Name::ListItemMarkerAfter => list_item::spec_marker_after(t),
        Name::ListItemMarkerAfterFilled => list_item::spec_marker_after_filled(t),
        Name::ListItemWhitespace => list_item::spec_whitespace(t),
        Name::ListItemWhitespaceAfter => list_item::spec_whitespace_after(t),
        Name::ListItemPrefixOther => list_item::spec_prefix_other(t),
        Name::ListItemAfter => list_item::spec_after(t),
        Name::ListItemContStart => list_item::spec_cont_start(t),
        Name::ListItemContBlank => list_item::spec_cont_blank(t),
        Name::ListItemContFilled => list_item::spec_cont_filled(t),
        Name::NonLazyContinuationStart => partial_non_lazy_continuation::spec_start(t),
        Name::NonLazyContinuationAfter => partial_non_lazy_continuation::spec_after(t),
        Name::ParagraphStart => paragraph::spec_start(t),
        Name::ParagraphLineStart => paragraph::spec_line_start(t),
        Name::ParagraphInside => paragraph::spec_inside(t),
        Name::RawFlowStart => raw_flow::spec_start(t),
        Name::RawFlowBeforeSequenceOpen => raw_flow::spec_before_sequence_open(t),
        Name::RawFlowSequenceOpen => raw_flow::spec_sequence_open(t),
        Name::RawFlowInfoBefore => raw_flow::spec_info_before(t),
        Name::RawFlowInfo => raw_flow::spec_info(t),
        Name::RawFlowMetaBefore => raw_flow::spec_meta_before(t),
        Name::RawFlowMeta => raw_flow::spec_meta(t),
        Name::RawFlowAtNonLazyBreak => raw_flow::spec_at_non_lazy_break(t),
        Name::RawFlowCloseStart => raw_flow::spec_close_start(t),
        Name::RawFlowBeforeSequenceClose => raw_flow::spec_before_sequence_close(t),
        Name::RawFlowSequenceClose => raw_flow::spec_sequence_close(t),
        Name::RawFlowAfterSequenceClose => raw_flow::spec_sequence_close_after(t),
        Name::RawFlowContentBefore => raw_flow::spec_content_before(t),
        Name::RawFlowContentStart => raw_flow::spec_content_start(t),
        Name::RawFlowBeforeContentChunk => raw_flow::spec_before_content_chunk(t),
        Name::RawFlowContentChunk => raw_flow::spec_content_chunk(t),
        Name::RawFlowAfter => raw_flow::spec_after(t),
        Name::RawTextStart => raw_text::spec_start(t),
        Name::RawTextSequenceOpen => raw_text::spec_sequence_open(t),
        Name::RawTextBetween => raw_text::spec_between(t),
        Name::RawTextData => raw_text::spec_data(t),
        Name::RawTextSequenceClose => raw_text::spec_sequence_close(t),
        Name::SpaceOrTabStart => partial_space_or_tab::spec_start(t),
        Name::SpaceOrTabInside => partial_space_or_tab::spec_inside(t),
        Name::SpaceOrTabAfter => partial_space_or_tab::spec_after(t),
        Name::SpaceOrTabEolStart => partial_space_or_tab_eol::spec_start(t),
        Name::SpaceOrTabEolAfterFirst => partial_space_or_tab_eol::spec_after_first(t),
        Name::SpaceOrTabEolAfterEol => partial_space_or_tab_eol::spec_after_eol(t),
        Name::SpaceOrTabEolAtEol => partial_space_or_tab_eol::spec_at_eol(t),
        Name::SpaceOrTabEolAfterMore => partial_space_or_tab_eol::spec_after_more(t),
        Name::MdxEsmStart => mdx_esm::spec_start(t),
        Name::MdxEsmWord => mdx_esm::spec_word(t),
        Name::MdxEsmInside => mdx_esm::spec_inside(t),
        Name::MdxEsmLineStart => mdx_esm::spec_line_start(t),
        Name::MdxEsmContinuationStart => mdx_esm::spec_continuation_start(t),
        Name::MdxEsmBlankLineBefore => mdx_esm::spec_blank_line_before(t),
        Name::MdxExpressionStart => partial_mdx_expression::spec_start(t),
        Name::MdxExpressionInside => partial_mdx_expression::spec_inside(t),
        Name::MdxExpressionPrefix => partial_mdx_expression::spec_prefix(t),
        Name::MdxExpressionFlowStart => mdx_expression_flow::spec_start(t),
        Name::MdxExpressionFlowBefore => mdx_expression_flow::spec_before(t),
        Name::MdxExpressionFlowAfter => mdx_expression_flow::spec_after(t),
        Name::MdxExpressionFlowEnd => mdx_expression_flow::spec_end(t),
        Name::MdxExpressionTextStart => mdx_expression_text::spec_start(t),
        Name::MdxExpressionTextAfter => mdx_expression_text::spec_after(t),
        Name::MdxJsxFlowStart => mdx_jsx_flow::spec_start(t),
        Name::MdxJsxFlowBefore => mdx_jsx_flow::spec_before(t),
        Name::MdxJsxFlowAfter => mdx_jsx_flow::spec_after(t),
        Name::MdxJsxFlowEnd => mdx_jsx_flow::spec_end(t),
        Name::MdxJsxFlowNok => mdx_jsx_flow::spec_nok(t),
        Name::MdxJsxTextStart => mdx_jsx_text::spec_start(t),
        Name::MdxJsxTextAfter => mdx_jsx_text::spec_after(t),
        Name::MdxJsxTextNok => mdx_jsx_text::spec_nok(t),
        Name::DocumentContainerExistingBefore => document::spec_container_existing_before(t),
        Name::DocumentContainerExistingAfter => document::spec_container_existing_after(t),
        Name::DocumentContainerNewBeforeNotBlockQuote => document::spec_container_new_before_not_block_quote(t),
        Name::DocumentContainerNewBeforeNotList => document::spec_container_new_before_not_list(t),
        Name::DocumentFlowInside => document::spec_flow_inside(t),
        Name::FlowStart => flow::spec_start(t),
        Name::FlowBlankLineBefore => flow::spec_blank_line_before(t),
        Name::FlowBeforeCodeIndented => flow::spec_before_code_indented(t),
        Name::FlowBeforeCodeFenced => flow::spec_before_code_fenced(t),
        Name::FlowBeforeHtml => flow::spec_before_html(t),
        Name::FlowBeforeHeadingAtx => flow::spec_before_heading_atx(t),
        Name::FlowBeforeHeadingSetext => flow::spec_before_heading_setext(t),
        Name::FlowBeforeThematicBreak => flow::spec_before_thematic_break(t),
        Name::FlowBeforeDefinition => flow::spec_before_definition(t),
        Name::FlowBlankLineAfter => flow::spec_blank_line_after(t),
        Name::FlowAfter => flow::spec_after(t),
        Name::FlowBeforeParagraph => flow::spec_before_paragraph(t),
        Name::StringStart => string::spec_start(t),
        Name::StringBefore => string::spec_before(t),
        Name::StringBeforeData => string::spec_before_data(t),
        Name::TextStart => text::spec_start(t),
        Name::TextBefore => text::spec_before(t),
        Name::TextBeforeHtml => text::spec_before_html(t),
        Name::TextBeforeHardBreakEscape => text::spec_before_hard_break_escape(t),
        Name::TextBeforeLabelStartLink => text::spec_before_label_start_link(t),
        Name::TextBeforeData => text::spec_before_data(t),
        Name::ThematicBreakStart => thematic_break::spec_start(t),
        Name::ThematicBreakBefore => thematic_break::spec_before(t),
        Name::ThematicBreakSequence => thematic_break::spec_sequence(t),
        Name::ThematicBreakAtBreak => thematic_break::spec_at_break(t),
        Name::TitleStart => partial_title::spec_start(t),
        Name::TitleBegin => partial_title::spec_begin(t),
        Name::TitleAfterEol => partial_title::spec_after_eol(t),
        Name::TitleAtBreak => partial_title::spec_at_break(t),
        Name::TitleEscape => partial_title::spec_escape(t),
        Name::TitleInside => partial_title::spec_inside(t),
        Name::TitleNok => partial_title::spec_nok(t),
        _ => (t, State::Nok),
    }
}

/// Whether the state named `name` is one of the states of this library;
/// the others belong to constructs that are not part of it.
pub open spec fn is_available(name: Name) -> bool {
    name != Name::BlockQuoteContStart
        && name != Name::DocumentStart
        && name != Name::DocumentBeforeFrontmatter
        && name != Name::DocumentContainerNewBefore
        && name != Name::DocumentContainerNewBeforeNotGfmFootnoteDefinition
        && name != Name::DocumentContainerNewAfter
        && name != Name::DocumentContainersAfter
        && name != Name::DocumentFlowEnd
        && name != Name::GfmFootnoteDefinitionContStart
        && name != Name::CodeIndentedStart
        && name != Name::DefinitionStart
        && name != Name::HeadingAtxStart
        && name != Name::HeadingSetextStart
        && name != Name::HtmlFlowStart
        && name != Name::AttentionStart
        && name != Name::AutolinkStart
        && name != Name::CharacterEscapeStart
        && name != Name::CharacterReferenceStart
        && name != Name::GfmLabelStartFootnoteStart
        && name != Name::GfmTaskListItemCheckStart
        && name != Name::HardBreakEscapeStart
        && name != Name::HtmlTextStart
        && name != Name::LabelEndStart
        && name != Name::LabelStartImageStart
        && name != Name::LabelStartLinkStart
        && name != Name::MdxEsmAtEnd
        && name != Name::MdxExpressionBefore
        && name != Name::MdxExpressionEolAfter
        && name != Name::MdxJsxStart
}

/// What the state named `name` needs of the tokenizer so that it can run
/// (true for states that can run on any tokenizer).
pub open spec fn pre_call(name: Name, t: TokenizerView) -> bool {
    is_available(name) && match name {
        Name::BomInside => partial_bom::pre_inside(t),
        Name::LabelAtBreak => partial_label::pre_at_break(t),
        Name::LabelEscape => partial_label::pre_escape(t),
        Name::ListItemAfter => list_item::pre_after(t),
        Name::ListItemContBlank => list_item::pre_cont(t),
        Name::ListItemContFilled => list_item::pre_cont(t),
        Name::ParagraphLineStart => paragraph::pre_line_start(t),
        Name::RawFlowBeforeSequenceOpen => raw_flow::pre_before_sequence_open(t),
        Name::RawFlowSequenceOpen => raw_flow::pre_sequence_open(t),
        Name::RawFlowSequenceClose => raw_flow::pre_sequence_close(t),
        Name::RawTextSequenceOpen => raw_text::pre_sequence_open(t),
        Name::RawTextSequenceClose => raw_text::pre_sequence_close(t),
        Name::SpaceOrTabStart => partial_space_or_tab::pre_start(t),
        Name::SpaceOrTabEolAtEol => partial_space_or_tab_eol::pre_at_eol(t),
        Name::MdxEsmWord => mdx_esm::pre_word(t),
        Name::MdxExpressionInside => partial_mdx_expression::pre_inside(t),
        Name::DocumentContainerExistingAfter => document::pre_container_existing_after(t),
        Name::DocumentContainerNewBeforeNotBlockQuote => document::pre_container_new_middle(t),
        Name::DocumentContainerNewBeforeNotList => document::pre_container_new_middle(t),
        Name::FlowBlankLineAfter => flow::pre_at_eol(t),
        Name::FlowAfter => flow::pre_at_eol(t),
        Name::ThematicBreakSequence => thematic_break::pre_sequence(t),
        Name::TitleAtBreak => partial_title::pre_at_break(t),
        _ => true,
    }
}

/// Call the state named `name`.
///
/// Only the states of this library can be called.
pub fn call(tokenizer: &mut Tokenizer, name: Name) -> (r: State)
    requires
        pre_call(name, old(tokenizer)@),
    ensures
        (final(tokenizer)@, r) == spec_call(name, old(tokenizer)@),
{
    match name {
        Name::BlankLineStart => blank_line::start(tokenizer),
        Name::BlankLineAfter => blank_line::after(tokenizer),
        Name::BomStart => partial_bom::start(tokenizer),
        Name::BomInside => partial_bom::inside(tokenizer),
        Name::DataStart => partial_data::start(tokenizer),
        Name::DataInside => partial_data::inside(tokenizer),
        Name::DataAtBreak => partial_data::at_break(tokenizer),
        Name::DestinationStart => partial_destination::start(tokenizer),
        Name::DestinationEnclosedBefore => partial_destination::enclosed_before(tokenizer),
        Name::DestinationEnclosed => partial_destination::enclosed(tokenizer),
        Name::DestinationEnclosedEscape => partial_destination::enclosed_escape(tokenizer),
        Name::DestinationRaw => partial_destination::raw(tokenizer),
        Name::DestinationRawEscape => partial_destination::raw_escape(tokenizer),
        Name::LabelStart => partial_label::start(tokenizer),
        Name::LabelAtBreak => partial_label::at_break(tokenizer),
        Name::LabelEolAfter => partial_label::eol_after(tokenizer),
        Name::LabelAtBlankLine => partial_label::at_blank_line(tokenizer),
        Name::LabelEscape => partial_label::escape(tokenizer),
        Name::LabelInside => partial_label::inside(tokenizer),
        Name::ListItemStart => list_item::start(tokenizer),
        Name::ListItemBefore => list_item::before(tokenizer),
        Name::ListItemBeforeOrdered => list_item::before_ordered(tokenizer),
        Name::ListItemBeforeUnordered => list_item::before_unordered(tokenizer),
        Name::ListItemValue => list_item::value(tokenizer),
        Name::ListItemMarker => list_item::marker(tokenizer),
        Name::ListItemMarkerAfter => list_item::marker_after(tokenizer),
        Name::ListItemMarkerAfterFilled => list_item::marker_after_filled(tokenizer),
        Name::ListItemWhitespace => list_item::whitespace(tokenizer),
        Name::ListItemWhitespaceAfter => list_item::whitespace_after(tokenizer),
        Name::ListItemPrefixOther => list_item::prefix_other(tokenizer),
        Name::ListItemAfter => list_item::after(tokenizer),
        Name::ListItemContStart => list_item::cont_start(tokenizer),
        Name::ListItemContBlank => list_item::cont_blank(tokenizer),
        Name::ListItemContFilled => list_item::cont_filled(tokenizer),
        Name::NonLazyContinuationStart => partial_non_lazy_continuation::start(tokenizer),
        Name::NonLazyContinuationAfter => partial_non_lazy_continuation::after(tokenizer),
        Name::ParagraphStart => paragraph::start(tokenizer),
        Name::ParagraphLineStart => paragraph::line_start(tokenizer),
        Name::ParagraphInside => paragraph::inside(tokenizer),
        Name::RawFlowStart => raw_flow::start(tokenizer),
        Name::RawFlowBeforeSequenceOpen => raw_flow::before_sequence_open(tokenizer),
        Name::RawFlowSequenceOpen => raw_flow::sequence_open(tokenizer),
        Name::RawFlowInfoBefore => raw_flow::info_before(tokenizer),
        Name::RawFlowInfo => raw_flow::info(tokenizer),
        Name::RawFlowMetaBefore => raw_flow::meta_before(tokenizer),
        Name::RawFlowMeta => raw_flow::meta(tokenizer),
        Name::RawFlowAtNonLazyBreak => raw_flow::at_non_lazy_break(tokenizer),
        Name::RawFlowCloseStart => raw_flow::close_start(tokenizer),
        Name::RawFlowBeforeSequenceClose => raw_flow::before_sequence_close(tokenizer),
        Name::RawFlowSequenceClose => raw_flow::sequence_close(tokenizer),
        Name::RawFlowAfterSequenceClose => raw_flow::sequence_close_after(tokenizer),
        Name::RawFlowContentBefore => raw_flow::content_before(tokenizer),
        Name::RawFlowContentStart => raw_flow::content_start(tokenizer),
        Name::RawFlowBeforeContentChunk => raw_flow::before_content_chunk(tokenizer),
        Name::RawFlowContentChunk => raw_flow::content_chunk(tokenizer),
        Name::RawFlowAfter => raw_flow::after(tokenizer),
        Name::RawTextStart => raw_text::start(tokenizer),
        Name::RawTextSequenceOpen => raw_text::sequence_open(tokenizer),
        Name::RawTextBetween => raw_text::between(tokenizer),
        Name::RawTextData => raw_text::data(tokenizer),
        Name::RawTextSequenceClose => raw_text::sequence_close(tokenizer),
        Name::SpaceOrTabStart => partial_space_or_tab::start(tokenizer),
        Name::SpaceOrTabInside => partial_space_or_tab::inside(tokenizer),
        Name::SpaceOrTabAfter => partial_space_or_tab::after(tokenizer),
        Name::SpaceOrTabEolStart => partial_space_or_tab_eol::start(tokenizer),
        Name::SpaceOrTabEolAfterFirst => partial_space_or_tab_eol::after_first(tokenizer),
        Name::SpaceOrTabEolAfterEol => partial_space_or_tab_eol::after_eol(tokenizer),
        Name::SpaceOrTabEolAtEol => partial_space_or_tab_eol::at_eol(tokenizer),
        Name::SpaceOrTabEolAfterMore => partial_space_or_tab_eol::after_more(tokenizer),
        Name::MdxEsmStart => mdx_esm::start(tokenizer),
        Name::MdxEsmWord => mdx_esm::word(tokenizer),
        Name::MdxEsmInside => mdx_esm::inside(tokenizer),
        Name::MdxEsmLineStart => mdx_esm::line_start(tokenizer),
        Name::MdxEsmContinuationStart => mdx_esm::continuation_start(tokenizer),
        Name::MdxEsmBlankLineBefore => mdx_esm::blank_line_before(tokenizer),
        Name::MdxExpressionStart => partial_mdx_expression::start(tokenizer),
        Name::MdxExpressionInside => partial_mdx_expression::inside(tokenizer),
        Name::MdxExpressionPrefix => partial_mdx_expression::prefix(tokenizer),
        Name::MdxExpressionFlowStart => mdx_expression_flow::start(tokenizer),
        Name::MdxExpressionFlowBefore => mdx_expression_flow::before(tokenizer),
        Name::MdxExpressionFlowAfter => mdx_expression_flow::after(tokenizer),
        Name::MdxExpressionFlowEnd => mdx_expression_flow::end(tokenizer),
        Name::MdxExpressionTextStart => mdx_expression_text::start(tokenizer),
        Name::MdxExpressionTextAfter => mdx_expression_text::after(tokenizer),
        Name::MdxJsxFlowStart => mdx_jsx_flow::start(tokenizer),
        Name::MdxJsxFlowBefore => mdx_jsx_flow::before(tokenizer),
        Name::MdxJsxFlowAfter => mdx_jsx_flow::after(tokenizer),
        Name::MdxJsxFlowEnd => mdx_jsx_flow::end(tokenizer),
        Name::MdxJsxFlowNok => mdx_jsx_flow::nok(tokenizer),
        Name::MdxJsxTextStart => mdx_jsx_text::start(tokenizer),
        Name::MdxJsxTextAfter => mdx_jsx_text::after(tokenizer),
        Name::MdxJsxTextNok => mdx_jsx_text::nok(tokenizer),
        Name::DocumentContainerExistingBefore => document::container_existing_before(tokenizer),
        Name::DocumentContainerExistingAfter => document::container_existing_after(tokenizer),
        Name::DocumentContainerNewBeforeNotBlockQuote => document::container_new_before_not_block_quote(tokenizer),
        Name::DocumentContainerNewBeforeNotList => document::container_new_before_not_list(tokenizer),
        Name::DocumentFlowInside => document::flow_inside(tokenizer),
        Name::FlowStart => flow::start(tokenizer),
        Name::FlowBlankLineBefore => flow::blank_line_before(tokenizer),
        Name::FlowBeforeCodeIndented => flow::before_code_indented(tokenizer),
        Name::FlowBeforeCodeFenced => flow::before_code_fenced(tokenizer),
        Name::FlowBeforeHtml => flow::before_html(tokenizer),
        Name::FlowBeforeHeadingAtx => flow::before_heading_atx(tokenizer),
        Name::FlowBeforeHeadingSetext => flow::before_heading_setext(tokenizer),
        Name::FlowBeforeThematicBreak => flow::before_thematic_break(tokenizer),
        Name::FlowBeforeDefinition => flow::before_definition(tokenizer),
        Name::FlowBlankLineAfter => flow::blank_line_after(tokenizer),
        Name::FlowAfter => flow::after(tokenizer),
        Name::FlowBeforeParagraph => flow::before_paragraph(tokenizer),
        Name::StringStart => string::start(tokenizer),
        Name::StringBefore => string::before(tokenizer),
        Name::StringBeforeData => string::before_data(tokenizer),
        Name::TextStart => text::start(tokenizer),
        Name::TextBefore => text::before(tokenizer),
        Name::TextBeforeHtml => text::before_html(tokenizer),
        Name::TextBeforeHardBreakEscape => text::before_hard_break_escape(tokenizer),
        Name::TextBeforeLabelStartLink => text::before_label_start_link(tokenizer),
        Name::TextBeforeData => text::before_data(tokenizer),
        Name::ThematicBreakStart => thematic_break::start(tokenizer),
        Name::ThematicBreakBefore => thematic_break::before(tokenizer),
        Name::ThematicBreakSequence => thematic_break::sequence(tokenizer),
        Name::ThematicBreakAtBreak => thematic_break::at_break(tokenizer),
        Name::TitleStart => partial_title::start(tokenizer),
        Name::TitleBegin => partial_title::begin(tokenizer),
        Name::TitleAfterEol => partial_title::after_eol(tokenizer),
        Name::TitleAtBreak => partial_title::at_break(tokenizer),
        Name::TitleEscape => partial_title::escape(tokenizer),
        Name::TitleInside => partial_title::inside(tokenizer),
        Name::TitleNok => partial_title::nok(tokenizer),
        _ => State::Nok,
    }
}

/// Whether the state named `name` can be called now.
pub fn ready(tokenizer: &Tokenizer, name: Name) -> (r: bool)
    ensures
        r == pre_call(name, tokenizer@),
{
    match name {
        Name::BomInside => partial_bom::can_inside(tokenizer),
        Name::LabelAtBreak => partial_label::can_at_break(tokenizer),
        Name::LabelEscape => partial_label::can_escape(tokenizer),
        Name::ListItemAfter => list_item::can_after(tokenizer),
        Name::ListItemContBlank => list_item::can_cont(tokenizer),
        Name::ListItemContFilled => list_item::can_cont(tokenizer),
        Name::ParagraphLineStart => paragraph::can_line_start(tokenizer),
        Name::RawFlowBeforeSequenceOpen => raw_flow::can_before_sequence_open(tokenizer),
        Name::RawFlowSequenceOpen => raw_flow::can_sequence_open(tokenizer),
        Name::RawFlowSequenceClose => raw_flow::can_sequence_close(tokenizer),
        Name::RawTextSequenceOpen => raw_text::can_sequence_open(tokenizer),
        Name::RawTextSequenceClose => raw_text::can_sequence_close(tokenizer),
        Name::SpaceOrTabStart => partial_space_or_tab::can_start(tokenizer),
        Name::SpaceOrTabEolAtEol => partial_space_or_tab_eol::can_at_eol(tokenizer),
        Name::MdxEsmWord => mdx_esm::can_word(tokenizer),
        Name::MdxExpressionInside => partial_mdx_expression::can_inside(tokenizer),
        Name::DocumentContainerExistingAfter => document::can_container_existing_after(tokenizer),
        Name::DocumentContainerNewBeforeNotBlockQuote => document::can_container_new_middle(tokenizer),
        Name::DocumentContainerNewBeforeNotList => document::can_container_new_middle(tokenizer),
        Name::FlowBlankLineAfter => flow::can_at_eol(tokenizer),
        Name::FlowAfter => flow::can_at_eol(tokenizer),
        Name::ThematicBreakSequence => thematic_break::can_sequence(tokenizer),
        Name::TitleAtBreak => partial_title::can_at_break(tokenizer),
        Name::BlockQuoteContStart | Name::DocumentStart | Name::DocumentBeforeFrontmatter | Name::DocumentContainerNewBefore | Name::DocumentContainerNewBeforeNotGfmFootnoteDefinition | Name::DocumentContainerNewAfter | Name::DocumentContainersAfter | Name::DocumentFlowEnd | Name::GfmFootnoteDefinitionContStart | Name::CodeIndentedStart | Name::DefinitionStart | Name::HeadingAtxStart | Name::HeadingSetextStart | Name::HtmlFlowStart | Name::AttentionStart | Name::AutolinkStart | Name::CharacterEscapeStart | Name::CharacterReferenceStart | Name::GfmLabelStartFootnoteStart | Name::GfmTaskListItemCheckStart | Name::HardBreakEscapeStart | Name::HtmlTextStart | Name::LabelEndStart | Name::LabelStartImageStart | Name::LabelStartLinkStart | Name::MdxEsmAtEnd | Name::MdxExpressionBefore | Name::MdxExpressionEolAfter | Name::MdxJsxStart => false,
        _ => true,
    }
}

/// The state leaves the document, the options and the known definitions as
/// they were, and removes no events.
pub open spec fn keeps_input(name: Name, t: TokenizerView) -> bool {
    &&& spec_call(name, t).0.bytes == t.bytes
    &&& spec_call(name, t).0.options == t.options
    &&& spec_call(name, t).0.definitions == t.definitions
    &&& spec_call(name, t).0.gfm_footnote_definitions == t.gfm_footnote_definitions
    &&& spec_call(name, t).0.events.len() >= t.events.len()
}

#[verifier::rlimit(100)]
proof fn keeps_input_blank_line(name: Name, t: TokenizerView)
    requires
        pre_call(name, t),
        name == Name::BlankLineStart || name == Name::BlankLineAfter,
    ensures
        keeps_input(name, t),
{
    match name {
        Name::BlankLineStart => {},
        Name::BlankLineAfter => {},
        _ => {},
    }
}

#[verifier::rlimit(100)]
proof fn keeps_input_partial_bom(name: Name, t: TokenizerView)
    requires
        pre_call(name, t),
        name == Name::BomStart || name == Name::BomInside,
    ensures
        keeps_input(name, t),
{
    match name {
        Name::BomStart => {},
        Name::BomInside => {},
        _ => {},
    }
}

#[verifier::rlimit(100)]
proof fn keeps_input_partial_data(name: Name, t: TokenizerView)
    requires
        pre_call(name, t),
        name == Name::DataStart || name == Name::DataInside || name == Name::DataAtBreak,
    ensures
        keeps_input(name, t),
{
    match name {
        Name::DataStart => {},
        Name::DataInside => {},
        Name::DataAtBreak => {},
        _ => {},
    }
}

#[verifier::rlimit(100)]
proof fn keeps_input_partial_destination(name: Name, t: TokenizerView)
    requires
        pre_call(name, t),
        name == Name::DestinationStart || name == Name::DestinationEnclosedBefore || name == Name::DestinationEnclosed || name == Name::DestinationEnclosedEscape || name == Name::DestinationRaw || name == Name::DestinationRawEscape,
    ensures
        keeps_input(name, t),
{
    match name {
        Name::DestinationStart => {},
        Name::DestinationEnclosedBefore => {},
        Name::DestinationEnclosed => {},
        Name::DestinationEnclosedEscape => {},
        Name::DestinationRaw => {},
        Name::DestinationRawEscape => {},
        _ => {},
    }
}

#[verifier::rlimit(100)]
proof fn keeps_input_partial_label(name: Name, t: TokenizerView)
    requires
        pre_call(name, t),
        name == Name::LabelStart || name == Name::LabelAtBreak || name == Name::LabelEolAfter || name == Name::LabelAtBlankLine || name == Name::LabelEscape || name == Name::LabelInside,
    ensures
        keeps_input(name, t),
{
    match name {
        Name::LabelStart => {},
        Name::LabelAtBreak => {},
        Name::LabelEolAfter => {},
        Name::LabelAtBlankLine => {},
        Name::LabelEscape => {},
        Name::LabelInside => {},
        _ => {},
    }
}

#[verifier::rlimit(100)]
proof fn keeps_input_list_item(name: Name, t: TokenizerView)
    requires
        pre_call(name, t),
        name == Name::ListItemStart || name == Name::ListItemBefore || name == Name::ListItemBeforeOrdered || name == Name::ListItemBeforeUnordered || name == Name::ListItemValue || name == Name::ListItemMarker || name == Name::ListItemMarkerAfter || name == Name::ListItemMarkerAfterFilled || name == Name::ListItemWhitespace || name == Name::ListItemWhitespaceAfter || name == Name::ListItemPrefixOther || name == Name::ListItemAfter || name == Name::ListItemContStart || name == Name::ListItemContBlank || name == Name::ListItemContFilled,
    ensures
        keeps_input(name, t),
{
    match name {
        Name::ListItemStart => {},
        Name::ListItemBefore => {},
        Name::ListItemBeforeOrdered => {},
        Name::ListItemBeforeUnordered => {},
        Name::ListItemValue => {},
        Name::ListItemMarker => {},
        Name::ListItemMarkerAfter => {},
        Name::ListItemMarkerAfterFilled => {},
        Name::ListItemWhitespace => {},
        Name::ListItemWhitespaceAfter => {},
        Name::ListItemPrefixOther => {},
        Name::ListItemAfter => {},
        Name::ListItemContStart => {},
        Name::ListItemContBlank => {},
        Name::ListItemContFilled => {},
        _ => {},
    }
}

#[verifier::rlimit(100)]
proof fn keeps_input_partial_non_lazy_continuation(name: Name, t: TokenizerView)
    requires
        pre_call(name, t),
        name == Name::NonLazyContinuationStart || name == Name::NonLazyContinuationAfter,
    ensures
        keeps_input(name, t),
{
    match name {
        Name::NonLazyContinuationStart => {},
        Name::NonLazyContinuationAfter => {},
        _ => {},
    }
}

#[verifier::rlimit(100)]
proof fn keeps_input_paragraph(name: Name, t: TokenizerView)
    requires
        pre_call(name, t),
        name == Name::ParagraphStart || name == Name::ParagraphLineStart || name == Name::ParagraphInside,
    ensures
        keeps_input(name, t),
{
    match name {
        Name::ParagraphStart => {},
        Name::ParagraphLineStart => {},
        Name::ParagraphInside => {},
        _ => {},
    }
}

#[verifier::rlimit(100)]
proof fn keeps_input_raw_flow(name: Name, t: TokenizerView)
    requires
        pre_call(name, t),
        name == Name::RawFlowStart || name == Name::RawFlowBeforeSequenceOpen || name == Name::RawFlowSequenceOpen || name == Name::RawFlowInfoBefore || name == Name::RawFlowInfo || name == Name::RawFlowMetaBefore || name == Name::RawFlowMeta || name == Name::RawFlowAtNonLazyBreak || name == Name::RawFlowCloseStart || name == Name::RawFlowBeforeSequenceClose || name == Name::RawFlowSequenceClose || name == Name::RawFlowAfterSequenceClose || name == Name::RawFlowContentBefore || name == Name::RawFlowContentStart || name == Name::RawFlowBeforeContentChunk || name == Name::RawFlowContentChunk || name == Name::RawFlowAfter,
    ensures
        keeps_input(name, t),
{
    match name {
        Name::RawFlowStart => {},
        Name::RawFlowBeforeSequenceOpen => {},
        Name::RawFlowSequenceOpen => {},
        Name::RawFlowInfoBefore => {},
        Name::RawFlowInfo => {},
        Name::RawFlowMetaBefore => {},
        Name::RawFlowMeta => {},
        Name::RawFlowAtNonLazyBreak => {},
        Name::RawFlowCloseStart => {},
        Name::RawFlowBeforeSequenceClose => {},
        Name::RawFlowSequenceClose => {},
        Name::RawFlowAfterSequenceClose => {},
        Name::RawFlowContentBefore => {},
        Name::RawFlowContentStart => {},
        Name::RawFlowBeforeContentChunk => {},
        Name::RawFlowContentChunk => {},
        Name::RawFlowAfter => {},
        _ => {},
    }
}

#[verifier::rlimit(100)]
proof fn keeps_input_raw_text(name: Name, t: TokenizerView)
    requires
        pre_call(name, t),
        name == Name::RawTextStart || name == Name::RawTextSequenceOpen || name == Name::RawTextBetween || name == Name::RawTextData || name == Name::RawTextSequenceClose,
    ensures
        keeps_input(name, t),
{
    match name {
        Name::RawTextStart => {},
        Name::RawTextSequenceOpen => {},
        Name::RawTextBetween => {},
        Name::RawTextData => {},
        Name::RawTextSequenceClose => {},
        _ => {},
    }
}

#[verifier::rlimit(100)]
proof fn keeps_input_partial_space_or_tab(name: Name, t: TokenizerView)
    requires
        pre_call(name, t),
        name == Name::SpaceOrTabStart || name == Name::SpaceOrTabInside || name == Name::SpaceOrTabAfter,
    ensures
        keeps_input(name, t),
{
    match name {
        Name::SpaceOrTabStart => {},
        Name::SpaceOrTabInside => {},
        Name::SpaceOrTabAfter => {},
        _ => {},
    }
}

#[verifier::rlimit(100)]
proof fn keeps_input_partial_space_or_tab_eol(name: Name, t: TokenizerView)
    requires
        pre_call(name, t),
        name == Name::SpaceOrTabEolStart || name == Name::SpaceOrTabEolAfterFirst || name == Name::SpaceOrTabEolAfterEol || name == Name::SpaceOrTabEolAtEol || name == Name::SpaceOrTabEolAfterMore,
    ensures
        keeps_input(name, t),
{
    match name {
        Name::SpaceOrTabEolStart => {},
        Name::SpaceOrTabEolAfterFirst => {},
        Name::SpaceOrTabEolAfterEol => {},
        Name::SpaceOrTabEolAtEol => {},
        Name::SpaceOrTabEolAfterMore => {},
        _ => {},
    }
}

#[verifier::rlimit(100)]
proof fn keeps_input_mdx_esm(name: Name, t: TokenizerView)
    requires
        pre_call(name, t),
        name == Name::MdxEsmStart || name == Name::MdxEsmWord || name == Name::MdxEsmInside || name == Name::MdxEsmLineStart || name == Name::MdxEsmContinuationStart || name == Name::MdxEsmBlankLineBefore,
    ensures
        keeps_input(name, t),
{
    match name {
        Name::MdxEsmStart => {},
        Name::MdxEsmWord => {},
        Name::MdxEsmInside => {},
        Name::MdxEsmLineStart => {},
        Name::MdxEsmContinuationStart => {},
        Name::MdxEsmBlankLineBefore => {},
        _ => {},
    }
}

#[verifier::rlimit(100)]
proof fn keeps_input_partial_mdx_expression(name: Name, t: TokenizerView)
    requires
        pre_call(name, t),
        name == Name::MdxExpressionStart || name == Name::MdxExpressionInside || name == Name::MdxExpressionPrefix,
    ensures
        keeps_input(name, t),
{
    match name {
        Name::MdxExpressionStart => {},
        Name::MdxExpressionInside => {},
        Name::MdxExpressionPrefix => {},
        _ => {},
    }
}

#[verifier::rlimit(100)]
proof fn keeps_input_mdx_expression_flow(name: Name, t: TokenizerView)
    requires
        pre_call(name, t),
        name == Name::MdxExpressionFlowStart || name == Name::MdxExpressionFlowBefore || name == Name::MdxExpressionFlowAfter || name == Name::MdxExpressionFlowEnd,
    ensures
        keeps_input(name, t),
{
    match name {
        Name::MdxExpressionFlowStart => {},
        Name::MdxExpressionFlowBefore => {},
        Name::MdxExpressionFlowAfter => {},
        Name::MdxExpressionFlowEnd => {},
        _ => {},
    }
}

#[verifier::rlimit(100)]
proof fn keeps_input_mdx_expression_text(name: Name, t: TokenizerView)
    requires
        pre_call(name, t),
        name == Name::MdxExpressionTextStart || name == Name::MdxExpressionTextAfter,
    ensures
        keeps_input(name, t),
{
    match name {
        Name::MdxExpressionTextStart => {},
        Name::MdxExpressionTextAfter => {},
        _ => {},
    }
}

#[verifier::rlimit(100)]
proof fn keeps_input_mdx_jsx_flow(name: Name, t: TokenizerView)
    requires
        pre_call(name, t),
        name == Name::MdxJsxFlowStart || name == Name::MdxJsxFlowBefore || name == Name::MdxJsxFlowAfter || name == Name::MdxJsxFlowEnd || name == Name::MdxJsxFlowNok,
    ensures
        keeps_input(name, t),
{
    match name {
        Name::MdxJsxFlowStart => {},
        Name::MdxJsxFlowBefore => {},
        Name::MdxJsxFlowAfter => {},
        Name::MdxJsxFlowEnd => {},
        Name::MdxJsxFlowNok => {},
        _ => {},
    }
}

#[verifier::rlimit(100)]
proof fn keeps_input_mdx_jsx_text(name: Name, t: TokenizerView)
    requires
        pre_call(name, t),
        name == Name::MdxJsxTextStart || name == Name::MdxJsxTextAfter || name == Name::MdxJsxTextNok,
    ensures
        keeps_input(name, t),
{
    match name {
        Name::MdxJsxTextStart => {},
        Name::MdxJsxTextAfter => {},
        Name::MdxJsxTextNok => {},
        _ => {},
    }
}

#[verifier::rlimit(100)]
proof fn keeps_input_document(name: Name, t: TokenizerView)
    requires
        pre_call(name, t),
        name == Name::DocumentContainerExistingBefore || name == Name::DocumentContainerExistingAfter || name == Name::DocumentContainerNewBeforeNotBlockQuote || name == Name::DocumentContainerNewBeforeNotList || name == Name::DocumentFlowInside,
    ensures
        keeps_input(name, t),
{
    match name {
        Name::DocumentContainerExistingBefore => {},
        Name::DocumentContainerExistingAfter => {},
        Name::DocumentContainerNewBeforeNotBlockQuote => {},
        Name::DocumentContainerNewBeforeNotList => {},
        Name::DocumentFlowInside => {},
        _ => {},
    }
}

#[verifier::rlimit(100)]
proof fn keeps_input_flow(name: Name, t: TokenizerView)
    requires
        pre_call(name, t),
        name == Name::FlowStart || name == Name::FlowBlankLineBefore || name == Name::FlowBeforeCodeIndented || name == Name::FlowBeforeCodeFenced || name == Name::FlowBeforeHtml || name == Name::FlowBeforeHeadingAtx || name == Name::FlowBeforeHeadingSetext || name == Name::FlowBeforeThematicBreak || name == Name::FlowBeforeDefinition || name == Name::FlowBlankLineAfter || name == Name::FlowAfter || name == Name::FlowBeforeParagraph,
    ensures
        keeps_input(name, t),
{
    match name {
        Name::FlowStart => {},
        Name::FlowBlankLineBefore => {},
        Name::FlowBeforeCodeIndented => {},
        Name::FlowBeforeCodeFenced => {},
        Name::FlowBeforeHtml => {},
        Name::FlowBeforeHeadingAtx => {},
        Name::FlowBeforeHeadingSetext => {},
        Name::FlowBeforeThematicBreak => {},
        Name::FlowBeforeDefinition => {},
        Name::FlowBlankLineAfter => {},
        Name::FlowAfter => {},
        Name::FlowBeforeParagraph => {},
        _ => {},
    }
}

#[verifier::rlimit(100)]
proof fn keeps_input_string(name: Name, t: TokenizerView)
    requires
        pre_call(name, t),
        name == Name::StringStart || name == Name::StringBefore || name == Name::StringBeforeData,
    ensures
        keeps_input(name, t),
{
    match name {
        Name::StringStart => {},
        Name::StringBefore => {},
        Name::StringBeforeData => {},
        _ => {},
    }
}

#[verifier::rlimit(100)]
proof fn keeps_input_text(name: Name, t: TokenizerView)
    requires
        pre_call(name, t),
        name == Name::TextStart || name == Name::TextBefore || name == Name::TextBeforeHtml || name == Name::TextBeforeHardBreakEscape || name == Name::TextBeforeLabelStartLink || name == Name::TextBeforeData,
    ensures
        keeps_input(name, t),
{
    match name {
        Name::TextStart => {},
        Name::TextBefore => {},
        Name::TextBeforeHtml => {},
        Name::TextBeforeHardBreakEscape => {},
        Name::TextBeforeLabelStartLink => {},
        Name::TextBeforeData => {},
        _ => {},
    }
}

#[verifier::rlimit(100)]
proof fn keeps_input_thematic_break(name: Name, t: TokenizerView)
    requires
        pre_call(name, t),
        name == Name::ThematicBreakStart || name == Name::ThematicBreakBefore || name == Name::ThematicBreakSequence || name == Name::ThematicBreakAtBreak,
    ensures
        keeps_input(name, t),
{
    match name {
        Name::ThematicBreakStart => {},
        Name::ThematicBreakBefore => {},
        Name::ThematicBreakSequence => {},
        Name::ThematicBreakAtBreak => {},
        _ => {},
    }
}

#[verifier::rlimit(100)]
proof fn keeps_input_partial_title(name: Name, t: TokenizerView)
    requires
        pre_call(name, t),
        name == Name::TitleStart || name == Name::TitleBegin || name == Name::TitleAfterEol || name == Name::TitleAtBreak || name == Name::TitleEscape || name == Name::TitleInside || name == Name::TitleNok,
    ensures
        keeps_input(name, t),
{
    match name {
        Name::TitleStart => {},
        Name::TitleBegin => {},
        Name::TitleAfterEol => {},
        Name::TitleAtBreak => {},
        Name::TitleEscape => {},
        Name::TitleInside => {},
        Name::TitleNok => {},
        _ => {},
    }
}

/// No state changes the document, the options it is parsed with, or the
/// known definitions, and no state removes events.
pub proof fn lemma_call_keeps_input(name: Name, t: TokenizerView)
    requires
        pre_call(name, t),
    ensures
        keeps_input(name, t),
{
    match name {
        Name::BlankLineStart => keeps_input_blank_line(name, t),
        Name::BlankLineAfter => keeps_input_blank_line(name, t),
        Name::BomStart => keeps_input_partial_bom(name, t),
        Name::BomInside => keeps_input_partial_bom(name, t),
        Name::DataStart => keeps_input_partial_data(name, t),
        Name::DataInside => keeps_input_partial_data(name, t),
        Name::DataAtBreak => keeps_input_partial_data(name, t),
        Name::DestinationStart => keeps_input_partial_destination(name, t),
        Name::DestinationEnclosedBefore => keeps_input_partial_destination(name, t),
        Name::DestinationEnclosed => keeps_input_partial_destination(name, t),
        Name::DestinationEnclosedEscape => keeps_input_partial_destination(name, t),
        Name::DestinationRaw => keeps_input_partial_destination(name, t),
        Name::DestinationRawEscape => keeps_input_partial_destination(name, t),
        Name::LabelStart => keeps_input_partial_label(name, t),
        Name::LabelAtBreak => keeps_input_partial_label(name, t),
        Name::LabelEolAfter => keeps_input_partial_label(name, t),
        Name::LabelAtBlankLine => keeps_input_partial_label(name, t),
        Name::LabelEscape => keeps_input_partial_label(name, t),
        Name::LabelInside => keeps_input_partial_label(name, t),
        Name::ListItemStart => keeps_input_list_item(name, t),
        Name::ListItemBefore => keeps_input_list_item(name, t),
        Name::ListItemBeforeOrdered => keeps_input_list_item(name, t),
        Name::ListItemBeforeUnordered => keeps_input_list_item(name, t),
        Name::ListItemValue => keeps_input_list_item(name, t),
        Name::ListItemMarker => keeps_input_list_item(name, t),
        Name::ListItemMarkerAfter => keeps_input_list_item(name, t),
        Name::ListItemMarkerAfterFilled => keeps_input_list_item(name, t),
        Name::ListItemWhitespace => keeps_input_list_item(name, t),
        Name::ListItemWhitespaceAfter => keeps_input_list_item(name, t),
        Name::ListItemPrefixOther => keeps_input_list_item(name, t),
        Name::ListItemAfter => keeps_input_list_item(name, t),
        Name::ListItemContStart => keeps_input_list_item(name, t),
        Name::ListItemContBlank => keeps_input_list_item(name, t),
        Name::ListItemContFilled => keeps_input_list_item(name, t),
        Name::NonLazyContinuationStart => keeps_input_partial_non_lazy_continuation(name, t),
        Name::NonLazyContinuationAfter => keeps_input_partial_non_lazy_continuation(name, t),
        Name::ParagraphStart => keeps_input_paragraph(name, t),
        Name::ParagraphLineStart => keeps_input_paragraph(name, t),
        Name::ParagraphInside => keeps_input_paragraph(name, t),
        Name::RawFlowStart => keeps_input_raw_flow(name, t),
        Name::RawFlowBeforeSequenceOpen => keeps_input_raw_flow(name, t),
        Name::RawFlowSequenceOpen => keeps_input_raw_flow(name, t),
        Name::RawFlowInfoBefore => keeps_input_raw_flow(name, t),
        Name::RawFlowInfo => keeps_input_raw_flow(name, t),
        Name::RawFlowMetaBefore => keeps_input_raw_flow(name, t),
        Name::RawFlowMeta => keeps_input_raw_flow(name, t),
        Name::RawFlowAtNonLazyBreak => keeps_input_raw_flow(name, t),
        Name::RawFlowCloseStart => keeps_input_raw_flow(name, t),
        Name::RawFlowBeforeSequenceClose => keeps_input_raw_flow(name, t),
        Name::RawFlowSequenceClose => keeps_input_raw_flow(name, t),
        Name::RawFlowAfterSequenceClose => keeps_input_raw_flow(name, t),
        Name::RawFlowContentBefore => keeps_input_raw_flow(name, t),
        Name::RawFlowContentStart => keeps_input_raw_flow(name, t),
        Name::RawFlowBeforeContentChunk => keeps_input_raw_flow(name, t),
        Name::RawFlowContentChunk => keeps_input_raw_flow(name, t),
        Name::RawFlowAfter => keeps_input_raw_flow(name, t),
        Name::RawTextStart => keeps_input_raw_text(name, t),
        Name::RawTextSequenceOpen => keeps_input_raw_text(name, t),
        Name::RawTextBetween => keeps_input_raw_text(name, t),
        Name::RawTextData => keeps_input_raw_text(name, t),
        Name::RawTextSequenceClose => keeps_input_raw_text(name, t),
        Name::SpaceOrTabStart => keeps_input_partial_space_or_tab(name, t),
        Name::SpaceOrTabInside => keeps_input_partial_space_or_tab(name, t),
        Name::SpaceOrTabAfter => keeps_input_partial_space_or_tab(name, t),
        Name::SpaceOrTabEolStart => keeps_input_partial_space_or_tab_eol(name, t),
        Name::SpaceOrTabEolAfterFirst => keeps_input_partial_space_or_tab_eol(name, t),
        Name::SpaceOrTabEolAfterEol => keeps_input_partial_space_or_tab_eol(name, t),
        Name::SpaceOrTabEolAtEol => keeps_input_partial_space_or_tab_eol(name, t),
        Name::SpaceOrTabEolAfterMore => keeps_input_partial_space_or_tab_eol(name, t),
        Name::MdxEsmStart => keeps_input_mdx_esm(name, t),
        Name::MdxEsmWord => keeps_input_mdx_esm(name, t),
        Name::MdxEsmInside => keeps_input_mdx_esm(name, t),
        Name::MdxEsmLineStart => keeps_input_mdx_esm(name, t),
        Name::MdxEsmContinuationStart => keeps_input_mdx_esm(name, t),
        Name::MdxEsmBlankLineBefore => keeps_input_mdx_esm(name, t),
        Name::MdxExpressionStart => keeps_input_partial_mdx_expression(name, t),
        Name::MdxExpressionInside => keeps_input_partial_mdx_expression(name, t),
        Name::MdxExpressionPrefix => keeps_input_partial_mdx_expression(name, t),
        Name::MdxExpressionFlowStart => keeps_input_mdx_expression_flow(name, t),
        Name::MdxExpressionFlowBefore => keeps_input_mdx_expression_flow(name, t),
        Name::MdxExpressionFlowAfter => keeps_input_mdx_expression_flow(name, t),
        Name::MdxExpressionFlowEnd => keeps_input_mdx_expression_flow(name, t),
        Name::MdxExpressionTextStart => keeps_input_mdx_expression_text(name, t),
        Name::MdxExpressionTextAfter => keeps_input_mdx_expression_text(name, t),
        Name::MdxJsxFlowStart => keeps_input_mdx_jsx_flow(name, t),
        Name::MdxJsxFlowBefore => keeps_input_mdx_jsx_flow(name, t),
        Name::MdxJsxFlowAfter => keeps_input_mdx_jsx_flow(name, t),
        Name::MdxJsxFlowEnd => keeps_input_mdx_jsx_flow(name, t),
        Name::MdxJsxFlowNok => keeps_input_mdx_jsx_flow(name, t),
        Name::MdxJsxTextStart => keeps_input_mdx_jsx_text(name, t),
        Name::MdxJsxTextAfter => keeps_input_mdx_jsx_text(name, t),
        Name::MdxJsxTextNok => keeps_input_mdx_jsx_text(name, t),
        Name::DocumentContainerExistingBefore => keeps_input_document(name, t),
        Name::DocumentContainerExistingAfter => keeps_input_document(name, t),
        Name::DocumentContainerNewBeforeNotBlockQuote => keeps_input_document(name, t),
        Name::DocumentContainerNewBeforeNotList => keeps_input_document(name, t),
        Name::DocumentFlowInside => keeps_input_document(name, t),
        Name::FlowStart => keeps_input_flow(name, t),
        Name::FlowBlankLineBefore => keeps_input_flow(name, t),
        Name::FlowBeforeCodeIndented => keeps_input_flow(name, t),
        Name::FlowBeforeCodeFenced => keeps_input_flow(name, t),
        Name::FlowBeforeHtml => keeps_input_flow(name, t),
        Name::FlowBeforeHeadingAtx => keeps_input_flow(name, t),
        Name::FlowBeforeHeadingSetext => keeps_input_flow(name, t),
        Name::FlowBeforeThematicBreak => keeps_input_flow(name, t),
        Name::FlowBeforeDefinition => keeps_input_flow(name, t),
        Name::FlowBlankLineAfter => keeps_input_flow(name, t),
        Name::FlowAfter => keeps_input_flow(name, t),
        Name::FlowBeforeParagraph => keeps_input_flow(name, t),
        Name::StringStart => keeps_input_string(name, t),
        Name::StringBefore => keeps_input_string(name, t),
        Name::StringBeforeData => keeps_input_string(name, t),
        Name::TextStart => keeps_input_text(name, t),
        Name::TextBefore => keeps_input_text(name, t),
        Name::TextBeforeHtml => keeps_input_text(name, t),
        Name::TextBeforeHardBreakEscape => keeps_input_text(name, t),
        Name::TextBeforeLabelStartLink => keeps_input_text(name, t),
        Name::TextBeforeData => keeps_input_text(name, t),
        Name::ThematicBreakStart => keeps_input_thematic_break(name, t),
        Name::ThematicBreakBefore => keeps_input_thematic_break(name, t),
        Name::ThematicBreakSequence => keeps_input_thematic_break(name, t),
        Name::ThematicBreakAtBreak => keeps_input_thematic_break(name, t),
        Name::TitleStart => keeps_input_partial_title(name, t),
        Name::TitleBegin => keeps_input_partial_title(name, t),
        Name::TitleAfterEol => keeps_input_partial_title(name, t),
        Name::TitleAtBreak => keeps_input_partial_title(name, t),
        Name::TitleEscape => keeps_input_partial_title(name, t),
        Name::TitleInside => keeps_input_partial_title(name, t),
        Name::TitleNok => keeps_input_partial_title(name, t),
        _ => {},
    }
}

} // verus!
