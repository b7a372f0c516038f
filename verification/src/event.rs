//! Semantic labels of spans, and the events that mark where spans start and
//! end.

use vstd::prelude::*;

verus! {

/// Semantic label of a span.
#[derive(Clone, Copy, Debug, PartialEq, Eq, Hash, Structural)]
pub enum Name {
    /// Attention sequence.
    AttentionSequence,
    /// Whole autolink.
    Autolink,
    /// Email autolink w/o markers.
    AutolinkEmail,
    /// Marker of an autolink.
    AutolinkMarker,
    /// Protocol autolink w/o markers.
    AutolinkProtocol,
    /// Line ending preceded only by whitespace or nothing at all.
    BlankLineEnding,
    /// Whole block quote.
    BlockQuote,
    /// Block quote marker.
    BlockQuoteMarker,
    /// Block quote prefix.
    BlockQuotePrefix,
    /// Byte order mark.
    ByteOrderMark,
    /// Whole character escape.
    CharacterEscape,
    /// Character escape marker.
    CharacterEscapeMarker,
    /// Character escape value.
    CharacterEscapeValue,
    /// Whole character reference.
    CharacterReference,
    /// Character reference opening marker.
    CharacterReferenceMarker,
    /// Character reference hexadecimal numeric marker.
    CharacterReferenceMarkerHexadecimal,
    /// Character reference numeric marker.
    CharacterReferenceMarkerNumeric,
    /// Character reference closing marker.
    CharacterReferenceMarkerSemi,
    /// Character reference value.
    CharacterReferenceValue,
    /// Whole code (fenced).
    CodeFenced,
    /// A code (fenced) fence.
    CodeFencedFence,
    /// A code (fenced) fence info word.
    CodeFencedFenceInfo,
    /// A code (fenced) fence meta string.
    CodeFencedFenceMeta,
    /// A code (fenced) fence sequence.
    CodeFencedFenceSequence,
    /// A code (fenced, indented) chunk.
    CodeFlowChunk,
    /// Whole code (indented).
    CodeIndented,
    /// Whole code (text).
    CodeText,
    /// Code (text) data.
    CodeTextData,
    /// Code (text) sequence.
    CodeTextSequence,
    /// Data.
    Data,
    /// Whole definition.
    Definition,
    /// Whole definition destination.
    DefinitionDestination,
    /// Definition destination literal.
    DefinitionDestinationLiteral,
    /// Definition destination literal marker.
    DefinitionDestinationLiteralMarker,
    /// Definition destination raw.
    DefinitionDestinationRaw,
    /// Definition destination data.
    DefinitionDestinationString,
    /// Whole definition label.
    DefinitionLabel,
    /// Definition label marker.
    DefinitionLabelMarker,
    /// Definition label data.
    DefinitionLabelString,
    /// Definition marker.
    DefinitionMarker,
    /// Whole definition title.
    DefinitionTitle,
    /// Definition title marker.
    DefinitionTitleMarker,
    /// Definition title data.
    DefinitionTitleString,
    /// Emphasis.
    Emphasis,
    /// Emphasis sequence.
    EmphasisSequence,
    /// Emphasis text.
    EmphasisText,
    /// Whole hard break (escape).
    HardBreakEscape,
    /// Whole hard break (trailing).
    HardBreakTrailing,
    /// Whole heading (atx).
    HeadingAtx,
    /// Heading (atx) sequence.
    HeadingAtxSequence,
    /// Heading (atx) data.
    HeadingAtxText,
    /// Whole heading (setext).
    HeadingSetext,
    /// Heading (setext) data.
    HeadingSetextText,
    /// Heading (setext) underline.
    HeadingSetextUnderline,
    /// Whole html (flow).
    HtmlFlow,
    /// HTML (flow) data.
    HtmlFlowData,
    /// Whole html (text).
    HtmlText,
    /// HTML (text) data.
    HtmlTextData,
    /// Image.
    Image,
    /// Label.
    Label,
    /// Label end.
    LabelEnd,
    /// Label start (image).
    LabelImage,
    /// Label start (image) marker.
    LabelImageMarker,
    /// Label start (link).
    LabelLink,
    /// Label marker.
    LabelMarker,
    /// Label text.
    LabelText,
    /// Line ending.
    LineEnding,
    /// Link.
    Link,
    /// List item.
    ListItem,
    /// List item (marker).
    ListItemMarker,
    /// List item (prefix).
    ListItemPrefix,
    /// List item (value).
    ListItemValue,
    /// List (ordered).
    ListOrdered,
    /// List (unordered).
    ListUnordered,
    /// Whole math (flow).
    MathFlow,
    /// Math (flow) chunk.
    MathFlowChunk,
    /// A math (flow) fence.
    MathFlowFence,
    /// Math (flow) fence meta string.
    MathFlowFenceMeta,
    /// Math (flow) fence sequence.
    MathFlowFenceSequence,
    /// Whole math (text).
    MathText,
    /// Math (text) data.
    MathTextData,
    /// Math (text) sequence.
    MathTextSequence,
    /// Whole paragraph.
    Paragraph,
    /// Reference.
    Reference,
    /// Reference marker.
    ReferenceMarker,
    /// Reference string.
    ReferenceString,
    /// Resource.
    Resource,
    /// Resource destination.
    ResourceDestination,
    /// Resource destination literal.
    ResourceDestinationLiteral,
    /// Resource destination literal marker.
    ResourceDestinationLiteralMarker,
    /// Resource destination raw.
    ResourceDestinationRaw,
    /// Resource destination raw.
    ResourceDestinationString,
    /// Resource marker.
    ResourceMarker,
    /// Resource title.
    ResourceTitle,
    /// Resource title marker.
    ResourceTitleMarker,
    /// Resource title string.
    ResourceTitleString,
    /// Line prefix: whitespace at the start of a line inside a construct.
    LinePrefix,
    /// MDX: ESM (`import`, `export`).
    MdxEsm,
    /// MDX: ESM data.
    MdxEsmData,
    /// MDX: expression data.
    MdxExpressionData,
    /// MDX: expression marker (`{`, `}`).
    MdxExpressionMarker,
    /// MDX: expression in flow.
    MdxFlowExpression,
    /// MDX: JSX tag in flow.
    MdxJsxFlowTag,
    /// MDX: JSX tag in text.
    MdxJsxTextTag,
    /// MDX: expression in text.
    MdxTextExpression,
    /// SpaceOrTab.
    SpaceOrTab,
    /// Strong.
    Strong,
    /// Strong sequence.
    StrongSequence,
    /// Strong text.
    StrongText,
    /// Whole thematic break.
    ThematicBreak,
    /// Thematic break sequence.
    ThematicBreakSequence,
}

/// Whether a name is that of a void span, one that holds no other spans.
pub open spec fn spec_is_void(name: Name) -> bool {
    name == Name::AttentionSequence
        || name == Name::AutolinkEmail
        || name == Name::AutolinkMarker
        || name == Name::AutolinkProtocol
        || name == Name::BlankLineEnding
        || name == Name::BlockQuoteMarker
        || name == Name::ByteOrderMark
        || name == Name::CharacterEscapeMarker
        || name == Name::CharacterEscapeValue
        || name == Name::CharacterReferenceMarker
        || name == Name::CharacterReferenceMarkerHexadecimal
        || name == Name::CharacterReferenceMarkerNumeric
        || name == Name::CharacterReferenceMarkerSemi
        || name == Name::CharacterReferenceValue
        || name == Name::CodeFencedFenceSequence
        || name == Name::CodeFlowChunk
        || name == Name::CodeTextData
        || name == Name::CodeTextSequence
        || name == Name::Data
        || name == Name::DefinitionDestinationLiteralMarker
        || name == Name::DefinitionLabelMarker
        || name == Name::DefinitionMarker
        || name == Name::DefinitionTitleMarker
        || name == Name::EmphasisSequence
        || name == Name::HardBreakEscape
        || name == Name::HardBreakTrailing
        || name == Name::HeadingAtxSequence
        || name == Name::HeadingSetextUnderline
        || name == Name::HtmlFlowData
        || name == Name::HtmlTextData
        || name == Name::LabelImageMarker
        || name == Name::LabelMarker
        || name == Name::LineEnding
        || name == Name::ListItemMarker
        || name == Name::ListItemValue
        || name == Name::ReferenceMarker
        || name == Name::ResourceMarker
        || name == Name::ResourceTitleMarker
        || name == Name::StrongSequence
        || name == Name::ThematicBreakSequence
}

/// Whether a name is that of a void span, one that holds no other spans.
pub fn is_void(name: Name) -> (r: bool)
    ensures
        r == spec_is_void(name),
{
    matches!(
        name,
        Name::AttentionSequence
            | Name::AutolinkEmail
            | Name::AutolinkMarker
            | Name::AutolinkProtocol
            | Name::BlankLineEnding
            | Name::BlockQuoteMarker
            | Name::ByteOrderMark
            | Name::CharacterEscapeMarker
            | Name::CharacterEscapeValue
            | Name::CharacterReferenceMarker
            | Name::CharacterReferenceMarkerHexadecimal
            | Name::CharacterReferenceMarkerNumeric
            | Name::CharacterReferenceMarkerSemi
            | Name::CharacterReferenceValue
            | Name::CodeFencedFenceSequence
            | Name::CodeFlowChunk
            | Name::CodeTextData
            | Name::CodeTextSequence
            | Name::Data
            | Name::DefinitionDestinationLiteralMarker
            | Name::DefinitionLabelMarker
            | Name::DefinitionMarker
            | Name::DefinitionTitleMarker
            | Name::EmphasisSequence
            | Name::HardBreakEscape
            | Name::HardBreakTrailing
            | Name::HeadingAtxSequence
            | Name::HeadingSetextUnderline
            | Name::HtmlFlowData
            | Name::HtmlTextData
            | Name::LabelImageMarker
            | Name::LabelMarker
            | Name::LineEnding
            | Name::ListItemMarker
            | Name::ListItemValue
            | Name::ReferenceMarker
            | Name::ResourceMarker
            | Name::ResourceTitleMarker
            | Name::StrongSequence
            | Name::ThematicBreakSequence
    )
}

/// Embedded content type.
#[derive(Clone, Copy, Debug, PartialEq, Eq, Structural)]
pub enum Content {
    /// Represents [flow content][crate::content::flow].
    Flow,
    /// Represents [string content][crate::content::string].
    String,
    /// Represents [text content][crate::content::text].
    Text,
}

/// Link to another event.
#[derive(Clone, Copy, Debug, PartialEq, Eq, Structural)]
pub struct Link {
    /// Index of the previous linked event.
    pub previous: Option<usize>,
    /// Index of the next linked event.
    pub next: Option<usize>,
    /// Content type of the linked events.
    pub content: Content,
}

/// Place in the document.
///
/// The interface for the location in the document comes from unist `Point`:
/// <https://github.com/syntax-tree/unist#point>.
#[derive(Clone, Copy, Debug, PartialEq, Eq, Structural)]
pub struct Point {
    /// 1-indexed line number.
    pub line: usize,
    /// 1-indexed column number.
    /// This is increases up to a tab stop for tabs.
    /// Some editors count tabs as 1 character, so this position is not the
    /// same as editors.
    pub column: usize,
    /// 0-indexed position in the document.
    ///
    /// Also an `index` into `bytes`.
    pub index: usize,
    /// Virtual step on the same `index`.
    pub vs: usize,
}

/// Event kinds.
#[derive(Clone, Copy, Debug, PartialEq, Eq, Structural)]
pub enum Kind {
    /// The start of something.
    Enter,
    /// The end of something.
    Exit,
}

/// Something semantic happening somewhere.
#[derive(Clone, Copy, Debug, PartialEq, Eq, Structural)]
pub struct Event {
    /// Kind of event.
    pub kind: Kind,
    /// Name of event.
    pub name: Name,
    /// Place where this happens.
    pub point: Point,
    /// Link to another event.
    pub link: Option<Link>,
}


} // verus!
