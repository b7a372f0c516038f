//! markdown syntax tree: mdast.

use vstd::prelude::*;
use crate::unist::Position;
use crate::util::debug::{
    bool_text, debug_quoted, decimal, push_bool, push_debug_str, push_decimal,
};

verus! {

/// MDX: relative byte index into a string, to an absolute byte index into the
/// whole document.
pub type Stop = (usize, usize);

/// Explicitness of a reference.
#[derive(Clone, Copy, Debug, Eq, PartialEq, Structural)]
pub enum ReferenceKind {
    /// The reference is implicit, its identifier inferred from its content.
    Shortcut,
    /// The reference is explicit, its identifier inferred from its content.
    Collapsed,
    /// The reference is explicit, its identifier explicitly set.
    Full,
}

impl ReferenceKind {
    /// The `Debug` text: the variant's name.
    pub open spec fn spec_text(self) -> Seq<char> {
        match self {
            ReferenceKind::Shortcut => "Shortcut"@,
            ReferenceKind::Collapsed => "Collapsed"@,
            ReferenceKind::Full => "Full"@,
        }
    }

    /// Appends the `Debug` text.
    pub fn push_debug(&self, s: &mut String)
        ensures
            final(s)@ == old(s)@ + self.spec_text(),
    {
        match self {
            ReferenceKind::Shortcut => s.append("Shortcut"),
            ReferenceKind::Collapsed => s.append("Collapsed"),
            ReferenceKind::Full => s.append("Full"),
        }
    }
}

/// GFM: alignment of phrasing content.
#[derive(Clone, Copy, Debug, Eq, PartialEq, Structural)]
pub enum AlignKind {
    /// Left alignment.
    Left,
    /// Right alignment.
    Right,
    /// Center alignment.
    Center,
    /// No alignment (its `Debug` text is `None`).
    NoAlignment,
}

impl AlignKind {
    /// The `Debug` text: the variant's name.
    pub open spec fn spec_text(self) -> Seq<char> {
        match self {
            AlignKind::Left => "Left"@,
            AlignKind::Right => "Right"@,
            AlignKind::Center => "Center"@,
            AlignKind::NoAlignment => "None"@,
        }
    }

    /// Appends the `Debug` text.
    pub fn push_debug(&self, s: &mut String)
        ensures
            final(s)@ == old(s)@ + self.spec_text(),
    {
        match self {
            AlignKind::Left => s.append("Left"),
            AlignKind::Right => s.append("Right"),
            AlignKind::Center => s.append("Center"),
            AlignKind::NoAlignment => s.append("None"),
        }
    }
}

/// MDX: attribute content.
#[derive(Clone, Debug, Eq, PartialEq)]
pub enum AttributeContent {
    /// JSX expression, such as `{...b}` in `<a {...b} />`.
    Expression { value: String, stops: Vec<Stop> },
    /// JSX property, such as `b` in `<a b />`.
    Property(MdxJsxAttribute),
}

/// MDX: attribute value expression.
#[derive(Clone, Debug, Eq, PartialEq)]
pub struct AttributeValueExpression {
    /// Value of the expression.
    pub value: String,
    /// Where each slice of `value` came from.
    pub stops: Vec<Stop>,
}

/// MDX: attribute value.
#[derive(Clone, Debug, Eq, PartialEq)]
pub enum AttributeValue {
    /// Expression value, such as `{c}` in `<a b={c} />`.
    Expression { value: String, stops: Vec<Stop> },
    /// Static value, such as `"c"` in `<a b="c" />`.
    Literal(String),
}

/// MDX: JSX attribute.
#[derive(Clone, Debug, Eq, PartialEq)]
pub struct MdxJsxAttribute {
    /// Key.
    pub name: String,
    /// Value.
    pub value: Option<AttributeValue>,
}

/// `None`, or `Some(..)` around the text of a position.
pub open spec fn position_text(p: Option<Position>) -> Seq<char> {
    match p {
        Some(p) => "Some("@ + p.spec_text() + ")"@,
        None => "None"@,
    }
}

/// Appends the `Debug` text of optional positional info.
pub fn push_position(p: &Option<Position>, s: &mut String)
    ensures
        final(s)@ == old(s)@ + position_text(*p),
{
    match p {
        Some(p) => {
            s.append("Some(");
            p.push_debug(s);
            s.append(")");
        },
        None => s.append("None"),
    }
}

/// `None`, or `Some(..)` around a quoted string.
pub open spec fn string_opt_text(o: Option<String>) -> Seq<char> {
    match o {
        Some(v) => "Some("@ + debug_quoted(v@) + ")"@,
        None => "None"@,
    }
}

/// Appends the `Debug` text of an optional string.
pub fn push_string_opt(o: &Option<String>, s: &mut String)
    ensures
        final(s)@ == old(s)@ + string_opt_text(*o),
{
    match o {
        Some(v) => {
            s.append("Some(");
            push_debug_str(s, v.as_str());
            s.append(")");
        },
        None => s.append("None"),
    }
}

/// `None`, or `Some(..)` around a `bool`.
pub open spec fn bool_opt_text(o: Option<bool>) -> Seq<char> {
    match o {
        Some(v) => "Some("@ + bool_text(v) + ")"@,
        None => "None"@,
    }
}

/// Appends the `Debug` text of an optional `bool`.
pub fn push_bool_opt(o: &Option<bool>, s: &mut String)
    ensures
        final(s)@ == old(s)@ + bool_opt_text(*o),
{
    match o {
        Some(v) => {
            s.append("Some(");
            push_bool(s, *v);
            s.append(")");
        },
        None => s.append("None"),
    }
}

/// `None`, or `Some(..)` around a number.
pub open spec fn u32_opt_text(o: Option<u32>) -> Seq<char> {
    match o {
        Some(v) => "Some("@ + decimal(v as nat) + ")"@,
        None => "None"@,
    }
}

/// Appends the `Debug` text of an optional number.
pub fn push_u32_opt(o: &Option<u32>, s: &mut String)
    ensures
        final(s)@ == old(s)@ + u32_opt_text(*o),
{
    match o {
        Some(v) => {
            s.append("Some(");
            push_decimal(s, *v as usize);
            s.append(")");
        },
        None => s.append("None"),
    }
}

/// `(a, b)`.
pub open spec fn stop_text(stop: Stop) -> Seq<char> {
    "("@ + decimal(stop.0 as nat) + ", "@ + decimal(stop.1 as nat) + ")"@
}

/// The texts of stops, separated by `, `.
pub open spec fn stops_join(v: Seq<Stop>) -> Seq<char>
    decreases v.len(),
{
    if v.len() == 0 {
        Seq::empty()
    } else if v.len() == 1 {
        stop_text(v[0])
    } else {
        stops_join(v.drop_last()) + ", "@ + stop_text(v.last())
    }
}

/// Appends the `Debug` text of a list of stops.
pub fn push_stops(v: &Vec<Stop>, s: &mut String)
    ensures
        final(s)@ == old(s)@ + "["@ + stops_join(v@) + "]"@,
{
    s.append("[");
    let ghost s0 = s@;
    let mut i: usize = 0;
    assert(s@ =~= s0 + stops_join(v@.take(0)));
    while i < v.len()
        invariant
            i <= v.len(),
            s@ == s0 + stops_join(v@.take(i as int)),
        decreases v.len() - i,
    {
        if i > 0 {
            s.append(", ");
        }
        let stop = v[i];
        s.append("(");
        push_decimal(s, stop.0);
        s.append(", ");
        push_decimal(s, stop.1);
        s.append(")");
        assert(v@.take(i + 1).drop_last() =~= v@.take(i as int));
        i += 1;
    }
    assert(v@.take(i as int) =~= v@);
    s.append("]");
}

/// The texts of alignments, separated by `, `.
pub open spec fn aligns_join(v: Seq<AlignKind>) -> Seq<char>
    decreases v.len(),
{
    if v.len() == 0 {
        Seq::empty()
    } else if v.len() == 1 {
        v[0].spec_text()
    } else {
        aligns_join(v.drop_last()) + ", "@ + v.last().spec_text()
    }
}

/// Appends the `Debug` text of a list of alignments.
pub fn push_aligns(v: &Vec<AlignKind>, s: &mut String)
    ensures
        final(s)@ == old(s)@ + "["@ + aligns_join(v@) + "]"@,
{
    s.append("[");
    let ghost s0 = s@;
    let mut i: usize = 0;
    assert(s@ =~= s0 + aligns_join(v@.take(0)));
    while i < v.len()
        invariant
            i <= v.len(),
            s@ == s0 + aligns_join(v@.take(i as int)),
        decreases v.len() - i,
    {
        if i > 0 {
            s.append(", ");
        }
        v[i].push_debug(s);
        assert(v@.take(i + 1).drop_last() =~= v@.take(i as int));
        i += 1;
    }
    assert(v@.take(i as int) =~= v@);
    s.append("]");
}

impl AttributeValue {
    /// The `Debug` text.
    pub open spec fn spec_text(self) -> Seq<char> {
        match self {
            AttributeValue::Expression { value, stops } => "Expression { value: "@ + debug_quoted(
                value@,
            ) + ", stops: "@ + "["@ + stops_join(stops@) + "]"@ + " }"@,
            AttributeValue::Literal(value) => "Literal("@ + debug_quoted(value@) + ")"@,
        }
    }

    /// Appends the `Debug` text.
    pub fn push_debug(&self, s: &mut String)
        ensures
            final(s)@ == old(s)@ + self.spec_text(),
    {
        match self {
            AttributeValue::Expression { value, stops } => {
                s.append("Expression { value: ");
                push_debug_str(s, value.as_str());
                s.append(", stops: ");
                push_stops(stops, s);
                s.append(" }");
            },
            AttributeValue::Literal(value) => {
                s.append("Literal(");
                push_debug_str(s, value.as_str());
                s.append(")");
            },
        }
    }
}

impl AttributeValueExpression {
    /// The `Debug` text.
    pub open spec fn spec_text(self) -> Seq<char> {
        "AttributeValueExpression { value: "@ + debug_quoted(self.value@) + ", stops: "@ + "["@
            + stops_join(self.stops@) + "]"@ + " }"@
    }

    /// Appends the `Debug` text.
    pub fn push_debug(&self, s: &mut String)
        ensures
            final(s)@ == old(s)@ + self.spec_text(),
    {
        s.append("AttributeValueExpression { value: ");
        push_debug_str(s, self.value.as_str());
        s.append(", stops: ");
        push_stops(&self.stops, s);
        s.append(" }");
    }
}

impl MdxJsxAttribute {
    /// The `Debug` text.
    pub open spec fn spec_text(self) -> Seq<char> {
        "MdxJsxAttribute { name: "@ + debug_quoted(self.name@) + ", value: "@ + match self.value {
            Some(v) => "Some("@ + v.spec_text() + ")"@,
            None => "None"@,
        } + " }"@
    }

    /// Appends the `Debug` text.
    pub fn push_debug(&self, s: &mut String)
        ensures
            final(s)@ == old(s)@ + self.spec_text(),
    {
        s.append("MdxJsxAttribute { name: ");
        push_debug_str(s, self.name.as_str());
        s.append(", value: ");
        match &self.value {
            Some(v) => {
                s.append("Some(");
                v.push_debug(s);
                s.append(")");
            },
            None => s.append("None"),
        }
        s.append(" }");
    }
}

impl AttributeContent {
    /// The `Debug` text.
    pub open spec fn spec_text(self) -> Seq<char> {
        match self {
            AttributeContent::Expression { value, stops } => "Expression { value: "@
                + debug_quoted(value@) + ", stops: "@ + "["@ + stops_join(stops@) + "]"@ + " }"@,
            AttributeContent::Property(p) => "Property("@ + p.spec_text() + ")"@,
        }
    }

    /// Appends the `Debug` text.
    pub fn push_debug(&self, s: &mut String)
        ensures
            final(s)@ == old(s)@ + self.spec_text(),
    {
        match self {
            AttributeContent::Expression { value, stops } => {
                s.append("Expression { value: ");
                push_debug_str(s, value.as_str());
                s.append(", stops: ");
                push_stops(stops, s);
                s.append(" }");
            },
            AttributeContent::Property(p) => {
                s.append("Property(");
                p.push_debug(s);
                s.append(")");
            },
        }
    }
}

/// The texts of attributes, separated by `, `.
pub open spec fn attributes_join(v: Seq<AttributeContent>) -> Seq<char>
    decreases v.len(),
{
    if v.len() == 0 {
        Seq::empty()
    } else if v.len() == 1 {
        v[0].spec_text()
    } else {
        attributes_join(v.drop_last()) + ", "@ + v.last().spec_text()
    }
}

/// Appends the `Debug` text of a list of attributes.
pub fn push_attributes(v: &Vec<AttributeContent>, s: &mut String)
    ensures
        final(s)@ == old(s)@ + "["@ + attributes_join(v@) + "]"@,
{
    s.append("[");
    let ghost s0 = s@;
    let mut i: usize = 0;
    assert(s@ =~= s0 + attributes_join(v@.take(0)));
    while i < v.len()
        invariant
            i <= v.len(),
            s@ == s0 + attributes_join(v@.take(i as int)),
        decreases v.len() - i,
    {
        if i > 0 {
            s.append(", ");
        }
        v[i].push_debug(s);
        assert(v@.take(i + 1).drop_last() =~= v@.take(i as int));
        i += 1;
    }
    assert(v@.take(i as int) =~= v@);
    s.append("]");
}

/// The texts of nodes, separated by `, `.
pub open spec fn nodes_join(v: Seq<Node>) -> Seq<char>
    decreases v,
{
    if v.len() == 0 {
        Seq::empty()
    } else if v.len() == 1 {
        v[0].spec_text()
    } else {
        nodes_join(v.drop_last()) + ", "@ + v.last().spec_text()
    }
}

/// Appends the `Debug` text of a list of nodes.
pub fn push_nodes(v: &Vec<Node>, s: &mut String)
    ensures
        final(s)@ == old(s)@ + "["@ + nodes_join(v@) + "]"@,
    decreases v,
{
    s.append("[");
    let ghost s0 = s@;
    let mut i: usize = 0;
    assert(s@ =~= s0 + nodes_join(v@.take(0)));
    while i < v.len()
        invariant
            i <= v.len(),
            s@ == s0 + nodes_join(v@.take(i as int)),
        decreases v.len() - i,
    {
        if i > 0 {
            s.append(", ");
        }
        proof {
            assert(decreases_to!(*v => v@));
            assert(decreases_to!(v@ => v@[i as int]));
        }
        v[i].push_debug(s);
        assert(v@.take(i + 1).drop_last() =~= v@.take(i as int));
        i += 1;
    }
    assert(v@.take(i as int) =~= v@);
    s.append("]");
}

/// The text contents of nodes, one after the other.
pub open spec fn nodes_string(v: Seq<Node>) -> Seq<char>
    decreases v,
{
    if v.len() == 0 {
        Seq::empty()
    } else {
        nodes_string(v.drop_last()) + v.last().spec_string()
    }
}

/// The text contents of nodes, one after the other.
fn children_to_string(children: &Vec<Node>) -> (r: String)
    ensures
        r@ == nodes_string(children@),
    decreases children,
{
    let mut r = String::new();
    let mut i: usize = 0;
    assert(r@ =~= nodes_string(children@.take(0)));
    while i < children.len()
        invariant
            i <= children.len(),
            r@ == nodes_string(children@.take(i as int)),
        decreases children.len() - i,
    {
        proof {
            assert(decreases_to!(*children => children@));
            assert(decreases_to!(children@ => children@[i as int]));
        }
        let c = children[i].to_string();
        r.append(c.as_str());
        assert(children@.take(i + 1).drop_last() =~= children@.take(i as int));
        i += 1;
    }
    assert(children@.take(i as int) =~= children@);
    r
}

impl Node {
    /// The `Debug` text of a node: what `format!("{:?}", node)` gives for
    /// the derived `Debug` of these types.
    pub fn debug_string(&self) -> (r: String)
        ensures
            r@ == self.spec_text(),
    {
        let mut s = String::new();
        self.push_debug(&mut s);
        assert(s@ =~= self.spec_text());
        s
    }
}

/// Nodes.
#[derive(Debug, PartialEq, Eq)]
pub enum Node {
    /// Document.
    Root(Root),
    /// Block quote.
    BlockQuote(BlockQuote),
    /// GFM: footnote definition.
    FootnoteDefinition(FootnoteDefinition),
    /// MDX: JSX element (container).
    MdxJsxFlowElement(MdxJsxFlowElement),
    /// List.
    List(List),
    /// MDX: ESM.
    MdxjsEsm(MdxjsEsm),
    /// Frontmatter: toml.
    Toml(Toml),
    /// Frontmatter: yaml.
    Yaml(Yaml),
    /// Break.
    Break(Break),
    /// Code (phrasing).
    InlineCode(InlineCode),
    /// Math (phrasing).
    InlineMath(InlineMath),
    /// GFM: delete.
    Delete(Delete),
    /// Emphasis.
    Emphasis(Emphasis),
    /// MDX: expression (text).
    MdxTextExpression(MdxTextExpression),
    /// GFM: footnote reference.
    FootnoteReference(FootnoteReference),
    /// Html (flow or phrasing).
    Html(Html),
    /// Image.
    Image(Image),
    /// Image reference.
    ImageReference(ImageReference),
    /// MDX: JSX element (text).
    MdxJsxTextElement(MdxJsxTextElement),
    /// Link.
    Link(Link),
    /// Link reference.
    LinkReference(LinkReference),
    /// Strong.
    Strong(Strong),
    /// Text.
    Text(Text),
    /// Code (flow).
    Code(Code),
    /// Math (flow).
    Math(Math),
    /// MDX: expression (flow).
    MdxFlowExpression(MdxFlowExpression),
    /// Heading.
    Heading(Heading),
    /// GFM: table.
    Table(Table),
    /// Thematic break.
    ThematicBreak(ThematicBreak),
    /// GFM: table row.
    TableRow(TableRow),
    /// GFM: table cell.
    TableCell(TableCell),
    /// List item.
    ListItem(ListItem),
    /// Definition.
    Definition(Definition),
    /// Paragraph.
    Paragraph(Paragraph),
}

impl Node {
    /// The `Debug` text of a node: that of the struct it wraps.
    pub open spec fn spec_text(self) -> Seq<char>
        decreases self,
    {
        match self {
            Node::Root(x) => x.spec_text(),
            Node::BlockQuote(x) => x.spec_text(),
            Node::FootnoteDefinition(x) => x.spec_text(),
            Node::MdxJsxFlowElement(x) => x.spec_text(),
            Node::List(x) => x.spec_text(),
            Node::MdxjsEsm(x) => x.spec_text(),
            Node::Toml(x) => x.spec_text(),
            Node::Yaml(x) => x.spec_text(),
            Node::Break(x) => x.spec_text(),
            Node::InlineCode(x) => x.spec_text(),
            Node::InlineMath(x) => x.spec_text(),
            Node::Delete(x) => x.spec_text(),
            Node::Emphasis(x) => x.spec_text(),
            Node::MdxTextExpression(x) => x.spec_text(),
            Node::FootnoteReference(x) => x.spec_text(),
            Node::Html(x) => x.spec_text(),
            Node::Image(x) => x.spec_text(),
            Node::ImageReference(x) => x.spec_text(),
            Node::MdxJsxTextElement(x) => x.spec_text(),
            Node::Link(x) => x.spec_text(),
            Node::LinkReference(x) => x.spec_text(),
            Node::Strong(x) => x.spec_text(),
            Node::Text(x) => x.spec_text(),
            Node::Code(x) => x.spec_text(),
            Node::Math(x) => x.spec_text(),
            Node::MdxFlowExpression(x) => x.spec_text(),
            Node::Heading(x) => x.spec_text(),
            Node::Table(x) => x.spec_text(),
            Node::ThematicBreak(x) => x.spec_text(),
            Node::TableRow(x) => x.spec_text(),
            Node::TableCell(x) => x.spec_text(),
            Node::ListItem(x) => x.spec_text(),
            Node::Definition(x) => x.spec_text(),
            Node::Paragraph(x) => x.spec_text(),
        }
    }

    /// Appends the `Debug` text of this node.
    pub fn push_debug(&self, s: &mut String)
        ensures
            final(s)@ == old(s)@ + self.spec_text(),
        decreases self,
    {
        match self {
            Node::Root(x) => {
                proof {
                    assert(decreases_to!(*self => *x));
                }
                x.push_debug(s)
            },
            Node::BlockQuote(x) => {
                proof {
                    assert(decreases_to!(*self => *x));
                }
                x.push_debug(s)
            },
            Node::FootnoteDefinition(x) => {
                proof {
                    assert(decreases_to!(*self => *x));
                }
                x.push_debug(s)
            },
            Node::MdxJsxFlowElement(x) => {
                proof {
                    assert(decreases_to!(*self => *x));
                }
                x.push_debug(s)
            },
            Node::List(x) => {
                proof {
                    assert(decreases_to!(*self => *x));
                }
                x.push_debug(s)
            },
            Node::MdxjsEsm(x) => x.push_debug(s),
            Node::Toml(x) => x.push_debug(s),
            Node::Yaml(x) => x.push_debug(s),
            Node::Break(x) => x.push_debug(s),
            Node::InlineCode(x) => x.push_debug(s),
            Node::InlineMath(x) => x.push_debug(s),
            Node::Delete(x) => {
                proof {
                    assert(decreases_to!(*self => *x));
                }
                x.push_debug(s)
            },
            Node::Emphasis(x) => {
                proof {
                    assert(decreases_to!(*self => *x));
                }
                x.push_debug(s)
            },
            Node::MdxTextExpression(x) => x.push_debug(s),
            Node::FootnoteReference(x) => x.push_debug(s),
            Node::Html(x) => x.push_debug(s),
            Node::Image(x) => x.push_debug(s),
            Node::ImageReference(x) => x.push_debug(s),
            Node::MdxJsxTextElement(x) => {
                proof {
                    assert(decreases_to!(*self => *x));
                }
                x.push_debug(s)
            },
            Node::Link(x) => {
                proof {
                    assert(decreases_to!(*self => *x));
                }
                x.push_debug(s)
            },
            Node::LinkReference(x) => {
                proof {
                    assert(decreases_to!(*self => *x));
                }
                x.push_debug(s)
            },
            Node::Strong(x) => {
                proof {
                    assert(decreases_to!(*self => *x));
                }
                x.push_debug(s)
            },
            Node::Text(x) => x.push_debug(s),
            Node::Code(x) => x.push_debug(s),
            Node::Math(x) => x.push_debug(s),
            Node::MdxFlowExpression(x) => x.push_debug(s),
            Node::Heading(x) => {
                proof {
                    assert(decreases_to!(*self => *x));
                }
                x.push_debug(s)
            },
            Node::Table(x) => {
                proof {
                    assert(decreases_to!(*self => *x));
                }
                x.push_debug(s)
            },
            Node::ThematicBreak(x) => x.push_debug(s),
            Node::TableRow(x) => {
                proof {
                    assert(decreases_to!(*self => *x));
                }
                x.push_debug(s)
            },
            Node::TableCell(x) => {
                proof {
                    assert(decreases_to!(*self => *x));
                }
                x.push_debug(s)
            },
            Node::ListItem(x) => {
                proof {
                    assert(decreases_to!(*self => *x));
                }
                x.push_debug(s)
            },
            Node::Definition(x) => x.push_debug(s),
            Node::Paragraph(x) => {
                proof {
                    assert(decreases_to!(*self => *x));
                }
                x.push_debug(s)
            },
        }
    }

    /// The text content of a node: the value of a literal, the text of the
    /// children of a parent, and nothing for a void.
    pub open spec fn spec_string(self) -> Seq<char>
        decreases self,
    {
        match self {
            Node::Root(x) => nodes_string(x.children@),
            Node::BlockQuote(x) => nodes_string(x.children@),
            Node::FootnoteDefinition(x) => nodes_string(x.children@),
            Node::MdxJsxFlowElement(x) => nodes_string(x.children@),
            Node::List(x) => nodes_string(x.children@),
            Node::Delete(x) => nodes_string(x.children@),
            Node::Emphasis(x) => nodes_string(x.children@),
            Node::MdxJsxTextElement(x) => nodes_string(x.children@),
            Node::Link(x) => nodes_string(x.children@),
            Node::LinkReference(x) => nodes_string(x.children@),
            Node::Strong(x) => nodes_string(x.children@),
            Node::Heading(x) => nodes_string(x.children@),
            Node::Table(x) => nodes_string(x.children@),
            Node::TableRow(x) => nodes_string(x.children@),
            Node::TableCell(x) => nodes_string(x.children@),
            Node::ListItem(x) => nodes_string(x.children@),
            Node::Paragraph(x) => nodes_string(x.children@),
            Node::MdxjsEsm(x) => x.value@,
            Node::Toml(x) => x.value@,
            Node::Yaml(x) => x.value@,
            Node::InlineCode(x) => x.value@,
            Node::InlineMath(x) => x.value@,
            Node::MdxTextExpression(x) => x.value@,
            Node::Html(x) => x.value@,
            Node::Text(x) => x.value@,
            Node::Code(x) => x.value@,
            Node::Math(x) => x.value@,
            Node::MdxFlowExpression(x) => x.value@,
            _ => Seq::empty(),
        }
    }

    /// Turn a node into its text content (`ToString`).
    pub fn to_string(&self) -> (r: String)
        ensures
            r@ == self.spec_string(),
        decreases self,
    {
        match self {
            Node::Root(x) => {
                proof {
                    assert(decreases_to!(*self => *x));
                    assert(decreases_to!(*x => x.children));
                }
                children_to_string(&x.children)
            },
            Node::BlockQuote(x) => {
                proof {
                    assert(decreases_to!(*self => *x));
                    assert(decreases_to!(*x => x.children));
                }
                children_to_string(&x.children)
            },
            Node::FootnoteDefinition(x) => {
                proof {
                    assert(decreases_to!(*self => *x));
                    assert(decreases_to!(*x => x.children));
                }
                children_to_string(&x.children)
            },
            Node::MdxJsxFlowElement(x) => {
                proof {
                    assert(decreases_to!(*self => *x));
                    assert(decreases_to!(*x => x.children));
                }
                children_to_string(&x.children)
            },
            Node::List(x) => {
                proof {
                    assert(decreases_to!(*self => *x));
                    assert(decreases_to!(*x => x.children));
                }
                children_to_string(&x.children)
            },
            Node::Delete(x) => {
                proof {
                    assert(decreases_to!(*self => *x));
                    assert(decreases_to!(*x => x.children));
                }
                children_to_string(&x.children)
            },
            Node::Emphasis(x) => {
                proof {
                    assert(decreases_to!(*self => *x));
                    assert(decreases_to!(*x => x.children));
                }
                children_to_string(&x.children)
            },
            Node::MdxJsxTextElement(x) => {
                proof {
                    assert(decreases_to!(*self => *x));
                    assert(decreases_to!(*x => x.children));
                }
                children_to_string(&x.children)
            },
            Node::Link(x) => {
                proof {
                    assert(decreases_to!(*self => *x));
                    assert(decreases_to!(*x => x.children));
                }
                children_to_string(&x.children)
            },
            Node::LinkReference(x) => {
                proof {
                    assert(decreases_to!(*self => *x));
                    assert(decreases_to!(*x => x.children));
                }
                children_to_string(&x.children)
            },
            Node::Strong(x) => {
                proof {
                    assert(decreases_to!(*self => *x));
                    assert(decreases_to!(*x => x.children));
                }
                children_to_string(&x.children)
            },
            Node::Heading(x) => {
                proof {
                    assert(decreases_to!(*self => *x));
                    assert(decreases_to!(*x => x.children));
                }
                children_to_string(&x.children)
            },
            Node::Table(x) => {
                proof {
                    assert(decreases_to!(*self => *x));
                    assert(decreases_to!(*x => x.children));
                }
                children_to_string(&x.children)
            },
            Node::TableRow(x) => {
                proof {
                    assert(decreases_to!(*self => *x));
                    assert(decreases_to!(*x => x.children));
                }
                children_to_string(&x.children)
            },
            Node::TableCell(x) => {
                proof {
                    assert(decreases_to!(*self => *x));
                    assert(decreases_to!(*x => x.children));
                }
                children_to_string(&x.children)
            },
            Node::ListItem(x) => {
                proof {
                    assert(decreases_to!(*self => *x));
                    assert(decreases_to!(*x => x.children));
                }
                children_to_string(&x.children)
            },
            Node::Paragraph(x) => {
                proof {
                    assert(decreases_to!(*self => *x));
                    assert(decreases_to!(*x => x.children));
                }
                children_to_string(&x.children)
            },
            Node::MdxjsEsm(x) => x.value.clone(),
            Node::Toml(x) => x.value.clone(),
            Node::Yaml(x) => x.value.clone(),
            Node::InlineCode(x) => x.value.clone(),
            Node::InlineMath(x) => x.value.clone(),
            Node::MdxTextExpression(x) => x.value.clone(),
            Node::Html(x) => x.value.clone(),
            Node::Text(x) => x.value.clone(),
            Node::Code(x) => x.value.clone(),
            Node::Math(x) => x.value.clone(),
            Node::MdxFlowExpression(x) => x.value.clone(),
            Node::Break(_)
            | Node::FootnoteReference(_)
            | Node::Image(_)
            | Node::ImageReference(_)
            | Node::ThematicBreak(_)
            | Node::Definition(_) => String::new(),
        }
    }

    /// The children of a parent node; `None` for other nodes.
    pub open spec fn spec_children(self) -> Option<Vec<Node>> {
        match self {
            Node::Root(x) => Some(x.children),
            Node::BlockQuote(x) => Some(x.children),
            Node::FootnoteDefinition(x) => Some(x.children),
            Node::MdxJsxFlowElement(x) => Some(x.children),
            Node::List(x) => Some(x.children),
            Node::Delete(x) => Some(x.children),
            Node::Emphasis(x) => Some(x.children),
            Node::MdxJsxTextElement(x) => Some(x.children),
            Node::Link(x) => Some(x.children),
            Node::LinkReference(x) => Some(x.children),
            Node::Strong(x) => Some(x.children),
            Node::Heading(x) => Some(x.children),
            Node::Table(x) => Some(x.children),
            Node::TableRow(x) => Some(x.children),
            Node::TableCell(x) => Some(x.children),
            Node::ListItem(x) => Some(x.children),
            Node::Paragraph(x) => Some(x.children),
            _ => None,
        }
    }

    /// The node with the children of a parent replaced; other nodes are
    /// unchanged.
    pub open spec fn with_children(self, children: Vec<Node>) -> Node {
        match self {
            Node::Root(x) => Node::Root(Root { children, ..x }),
            Node::BlockQuote(x) => Node::BlockQuote(BlockQuote { children, ..x }),
            Node::FootnoteDefinition(x) => Node::FootnoteDefinition(FootnoteDefinition { children, ..x }),
            Node::MdxJsxFlowElement(x) => Node::MdxJsxFlowElement(MdxJsxFlowElement { children, ..x }),
            Node::List(x) => Node::List(List { children, ..x }),
            Node::Delete(x) => Node::Delete(Delete { children, ..x }),
            Node::Emphasis(x) => Node::Emphasis(Emphasis { children, ..x }),
            Node::MdxJsxTextElement(x) => Node::MdxJsxTextElement(MdxJsxTextElement { children, ..x }),
            Node::Link(x) => Node::Link(Link { children, ..x }),
            Node::LinkReference(x) => Node::LinkReference(LinkReference { children, ..x }),
            Node::Strong(x) => Node::Strong(Strong { children, ..x }),
            Node::Heading(x) => Node::Heading(Heading { children, ..x }),
            Node::Table(x) => Node::Table(Table { children, ..x }),
            Node::TableRow(x) => Node::TableRow(TableRow { children, ..x }),
            Node::TableCell(x) => Node::TableCell(TableCell { children, ..x }),
            Node::ListItem(x) => Node::ListItem(ListItem { children, ..x }),
            Node::Paragraph(x) => Node::Paragraph(Paragraph { children, ..x }),
            _ => self,
        }
    }

    /// The positional info of a node.
    pub open spec fn spec_position(self) -> Option<Position> {
        match self {
            Node::Root(x) => x.position,
            Node::BlockQuote(x) => x.position,
            Node::FootnoteDefinition(x) => x.position,
            Node::MdxJsxFlowElement(x) => x.position,
            Node::List(x) => x.position,
            Node::MdxjsEsm(x) => x.position,
            Node::Toml(x) => x.position,
            Node::Yaml(x) => x.position,
            Node::Break(x) => x.position,
            Node::InlineCode(x) => x.position,
            Node::InlineMath(x) => x.position,
            Node::Delete(x) => x.position,
            Node::Emphasis(x) => x.position,
            Node::MdxTextExpression(x) => x.position,
            Node::FootnoteReference(x) => x.position,
            Node::Html(x) => x.position,
            Node::Image(x) => x.position,
            Node::ImageReference(x) => x.position,
            Node::MdxJsxTextElement(x) => x.position,
            Node::Link(x) => x.position,
            Node::LinkReference(x) => x.position,
            Node::Strong(x) => x.position,
            Node::Text(x) => x.position,
            Node::Code(x) => x.position,
            Node::Math(x) => x.position,
            Node::MdxFlowExpression(x) => x.position,
            Node::Heading(x) => x.position,
            Node::Table(x) => x.position,
            Node::ThematicBreak(x) => x.position,
            Node::TableRow(x) => x.position,
            Node::TableCell(x) => x.position,
            Node::ListItem(x) => x.position,
            Node::Definition(x) => x.position,
            Node::Paragraph(x) => x.position,
        }
    }

    /// The node with its positional info replaced.
    pub open spec fn with_position(self, position: Option<Position>) -> Node {
        match self {
            Node::Root(x) => Node::Root(Root { position, ..x }),
            Node::BlockQuote(x) => Node::BlockQuote(BlockQuote { position, ..x }),
            Node::FootnoteDefinition(x) => Node::FootnoteDefinition(FootnoteDefinition { position, ..x }),
            Node::MdxJsxFlowElement(x) => Node::MdxJsxFlowElement(MdxJsxFlowElement { position, ..x }),
            Node::List(x) => Node::List(List { position, ..x }),
            Node::MdxjsEsm(x) => Node::MdxjsEsm(MdxjsEsm { position, ..x }),
            Node::Toml(x) => Node::Toml(Toml { position, ..x }),
            Node::Yaml(x) => Node::Yaml(Yaml { position, ..x }),
            Node::Break(x) => Node::Break(Break { position, ..x }),
            Node::InlineCode(x) => Node::InlineCode(InlineCode { position, ..x }),
            Node::InlineMath(x) => Node::InlineMath(InlineMath { position, ..x }),
            Node::Delete(x) => Node::Delete(Delete { position, ..x }),
            Node::Emphasis(x) => Node::Emphasis(Emphasis { position, ..x }),
            Node::MdxTextExpression(x) => Node::MdxTextExpression(MdxTextExpression { position, ..x }),
            Node::FootnoteReference(x) => Node::FootnoteReference(FootnoteReference { position, ..x }),
            Node::Html(x) => Node::Html(Html { position, ..x }),
            Node::Image(x) => Node::Image(Image { position, ..x }),
            Node::ImageReference(x) => Node::ImageReference(ImageReference { position, ..x }),
            Node::MdxJsxTextElement(x) => Node::MdxJsxTextElement(MdxJsxTextElement { position, ..x }),
            Node::Link(x) => Node::Link(Link { position, ..x }),
            Node::LinkReference(x) => Node::LinkReference(LinkReference { position, ..x }),
            Node::Strong(x) => Node::Strong(Strong { position, ..x }),
            Node::Text(x) => Node::Text(Text { position, ..x }),
            Node::Code(x) => Node::Code(Code { position, ..x }),
            Node::Math(x) => Node::Math(Math { position, ..x }),
            Node::MdxFlowExpression(x) => Node::MdxFlowExpression(MdxFlowExpression { position, ..x }),
            Node::Heading(x) => Node::Heading(Heading { position, ..x }),
            Node::Table(x) => Node::Table(Table { position, ..x }),
            Node::ThematicBreak(x) => Node::ThematicBreak(ThematicBreak { position, ..x }),
            Node::TableRow(x) => Node::TableRow(TableRow { position, ..x }),
            Node::TableCell(x) => Node::TableCell(TableCell { position, ..x }),
            Node::ListItem(x) => Node::ListItem(ListItem { position, ..x }),
            Node::Definition(x) => Node::Definition(Definition { position, ..x }),
            Node::Paragraph(x) => Node::Paragraph(Paragraph { position, ..x }),
        }
    }

    /// The children of a parent node.
    pub fn children(&self) -> (r: Option<&Vec<Node>>)
        ensures
            r is Some <==> self.spec_children() is Some,
            r is Some ==> self.spec_children() == Some(*r.unwrap()),
    {
        match self {
            Node::Root(x) => Some(&x.children),
            Node::BlockQuote(x) => Some(&x.children),
            Node::FootnoteDefinition(x) => Some(&x.children),
            Node::MdxJsxFlowElement(x) => Some(&x.children),
            Node::List(x) => Some(&x.children),
            Node::Delete(x) => Some(&x.children),
            Node::Emphasis(x) => Some(&x.children),
            Node::MdxJsxTextElement(x) => Some(&x.children),
            Node::Link(x) => Some(&x.children),
            Node::LinkReference(x) => Some(&x.children),
            Node::Strong(x) => Some(&x.children),
            Node::Heading(x) => Some(&x.children),
            Node::Table(x) => Some(&x.children),
            Node::TableRow(x) => Some(&x.children),
            Node::TableCell(x) => Some(&x.children),
            Node::ListItem(x) => Some(&x.children),
            Node::Paragraph(x) => Some(&x.children),
            _ => None,
        }
    }

    /// The children of a parent node, to change.
    pub fn children_mut(&mut self) -> (r: Option<&mut Vec<Node>>)
        ensures
            r is Some <==> old(self).spec_children() is Some,
            r is Some ==> old(self).spec_children() == Some(*r.unwrap())
                && *final(self) == old(self).with_children(*final(r.unwrap())),
            r is None ==> *final(self) == *old(self),
    {
        match self {
            Node::Root(x) => Some(&mut x.children),
            Node::BlockQuote(x) => Some(&mut x.children),
            Node::FootnoteDefinition(x) => Some(&mut x.children),
            Node::MdxJsxFlowElement(x) => Some(&mut x.children),
            Node::List(x) => Some(&mut x.children),
            Node::Delete(x) => Some(&mut x.children),
            Node::Emphasis(x) => Some(&mut x.children),
            Node::MdxJsxTextElement(x) => Some(&mut x.children),
            Node::Link(x) => Some(&mut x.children),
            Node::LinkReference(x) => Some(&mut x.children),
            Node::Strong(x) => Some(&mut x.children),
            Node::Heading(x) => Some(&mut x.children),
            Node::Table(x) => Some(&mut x.children),
            Node::TableRow(x) => Some(&mut x.children),
            Node::TableCell(x) => Some(&mut x.children),
            Node::ListItem(x) => Some(&mut x.children),
            Node::Paragraph(x) => Some(&mut x.children),
            _ => None,
        }
    }

    /// The positional info of a node.
    pub fn position(&self) -> (r: Option<&Position>)
        ensures
            r is Some <==> self.spec_position() is Some,
            r is Some ==> self.spec_position() == Some(*r.unwrap()),
    {
        match self {
            Node::Root(x) => x.position.as_ref(),
            Node::BlockQuote(x) => x.position.as_ref(),
            Node::FootnoteDefinition(x) => x.position.as_ref(),
            Node::MdxJsxFlowElement(x) => x.position.as_ref(),
            Node::List(x) => x.position.as_ref(),
            Node::MdxjsEsm(x) => x.position.as_ref(),
            Node::Toml(x) => x.position.as_ref(),
            Node::Yaml(x) => x.position.as_ref(),
            Node::Break(x) => x.position.as_ref(),
            Node::InlineCode(x) => x.position.as_ref(),
            Node::InlineMath(x) => x.position.as_ref(),
            Node::Delete(x) => x.position.as_ref(),
            Node::Emphasis(x) => x.position.as_ref(),
            Node::MdxTextExpression(x) => x.position.as_ref(),
            Node::FootnoteReference(x) => x.position.as_ref(),
            Node::Html(x) => x.position.as_ref(),
            Node::Image(x) => x.position.as_ref(),
            Node::ImageReference(x) => x.position.as_ref(),
            Node::MdxJsxTextElement(x) => x.position.as_ref(),
            Node::Link(x) => x.position.as_ref(),
            Node::LinkReference(x) => x.position.as_ref(),
            Node::Strong(x) => x.position.as_ref(),
            Node::Text(x) => x.position.as_ref(),
            Node::Code(x) => x.position.as_ref(),
            Node::Math(x) => x.position.as_ref(),
            Node::MdxFlowExpression(x) => x.position.as_ref(),
            Node::Heading(x) => x.position.as_ref(),
            Node::Table(x) => x.position.as_ref(),
            Node::ThematicBreak(x) => x.position.as_ref(),
            Node::TableRow(x) => x.position.as_ref(),
            Node::TableCell(x) => x.position.as_ref(),
            Node::ListItem(x) => x.position.as_ref(),
            Node::Definition(x) => x.position.as_ref(),
            Node::Paragraph(x) => x.position.as_ref(),
        }
    }

    /// The positional info of a node, to change.
    pub fn position_mut(&mut self) -> (r: Option<&mut Position>)
        ensures
            r is Some <==> old(self).spec_position() is Some,
            r is Some ==> old(self).spec_position() == Some(*r.unwrap())
                && *final(self) == old(self).with_position(Some(*final(r.unwrap()))),
            r is None ==> *final(self) == *old(self),
    {
        match self {
            Node::Root(x) => x.position.as_mut(),
            Node::BlockQuote(x) => x.position.as_mut(),
            Node::FootnoteDefinition(x) => x.position.as_mut(),
            Node::MdxJsxFlowElement(x) => x.position.as_mut(),
            Node::List(x) => x.position.as_mut(),
            Node::MdxjsEsm(x) => x.position.as_mut(),
            Node::Toml(x) => x.position.as_mut(),
            Node::Yaml(x) => x.position.as_mut(),
            Node::Break(x) => x.position.as_mut(),
            Node::InlineCode(x) => x.position.as_mut(),
            Node::InlineMath(x) => x.position.as_mut(),
            Node::Delete(x) => x.position.as_mut(),
            Node::Emphasis(x) => x.position.as_mut(),
            Node::MdxTextExpression(x) => x.position.as_mut(),
            Node::FootnoteReference(x) => x.position.as_mut(),
            Node::Html(x) => x.position.as_mut(),
            Node::Image(x) => x.position.as_mut(),
            Node::ImageReference(x) => x.position.as_mut(),
            Node::MdxJsxTextElement(x) => x.position.as_mut(),
            Node::Link(x) => x.position.as_mut(),
            Node::LinkReference(x) => x.position.as_mut(),
            Node::Strong(x) => x.position.as_mut(),
            Node::Text(x) => x.position.as_mut(),
            Node::Code(x) => x.position.as_mut(),
            Node::Math(x) => x.position.as_mut(),
            Node::MdxFlowExpression(x) => x.position.as_mut(),
            Node::Heading(x) => x.position.as_mut(),
            Node::Table(x) => x.position.as_mut(),
            Node::ThematicBreak(x) => x.position.as_mut(),
            Node::TableRow(x) => x.position.as_mut(),
            Node::TableCell(x) => x.position.as_mut(),
            Node::ListItem(x) => x.position.as_mut(),
            Node::Definition(x) => x.position.as_mut(),
            Node::Paragraph(x) => x.position.as_mut(),
        }
    }

    /// Replace the positional info of a node.
    pub fn position_set(&mut self, position: Option<Position>)
        ensures
            *final(self) == old(self).with_position(position),
    {
        match self {
            Node::Root(x) => x.position = position,
            Node::BlockQuote(x) => x.position = position,
            Node::FootnoteDefinition(x) => x.position = position,
            Node::MdxJsxFlowElement(x) => x.position = position,
            Node::List(x) => x.position = position,
            Node::MdxjsEsm(x) => x.position = position,
            Node::Toml(x) => x.position = position,
            Node::Yaml(x) => x.position = position,
            Node::Break(x) => x.position = position,
            Node::InlineCode(x) => x.position = position,
            Node::InlineMath(x) => x.position = position,
            Node::Delete(x) => x.position = position,
            Node::Emphasis(x) => x.position = position,
            Node::MdxTextExpression(x) => x.position = position,
            Node::FootnoteReference(x) => x.position = position,
            Node::Html(x) => x.position = position,
            Node::Image(x) => x.position = position,
            Node::ImageReference(x) => x.position = position,
            Node::MdxJsxTextElement(x) => x.position = position,
            Node::Link(x) => x.position = position,
            Node::LinkReference(x) => x.position = position,
            Node::Strong(x) => x.position = position,
            Node::Text(x) => x.position = position,
            Node::Code(x) => x.position = position,
            Node::Math(x) => x.position = position,
            Node::MdxFlowExpression(x) => x.position = position,
            Node::Heading(x) => x.position = position,
            Node::Table(x) => x.position = position,
            Node::ThematicBreak(x) => x.position = position,
            Node::TableRow(x) => x.position = position,
            Node::TableCell(x) => x.position = position,
            Node::ListItem(x) => x.position = position,
            Node::Definition(x) => x.position = position,
            Node::Paragraph(x) => x.position = position,
        }
    }
}


/// Document.
#[derive(Debug, PartialEq, Eq)]
pub struct Root {
    /// Content model.
    pub children: Vec<Node>,
    /// Positional info.
    pub position: Option<Position>,
}

impl Root {
    /// The `Debug` text of this node.
    pub open spec fn spec_text(self) -> Seq<char>
        decreases self,
    {
        "Root { children: "@ + "["@ + nodes_join(self.children@) + "]"@
            + ", position: "@ + position_text(self.position)
            + " }"@
    }

    /// Appends the `Debug` text of this node.
    pub fn push_debug(&self, s: &mut String)
        ensures
            final(s)@ == old(s)@ + self.spec_text(),
        decreases self,
    {
        s.append("Root { children: ");
        proof {
            assert(decreases_to!(*self => self.children));
        }
        push_nodes(&self.children, s);
        s.append(", position: ");
        push_position(&self.position, s);
        s.append(" }");
    }
}

/// Block quote.
#[derive(Debug, PartialEq, Eq)]
pub struct BlockQuote {
    /// Content model.
    pub children: Vec<Node>,
    /// Positional info.
    pub position: Option<Position>,
}

impl BlockQuote {
    /// The `Debug` text of this node.
    pub open spec fn spec_text(self) -> Seq<char>
        decreases self,
    {
        "BlockQuote { children: "@ + "["@ + nodes_join(self.children@) + "]"@
            + ", position: "@ + position_text(self.position)
            + " }"@
    }

    /// Appends the `Debug` text of this node.
    pub fn push_debug(&self, s: &mut String)
        ensures
            final(s)@ == old(s)@ + self.spec_text(),
        decreases self,
    {
        s.append("BlockQuote { children: ");
        proof {
            assert(decreases_to!(*self => self.children));
        }
        push_nodes(&self.children, s);
        s.append(", position: ");
        push_position(&self.position, s);
        s.append(" }");
    }
}

/// GFM: footnote definition.
#[derive(Debug, PartialEq, Eq)]
pub struct FootnoteDefinition {
    /// Content model.
    pub children: Vec<Node>,
    /// Positional info.
    pub position: Option<Position>,
    /// Value that can match another node (a normalized source value).
    pub identifier: String,
    /// Source text of the association, with escapes and references decoded.
    pub label: Option<String>,
}

impl FootnoteDefinition {
    /// The `Debug` text of this node.
    pub open spec fn spec_text(self) -> Seq<char>
        decreases self,
    {
        "FootnoteDefinition { children: "@ + "["@ + nodes_join(self.children@) + "]"@
            + ", position: "@ + position_text(self.position)
            + ", identifier: "@ + debug_quoted(self.identifier@)
            + ", label: "@ + string_opt_text(self.label)
            + " }"@
    }

    /// Appends the `Debug` text of this node.
    pub fn push_debug(&self, s: &mut String)
        ensures
            final(s)@ == old(s)@ + self.spec_text(),
        decreases self,
    {
        s.append("FootnoteDefinition { children: ");
        proof {
            assert(decreases_to!(*self => self.children));
        }
        push_nodes(&self.children, s);
        s.append(", position: ");
        push_position(&self.position, s);
        s.append(", identifier: ");
        push_debug_str(s, self.identifier.as_str());
        s.append(", label: ");
        push_string_opt(&self.label, s);
        s.append(" }");
    }
}

/// MDX: JSX element (container).
#[derive(Debug, PartialEq, Eq)]
pub struct MdxJsxFlowElement {
    /// Content model.
    pub children: Vec<Node>,
    /// Positional info.
    pub position: Option<Position>,
    /// Name; fragments have none.
    pub name: Option<String>,
    /// Attributes.
    pub attributes: Vec<AttributeContent>,
}

impl MdxJsxFlowElement {
    /// The `Debug` text of this node.
    pub open spec fn spec_text(self) -> Seq<char>
        decreases self,
    {
        "MdxJsxFlowElement { children: "@ + "["@ + nodes_join(self.children@) + "]"@
            + ", position: "@ + position_text(self.position)
            + ", name: "@ + string_opt_text(self.name)
            + ", attributes: "@ + "["@ + attributes_join(self.attributes@) + "]"@
            + " }"@
    }

    /// Appends the `Debug` text of this node.
    pub fn push_debug(&self, s: &mut String)
        ensures
            final(s)@ == old(s)@ + self.spec_text(),
        decreases self,
    {
        s.append("MdxJsxFlowElement { children: ");
        proof {
            assert(decreases_to!(*self => self.children));
        }
        push_nodes(&self.children, s);
        s.append(", position: ");
        push_position(&self.position, s);
        s.append(", name: ");
        push_string_opt(&self.name, s);
        s.append(", attributes: ");
        push_attributes(&self.attributes, s);
        s.append(" }");
    }
}

/// List.
#[derive(Debug, PartialEq, Eq)]
pub struct List {
    /// Content model.
    pub children: Vec<Node>,
    /// Positional info.
    pub position: Option<Position>,
    /// Ordered (`true`) or unordered (`false`).
    pub ordered: bool,
    /// Starting number of the list; `None` when unordered.
    pub start: Option<u32>,
    /// Whether children are separated by blank lines.
    pub spread: bool,
}

impl List {
    /// The `Debug` text of this node.
    pub open spec fn spec_text(self) -> Seq<char>
        decreases self,
    {
        "List { children: "@ + "["@ + nodes_join(self.children@) + "]"@
            + ", position: "@ + position_text(self.position)
            + ", ordered: "@ + bool_text(self.ordered)
            + ", start: "@ + u32_opt_text(self.start)
            + ", spread: "@ + bool_text(self.spread)
            + " }"@
    }

    /// Appends the `Debug` text of this node.
    pub fn push_debug(&self, s: &mut String)
        ensures
            final(s)@ == old(s)@ + self.spec_text(),
        decreases self,
    {
        s.append("List { children: ");
        proof {
            assert(decreases_to!(*self => self.children));
        }
        push_nodes(&self.children, s);
        s.append(", position: ");
        push_position(&self.position, s);
        s.append(", ordered: ");
        push_bool(s, self.ordered);
        s.append(", start: ");
        push_u32_opt(&self.start, s);
        s.append(", spread: ");
        push_bool(s, self.spread);
        s.append(" }");
    }
}

/// MDX: ESM.
#[derive(Clone, Debug, PartialEq, Eq)]
pub struct MdxjsEsm {
    /// Content model.
    pub value: String,
    /// Positional info.
    pub position: Option<Position>,
    /// Where each slice of `value` came from.
    pub stops: Vec<Stop>,
}

impl MdxjsEsm {
    /// The `Debug` text of this node.
    pub open spec fn spec_text(self) -> Seq<char>
    {
        "MdxjsEsm { value: "@ + debug_quoted(self.value@)
            + ", position: "@ + position_text(self.position)
            + ", stops: "@ + "["@ + stops_join(self.stops@) + "]"@
            + " }"@
    }

    /// Appends the `Debug` text of this node.
    pub fn push_debug(&self, s: &mut String)
        ensures
            final(s)@ == old(s)@ + self.spec_text(),
    {
        s.append("MdxjsEsm { value: ");
        push_debug_str(s, self.value.as_str());
        s.append(", position: ");
        push_position(&self.position, s);
        s.append(", stops: ");
        push_stops(&self.stops, s);
        s.append(" }");
    }
}

/// Frontmatter: toml.
#[derive(Clone, Debug, PartialEq, Eq)]
pub struct Toml {
    /// Content model.
    pub value: String,
    /// Positional info.
    pub position: Option<Position>,
}

impl Toml {
    /// The `Debug` text of this node.
    pub open spec fn spec_text(self) -> Seq<char>
    {
        "Toml { value: "@ + debug_quoted(self.value@)
            + ", position: "@ + position_text(self.position)
            + " }"@
    }

    /// Appends the `Debug` text of this node.
    pub fn push_debug(&self, s: &mut String)
        ensures
            final(s)@ == old(s)@ + self.spec_text(),
    {
        s.append("Toml { value: ");
        push_debug_str(s, self.value.as_str());
        s.append(", position: ");
        push_position(&self.position, s);
        s.append(" }");
    }
}

/// Frontmatter: yaml.
#[derive(Clone, Debug, PartialEq, Eq)]
pub struct Yaml {
    /// Content model.
    pub value: String,
    /// Positional info.
    pub position: Option<Position>,
}

impl Yaml {
    /// The `Debug` text of this node.
    pub open spec fn spec_text(self) -> Seq<char>
    {
        "Yaml { value: "@ + debug_quoted(self.value@)
            + ", position: "@ + position_text(self.position)
            + " }"@
    }

    /// Appends the `Debug` text of this node.
    pub fn push_debug(&self, s: &mut String)
        ensures
            final(s)@ == old(s)@ + self.spec_text(),
    {
        s.append("Yaml { value: ");
        push_debug_str(s, self.value.as_str());
        s.append(", position: ");
        push_position(&self.position, s);
        s.append(" }");
    }
}

/// Break.
#[derive(Clone, Debug, PartialEq, Eq)]
pub struct Break {
    /// Positional info.
    pub position: Option<Position>,
}

impl Break {
    /// The `Debug` text of this node.
    pub open spec fn spec_text(self) -> Seq<char>
    {
        "Break { position: "@ + position_text(self.position)
            + " }"@
    }

    /// Appends the `Debug` text of this node.
    pub fn push_debug(&self, s: &mut String)
        ensures
            final(s)@ == old(s)@ + self.spec_text(),
    {
        s.append("Break { position: ");
        push_position(&self.position, s);
        s.append(" }");
    }
}

/// Code (phrasing).
#[derive(Clone, Debug, PartialEq, Eq)]
pub struct InlineCode {
    /// Content model.
    pub value: String,
    /// Positional info.
    pub position: Option<Position>,
}

impl InlineCode {
    /// The `Debug` text of this node.
    pub open spec fn spec_text(self) -> Seq<char>
    {
        "InlineCode { value: "@ + debug_quoted(self.value@)
            + ", position: "@ + position_text(self.position)
            + " }"@
    }

    /// Appends the `Debug` text of this node.
    pub fn push_debug(&self, s: &mut String)
        ensures
            final(s)@ == old(s)@ + self.spec_text(),
    {
        s.append("InlineCode { value: ");
        push_debug_str(s, self.value.as_str());
        s.append(", position: ");
        push_position(&self.position, s);
        s.append(" }");
    }
}

/// Math (phrasing).
#[derive(Clone, Debug, PartialEq, Eq)]
pub struct InlineMath {
    /// Content model.
    pub value: String,
    /// Positional info.
    pub position: Option<Position>,
}

impl InlineMath {
    /// The `Debug` text of this node.
    pub open spec fn spec_text(self) -> Seq<char>
    {
        "InlineMath { value: "@ + debug_quoted(self.value@)
            + ", position: "@ + position_text(self.position)
            + " }"@
    }

    /// Appends the `Debug` text of this node.
    pub fn push_debug(&self, s: &mut String)
        ensures
            final(s)@ == old(s)@ + self.spec_text(),
    {
        s.append("InlineMath { value: ");
        push_debug_str(s, self.value.as_str());
        s.append(", position: ");
        push_position(&self.position, s);
        s.append(" }");
    }
}

/// GFM: delete.
#[derive(Debug, PartialEq, Eq)]
pub struct Delete {
    /// Content model.
    pub children: Vec<Node>,
    /// Positional info.
    pub position: Option<Position>,
}

impl Delete {
    /// The `Debug` text of this node.
    pub open spec fn spec_text(self) -> Seq<char>
        decreases self,
    {
        "Delete { children: "@ + "["@ + nodes_join(self.children@) + "]"@
            + ", position: "@ + position_text(self.position)
            + " }"@
    }

    /// Appends the `Debug` text of this node.
    pub fn push_debug(&self, s: &mut String)
        ensures
            final(s)@ == old(s)@ + self.spec_text(),
        decreases self,
    {
        s.append("Delete { children: ");
        proof {
            assert(decreases_to!(*self => self.children));
        }
        push_nodes(&self.children, s);
        s.append(", position: ");
        push_position(&self.position, s);
        s.append(" }");
    }
}

/// Emphasis.
#[derive(Debug, PartialEq, Eq)]
pub struct Emphasis {
    /// Content model.
    pub children: Vec<Node>,
    /// Positional info.
    pub position: Option<Position>,
}

impl Emphasis {
    /// The `Debug` text of this node.
    pub open spec fn spec_text(self) -> Seq<char>
        decreases self,
    {
        "Emphasis { children: "@ + "["@ + nodes_join(self.children@) + "]"@
            + ", position: "@ + position_text(self.position)
            + " }"@
    }

    /// Appends the `Debug` text of this node.
    pub fn push_debug(&self, s: &mut String)
        ensures
            final(s)@ == old(s)@ + self.spec_text(),
        decreases self,
    {
        s.append("Emphasis { children: ");
        proof {
            assert(decreases_to!(*self => self.children));
        }
        push_nodes(&self.children, s);
        s.append(", position: ");
        push_position(&self.position, s);
        s.append(" }");
    }
}

/// MDX: expression (text).
#[derive(Clone, Debug, PartialEq, Eq)]
pub struct MdxTextExpression {
    /// Content model.
    pub value: String,
    /// Positional info.
    pub position: Option<Position>,
    /// Where each slice of `value` came from.
    pub stops: Vec<Stop>,
}

impl MdxTextExpression {
    /// The `Debug` text of this node.
    pub open spec fn spec_text(self) -> Seq<char>
    {
        "MdxTextExpression { value: "@ + debug_quoted(self.value@)
            + ", position: "@ + position_text(self.position)
            + ", stops: "@ + "["@ + stops_join(self.stops@) + "]"@
            + " }"@
    }

    /// Appends the `Debug` text of this node.
    pub fn push_debug(&self, s: &mut String)
        ensures
            final(s)@ == old(s)@ + self.spec_text(),
    {
        s.append("MdxTextExpression { value: ");
        push_debug_str(s, self.value.as_str());
        s.append(", position: ");
        push_position(&self.position, s);
        s.append(", stops: ");
        push_stops(&self.stops, s);
        s.append(" }");
    }
}

/// GFM: footnote reference.
#[derive(Clone, Debug, PartialEq, Eq)]
pub struct FootnoteReference {
    /// Positional info.
    pub position: Option<Position>,
    /// Value that can match another node (a normalized source value).
    pub identifier: String,
    /// Source text of the association, with escapes and references decoded.
    pub label: Option<String>,
}

impl FootnoteReference {
    /// The `Debug` text of this node.
    pub open spec fn spec_text(self) -> Seq<char>
    {
        "FootnoteReference { position: "@ + position_text(self.position)
            + ", identifier: "@ + debug_quoted(self.identifier@)
            + ", label: "@ + string_opt_text(self.label)
            + " }"@
    }

    /// Appends the `Debug` text of this node.
    pub fn push_debug(&self, s: &mut String)
        ensures
            final(s)@ == old(s)@ + self.spec_text(),
    {
        s.append("FootnoteReference { position: ");
        push_position(&self.position, s);
        s.append(", identifier: ");
        push_debug_str(s, self.identifier.as_str());
        s.append(", label: ");
        push_string_opt(&self.label, s);
        s.append(" }");
    }
}

/// Html (flow or phrasing).
#[derive(Clone, Debug, PartialEq, Eq)]
pub struct Html {
    /// Content model.
    pub value: String,
    /// Positional info.
    pub position: Option<Position>,
}

impl Html {
    /// The `Debug` text of this node.
    pub open spec fn spec_text(self) -> Seq<char>
    {
        "Html { value: "@ + debug_quoted(self.value@)
            + ", position: "@ + position_text(self.position)
            + " }"@
    }

    /// Appends the `Debug` text of this node.
    pub fn push_debug(&self, s: &mut String)
        ensures
            final(s)@ == old(s)@ + self.spec_text(),
    {
        s.append("Html { value: ");
        push_debug_str(s, self.value.as_str());
        s.append(", position: ");
        push_position(&self.position, s);
        s.append(" }");
    }
}

/// Image.
#[derive(Clone, Debug, PartialEq, Eq)]
pub struct Image {
    /// Positional info.
    pub position: Option<Position>,
    /// Equivalent content for environments that cannot show the node.
    pub alt: String,
    /// URL to the referenced resource.
    pub url: String,
    /// Advisory info for the resource.
    pub title: Option<String>,
}

impl Image {
    /// The `Debug` text of this node.
    pub open spec fn spec_text(self) -> Seq<char>
    {
        "Image { position: "@ + position_text(self.position)
            + ", alt: "@ + debug_quoted(self.alt@)
            + ", url: "@ + debug_quoted(self.url@)
            + ", title: "@ + string_opt_text(self.title)
            + " }"@
    }

    /// Appends the `Debug` text of this node.
    pub fn push_debug(&self, s: &mut String)
        ensures
            final(s)@ == old(s)@ + self.spec_text(),
    {
        s.append("Image { position: ");
        push_position(&self.position, s);
        s.append(", alt: ");
        push_debug_str(s, self.alt.as_str());
        s.append(", url: ");
        push_debug_str(s, self.url.as_str());
        s.append(", title: ");
        push_string_opt(&self.title, s);
        s.append(" }");
    }
}

/// Image reference.
#[derive(Clone, Debug, PartialEq, Eq)]
pub struct ImageReference {
    /// Positional info.
    pub position: Option<Position>,
    /// Equivalent content for environments that cannot show the node.
    pub alt: String,
    /// Explicitness of a reference.
    pub reference_kind: ReferenceKind,
    /// Value that can match another node (a normalized source value).
    pub identifier: String,
    /// Source text of the association, with escapes and references decoded.
    pub label: Option<String>,
}

impl ImageReference {
    /// The `Debug` text of this node.
    pub open spec fn spec_text(self) -> Seq<char>
    {
        "ImageReference { position: "@ + position_text(self.position)
            + ", alt: "@ + debug_quoted(self.alt@)
            + ", reference_kind: "@ + self.reference_kind.spec_text()
            + ", identifier: "@ + debug_quoted(self.identifier@)
            + ", label: "@ + string_opt_text(self.label)
            + " }"@
    }

    /// Appends the `Debug` text of this node.
    pub fn push_debug(&self, s: &mut String)
        ensures
            final(s)@ == old(s)@ + self.spec_text(),
    {
        s.append("ImageReference { position: ");
        push_position(&self.position, s);
        s.append(", alt: ");
        push_debug_str(s, self.alt.as_str());
        s.append(", reference_kind: ");
        self.reference_kind.push_debug(s);
        s.append(", identifier: ");
        push_debug_str(s, self.identifier.as_str());
        s.append(", label: ");
        push_string_opt(&self.label, s);
        s.append(" }");
    }
}

/// MDX: JSX element (text).
#[derive(Debug, PartialEq, Eq)]
pub struct MdxJsxTextElement {
    /// Content model.
    pub children: Vec<Node>,
    /// Positional info.
    pub position: Option<Position>,
    /// Name; fragments have none.
    pub name: Option<String>,
    /// Attributes.
    pub attributes: Vec<AttributeContent>,
}

impl MdxJsxTextElement {
    /// The `Debug` text of this node.
    pub open spec fn spec_text(self) -> Seq<char>
        decreases self,
    {
        "MdxJsxTextElement { children: "@ + "["@ + nodes_join(self.children@) + "]"@
            + ", position: "@ + position_text(self.position)
            + ", name: "@ + string_opt_text(self.name)
            + ", attributes: "@ + "["@ + attributes_join(self.attributes@) + "]"@
            + " }"@
    }

    /// Appends the `Debug` text of this node.
    pub fn push_debug(&self, s: &mut String)
        ensures
            final(s)@ == old(s)@ + self.spec_text(),
        decreases self,
    {
        s.append("MdxJsxTextElement { children: ");
        proof {
            assert(decreases_to!(*self => self.children));
        }
        push_nodes(&self.children, s);
        s.append(", position: ");
        push_position(&self.position, s);
        s.append(", name: ");
        push_string_opt(&self.name, s);
        s.append(", attributes: ");
        push_attributes(&self.attributes, s);
        s.append(" }");
    }
}

/// Link.
#[derive(Debug, PartialEq, Eq)]
pub struct Link {
    /// Content model.
    pub children: Vec<Node>,
    /// Positional info.
    pub position: Option<Position>,
    /// URL to the referenced resource.
    pub url: String,
    /// Advisory info for the resource.
    pub title: Option<String>,
}

impl Link {
    /// The `Debug` text of this node.
    pub open spec fn spec_text(self) -> Seq<char>
        decreases self,
    {
        "Link { children: "@ + "["@ + nodes_join(self.children@) + "]"@
            + ", position: "@ + position_text(self.position)
            + ", url: "@ + debug_quoted(self.url@)
            + ", title: "@ + string_opt_text(self.title)
            + " }"@
    }

    /// Appends the `Debug` text of this node.
    pub fn push_debug(&self, s: &mut String)
        ensures
            final(s)@ == old(s)@ + self.spec_text(),
        decreases self,
    {
        s.append("Link { children: ");
        proof {
            assert(decreases_to!(*self => self.children));
        }
        push_nodes(&self.children, s);
        s.append(", position: ");
        push_position(&self.position, s);
        s.append(", url: ");
        push_debug_str(s, self.url.as_str());
        s.append(", title: ");
        push_string_opt(&self.title, s);
        s.append(" }");
    }
}

/// Link reference.
#[derive(Debug, PartialEq, Eq)]
pub struct LinkReference {
    /// Content model.
    pub children: Vec<Node>,
    /// Positional info.
    pub position: Option<Position>,
    /// Explicitness of a reference.
    pub reference_kind: ReferenceKind,
    /// Value that can match another node (a normalized source value).
    pub identifier: String,
    /// Source text of the association, with escapes and references decoded.
    pub label: Option<String>,
}

impl LinkReference {
    /// The `Debug` text of this node.
    pub open spec fn spec_text(self) -> Seq<char>
        decreases self,
    {
        "LinkReference { children: "@ + "["@ + nodes_join(self.children@) + "]"@
            + ", position: "@ + position_text(self.position)
            + ", reference_kind: "@ + self.reference_kind.spec_text()
            + ", identifier: "@ + debug_quoted(self.identifier@)
            + ", label: "@ + string_opt_text(self.label)
            + " }"@
    }

    /// Appends the `Debug` text of this node.
    pub fn push_debug(&self, s: &mut String)
        ensures
            final(s)@ == old(s)@ + self.spec_text(),
        decreases self,
    {
        s.append("LinkReference { children: ");
        proof {
            assert(decreases_to!(*self => self.children));
        }
        push_nodes(&self.children, s);
        s.append(", position: ");
        push_position(&self.position, s);
        s.append(", reference_kind: ");
        self.reference_kind.push_debug(s);
        s.append(", identifier: ");
        push_debug_str(s, self.identifier.as_str());
        s.append(", label: ");
        push_string_opt(&self.label, s);
        s.append(" }");
    }
}

/// Strong.
#[derive(Debug, PartialEq, Eq)]
pub struct Strong {
    /// Content model.
    pub children: Vec<Node>,
    /// Positional info.
    pub position: Option<Position>,
}

impl Strong {
    /// The `Debug` text of this node.
    pub open spec fn spec_text(self) -> Seq<char>
        decreases self,
    {
        "Strong { children: "@ + "["@ + nodes_join(self.children@) + "]"@
            + ", position: "@ + position_text(self.position)
            + " }"@
    }

    /// Appends the `Debug` text of this node.
    pub fn push_debug(&self, s: &mut String)
        ensures
            final(s)@ == old(s)@ + self.spec_text(),
        decreases self,
    {
        s.append("Strong { children: ");
        proof {
            assert(decreases_to!(*self => self.children));
        }
        push_nodes(&self.children, s);
        s.append(", position: ");
        push_position(&self.position, s);
        s.append(" }");
    }
}

/// Text.
#[derive(Clone, Debug, PartialEq, Eq)]
pub struct Text {
    /// Content model.
    pub value: String,
    /// Positional info.
    pub position: Option<Position>,
}

impl Text {
    /// The `Debug` text of this node.
    pub open spec fn spec_text(self) -> Seq<char>
    {
        "Text { value: "@ + debug_quoted(self.value@)
            + ", position: "@ + position_text(self.position)
            + " }"@
    }

    /// Appends the `Debug` text of this node.
    pub fn push_debug(&self, s: &mut String)
        ensures
            final(s)@ == old(s)@ + self.spec_text(),
    {
        s.append("Text { value: ");
        push_debug_str(s, self.value.as_str());
        s.append(", position: ");
        push_position(&self.position, s);
        s.append(" }");
    }
}

/// Code (flow).
#[derive(Clone, Debug, PartialEq, Eq)]
pub struct Code {
    /// Content model.
    pub value: String,
    /// Positional info.
    pub position: Option<Position>,
    /// The language of the code.
    pub lang: Option<String>,
    /// Custom info relating to the node.
    pub meta: Option<String>,
}

impl Code {
    /// The `Debug` text of this node.
    pub open spec fn spec_text(self) -> Seq<char>
    {
        "Code { value: "@ + debug_quoted(self.value@)
            + ", position: "@ + position_text(self.position)
            + ", lang: "@ + string_opt_text(self.lang)
            + ", meta: "@ + string_opt_text(self.meta)
            + " }"@
    }

    /// Appends the `Debug` text of this node.
    pub fn push_debug(&self, s: &mut String)
        ensures
            final(s)@ == old(s)@ + self.spec_text(),
    {
        s.append("Code { value: ");
        push_debug_str(s, self.value.as_str());
        s.append(", position: ");
        push_position(&self.position, s);
        s.append(", lang: ");
        push_string_opt(&self.lang, s);
        s.append(", meta: ");
        push_string_opt(&self.meta, s);
        s.append(" }");
    }
}

/// Math (flow).
#[derive(Clone, Debug, PartialEq, Eq)]
pub struct Math {
    /// Content model.
    pub value: String,
    /// Positional info.
    pub position: Option<Position>,
    /// Custom info relating to the node.
    pub meta: Option<String>,
}

impl Math {
    /// The `Debug` text of this node.
    pub open spec fn spec_text(self) -> Seq<char>
    {
        "Math { value: "@ + debug_quoted(self.value@)
            + ", position: "@ + position_text(self.position)
            + ", meta: "@ + string_opt_text(self.meta)
            + " }"@
    }

    /// Appends the `Debug` text of this node.
    pub fn push_debug(&self, s: &mut String)
        ensures
            final(s)@ == old(s)@ + self.spec_text(),
    {
        s.append("Math { value: ");
        push_debug_str(s, self.value.as_str());
        s.append(", position: ");
        push_position(&self.position, s);
        s.append(", meta: ");
        push_string_opt(&self.meta, s);
        s.append(" }");
    }
}

/// MDX: expression (flow).
#[derive(Clone, Debug, PartialEq, Eq)]
pub struct MdxFlowExpression {
    /// Content model.
    pub value: String,
    /// Positional info.
    pub position: Option<Position>,
    /// Where each slice of `value` came from.
    pub stops: Vec<Stop>,
}

impl MdxFlowExpression {
    /// The `Debug` text of this node.
    pub open spec fn spec_text(self) -> Seq<char>
    {
        "MdxFlowExpression { value: "@ + debug_quoted(self.value@)
            + ", position: "@ + position_text(self.position)
            + ", stops: "@ + "["@ + stops_join(self.stops@) + "]"@
            + " }"@
    }

    /// Appends the `Debug` text of this node.
    pub fn push_debug(&self, s: &mut String)
        ensures
            final(s)@ == old(s)@ + self.spec_text(),
    {
        s.append("MdxFlowExpression { value: ");
        push_debug_str(s, self.value.as_str());
        s.append(", position: ");
        push_position(&self.position, s);
        s.append(", stops: ");
        push_stops(&self.stops, s);
        s.append(" }");
    }
}

/// Heading.
#[derive(Debug, PartialEq, Eq)]
pub struct Heading {
    /// Content model.
    pub children: Vec<Node>,
    /// Positional info.
    pub position: Option<Position>,
    /// Rank (between `1` and `6`, both including).
    pub depth: u8,
}

impl Heading {
    /// The `Debug` text of this node.
    pub open spec fn spec_text(self) -> Seq<char>
        decreases self,
    {
        "Heading { children: "@ + "["@ + nodes_join(self.children@) + "]"@
            + ", position: "@ + position_text(self.position)
            + ", depth: "@ + decimal(self.depth as nat)
            + " }"@
    }

    /// Appends the `Debug` text of this node.
    pub fn push_debug(&self, s: &mut String)
        ensures
            final(s)@ == old(s)@ + self.spec_text(),
        decreases self,
    {
        s.append("Heading { children: ");
        proof {
            assert(decreases_to!(*self => self.children));
        }
        push_nodes(&self.children, s);
        s.append(", position: ");
        push_position(&self.position, s);
        s.append(", depth: ");
        push_decimal(s, self.depth as usize);
        s.append(" }");
    }
}

/// GFM: table.
#[derive(Debug, PartialEq, Eq)]
pub struct Table {
    /// Content model.
    pub children: Vec<Node>,
    /// Positional info.
    pub position: Option<Position>,
    /// How cells in columns are aligned.
    pub align: Vec<AlignKind>,
}

impl Table {
    /// The `Debug` text of this node.
    pub open spec fn spec_text(self) -> Seq<char>
        decreases self,
    {
        "Table { children: "@ + "["@ + nodes_join(self.children@) + "]"@
            + ", position: "@ + position_text(self.position)
            + ", align: "@ + "["@ + aligns_join(self.align@) + "]"@
            + " }"@
    }

    /// Appends the `Debug` text of this node.
    pub fn push_debug(&self, s: &mut String)
        ensures
            final(s)@ == old(s)@ + self.spec_text(),
        decreases self,
    {
        s.append("Table { children: ");
        proof {
            assert(decreases_to!(*self => self.children));
        }
        push_nodes(&self.children, s);
        s.append(", position: ");
        push_position(&self.position, s);
        s.append(", align: ");
        push_aligns(&self.align, s);
        s.append(" }");
    }
}

/// Thematic break.
#[derive(Clone, Debug, PartialEq, Eq)]
pub struct ThematicBreak {
    /// Positional info.
    pub position: Option<Position>,
}

impl ThematicBreak {
    /// The `Debug` text of this node.
    pub open spec fn spec_text(self) -> Seq<char>
    {
        "ThematicBreak { position: "@ + position_text(self.position)
            + " }"@
    }

    /// Appends the `Debug` text of this node.
    pub fn push_debug(&self, s: &mut String)
        ensures
            final(s)@ == old(s)@ + self.spec_text(),
    {
        s.append("ThematicBreak { position: ");
        push_position(&self.position, s);
        s.append(" }");
    }
}

/// GFM: table row.
#[derive(Debug, PartialEq, Eq)]
pub struct TableRow {
    /// Content model.
    pub children: Vec<Node>,
    /// Positional info.
    pub position: Option<Position>,
}

impl TableRow {
    /// The `Debug` text of this node.
    pub open spec fn spec_text(self) -> Seq<char>
        decreases self,
    {
        "TableRow { children: "@ + "["@ + nodes_join(self.children@) + "]"@
            + ", position: "@ + position_text(self.position)
            + " }"@
    }

    /// Appends the `Debug` text of this node.
    pub fn push_debug(&self, s: &mut String)
        ensures
            final(s)@ == old(s)@ + self.spec_text(),
        decreases self,
    {
        s.append("TableRow { children: ");
        proof {
            assert(decreases_to!(*self => self.children));
        }
        push_nodes(&self.children, s);
        s.append(", position: ");
        push_position(&self.position, s);
        s.append(" }");
    }
}

/// GFM: table cell.
#[derive(Debug, PartialEq, Eq)]
pub struct TableCell {
    /// Content model.
    pub children: Vec<Node>,
    /// Positional info.
    pub position: Option<Position>,
}

impl TableCell {
    /// The `Debug` text of this node.
    pub open spec fn spec_text(self) -> Seq<char>
        decreases self,
    {
        "TableCell { children: "@ + "["@ + nodes_join(self.children@) + "]"@
            + ", position: "@ + position_text(self.position)
            + " }"@
    }

    /// Appends the `Debug` text of this node.
    pub fn push_debug(&self, s: &mut String)
        ensures
            final(s)@ == old(s)@ + self.spec_text(),
        decreases self,
    {
        s.append("TableCell { children: ");
        proof {
            assert(decreases_to!(*self => self.children));
        }
        push_nodes(&self.children, s);
        s.append(", position: ");
        push_position(&self.position, s);
        s.append(" }");
    }
}

/// List item.
#[derive(Debug, PartialEq, Eq)]
pub struct ListItem {
    /// Content model.
    pub children: Vec<Node>,
    /// Positional info.
    pub position: Option<Position>,
    /// Whether children are separated by blank lines.
    pub spread: bool,
    /// GFM: whether the item is done.
    pub checked: Option<bool>,
}

impl ListItem {
    /// The `Debug` text of this node.
    pub open spec fn spec_text(self) -> Seq<char>
        decreases self,
    {
        "ListItem { children: "@ + "["@ + nodes_join(self.children@) + "]"@
            + ", position: "@ + position_text(self.position)
            + ", spread: "@ + bool_text(self.spread)
            + ", checked: "@ + bool_opt_text(self.checked)
            + " }"@
    }

    /// Appends the `Debug` text of this node.
    pub fn push_debug(&self, s: &mut String)
        ensures
            final(s)@ == old(s)@ + self.spec_text(),
        decreases self,
    {
        s.append("ListItem { children: ");
        proof {
            assert(decreases_to!(*self => self.children));
        }
        push_nodes(&self.children, s);
        s.append(", position: ");
        push_position(&self.position, s);
        s.append(", spread: ");
        push_bool(s, self.spread);
        s.append(", checked: ");
        push_bool_opt(&self.checked, s);
        s.append(" }");
    }
}

/// Definition.
#[derive(Clone, Debug, PartialEq, Eq)]
pub struct Definition {
    /// Positional info.
    pub position: Option<Position>,
    /// URL to the referenced resource.
    pub url: String,
    /// Advisory info for the resource.
    pub title: Option<String>,
    /// Value that can match another node (a normalized source value).
    pub identifier: String,
    /// Source text of the association, with escapes and references decoded.
    pub label: Option<String>,
}

impl Definition {
    /// The `Debug` text of this node.
    pub open spec fn spec_text(self) -> Seq<char>
    {
        "Definition { position: "@ + position_text(self.position)
            + ", url: "@ + debug_quoted(self.url@)
            + ", title: "@ + string_opt_text(self.title)
            + ", identifier: "@ + debug_quoted(self.identifier@)
            + ", label: "@ + string_opt_text(self.label)
            + " }"@
    }

    /// Appends the `Debug` text of this node.
    pub fn push_debug(&self, s: &mut String)
        ensures
            final(s)@ == old(s)@ + self.spec_text(),
    {
        s.append("Definition { position: ");
        push_position(&self.position, s);
        s.append(", url: ");
        push_debug_str(s, self.url.as_str());
        s.append(", title: ");
        push_string_opt(&self.title, s);
        s.append(", identifier: ");
        push_debug_str(s, self.identifier.as_str());
        s.append(", label: ");
        push_string_opt(&self.label, s);
        s.append(" }");
    }
}

/// Paragraph.
#[derive(Debug, PartialEq, Eq)]
pub struct Paragraph {
    /// Content model.
    pub children: Vec<Node>,
    /// Positional info.
    pub position: Option<Position>,
}

impl Paragraph {
    /// The `Debug` text of this node.
    pub open spec fn spec_text(self) -> Seq<char>
        decreases self,
    {
        "Paragraph { children: "@ + "["@ + nodes_join(self.children@) + "]"@
            + ", position: "@ + position_text(self.position)
            + " }"@
    }

    /// Appends the `Debug` text of this node.
    pub fn push_debug(&self, s: &mut String)
        ensures
            final(s)@ == old(s)@ + self.spec_text(),
        decreases self,
    {
        s.append("Paragraph { children: ");
        proof {
            assert(decreases_to!(*self => self.children));
        }
        push_nodes(&self.children, s);
        s.append(", position: ");
        push_position(&self.position, s);
        s.append(" }");
    }
}


/// Setting the position of a node and then reading it gives back what was
/// set.
pub proof fn lemma_position_set_then_get(node: Node, position: Option<Position>)
    ensures
        node.with_position(position).spec_position() == position,
{
}

/// Setting the position of a node leaves its children, its text and its
/// kind as they were.
pub proof fn lemma_position_set_keeps_content(node: Node, position: Option<Position>)
    ensures
        node.with_position(position).spec_children() == node.spec_children(),
        node.with_position(position).spec_string() == node.spec_string(),
{
}

/// Setting the position a node already has changes nothing.
pub proof fn lemma_position_set_same(node: Node)
    ensures
        node.with_position(node.spec_position()) == node,
{
}

/// Of two position updates, the last one wins.
pub proof fn lemma_position_set_twice(node: Node, first: Option<Position>, second: Option<Position>)
    ensures
        node.with_position(first).with_position(second) == node.with_position(second),
{
}

/// Replacing the children of a parent and then reading them gives back what
/// was written; its position is kept; writing back the children it has
/// changes nothing.
pub proof fn lemma_children_write_then_read(node: Node, children: Vec<Node>)
    requires
        node.spec_children() is Some,
    ensures
        node.with_children(children).spec_children() == Some(children),
        node.with_children(children).spec_position() == node.spec_position(),
        node.with_children(node.spec_children().unwrap()) == node,
{
}

} // verus!
