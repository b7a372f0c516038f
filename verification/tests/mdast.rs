use markdown::mdast::{
    BlockQuote, Break, Code, Definition, Delete, Emphasis, FootnoteDefinition,
    FootnoteReference, Heading, Html, Image, ImageReference, InlineCode, InlineMath, Link,
    LinkReference, List, ListItem, Math, MdxFlowExpression, MdxJsxFlowElement, MdxJsxTextElement,
    MdxTextExpression, MdxjsEsm, Node, Paragraph, ReferenceKind, Root, Strong, Table, TableCell,
    TableRow, Text, ThematicBreak, Toml, Yaml,
};
use markdown::unist::Position;

#[test]
fn text() {
    let mut node = Node::Text(Text {
        value: "a".into(),
        position: None,
    });

    assert_eq!(
        node.debug_string(),
        "Text { value: \"a\", position: None }",
        "should support `Debug`"
    );
    assert_eq!(node.to_string(), "a", "should support `ToString`");
    assert_eq!(node.children_mut(), None, "should support `children_mut`");
    assert_eq!(node.children(), None, "should support `children`");
    assert_eq!(node.position(), None, "should support `position`");
    assert_eq!(node.position_mut(), None, "should support `position`");
    node.position_set(Some(Position::new(1, 1, 0, 1, 2, 1)));
    assert_eq!(
        node.debug_string(),
        "Text { value: \"a\", position: Some(1:1-1:2 (0-1)) }",
        "should support `position_set`"
    );
}

#[test]
fn inline_code() {
    let mut node = Node::InlineCode(InlineCode {
        value: "a".into(),
        position: None,
    });

    assert_eq!(
        node.debug_string(),
        "InlineCode { value: \"a\", position: None }",
        "should support `Debug`"
    );
    assert_eq!(node.to_string(), "a", "should support `ToString`");
    assert_eq!(node.children_mut(), None, "should support `children_mut`");
    assert_eq!(node.children(), None, "should support `children`");
    assert_eq!(node.position(), None, "should support `position`");
    assert_eq!(node.position_mut(), None, "should support `position`");
    node.position_set(Some(Position::new(1, 1, 0, 1, 2, 1)));
    assert_eq!(
        node.debug_string(),
        "InlineCode { value: \"a\", position: Some(1:1-1:2 (0-1)) }",
        "should support `position_set`"
    );
}

#[test]
fn code() {
    let mut node = Node::Code(Code {
        value: "a".into(),
        position: None,
        lang: None,
        meta: None,
    });

    assert_eq!(
        node.debug_string(),
        "Code { value: \"a\", position: None, lang: None, meta: None }",
        "should support `Debug`"
    );
    assert_eq!(node.to_string(), "a", "should support `ToString`");
    assert_eq!(node.children_mut(), None, "should support `children_mut`");
    assert_eq!(node.children(), None, "should support `children`");
    assert_eq!(node.position(), None, "should support `position`");
    assert_eq!(node.position_mut(), None, "should support `position`");
    node.position_set(Some(Position::new(1, 1, 0, 1, 2, 1)));
    assert_eq!(
        node.debug_string(),
        "Code { value: \"a\", position: Some(1:1-1:2 (0-1)), lang: None, meta: None }",
        "should support `position_set`"
    );
}

#[test]
fn inline_math() {
    let mut node = Node::InlineMath(InlineMath {
        value: "a".into(),
        position: None,
    });

    assert_eq!(
        node.debug_string(),
        "InlineMath { value: \"a\", position: None }",
        "should support `Debug`"
    );
    assert_eq!(node.to_string(), "a", "should support `ToString`");
    assert_eq!(node.children_mut(), None, "should support `children_mut`");
    assert_eq!(node.children(), None, "should support `children`");
    assert_eq!(node.position(), None, "should support `position`");
    assert_eq!(node.position_mut(), None, "should support `position`");
    node.position_set(Some(Position::new(1, 1, 0, 1, 2, 1)));
    assert_eq!(
        node.debug_string(),
        "InlineMath { value: \"a\", position: Some(1:1-1:2 (0-1)) }",
        "should support `position_set`"
    );
}

#[test]
fn math() {
    let mut node = Node::Math(Math {
        value: "a".into(),
        position: None,
        meta: None,
    });

    assert_eq!(
        node.debug_string(),
        "Math { value: \"a\", position: None, meta: None }",
        "should support `Debug`"
    );
    assert_eq!(node.to_string(), "a", "should support `ToString`");
    assert_eq!(node.children_mut(), None, "should support `children_mut`");
    assert_eq!(node.children(), None, "should support `children`");
    assert_eq!(node.position(), None, "should support `position`");
    assert_eq!(node.position_mut(), None, "should support `position`");
    node.position_set(Some(Position::new(1, 1, 0, 1, 2, 1)));
    assert_eq!(
        node.debug_string(),
        "Math { value: \"a\", position: Some(1:1-1:2 (0-1)), meta: None }",
        "should support `position_set`"
    );
}

#[test]
fn html() {
    let mut node = Node::Html(Html {
        value: "a".into(),
        position: None,
    });

    assert_eq!(
        node.debug_string(),
        "Html { value: \"a\", position: None }",
        "should support `Debug`"
    );
    assert_eq!(node.to_string(), "a", "should support `ToString`");
    assert_eq!(node.children_mut(), None, "should support `children_mut`");
    assert_eq!(node.children(), None, "should support `children`");
    assert_eq!(node.position(), None, "should support `position`");
    assert_eq!(node.position_mut(), None, "should support `position`");
    node.position_set(Some(Position::new(1, 1, 0, 1, 2, 1)));
    assert_eq!(
        node.debug_string(),
        "Html { value: \"a\", position: Some(1:1-1:2 (0-1)) }",
        "should support `position_set`"
    );
}

#[test]
fn mdx_text_expression() {
    let mut node = Node::MdxTextExpression(MdxTextExpression {
        value: "a".into(),
        stops: vec![],
        position: None,
    });

    assert_eq!(
        node.debug_string(),
        "MdxTextExpression { value: \"a\", position: None, stops: [] }",
        "should support `Debug`"
    );
    assert_eq!(node.to_string(), "a", "should support `ToString`");
    assert_eq!(node.children_mut(), None, "should support `children_mut`");
    assert_eq!(node.children(), None, "should support `children`");
    assert_eq!(node.position(), None, "should support `position`");
    assert_eq!(node.position_mut(), None, "should support `position`");
    node.position_set(Some(Position::new(1, 1, 0, 1, 2, 1)));
    assert_eq!(
        node.debug_string(),
        "MdxTextExpression { value: \"a\", position: Some(1:1-1:2 (0-1)), stops: [] }",
        "should support `position_set`"
    );
}

#[test]
fn mdx_flow_expression() {
    let mut node = Node::MdxFlowExpression(MdxFlowExpression {
        value: "a".into(),
        stops: vec![],
        position: None,
    });

    assert_eq!(
        node.debug_string(),
        "MdxFlowExpression { value: \"a\", position: None, stops: [] }",
        "should support `Debug`"
    );
    assert_eq!(node.to_string(), "a", "should support `ToString`");
    assert_eq!(node.children_mut(), None, "should support `children_mut`");
    assert_eq!(node.children(), None, "should support `children`");
    assert_eq!(node.position(), None, "should support `position`");
    assert_eq!(node.position_mut(), None, "should support `position`");
    node.position_set(Some(Position::new(1, 1, 0, 1, 2, 1)));
    assert_eq!(
        node.debug_string(),
        "MdxFlowExpression { value: \"a\", position: Some(1:1-1:2 (0-1)), stops: [] }",
        "should support `position_set`"
    );
}

#[test]
fn mdxjs_esm() {
    let mut node = Node::MdxjsEsm(MdxjsEsm {
        value: "a".into(),
        stops: vec![],
        position: None,
    });

    assert_eq!(
        node.debug_string(),
        "MdxjsEsm { value: \"a\", position: None, stops: [] }",
        "should support `Debug`"
    );
    assert_eq!(node.to_string(), "a", "should support `ToString`");
    assert_eq!(node.children_mut(), None, "should support `children_mut`");
    assert_eq!(node.children(), None, "should support `children`");
    assert_eq!(node.position(), None, "should support `position`");
    assert_eq!(node.position_mut(), None, "should support `position`");
    node.position_set(Some(Position::new(1, 1, 0, 1, 2, 1)));
    assert_eq!(
        node.debug_string(),
        "MdxjsEsm { value: \"a\", position: Some(1:1-1:2 (0-1)), stops: [] }",
        "should support `position_set`"
    );
}

#[test]
fn toml() {
    let mut node = Node::Toml(Toml {
        value: "a".into(),
        position: None,
    });

    assert_eq!(
        node.debug_string(),
        "Toml { value: \"a\", position: None }",
        "should support `Debug`"
    );
    assert_eq!(node.to_string(), "a", "should support `ToString`");
    assert_eq!(node.children_mut(), None, "should support `children_mut`");
    assert_eq!(node.children(), None, "should support `children`");
    assert_eq!(node.position(), None, "should support `position`");
    assert_eq!(node.position_mut(), None, "should support `position`");
    node.position_set(Some(Position::new(1, 1, 0, 1, 2, 1)));
    assert_eq!(
        node.debug_string(),
        "Toml { value: \"a\", position: Some(1:1-1:2 (0-1)) }",
        "should support `position_set`"
    );
}

#[test]
fn yaml() {
    let mut node = Node::Yaml(Yaml {
        value: "a".into(),
        position: None,
    });

    assert_eq!(
        node.debug_string(),
        "Yaml { value: \"a\", position: None }",
        "should support `Debug`"
    );
    assert_eq!(node.to_string(), "a", "should support `ToString`");
    assert_eq!(node.children_mut(), None, "should support `children_mut`");
    assert_eq!(node.children(), None, "should support `children`");
    assert_eq!(node.position(), None, "should support `position`");
    assert_eq!(node.position_mut(), None, "should support `position`");
    node.position_set(Some(Position::new(1, 1, 0, 1, 2, 1)));
    assert_eq!(
        node.debug_string(),
        "Yaml { value: \"a\", position: Some(1:1-1:2 (0-1)) }",
        "should support `position_set`"
    );
}

// Voids.

#[test]
fn break_node() {
    let mut node = Node::Break(Break { position: None });

    assert_eq!(
        node.debug_string(),
        "Break { position: None }",
        "should support `Debug`"
    );
    assert_eq!(node.to_string(), "", "should support `ToString`");
    assert_eq!(node.children_mut(), None, "should support `children_mut`");
    assert_eq!(node.children(), None, "should support `children`");
    assert_eq!(node.position(), None, "should support `position`");
    assert_eq!(node.position_mut(), None, "should support `position`");
    node.position_set(Some(Position::new(1, 1, 0, 1, 2, 1)));
    assert_eq!(
        node.debug_string(),
        "Break { position: Some(1:1-1:2 (0-1)) }",
        "should support `position_set`"
    );
}

#[test]
fn thematic_break() {
    let mut node = Node::ThematicBreak(ThematicBreak { position: None });

    assert_eq!(
        node.debug_string(),
        "ThematicBreak { position: None }",
        "should support `Debug`"
    );
    assert_eq!(node.to_string(), "", "should support `ToString`");
    assert_eq!(node.children_mut(), None, "should support `children_mut`");
    assert_eq!(node.children(), None, "should support `children`");
    assert_eq!(node.position(), None, "should support `position`");
    assert_eq!(node.position_mut(), None, "should support `position`");
    node.position_set(Some(Position::new(1, 1, 0, 1, 2, 1)));
    assert_eq!(
        node.debug_string(),
        "ThematicBreak { position: Some(1:1-1:2 (0-1)) }",
        "should support `position_set`"
    );
}

#[test]
fn footnote_reference() {
    let mut node = Node::FootnoteReference(FootnoteReference {
        position: None,
        identifier: "a".into(),
        label: Some("b".into()),
    });

    assert_eq!(
        node.debug_string(),
        "FootnoteReference { position: None, identifier: \"a\", label: Some(\"b\") }",
        "should support `Debug`"
    );
    assert_eq!(node.to_string(), "", "should support `ToString`");
    assert_eq!(node.children_mut(), None, "should support `children_mut`");
    assert_eq!(node.children(), None, "should support `children`");
    assert_eq!(node.position(), None, "should support `position`");
    assert_eq!(node.position_mut(), None, "should support `position`");
    node.position_set(Some(Position::new(1, 1, 0, 1, 2, 1)));
    assert_eq!(
        node.debug_string(),
        "FootnoteReference { position: Some(1:1-1:2 (0-1)), identifier: \"a\", label: Some(\"b\") }",
        "should support `position_set`"
    );
}

#[test]
fn image_reference() {
    let mut node = Node::ImageReference(ImageReference {
        position: None,
        alt: "a".into(),
        identifier: "b".into(),
        label: Some("c".into()),
        reference_kind: ReferenceKind::Full,
    });

    assert_eq!(
        node.debug_string(),
        "ImageReference { position: None, alt: \"a\", reference_kind: Full, identifier: \"b\", label: Some(\"c\") }",
        "should support `Debug`"
    );
    assert_eq!(node.to_string(), "", "should support `ToString`");
    assert_eq!(node.children_mut(), None, "should support `children_mut`");
    assert_eq!(node.children(), None, "should support `children`");
    assert_eq!(node.position(), None, "should support `position`");
    assert_eq!(node.position_mut(), None, "should support `position`");
    node.position_set(Some(Position::new(1, 1, 0, 1, 2, 1)));
    assert_eq!(
        node.debug_string(),
        "ImageReference { position: Some(1:1-1:2 (0-1)), alt: \"a\", reference_kind: Full, identifier: \"b\", label: Some(\"c\") }",
        "should support `position_set`"
    );
}

#[test]
fn image() {
    let mut node = Node::Image(Image {
        position: None,
        alt: "a".into(),
        url: "b".into(),
        title: None,
    });

    assert_eq!(
        node.debug_string(),
        "Image { position: None, alt: \"a\", url: \"b\", title: None }",
        "should support `Debug`"
    );
    assert_eq!(node.to_string(), "", "should support `ToString`");
    assert_eq!(node.children_mut(), None, "should support `children_mut`");
    assert_eq!(node.children(), None, "should support `children`");
    assert_eq!(node.position(), None, "should support `position`");
    assert_eq!(node.position_mut(), None, "should support `position`");
    node.position_set(Some(Position::new(1, 1, 0, 1, 2, 1)));
    assert_eq!(
        node.debug_string(),
        "Image { position: Some(1:1-1:2 (0-1)), alt: \"a\", url: \"b\", title: None }",
        "should support `position_set`"
    );
}

#[test]
fn definition() {
    let mut node = Node::Definition(Definition {
        position: None,
        identifier: "a".into(),
        label: None,
        url: "b".into(),
        title: None,
    });

    assert_eq!(
        node.debug_string(),
        "Definition { position: None, url: \"b\", title: None, identifier: \"a\", label: None }",
        "should support `Debug`"
    );
    assert_eq!(node.to_string(), "", "should support `ToString`");
    assert_eq!(node.children_mut(), None, "should support `children_mut`");
    assert_eq!(node.children(), None, "should support `children`");
    assert_eq!(node.position(), None, "should support `position`");
    assert_eq!(node.position_mut(), None, "should support `position`");
    node.position_set(Some(Position::new(1, 1, 0, 1, 2, 1)));
    assert_eq!(
        node.debug_string(),
        "Definition { position: Some(1:1-1:2 (0-1)), url: \"b\", title: None, identifier: \"a\", label: None }",
        "should support `position_set`"
    );
}

// Parents.

#[test]
fn root() {
    let mut node = Node::Root(Root {
        position: None,
        children: vec![],
    });

    assert_eq!(
        node.debug_string(),
        "Root { children: [], position: None }",
        "should support `Debug`"
    );
    assert_eq!(node.to_string(), "", "should support `ToString`");
    assert_eq!(
        node.children_mut(),
        Some(&mut vec![]),
        "should support `children_mut`"
    );
    assert_eq!(node.children(), Some(&vec![]), "should support `children`");
    assert_eq!(node.position(), None, "should support `position`");
    assert_eq!(node.position_mut(), None, "should support `position`");
    node.position_set(Some(Position::new(1, 1, 0, 1, 2, 1)));
    assert_eq!(
        node.debug_string(),
        "Root { children: [], position: Some(1:1-1:2 (0-1)) }",
        "should support `position_set`"
    );
}

#[test]
fn block_quote() {
    let mut node = Node::BlockQuote(BlockQuote {
        position: None,
        children: vec![],
    });

    assert_eq!(
        node.debug_string(),
        "BlockQuote { children: [], position: None }",
        "should support `Debug`"
    );
    assert_eq!(node.to_string(), "", "should support `ToString`");
    assert_eq!(
        node.children_mut(),
        Some(&mut vec![]),
        "should support `children_mut`"
    );
    assert_eq!(node.children(), Some(&vec![]), "should support `children`");
    assert_eq!(node.position(), None, "should support `position`");
    assert_eq!(node.position_mut(), None, "should support `position`");
    node.position_set(Some(Position::new(1, 1, 0, 1, 2, 1)));
    assert_eq!(
        node.debug_string(),
        "BlockQuote { children: [], position: Some(1:1-1:2 (0-1)) }",
        "should support `position_set`"
    );
}

#[test]
fn delete() {
    let mut node = Node::Delete(Delete {
        position: None,
        children: vec![],
    });

    assert_eq!(
        node.debug_string(),
        "Delete { children: [], position: None }",
        "should support `Debug`"
    );
    assert_eq!(node.to_string(), "", "should support `ToString`");
    assert_eq!(
        node.children_mut(),
        Some(&mut vec![]),
        "should support `children_mut`"
    );
    assert_eq!(node.children(), Some(&vec![]), "should support `children`");
    assert_eq!(node.position(), None, "should support `position`");
    assert_eq!(node.position_mut(), None, "should support `position`");
    node.position_set(Some(Position::new(1, 1, 0, 1, 2, 1)));
    assert_eq!(
        node.debug_string(),
        "Delete { children: [], position: Some(1:1-1:2 (0-1)) }",
        "should support `position_set`"
    );
}

#[test]
fn emphasis() {
    let mut node = Node::Emphasis(Emphasis {
        position: None,
        children: vec![],
    });

    assert_eq!(
        node.debug_string(),
        "Emphasis { children: [], position: None }",
        "should support `Debug`"
    );
    assert_eq!(node.to_string(), "", "should support `ToString`");
    assert_eq!(
        node.children_mut(),
        Some(&mut vec![]),
        "should support `children_mut`"
    );
    assert_eq!(node.children(), Some(&vec![]), "should support `children`");
    assert_eq!(node.position(), None, "should support `position`");
    assert_eq!(node.position_mut(), None, "should support `position`");
    node.position_set(Some(Position::new(1, 1, 0, 1, 2, 1)));
    assert_eq!(
        node.debug_string(),
        "Emphasis { children: [], position: Some(1:1-1:2 (0-1)) }",
        "should support `position_set`"
    );
}

#[test]
fn strong() {
    let mut node = Node::Strong(Strong {
        position: None,
        children: vec![],
    });

    assert_eq!(
        node.debug_string(),
        "Strong { children: [], position: None }",
        "should support `Debug`"
    );
    assert_eq!(node.to_string(), "", "should support `ToString`");
    assert_eq!(
        node.children_mut(),
        Some(&mut vec![]),
        "should support `children_mut`"
    );
    assert_eq!(node.children(), Some(&vec![]), "should support `children`");
    assert_eq!(node.position(), None, "should support `position`");
    assert_eq!(node.position_mut(), None, "should support `position`");
    node.position_set(Some(Position::new(1, 1, 0, 1, 2, 1)));
    assert_eq!(
        node.debug_string(),
        "Strong { children: [], position: Some(1:1-1:2 (0-1)) }",
        "should support `position_set`"
    );
}

#[test]
fn paragraph() {
    let mut node = Node::Paragraph(Paragraph {
        position: None,
        children: vec![],
    });

    assert_eq!(
        node.debug_string(),
        "Paragraph { children: [], position: None }",
        "should support `Debug`"
    );
    assert_eq!(node.to_string(), "", "should support `ToString`");
    assert_eq!(
        node.children_mut(),
        Some(&mut vec![]),
        "should support `children_mut`"
    );
    assert_eq!(node.children(), Some(&vec![]), "should support `children`");
    assert_eq!(node.position(), None, "should support `position`");
    assert_eq!(node.position_mut(), None, "should support `position`");
    node.position_set(Some(Position::new(1, 1, 0, 1, 2, 1)));
    assert_eq!(
        node.debug_string(),
        "Paragraph { children: [], position: Some(1:1-1:2 (0-1)) }",
        "should support `position_set`"
    );
}

#[test]
fn table_row() {
    let mut node = Node::TableRow(TableRow {
        position: None,
        children: vec![],
    });

    assert_eq!(
        node.debug_string(),
        "TableRow { children: [], position: None }",
        "should support `Debug`"
    );
    assert_eq!(node.to_string(), "", "should support `ToString`");
    assert_eq!(
        node.children_mut(),
        Some(&mut vec![]),
        "should support `children_mut`"
    );
    assert_eq!(node.children(), Some(&vec![]), "should support `children`");
    assert_eq!(node.position(), None, "should support `position`");
    assert_eq!(node.position_mut(), None, "should support `position`");
    node.position_set(Some(Position::new(1, 1, 0, 1, 2, 1)));
    assert_eq!(
        node.debug_string(),
        "TableRow { children: [], position: Some(1:1-1:2 (0-1)) }",
        "should support `position_set`"
    );
}

#[test]
fn table_cell() {
    let mut node = Node::TableCell(TableCell {
        position: None,
        children: vec![],
    });

    assert_eq!(
        node.debug_string(),
        "TableCell { children: [], position: None }",
        "should support `Debug`"
    );
    assert_eq!(node.to_string(), "", "should support `ToString`");
    assert_eq!(
        node.children_mut(),
        Some(&mut vec![]),
        "should support `children_mut`"
    );
    assert_eq!(node.children(), Some(&vec![]), "should support `children`");
    assert_eq!(node.position(), None, "should support `position`");
    assert_eq!(node.position_mut(), None, "should support `position`");
    node.position_set(Some(Position::new(1, 1, 0, 1, 2, 1)));
    assert_eq!(
        node.debug_string(),
        "TableCell { children: [], position: Some(1:1-1:2 (0-1)) }",
        "should support `position_set`"
    );
}

#[test]
fn heading() {
    let mut node = Node::Heading(Heading {
        position: None,
        depth: 1,
        children: vec![],
    });

    assert_eq!(
        node.debug_string(),
        "Heading { children: [], position: None, depth: 1 }",
        "should support `Debug`"
    );
    assert_eq!(node.to_string(), "", "should support `ToString`");
    assert_eq!(
        node.children_mut(),
        Some(&mut vec![]),
        "should support `children_mut`"
    );
    assert_eq!(node.children(), Some(&vec![]), "should support `children`");
    assert_eq!(node.position(), None, "should support `position`");
    assert_eq!(node.position_mut(), None, "should support `position`");
    node.position_set(Some(Position::new(1, 1, 0, 1, 2, 1)));
    assert_eq!(
        node.debug_string(),
        "Heading { children: [], position: Some(1:1-1:2 (0-1)), depth: 1 }",
        "should support `position_set`"
    );
}

#[test]
fn table() {
    let mut node = Node::Table(Table {
        position: None,
        align: vec![],
        children: vec![],
    });

    assert_eq!(
        node.debug_string(),
        "Table { children: [], position: None, align: [] }",
        "should support `Debug`"
    );
    assert_eq!(node.to_string(), "", "should support `ToString`");
    assert_eq!(
        node.children_mut(),
        Some(&mut vec![]),
        "should support `children_mut`"
    );
    assert_eq!(node.children(), Some(&vec![]), "should support `children`");
    assert_eq!(node.position(), None, "should support `position`");
    assert_eq!(node.position_mut(), None, "should support `position`");
    node.position_set(Some(Position::new(1, 1, 0, 1, 2, 1)));
    assert_eq!(
        node.debug_string(),
        "Table { children: [], position: Some(1:1-1:2 (0-1)), align: [] }",
        "should support `position_set`"
    );
}

#[test]
fn list_item() {
    let mut node = Node::ListItem(ListItem {
        position: None,
        spread: false,
        checked: None,
        children: vec![],
    });

    assert_eq!(
        node.debug_string(),
        "ListItem { children: [], position: None, spread: false, checked: None }",
        "should support `Debug`"
    );
    assert_eq!(node.to_string(), "", "should support `ToString`");
    assert_eq!(
        node.children_mut(),
        Some(&mut vec![]),
        "should support `children_mut`"
    );
    assert_eq!(node.children(), Some(&vec![]), "should support `children`");
    assert_eq!(node.position(), None, "should support `position`");
    assert_eq!(node.position_mut(), None, "should support `position`");
    node.position_set(Some(Position::new(1, 1, 0, 1, 2, 1)));
    assert_eq!(
        node.debug_string(),
        "ListItem { children: [], position: Some(1:1-1:2 (0-1)), spread: false, checked: None }",
        "should support `position_set`"
    );
}

#[test]
fn list() {
    let mut node = Node::List(List {
        position: None,
        spread: false,
        ordered: false,
        start: None,
        children: vec![],
    });

    assert_eq!(
        node.debug_string(),
        "List { children: [], position: None, ordered: false, start: None, spread: false }",
        "should support `Debug`"
    );
    assert_eq!(node.to_string(), "", "should support `ToString`");
    assert_eq!(
        node.children_mut(),
        Some(&mut vec![]),
        "should support `children_mut`"
    );
    assert_eq!(node.children(), Some(&vec![]), "should support `children`");
    assert_eq!(node.position(), None, "should support `position`");
    assert_eq!(node.position_mut(), None, "should support `position`");
    node.position_set(Some(Position::new(1, 1, 0, 1, 2, 1)));
    assert_eq!(
        node.debug_string(),
        "List { children: [], position: Some(1:1-1:2 (0-1)), ordered: false, start: None, spread: false }",
        "should support `position_set`"
    );
}

#[test]
fn link_reference() {
    let mut node = Node::LinkReference(LinkReference {
        position: None,
        identifier: "a".into(),
        label: None,
        reference_kind: ReferenceKind::Full,
        children: vec![],
    });

    assert_eq!(
        node.debug_string(),
        "LinkReference { children: [], position: None, reference_kind: Full, identifier: \"a\", label: None }",
        "should support `Debug`"
    );
    assert_eq!(node.to_string(), "", "should support `ToString`");
    assert_eq!(
        node.children_mut(),
        Some(&mut vec![]),
        "should support `children_mut`"
    );
    assert_eq!(node.children(), Some(&vec![]), "should support `children`");
    assert_eq!(node.position(), None, "should support `position`");
    assert_eq!(node.position_mut(), None, "should support `position`");
    node.position_set(Some(Position::new(1, 1, 0, 1, 2, 1)));
    assert_eq!(
        node.debug_string(),
        "LinkReference { children: [], position: Some(1:1-1:2 (0-1)), reference_kind: Full, identifier: \"a\", label: None }",
        "should support `position_set`"
    );
}

#[test]
fn link() {
    let mut node = Node::Link(Link {
        position: None,
        url: "a".into(),
        title: None,
        children: vec![],
    });

    assert_eq!(
        node.debug_string(),
        "Link { children: [], position: None, url: \"a\", title: None }",
        "should support `Debug`"
    );
    assert_eq!(node.to_string(), "", "should support `ToString`");
    assert_eq!(
        node.children_mut(),
        Some(&mut vec![]),
        "should support `children_mut`"
    );
    assert_eq!(node.children(), Some(&vec![]), "should support `children`");
    assert_eq!(node.position(), None, "should support `position`");
    assert_eq!(node.position_mut(), None, "should support `position`");
    node.position_set(Some(Position::new(1, 1, 0, 1, 2, 1)));
    assert_eq!(
        node.debug_string(),
        "Link { children: [], position: Some(1:1-1:2 (0-1)), url: \"a\", title: None }",
        "should support `position_set`"
    );
}

#[test]
fn footnote_definition() {
    let mut node = Node::FootnoteDefinition(FootnoteDefinition {
        position: None,
        identifier: "a".into(),
        label: None,
        children: vec![],
    });

    assert_eq!(
        node.debug_string(),
        "FootnoteDefinition { children: [], position: None, identifier: \"a\", label: None }",
        "should support `Debug`"
    );
    assert_eq!(node.to_string(), "", "should support `ToString`");
    assert_eq!(
        node.children_mut(),
        Some(&mut vec![]),
        "should support `children_mut`"
    );
    assert_eq!(node.children(), Some(&vec![]), "should support `children`");
    assert_eq!(node.position(), None, "should support `position`");
    assert_eq!(node.position_mut(), None, "should support `position`");
    node.position_set(Some(Position::new(1, 1, 0, 1, 2, 1)));
    assert_eq!(
        node.debug_string(),
        "FootnoteDefinition { children: [], position: Some(1:1-1:2 (0-1)), identifier: \"a\", label: None }",
        "should support `position_set`"
    );
}

#[test]
fn mdx_jsx_flow_element() {
    let mut node = Node::MdxJsxFlowElement(MdxJsxFlowElement {
        position: None,
        name: None,
        attributes: vec![],
        children: vec![],
    });

    assert_eq!(
        node.debug_string(),
        "MdxJsxFlowElement { children: [], position: None, name: None, attributes: [] }",
        "should support `Debug`"
    );
    assert_eq!(node.to_string(), "", "should support `ToString`");
    assert_eq!(
        node.children_mut(),
        Some(&mut vec![]),
        "should support `children_mut`"
    );
    assert_eq!(node.children(), Some(&vec![]), "should support `children`");
    assert_eq!(node.position(), None, "should support `position`");
    assert_eq!(node.position_mut(), None, "should support `position`");
    node.position_set(Some(Position::new(1, 1, 0, 1, 2, 1)));
    assert_eq!(
        node.debug_string(),
        "MdxJsxFlowElement { children: [], position: Some(1:1-1:2 (0-1)), name: None, attributes: [] }",
        "should support `position_set`"
    );
}

#[test]
fn mdx_jsx_text_element() {
    let mut node = Node::MdxJsxTextElement(MdxJsxTextElement {
        position: None,
        name: None,
        attributes: vec![],
        children: vec![],
    });

    assert_eq!(
        node.debug_string(),
        "MdxJsxTextElement { children: [], position: None, name: None, attributes: [] }",
        "should support `Debug`"
    );
    assert_eq!(node.to_string(), "", "should support `ToString`");
    assert_eq!(
        node.children_mut(),
        Some(&mut vec![]),
        "should support `children_mut`"
    );
    assert_eq!(node.children(), Some(&vec![]), "should support `children`");
    assert_eq!(node.position(), None, "should support `position`");
    assert_eq!(node.position_mut(), None, "should support `position`");
    node.position_set(Some(Position::new(1, 1, 0, 1, 2, 1)));
    assert_eq!(
        node.debug_string(),
        "MdxJsxTextElement { children: [], position: Some(1:1-1:2 (0-1)), name: None, attributes: [] }",
        "should support `position_set`"
    );
}
