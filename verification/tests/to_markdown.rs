use markdown::mdast::{Node, Paragraph, Root, Text};
use markdown::to_markdown::{Info, State};
use markdown::to_markdown::serialize;

#[test]
fn it_works_for_simple_text() {
    let text_a = Node::Text(Text {
        value: String::from("a"),
        position: None,
    });
    let text_b = Node::Text(Text {
        value: String::from("b"),
        position: None,
    });
    let paragraph = Node::Paragraph(Paragraph {
        children: vec![text_a, text_b],
        position: None,
    });
    let actual = serialize(paragraph);
    assert_eq!(actual, String::from("ab"));
}

#[test]
fn handle_leaves_the_index_stack() {
    let text = |v: &str| {
        Node::Text(Text {
            value: String::from(v),
            position: None,
        })
    };
    let paragraph = Node::Paragraph(Paragraph {
        children: vec![text("a"), text("b")],
        position: None,
    });
    let mut state = State::new();
    assert_eq!(state.handle(&paragraph, Info::new("\n", "\n")), "ab");
    assert!(state.index_stack.is_empty());

    let root = Node::Root(Root {
        children: vec![
            Node::Paragraph(Paragraph {
                children: vec![text("a"), text("b")],
                position: None,
            }),
            text("c"),
        ],
        position: None,
    });
    let mut state = State::new();
    assert_eq!(state.handle(&root, Info::new("\n", "\n")), "ab\n\nc");
    assert_eq!(state.index_stack, vec![1]);
}
