use markdown::mdast::{Emphasis, Heading, Node, Root, Text};
use markdown::unist::Position;

#[test]
fn debug_of_a_heading_tree() {
    let tree = Node::Root(Root {
        children: vec![Node::Heading(Heading {
            children: vec![
                Node::Text(Text {
                    value: "Hi ".into(),
                    position: Some(Position::new(1, 3, 2, 1, 6, 5)),
                }),
                Node::Emphasis(Emphasis {
                    children: vec![Node::Text(Text {
                        value: "Earth".into(),
                        position: Some(Position::new(1, 7, 6, 1, 12, 11)),
                    })],
                    position: Some(Position::new(1, 6, 5, 1, 13, 12)),
                }),
                Node::Text(Text {
                    value: "!".into(),
                    position: Some(Position::new(1, 13, 12, 1, 14, 13)),
                }),
            ],
            position: Some(Position::new(1, 1, 0, 1, 14, 13)),
            depth: 1,
        })],
        position: Some(Position::new(1, 1, 0, 1, 14, 13)),
    });
    assert_eq!(
        tree.debug_string(),
        "Root { children: [Heading { children: [Text { value: \"Hi \", position: Some(1:3-1:6 (2-5)) }, Emphasis { children: [Text { value: \"Earth\", position: Some(1:7-1:12 (6-11)) }], position: Some(1:6-1:13 (5-12)) }, Text { value: \"!\", position: Some(1:13-1:14 (12-13)) }], position: Some(1:1-1:14 (0-13)), depth: 1 }], position: Some(1:1-1:14 (0-13)) }"
    );
    assert_eq!(tree.to_string(), "Hi Earth!");
}
