use markdown::configuration::ParseOptions;
use markdown::event::{Content, Event, Kind, Link, Name, Point};
use markdown::mdast::{Node, Paragraph, Text};
use markdown::parser::ParseState;
use markdown::subtokenize::link_to;
use markdown::tokenizer::Tokenizer;
use markdown::unist::Position;

fn paragraph() -> Node {
    Node::Paragraph(Paragraph {
        children: vec![Node::Text(Text {
            value: "a".into(),
            position: None,
        })],
        position: None,
    })
}

#[test]
fn position_set_then_get() {
    let mut node = paragraph();
    let position = Position::new(1, 1, 0, 1, 2, 1);
    node.position_set(Some(position.clone()));
    assert_eq!(node.position(), Some(&position));
    assert_eq!(node.to_string(), "a");
    assert_eq!(node.children().unwrap().len(), 1);
    node.position_set(None);
    assert_eq!(node.position(), None);
    assert_eq!(node.debug_string(), paragraph().debug_string());
}

#[test]
fn children_write_then_read() {
    let mut node = paragraph();
    let position = Position::new(1, 1, 0, 1, 2, 1);
    node.position_set(Some(position.clone()));
    node.children_mut().unwrap().push(Node::Text(Text {
        value: "b".into(),
        position: None,
    }));
    assert_eq!(node.children().unwrap().len(), 2);
    assert_eq!(node.to_string(), "ab");
    assert_eq!(node.position(), Some(&position));
}

fn void(name: Name, kind: Kind, index: usize, link: Option<Link>) -> Event {
    Event {
        kind,
        name,
        point: Point {
            line: 1,
            column: index + 1,
            index,
            vs: 0,
        },
        link,
    }
}

#[test]
fn link_to_connects_both_ways() {
    let link = Link {
        previous: None,
        next: None,
        content: Content::Text,
    };
    let mut events = vec![
        void(Name::Data, Kind::Enter, 0, Some(link)),
        void(Name::Data, Kind::Exit, 1, None),
        void(Name::LineEnding, Kind::Enter, 1, None),
        void(Name::LineEnding, Kind::Exit, 2, None),
        void(Name::Data, Kind::Enter, 2, Some(link)),
        void(Name::Data, Kind::Exit, 3, None),
    ];
    let before = events.clone();
    link_to(&mut events, 0, 4);
    assert_eq!(events[0].link.unwrap().next, Some(4));
    assert_eq!(events[0].link.unwrap().previous, None);
    assert_eq!(events[4].link.unwrap().previous, Some(0));
    assert_eq!(events[4].link.unwrap().next, None);
    assert_eq!(events[4].link.unwrap().content, Content::Text);
    for index in [1, 2, 3, 5] {
        assert_eq!(events[index], before[index]);
    }
}

#[test]
fn consume_moves_one_byte() {
    let state = ParseState::new(b"a\nb".to_vec(), ParseOptions::default());
    let mut t = Tokenizer::new(
        Point {
            line: 1,
            column: 1,
            index: 0,
            vs: 0,
        },
        state,
    );
    t.expect(Some(b'a'));
    t.consume();
    assert_eq!(t.point.index, 1);
    assert_eq!(t.point.column, 2);
    assert_eq!(t.previous, Some(b'a'));
    assert_eq!(t.current, None);
    t.expect(Some(b'\n'));
    t.consume();
    assert_eq!(t.point.index, 2);
    assert_eq!(t.point.line, 2);
    assert_eq!(t.point.column, 1);
}

#[test]
fn enter_exit_balanced() {
    let state = ParseState::new(b"a".to_vec(), ParseOptions::default());
    let mut t = Tokenizer::new(
        Point {
            line: 1,
            column: 1,
            index: 0,
            vs: 0,
        },
        state,
    );
    t.enter(Name::Paragraph);
    t.enter(Name::Data);
    t.exit(Name::Data);
    assert_eq!(t.stack, vec![Name::Paragraph]);
    t.exit(Name::Paragraph);
    assert!(t.stack.is_empty());
    assert_eq!(t.events.len(), 4);
    assert_eq!(t.events[3].kind, Kind::Exit);
}

#[test]
fn attempt_records_where_it_started() {
    let state = ParseState::new(b"a".to_vec(), ParseOptions::default());
    let mut t = Tokenizer::new(
        Point {
            line: 1,
            column: 1,
            index: 0,
            vs: 0,
        },
        state,
    );
    t.enter(Name::Data);
    let progress = t.capture();
    t.attempt(markdown::state::State::Okay, markdown::state::State::Nok);
    assert_eq!(t.attempts.len(), 1);
    assert_eq!(t.attempts[0].progress, progress);
    assert_eq!(progress.events_len, 1);
    assert_eq!(progress.stack_len, 1);
}

fn start_of(bytes: &[u8]) -> Tokenizer {
    let state = ParseState::new(bytes.to_vec(), ParseOptions::default());
    Tokenizer::new(
        Point {
            line: 1,
            column: 1,
            index: 0,
            vs: 0,
        },
        state,
    )
}

#[test]
fn consume_tab_goes_to_the_next_tab_stop() {
    let mut t = start_of(b"\ta");
    for step in 1..4 {
        t.consume();
        assert_eq!(t.point.index, 0);
        assert_eq!(t.point.vs, step);
        assert_eq!(t.point.column, 1 + step);
    }
    t.consume();
    assert_eq!(t.point.index, 1);
    assert_eq!(t.point.vs, 0);
    assert_eq!(t.point.column, 5);
}

#[test]
fn consume_tab_at_a_tab_stop_minus_one() {
    let mut t = start_of(b"ab\tc");
    t.consume();
    t.consume();
    assert_eq!(t.point.column, 3);
    t.consume();
    assert_eq!(t.point.index, 2);
    assert_eq!(t.point.column, 4);
    t.consume();
    assert_eq!(t.point.index, 3);
    assert_eq!(t.point.column, 5);
}

#[test]
fn consume_carriage_returns() {
    let mut t = start_of(b"\r\nb\rc");
    t.consume();
    assert_eq!(t.point.index, 2);
    assert_eq!(t.point.line, 2);
    assert_eq!(t.point.column, 1);
    t.consume();
    t.consume();
    assert_eq!(t.point.index, 4);
    assert_eq!(t.point.line, 3);
    assert_eq!(t.point.column, 1);
}
