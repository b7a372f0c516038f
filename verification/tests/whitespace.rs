use markdown::configuration::ParseOptions;
use markdown::construct::partial_whitespace::{resolve_whitespace, trim_data};
use markdown::util::edit_map::EditMap;
use markdown::event::{Content, Event, Kind, Link, Name, Point};
use markdown::parser::ParseState;
use markdown::tokenizer::Tokenizer;

fn at(index: usize) -> Point {
    Point {
        line: 1,
        column: index + 1,
        index,
        vs: 0,
    }
}

fn event(kind: Kind, name: Name, index: usize) -> Event {
    Event {
        kind,
        name,
        point: at(index),
        link: None,
    }
}

fn with_events(bytes: &str, events: Vec<Event>) -> Tokenizer {
    let state = ParseState::new(bytes.as_bytes().to_vec(), ParseOptions::default());
    let mut t = Tokenizer::new(at(0), state);
    t.events = events;
    t
}

#[test]
fn trailing_spaces_before_a_line_ending_are_a_hard_break() {
    let mut t = with_events(
        "a  \nb",
        vec![
            event(Kind::Enter, Name::Data, 0),
            event(Kind::Exit, Name::Data, 3),
            event(Kind::Enter, Name::LineEnding, 3),
            event(Kind::Exit, Name::LineEnding, 4),
        ],
    );
    trim_data(&mut t, 1, false, true, true);
    assert_eq!(t.events[1].point.index, 1);
    assert_eq!(t.events[1].point.column, 2);
    assert_eq!(t.events[0].name, Name::Data);
}

#[test]
fn whitespace_only_data_is_renamed() {
    let mut t = with_events(
        "  ",
        vec![
            event(Kind::Enter, Name::Data, 0),
            event(Kind::Exit, Name::Data, 2),
        ],
    );
    trim_data(&mut t, 1, true, true, true);
    assert_eq!(t.events[0].name, Name::SpaceOrTab);
    assert_eq!(t.events[1].name, Name::SpaceOrTab);
    assert_eq!(t.events[1].point.index, 2);
}

#[test]
fn spaces_at_the_end_of_the_data_are_a_hard_break_only_before_more() {
    let mut t = with_events(
        "  ",
        vec![
            event(Kind::Enter, Name::Data, 0),
            event(Kind::Exit, Name::Data, 2),
            event(Kind::Enter, Name::LineEnding, 2),
        ],
    );
    trim_data(&mut t, 1, false, true, true);
    assert_eq!(t.events[0].name, Name::HardBreakTrailing);
    assert_eq!(t.events[1].name, Name::HardBreakTrailing);
}

#[test]
fn leading_whitespace_is_split_off() {
    let mut t = with_events(
        " \ta",
        vec![
            event(Kind::Enter, Name::Data, 0),
            event(Kind::Exit, Name::Data, 3),
        ],
    );
    trim_data(&mut t, 1, true, false, false);
    assert_eq!(t.events[0].point.index, 2);
    assert_eq!(t.events[0].point.column, 3);
    assert_eq!(t.events[1].point.index, 3);
}

#[test]
fn nothing_to_trim() {
    let mut t = with_events(
        "a b",
        vec![
            event(Kind::Enter, Name::Data, 0),
            event(Kind::Exit, Name::Data, 3),
        ],
    );
    trim_data(&mut t, 1, true, true, true);
    assert_eq!(t.events[0].point.index, 0);
    assert_eq!(t.events[1].point.index, 3);
    assert_eq!(t.events[0].name, Name::Data);
}

#[test]
fn resolve_whitespace_turns_trailing_spaces_into_a_hard_break() {
    let mut t = with_events(
        "a  \nb",
        vec![
            event(Kind::Enter, Name::Data, 0),
            event(Kind::Exit, Name::Data, 3),
            event(Kind::Enter, Name::LineEnding, 3),
            event(Kind::Exit, Name::LineEnding, 4),
            event(Kind::Enter, Name::Data, 4),
            event(Kind::Exit, Name::Data, 5),
        ],
    );
    resolve_whitespace(&mut t, true, true);
    let names: Vec<(Kind, Name, usize)> = t
        .events
        .iter()
        .map(|e| (e.kind, e.name, e.point.index))
        .collect();
    assert_eq!(
        names,
        vec![
            (Kind::Enter, Name::Data, 0),
            (Kind::Exit, Name::Data, 1),
            (Kind::Enter, Name::HardBreakTrailing, 1),
            (Kind::Exit, Name::HardBreakTrailing, 3),
            (Kind::Enter, Name::LineEnding, 3),
            (Kind::Exit, Name::LineEnding, 4),
            (Kind::Enter, Name::Data, 4),
            (Kind::Exit, Name::Data, 5),
        ]
    );
}

#[test]
fn resolve_whitespace_without_hard_breaks_and_leading_space() {
    let mut t = with_events(
        " a  ",
        vec![
            event(Kind::Enter, Name::Data, 0),
            event(Kind::Exit, Name::Data, 4),
        ],
    );
    resolve_whitespace(&mut t, false, true);
    let names: Vec<(Kind, Name, usize)> = t
        .events
        .iter()
        .map(|e| (e.kind, e.name, e.point.index))
        .collect();
    assert_eq!(
        names,
        vec![
            (Kind::Enter, Name::SpaceOrTab, 0),
            (Kind::Exit, Name::SpaceOrTab, 1),
            (Kind::Enter, Name::Data, 1),
            (Kind::Exit, Name::Data, 2),
            (Kind::Enter, Name::SpaceOrTab, 2),
            (Kind::Exit, Name::SpaceOrTab, 4),
        ]
    );
}

#[test]
fn edit_map_moves_links_with_their_events() {
    let link = |previous, next| {
        Some(Link {
            previous,
            next,
            content: Content::Text,
        })
    };
    let mut events = vec![
        Event { link: link(None, Some(2)), ..event(Kind::Enter, Name::Data, 0) },
        event(Kind::Exit, Name::Data, 1),
        Event { link: link(Some(0), None), ..event(Kind::Enter, Name::Data, 1) },
        event(Kind::Exit, Name::Data, 2),
    ];
    let mut map = EditMap::new();
    map.add(1, 0, vec![event(Kind::Enter, Name::LineEnding, 1)]);
    map.add(1, 0, vec![event(Kind::Exit, Name::LineEnding, 1)]);
    map.consume(&mut events);
    assert_eq!(events.len(), 6);
    assert_eq!(events[1].name, Name::LineEnding);
    assert_eq!(events[1].kind, Kind::Enter);
    assert_eq!(events[2].kind, Kind::Exit);
    assert_eq!(events[0].link.unwrap().next, Some(4));
    assert_eq!(events[4].link.unwrap().previous, Some(0));
}

#[test]
fn edit_map_removes_events() {
    let mut events = vec![
        event(Kind::Enter, Name::Data, 0),
        event(Kind::Exit, Name::Data, 1),
        event(Kind::Enter, Name::Data, 1),
        event(Kind::Exit, Name::Data, 2),
    ];
    let mut map = EditMap::new();
    map.add(1, 2, vec![]);
    map.consume(&mut events);
    assert_eq!(events.len(), 2);
    assert_eq!(events[1].point.index, 2);
}

fn shape(t: &Tokenizer) -> Vec<(Kind, Name, usize)> {
    t.events
        .iter()
        .map(|e| (e.kind, e.name, e.point.index))
        .collect()
}

#[test]
fn adjacent_data_is_merged() {
    let mut t = with_events(
        "a*b",
        vec![
            event(Kind::Enter, Name::Data, 0),
            event(Kind::Exit, Name::Data, 1),
            event(Kind::Enter, Name::Data, 1),
            event(Kind::Exit, Name::Data, 2),
            event(Kind::Enter, Name::Data, 2),
            event(Kind::Exit, Name::Data, 3),
        ],
    );
    let r = markdown::construct::partial_data::resolve(&mut t);
    assert!(r.is_none());
    assert_eq!(
        shape(&t),
        vec![(Kind::Enter, Name::Data, 0), (Kind::Exit, Name::Data, 3)]
    );
}

#[test]
fn data_apart_is_not_merged() {
    let mut t = with_events(
        "a\nb",
        vec![
            event(Kind::Enter, Name::Data, 0),
            event(Kind::Exit, Name::Data, 1),
            event(Kind::Enter, Name::LineEnding, 1),
            event(Kind::Exit, Name::LineEnding, 2),
            event(Kind::Enter, Name::Data, 2),
            event(Kind::Exit, Name::Data, 3),
        ],
    );
    let before = shape(&t);
    markdown::construct::partial_data::resolve(&mut t);
    assert_eq!(shape(&t), before);
}

#[test]
fn resolvers_by_name() {
    let mut t = with_events(
        " a",
        vec![
            event(Kind::Enter, Name::Data, 0),
            event(Kind::Exit, Name::Data, 2),
        ],
    );
    let r = markdown::resolve::call(&mut t, markdown::resolve::Name::Text);
    assert!(matches!(r, Ok(None)));
    assert_eq!(
        shape(&t),
        vec![
            (Kind::Enter, Name::SpaceOrTab, 0),
            (Kind::Exit, Name::SpaceOrTab, 1),
            (Kind::Enter, Name::Data, 1),
            (Kind::Exit, Name::Data, 2),
        ]
    );

    let mut t = with_events(
        " a",
        vec![
            event(Kind::Enter, Name::Data, 0),
            event(Kind::Exit, Name::Data, 2),
        ],
    );
    let r = markdown::resolve::call(&mut t, markdown::resolve::Name::String);
    assert!(matches!(r, Ok(None)));
    assert_eq!(
        shape(&t),
        vec![(Kind::Enter, Name::Data, 0), (Kind::Exit, Name::Data, 2)]
    );
}
