use markdown::event::{Content, Event, Kind, Link, Name, Point};
use markdown::subtokenize::divide_events;
use markdown::util::edit_map::EditMap;

fn point(index: usize) -> Point {
    Point { line: 1, column: index + 1, index, vs: 0 }
}

fn event(kind: Kind, name: Name, index: usize, link: Option<Link>) -> Event {
    Event { kind, name, point: point(index), link }
}

fn link(previous: Option<usize>, next: Option<usize>) -> Option<Link> {
    Some(Link { previous, next, content: Content::Text })
}

/// Two linked chunks: `0..3` and `4..6`.
fn chunks() -> Vec<Event> {
    vec![
        event(Kind::Enter, Name::Data, 0, link(None, Some(2))),
        event(Kind::Exit, Name::Data, 3, None),
        event(Kind::Enter, Name::Data, 4, link(Some(0), None)),
        event(Kind::Exit, Name::Data, 6, None),
    ]
}

#[test]
fn divide_events_over_two_chunks() {
    let events = chunks();
    let mut child = vec![
        event(Kind::Enter, Name::Emphasis, 0, None),
        event(Kind::Exit, Name::Emphasis, 2, None),
        event(Kind::Enter, Name::Strong, 5, None),
        event(Kind::Exit, Name::Strong, 6, None),
    ];
    let mut map = EditMap::new();
    let acc = divide_events(&mut map, &events, 0, &mut child, (0, 0));
    assert_eq!(acc, (4, 4));
    assert!(child.is_empty());

    let mut result = events.clone();
    map.consume(&mut result);
    let names: Vec<Name> = result.iter().map(|e| e.name).collect();
    assert_eq!(names, vec![Name::Emphasis, Name::Emphasis, Name::Strong, Name::Strong]);
    let indices: Vec<usize> = result.iter().map(|e| e.point.index).collect();
    assert_eq!(indices, vec![0, 2, 5, 6]);
}

#[test]
fn divide_events_fixes_sublinks() {
    let events = chunks();
    let mut child = vec![
        event(Kind::Enter, Name::Data, 0, link(None, Some(2))),
        event(Kind::Exit, Name::Data, 2, None),
        event(Kind::Enter, Name::Data, 5, link(Some(0), None)),
        event(Kind::Exit, Name::Data, 6, None),
    ];
    let mut map = EditMap::new();
    let acc = divide_events(&mut map, &events, 0, &mut child, (0, 0));
    assert_eq!(acc, (4, 4));

    let mut result = events.clone();
    map.consume(&mut result);
    assert_eq!(result.len(), 4);
    assert_eq!(result[0].link.unwrap().next, Some(2));
    assert_eq!(result[2].link.unwrap().previous, Some(0));
}

#[test]
fn divide_events_counts_earlier_work() {
    let events = chunks();
    let mut child = vec![
        event(Kind::Enter, Name::Data, 1, None),
        event(Kind::Exit, Name::Data, 2, None),
    ];
    let mut map = EditMap::new();
    let acc = divide_events(&mut map, &events, 0, &mut child, (6, 10));
    assert_eq!(acc, (8, 12));

    let mut result = events.clone();
    map.consume(&mut result);
    let indices: Vec<usize> = result.iter().map(|e| e.point.index).collect();
    assert_eq!(indices, vec![1, 2, 4, 6]);
}

#[test]
fn divide_events_without_child_events() {
    let events = chunks();
    let mut child = vec![];
    let mut map = EditMap::new();
    let acc = divide_events(&mut map, &events, 0, &mut child, (2, 3));
    assert_eq!(acc, (2, 3));
    let mut result = events.clone();
    map.consume(&mut result);
    assert_eq!(result, chunks());
}
