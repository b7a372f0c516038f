use markdown::configuration::ParseOptions;
use markdown::construct::list_item::resolve;
use markdown::event::{Event, Kind, Name, Point};
use markdown::parser::ParseState;
use markdown::tokenizer::Tokenizer;

fn at(index: usize) -> Point {
    Point {
        line: 1,
        column: index + 1,
        index,
        vs: 0,
    }
}

fn event(kind: Kind, name: Name, index: usize) -> Event {
    Event {
        kind,
        name,
        point: at(index),
        link: None,
    }
}

fn item(events: &mut Vec<Event>, start: usize, marker_width: usize, end: usize) {
    events.push(event(Kind::Enter, Name::ListItem, start));
    events.push(event(Kind::Enter, Name::ListItemPrefix, start));
    events.push(event(Kind::Enter, Name::ListItemMarker, start + marker_width - 1));
    events.push(event(Kind::Exit, Name::ListItemMarker, start + marker_width));
    events.push(event(Kind::Exit, Name::ListItemPrefix, start + marker_width + 1));
    events.push(event(Kind::Exit, Name::ListItem, end));
}

fn line_ending(events: &mut Vec<Event>, at: usize) {
    events.push(event(Kind::Enter, Name::LineEnding, at));
    events.push(event(Kind::Exit, Name::LineEnding, at + 1));
}

fn shape(t: &Tokenizer) -> Vec<(Kind, Name, usize)> {
    t.events
        .iter()
        .map(|e| (e.kind, e.name, e.point.index))
        .collect()
}

fn tokenizer(bytes: &str, events: Vec<Event>) -> Tokenizer {
    let state = ParseState::new(bytes.as_bytes().to_vec(), ParseOptions::default());
    let mut t = Tokenizer::new(at(0), state);
    t.events = events;
    t
}

#[test]
fn items_with_the_same_marker_form_one_list() {
    let mut events = vec![];
    item(&mut events, 0, 1, 3);
    line_ending(&mut events, 3);
    item(&mut events, 4, 1, 7);
    let mut t = tokenizer("* a\n* b", events);
    assert!(resolve(&mut t).is_none());
    let shape = shape(&t);
    assert_eq!(shape.len(), 16);
    assert_eq!(shape[0], (Kind::Enter, Name::ListUnordered, 0));
    assert_eq!(shape[1], (Kind::Enter, Name::ListItem, 0));
    assert_eq!(shape[14], (Kind::Exit, Name::ListItem, 7));
    assert_eq!(shape[15], (Kind::Exit, Name::ListUnordered, 7));
}

#[test]
fn items_with_other_markers_form_other_lists() {
    let mut events = vec![];
    item(&mut events, 0, 1, 3);
    line_ending(&mut events, 3);
    item(&mut events, 4, 2, 8);
    let mut t = tokenizer("* a\n1. b", events);
    assert!(resolve(&mut t).is_none());
    let shape = shape(&t);
    assert_eq!(shape.len(), 18);
    assert_eq!(shape[0], (Kind::Enter, Name::ListUnordered, 0));
    assert_eq!(shape[7], (Kind::Exit, Name::ListUnordered, 3));
    assert_eq!(shape[10], (Kind::Enter, Name::ListOrdered, 4));
    assert_eq!(shape[17], (Kind::Exit, Name::ListOrdered, 8));
}
