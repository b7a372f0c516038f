use markdown::configuration::ParseOptions;
use markdown::event::{Kind, Name, Point};
use markdown::machine::run;
use markdown::parser::ParseState;
use markdown::state::{Name as StateName, State};
use markdown::tokenizer::{Container, ContainerState, Tokenizer};

fn tokenizer(input: &str) -> Tokenizer {
    let state = ParseState::new(input.as_bytes().to_vec(), ParseOptions::default());
    Tokenizer::new(
        Point {
            line: 1,
            column: 1,
            index: 0,
            vs: 0,
        },
        state,
    )
}

fn container(kind: Container, size: usize) -> ContainerState {
    ContainerState {
        kind,
        blank_initial: false,
        size,
    }
}

#[test]
fn document_continues_list_item() {
    let mut t = tokenizer("  b");
    t.tokenize_state
        .document_container_stack
        .push(container(Container::ListItem, 2));
    let r = run(&mut t, State::Next(StateName::DocumentContainerExistingBefore), 1000);
    assert_eq!(r, State::Retry(StateName::DocumentContainerNewBefore));
    assert_eq!(t.tokenize_state.document_continued, 1);
    assert_eq!(t.point.index, 2);
}

#[test]
fn document_does_not_continue_list_item() {
    let mut t = tokenizer("b");
    t.tokenize_state
        .document_container_stack
        .push(container(Container::ListItem, 2));
    let r = run(&mut t, State::Next(StateName::DocumentContainerExistingBefore), 1000);
    assert_eq!(r, State::Retry(StateName::DocumentContainerNewBefore));
    assert_eq!(t.tokenize_state.document_continued, 0);
    assert_eq!(t.point.index, 0);
    assert!(t.events.is_empty());
}

#[test]
fn document_without_containers() {
    let mut t = tokenizer("a");
    let r = run(&mut t, State::Next(StateName::DocumentContainerExistingBefore), 1000);
    assert_eq!(r, State::Retry(StateName::DocumentContainerNewBefore));
    assert_eq!(t.tokenize_state.document_continued, 0);
}

#[test]
fn document_new_list_item() {
    let mut t = tokenizer("* a");
    t.tokenize_state
        .document_container_stack
        .push(container(Container::BlockQuote, 0));
    let r = run(
        &mut t,
        State::Next(StateName::DocumentContainerNewBeforeNotBlockQuote),
        1000,
    );
    assert_eq!(r, State::Retry(StateName::DocumentContainerNewAfter));
    assert_eq!(t.tokenize_state.document_container_stack.len(), 1);
    assert_eq!(
        t.tokenize_state.document_container_stack[0].kind,
        Container::ListItem
    );
    assert_eq!(t.point.index, 2);
}

#[test]
fn document_no_new_container() {
    let mut t = tokenizer("a");
    t.tokenize_state
        .document_container_stack
        .push(container(Container::BlockQuote, 0));
    let r = run(
        &mut t,
        State::Next(StateName::DocumentContainerNewBeforeNotBlockQuote),
        1000,
    );
    assert_eq!(r, State::Retry(StateName::DocumentContainersAfter));
    assert!(t.tokenize_state.document_container_stack.is_empty());
    assert_eq!(t.point.index, 0);
    assert!(t.events.is_empty());
}

#[test]
fn document_no_new_container_keeps_existing_ones() {
    let mut t = tokenizer("a");
    let stack = &mut t.tokenize_state.document_container_stack;
    stack.push(container(Container::BlockQuote, 0));
    stack.push(container(Container::ListItem, 4));
    let r = run(
        &mut t,
        State::Next(StateName::DocumentContainerNewBeforeNotList),
        1000,
    );
    assert_eq!(r, State::Retry(StateName::DocumentContainersAfter));
    assert_eq!(
        t.tokenize_state.document_container_stack,
        vec![container(Container::ListItem, 4)]
    );
}

#[test]
fn document_flow_takes_a_line() {
    let mut t = tokenizer("ab\nc");
    t.enter(Name::Data);
    let r = run(&mut t, State::Next(StateName::DocumentFlowInside), 1000);
    assert_eq!(r, State::Retry(StateName::DocumentFlowEnd));
    let events: Vec<(Kind, Name, usize)> = t
        .events
        .iter()
        .map(|e| (e.kind, e.name, e.point.index))
        .collect();
    assert_eq!(
        events,
        vec![(Kind::Enter, Name::Data, 0), (Kind::Exit, Name::Data, 3)]
    );
}

#[test]
fn document_flow_to_the_end() {
    let mut t = tokenizer("ab");
    t.enter(Name::Data);
    let r = run(&mut t, State::Next(StateName::DocumentFlowInside), 1000);
    assert_eq!(r, State::Retry(StateName::DocumentFlowEnd));
    assert_eq!(t.events.len(), 2);
    assert_eq!(t.events[1].kind, Kind::Exit);
    assert_eq!(t.events[1].point.index, 2);
}
