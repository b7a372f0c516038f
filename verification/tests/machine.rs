use markdown::configuration::ParseOptions;
use markdown::event::{Kind, Name, Point};
use markdown::machine::run;
use markdown::parser::ParseState;
use markdown::resolve::Name as ResolveName;
use markdown::state::{ready, Name as StateName, State};
use markdown::tokenizer::{Container, ContainerState, Tokenizer};

fn tokenizer(input: &str, options: ParseOptions) -> Tokenizer {
    let state = ParseState::new(input.as_bytes().to_vec(), options);
    Tokenizer::new(
        Point {
            line: 1,
            column: 1,
            index: 0,
            vs: 0,
        },
        state,
    )
}

fn events(t: &Tokenizer) -> Vec<(Kind, Name, usize)> {
    t.events
        .iter()
        .map(|e| (e.kind, e.name, e.point.index))
        .collect()
}

fn span(name: Name, from: usize, to: usize) -> Vec<(Kind, Name, usize)> {
    vec![(Kind::Enter, name, from), (Kind::Exit, name, to)]
}

fn with_list_container(t: &mut Tokenizer) {
    t.tokenize_state
        .document_container_stack
        .push(ContainerState {
            kind: Container::ListItem,
            blank_initial: false,
            size: 0,
        });
}

#[test]
fn thematic_break_asterisks() {
    let mut t = tokenizer("***", ParseOptions::default());
    let r = run(&mut t, State::Next(StateName::ThematicBreakStart), 1000);
    assert_eq!(r, State::Okay);
    let mut expected = vec![(Kind::Enter, Name::ThematicBreak, 0)];
    expected.extend(span(Name::ThematicBreakSequence, 0, 3));
    expected.push((Kind::Exit, Name::ThematicBreak, 3));
    assert_eq!(events(&t), expected);
    assert_eq!(t.point.index, 3);
}

#[test]
fn thematic_break_with_spaces() {
    let mut t = tokenizer("* * *", ParseOptions::default());
    let r = run(&mut t, State::Next(StateName::ThematicBreakStart), 1000);
    assert_eq!(r, State::Okay);
    let mut expected = vec![(Kind::Enter, Name::ThematicBreak, 0)];
    expected.extend(span(Name::ThematicBreakSequence, 0, 1));
    expected.extend(span(Name::SpaceOrTab, 1, 2));
    expected.extend(span(Name::ThematicBreakSequence, 2, 3));
    expected.extend(span(Name::SpaceOrTab, 3, 4));
    expected.extend(span(Name::ThematicBreakSequence, 4, 5));
    expected.push((Kind::Exit, Name::ThematicBreak, 5));
    assert_eq!(events(&t), expected);
}

#[test]
fn thematic_break_needs_three_markers() {
    let mut t = tokenizer("**", ParseOptions::default());
    let r = run(&mut t, State::Next(StateName::ThematicBreakStart), 1000);
    assert_eq!(r, State::Nok);
}

#[test]
fn thematic_break_turned_off() {
    let mut options = ParseOptions::default();
    options.constructs.thematic_break = false;
    let mut t = tokenizer("***", options);
    let r = run(&mut t, State::Next(StateName::ThematicBreakStart), 1000);
    assert_eq!(r, State::Nok);
    assert!(t.events.is_empty());
}

#[test]
fn failed_attempt_leaves_no_trace() {
    let mut t = tokenizer("**", ParseOptions::default());
    t.attempt(State::Okay, State::Nok);
    let r = run(&mut t, State::Next(StateName::ThematicBreakStart), 1000);
    assert_eq!(r, State::Nok);
    assert!(t.events.is_empty());
    assert!(t.stack.is_empty());
    assert!(t.attempts.is_empty());
    assert_eq!(t.point.index, 0);
}

#[test]
fn successful_attempt_keeps_events() {
    let mut t = tokenizer("***", ParseOptions::default());
    t.attempt(State::Okay, State::Nok);
    let r = run(&mut t, State::Next(StateName::ThematicBreakStart), 1000);
    assert_eq!(r, State::Okay);
    assert_eq!(t.events.len(), 4);
    assert_eq!(t.point.index, 3);
    assert!(t.attempts.is_empty());
}

#[test]
fn successful_check_goes_back() {
    let mut t = tokenizer("***", ParseOptions::default());
    t.check(State::Okay, State::Nok);
    let r = run(&mut t, State::Next(StateName::ThematicBreakStart), 1000);
    assert_eq!(r, State::Okay);
    assert!(t.events.is_empty());
    assert_eq!(t.point.index, 0);
}

#[test]
fn run_in_two_goes_is_one_run() {
    let mut once = tokenizer("* * *", ParseOptions::default());
    let r1 = run(&mut once, State::Next(StateName::ThematicBreakStart), 1000);
    let mut twice = tokenizer("* * *", ParseOptions::default());
    let middle = run(&mut twice, State::Next(StateName::ThematicBreakStart), 7);
    assert_ne!(middle, State::Okay);
    let r2 = run(&mut twice, middle, 993);
    assert_eq!(r1, r2);
    assert_eq!(events(&once), events(&twice));
    assert_eq!(once.point.index, twice.point.index);
}

#[test]
fn run_without_fuel_does_nothing() {
    let mut t = tokenizer("***", ParseOptions::default());
    let r = run(&mut t, State::Next(StateName::ThematicBreakStart), 0);
    assert_eq!(r, State::Next(StateName::ThematicBreakStart));
    assert!(t.events.is_empty());
}

#[test]
fn code_fenced_with_info() {
    let mut t = tokenizer("```js\nb\n```", ParseOptions::default());
    let r = run(&mut t, State::Next(StateName::RawFlowStart), 1000);
    assert_eq!(r, State::Okay);
    let mut expected = vec![
        (Kind::Enter, Name::CodeFenced, 0),
        (Kind::Enter, Name::CodeFencedFence, 0),
    ];
    expected.extend(span(Name::CodeFencedFenceSequence, 0, 3));
    expected.push((Kind::Enter, Name::CodeFencedFenceInfo, 3));
    expected.extend(span(Name::Data, 3, 5));
    expected.push((Kind::Exit, Name::CodeFencedFenceInfo, 5));
    expected.push((Kind::Exit, Name::CodeFencedFence, 5));
    expected.extend(span(Name::LineEnding, 5, 6));
    expected.extend(span(Name::CodeFlowChunk, 6, 7));
    expected.extend(span(Name::LineEnding, 7, 8));
    expected.push((Kind::Enter, Name::CodeFencedFence, 8));
    expected.extend(span(Name::CodeFencedFenceSequence, 8, 11));
    expected.push((Kind::Exit, Name::CodeFencedFence, 11));
    expected.push((Kind::Exit, Name::CodeFenced, 11));
    assert_eq!(events(&t), expected);
}

#[test]
fn code_fenced_needs_three_markers() {
    let mut t = tokenizer("``\na", ParseOptions::default());
    let r = run(&mut t, State::Next(StateName::RawFlowStart), 1000);
    assert_eq!(r, State::Nok);
}

#[test]
fn math_flow_only_when_turned_on() {
    let mut t = tokenizer("$$\na\n$$", ParseOptions::default());
    let r = run(&mut t, State::Next(StateName::RawFlowStart), 1000);
    assert_eq!(r, State::Nok);

    let mut options = ParseOptions::default();
    options.constructs.math_flow = true;
    let mut t = tokenizer("$$\na\n$$", options);
    let r = run(&mut t, State::Next(StateName::RawFlowStart), 1000);
    assert_eq!(r, State::Okay);
    assert_eq!(t.events[0].name, Name::MathFlow);
    assert_eq!(t.events.last().unwrap().name, Name::MathFlow);
}

#[test]
fn code_text() {
    let mut t = tokenizer("`a`", ParseOptions::default());
    let r = run(&mut t, State::Next(StateName::RawTextStart), 1000);
    assert_eq!(r, State::Okay);
    let mut expected = vec![(Kind::Enter, Name::CodeText, 0)];
    expected.extend(span(Name::CodeTextSequence, 0, 1));
    expected.extend(span(Name::CodeTextData, 1, 2));
    expected.extend(span(Name::CodeTextSequence, 2, 3));
    expected.push((Kind::Exit, Name::CodeText, 3));
    assert_eq!(events(&t), expected);
}

#[test]
fn code_text_unclosed() {
    let mut t = tokenizer("``a`", ParseOptions::default());
    let r = run(&mut t, State::Next(StateName::RawTextStart), 1000);
    assert_eq!(r, State::Nok);
}

#[test]
fn list_item_unordered() {
    let mut t = tokenizer("* a", ParseOptions::default());
    with_list_container(&mut t);
    let r = run(&mut t, State::Next(StateName::ListItemStart), 1000);
    assert_eq!(r, State::Okay);
    let mut expected = vec![
        (Kind::Enter, Name::ListItem, 0),
        (Kind::Enter, Name::ListItemPrefix, 0),
    ];
    expected.extend(span(Name::ListItemMarker, 0, 1));
    expected.extend(span(Name::SpaceOrTab, 1, 2));
    expected.push((Kind::Exit, Name::ListItemPrefix, 2));
    assert_eq!(events(&t), expected);
    let container = t.tokenize_state.document_container_stack[0];
    assert_eq!(container.size, 2);
    assert!(!container.blank_initial);
    assert_eq!(t.resolvers, vec![ResolveName::ListItem]);
}

#[test]
fn list_item_ordered() {
    let mut t = tokenizer("1. a", ParseOptions::default());
    with_list_container(&mut t);
    let r = run(&mut t, State::Next(StateName::ListItemStart), 1000);
    assert_eq!(r, State::Okay);
    let mut expected = vec![
        (Kind::Enter, Name::ListItem, 0),
        (Kind::Enter, Name::ListItemPrefix, 0),
    ];
    expected.extend(span(Name::ListItemValue, 0, 1));
    expected.extend(span(Name::ListItemMarker, 1, 2));
    expected.extend(span(Name::SpaceOrTab, 2, 3));
    expected.push((Kind::Exit, Name::ListItemPrefix, 3));
    assert_eq!(events(&t), expected);
    assert_eq!(t.tokenize_state.document_container_stack[0].size, 3);
}

#[test]
fn list_item_blank_start() {
    let mut t = tokenizer("*\na", ParseOptions::default());
    with_list_container(&mut t);
    let r = run(&mut t, State::Next(StateName::ListItemStart), 1000);
    assert_eq!(r, State::Okay);
    let container = t.tokenize_state.document_container_stack[0];
    assert_eq!(container.size, 2);
    assert!(container.blank_initial);
}

#[test]
fn list_item_blank_start_cannot_interrupt() {
    let mut t = tokenizer("*\na", ParseOptions::default());
    with_list_container(&mut t);
    t.interrupt = true;
    let r = run(&mut t, State::Next(StateName::ListItemStart), 1000);
    assert_eq!(r, State::Nok);
}

#[test]
fn list_item_value_too_long() {
    let mut t = tokenizer("1234567890. a", ParseOptions::default());
    with_list_container(&mut t);
    let r = run(&mut t, State::Next(StateName::ListItemStart), 1000);
    assert_eq!(r, State::Nok);

    let mut t = tokenizer("123456789. a", ParseOptions::default());
    with_list_container(&mut t);
    let r = run(&mut t, State::Next(StateName::ListItemStart), 1000);
    assert_eq!(r, State::Okay);
    assert_eq!(t.tokenize_state.document_container_stack[0].size, 11);
}

#[test]
fn list_item_not_a_thematic_break() {
    let mut t = tokenizer("* * *", ParseOptions::default());
    with_list_container(&mut t);
    let r = run(&mut t, State::Next(StateName::ListItemStart), 1000);
    assert_eq!(r, State::Nok);
}

#[test]
fn list_item_without_container_stops() {
    let mut t = tokenizer("* a", ParseOptions::default());
    let r = run(&mut t, State::Next(StateName::ListItemStart), 1000);
    assert_eq!(r, State::Retry(StateName::ListItemAfter));
    assert!(!ready(&t, StateName::ListItemAfter));
}

#[test]
fn label() {
    let mut t = tokenizer("[a]", ParseOptions::default());
    t.tokenize_state.token_1 = Name::DefinitionLabel;
    t.tokenize_state.token_2 = Name::DefinitionLabelMarker;
    t.tokenize_state.token_3 = Name::DefinitionLabelString;
    let r = run(&mut t, State::Next(StateName::LabelStart), 1000);
    assert_eq!(r, State::Okay);
    let mut expected = vec![(Kind::Enter, Name::DefinitionLabel, 0)];
    expected.extend(span(Name::DefinitionLabelMarker, 0, 1));
    expected.push((Kind::Enter, Name::DefinitionLabelString, 1));
    expected.extend(span(Name::Data, 1, 2));
    expected.push((Kind::Exit, Name::DefinitionLabelString, 2));
    expected.extend(span(Name::DefinitionLabelMarker, 2, 3));
    expected.push((Kind::Exit, Name::DefinitionLabel, 3));
    assert_eq!(events(&t), expected);
}

#[test]
fn label_empty_fails() {
    let mut t = tokenizer("[]", ParseOptions::default());
    let r = run(&mut t, State::Next(StateName::LabelStart), 1000);
    assert_eq!(r, State::Nok);
}

#[test]
fn title() {
    let mut t = tokenizer("\"a\"", ParseOptions::default());
    t.tokenize_state.token_1 = Name::DefinitionTitle;
    t.tokenize_state.token_2 = Name::DefinitionTitleMarker;
    t.tokenize_state.token_3 = Name::DefinitionTitleString;
    let r = run(&mut t, State::Next(StateName::TitleStart), 1000);
    assert_eq!(r, State::Okay);
    let mut expected = vec![(Kind::Enter, Name::DefinitionTitle, 0)];
    expected.extend(span(Name::DefinitionTitleMarker, 0, 1));
    expected.push((Kind::Enter, Name::DefinitionTitleString, 1));
    expected.extend(span(Name::Data, 1, 2));
    expected.push((Kind::Exit, Name::DefinitionTitleString, 2));
    expected.extend(span(Name::DefinitionTitleMarker, 2, 3));
    expected.push((Kind::Exit, Name::DefinitionTitle, 3));
    assert_eq!(events(&t), expected);
}

#[test]
fn title_unclosed_fails() {
    let mut t = tokenizer("\"a", ParseOptions::default());
    let r = run(&mut t, State::Next(StateName::TitleStart), 1000);
    assert_eq!(r, State::Nok);
}

#[test]
fn destination_enclosed() {
    let mut t = tokenizer("<a>", ParseOptions::default());
    t.tokenize_state.token_1 = Name::DefinitionDestination;
    t.tokenize_state.token_2 = Name::DefinitionDestinationLiteral;
    t.tokenize_state.token_3 = Name::DefinitionDestinationLiteralMarker;
    t.tokenize_state.token_4 = Name::DefinitionDestinationRaw;
    t.tokenize_state.token_5 = Name::DefinitionDestinationString;
    let r = run(&mut t, State::Next(StateName::DestinationStart), 1000);
    assert_eq!(r, State::Okay);
    let mut expected = vec![
        (Kind::Enter, Name::DefinitionDestination, 0),
        (Kind::Enter, Name::DefinitionDestinationLiteral, 0),
    ];
    expected.extend(span(Name::DefinitionDestinationLiteralMarker, 0, 1));
    expected.push((Kind::Enter, Name::DefinitionDestinationString, 1));
    expected.extend(span(Name::Data, 1, 2));
    expected.push((Kind::Exit, Name::DefinitionDestinationString, 2));
    expected.extend(span(Name::DefinitionDestinationLiteralMarker, 2, 3));
    expected.push((Kind::Exit, Name::DefinitionDestinationLiteral, 3));
    expected.push((Kind::Exit, Name::DefinitionDestination, 3));
    assert_eq!(events(&t), expected);
}

#[test]
fn destination_raw_balances_parens_up_to_the_limit() {
    let mut t = tokenizer("a(b)", ParseOptions::default());
    t.tokenize_state.size_b = usize::MAX;
    let r = run(&mut t, State::Next(StateName::DestinationStart), 1000);
    assert_eq!(r, State::Okay);
    assert_eq!(t.point.index, 4);

    let mut t = tokenizer("a(b)", ParseOptions::default());
    t.tokenize_state.size_b = 0;
    let r = run(&mut t, State::Next(StateName::DestinationStart), 1000);
    assert_eq!(r, State::Nok);
}

#[test]
fn blank_line() {
    let mut t = tokenizer("  \n", ParseOptions::default());
    let r = run(&mut t, State::Next(StateName::BlankLineStart), 1000);
    assert_eq!(r, State::Okay);
    assert_eq!(events(&t), span(Name::SpaceOrTab, 0, 2));
    assert_eq!(t.current, Some(b'\n'));

    let mut t = tokenizer(" a", ParseOptions::default());
    let r = run(&mut t, State::Next(StateName::BlankLineStart), 1000);
    assert_eq!(r, State::Nok);
}

#[test]
fn paragraph_links_its_lines() {
    let mut t = tokenizer("a\nb", ParseOptions::default());
    let r = run(&mut t, State::Next(StateName::ParagraphStart), 1000);
    assert_eq!(r, State::Okay);
    let mut expected = vec![(Kind::Enter, Name::Paragraph, 0)];
    expected.extend(span(Name::Data, 0, 2));
    expected.extend(span(Name::Data, 2, 3));
    expected.push((Kind::Exit, Name::Paragraph, 3));
    assert_eq!(events(&t), expected);
    let first = t.events[1].link.unwrap();
    let second = t.events[3].link.unwrap();
    assert_eq!(first.previous, None);
    assert_eq!(first.next, Some(3));
    assert_eq!(second.previous, Some(1));
    assert_eq!(second.next, None);
}

#[test]
fn byte_order_mark() {
    let mut t = tokenizer("\u{feff}a", ParseOptions::default());
    let r = run(&mut t, State::Next(StateName::BomStart), 1000);
    assert_eq!(r, State::Okay);
    assert_eq!(events(&t), span(Name::ByteOrderMark, 0, 3));

    let mut t = tokenizer("a", ParseOptions::default());
    let r = run(&mut t, State::Next(StateName::BomStart), 1000);
    assert_eq!(r, State::Nok);
}

#[test]
fn data_up_to_the_end() {
    let mut t = tokenizer("a b", ParseOptions::default());
    let r = run(&mut t, State::Next(StateName::DataStart), 1000);
    assert_eq!(r, State::Okay);
    assert_eq!(events(&t), span(Name::Data, 0, 3));
}

#[test]
fn text_goes_to_constructs_outside_this_library() {
    let mut t = tokenizer("*a", ParseOptions::default());
    let r = run(&mut t, State::Next(StateName::TextStart), 1000);
    assert_eq!(r, State::Retry(StateName::GfmTaskListItemCheckStart));
    assert_eq!(t.tokenize_state.markers.len(), 11);
    assert!(!ready(&t, StateName::GfmTaskListItemCheckStart));

    let mut t = tokenizer("*a", ParseOptions::default());
    let r = run(&mut t, State::Next(StateName::TextBefore), 1000);
    assert_eq!(r, State::Retry(StateName::AttentionStart));
    assert_eq!(t.attempts.len(), 1);
    assert_eq!(t.attempts[0].nok, State::Next(StateName::TextBeforeData));
}

#[test]
fn text_at_the_end_registers_resolvers() {
    let mut t = tokenizer("", ParseOptions::default());
    let r = run(&mut t, State::Next(StateName::TextBefore), 1000);
    assert_eq!(r, State::Okay);
    assert_eq!(t.resolvers, vec![ResolveName::Data, ResolveName::Text]);
}

#[test]
fn mdx_esm_keyword() {
    let mut t = tokenizer("export a", ParseOptions::default());
    t.enter(Name::MdxEsm);
    t.enter(Name::MdxEsmData);
    let r = run(&mut t, State::Next(StateName::MdxEsmWord), 1000);
    assert_eq!(r, State::Retry(StateName::MdxEsmAtEnd));
    assert!(t.concrete);
    assert_eq!(t.tokenize_state.start, 1);
    assert_eq!(t.events.last().unwrap().name, Name::MdxEsmData);
    assert_eq!(t.events.last().unwrap().kind, Kind::Exit);

    let mut t = tokenizer("exports a", ParseOptions::default());
    t.enter(Name::MdxEsm);
    t.enter(Name::MdxEsmData);
    let r = run(&mut t, State::Next(StateName::MdxEsmWord), 1000);
    assert_eq!(r, State::Nok);
    assert_eq!(t.tokenize_state.start, 0);
}

#[test]
fn mdx_expression_text() {
    let mut t = tokenizer("{a}", ParseOptions::default());
    let r = run(&mut t, State::Next(StateName::MdxExpressionTextStart), 1000);
    assert_eq!(r, State::Nok);

    let mut options = ParseOptions::default();
    options.constructs.mdx_expression_text = true;
    let mut t = tokenizer("{a}", options);
    let r = run(&mut t, State::Next(StateName::MdxExpressionTextStart), 1000);
    assert_eq!(r, State::Retry(StateName::MdxExpressionBefore));
    let mut expected = vec![(Kind::Enter, Name::MdxTextExpression, 0)];
    expected.extend(span(Name::MdxExpressionMarker, 0, 1));
    assert_eq!(events(&t), expected);
    assert_eq!(t.tokenize_state.start, 2);
}

#[test]
fn mdx_jsx_flow_is_concrete() {
    let mut options = ParseOptions::default();
    options.constructs.mdx_jsx_flow = true;
    let mut t = tokenizer("  <a/>", options);
    let r = run(&mut t, State::Next(StateName::MdxJsxFlowStart), 1000);
    assert_eq!(r, State::Retry(StateName::MdxJsxStart));
    assert!(t.concrete);
    assert_eq!(t.tokenize_state.token_1, Name::MdxJsxFlowTag);
    assert_eq!(events(&t), span(Name::SpaceOrTab, 0, 2));

    let mut t = tokenizer("a", options);
    let r = run(&mut t, State::Next(StateName::MdxJsxFlowStart), 1000);
    assert_eq!(r, State::Nok);
    assert!(!t.concrete);
    assert_eq!(t.tokenize_state.token_1, Name::Data);
}

#[test]
fn stopped_run_stays_stopped() {
    let mut t = tokenizer("* a", ParseOptions::default());
    let r = run(&mut t, State::Next(StateName::ListItemStart), 1000);
    assert_eq!(r, State::Retry(StateName::ListItemAfter));
    let before = events(&t);
    let again = run(&mut t, r, 1000);
    assert_eq!(again, r);
    assert_eq!(events(&t), before);
}

#[test]
fn run_keeps_document_and_options() {
    let mut options = ParseOptions::default();
    options.constructs.math_flow = true;
    let mut t = tokenizer("$$\na\n$$", options);
    let r = run(&mut t, State::Next(StateName::RawFlowStart), 1000);
    assert_eq!(r, State::Okay);
    assert_eq!(t.parse_state.bytes, b"$$\na\n$$".to_vec());
    assert_eq!(t.parse_state.options, options);
}

#[test]
fn blank_line_with_carriage_return_line_feed() {
    let mut t = tokenizer("  \r\n", ParseOptions::default());
    let r = run(&mut t, State::Next(StateName::BlankLineStart), 1000);
    assert_eq!(r, State::Okay);
    assert_eq!(t.current, Some(b'\n'));
    assert_eq!(t.point.index, 2);
}

#[test]
fn tab_counts_as_whitespace_up_to_the_tab_stop() {
    let mut t = tokenizer("\t***", ParseOptions::default());
    let r = run(&mut t, State::Next(StateName::ThematicBreakStart), 1000);
    assert_eq!(r, State::Nok);

    let mut t = tokenizer("  \t***", ParseOptions::default());
    let mut options = ParseOptions::default();
    options.constructs.code_indented = false;
    let mut u = tokenizer("\t***", options);
    let r = run(&mut u, State::Next(StateName::ThematicBreakStart), 1000);
    assert_eq!(r, State::Okay);
    let r = run(&mut t, State::Next(StateName::ThematicBreakStart), 1000);
    assert_eq!(r, State::Nok);
}

#[test]
fn flow_thematic_break() {
    let mut t = tokenizer("***", ParseOptions::default());
    let r = run(&mut t, State::Next(StateName::FlowStart), 1000);
    assert_eq!(r, State::Okay);
    assert_eq!(t.events.len(), 4);
    assert_eq!(t.events[0].name, Name::ThematicBreak);
}

#[test]
fn flow_blank_line_then_thematic_break() {
    let mut t = tokenizer("\n***", ParseOptions::default());
    let r = run(&mut t, State::Next(StateName::FlowStart), 1000);
    assert_eq!(r, State::Okay);
    let mut expected = span(Name::BlankLineEnding, 0, 1);
    expected.push((Kind::Enter, Name::ThematicBreak, 1));
    expected.extend(span(Name::ThematicBreakSequence, 1, 4));
    expected.push((Kind::Exit, Name::ThematicBreak, 4));
    assert_eq!(events(&t), expected);
}

#[test]
fn flow_paragraph() {
    let mut t = tokenizer("a", ParseOptions::default());
    let r = run(&mut t, State::Next(StateName::FlowStart), 1000);
    assert_eq!(r, State::Okay);
    let mut expected = vec![(Kind::Enter, Name::Paragraph, 0)];
    expected.extend(span(Name::Data, 0, 1));
    expected.push((Kind::Exit, Name::Paragraph, 1));
    assert_eq!(events(&t), expected);
}

#[test]
fn flow_heading_is_outside_this_library() {
    let mut t = tokenizer("# a", ParseOptions::default());
    let r = run(&mut t, State::Next(StateName::FlowStart), 1000);
    assert_eq!(r, State::Retry(StateName::HeadingAtxStart));
}

#[test]
fn string_data_up_to_a_marker() {
    let mut t = tokenizer("a&b", ParseOptions::default());
    let r = run(&mut t, State::Next(StateName::StringStart), 1000);
    assert_eq!(r, State::Retry(StateName::CharacterReferenceStart));
    assert_eq!(t.resolvers, vec![ResolveName::String]);
    assert_eq!(t.tokenize_state.markers, vec![b'&', b'\\']);
    assert_eq!(events(&t), span(Name::Data, 0, 1));
}

#[test]
fn mdx_esm_start_needs_a_parser() {
    let mut options = ParseOptions::default();
    options.constructs.mdx_esm = true;
    let mut t = tokenizer("export a", options);
    let r = run(&mut t, State::Next(StateName::MdxEsmStart), 1000);
    assert_eq!(r, State::Nok);

    options.mdx_esm_parse = true;
    let mut t = tokenizer("export a", options);
    let r = run(&mut t, State::Next(StateName::MdxEsmStart), 1000);
    assert_eq!(r, State::Retry(StateName::MdxEsmAtEnd));
    let mut expected = vec![(Kind::Enter, Name::MdxEsm, 0)];
    expected.extend(span(Name::MdxEsmData, 0, 8));
    assert_eq!(events(&t), expected);
    assert!(t.concrete);
}

#[test]
fn mdx_expression_inside_balances_braces() {
    let mut t = tokenizer("a{b}c}d", ParseOptions::default());
    t.enter(Name::MdxExpressionData);
    let r = run(&mut t, State::Next(StateName::MdxExpressionInside), 1000);
    assert_eq!(r, State::Retry(StateName::MdxExpressionBefore));
    assert_eq!(t.point.index, 5);
    assert_eq!(events(&t), span(Name::MdxExpressionData, 0, 5));

    let mut options = ParseOptions::default();
    options.mdx_expression_parse = true;
    let mut t = tokenizer("a{b}c}d", options);
    t.enter(Name::MdxExpressionData);
    let r = run(&mut t, State::Next(StateName::MdxExpressionInside), 1000);
    assert_eq!(r, State::Retry(StateName::MdxExpressionBefore));
    assert_eq!(t.point.index, 3);
}
