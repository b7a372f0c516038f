//! The tokenizer: the state of the state machine that turns bytes into
//! events, and the operations that constructs perform on it.
//!
//! A construct is a set of states.
//! Each state looks at the current byte, may enter or exit spans, consume the
//! byte, or start an attempt, and says where to go next: to a state on the
//! next byte (`State::Next`), to a state on the same byte (`State::Retry`),
//! or that it succeeded (`State::Ok`) or failed (`State::Nok`).
//! An attempt remembers where the tokenizer was; when what it tries fails,
//! the tokenizer goes back there.

use vstd::prelude::*;
use crate::configuration::ParseOptions;
use crate::event::{Content, Event, Kind, Link, Name, Point};
use crate::parser::ParseState;
use crate::resolve::Name as ResolveName;
use crate::state::State;
use crate::subtokenize::{can_link_to, spec_link_to};
use crate::util::constant::TAB_SIZE;
use crate::util::edit_map::{EditMap, EditView};

verus! {

/// How an attempt behaves.
#[derive(Clone, Copy, Debug, PartialEq, Eq, Structural)]
pub enum AttemptKind {
    /// Keep what was parsed when it succeeds, revert when it fails.
    Attempt,
    /// Always revert.
    Check,
}

/// Where the tokenizer was.
#[derive(Clone, Copy, Debug, PartialEq, Eq, Structural)]
pub struct Progress {
    /// Previous byte.
    pub previous: Option<u8>,
    /// Current byte.
    pub current: Option<u8>,
    /// Current place.
    pub point: Point,
    /// Number of events.
    pub events_len: usize,
    /// Number of open spans.
    pub stack_len: usize,
}

/// An attempt that is in progress.
#[derive(Clone, Copy, Debug, PartialEq, Eq, Structural)]
pub struct Attempt {
    /// Where to go when it succeeds.
    pub ok: State,
    /// Where to go when it fails.
    pub nok: State,
    /// Kind of attempt.
    pub kind: AttemptKind,
    /// Where the tokenizer was when the attempt started.
    pub progress: Progress,
}

/// Kinds of containers.
#[derive(Clone, Copy, Debug, PartialEq, Eq, Structural)]
pub enum Container {
    /// Block quote.
    BlockQuote,
    /// List item.
    ListItem,
    /// GFM: footnote definition.
    GfmFootnoteDefinition,
}

/// Info used to tokenize a container.
#[derive(Clone, Copy, Debug, PartialEq, Eq, Structural)]
pub struct ContainerState {
    /// Kind.
    pub kind: Container,
    /// Whether the first line was blank.
    pub blank_initial: bool,
    /// Size of the prefix (the indent of its content).
    pub size: usize,
}

/// State shared between the states of a construct.
pub struct TokenizeState {
    /// Bytes that stop data.
    pub markers: Vec<u8>,
    /// A marker byte (such as the `*` of a thematic break).
    pub marker: u8,
    /// Whether something was seen.
    pub seen: bool,
    /// Whether to connect linked events.
    pub connect: bool,
    /// A count.
    pub size: usize,
    /// A second count.
    pub size_b: usize,
    /// A third count.
    pub size_c: usize,
    /// Names of events, set by the construct that calls a partial construct.
    pub token_1: Name,
    /// Second name.
    pub token_2: Name,
    /// Third name.
    pub token_3: Name,
    /// Fourth name.
    pub token_4: Name,
    /// Fifth name.
    pub token_5: Name,
    /// Sixth name.
    pub token_6: Name,
    /// `space_or_tab`: whether to connect to the previous event.
    pub space_or_tab_connect: bool,
    /// `space_or_tab`: content type of links.
    pub space_or_tab_content: Option<Content>,
    /// `space_or_tab`: minimum number of bytes.
    pub space_or_tab_min: usize,
    /// `space_or_tab`: maximum number of bytes.
    pub space_or_tab_max: usize,
    /// `space_or_tab`: number of bytes seen.
    pub space_or_tab_size: usize,
    /// `space_or_tab`: name of the events.
    pub space_or_tab_token: Name,
    /// `space_or_tab_eol`: whether to connect to the previous event.
    pub space_or_tab_eol_connect: bool,
    /// `space_or_tab_eol`: content type of links.
    pub space_or_tab_eol_content: Option<Content>,
    /// `space_or_tab_eol`: whether whitespace was seen before the eol.
    pub space_or_tab_eol_ok: bool,
    /// Document: the containers that are open.
    pub document_container_stack: Vec<ContainerState>,
    /// Document: how many containers were continued on this line.
    pub document_continued: usize,
    /// Where something started: an index into the bytes or the events.
    pub start: usize,
}

/// The mathematical value of [`TokenizeState`].
pub struct TokenizeStateView {
    pub markers: Seq<u8>,
    pub marker: u8,
    pub seen: bool,
    pub connect: bool,
    pub size: usize,
    pub size_b: usize,
    pub size_c: usize,
    pub token_1: Name,
    pub token_2: Name,
    pub token_3: Name,
    pub token_4: Name,
    pub token_5: Name,
    pub token_6: Name,
    pub space_or_tab_connect: bool,
    pub space_or_tab_content: Option<Content>,
    pub space_or_tab_min: usize,
    pub space_or_tab_max: usize,
    pub space_or_tab_size: usize,
    pub space_or_tab_token: Name,
    pub space_or_tab_eol_connect: bool,
    pub space_or_tab_eol_content: Option<Content>,
    pub space_or_tab_eol_ok: bool,
    pub document_container_stack: Seq<ContainerState>,
    pub document_continued: usize,
    pub start: usize,
}

impl View for TokenizeState {
    type V = TokenizeStateView;

    open spec fn view(&self) -> TokenizeStateView {
        TokenizeStateView {
            markers: self.markers@,
            marker: self.marker,
            seen: self.seen,
            connect: self.connect,
            size: self.size,
            size_b: self.size_b,
            size_c: self.size_c,
            token_1: self.token_1,
            token_2: self.token_2,
            token_3: self.token_3,
            token_4: self.token_4,
            token_5: self.token_5,
            token_6: self.token_6,
            space_or_tab_connect: self.space_or_tab_connect,
            space_or_tab_content: self.space_or_tab_content,
            space_or_tab_min: self.space_or_tab_min,
            space_or_tab_max: self.space_or_tab_max,
            space_or_tab_size: self.space_or_tab_size,
            space_or_tab_token: self.space_or_tab_token,
            space_or_tab_eol_connect: self.space_or_tab_eol_connect,
            space_or_tab_eol_content: self.space_or_tab_eol_content,
            space_or_tab_eol_ok: self.space_or_tab_eol_ok,
            document_container_stack: self.document_container_stack@,
            document_continued: self.document_continued,
            start: self.start,
        }
    }
}

impl TokenizeState {
    /// The initial state: no markers, counts at zero, names at `Data`.
    pub fn new() -> (r: Self)
        ensures
            r@ == TokenizeStateView::initial(),
    {
        TokenizeState {
            markers: Vec::new(),
            marker: 0,
            seen: false,
            connect: false,
            size: 0,
            size_b: 0,
            size_c: 0,
            token_1: Name::Data,
            token_2: Name::Data,
            token_3: Name::Data,
            token_4: Name::Data,
            token_5: Name::Data,
            token_6: Name::Data,
            space_or_tab_connect: false,
            space_or_tab_content: None,
            space_or_tab_min: 0,
            space_or_tab_max: 0,
            space_or_tab_size: 0,
            space_or_tab_token: Name::SpaceOrTab,
            space_or_tab_eol_connect: false,
            space_or_tab_eol_content: None,
            space_or_tab_eol_ok: false,
            document_container_stack: Vec::new(),
            document_continued: 0,
            start: 0,
        }
    }
}

impl TokenizeStateView {
    /// The initial state.
    pub open spec fn initial() -> TokenizeStateView {
        TokenizeStateView {
            markers: Seq::empty(),
            marker: 0,
            seen: false,
            connect: false,
            size: 0,
            size_b: 0,
            size_c: 0,
            token_1: Name::Data,
            token_2: Name::Data,
            token_3: Name::Data,
            token_4: Name::Data,
            token_5: Name::Data,
            token_6: Name::Data,
            space_or_tab_connect: false,
            space_or_tab_content: None,
            space_or_tab_min: 0,
            space_or_tab_max: 0,
            space_or_tab_size: 0,
            space_or_tab_token: Name::SpaceOrTab,
            space_or_tab_eol_connect: false,
            space_or_tab_eol_content: None,
            space_or_tab_eol_ok: false,
            document_container_stack: Seq::empty(),
            document_continued: 0,
            start: 0,
        }
    }
}

/// A tokenizer itself.
pub struct Tokenizer {
    /// Shared parsing state: the bytes and the configuration.
    pub parse_state: ParseState,
    /// Previous byte.
    pub previous: Option<u8>,
    /// Current byte (`None` at the end).
    pub current: Option<u8>,
    /// Whether the current byte was consumed.
    pub consumed: bool,
    /// Current place.
    pub point: Point,
    /// Events: where spans start and end.
    pub events: Vec<Event>,
    /// Names of the spans that are open.
    pub stack: Vec<Name>,
    /// Attempts in progress, innermost last.
    pub attempts: Vec<Attempt>,
    /// Resolvers to run at the end.
    pub resolvers: Vec<ResolveName>,
    /// State shared between states of constructs.
    pub tokenize_state: TokenizeState,
    /// Whether we would be interrupting something.
    pub interrupt: bool,
    /// Whether containers cannot be formed here.
    pub concrete: bool,
    /// Whether this line is lazy: its containers were not all continued.
    pub lazy: bool,
    /// Edits to the events, applied together later.
    pub map: EditMap,
}

/// The mathematical value of a [`Tokenizer`].
pub struct TokenizerView {
    pub bytes: Seq<u8>,
    pub options: ParseOptions,
    pub definitions: Seq<String>,
    pub gfm_footnote_definitions: Seq<String>,
    pub previous: Option<u8>,
    pub current: Option<u8>,
    pub consumed: bool,
    pub point: Point,
    pub events: Seq<Event>,
    pub stack: Seq<Name>,
    pub attempts: Seq<Attempt>,
    pub resolvers: Seq<ResolveName>,
    pub ts: TokenizeStateView,
    pub interrupt: bool,
    pub concrete: bool,
    pub lazy: bool,
    pub map: Seq<EditView>,
}

impl View for Tokenizer {
    type V = TokenizerView;

    open spec fn view(&self) -> TokenizerView {
        TokenizerView {
            bytes: self.parse_state.bytes@,
            options: self.parse_state.options,
            definitions: self.parse_state.definitions@,
            gfm_footnote_definitions: self.parse_state.gfm_footnote_definitions@,
            previous: self.previous,
            current: self.current,
            consumed: self.consumed,
            point: self.point,
            events: self.events@,
            stack: self.stack@,
            attempts: self.attempts@,
            resolvers: self.resolvers@,
            ts: self.tokenize_state@,
            interrupt: self.interrupt,
            concrete: self.concrete,
            lazy: self.lazy,
            map: self.map@,
        }
    }
}

/// The stack without its innermost name (unchanged when empty).
#[verifier::opaque]
pub open spec fn pop_stack(stack: Seq<Name>) -> Seq<Name> {
    if stack.len() > 0 {
        stack.drop_last()
    } else {
        stack
    }
}

/// `n + 1`, or `n` at the largest `usize`.
pub open spec fn inc(n: usize) -> usize {
    if n < usize::MAX {
        (n + 1) as usize
    } else {
        n
    }
}

impl TokenizerView {
    /// With other construct state.
    pub open spec fn with_ts(self, ts: TokenizeStateView) -> TokenizerView {
        TokenizerView { ts, ..self }
    }

    /// With the construct state's `marker` set.
    pub open spec fn set_marker(self, value: u8) -> TokenizerView {
        self.with_ts(TokenizeStateView { marker: value, ..self.ts })
    }

    /// With the construct state's `size` set.
    pub open spec fn set_size(self, value: usize) -> TokenizerView {
        self.with_ts(TokenizeStateView { size: value, ..self.ts })
    }

    /// With the construct state's `size_b` set.
    pub open spec fn set_size_b(self, value: usize) -> TokenizerView {
        self.with_ts(TokenizeStateView { size_b: value, ..self.ts })
    }

    /// With the construct state's `size_c` set.
    pub open spec fn set_size_c(self, value: usize) -> TokenizerView {
        self.with_ts(TokenizeStateView { size_c: value, ..self.ts })
    }

    /// With the construct state's `seen` set.
    pub open spec fn set_seen(self, value: bool) -> TokenizerView {
        self.with_ts(TokenizeStateView { seen: value, ..self.ts })
    }

    /// With the construct state's `connect` set.
    pub open spec fn set_connect(self, value: bool) -> TokenizerView {
        self.with_ts(TokenizeStateView { connect: value, ..self.ts })
    }

    /// With the construct state's `start` set.
    pub open spec fn set_start(self, value: usize) -> TokenizerView {
        self.with_ts(TokenizeStateView { start: value, ..self.ts })
    }

    /// With the construct state's `token_1` set.
    pub open spec fn set_token_1(self, value: Name) -> TokenizerView {
        self.with_ts(TokenizeStateView { token_1: value, ..self.ts })
    }

    /// With the construct state's `token_2` set.
    pub open spec fn set_token_2(self, value: Name) -> TokenizerView {
        self.with_ts(TokenizeStateView { token_2: value, ..self.ts })
    }

    /// With the construct state's `token_3` set.
    pub open spec fn set_token_3(self, value: Name) -> TokenizerView {
        self.with_ts(TokenizeStateView { token_3: value, ..self.ts })
    }

    /// With the construct state's `token_4` set.
    pub open spec fn set_token_4(self, value: Name) -> TokenizerView {
        self.with_ts(TokenizeStateView { token_4: value, ..self.ts })
    }

    /// With the construct state's `token_5` set.
    pub open spec fn set_token_5(self, value: Name) -> TokenizerView {
        self.with_ts(TokenizeStateView { token_5: value, ..self.ts })
    }

    /// With the construct state's `token_6` set.
    pub open spec fn set_token_6(self, value: Name) -> TokenizerView {
        self.with_ts(TokenizeStateView { token_6: value, ..self.ts })
    }

    /// With `interrupt` set.
    pub open spec fn set_interrupt(self, value: bool) -> TokenizerView {
        TokenizerView { interrupt: value, ..self }
    }

    /// With `concrete` set.
    pub open spec fn set_concrete(self, value: bool) -> TokenizerView {
        TokenizerView { concrete: value, ..self }
    }

    /// With the container at `index` replaced.
    pub open spec fn set_container(self, index: usize, value: ContainerState) -> TokenizerView {
        self.with_ts(
            TokenizeStateView {
                document_container_stack: self.ts.document_container_stack.update(index as int, value),
                ..self.ts
            },
        )
    }

    /// The event that enters a span here.
    pub open spec fn enter_event(self, name: Name, link: Option<Link>) -> Event {
        Event { kind: Kind::Enter, name, point: self.point, link }
    }

    /// Open a span.
    pub open spec fn enter(self, name: Name) -> TokenizerView {
        TokenizerView {
            events: self.events.push(self.enter_event(name, None)),
            stack: self.stack.push(name),
            ..self
        }
    }

    /// Open a span with a link.
    pub open spec fn enter_link(self, name: Name, link: Link) -> TokenizerView {
        TokenizerView {
            events: self.events.push(self.enter_event(name, Some(link))),
            stack: self.stack.push(name),
            ..self
        }
    }

    /// Close the innermost span.
    pub open spec fn exit(self, name: Name) -> TokenizerView {
        TokenizerView {
            events: self.events.push(Event { kind: Kind::Exit, name, point: self.point, link: None }),
            stack: pop_stack(self.stack),
            ..self
        }
    }

    /// The place after the current byte.
    ///
    /// A line ending (`\n`, `\r`, or `\r\n`, which counts as one) moves
    /// to the start of the next line.
    /// A tab takes the columns up to the next tab stop: each step over it
    /// is one column, a virtual step on the same byte until the next column
    /// is a tab stop, and then the step past it.
    #[verifier::opaque]
    pub open spec fn moved(self) -> Point {
        let p = self.point;
        if p.index < self.bytes.len() {
            let byte = self.bytes[p.index as int];
            if byte == 10 || byte == 13 {
                let width: int = if byte == 13 && p.index + 1 < self.bytes.len() && self.bytes[p.index
                    + 1] == 10 {
                    2
                } else {
                    1
                };
                Point { line: inc(p.line), column: 1, index: (p.index + width) as usize, vs: 0 }
            } else if byte == 9 && p.column % TAB_SIZE != 0 {
                Point { line: p.line, column: inc(p.column), index: p.index, vs: inc(p.vs) }
            } else {
                Point { line: p.line, column: inc(p.column), index: (p.index + 1) as usize, vs: 0 }
            }
        } else {
            p
        }
    }

    /// Consume the current byte.
    pub open spec fn consume(self) -> TokenizerView {
        TokenizerView {
            point: self.moved(),
            previous: self.current,
            current: None,
            consumed: true,
            ..self
        }
    }

    /// Where the tokenizer is.
    pub open spec fn capture(self) -> Progress {
        Progress {
            previous: self.previous,
            current: self.current,
            point: self.point,
            events_len: self.events.len() as usize,
            stack_len: self.stack.len() as usize,
        }
    }

    /// Start an attempt.
    pub open spec fn attempt(self, ok: State, nok: State) -> TokenizerView {
        TokenizerView {
            attempts: self.attempts.push(
                Attempt { ok, nok, kind: AttemptKind::Attempt, progress: self.capture() },
            ),
            ..self
        }
    }

    /// Start a check.
    pub open spec fn check(self, ok: State, nok: State) -> TokenizerView {
        TokenizerView {
            attempts: self.attempts.push(
                Attempt { ok, nok, kind: AttemptKind::Check, progress: self.capture() },
            ),
            ..self
        }
    }

    /// Go back to where the tokenizer was.
    pub open spec fn free(self, progress: Progress) -> TokenizerView {
        TokenizerView {
            previous: progress.previous,
            current: progress.current,
            point: progress.point,
            events: if progress.events_len <= self.events.len() {
                self.events.take(progress.events_len as int)
            } else {
                self.events
            },
            stack: if progress.stack_len <= self.stack.len() {
                self.stack.take(progress.stack_len as int)
            } else {
                self.stack
            },
            ..self
        }
    }

    /// Look at a new current byte.
    pub open spec fn expect(self, byte: Option<u8>) -> TokenizerView {
        TokenizerView { current: byte, consumed: false, ..self }
    }

    /// Add a resolver at the end, if it is not there yet.
    pub open spec fn register_resolver(self, name: ResolveName) -> TokenizerView {
        if self.resolvers.contains(name) {
            self
        } else {
            TokenizerView { resolvers: self.resolvers.push(name), ..self }
        }
    }

    /// Add a resolver at the start, if it is not there yet.
    pub open spec fn register_resolver_before(self, name: ResolveName) -> TokenizerView {
        if self.resolvers.contains(name) {
            self
        } else {
            TokenizerView { resolvers: seq![name] + self.resolvers, ..self }
        }
    }

    /// Whether the last event can be linked to the event two before it.
    pub open spec fn can_link_last(self) -> bool {
        self.events.len() >= 3 && can_link_to(
            self.events,
            self.events.len() - 3,
            self.events.len() - 1,
        )
    }

    /// Link the last event to the event two before it.
    pub open spec fn link_last(self) -> TokenizerView {
        TokenizerView {
            events: spec_link_to(self.events, self.events.len() - 3, self.events.len() - 1),
            ..self
        }
    }

    /// The current byte is a space or a tab.
    pub open spec fn at_space_or_tab(self) -> bool {
        self.current == Some(9u8) || self.current == Some(32u8)
    }

    /// The current byte is a line ending or the end.
    pub open spec fn at_eol_or_eof(self) -> bool {
        self.current is None || self.current == Some(10u8)
    }
}

impl Tokenizer {
    /// Create a tokenizer at the start of the bytes of `parse_state`.
    pub fn new(point: Point, parse_state: ParseState) -> (r: Tokenizer)
        ensures
            r@.bytes == parse_state.bytes@,
            r@.options == parse_state.options,
            r@.definitions == parse_state.definitions@,
            r@.gfm_footnote_definitions == parse_state.gfm_footnote_definitions@,
            r@.point == point,
            r@.previous is None,
            r@.current is None,
            r@.consumed,
            r@.events.len() == 0,
            r@.stack.len() == 0,
            r@.attempts.len() == 0,
            r@.resolvers.len() == 0,
            r@.ts == TokenizeStateView::initial(),
            !r@.interrupt,
            !r@.concrete,
            !r@.lazy,
            r@.map.len() == 0,
    {
        Tokenizer {
            parse_state,
            previous: None,
            current: None,
            consumed: true,
            point,
            events: Vec::new(),
            stack: Vec::new(),
            attempts: Vec::new(),
            resolvers: Vec::new(),
            tokenize_state: TokenizeState::new(),
            interrupt: false,
            concrete: false,
            lazy: false,
            map: EditMap::new(),
        }
    }

    /// Open a span.
    pub fn enter(&mut self, name: Name)
        ensures
            final(self)@ == old(self)@.enter(name),
    {
        let point = self.point;
        self.events.push(Event { kind: Kind::Enter, name, point, link: None });
        self.stack.push(name);
    }

    /// Open a span with a link.
    pub fn enter_link(&mut self, name: Name, link: Link)
        ensures
            final(self)@ == old(self)@.enter_link(name, link),
    {
        let point = self.point;
        self.events.push(Event { kind: Kind::Enter, name, point, link: Some(link) });
        self.stack.push(name);
    }

    /// Close the innermost span.
    pub fn exit(&mut self, name: Name)
        ensures
            final(self)@ == old(self)@.exit(name),
    {
        let point = self.point;
        self.stack.pop();
        proof {
            reveal(pop_stack);
        }
        self.events.push(Event { kind: Kind::Exit, name, point, link: None });
    }

    /// Consume the current byte.
    pub fn consume(&mut self)
        ensures
            final(self)@ == old(self)@.consume(),
    {
        let point = self.next_point();
        self.point = point;
        self.previous = self.current;
        self.current = None;
        self.consumed = true;
    }

    /// The place after the current byte.
    fn next_point(&self) -> (r: Point)
        ensures
            r == self@.moved(),
    {
        proof {
            reveal(TokenizerView::moved);
        }
        let p = self.point;
        let len = self.parse_state.bytes.len();
        if p.index < len {
            let byte = self.parse_state.bytes[p.index];
            let line = if p.line < usize::MAX {
                p.line + 1
            } else {
                p.line
            };
            let column = if p.column < usize::MAX {
                p.column + 1
            } else {
                p.column
            };
            if byte == 10 || byte == 13 {
                let width: usize = if byte == 13 && p.index + 1 < len && self.parse_state.bytes[p.index
                    + 1] == 10 {
                    2
                } else {
                    1
                };
                Point { line, column: 1, index: p.index + width, vs: 0 }
            } else if byte == 9 && p.column % TAB_SIZE != 0 {
                let vs = if p.vs < usize::MAX {
                    p.vs + 1
                } else {
                    p.vs
                };
                Point { line: p.line, column, index: p.index, vs }
            } else {
                Point { line: p.line, column, index: p.index + 1, vs: 0 }
            }
        } else {
            p
        }
    }

    /// Where the tokenizer is.
    pub fn capture(&self) -> (r: Progress)
        ensures
            r == self@.capture(),
    {
        Progress {
            previous: self.previous,
            current: self.current,
            point: self.point,
            events_len: self.events.len(),
            stack_len: self.stack.len(),
        }
    }

    /// Start an attempt: when what follows fails, go back to here.
    pub fn attempt(&mut self, ok: State, nok: State)
        ensures
            final(self)@ == old(self)@.attempt(ok, nok),
    {
        let progress = self.capture();
        self.attempts.push(Attempt { ok, nok, kind: AttemptKind::Attempt, progress });
    }

    /// Start a check: whatever happens, go back to here.
    pub fn check(&mut self, ok: State, nok: State)
        ensures
            final(self)@ == old(self)@.check(ok, nok),
    {
        let progress = self.capture();
        self.attempts.push(Attempt { ok, nok, kind: AttemptKind::Check, progress });
    }

    /// Link the last event to the event two before it.
    pub fn link_last(&mut self)
        requires
            old(self)@.can_link_last(),
        ensures
            final(self)@ == old(self)@.link_last(),
    {
        let index = self.events.len() - 1;
        crate::subtokenize::link(&mut self.events, index);
    }

    /// Go back to where the tokenizer was.
    pub fn free(&mut self, progress: Progress)
        ensures
            final(self)@ == old(self)@.free(progress),
    {
        self.previous = progress.previous;
        self.current = progress.current;
        self.point = progress.point;
        self.events.truncate(progress.events_len);
        self.stack.truncate(progress.stack_len);
    }

    /// Look at a new current byte.
    pub fn expect(&mut self, byte: Option<u8>)
        ensures
            final(self)@ == old(self)@.expect(byte),
    {
        self.consumed = false;
        self.current = byte;
    }

    /// Add a resolver at the end, if it is not there yet.
    pub fn register_resolver(&mut self, name: ResolveName)
        ensures
            final(self)@ == old(self)@.register_resolver(name),
    {
        if !self.has_resolver(name) {
            self.resolvers.push(name);
        }
    }

    /// Add a resolver at the start, if it is not there yet.
    pub fn register_resolver_before(&mut self, name: ResolveName)
        ensures
            final(self)@ == old(self)@.register_resolver_before(name),
    {
        if !self.has_resolver(name) {
            self.resolvers.insert(0, name);
            assert(self.resolvers@ =~= seq![name] + old(self).resolvers@);
        }
    }

    /// Set the construct state's `marker`.
    pub fn set_marker(&mut self, value: u8)
        ensures
            final(self)@ == old(self)@.set_marker(value),
    {
        self.tokenize_state.marker = value;
    }

    /// Set the construct state's `size`.
    pub fn set_size(&mut self, value: usize)
        ensures
            final(self)@ == old(self)@.set_size(value),
    {
        self.tokenize_state.size = value;
    }

    /// Set the construct state's `size_b`.
    pub fn set_size_b(&mut self, value: usize)
        ensures
            final(self)@ == old(self)@.set_size_b(value),
    {
        self.tokenize_state.size_b = value;
    }

    /// Set the construct state's `size_c`.
    pub fn set_size_c(&mut self, value: usize)
        ensures
            final(self)@ == old(self)@.set_size_c(value),
    {
        self.tokenize_state.size_c = value;
    }

    /// Set the construct state's `seen`.
    pub fn set_seen(&mut self, value: bool)
        ensures
            final(self)@ == old(self)@.set_seen(value),
    {
        self.tokenize_state.seen = value;
    }

    /// Set the construct state's `connect`.
    pub fn set_connect(&mut self, value: bool)
        ensures
            final(self)@ == old(self)@.set_connect(value),
    {
        self.tokenize_state.connect = value;
    }

    /// Set the construct state's `start`.
    pub fn set_start(&mut self, value: usize)
        ensures
            final(self)@ == old(self)@.set_start(value),
    {
        self.tokenize_state.start = value;
    }

    /// Set the construct state's `token_1`.
    pub fn set_token_1(&mut self, value: Name)
        ensures
            final(self)@ == old(self)@.set_token_1(value),
    {
        self.tokenize_state.token_1 = value;
    }

    /// Set the construct state's `token_2`.
    pub fn set_token_2(&mut self, value: Name)
        ensures
            final(self)@ == old(self)@.set_token_2(value),
    {
        self.tokenize_state.token_2 = value;
    }

    /// Set the construct state's `token_3`.
    pub fn set_token_3(&mut self, value: Name)
        ensures
            final(self)@ == old(self)@.set_token_3(value),
    {
        self.tokenize_state.token_3 = value;
    }

    /// Set the construct state's `token_4`.
    pub fn set_token_4(&mut self, value: Name)
        ensures
            final(self)@ == old(self)@.set_token_4(value),
    {
        self.tokenize_state.token_4 = value;
    }

    /// Set the construct state's `token_5`.
    pub fn set_token_5(&mut self, value: Name)
        ensures
            final(self)@ == old(self)@.set_token_5(value),
    {
        self.tokenize_state.token_5 = value;
    }

    /// Set the construct state's `token_6`.
    pub fn set_token_6(&mut self, value: Name)
        ensures
            final(self)@ == old(self)@.set_token_6(value),
    {
        self.tokenize_state.token_6 = value;
    }

    /// Set `interrupt`.
    pub fn set_interrupt(&mut self, value: bool)
        ensures
            final(self)@ == old(self)@.set_interrupt(value),
    {
        self.interrupt = value;
    }

    /// Set `concrete`.
    pub fn set_concrete(&mut self, value: bool)
        ensures
            final(self)@ == old(self)@.set_concrete(value),
    {
        self.concrete = value;
    }

    /// Replace the container at `index`.
    pub fn set_container(&mut self, index: usize, value: ContainerState)
        requires
            index < old(self)@.ts.document_container_stack.len(),
        ensures
            final(self)@ == old(self)@.set_container(index, value),
    {
        self.tokenize_state.document_container_stack.set(index, value);
    }

    /// Whether the event two before the end exists and carries a link (the
    /// enter of the previous void span that a new one connects to).
    pub fn can_link_back(&self) -> (r: bool)
        ensures
            r == (self@.events.len() >= 2 && self@.events[self@.events.len() - 2].link is Some),
    {
        self.events.len() >= 2 && self.events[self.events.len() - 2].link.is_some()
    }

    /// Whether a byte is one of the markers that stop data.
    pub fn is_marker(&self, byte: u8) -> (r: bool)
        ensures
            r == self@.ts.markers.contains(byte),
    {
        let mut i: usize = 0;
        while i < self.tokenize_state.markers.len()
            invariant
                i <= self.tokenize_state.markers.len(),
                forall|j: int| 0 <= j < i ==> self.tokenize_state.markers@[j] != byte,
            decreases self.tokenize_state.markers.len() - i,
        {
            if self.tokenize_state.markers[i] == byte {
                return true;
            }
            i += 1;
        }
        false
    }

    fn has_resolver(&self, name: ResolveName) -> (r: bool)
        ensures
            r == self@.resolvers.contains(name),
    {
        let mut i: usize = 0;
        while i < self.resolvers.len()
            invariant
                i <= self.resolvers.len(),
                forall|j: int| 0 <= j < i ==> self.resolvers@[j] != name,
            decreases self.resolvers.len() - i,
        {
            if self.resolvers[i] == name {
                return true;
            }
            i += 1;
        }
        false
    }
}


/// Consuming a byte inside the document that is not a tab or a line ending
/// moves one byte and one column further, and remembers the byte that was
/// current.
pub proof fn lemma_consume_moves_one(t: TokenizerView)
    requires
        t.point.index < t.bytes.len(),
        t.bytes.len() <= usize::MAX,
        t.point.column < usize::MAX,
        t.bytes[t.point.index as int] != 9,
        t.bytes[t.point.index as int] != 10,
        t.bytes[t.point.index as int] != 13,
    ensures
        t.consume().point.index == t.point.index + 1,
        t.consume().point.column == t.point.column + 1,
        t.consume().point.line == t.point.line,
        t.consume().point.vs == 0,
        t.consume().previous == t.current,
        t.consume().current is None,
        t.consume().consumed,
        t.consume().events == t.events,
{
    reveal(TokenizerView::moved);
}

/// Consuming a line ending moves to the first column of the next line, past
/// both bytes of `\r\n`.
pub proof fn lemma_consume_line_ending(t: TokenizerView)
    requires
        t.point.index < t.bytes.len(),
        t.bytes.len() <= usize::MAX,
        t.point.line < usize::MAX,
        t.bytes[t.point.index as int] == 10 || t.bytes[t.point.index as int] == 13,
    ensures
        t.consume().point.line == t.point.line + 1,
        t.consume().point.column == 1,
        t.consume().point.vs == 0,
        t.consume().point.index == t.point.index + (if t.bytes[t.point.index as int] == 13
            && t.point.index + 1 < t.bytes.len() && t.bytes[t.point.index + 1] == 10 {
            2int
        } else {
            1int
        }),
{
    reveal(TokenizerView::moved);
}

/// Consuming a tab takes one column; the tokenizer stays on the tab until
/// the next column is a tab stop.
pub proof fn lemma_consume_tab(t: TokenizerView)
    requires
        t.point.index < t.bytes.len(),
        t.bytes.len() <= usize::MAX,
        t.point.column < usize::MAX,
        t.point.vs < usize::MAX,
        t.bytes[t.point.index as int] == 9,
    ensures
        t.consume().point.column == t.point.column + 1,
        t.point.column % TAB_SIZE != 0 ==> t.consume().point.index == t.point.index
            && t.consume().point.vs == t.point.vs + 1,
        t.point.column % TAB_SIZE == 0 ==> t.consume().point.index == t.point.index + 1
            && t.consume().point.vs == 0,
        (t.consume().point.column - 1) % (TAB_SIZE as int) == 0 <==> t.consume().point.index
            == t.point.index + 1,
{
    reveal(TokenizerView::moved);
}

/// A span that is entered and then exited leaves the stack of open spans as
/// it was, and adds an enter and an exit event at the same place.
pub proof fn lemma_enter_exit_balanced(t: TokenizerView, name: Name)
    ensures
        t.enter(name).exit(name).stack == t.stack,
        t.enter(name).exit(name).events == t.events.push(t.enter_event(name, None)).push(
            Event { kind: Kind::Exit, name, point: t.point, link: None },
        ),
{
    reveal(pop_stack);
    assert(t.stack.push(name).drop_last() =~= t.stack);
}

/// An attempt or a check remembers exactly where the tokenizer was, and
/// changes nothing else.
pub proof fn lemma_attempt_records_progress(t: TokenizerView, ok: State, nok: State)
    ensures
        t.attempt(ok, nok).attempts.last().progress == t.capture(),
        t.attempt(ok, nok).attempts.drop_last() == t.attempts,
        t.check(ok, nok).attempts.last().progress == t.capture(),
        t.check(ok, nok).attempts.drop_last() == t.attempts,
        t.attempt(ok, nok).events == t.events,
        t.attempt(ok, nok).point == t.point,
{
    assert(t.attempt(ok, nok).attempts.drop_last() =~= t.attempts);
    assert(t.check(ok, nok).attempts.drop_last() =~= t.attempts);
}

} // verus!
