# markdown

Markdown parsing machinery whose core is verified with Verus.

- `src/mdast.rs`, `src/unist.rs`: the syntax tree and positional info, with
  the `Debug` text, `to_string`, and the accessors of children and positions,
  each stated exactly over a mathematical model.
- `src/to_markdown.rs`: serializing a tree of paragraphs and phrasing back to
  markdown.
- `src/event.rs`, `src/tokenizer.rs`, `src/state.rs`: events, the tokenizer
  and its operations (enter, exit, consume, attempts), and the names of the
  states of the state machine, with `call`, which runs a state.
- `src/construct/`: the constructs: each state is a function whose contract
  gives the exact next tokenizer and the state to go to; `document.rs` holds
  the container states that continue open containers, replace or drop a new
  one, and take a line of flow.
- `src/token.rs`: the closed list of semantic labels of spans.
- `src/subtokenize.rs`: linking events, and dividing the events of a child
  tokenizer over the linked chunks they came from (`divide_events`), with
  the links between them shifted to where they will stand.
- `src/util/edit_map.rs`: edits to events, gathered and then applied
  together, with links moved along with the events they point at.
- `src/resolve.rs` and the resolvers: trimming whitespace off data
  (`partial_whitespace`), merging adjacent data (`partial_data`), and
  wrapping list items into lists (`list_item`).
- `src/machine.rs`: running the state machine on a document, settling
  attempts; with laws about attempts and runs.
- `src/error.rs`: the errors of parsing, compiling, and serializing to JSON
  (which carries the error of `serde_json`).
- `app/`: the error type with `std::error::Error`, through `thiserror`.

The tests are under `tests/`.
