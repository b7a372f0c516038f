//! Markdown parsing machinery with a verified core: the syntax tree
//! (`mdast`), positional info (`unist`), events and the tokenizer state
//! machine, and the constructs that drive it.

pub mod error;
pub mod message;
pub mod unist;
pub mod util;
pub mod mdast;
pub mod to_markdown;
pub mod event;
pub mod token;
pub mod resolve;
pub mod configuration;
pub mod parser;
pub mod state;
pub mod tokenizer;
pub mod subtokenize;
pub mod construct;
pub mod machine;
