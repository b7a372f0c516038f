//! Constructs found in markdown: each is a set of states of the tokenizer.

pub mod partial_space_or_tab;
pub mod partial_space_or_tab_eol;
pub mod thematic_break;
pub mod partial_bom;
pub mod partial_non_lazy_continuation;
pub mod blank_line;
pub mod partial_data;
pub mod paragraph;
pub mod raw_text;
pub mod partial_destination;
pub mod partial_label;
pub mod partial_title;
pub mod raw_flow;
pub mod list_item;
pub mod text;
pub mod mdx_esm;
pub mod mdx_expression_flow;
pub mod mdx_expression_text;
pub mod mdx_jsx_flow;
pub mod mdx_jsx_text;
pub mod partial_mdx_expression;
pub mod flow;
pub mod string;
pub mod partial_whitespace;
pub mod document;
