//! Configuration of the parser: which constructs are turned on.

use vstd::prelude::*;

verus! {

/// Which constructs are turned on.
///
/// The constructs listed here are those that the tokenizer of this crate
/// runs.
#[derive(Clone, Copy, Debug, PartialEq, Eq, Structural)]
pub struct Constructs {
    /// Code (fenced).
    pub code_fenced: bool,
    /// Code (indented).
    pub code_indented: bool,
    /// Code (text).
    pub code_text: bool,
    /// Hard break (trailing).
    pub hard_break_trailing: bool,
    /// List item.
    pub list_item: bool,
    /// Math (flow).
    pub math_flow: bool,
    /// Math (text).
    pub math_text: bool,
    /// MDX: ESM.
    pub mdx_esm: bool,
    /// MDX: expression (flow).
    pub mdx_expression_flow: bool,
    /// MDX: expression (text).
    pub mdx_expression_text: bool,
    /// MDX: JSX (flow).
    pub mdx_jsx_flow: bool,
    /// MDX: JSX (text).
    pub mdx_jsx_text: bool,
    /// Thematic break.
    pub thematic_break: bool,
}

impl Default for Constructs {
    /// `CommonMark`: everything but math and MDX.
    fn default() -> (r: Self)
        ensures
            r == (Constructs {
                code_fenced: true,
                code_indented: true,
                code_text: true,
                hard_break_trailing: true,
                list_item: true,
                math_flow: false,
                math_text: false,
                mdx_esm: false,
                mdx_expression_flow: false,
                mdx_expression_text: false,
                mdx_jsx_flow: false,
                mdx_jsx_text: false,
                thematic_break: true,
            }),
    {
        Constructs {
            code_fenced: true,
            code_indented: true,
            code_text: true,
            hard_break_trailing: true,
            list_item: true,
            math_flow: false,
            math_text: false,
            mdx_esm: false,
            mdx_expression_flow: false,
            mdx_expression_text: false,
            mdx_jsx_flow: false,
            mdx_jsx_text: false,
            thematic_break: true,
        }
    }
}

/// Configuration that describes how to parse from markdown.
#[derive(Clone, Copy, Debug, PartialEq, Eq, Structural)]
pub struct ParseOptions {
    /// Which constructs to enable.
    pub constructs: Constructs,
    /// Whether to support math (text) with a single dollar.
    pub math_text_single_dollar: bool,
    /// Whether a parser for MDX ESM is configured.
    ///
    /// The parser is a function of the user, called outside of the states;
    /// the states only ask whether there is one.
    pub mdx_esm_parse: bool,
    /// Whether a parser for MDX expressions is configured.
    ///
    /// The parser is a function of the user, called outside of the states;
    /// the states only ask whether there is one.
    pub mdx_expression_parse: bool,
}

impl Default for ParseOptions {
    /// `CommonMark` defaults.
    fn default() -> (r: Self)
        ensures
            r.constructs == (Constructs {
                code_fenced: true,
                code_indented: true,
                code_text: true,
                hard_break_trailing: true,
                list_item: true,
                math_flow: false,
                math_text: false,
                mdx_esm: false,
                mdx_expression_flow: false,
                mdx_expression_text: false,
                mdx_jsx_flow: false,
                mdx_jsx_text: false,
                thematic_break: true,
            }),
            r.math_text_single_dollar,
            !r.mdx_esm_parse,
            !r.mdx_expression_parse,
    {
        ParseOptions {
            constructs: Constructs::default(),
            math_text_single_dollar: true,
            mdx_esm_parse: false,
            mdx_expression_parse: false,
        }
    }
}

} // verus!
