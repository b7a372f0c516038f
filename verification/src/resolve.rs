//! Names of resolvers.

use vstd::prelude::*;
use crate::construct::partial_whitespace::{pre_resolve_whitespace, spec_resolve_whitespace};
use crate::construct::{list_item, partial_data, string, text};
use crate::message::Message;
use crate::subtokenize::Subresult;
use crate::tokenizer::{Tokenizer, TokenizerView};

verus! {

/// Names of resolvers.
#[derive(Clone, Copy, Debug, Eq, PartialEq, Structural)]
pub enum Name {
    /// Resolve labels: merge starts and ends into media, or turn them into
    /// data.
    Label,
    /// Resolve attention: match sequences into emphasis and strong, or turn
    /// them into data.
    Attention,
    /// Resolve GFM tables.
    GfmTable,
    /// Resolve heading (atx).
    HeadingAtx,
    /// Resolve heading (setext).
    HeadingSetext,
    /// Resolve list item: wrap items into ordered or unordered lists.
    ListItem,
    /// Resolve content.
    Content,
    /// Resolve data: merge adjacent data.
    Data,
    /// Resolve whitespace in `string`.
    String,
    /// Resolve whitespace in `text`.
    Text,
}

/// What the resolver named `name` does to the tokenizer.
///
/// Resolvers of constructs that are not part of this library cannot be
/// called (see `pre_call`); for them this is the tokenizer unchanged.
pub open spec fn spec_call(name: Name, t: TokenizerView) -> TokenizerView {
    match name {
        Name::ListItem => list_item::spec_wrap_lists(t),
        Name::Data => partial_data::spec_resolve(t),
        Name::String => spec_resolve_whitespace(t, false, false),
        Name::Text => spec_resolve_whitespace(t, t.options.constructs.hard_break_trailing, true),
        _ => t,
    }
}

/// What the resolver named `name` needs: it is one of this library's
/// (list item, data, string, text), and its own requirement holds.
pub open spec fn pre_call(name: Name, t: TokenizerView) -> bool {
    match name {
        Name::ListItem => list_item::pre_resolve(t),
        Name::Data => partial_data::pre_resolve(t),
        Name::String => pre_resolve_whitespace(t, false, false),
        Name::Text => pre_resolve_whitespace(t, t.options.constructs.hard_break_trailing, true),
        _ => false,
    }
}

/// Call the corresponding resolver.
pub fn call(tokenizer: &mut Tokenizer, name: Name) -> (r: Result<Option<Subresult>, Message>)
    requires
        pre_call(name, old(tokenizer)@),
    ensures
        r matches Ok(None),
        final(tokenizer)@ == spec_call(name, old(tokenizer)@),
{
    let result = match name {
        Name::ListItem => list_item::resolve(tokenizer),
        Name::Data => partial_data::resolve(tokenizer),
        Name::String => {
            string::resolve(tokenizer);
            None
        },
        Name::Text => {
            text::resolve(tokenizer);
            None
        },
        _ => None,
    };
    Ok(result)
}

} // verus!
