//! The document content type.
//!
//! **Document** represents the containers, such as block quotes and lists,
//! which structure the document and contain other sections.
//!
//! The constructs found in document are block quote, list item, and GFM
//! footnote definition.
//!
//! Each line first continues the containers that are open, in order; then
//! new containers may start; what is left of the line is flow.

use vstd::prelude::*;
use crate::event::Name;
use crate::state::{Name as StateName, State};
use crate::tokenizer::{Container, ContainerState, Tokenizer, TokenizerView, TokenizeStateView};

verus! {

/// The state that continues an open container of `kind`.
pub open spec fn cont_start(kind: Container) -> StateName {
    match kind {
        Container::BlockQuote => StateName::BlockQuoteContStart,
        Container::ListItem => StateName::ListItemContStart,
        Container::GfmFootnoteDefinition => StateName::GfmFootnoteDefinitionContStart,
    }
}

/// Before existing containers: while there are open containers left, try
/// to continue the next one; then look for new ones.
pub open spec fn spec_container_existing_before(t: TokenizerView) -> (TokenizerView, State) {
    if t.ts.document_continued < t.ts.document_container_stack.len() {
        let container = t.ts.document_container_stack[t.ts.document_continued as int];
        (
            t.attempt(
                State::Next(StateName::DocumentContainerExistingAfter),
                State::Next(StateName::DocumentContainerNewBefore),
            ),
            State::Retry(cont_start(container.kind)),
        )
    } else {
        (t, State::Retry(StateName::DocumentContainerNewBefore))
    }
}

/// Before existing containers.
///
/// ```markdown
///   | * a
/// > | > b
///     ^
/// ```
pub fn container_existing_before(tokenizer: &mut Tokenizer) -> (r: State)
    ensures
        (final(tokenizer)@, r) == spec_container_existing_before(old(tokenizer)@),
{
    // If there are more existing containers, check whether the next one continues.
    if tokenizer.tokenize_state.document_continued
        < tokenizer.tokenize_state.document_container_stack.len() {
        let container =
            tokenizer.tokenize_state.document_container_stack[tokenizer.tokenize_state.document_continued];
        tokenizer.attempt(
            State::Next(StateName::DocumentContainerExistingAfter),
            State::Next(StateName::DocumentContainerNewBefore),
        );
        State::Retry(
            match container.kind {
                Container::BlockQuote => StateName::BlockQuoteContStart,
                Container::ListItem => StateName::ListItemContStart,
                Container::GfmFootnoteDefinition => StateName::GfmFootnoteDefinitionContStart,
            },
        )
    } else {
        // Otherwise, check new containers.
        State::Retry(StateName::DocumentContainerNewBefore)
    }
}

/// What `container_existing_after` needs: one more continued container can
/// be counted.
pub open spec fn pre_container_existing_after(t: TokenizerView) -> bool {
    t.ts.document_continued < usize::MAX
}

/// Whether `container_existing_after` can run.
pub fn can_container_existing_after(tokenizer: &Tokenizer) -> (r: bool)
    ensures
        r == pre_container_existing_after(tokenizer@),
{
    tokenizer.tokenize_state.document_continued < usize::MAX
}

/// After an existing container: count it, and go on with the next one.
pub open spec fn spec_container_existing_after(t: TokenizerView) -> (TokenizerView, State) {
    (
        t.with_ts(
            TokenizeStateView {
                document_continued: (t.ts.document_continued + 1) as usize,
                ..t.ts
            },
        ),
        State::Retry(StateName::DocumentContainerExistingBefore),
    )
}

/// After an existing container.
///
/// ```markdown
///   | * a
/// > |   b
///       ^
/// ```
pub fn container_existing_after(tokenizer: &mut Tokenizer) -> (r: State)
    requires
        pre_container_existing_after(old(tokenizer)@),
    ensures
        (final(tokenizer)@, r) == spec_container_existing_after(old(tokenizer)@),
{
    tokenizer.tokenize_state.document_continued = tokenizer.tokenize_state.document_continued + 1;
    State::Retry(StateName::DocumentContainerExistingBefore)
}

/// What `container_new_before_not_block_quote` and
/// `container_new_before_not_list` need: the new container in the middle of
/// the stack, at the count of continued containers.
pub open spec fn pre_container_new_middle(t: TokenizerView) -> bool {
    t.ts.document_continued < t.ts.document_container_stack.len()
}

/// Whether `container_new_before_not_block_quote` or
/// `container_new_before_not_list` can run.
pub fn can_container_new_middle(tokenizer: &Tokenizer) -> (r: bool)
    ensures
        r == pre_container_new_middle(tokenizer@),
{
    tokenizer.tokenize_state.document_continued
        < tokenizer.tokenize_state.document_container_stack.len()
}

/// A new list item container, with nothing known about it yet.
pub open spec fn new_list_item() -> ContainerState {
    ContainerState { kind: Container::ListItem, blank_initial: false, size: 0 }
}

/// Not a block quote: the new container becomes a list item, which is
/// tried.
pub open spec fn spec_container_new_before_not_block_quote(t: TokenizerView) -> (
    TokenizerView,
    State,
) {
    (
        t.set_container(t.ts.document_continued, new_list_item()).attempt(
            State::Next(StateName::DocumentContainerNewAfter),
            State::Next(StateName::DocumentContainerNewBeforeNotList),
        ),
        State::Retry(StateName::ListItemStart),
    )
}

/// Maybe before a new container, but not a block quote.
///
/// ```markdown
/// > | * a
///     ^
/// ```
pub fn container_new_before_not_block_quote(tokenizer: &mut Tokenizer) -> (r: State)
    requires
        pre_container_new_middle(old(tokenizer)@),
    ensures
        (final(tokenizer)@, r) == spec_container_new_before_not_block_quote(old(tokenizer)@),
{
    // List item?
    // We replace the empty block quote container for this new list one.
    let continued = tokenizer.tokenize_state.document_continued;
    tokenizer.set_container(
        continued,
        ContainerState { kind: Container::ListItem, blank_initial: false, size: 0 },
    );
    tokenizer.attempt(
        State::Next(StateName::DocumentContainerNewAfter),
        State::Next(StateName::DocumentContainerNewBeforeNotList),
    );
    State::Retry(StateName::ListItemStart)
}

/// The stack with the container at `index` taken out, and the last one put
/// in its place.
pub open spec fn swap_remove(stack: Seq<ContainerState>, index: int) -> Seq<ContainerState> {
    stack.update(index, stack.last()).drop_last()
}

/// Not a list either: drop the new container in the middle of the stack,
/// putting the last existing one back in its place; go on after the
/// containers.
pub open spec fn spec_container_new_before_not_list(t: TokenizerView) -> (TokenizerView, State) {
    (
        t.with_ts(
            TokenizeStateView {
                document_container_stack: swap_remove(
                    t.ts.document_container_stack,
                    t.ts.document_continued as int,
                ),
                ..t.ts
            },
        ),
        State::Retry(StateName::DocumentContainersAfter),
    )
}

/// Maybe before a new container, but not a list.
///
/// ```markdown
/// > | a
///     ^
/// ```
pub fn container_new_before_not_list(tokenizer: &mut Tokenizer) -> (r: State)
    requires
        pre_container_new_middle(old(tokenizer)@),
    ensures
        (final(tokenizer)@, r) == spec_container_new_before_not_list(old(tokenizer)@),
{
    // It wasn’t a new block quote or a list.
    // Swap the new container (in the middle) with the existing one (at the end).
    // Drop what was in the middle.
    let continued = tokenizer.tokenize_state.document_continued;
    let ghost before = tokenizer.tokenize_state.document_container_stack@;
    tokenizer.tokenize_state.document_container_stack.swap_remove(continued);
    assert(tokenizer.tokenize_state.document_container_stack@ =~= swap_remove(
        before,
        continued as int,
    ));
    State::Retry(StateName::DocumentContainersAfter)
}

/// In flow: take bytes up to and including the line ending, and end the
/// data there; at the end, end the data.
pub open spec fn spec_flow_inside(t: TokenizerView) -> (TokenizerView, State) {
    match t.current {
        None => (t.exit(Name::Data), State::Retry(StateName::DocumentFlowEnd)),
        Some(byte) => if byte == 10 {
            (t.consume().exit(Name::Data), State::Next(StateName::DocumentFlowEnd))
        } else {
            (t.consume(), State::Next(StateName::DocumentFlowInside))
        },
    }
}

/// In flow.
///
/// ```markdown
/// > | * ab
///       ^
/// ```
pub fn flow_inside(tokenizer: &mut Tokenizer) -> (r: State)
    ensures
        (final(tokenizer)@, r) == spec_flow_inside(old(tokenizer)@),
{
    match tokenizer.current {
        None => {
            tokenizer.exit(Name::Data);
            State::Retry(StateName::DocumentFlowEnd)
        },
        // Note: EOL is part of data.
        Some(10) => {
            tokenizer.consume();
            tokenizer.exit(Name::Data);
            State::Next(StateName::DocumentFlowEnd)
        },
        Some(_) => {
            tokenizer.consume();
            State::Next(StateName::DocumentFlowInside)
        },
    }
}

} // verus!
