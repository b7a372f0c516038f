//! Byte order mark occurs at the start of the document.
//!
//! ```bnf
//! byte_order_mark ::= 0xEF 0xBB 0xBF
//! ```

use vstd::prelude::*;
use crate::event::Name;
use crate::state::{Name as StateName, State};
use crate::tokenizer::{Tokenizer, TokenizerView, TokenizeStateView};

verus! {

/// The bytes of a byte order mark.
pub open spec fn bom_byte(i: usize) -> u8 {
    if i == 0 {
        0xEF
    } else if i == 1 {
        0xBB
    } else {
        0xBF
    }
}

/// The byte of a byte order mark at `i` (below `3`).
fn bom(i: usize) -> (r: u8)
    requires
        i < 3,
    ensures
        r == bom_byte(i),
{
    if i == 0 {
        0xEF
    } else if i == 1 {
        0xBB
    } else {
        0xBF
    }
}

/// Before the mark: enter it when its first byte is here.
pub open spec fn spec_start(t: TokenizerView) -> (TokenizerView, State) {
    if t.current == Some(bom_byte(0)) {
        (t.enter(Name::ByteOrderMark), State::Retry(StateName::BomInside))
    } else {
        (t, State::Nok)
    }
}

/// Before BOM.
///
/// ```text
/// > | 0xEF 0xBB 0xBF
///     ^^^^
/// ```
pub fn start(tokenizer: &mut Tokenizer) -> (r: State)
    ensures
        (final(tokenizer)@, r) == spec_start(old(tokenizer)@),
{
    if tokenizer.current == Some(bom(0)) {
        tokenizer.enter(Name::ByteOrderMark);
        State::Retry(StateName::BomInside)
    } else {
        State::Nok
    }
}

/// What `inside` needs: the count of bytes seen is below three.
pub open spec fn pre_inside(t: TokenizerView) -> bool {
    t.ts.size < 3
}

/// Inside the mark: take its bytes in order.
pub open spec fn spec_inside(t: TokenizerView) -> (TokenizerView, State) {
    if t.current == Some(bom_byte(t.ts.size)) {
        let size = (t.ts.size + 1) as usize;
        let t1 = t.with_ts(TokenizeStateView { size, ..t.ts }).consume();
        if size == 3 {
            (
                t1.exit(Name::ByteOrderMark).with_ts(TokenizeStateView { size: 0, ..t1.ts }),
                State::Okay,
            )
        } else {
            (t1, State::Next(StateName::BomInside))
        }
    } else {
        (t.with_ts(TokenizeStateView { size: 0, ..t.ts }), State::Nok)
    }
}

/// Inside BOM.
///
/// ```text
/// > | 0xEF 0xBB 0xBF
///     ^^^^ ^^^^ ^^^^
/// ```
pub fn inside(tokenizer: &mut Tokenizer) -> (r: State)
    requires
        pre_inside(old(tokenizer)@),
    ensures
        (final(tokenizer)@, r) == spec_inside(old(tokenizer)@),
{
    if tokenizer.current == Some(bom(tokenizer.tokenize_state.size)) {
        tokenizer.tokenize_state.size = tokenizer.tokenize_state.size + 1;
        tokenizer.consume();
        if tokenizer.tokenize_state.size == 3 {
            tokenizer.exit(Name::ByteOrderMark);
            tokenizer.tokenize_state.size = 0;
            State::Okay
        } else {
            State::Next(StateName::BomInside)
        }
    } else {
        tokenizer.tokenize_state.size = 0;
        State::Nok
    }
}

/// Whether `inside` can run.
pub fn can_inside(tokenizer: &Tokenizer) -> (r: bool)
    ensures
        r == pre_inside(tokenizer@),
{
    tokenizer.tokenize_state.size < 3
}

} // verus!
