//! Running the state machine: feed bytes to states, and settle attempts.
//!
//! A state says where to go: `Next` moves to the next byte first, `Retry`
//! stays on this byte.
//! When a state succeeds or fails inside an attempt, the attempt settles:
//! an attempt that succeeded keeps what was parsed, while a failure, or any
//! check, goes back to where the attempt started; then the machine goes on
//! where the attempt says.
//! Outside of attempts, success or failure ends the run.

use vstd::prelude::*;
use crate::state::{call, lemma_call_keeps_input, pre_call, ready, spec_call, State};
use crate::tokenizer::{AttemptKind, Tokenizer, TokenizerView};

verus! {

/// The byte at the current place, `None` at the end; a carriage return is
/// seen as a line feed (`\r\n` is one line ending).
pub open spec fn byte_at(t: TokenizerView) -> Option<u8> {
    if t.point.index < t.bytes.len() {
        if t.bytes[t.point.index as int] == 13 {
            Some(10u8)
        } else {
            Some(t.bytes[t.point.index as int])
        }
    } else {
        None
    }
}

/// Settle the innermost attempt, which succeeded (`ok`) or failed: keep what
/// a successful attempt parsed, otherwise go back to where it started; then
/// go where it says.
pub open spec fn settle(t: TokenizerView, ok: bool) -> (TokenizerView, State) {
    let attempt = t.attempts.last();
    let t1 = TokenizerView { attempts: t.attempts.drop_last(), ..t };
    let t2 = if ok && attempt.kind == AttemptKind::Attempt {
        t1
    } else {
        t1.free(attempt.progress)
    };
    (
        t2,
        if ok {
            attempt.ok
        } else {
            attempt.nok
        },
    )
}

/// One step: move to the next byte, call a state, or settle an attempt.
/// `None` when the run is over: success or failure outside of attempts, or
/// a state that cannot run on this tokenizer.
pub open spec fn spec_step(t: TokenizerView, state: State) -> Option<(TokenizerView, State)> {
    match state {
        State::Next(name) => Some((t.expect(byte_at(t)), State::Retry(name))),
        State::Retry(name) => if pre_call(name, t) {
            Some(spec_call(name, t))
        } else {
            None
        },
        State::Okay => if t.attempts.len() > 0 {
            Some(settle(t, true))
        } else {
            None
        },
        State::Nok => if t.attempts.len() > 0 {
            Some(settle(t, false))
        } else {
            None
        },
    }
}

/// At most `fuel` steps from `state`.
pub open spec fn spec_run(t: TokenizerView, state: State, fuel: nat) -> (TokenizerView, State)
    decreases fuel,
{
    if fuel == 0 {
        (t, state)
    } else {
        match spec_step(t, state) {
            Some((t1, next)) => spec_run(t1, next, (fuel - 1) as nat),
            None => (t, state),
        }
    }
}

/// Settle the innermost attempt.
fn settle_attempt(tokenizer: &mut Tokenizer, ok: bool) -> (r: State)
    requires
        old(tokenizer)@.attempts.len() > 0,
    ensures
        (final(tokenizer)@, r) == settle(old(tokenizer)@, ok),
{
    let ghost t = tokenizer@;
    let attempt = tokenizer.attempts.pop().unwrap();
    assert(tokenizer@ == TokenizerView { attempts: t.attempts.drop_last(), ..t });
    let keep = ok && match attempt.kind {
        AttemptKind::Attempt => true,
        AttemptKind::Check => false,
    };
    if !keep {
        tokenizer.free(attempt.progress);
    }
    if ok {
        attempt.ok
    } else {
        attempt.nok
    }
}

/// The byte at the current place.
fn current_byte(tokenizer: &Tokenizer) -> (r: Option<u8>)
    ensures
        r == byte_at(tokenizer@),
{
    if tokenizer.point.index < tokenizer.parse_state.bytes.len() {
        let byte = tokenizer.parse_state.bytes[tokenizer.point.index];
        if byte == 13 {
            Some(10)
        } else {
            Some(byte)
        }
    } else {
        None
    }
}

/// Run the machine from `state` for at most `fuel` steps; returns where it
/// stopped.
pub fn run(tokenizer: &mut Tokenizer, start: State, steps: usize) -> (r: State)
    ensures
        (final(tokenizer)@, r) == spec_run(old(tokenizer)@, start, steps as nat),
{
    let mut state = start;
    let mut fuel = steps;
    while fuel > 0
        invariant
            spec_run(tokenizer@, state, fuel as nat) == spec_run(old(tokenizer)@, start, steps as nat),
        decreases fuel,
    {
        match state {
            State::Next(name) => {
                let byte = current_byte(tokenizer);
                tokenizer.expect(byte);
                state = State::Retry(name);
            },
            State::Retry(name) => {
                if !ready(tokenizer, name) {
                    return state;
                }
                state = call(tokenizer, name);
            },
            State::Okay => {
                if tokenizer.attempts.len() == 0 {
                    assert(spec_step(tokenizer@, state) is None);
                    assert(spec_run(tokenizer@, state, fuel as nat) == (tokenizer@, state));
                    return state;
                }
                state = settle_attempt(tokenizer, true);
            },
            State::Nok => {
                if tokenizer.attempts.len() == 0 {
                    assert(spec_step(tokenizer@, state) is None);
                    assert(spec_run(tokenizer@, state, fuel as nat) == (tokenizer@, state));
                    return state;
                }
                state = settle_attempt(tokenizer, false);
            },
        }
        fuel = fuel - 1;
    }
    state
}

/// The tokenizer `t` has only added events and open spans since `t0`.
pub open spec fn extends(t: TokenizerView, t0: TokenizerView) -> bool {
    &&& t0.events.len() <= t.events.len()
    &&& t.events.take(t0.events.len() as int) == t0.events
    &&& t0.stack.len() <= t.stack.len()
    &&& t.stack.take(t0.stack.len() as int) == t0.stack
}

/// An attempt that fails, and a check whatever its outcome, goes back to
/// where it started: the events, the open spans, the place and the bytes
/// are those of then (when only events and spans were added since), and the
/// machine goes where the attempt says.
pub proof fn lemma_settle_goes_back(t0: TokenizerView, t: TokenizerView, ok: bool)
    requires
        t.attempts.len() > 0,
        t.attempts.last().progress == t0.capture(),
        extends(t, t0),
        t0.events.len() <= usize::MAX,
        t0.stack.len() <= usize::MAX,
        !ok || t.attempts.last().kind == AttemptKind::Check,
    ensures
        settle(t, ok).0.events == t0.events,
        settle(t, ok).0.stack == t0.stack,
        settle(t, ok).0.point == t0.point,
        settle(t, ok).0.current == t0.current,
        settle(t, ok).0.previous == t0.previous,
        settle(t, ok).0.attempts == t.attempts.drop_last(),
        settle(t, ok).1 == (if ok {
            t.attempts.last().ok
        } else {
            t.attempts.last().nok
        }),
{
}

/// An attempt that succeeds keeps everything that was parsed, and the
/// machine goes where the attempt says.
pub proof fn lemma_settle_keeps(t: TokenizerView)
    requires
        t.attempts.len() > 0,
        t.attempts.last().kind == AttemptKind::Attempt,
    ensures
        settle(t, true).0 == (TokenizerView { attempts: t.attempts.drop_last(), ..t }),
        settle(t, true).1 == t.attempts.last().ok,
{
}

/// A run that is over stays over: more steps change nothing.
pub proof fn lemma_run_over(t: TokenizerView, state: State, fuel: nat)
    requires
        spec_step(t, state) is None,
    ensures
        spec_run(t, state, fuel) == (t, state),
{
}

/// Running `a + b` steps is running `a` steps, then `b` more from where
/// that stopped.
pub proof fn lemma_run_in_two(t: TokenizerView, state: State, a: nat, b: nat)
    ensures
        spec_run(t, state, a + b) == spec_run(spec_run(t, state, a).0, spec_run(t, state, a).1, b),
    decreases a,
{
    if a > 0 {
        match spec_step(t, state) {
            Some((t1, next)) => {
                lemma_run_in_two(t1, next, (a - 1) as nat, b);
                assert((a + b - 1) as nat == ((a - 1) as nat + b) as nat);
            },
            None => {
                lemma_run_over(t, state, b);
            },
        }
    }
}

/// A run never changes the document, the options it parses with, or the
/// known definitions.
pub proof fn lemma_run_keeps_input(t: TokenizerView, state: State, fuel: nat)
    ensures
        spec_run(t, state, fuel).0.bytes == t.bytes,
        spec_run(t, state, fuel).0.options == t.options,
        spec_run(t, state, fuel).0.definitions == t.definitions,
        spec_run(t, state, fuel).0.gfm_footnote_definitions == t.gfm_footnote_definitions,
    decreases fuel,
{
    if fuel > 0 {
        match spec_step(t, state) {
            Some((t1, next)) => {
                if let State::Retry(name) = state {
                    lemma_call_keeps_input(name, t);
                }
                lemma_run_keeps_input(t1, next, (fuel - 1) as nat);
            },
            None => {},
        }
    }
}

} // verus!
