use vstd::prelude::*;
use crate::input::{
    ends_in_run, is_trigger, InputStateView, TypingMethod, MAX_POSSIBLE_WORD_LENGTH,
};

verus! {

/// With transformation switched off, no keystroke is a transformation key,
/// whatever the method.
pub proof fn disabled_never_triggers(method: TypingMethod, c: char)
    ensures
        !is_trigger(false, method, c),
{
}

/// A push onto a non-empty buffer that the push accepts without abandoning
/// the word, followed by a pop, gives the buffer back as it was; the pop
/// leaves what is on screen alone.
pub proof fn push_then_pop_restores(v: InputStateView, c: char)
    requires
        v.buffer.len() > 0,
        v.buffer.len() < MAX_POSSIBLE_WORD_LENGTH,
        !ends_in_run(v.buffer.push(c)),
    ensures
        v.pushed(c).popped().buffer == v.buffer,
        v.pushed(c).popped().display == v.pushed(c).display,
{
    assert(v.buffer.push(c).drop_last() =~= v.buffer);
}

/// Whatever came before, a fresh word has an empty buffer and is tracked.
pub proof fn fresh_word_is_empty_and_tracked(v: InputStateView)
    ensures
        v.fresh_word().buffer.len() == 0,
        v.fresh_word().tracking,
{
}

/// An abandoned word leaves an empty buffer and no tracking.
pub proof fn stopped_is_empty_and_untracked(v: InputStateView)
    ensures
        v.stopped().buffer.len() == 0,
        !v.stopped().tracking,
{
}

/// Pushing the same character four times in a row stops tracking, provided
/// the buffer has room to accept all four.
pub proof fn four_repeats_stop_tracking(v: InputStateView, c: char)
    requires
        v.buffer.len() + 4 <= MAX_POSSIBLE_WORD_LENGTH,
    ensures
        !v.pushed(c).pushed(c).pushed(c).pushed(c).tracking,
{
    let v1 = v.pushed(c);
    let v2 = v1.pushed(c);
    let v3 = v2.pushed(c);
    let v4 = v3.pushed(c);
    if v1.tracking && v2.tracking && v3.tracking {
        // no push so far abandoned the word, so the buffer ends in c, c, c
        assert(v3.buffer == v.buffer.push(c).push(c).push(c));
        let b = v3.buffer.push(c);
        assert(b.len() >= 4);
        assert forall|i: int| b.len() - 4 <= i < b.len() implies #[trigger] b[i] == b[b.len()
            - 4] by {}
        assert(ends_in_run(b));
    }
}

/// A push never takes the buffer past the word-length limit; on a full buffer
/// the keystroke is dropped and nothing changes.
pub proof fn push_respects_length_limit(v: InputStateView, c: char)
    requires
        v.wf(),
    ensures
        v.pushed(c).wf(),
        v.pushed(c).buffer.len() <= MAX_POSSIBLE_WORD_LENGTH,
        v.buffer.len() == MAX_POSSIBLE_WORD_LENGTH ==> v.pushed(c) == v,
{
}

} // verus!
