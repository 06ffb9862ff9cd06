//! The frame sequence counter: one step per frame produced, wrapping from
//! 255 back to 0.

use vstd::prelude::*;

verus! {

/// Counts the frames produced. It is owned by whoever encodes the frames and
/// handed to the encoder by exclusive reference, so two frames never share a
/// step.
#[derive(Clone, Copy, Debug)]
pub struct SequenceCounter {
    value: u8,
}

/// The number that follows `value`: one more, and 0 after 255.
pub open spec fn sequence_after(value: u8) -> u8 {
    if value == 255 {
        0
    } else {
        (value + 1) as u8
    }
}

/// The number reached from `value` after `steps` steps.
pub open spec fn sequence_after_steps(value: u8, steps: nat) -> u8
    decreases steps,
{
    if steps == 0 {
        value
    } else {
        sequence_after(sequence_after_steps(value, (steps - 1) as nat))
    }
}

impl SequenceCounter {
    /// The number handed out last; 0 before any was.
    pub closed spec fn last(&self) -> u8 {
        self.value
    }

    /// A fresh counter. The first number it hands out is 1.
    pub fn new() -> (counter: Self)
        ensures
            counter.last() == 0,
    {
        SequenceCounter { value: 0 }
    }

    /// The number handed out last, 0 on a fresh counter.
    pub fn current(&self) -> (value: u8)
        ensures
            value == self.last(),
    {
        self.value
    }

    /// Steps the counter and returns the new number.
    pub fn next(&mut self) -> (number: u8)
        ensures
            number == sequence_after(old(self).last()),
            final(self).last() == number,
    {
        self.value = self.value.wrapping_add(1);
        self.value
    }
}

/// Steps a counter once. This is `SequenceCounter::next` under the name the
/// frame encoders know it by.
pub fn get_next_sequence_number(counter: &mut SequenceCounter) -> (number: u8)
    ensures
        number == sequence_after(old(counter).last()),
        final(counter).last() == number,
{
    counter.next()
}

/// After `steps` steps a counter that started at `value` stands at
/// `value + steps` modulo 256.
pub proof fn sequence_steps_modulo(value: u8, steps: nat)
    ensures
        sequence_after_steps(value, steps) == (value + steps) % 256,
    decreases steps,
{
    if steps > 0 {
        sequence_steps_modulo(value, (steps - 1) as nat);
    }
}

/// A fresh counter hands out 1, 2, ..., 255, then 0, and starts over: the
/// number handed out by call `call` (counted from 1) is `call` modulo 256.
/// So call 256 gives 0 and call 257 gives 1 again.
pub proof fn sequence_wraps(call: nat)
    ensures
        sequence_after_steps(0, call) == call % 256,
        1 <= call <= 255 ==> sequence_after_steps(0, call) == call,
        sequence_after_steps(0, 256) == 0,
        sequence_after_steps(0, 257) == 1,
        sequence_after_steps(0, call + 256) == sequence_after_steps(0, call),
{
    sequence_steps_modulo(0, call);
    sequence_steps_modulo(0, 256);
    sequence_steps_modulo(0, 257);
    sequence_steps_modulo(0, call + 256);
}

} // verus!
