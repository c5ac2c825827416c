//! A counter that answers each button click with its new value.

use vstd::prelude::*;

verus! {

/// A pair of flags carried along by the sample signals.
#[derive(Debug, Clone, Copy, PartialEq, Eq, Structural)]
pub struct SampleSchema {
    pub sample_field_one: bool,
    pub sample_field_two: bool,
}

/// Request: a button was clicked.
#[derive(Debug)]
pub struct SampleNumberInput {
    pub letter: String,
    pub dummy_one: u32,
    pub dummy_two: SampleSchema,
    pub dummy_three: Vec<i32>,
}

/// Event: the counter's new value.
#[derive(Debug)]
pub struct SampleNumberOutput {
    pub current_number: i32,
    pub dummy_one: u32,
    pub dummy_two: Option<SampleSchema>,
    pub dummy_three: Vec<i32>,
}

/// By how much one click raises the counter.
pub const CLICK_STEP: i32 = 7;

/// The actor that counts button clicks.
#[derive(Debug)]
pub struct CountingActor {
    count: i32,
}

impl CountingActor {
    /// The counter's value.
    pub closed spec fn value(&self) -> int {
        self.count as int
    }

    /// A counter at zero.
    pub fn new() -> (actor: Self)
        ensures
            actor.value() == 0,
    {
        CountingActor { count: 0 }
    }

    /// The counter's value.
    pub fn count(&self) -> (n: i32)
        ensures
            n == self.value(),
    {
        self.count
    }

    /// Takes one click: raises the counter by `CLICK_STEP` and answers with
    /// its new value and the fixed sample fields.
    pub fn notify(&mut self, msg: &SampleNumberInput) -> (out: SampleNumberOutput)
        requires
            old(self).value() + CLICK_STEP <= i32::MAX,
        ensures
            final(self).value() == old(self).value() + CLICK_STEP,
            out.current_number == final(self).value(),
            out.dummy_one == 11,
            out.dummy_two is None,
            out.dummy_three@ == seq![22i32, 33i32, 44i32, 55i32],
    {
        self.count = self.count + CLICK_STEP;
        let mut three: Vec<i32> = Vec::new();
        three.push(22);
        three.push(33);
        three.push(44);
        three.push(55);
        assert(three@ =~= seq![22i32, 33i32, 44i32, 55i32]);
        SampleNumberOutput {
            current_number: self.count,
            dummy_one: 11,
            dummy_two: None,
            dummy_three: three,
        }
    }
}

} // verus!
