//! The pacing loop's decisions: after each instruction, whether the core runs
//! on or the frame is flushed, and which refresh-rate components take part.
//!
//! The loop itself belongs to the host: it steps the core, reports whether
//! the sample buffer is complete, performs what [`run`] answers and, after a
//! refresh, waits for the audio scheduler before it steps the core again.

use vstd::prelude::*;

verus! {

/// Input and the side panel take part in every `INPUT_DIVISOR`-th refresh.
pub const INPUT_DIVISOR: u8 = 2;

/// The refresh-rate components that take part in one refresh.
#[derive(Clone, Copy, Debug, PartialEq, Eq, Structural)]
pub struct Refresh {
    /// The video renderer draws the frame.
    pub video: bool,
    /// The input arbiter reads the pointer and, when it is due, the wheel.
    pub input: bool,
    /// The side panel shows the registers.
    pub side_panel: bool,
    /// The audio scheduler takes the sample buffer; the loop then waits on
    /// it.
    pub audio: bool,
}

/// What the pacing loop does next.
#[derive(Clone, Copy, Debug, PartialEq, Eq, Structural)]
pub enum Action {
    /// Run another instruction.
    Step,
    /// The frame is over: run these components, then go on stepping.
    Flush(Refresh),
}

/// The components of the refresh that brings the count of refreshes to
/// `count`: video and audio always, input and the side panel on a multiple
/// of [`INPUT_DIVISOR`].
pub open spec fn refresh_at(count: nat) -> Refresh {
    Refresh {
        video: true,
        input: count % (INPUT_DIVISOR as nat) == 0,
        side_panel: count % (INPUT_DIVISOR as nat) == 0,
        audio: true,
    }
}

/// The count of refreshes kept after the refresh that brought it to
/// `count`: it starts over on a multiple of [`INPUT_DIVISOR`].
pub open spec fn count_after(count: nat) -> nat {
    if count % (INPUT_DIVISOR as nat) == 0 {
        0
    } else {
        count
    }
}

/// The loop's answer to an instruction that left the sample buffer complete
/// (`buffer_full`) or not, with `count` refreshes counted so far.
pub open spec fn action_after(count: nat, buffer_full: bool) -> Action {
    if buffer_full {
        Action::Flush(refresh_at(count + 1))
    } else {
        Action::Step
    }
}

/// The count of refreshes after that instruction.
pub open spec fn count_after_instruction(count: nat, buffer_full: bool) -> nat {
    if buffer_full {
        count_after(count + 1)
    } else {
        count
    }
}

/// The pacing loop's memory: refreshes counted since input last took part.
#[derive(Clone, Copy, Debug)]
pub struct Pacing {
    refresh_count: u8,
}

impl View for Pacing {
    type V = nat;

    closed spec fn view(&self) -> nat {
        self.refresh_count as nat
    }
}

impl Pacing {
    #[verifier::type_invariant]
    spec fn counts_below_divisor(self) -> bool {
        self.refresh_count < INPUT_DIVISOR
    }

    /// The state before the first frame.
    pub fn new() -> (pacing: Self)
        ensures
            pacing@ == 0,
    {
        Pacing { refresh_count: 0 }
    }

    /// Refreshes counted since input last took part; always below
    /// [`INPUT_DIVISOR`].
    pub fn refresh_count(&self) -> (count: u8)
        ensures
            count == self@,
            count < INPUT_DIVISOR,
    {
        proof {
            use_type_invariant(self);
        }
        self.refresh_count
    }
}

/// One decision of the pacing loop. `buffer_full` says whether the
/// instruction just run left the sample buffer complete. While it did not,
/// the core runs on; once it did, the frame is flushed.
pub fn run(pacing: Pacing, buffer_full: bool) -> (next: (Pacing, Action))
    ensures
        next.0@ == count_after_instruction(pacing@, buffer_full),
        next.1 == action_after(pacing@, buffer_full),
{
    proof {
        use_type_invariant(&pacing);
    }
    if !buffer_full {
        return (pacing, Action::Step);
    }
    let refresh_count: u8 = pacing.refresh_count + 1;
    if refresh_count % INPUT_DIVISOR == 0 {
        (
            Pacing { refresh_count: 0 },
            Action::Flush(Refresh { video: true, input: true, side_panel: true, audio: true }),
        )
    } else {
        (
            Pacing { refresh_count },
            Action::Flush(Refresh { video: true, input: false, side_panel: false, audio: true }),
        )
    }
}

/// The count of refreshes after a run of instructions, oldest first.
pub open spec fn count_after_run(count: nat, events: Seq<bool>) -> nat
    decreases events.len(),
{
    if events.len() == 0 {
        count
    } else {
        count_after_instruction(count_after_run(count, events.drop_last()), events.last())
    }
}

/// How many instructions of a run ended a frame.
pub open spec fn flushes(events: Seq<bool>) -> nat
    decreases events.len(),
{
    if events.len() == 0 {
        0
    } else {
        flushes(events.drop_last()) + if events.last() {
            1nat
        } else {
            0nat
        }
    }
}

/// Whether an action is a flush in which input takes part.
pub open spec fn takes_input(action: Action) -> bool {
    action matches Action::Flush(refresh) && refresh.input
}

/// How many refreshes of a run input took part in.
pub open spec fn input_flushes(count: nat, events: Seq<bool>) -> nat
    decreases events.len(),
{
    if events.len() == 0 {
        0
    } else {
        let before = count_after_run(count, events.drop_last());
        input_flushes(count, events.drop_last()) + if takes_input(
            action_after(before, events.last()),
        ) {
            1nat
        } else {
            0nat
        }
    }
}

/// Every flush runs video and audio, and input takes part in exactly every
/// second one: of `n` flushes counted from a fresh loop, `n / 2`.
pub proof fn lemma_input_every_second_flush(count: nat, events: Seq<bool>)
    requires
        count < INPUT_DIVISOR,
    ensures
        count_after_run(count, events) == (count + flushes(events)) % (INPUT_DIVISOR as nat),
        input_flushes(count, events) == (count + flushes(events)) / (INPUT_DIVISOR as nat),
        forall|c: nat|
            (#[trigger] action_after(c, true)) matches Action::Flush(refresh) && refresh.video
                && refresh.audio && refresh.input == refresh.side_panel,
    decreases events.len(),
{
    if events.len() > 0 {
        lemma_input_every_second_flush(count, events.drop_last());
    }
}

} // verus!
