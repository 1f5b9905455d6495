//! Audio: a square-wave synthesizer that fills one sample buffer per refresh
//! from the core's tone code, and the scheduler that hands each finished
//! buffer to the output device.
//!
//! Buffers are played back to back. While buffer 2 plays, buffer 3 is built
//! and scheduled; when buffer 2 has ended, buffer 4 is begun. Where nothing
//! is playing (the device has not started yet, or the host fell behind) no
//! end of playback will ever come, so the wait for it is bounded, and after
//! a timeout the next buffer is scheduled without waiting at all.

use vstd::prelude::*;

verus! {

/// Clock ticks of the core per second: one tick takes 500 ns.
pub const TICKS_PER_SECOND: u64 = 2_000_000;

/// Refreshes per second.
pub const FRAMES_PER_SECOND: usize = 50;

/// Where the scheduler stands.
#[derive(Clone, Copy, Debug, PartialEq, Eq, Structural)]
pub enum SchedulerState {
    /// Nothing was scheduled yet.
    Idle,
    /// The previous and the current buffer are chained.
    Steady,
    /// The last wait timed out; the next buffer is scheduled without a wait.
    Recovering,
}

/// How the wait for the previous buffer ended.
#[derive(Clone, Copy, Debug, PartialEq, Eq, Structural)]
pub enum Completion {
    /// The device reported the end of playback first.
    Finished,
    /// Two frame periods passed first.
    TimedOut,
}

/// Abstract state of synthesizer and scheduler. `H` is the host's handle
/// to a scheduled buffer.
pub struct SoundView<H> {
    /// The buffer being filled, one amplitude per sample.
    pub samples: Seq<i8>,
    /// The tone being played, in Hz; 0 is silence.
    pub frequency: nat,
    /// Clock ticks since the buffer was begun.
    pub total_ticks: nat,
    /// Clock ticks since the tone last changed.
    pub ticks_since_change: nat,
    /// Samples per second of the output device.
    pub sample_rate: nat,
    /// Frame periods between the start time and the start of the buffer
    /// being filled.
    pub refresh_count: nat,
    /// The buffer scheduled last.
    pub current: H,
    /// The buffer whose end of playback is waited for.
    pub previous: H,
    /// Where the scheduler stands.
    pub state: SchedulerState,
}

/// The tone that the two top bits of port 5 select, in Hz; 0 is silence.
pub open spec fn tone_frequency(port5: u8) -> nat {
    if port5 / 64 == 1 {
        1000
    } else if port5 / 64 == 2 {
        500
    } else if port5 / 64 == 3 {
        120
    } else {
        0
    }
}

/// The sample that `ticks` clock ticks reach at `sample_rate` samples per
/// second.
pub open spec fn sample_index(ticks: nat, sample_rate: nat) -> nat {
    ticks * sample_rate / (TICKS_PER_SECOND as nat)
}

/// The amplitude of a square wave of `period` samples at sample `position`:
/// high in the first half of each period, low in the second.
pub open spec fn square_wave(position: nat, period: nat) -> i8 {
    if position % period < period / 2 {
        1i8
    } else {
        -1i8
    }
}

/// A buffer of `len` samples of silence.
pub open spec fn silence(len: nat) -> Seq<i8> {
    Seq::new(len, |i: int| 0i8)
}

impl<H> SoundView<H> {
    /// The state before the first instruction, for a device of
    /// `sample_rate` samples per second.
    pub open spec fn initial(sample_rate: nat, current: H, previous: H) -> SoundView<H> {
        SoundView {
            samples: silence(sample_rate / (FRAMES_PER_SECOND as nat)),
            frequency: 0,
            total_ticks: 0,
            ticks_since_change: 0,
            sample_rate,
            refresh_count: 0,
            current,
            previous,
            state: SchedulerState::Idle,
        }
    }

    /// The buffer holds one refresh interval of samples, each of them high,
    /// low or silent.
    pub open spec fn wf(self) -> bool {
        &&& self.samples.len() == self.sample_rate / (FRAMES_PER_SECOND as nat)
        &&& forall|i: int| 0 <= i < self.samples.len() ==> -1 <= #[trigger] self.samples[i] <= 1
    }

    /// Whether an instruction of `clock_ticks` ticks takes the fill past the
    /// end of the buffer.
    pub open spec fn buffer_complete(self, clock_ticks: nat) -> bool {
        sample_index(self.total_ticks + clock_ticks, self.sample_rate) >= self.samples.len()
    }

    /// Clock ticks since the tone last changed, after an instruction of
    /// `clock_ticks` ticks during which port 5 reads `port5`.
    pub open spec fn ticks_into_tone(self, port5: u8, clock_ticks: nat) -> nat {
        if self.frequency != tone_frequency(port5) {
            0
        } else {
            self.ticks_since_change + clock_ticks
        }
    }

    /// Whether the counters stay within the machine's integers, and a period
    /// of the tone holds at least one sample, for an instruction of
    /// `clock_ticks` ticks during which port 5 reads `port5`.
    pub open spec fn cycle_in_range(self, port5: u8, clock_ticks: nat) -> bool {
        &&& self.total_ticks + clock_ticks <= u64::MAX
        &&& !self.buffer_complete(clock_ticks) ==> {
            &&& self.ticks_into_tone(port5, clock_ticks) <= u64::MAX
            &&& tone_frequency(port5) != 0 ==> self.sample_rate >= tone_frequency(port5)
        }
    }

    /// The state after an instruction of `clock_ticks` ticks during which
    /// port 5 reads `port5`. Past the end of the buffer only the ticks are
    /// counted. Within it, a tone writes one sample of its square wave where
    /// the fill stands, and silence writes nothing.
    pub open spec fn after_cycle(self, port5: u8, clock_ticks: nat) -> SoundView<H> {
        let total_ticks = self.total_ticks + clock_ticks;
        if self.buffer_complete(clock_ticks) {
            SoundView { total_ticks, ..self }
        } else {
            let frequency = tone_frequency(port5);
            let ticks_since_change = self.ticks_into_tone(port5, clock_ticks);
            let samples = if frequency != 0 {
                self.samples.update(
                    sample_index(total_ticks, self.sample_rate) as int,
                    square_wave(
                        sample_index(ticks_since_change, self.sample_rate),
                        self.sample_rate / frequency,
                    ),
                )
            } else {
                self.samples
            };
            SoundView { samples, frequency, total_ticks, ticks_since_change, ..self }
        }
    }

    /// Whether the next refresh waits for the previous buffer.
    pub open spec fn waits(self) -> bool {
        !(self.state is Recovering)
    }

    /// The state after a refresh that scheduled `future` and, where it
    /// waited, saw the wait end in `completion`.
    pub open spec fn after_refresh(self, future: H, completion: Completion) -> SoundView<H> {
        let cleared = SoundView { samples: silence(self.samples.len()), total_ticks: 0, ..self };
        if !self.waits() {
            SoundView {
                refresh_count: self.refresh_count + 1,
                current: future,
                state: SchedulerState::Steady,
                ..cleared
            }
        } else if completion is TimedOut {
            SoundView {
                refresh_count: 0,
                previous: future,
                state: SchedulerState::Recovering,
                ..cleared
            }
        } else {
            SoundView {
                refresh_count: self.refresh_count + 1,
                current: future,
                previous: self.current,
                state: SchedulerState::Steady,
                ..cleared
            }
        }
    }

    /// The buffer that a refresh lets go of.
    pub open spec fn discarded(self) -> H {
        if self.waits() {
            self.previous
        } else {
            self.current
        }
    }

    /// Whether the count of frame periods stays within the machine's
    /// integers through a refresh whose wait, if any, ends in `completion`.
    pub open spec fn refresh_in_range(self, completion: Completion) -> bool {
        self.waits() && completion is TimedOut || self.refresh_count < usize::MAX
    }
}

/// Synthesizer and scheduler. `H` is the host's handle to a scheduled
/// buffer.
pub struct Sound<H> {
    audio_buffer: Vec<i8>,
    current_frequency: u64,
    total_clock_ticks: u64,
    ticks_since_freq_start: u64,
    sample_rate: u64,
    refresh_count: usize,
    current_audio: H,
    previous_audio: H,
    state: SchedulerState,
}

impl<H> View for Sound<H> {
    type V = SoundView<H>;

    closed spec fn view(&self) -> SoundView<H> {
        SoundView {
            samples: self.audio_buffer@,
            frequency: self.current_frequency as nat,
            total_ticks: self.total_clock_ticks as nat,
            ticks_since_change: self.ticks_since_freq_start as nat,
            sample_rate: self.sample_rate as nat,
            refresh_count: self.refresh_count as nat,
            current: self.current_audio,
            previous: self.previous_audio,
            state: self.state,
        }
    }
}

/// The product of two 64-bit counters fits in 128 bits.
proof fn lemma_product_fits(a: u64, b: u64)
    ensures
        a * b <= u128::MAX,
{
    assert(a * b <= 0xffff_ffff_ffff_ffff * 0xffff_ffff_ffff_ffff) by (nonlinear_arith)
        requires
            0 <= a <= 0xffff_ffff_ffff_ffff,
            0 <= b <= 0xffff_ffff_ffff_ffff,
    ;
}

impl<H> Sound<H> {
    #[verifier::type_invariant]
    spec fn holds_one_interval(self) -> bool {
        self.audio_buffer.len() == self.sample_rate / (FRAMES_PER_SECOND as u64)
    }

    /// A synthesizer with a silent buffer for a device of `sample_rate`
    /// samples per second, and an idle scheduler that holds two handles to
    /// buffers that never played.
    pub fn new(sample_rate: u64, current_audio: H, previous_audio: H) -> (sound: Self)
        requires
            sample_rate <= usize::MAX,
        ensures
            sound@ == SoundView::initial(sample_rate as nat, current_audio, previous_audio),
            sound@.wf(),
    {
        let audio_buffer: Vec<i8> = vec![0i8; sample_rate as usize / FRAMES_PER_SECOND];
        assert(audio_buffer@ =~= silence(sample_rate as nat / (FRAMES_PER_SECOND as nat)));
        Sound {
            audio_buffer,
            current_frequency: 0,
            total_clock_ticks: 0,
            ticks_since_freq_start: 0,
            sample_rate,
            refresh_count: 0,
            current_audio,
            previous_audio,
            state: SchedulerState::Idle,
        }
    }

    /// Accounts for one instruction of `clock_ticks` ticks during which
    /// port 5 reads `port5`. Returns true once the buffer is complete: the
    /// core must then not run on before the refresh.
    pub fn run_cycle(&mut self, port5: u8, clock_ticks: usize) -> (complete: bool)
        requires
            old(self)@.cycle_in_range(port5, clock_ticks as nat),
        ensures
            complete == old(self)@.buffer_complete(clock_ticks as nat),
            final(self)@ == old(self)@.after_cycle(port5, clock_ticks as nat),
    {
        proof {
            use_type_invariant(&*self);
            lemma_product_fits((self.total_clock_ticks + clock_ticks) as u64, self.sample_rate);
        }
        self.total_clock_ticks += clock_ticks as u64;
        let index: u128 = self.total_clock_ticks as u128 * self.sample_rate as u128
            / TICKS_PER_SECOND as u128;
        if index >= self.audio_buffer.len() as u128 {
            return true;
        }
        let audio_buffer_index: usize = index as usize;
        assert(port5 >> 6 == port5 / 64) by (bit_vector);
        let freq: u64 = match port5 >> 6 {
            0b01 => 1000,
            0b10 => 500,
            0b11 => 120,
            _ => 0,
        };
        if self.current_frequency != freq {
            self.current_frequency = freq;
            self.ticks_since_freq_start = 0;
        } else {
            self.ticks_since_freq_start += clock_ticks as u64;
        }
        if freq != 0 {
            proof {
                lemma_product_fits(self.ticks_since_freq_start, self.sample_rate);
            }
            let audio_samples_since_freq_start: u128 = self.ticks_since_freq_start as u128
                * self.sample_rate as u128 / TICKS_PER_SECOND as u128;
            assert(self.sample_rate / freq >= 1) by {
                assert(freq == 1000 || freq == 500 || freq == 120);
            }
            let period: u128 = (self.sample_rate / freq) as u128;
            let sample: i8 = if audio_samples_since_freq_start % period < period / 2 {
                1
            } else {
                -1
            };
            self.audio_buffer[audio_buffer_index] = sample;
        }
        false
    }

    /// Whether [`Sound::run_cycle`] may be called for an instruction of
    /// `clock_ticks` ticks during which port 5 reads `port5`.
    pub fn can_run_cycle(&self, port5: u8, clock_ticks: usize) -> (in_range: bool)
        ensures
            in_range == self@.cycle_in_range(port5, clock_ticks as nat),
    {
        proof {
            use_type_invariant(self);
        }
        if clock_ticks as u64 > u64::MAX - self.total_clock_ticks {
            return false;
        }
        let total: u64 = self.total_clock_ticks + clock_ticks as u64;
        proof {
            lemma_product_fits(total, self.sample_rate);
        }
        let index: u128 = total as u128 * self.sample_rate as u128 / TICKS_PER_SECOND as u128;
        if index >= self.audio_buffer.len() as u128 {
            return true;
        }
        assert(port5 >> 6 == port5 / 64) by (bit_vector);
        let freq: u64 = match port5 >> 6 {
            0b01 => 1000,
            0b10 => 500,
            0b11 => 120,
            _ => 0,
        };
        if self.current_frequency == freq && clock_ticks as u64 > u64::MAX
            - self.ticks_since_freq_start {
            return false;
        }
        freq == 0 || self.sample_rate >= freq
    }

    /// The buffer being filled: one refresh interval of samples.
    pub fn audio_buffer(&self) -> (samples: &Vec<i8>)
        ensures
            samples@ == self@.samples,
            samples@.len() == self@.sample_rate / (FRAMES_PER_SECOND as nat),
    {
        proof {
            use_type_invariant(self);
        }
        &self.audio_buffer
    }

    /// Samples per second of the output device.
    pub fn sample_rate(&self) -> (rate: u64)
        ensures
            rate == self@.sample_rate,
    {
        self.sample_rate
    }

    /// Frame periods after the start time at which the buffer being filled
    /// is to start playing.
    pub fn refresh_count(&self) -> (count: usize)
        ensures
            count == self@.refresh_count,
    {
        self.refresh_count
    }

    /// Where the scheduler stands.
    pub fn state(&self) -> (state: SchedulerState)
        ensures
            state == self@.state,
    {
        self.state
    }

    /// Whether the next refresh waits for the previous buffer, for at most
    /// [`timeout_millis`].
    pub fn waits(&self) -> (waits: bool)
        ensures
            waits == self@.waits(),
    {
        self.state != SchedulerState::Recovering
    }

    /// Whether [`Sound::run_refresh_cycle`] may be called for a wait that
    /// ended in `completion`.
    pub fn can_run_refresh_cycle(&self, completion: Completion) -> (in_range: bool)
        ensures
            in_range == self@.refresh_in_range(completion),
    {
        (self.state != SchedulerState::Recovering && completion == Completion::TimedOut)
            || self.refresh_count < usize::MAX
    }

    /// The buffer whose end of playback a waiting refresh waits for.
    pub fn previous_audio(&self) -> (audio: &H)
        ensures
            *audio == self@.previous,
    {
        &self.previous_audio
    }

    /// The buffer scheduled last.
    pub fn current_audio(&self) -> (audio: &H)
        ensures
            *audio == self@.current,
    {
        &self.current_audio
    }

    /// Takes the refresh that scheduled `future_audio` to start
    /// `refresh_count` frame periods after the start time. `completion`
    /// says how the wait for the previous buffer ended; it is not read
    /// where the scheduler does not wait. The sample buffer is silent again
    /// afterwards and the fill starts over. Returns the buffer that leaves
    /// the scheduler.
    pub fn run_refresh_cycle(&mut self, future_audio: H, completion: Completion) -> (discarded: H)
        requires
            old(self)@.refresh_in_range(completion),
        ensures
            final(self)@ == old(self)@.after_refresh(future_audio, completion),
            discarded == old(self)@.discarded(),
    {
        proof {
            use_type_invariant(&*self);
        }
        let mut audio = future_audio;
        if self.state == SchedulerState::Recovering {
            self.state = SchedulerState::Steady;
            self.refresh_count += 1;
            core::mem::swap(&mut self.current_audio, &mut audio);
        } else if completion == Completion::TimedOut {
            self.refresh_count = 0;
            core::mem::swap(&mut self.previous_audio, &mut audio);
            self.state = SchedulerState::Recovering;
        } else {
            self.refresh_count += 1;
            core::mem::swap(&mut self.current_audio, &mut audio);
            core::mem::swap(&mut self.previous_audio, &mut audio);
            self.state = SchedulerState::Steady;
        }
        self.total_clock_ticks = 0;
        let ghost scheduled = self@;
        let mut i: usize = 0;
        while i < self.audio_buffer.len()
            invariant
                i <= self.audio_buffer.len(),
                self.audio_buffer.len() == scheduled.samples.len(),
                self.audio_buffer.len() == self.sample_rate / (FRAMES_PER_SECOND as u64),
                forall|j: int| 0 <= j < i ==> self.audio_buffer@[j] == 0,
                self@ == (SoundView { samples: self.audio_buffer@, ..scheduled }),
            decreases self.audio_buffer.len() - i,
        {
            self.audio_buffer[i] = 0;
            i += 1;
        }
        assert(self.audio_buffer@ =~= silence(scheduled.samples.len()));
        audio
    }
}

/// How long a refresh waits for the end of the previous buffer, in
/// milliseconds: two frame periods.
pub fn timeout_millis() -> (millis: i32)
    ensures
        millis * FRAMES_PER_SECOND == 2 * 1000,
{
    1000 * 2 / FRAMES_PER_SECOND as i32
}

/// The state after a run of refreshes, oldest first, each with the buffer
/// it scheduled and the way its wait ended.
pub open spec fn after_refreshes<H>(state: SoundView<H>, cycles: Seq<(H, Completion)>) -> SoundView<
    H,
>
    decreases cycles.len(),
{
    if cycles.len() == 0 {
        state
    } else {
        after_refreshes(state, cycles.drop_last()).after_refresh(cycles.last().0, cycles.last().1)
    }
}

/// How many refreshes of a run took the scheduler into recovery.
pub open spec fn recoveries<H>(state: SoundView<H>, cycles: Seq<(H, Completion)>) -> nat
    decreases cycles.len(),
{
    if cycles.len() == 0 {
        0
    } else {
        recoveries(state, cycles.drop_last()) + if after_refreshes(state, cycles).state
            is Recovering {
            1nat
        } else {
            0nat
        }
    }
}

/// The state after a run of instructions, oldest first, each with the byte
/// read from port 5 and its clock ticks.
pub open spec fn after_cycles<H>(state: SoundView<H>, cycles: Seq<(u8, nat)>) -> SoundView<H>
    decreases cycles.len(),
{
    if cycles.len() == 0 {
        state
    } else {
        after_cycles(state, cycles.drop_last()).after_cycle(cycles.last().0, cycles.last().1)
    }
}

/// The fill never moves backwards within a refresh interval: more ticks
/// never reach an earlier sample.
pub proof fn lemma_fill_is_monotonic(earlier: nat, later: nat, sample_rate: nat)
    requires
        earlier <= later,
    ensures
        sample_index(earlier, sample_rate) <= sample_index(later, sample_rate),
{
    assert(earlier * sample_rate <= later * sample_rate) by (nonlinear_arith)
        requires
            earlier <= later,
    ;
    vstd::arithmetic::div_mod::lemma_div_is_ordered(
        (earlier * sample_rate) as int,
        (later * sample_rate) as int,
        TICKS_PER_SECOND as int,
    );
}

/// A tone's wave repeats with the tone's period, high through the first
/// half of each period and low through the second; the first tone code
/// selects 1000 Hz, so that its period is a thousandth of the sample rate.
pub proof fn lemma_square_wave_repeats(position: nat, period: nat)
    requires
        period > 0,
    ensures
        square_wave(position + period, period) == square_wave(position, period),
        square_wave(position, period) == 1 <==> position % period < period / 2,
        square_wave(position, period) == -1 <==> position % period >= period / 2,
        forall|port5: u8| 0b0100_0000 <= port5 < 0b1000_0000 ==> tone_frequency(port5) == 1000,
{
    vstd::arithmetic::div_mod::lemma_mod_add_multiples_vanish(position as int, period as int);
}

/// An instruction keeps the buffer one refresh interval long and every
/// sample high, low or silent.
pub proof fn lemma_cycle_keeps_wf<H>(state: SoundView<H>, port5: u8, clock_ticks: nat)
    requires
        state.wf(),
    ensures
        state.after_cycle(port5, clock_ticks).wf(),
{
}

/// A refresh keeps the buffer one refresh interval long and leaves every
/// sample silent.
pub proof fn lemma_refresh_keeps_wf<H>(state: SoundView<H>, future: H, completion: Completion)
    requires
        state.wf(),
    ensures
        state.after_refresh(future, completion).wf(),
        state.after_refresh(future, completion).samples == silence(state.samples.len()),
        state.after_refresh(future, completion).total_ticks == 0,
{
}

/// Silence writes nothing: instructions during which port 5 selects no
/// tone leave the buffer as it was, so that an interval that was silent
/// throughout ends with every sample at zero.
pub proof fn lemma_silence_writes_nothing<H>(state: SoundView<H>, cycles: Seq<(u8, nat)>)
    requires
        forall|i: int| 0 <= i < cycles.len() ==> tone_frequency(#[trigger] cycles[i].0) == 0,
    ensures
        after_cycles(state, cycles).samples == state.samples,
    decreases cycles.len(),
{
    if cycles.len() > 0 {
        lemma_silence_writes_nothing(state, cycles.drop_last());
    }
}

/// While every wait ends with the end of playback, the scheduler never
/// goes into recovery and the count of frame periods grows by one with
/// every refresh.
pub proof fn lemma_finishing_keeps_steady<H>(state: SoundView<H>, cycles: Seq<(H, Completion)>)
    requires
        forall|i: int| 0 <= i < cycles.len() ==> (#[trigger] cycles[i]).1 is Finished,
    ensures
        recoveries(state, cycles) == 0,
        after_refreshes(state, cycles).refresh_count == state.refresh_count + cycles.len(),
        cycles.len() > 0 ==> after_refreshes(state, cycles).state is Steady,
    decreases cycles.len(),
{
    if cycles.len() > 0 {
        lemma_finishing_keeps_steady(state, cycles.drop_last());
    }
}

/// A wait that times out takes the scheduler into recovery once: the count
/// of frame periods starts over at 0, the buffer just scheduled becomes the
/// one waited for, and the refresh after it does not wait and ends steady
/// with a count of 1, however its wait would have ended.
pub proof fn lemma_timeout_recovers_once<H>(
    state: SoundView<H>,
    future: H,
    next: H,
    completion: Completion,
)
    requires
        state.waits(),
    ensures
        ({
            let recovering = state.after_refresh(future, Completion::TimedOut);
            let resumed = recovering.after_refresh(next, completion);
            &&& recovering.state is Recovering
            &&& recovering.refresh_count == 0
            &&& recovering.previous == future
            &&& recovering.current == state.current
            &&& !recovering.waits()
            &&& resumed.state is Steady
            &&& resumed.refresh_count == 1
            &&& resumed.current == next
            &&& resumed.previous == future
        }),
{
}

/// Where no end of playback ever comes, every waiting refresh times out
/// and every other refresh waits: of `n` refreshes counted from a state
/// that waits, `(n + 1) / 2` go into recovery.
pub proof fn lemma_silent_device_recovers_every_other<H>(
    state: SoundView<H>,
    cycles: Seq<(H, Completion)>,
)
    requires
        state.waits(),
        forall|i: int| 0 <= i < cycles.len() ==> (#[trigger] cycles[i]).1 is TimedOut,
    ensures
        recoveries(state, cycles) == (cycles.len() + 1) / 2,
        after_refreshes(state, cycles).waits() <==> cycles.len() % 2 == 0,
        cycles.len() > 0 ==> after_refreshes(state, cycles).refresh_count == (cycles.len() + 1)
            % 2,
    decreases cycles.len(),
{
    if cycles.len() > 0 {
        lemma_silent_device_recovers_every_other(state, cycles.drop_last());
    }
}

} // verus!
