use vstd::prelude::*;
use crate::interrupts::{IdtLoader, InterruptHandler, PIC_1_OFFSET};

verus! {

/// The interrupt vectors the hardware drivers own: the timer on the first
/// remapped controller line, the keyboard on the next.
#[derive(Debug, Clone, Copy, PartialEq, Eq, Structural)]
pub enum InterruptIndex {
    Timer,
    Keyboard,
}

impl InterruptIndex {
    /// The vector number of this interrupt.
    pub open spec fn as_u8_spec(self) -> u8 {
        match self {
            InterruptIndex::Timer => PIC_1_OFFSET,
            InterruptIndex::Keyboard => (PIC_1_OFFSET + 1) as u8,
        }
    }

    /// Returns the vector number of this interrupt.
    pub fn as_u8(self) -> (r: u8)
        ensures
            r == self.as_u8_spec(),
    {
        match self {
            InterruptIndex::Timer => PIC_1_OFFSET,
            InterruptIndex::Keyboard => PIC_1_OFFSET + 1,
        }
    }

    /// Returns the vector number of this interrupt, widened for indexing.
    pub fn as_usize(self) -> (r: usize)
        ensures
            r == self.as_u8_spec() as usize,
    {
        self.as_u8() as usize
    }
}

/// The process-wide time source: a counter the timer interrupt advances by
/// one per interrupt. It wraps at the end of its range per integer
/// semantics; given the mission duration, a wrap is out of scope.
pub struct TickCounter {
    /// Ticks seen since start of day.
    pub ticks: u64,
}

impl TickCounter {
    /// Creates the counter at zero.
    pub fn new() -> (t: TickCounter)
        ensures
            t.ticks == 0,
    {
        TickCounter { ticks: 0 }
    }

    /// One timer interrupt: the counter advances by one, wrapping only at
    /// the very end of its range.
    pub fn tick(&mut self)
        ensures
            old(self).ticks < u64::MAX ==> final(self).ticks == old(self).ticks + 1,
            old(self).ticks == u64::MAX ==> final(self).ticks == 0,
    {
        self.ticks = self.ticks.wrapping_add(1);
    }

    /// Reads the counter.
    pub fn get(&self) -> (r: u64)
        ensures
            r == self.ticks,
    {
        self.ticks
    }
}

/// The exit test of the busy-wait sleep loop: whether the counter, read
/// just now, has advanced by at least `duration` from the snapshot taken
/// when the sleep began. The loop around it spins until this holds.
pub fn sleep_done(now: u64, start: u64, duration: u64) -> (r: bool)
    requires
        start + duration <= u64::MAX,
    ensures
        r == (now >= start + duration),
{
    now >= start + duration
}

/// Along a run of timer interrupts the counter climbs by exactly one per
/// interrupt, so a later reading exceeds an earlier one by the number of
/// interrupts between them.
pub proof fn lemma_tick_value(s: Seq<u64>, i: int, j: int)
    requires
        forall|k: int| 0 <= k < s.len() - 1 ==> #[trigger] s[k] < u64::MAX && s[k + 1] == s[k] + 1,
        0 <= i <= j < s.len(),
    ensures
        s[j] == s[i] + (j - i),
    decreases j - i,
{
    if i < j {
        lemma_tick_value(s, i, j - 1);
    }
}

/// Tick monotonicity: across any sequence of timer interrupts that stays
/// inside the counter's range, the readings never decrease.
pub proof fn lemma_tick_monotonic(s: Seq<u64>)
    requires
        forall|k: int| 0 <= k < s.len() - 1 ==> #[trigger] s[k] < u64::MAX && s[k + 1] == s[k] + 1,
    ensures
        forall|i: int, j: int| 0 <= i <= j < s.len() ==> s[i] <= s[j],
{
    assert forall|i: int, j: int| 0 <= i <= j < s.len() implies s[i] <= s[j] by {
        lemma_tick_value(s, i, j);
    }
}

/// A sleep never ends early: when the readings follow the tick chain and
/// the exit test holds of the last one against the first, at least
/// `duration` interrupts happened in between.
pub proof fn lemma_sleep_waits(s: Seq<u64>, duration: u64)
    requires
        forall|k: int| 0 <= k < s.len() - 1 ==> #[trigger] s[k] < u64::MAX && s[k + 1] == s[k] + 1,
        s.len() >= 1,
        s.last() >= s[0] + duration,
    ensures
        s.len() - 1 >= duration,
{
    lemma_tick_value(s, 0, s.len() - 1);
}

/// Registers the timer and keyboard handler tokens on their vectors, to be
/// committed to the hardware table by the next load.
pub fn init_hardware(loader: &mut IdtLoader, timer_handler: u64, keyboard_handler: u64)
    requires
        old(loader).wf(),
        !old(loader).is_loaded,
    ensures
        final(loader).wf(),
        !final(loader).is_loaded,
        final(loader).loader_fns == old(loader).loader_fns,
        final(loader).fndex == old(loader).fndex,
        final(loader).handlers@ == old(loader).handlers@.update(
            PIC_1_OFFSET as int,
            Some(InterruptHandler { index: PIC_1_OFFSET, handler: timer_handler }),
        ).update(
            PIC_1_OFFSET as int + 1,
            Some(
                InterruptHandler { index: (PIC_1_OFFSET + 1) as u8, handler: keyboard_handler },
            ),
        ),
{
    loader.add_raw(InterruptIndex::Timer, timer_handler);
    loader.add_raw(InterruptIndex::Keyboard, keyboard_handler);
}

} // verus!
