//! Per-key debounce filter.
//!
//! A mechanical switch bounces: around a press or a release the electrical
//! level flickers for a few scan cycles. The filter keeps, for every key, a
//! shift register of the most recent raw samples (most recent sample in the
//! low bit) and flips the debounced state only once the low `DEBOUNCE_WIDTH`
//! bits agree: all ones flips a released key to pressed, all zeros flips a
//! pressed key back to released. The flip itself is reported as an edge event;
//! further identical samples report nothing until the opposite run
//! accumulates.

use vstd::prelude::*;

verus! {

/// Number of consecutive agreeing raw samples needed before the stable state
/// flips. A tunable latency/noise trade-off, fixed at build time.
pub const DEBOUNCE_WIDTH: u32 = 4;

/// Mask selecting the low `DEBOUNCE_WIDTH` bits of a sample history.
pub const DEBOUNCE_MASK: u32 = 0b1111;

/// What one raw sample did to a key's debounced state.
#[derive(Clone, Copy, Debug, PartialEq, Eq)]
pub enum EdgeEvent {
    /// The debounced state did not change.
    NoEdge,
    /// The key just became stably pressed.
    PressedEdge,
    /// The key just became stably released.
    ReleasedEdge,
}

/// Debounce state of a single key: the recent raw samples and the current
/// debounced (stable) state.
#[derive(Clone, Copy, Debug, PartialEq, Eq)]
pub struct KeyState {
    /// Shift register of raw samples, most recent sample in bit 0.
    pub history: u32,
    /// Debounced state: true while the key counts as pressed.
    pub stable: bool,
}

/// The sample history after shifting one raw sample into the low bit.
pub open spec fn spec_shift(h: u32, raw: bool) -> u32 {
    (h << 1u32) | (if raw {
        1u32
    } else {
        0u32
    })
}

/// The key state after observing one raw sample.
pub open spec fn spec_observe_state(s: KeyState, raw: bool) -> KeyState {
    let h = spec_shift(s.history, raw);
    if s.stable && h & DEBOUNCE_MASK == 0 {
        KeyState { history: h, stable: false }
    } else if !s.stable && h & DEBOUNCE_MASK == DEBOUNCE_MASK {
        KeyState { history: h, stable: true }
    } else {
        KeyState { history: h, stable: s.stable }
    }
}

/// The edge event reported for one raw sample.
pub open spec fn spec_observe_event(s: KeyState, raw: bool) -> EdgeEvent {
    let h = spec_shift(s.history, raw);
    if s.stable && h & DEBOUNCE_MASK == 0 {
        EdgeEvent::ReleasedEdge
    } else if !s.stable && h & DEBOUNCE_MASK == DEBOUNCE_MASK {
        EdgeEvent::PressedEdge
    } else {
        EdgeEvent::NoEdge
    }
}

/// The key state after observing a whole sequence of raw samples, oldest
/// sample first.
pub open spec fn state_after(s: KeyState, samples: Seq<bool>) -> KeyState
    decreases samples.len(),
{
    if samples.len() == 0 {
        s
    } else {
        spec_observe_state(state_after(s, samples.drop_last()), samples.last())
    }
}

/// The edge event reported on cycle `i` while the samples are observed one by
/// one.
pub open spec fn event_at(s: KeyState, samples: Seq<bool>, i: int) -> EdgeEvent
    recommends
        0 <= i < samples.len(),
{
    spec_observe_event(state_after(s, samples.take(i)), samples[i])
}

impl KeyState {
    /// A key starts with an empty history, counted as released.
    pub fn new() -> (s: Self)
        ensures
            s.history == 0u32,
            !s.stable,
    {
        KeyState { history: 0, stable: false }
    }

    /// Feed one raw sample into the filter and report the edge, if any.
    pub fn observe(&mut self, raw: bool) -> (e: EdgeEvent)
        ensures
            *final(self) == spec_observe_state(*old(self), raw),
            e == spec_observe_event(*old(self), raw),
    {
        self.history = (self.history << 1u32) | (if raw {
            1u32
        } else {
            0u32
        });
        if self.stable && self.history & DEBOUNCE_MASK == 0 {
            self.stable = false;
            EdgeEvent::ReleasedEdge
        } else if !self.stable && self.history & DEBOUNCE_MASK == DEBOUNCE_MASK {
            self.stable = true;
            EdgeEvent::PressedEdge
        } else {
            EdgeEvent::NoEdge
        }
    }
}

/// Observing one more sample extends the run state by one step.
proof fn lemma_state_after_take_succ(s: KeyState, samples: Seq<bool>, i: int)
    requires
        0 <= i < samples.len(),
    ensures
        state_after(s, samples.take(i + 1)) == spec_observe_state(
            state_after(s, samples.take(i)),
            samples[i],
        ),
{
    assert(samples.take(i + 1).drop_last() =~= samples.take(i));
    assert(samples.take(i + 1).last() == samples[i]);
}

/// A sample that agrees with the current stable state neither flips the state
/// nor reports an edge.
proof fn lemma_steady_step(s: KeyState)
    ensures
        spec_observe_event(s, s.stable) == EdgeEvent::NoEdge,
        spec_observe_state(s, s.stable).stable == s.stable,
{
    let h = s.history;
    if s.stable {
        assert(((h << 1u32) | 1u32) & 0b1111u32 != 0u32) by (bit_vector);
    } else {
        assert(((h << 1u32) | 0u32) & 0b1111u32 != 0b1111u32) by (bit_vector);
    }
}

/// While every remaining sample agrees with the stable state reached after
/// `m` samples, the stable state never changes again.
proof fn lemma_stable_run(s: KeyState, samples: Seq<bool>, m: int, i: int)
    requires
        0 <= m <= i <= samples.len(),
        forall|j: int|
            m <= j < samples.len() ==> samples[j] == state_after(s, samples.take(m)).stable,
    ensures
        state_after(s, samples.take(i)).stable == state_after(s, samples.take(m)).stable,
    decreases i - m,
{
    if i > m {
        lemma_stable_run(s, samples, m, i - 1);
        lemma_state_after_take_succ(s, samples, i - 1);
        lemma_steady_step(state_after(s, samples.take(i - 1)));
    }
}

/// Running a concatenated sample sequence is running the parts one after the
/// other.
proof fn lemma_state_after_concat(s: KeyState, a: Seq<bool>, b: Seq<bool>)
    ensures
        state_after(s, a + b) == state_after(state_after(s, a), b),
    decreases b.len(),
{
    if b.len() == 0 {
        assert(a + b =~= a);
    } else {
        lemma_state_after_concat(s, a, b.drop_last());
        assert((a + b).drop_last() =~= a + b.drop_last());
        assert((a + b).last() == b.last());
    }
}

/// Workhorse for the all-ones laws: starting released, right after a zero
/// sample, a run of ones flips the state exactly once, on the sample that
/// completes the debounce width, and reports no other edge.
proof fn lemma_ones_run(s: KeyState, samples: Seq<bool>)
    requires
        !s.stable,
        s.history & 1u32 == 0u32,
        forall|j: int| 0 <= j < samples.len() ==> samples[j],
    ensures
        forall|i: int|
            0 <= i <= samples.len() ==> (state_after(s, samples.take(i)).stable <==> i
                >= DEBOUNCE_WIDTH),
        forall|i: int|
            0 <= i < samples.len() ==> event_at(s, samples, i) == (if i == DEBOUNCE_WIDTH - 1 {
                EdgeEvent::PressedEdge
            } else {
                EdgeEvent::NoEdge
            }),
{
    let len = samples.len() as int;
    // The first four states of the run, written out one sample at a time.
    let u1 = spec_observe_state(s, true);
    let u2 = spec_observe_state(u1, true);
    let u3 = spec_observe_state(u2, true);
    let u4 = spec_observe_state(u3, true);
    let h0 = s.history;
    assert((((h0 << 1u32) | 1u32) & 0b0011u32) == 0b0001u32 && (((h0 << 1u32) | 1u32) & 0b1111u32)
        != 0b1111u32) by (bit_vector)
        requires
            h0 & 1u32 == 0u32,
    ;
    assert(!u1.stable && u1.history == (h0 << 1u32) | 1u32);
    let h1 = u1.history;
    assert((((h1 << 1u32) | 1u32) & 0b0111u32) == 0b0011u32 && (((h1 << 1u32) | 1u32) & 0b1111u32)
        != 0b1111u32) by (bit_vector)
        requires
            h1 & 0b0011u32 == 0b0001u32,
    ;
    assert(!u2.stable && u2.history == (h1 << 1u32) | 1u32);
    let h2 = u2.history;
    assert((((h2 << 1u32) | 1u32) & 0b1111u32) == 0b0111u32) by (bit_vector)
        requires
            h2 & 0b0111u32 == 0b0011u32,
    ;
    assert(!u3.stable && u3.history == (h2 << 1u32) | 1u32);
    let h3 = u3.history;
    assert((((h3 << 1u32) | 1u32) & 0b1111u32) == 0b1111u32) by (bit_vector)
        requires
            h3 & 0b1111u32 == 0b0111u32,
    ;
    assert(u4.stable);
    // Tie those states to prefixes of the sample sequence.
    assert(samples.take(0) =~= Seq::<bool>::empty());
    assert(state_after(s, samples.take(0)) == s);
    if len >= 1 {
        lemma_state_after_take_succ(s, samples, 0);
    }
    if len >= 2 {
        lemma_state_after_take_succ(s, samples, 1);
    }
    if len >= 3 {
        lemma_state_after_take_succ(s, samples, 2);
    }
    if len >= 4 {
        lemma_state_after_take_succ(s, samples, 3);
    }
    assert forall|i: int| 0 <= i <= len implies (state_after(s, samples.take(i)).stable <==> i
        >= DEBOUNCE_WIDTH) by {
        if i >= 4 {
            lemma_stable_run(s, samples, 4, i);
        }
    }
    assert forall|i: int| 0 <= i < len implies event_at(s, samples, i) == (if i == DEBOUNCE_WIDTH
        - 1 {
        EdgeEvent::PressedEdge
    } else {
        EdgeEvent::NoEdge
    }) by {
        if i >= 4 {
            lemma_stable_run(s, samples, 4, i);
            lemma_steady_step(state_after(s, samples.take(i)));
        }
    }
}

/// Law: starting from a released key whose latest sample was a zero, a run of
/// at least `DEBOUNCE_WIDTH` consecutive one samples produces exactly one
/// `PressedEdge`, on the cycle where the `DEBOUNCE_WIDTH`-th consecutive one
/// is observed, and no edge on any other cycle; afterwards the key is stably
/// pressed.
pub proof fn lemma_press_after_width_ones(s: KeyState, samples: Seq<bool>)
    requires
        !s.stable,
        s.history & 1u32 == 0u32,
        DEBOUNCE_WIDTH <= samples.len(),
        forall|j: int| 0 <= j < samples.len() ==> samples[j],
    ensures
        event_at(s, samples, DEBOUNCE_WIDTH - 1) == EdgeEvent::PressedEdge,
        forall|i: int|
            0 <= i < samples.len() && i != DEBOUNCE_WIDTH - 1 ==> event_at(s, samples, i)
                == EdgeEvent::NoEdge,
        state_after(s, samples).stable,
{
    lemma_ones_run(s, samples);
    assert(samples.take(samples.len() as int) =~= samples);
}

/// Law: a single spurious zero sample inside an otherwise all-ones run resets
/// the consecutive-ones count: no edge is reported before `DEBOUNCE_WIDTH`
/// fresh ones have accumulated after the zero, and the press edge lands
/// exactly on the cycle that completes those fresh ones.
pub proof fn lemma_spurious_zero_resets_run(s: KeyState, samples: Seq<bool>, k: int)
    requires
        !s.stable,
        s.history & 1u32 == 0u32,
        0 <= k < DEBOUNCE_WIDTH,
        k < samples.len(),
        forall|j: int| 0 <= j < samples.len() ==> (samples[j] <==> j != k),
    ensures
        forall|i: int|
            0 <= i < samples.len() && i < k + DEBOUNCE_WIDTH ==> event_at(s, samples, i)
                == EdgeEvent::NoEdge,
        k + DEBOUNCE_WIDTH < samples.len() ==> event_at(s, samples, k + DEBOUNCE_WIDTH)
            == EdgeEvent::PressedEdge,
{
    let len = samples.len() as int;
    let pre = samples.take(k);
    lemma_ones_run(s, pre);
    // The state standing when the spurious zero arrives: still released.
    assert(pre.take(k) =~= pre);
    let tk = state_after(s, pre);
    assert(!tk.stable);
    // The zero itself reports nothing and leaves a fresh zero in the history.
    let hk = tk.history;
    assert(((hk << 1u32) | 0u32) & 0b1111u32 != 0b1111u32 && ((hk << 1u32) | 0u32) & 1u32 == 0u32)
        by (bit_vector);
    let tz = spec_observe_state(tk, false);
    assert(!tz.stable && tz.history & 1u32 == 0u32);
    assert(spec_observe_event(tk, false) == EdgeEvent::NoEdge);
    lemma_state_after_take_succ(s, samples, k);
    assert(state_after(s, samples.take(k + 1)) == tz);
    // The fresh ones after the zero form a run starting from `tz`.
    let suffix = samples.skip(k + 1);
    lemma_ones_run(tz, suffix);
    assert forall|i: int| k < i < len implies event_at(s, samples, i) == event_at(
        tz,
        suffix,
        i - k - 1,
    ) by {
        assert(samples.take(i) =~= samples.take(k + 1) + suffix.take(i - k - 1));
        lemma_state_after_concat(s, samples.take(k + 1), suffix.take(i - k - 1));
        assert(samples[i] == suffix[i - k - 1]);
    }
    assert forall|i: int| 0 <= i < len && i < k + DEBOUNCE_WIDTH implies event_at(s, samples, i)
        == EdgeEvent::NoEdge by {
        if i < k {
            // Within the leading ones: shorter than the debounce width.
            assert(samples.take(i) =~= pre.take(i));
            assert(event_at(s, samples, i) == event_at(s, pre, i));
        } else if i == k {
            assert(samples.take(k) =~= pre);
        }
    }
}

/// Law: once a stable state is reached, raw samples that keep agreeing with it
/// report no further edge, for as long as they keep coming, and the stable
/// state never changes.
pub proof fn lemma_idempotent_after_stable(s: KeyState, samples: Seq<bool>)
    requires
        forall|j: int| 0 <= j < samples.len() ==> samples[j] == s.stable,
    ensures
        state_after(s, samples).stable == s.stable,
        forall|i: int| 0 <= i < samples.len() ==> event_at(s, samples, i) == EdgeEvent::NoEdge,
{
    let len = samples.len() as int;
    assert(samples.take(0) =~= Seq::<bool>::empty());
    assert(state_after(s, samples.take(0)) == s);
    assert forall|i: int| 0 <= i < len implies event_at(s, samples, i) == EdgeEvent::NoEdge by {
        lemma_stable_run(s, samples, 0, i);
        lemma_steady_step(state_after(s, samples.take(i)));
    }
    lemma_stable_run(s, samples, 0, len);
    assert(samples.take(len) =~= samples);
}

} // verus!
