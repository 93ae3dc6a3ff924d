//! Switch-matrix scan controller.
//!
//! The keys sit on a row/column matrix that the owning application strobes
//! one column at a time, reading every row while exactly one column is
//! driven; only then is each intersection addressable on its own. The
//! application hands the raw samples of one full sweep, one boolean per key
//! in key-index order, to `scan`, which feeds every sample through that key's
//! debounce filter, records the previous stable states, and reports whether
//! any key is down and whether any edge fired. `get_pressed_keys` then
//! exposes the just-pressed edges of the cycle as report codes.

use vstd::prelude::*;

use crate::debounce::{spec_observe_event, spec_observe_state, EdgeEvent, KeyState};
use crate::key_mapping::{key_mapping, spec_key_mapping, ReportCode};

verus! {

/// Rows of the switch matrix.
pub const ROW_COUNT: usize = 3;

/// Columns of the switch matrix.
pub const COL_COUNT: usize = 2;

/// Logical keys. One row/column intersection of the matrix is unused, so
/// this is one less than `ROW_COUNT * COL_COUNT`; indices at or past it are
/// skipped during a sweep.
pub const KEY_COUNT: usize = 5;

/// Aggregate outcome of one scan cycle.
#[derive(Clone, Copy, Debug, PartialEq, Eq)]
pub struct ScanResult {
    /// Some key is stably pressed after this cycle.
    pub key_pressed: bool,
    /// Some key's debounced state flipped during this cycle.
    pub event_occurred: bool,
}

impl ScanResult {
    /// Whether this cycle's outcome is worth a report at all.
    pub fn should_report(&self) -> (r: bool)
        ensures
            r == (self.key_pressed || self.event_occurred),
    {
        self.key_pressed || self.event_occurred
    }
}

/// Debounce state of the whole matrix: one filter per key, plus the stable
/// states as of the previous scan cycle for edge exposure.
pub struct KeyboardMatrix {
    /// Per-key debounce filters, indexed by key index.
    pub keys: [KeyState; KEY_COUNT],
    /// Stable state of every key as of the previous scan cycle.
    pub prev_key_state: [bool; KEY_COUNT],
}

/// The report code `get_pressed_keys` exposes for key `i`: the key's table
/// code on a fresh press edge, the sentinel otherwise.
pub open spec fn spec_pressed_code(m: KeyboardMatrix, i: int) -> ReportCode {
    if m.keys@[i].stable && !m.prev_key_state@[i] {
        spec_key_mapping(i)
    } else {
        ReportCode::NoEvent
    }
}

/// The key index of a matrix intersection: columns enumerate first, rows
/// within a column. The unused intersection has no index.
pub fn key_index(col: usize, row: usize) -> (idx: Option<usize>)
    ensures
        idx is Some <==> col < COL_COUNT && row < ROW_COUNT && col * ROW_COUNT + row < KEY_COUNT,
        idx matches Some(k) ==> k == col * ROW_COUNT + row,
{
    if col < COL_COUNT && row < ROW_COUNT {
        let k = col * ROW_COUNT + row;
        if k < KEY_COUNT {
            Some(k)
        } else {
            None
        }
    } else {
        None
    }
}

impl KeyboardMatrix {
    /// A matrix starts with every key's history empty and every key counted
    /// as released, now and in the previous cycle.
    pub fn new() -> (m: Self)
        ensures
            forall|i: int| 0 <= i < KEY_COUNT ==> m.keys@[i].history == 0u32 && !m.keys@[i].stable,
            forall|i: int| 0 <= i < KEY_COUNT ==> !m.prev_key_state@[i],
    {
        KeyboardMatrix {
            keys: [KeyState { history: 0u32, stable: false }; KEY_COUNT],
            prev_key_state: [false; KEY_COUNT],
        }
    }

    /// Run one scan cycle over the raw samples of a full sweep, one sample
    /// per key in key-index order (true means the intersection read as
    /// closed).
    ///
    /// Every key's debounce filter advances by exactly its own sample, the
    /// stable states from before the cycle are recorded for edge exposure,
    /// and the summary says whether any key is stably down after the cycle
    /// and whether any debounced state flipped during it.
    pub fn scan(&mut self, raw: &[bool; KEY_COUNT]) -> (result: ScanResult)
        ensures
            forall|i: int|
                0 <= i < KEY_COUNT ==> final(self).prev_key_state@[i] == old(self).keys@[i].stable,
            forall|i: int|
                0 <= i < KEY_COUNT ==> final(self).keys@[i] == spec_observe_state(
                    old(self).keys@[i],
                    raw@[i],
                ),
            result.key_pressed == (exists|i: int|
                0 <= i < KEY_COUNT && final(self).keys@[i].stable),
            result.event_occurred == (exists|i: int|
                0 <= i < KEY_COUNT && spec_observe_event(old(self).keys@[i], raw@[i])
                    != EdgeEvent::NoEdge),
    {
        let ghost m0 = *self;
        let mut key_pressed = false;
        let mut event_occurred = false;
        // Witnesses for the two summary bits: a key seen stably down, a key
        // whose state flipped.
        let ghost mut wp: int = 0;
        let ghost mut we: int = 0;
        let mut i: usize = 0;
        while i < KEY_COUNT
            invariant
                i <= KEY_COUNT,
                forall|j: int| i <= j < KEY_COUNT ==> self.keys@[j] == m0.keys@[j],
                forall|j: int|
                    0 <= j < i ==> self.prev_key_state@[j] == m0.keys@[j].stable,
                forall|j: int|
                    0 <= j < i ==> self.keys@[j] == spec_observe_state(m0.keys@[j], raw@[j]),
                key_pressed ==> 0 <= wp < i && self.keys@[wp].stable,
                !key_pressed ==> forall|j: int| 0 <= j < i ==> !self.keys@[j].stable,
                event_occurred ==> 0 <= we < i && spec_observe_event(m0.keys@[we], raw@[we])
                    != EdgeEvent::NoEdge,
                !event_occurred ==> forall|j: int|
                    0 <= j < i ==> spec_observe_event(m0.keys@[j], raw@[j]) == EdgeEvent::NoEdge,
            decreases KEY_COUNT - i,
        {
            self.prev_key_state[i] = self.keys[i].stable;
            let mut key = self.keys[i];
            let edge = key.observe(raw[i]);
            self.keys[i] = key;
            match edge {
                EdgeEvent::NoEdge => {},
                _ => {
                    event_occurred = true;
                    proof {
                        we = i as int;
                    }
                },
            }
            if self.keys[i].stable {
                key_pressed = true;
                proof {
                    wp = i as int;
                }
            }
            i = i + 1;
        }
        proof {
            if key_pressed {
                assert(self.keys@[wp].stable);
            }
            if event_occurred {
                assert(spec_observe_event(m0.keys@[we], raw@[we]) != EdgeEvent::NoEdge);
            }
        }
        ScanResult { key_pressed, event_occurred }
    }

    /// Expose this cycle's fresh press edges: one slot per key, carrying the
    /// key's table code where the key is stably pressed now but was not in
    /// the previous cycle, and the sentinel everywhere else. Held keys do not
    /// re-emit.
    pub fn get_pressed_keys(&self) -> (pressed: [ReportCode; KEY_COUNT])
        ensures
            forall|i: int| 0 <= i < KEY_COUNT ==> pressed@[i] == spec_pressed_code(*self, i),
    {
        let mut pressed = [ReportCode::NoEvent; KEY_COUNT];
        let mut i: usize = 0;
        while i < KEY_COUNT
            invariant
                i <= KEY_COUNT,
                forall|j: int| 0 <= j < i ==> pressed@[j] == spec_pressed_code(*self, j),
                forall|j: int| i <= j < KEY_COUNT ==> pressed@[j] == ReportCode::NoEvent,
            decreases KEY_COUNT - i,
        {
            let curr = self.keys[i].stable;
            let prev = self.prev_key_state[i];
            if curr && !prev {
                pressed[i] = key_mapping(i);
            }
            i = i + 1;
        }
        pressed
    }
}

} // verus!
