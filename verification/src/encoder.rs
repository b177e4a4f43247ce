//! Quadrature decoder: classifies Gray-code transitions on the two encoder
//! pins and integrates them into one event per detent.
use vstd::prelude::*;

verus! {

/// Number of quadrature transitions per detent.
pub const ENCODER_MODULO: i8 = 4;

/// One detent of rotation, clockwise or counter-clockwise.
#[derive(Clone, Copy, PartialEq, Eq, Structural, Debug)]
pub enum Event {
    Cw,
    Ccw,
}

/// Classifies one edge pair: the old and new levels of pins A and B form a
/// Gray-code transition that is one step clockwise, one step
/// counter-clockwise, or invalid (a glitch, to be ignored).
pub open spec fn spec_transition(last_a: bool, last_b: bool, a: bool, b: bool) -> Option<Event> {
    if !last_a && !last_b && !a && b {
        Some(Event::Cw)
    } else if !last_a && last_b && a && b {
        Some(Event::Cw)
    } else if last_a && last_b && a && !b {
        Some(Event::Cw)
    } else if last_a && !last_b && !a && !b {
        Some(Event::Cw)
    } else if !last_a && !last_b && a && !b {
        Some(Event::Ccw)
    } else if !last_a && last_b && !a && !b {
        Some(Event::Ccw)
    } else if last_a && last_b && !a && b {
        Some(Event::Ccw)
    } else if last_a && !last_b && a && b {
        Some(Event::Ccw)
    } else {
        None
    }
}

/// Decoder state: the last sampled pin levels and the transition accumulator.
#[derive(Clone, Copy, PartialEq, Eq, Structural, Debug)]
pub struct EncoderState {
    pub last_a: bool,
    pub last_b: bool,
    pub value: i8,
}

impl EncoderState {
    /// The accumulator stays strictly inside one detent.
    pub open spec fn wf(self) -> bool {
        -4 < self.value < 4
    }

    /// A decoder that has just sampled levels `a`, `b` and seen no transition.
    pub fn new(a: bool, b: bool) -> (r: Self)
        ensures
            r == (EncoderState { last_a: a, last_b: b, value: 0i8 }),
            r.wf(),
    {
        EncoderState { last_a: a, last_b: b, value: 0 }
    }
}

/// One decoder step on freshly sampled levels: an invalid or empty transition
/// changes nothing; a valid step snaps the accumulator to zero on a direction
/// reversal, integrates one count, and emits an event when a full detent
/// (four counts) is reached.
pub open spec fn spec_step(s: EncoderState, a: bool, b: bool) -> (EncoderState, Option<Event>)
    recommends
        s.wf(),
{
    match spec_transition(s.last_a, s.last_b, a, b) {
        None => (s, None),
        Some(ev) => {
            let snapped: int = match ev {
                Event::Cw => if s.value < 0 {
                    0
                } else {
                    s.value as int
                },
                Event::Ccw => if s.value > 0 {
                    0
                } else {
                    s.value as int
                },
            };
            let stepped: int = match ev {
                Event::Cw => snapped + 1,
                Event::Ccw => snapped - 1,
            };
            if stepped == 4 || stepped == -4 {
                (EncoderState { last_a: a, last_b: b, value: 0i8 }, Some(ev))
            } else {
                (EncoderState { last_a: a, last_b: b, value: stepped as i8 }, None)
            }
        },
    }
}

impl EncoderState {
    /// Feeds freshly sampled pin levels to the decoder; returns the detent
    /// event this transition completes, if any.
    pub fn step(&mut self, a: bool, b: bool) -> (r: Option<Event>)
        requires
            old(self).wf(),
        ensures
            (*final(self), r) == spec_step(*old(self), a, b),
            final(self).wf(),
    {
        if a == self.last_a && b == self.last_b {
            return None;
        }
        let event = if !self.last_a && !self.last_b && !a && b {
            Event::Cw
        } else if !self.last_a && self.last_b && a && b {
            Event::Cw
        } else if self.last_a && self.last_b && a && !b {
            Event::Cw
        } else if self.last_a && !self.last_b && !a && !b {
            Event::Cw
        } else if !self.last_a && !self.last_b && a && !b {
            Event::Ccw
        } else if !self.last_a && self.last_b && !a && !b {
            Event::Ccw
        } else if self.last_a && self.last_b && !a && b {
            Event::Ccw
        } else if self.last_a && !self.last_b && a && b {
            Event::Ccw
        } else {
            return None;
        };
        match event {
            Event::Cw => {
                if self.value < 0 {
                    self.value = 0;
                }
                self.value = self.value + 1;
            }
            Event::Ccw => {
                if self.value > 0 {
                    self.value = 0;
                }
                self.value = self.value - 1;
            }
        }
        self.last_a = a;
        self.last_b = b;
        if self.value == ENCODER_MODULO || self.value == -ENCODER_MODULO {
            self.value = 0;
            Some(event)
        } else {
            None
        }
    }
}

/// Final state and the number of clockwise and counter-clockwise events
/// emitted while stepping the decoder through a sequence of sampled levels.
pub open spec fn spec_run(s: EncoderState, inputs: Seq<(bool, bool)>) -> (EncoderState, int, int)
    decreases inputs.len(),
{
    if inputs.len() == 0 {
        (s, 0, 0)
    } else {
        let (s1, ev) = spec_step(s, inputs[0].0, inputs[0].1);
        let (sf, cw, ccw) = spec_run(s1, inputs.drop_first());
        (
            sf,
            cw + if ev == Some(Event::Cw) {
                1int
            } else {
                0int
            },
            ccw + if ev == Some(Event::Ccw) {
                1int
            } else {
                0int
            },
        )
    }
}

/// The unique pin levels one clockwise Gray step ahead of the given levels.
pub open spec fn cw_next(a: bool, b: bool) -> (bool, bool) {
    if !a && !b {
        (false, true)
    } else if !a && b {
        (true, true)
    } else if a && b {
        (true, false)
    } else {
        (false, false)
    }
}

/// The unique pin levels one counter-clockwise Gray step ahead.
pub open spec fn ccw_next(a: bool, b: bool) -> (bool, bool) {
    if !a && !b {
        (true, false)
    } else if a && !b {
        (true, true)
    } else if a && b {
        (false, true)
    } else {
        (false, false)
    }
}

/// The inputs walk the clockwise Gray sequence from the decoder's state.
pub open spec fn is_cw_chain(s: EncoderState, inputs: Seq<(bool, bool)>) -> bool
    decreases inputs.len(),
{
    inputs.len() == 0 || {
        &&& inputs[0] == cw_next(s.last_a, s.last_b)
        &&& is_cw_chain(spec_step(s, inputs[0].0, inputs[0].1).0, inputs.drop_first())
    }
}

/// The inputs walk the counter-clockwise Gray sequence from the state.
pub open spec fn is_ccw_chain(s: EncoderState, inputs: Seq<(bool, bool)>) -> bool
    decreases inputs.len(),
{
    inputs.len() == 0 || {
        &&& inputs[0] == ccw_next(s.last_a, s.last_b)
        &&& is_ccw_chain(spec_step(s, inputs[0].0, inputs[0].1).0, inputs.drop_first())
    }
}

/// Quadrature monotonicity, clockwise: a run of n valid clockwise transitions
/// emits exactly one clockwise event per completed detent — (value + n) / 4 of
/// them — and no counter-clockwise event.
pub proof fn lemma_quadrature_monotonic_cw(s: EncoderState, inputs: Seq<(bool, bool)>)
    requires
        0 <= s.value <= 3,
        is_cw_chain(s, inputs),
    ensures
        ({
            let (sf, cw, ccw) = spec_run(s, inputs);
            &&& ccw == 0
            &&& cw == (s.value + inputs.len()) / 4
            &&& sf.value == (s.value + inputs.len()) % 4
        }),
    decreases inputs.len(),
{
    if inputs.len() > 0 {
        let (a, b) = inputs[0];
        assert(spec_transition(s.last_a, s.last_b, a, b) == Some(Event::Cw));
        let (s1, ev) = spec_step(s, a, b);
        lemma_quadrature_monotonic_cw(s1, inputs.drop_first());
    }
}

/// Quadrature monotonicity, counter-clockwise: the mirror of the clockwise
/// law, counting detents downward.
pub proof fn lemma_quadrature_monotonic_ccw(s: EncoderState, inputs: Seq<(bool, bool)>)
    requires
        -3 <= s.value <= 0,
        is_ccw_chain(s, inputs),
    ensures
        ({
            let (sf, cw, ccw) = spec_run(s, inputs);
            &&& cw == 0
            &&& ccw == (inputs.len() - s.value) / 4
            &&& sf.value == -((inputs.len() - s.value) % 4)
        }),
    decreases inputs.len(),
{
    if inputs.len() > 0 {
        let (a, b) = inputs[0];
        assert(spec_transition(s.last_a, s.last_b, a, b) == Some(Event::Ccw));
        let (s1, ev) = spec_step(s, a, b);
        lemma_quadrature_monotonic_ccw(s1, inputs.drop_first());
    }
}

/// The decoder state after the first `i` inputs of a run.
pub open spec fn state_at(s: EncoderState, inputs: Seq<(bool, bool)>, i: int) -> EncoderState {
    spec_run(s, inputs.take(i)).0
}

/// An invalid transition contributes nothing: deleting it from the input
/// sequence leaves the final state and both event counts unchanged.
pub proof fn lemma_invalid_transition_skipped(s: EncoderState, inputs: Seq<(bool, bool)>, i: int)
    requires
        0 <= i < inputs.len(),
        ({
            let si = state_at(s, inputs, i);
            spec_transition(si.last_a, si.last_b, inputs[i].0, inputs[i].1) == None::<Event>
        }),
    ensures
        spec_run(s, inputs) == spec_run(s, inputs.remove(i)),
    decreases inputs.len(),
{
    if i == 0 {
        assert(inputs.take(0) =~= Seq::<(bool, bool)>::empty());
        assert(spec_step(s, inputs[0].0, inputs[0].1) == (s, None::<Event>));
        assert(inputs.remove(0) =~= inputs.drop_first());
    } else {
        let (a, b) = inputs[0];
        let (s1, ev) = spec_step(s, a, b);
        let rest = inputs.drop_first();
        // The state reached after i inputs is the state reached after i - 1
        // inputs of the tail.
        assert(inputs.take(i)[0] == inputs[0]);
        assert(inputs.take(i).drop_first() =~= rest.take(i - 1));
        assert(state_at(s, inputs, i) == state_at(s1, rest, i - 1));
        lemma_invalid_transition_skipped(s1, rest, i - 1);
        assert(inputs.remove(i).drop_first() =~= rest.remove(i - 1));
        assert(inputs.remove(i)[0] == inputs[0]);
    }
}

} // verus!

verus! {

/// From a settled decoder, a run of 4N valid clockwise transitions emits
/// exactly N clockwise detents and no counter-clockwise one; symmetrically
/// for counter-clockwise runs.
pub proof fn lemma_detents_from_rest(s: EncoderState, inputs: Seq<(bool, bool)>, n: int)
    requires
        s.value == 0,
        n >= 0,
        inputs.len() == 4 * n,
    ensures
        is_cw_chain(s, inputs) ==> spec_run(s, inputs) == (
            EncoderState { value: 0i8, ..spec_run(s, inputs).0 },
            n,
            0int,
        ),
        is_ccw_chain(s, inputs) ==> spec_run(s, inputs) == (
            EncoderState { value: 0i8, ..spec_run(s, inputs).0 },
            0int,
            n,
        ),
{
    if is_cw_chain(s, inputs) {
        lemma_quadrature_monotonic_cw(s, inputs);
    }
    if is_ccw_chain(s, inputs) {
        lemma_quadrature_monotonic_ccw(s, inputs);
    }
}

} // verus!
