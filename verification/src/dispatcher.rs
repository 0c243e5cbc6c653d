//! Several polling loops side by side, each with its own state.

use crate::poll::{step_of, Action, ActionView, PollCycle, PollCycleView, Signal, SignalView, Step,
    StepView};
use vstd::prelude::*;

verus! {

/// The polling loops of a process. A loop is known by its number: the first
/// that was added is 0.
#[derive(Debug)]
pub struct Dispatcher {
    cycles: Vec<PollCycle>,
}

impl View for Dispatcher {
    type V = Seq<PollCycleView>;

    closed spec fn view(&self) -> Seq<PollCycleView> {
        Seq::new(self.cycles@.len(), |i: int| self.cycles@[i]@)
    }
}

/// The loops after `signal` was delivered to loop `id`, and the answer of
/// that loop. Only loop `id` changes. Where there is no loop `id` nothing
/// changes and there is no answer.
pub open spec fn deliver_of(cycles: Seq<PollCycleView>, id: int, signal: SignalView) -> (
    Seq<PollCycleView>,
    Option<StepView>,
) {
    if 0 <= id < cycles.len() {
        (cycles.update(id, step_of(cycles[id], signal).0), Some(step_of(cycles[id], signal).1))
    } else {
        (cycles, None)
    }
}

/// The view of an optional action.
pub open spec fn action_view(action: Option<Action>) -> Option<ActionView> {
    match action {
        Some(a) => Some(a@),
        None => None,
    }
}

/// The view of an optional step.
pub open spec fn answer_view(step: Option<Step>) -> Option<StepView> {
    match step {
        Some(s) => Some(s@),
        None => None,
    }
}

/// Loops do not touch each other: what loop `j` answers to a signal, and the
/// state it is left in, are the same whether or not another loop `i` took in
/// a signal first, whatever that signal was; and the two deliveries lead to
/// the same state in either order.
pub proof fn lemma_listeners_independent(
    cycles: Seq<PollCycleView>,
    i: int,
    for_i: SignalView,
    j: int,
    for_j: SignalView,
)
    requires
        0 <= i < cycles.len(),
        0 <= j < cycles.len(),
        i != j,
    ensures
        deliver_of(deliver_of(cycles, i, for_i).0, j, for_j).1 == deliver_of(cycles, j, for_j).1,
        deliver_of(deliver_of(cycles, i, for_i).0, j, for_j).0[j] == deliver_of(
            cycles,
            j,
            for_j,
        ).0[j],
        deliver_of(cycles, i, for_i).0[j] == cycles[j],
        deliver_of(deliver_of(cycles, i, for_i).0, j, for_j).0 == deliver_of(
            deliver_of(cycles, j, for_j).0,
            i,
            for_i,
        ).0,
{
    let first_i = deliver_of(cycles, i, for_i).0;
    let first_j = deliver_of(cycles, j, for_j).0;
    assert(deliver_of(first_i, j, for_j).0 =~= deliver_of(first_j, i, for_i).0);
}

impl Dispatcher {
    /// A dispatcher without loops.
    pub fn new() -> (d: Self)
        ensures
            d@ == Seq::<PollCycleView>::empty(),
    {
        let d = Dispatcher { cycles: Vec::new() };
        assert(d@ =~= Seq::<PollCycleView>::empty());
        d
    }

    /// The number of loops.
    pub fn len(&self) -> (n: usize)
        ensures
            n == self@.len(),
    {
        self.cycles.len()
    }

    /// Adds a loop that sleeps `interval_ms` milliseconds between its cycles,
    /// and returns its number.
    pub fn add_listener(&mut self, interval_ms: u64) -> (id: usize)
        ensures
            id == old(self)@.len(),
            final(self)@ == old(self)@.push(
                PollCycleView { interval_ms, pending: Seq::empty() },
            ),
    {
        let id = self.cycles.len();
        self.cycles.push(PollCycle::new(interval_ms));
        assert(self@ =~= old(self)@.push(PollCycleView { interval_ms, pending: Seq::empty() }));
        id
    }

    /// The first action of loop `id`: to query the log. `None` where there is
    /// no such loop.
    pub fn start(&self, id: usize) -> (action: Option<Action>)
        ensures
            action_view(action) == (if id < self@.len() {
                Some(ActionView::Query)
            } else {
                None
            }),
    {
        if id < self.cycles.len() {
            Some(self.cycles[id].start())
        } else {
            None
        }
    }

    /// Delivers to loop `id` how its last action ended, and returns its
    /// answer. No other loop changes. `None` where there is no such loop.
    pub fn deliver(&mut self, id: usize, signal: Signal) -> (step: Option<Step>)
        ensures
            (final(self)@, answer_view(step)) == deliver_of(old(self)@, id as int, signal@),
    {
        if id < self.cycles.len() {
            let ghost before = self.cycles@;
            let cycle = &mut self.cycles[id];
            let step = cycle.step(signal);
            assert(self@ =~= old(self)@.update(id as int, step_of(before[id as int]@, signal@).0));
            Some(step)
        } else {
            None
        }
    }
}

} // verus!
