//! The tab-selection state machine.

use vstd::prelude::*;
use vstd::arithmetic::div_mod::{lemma_mod_add_multiples_vanish, lemma_mod_self_0, lemma_small_mod};
use crate::input::{input_transition, Input, Transition};
use crate::tabs::TabSet;

verus! {

/// The selection state as plain numbers: the index of the selected tab and
/// whether the loop goes on.
pub struct Selection {
    /// Index of the selected tab.
    pub current: nat,
    /// Whether the loop goes on; false once a quit was seen.
    pub running: bool,
}

/// The state in which every dashboard starts: the first tab, running.
pub open spec fn initial() -> Selection {
    Selection { current: 0, running: true }
}

/// The index after `i` among `n`, wrapping from the last to the first.
pub open spec fn next_index(n: nat, i: nat) -> nat {
    (((i + 1) as int) % (n as int)) as nat
}

/// The index before `i` among `n`, wrapping from the first to the last.
pub open spec fn prev_index(n: nat, i: nat) -> nat {
    (((i + n - 1) as int) % (n as int)) as nat
}

/// The state after one transition among `n` tabs. A stopped state stays as
/// it is, whatever the transition.
pub open spec fn apply(n: nat, s: Selection, t: Transition) -> Selection {
    if !s.running {
        s
    } else {
        match t {
            Transition::Advance => Selection { current: next_index(n, s.current), running: true },
            Transition::Retreat => Selection { current: prev_index(n, s.current), running: true },
            Transition::Quit => Selection { current: s.current, running: false },
            Transition::Ignore => s,
        }
    }
}

/// The state after one input among `n` tabs.
pub open spec fn step(n: nat, s: Selection, input: Input) -> Selection {
    apply(n, s, input_transition(input))
}

/// The state after the same transition was applied `times` times.
pub open spec fn apply_times(n: nat, s: Selection, t: Transition, times: nat) -> Selection
    decreases times,
{
    if times == 0 {
        s
    } else {
        apply(n, apply_times(n, s, t, (times - 1) as nat), t)
    }
}

/// The state after a sequence of inputs, taken in order.
pub open spec fn run(n: nat, s: Selection, inputs: Seq<Input>) -> Selection
    decreases inputs.len(),
{
    if inputs.len() == 0 {
        s
    } else {
        step(n, run(n, s, inputs.drop_last()), inputs.last())
    }
}

/// Both wrapping steps without a remainder: the next index is zero after
/// the last and one more elsewhere, the previous index is the last before
/// the first and one less elsewhere.
pub proof fn lemma_wrap(n: nat, i: nat)
    requires
        i < n,
    ensures
        next_index(n, i) == if i + 1 == n {
            0
        } else {
            i + 1
        },
        prev_index(n, i) == if i == 0 {
            n - 1
        } else {
            i - 1
        },
        next_index(n, i) < n,
        prev_index(n, i) < n,
{
    let m = n as int;
    if i + 1 == n {
        lemma_mod_self_0(m);
    } else {
        lemma_small_mod(i + 1, n);
    }
    if i == 0 {
        lemma_small_mod((n - 1) as nat, n);
    } else {
        lemma_mod_add_multiples_vanish(i - 1, m);
        lemma_small_mod((i - 1) as nat, n);
    }
}

/// The dashboard's state: its tabs, which of them is selected, and whether
/// its loop goes on.
pub struct Dashboard {
    tabs: TabSet,
    current: usize,
    running: bool,
}

impl Dashboard {
    #[verifier::type_invariant]
    spec fn inv(self) -> bool {
        self.current < self.tabs@.len()
    }

    /// The tabs that this dashboard shows.
    pub closed spec fn tabs(self) -> TabSet {
        self.tabs
    }

    /// The selection state.
    pub closed spec fn view(&self) -> Selection {
        Selection { current: self.current as nat, running: self.running }
    }

    /// The number of tabs.
    pub open spec fn count(self) -> nat {
        self.tabs()@.len()
    }

    /// Makes a dashboard over `tabs` with the first tab selected.
    pub fn new(tabs: TabSet) -> (dashboard: Dashboard)
        ensures
            dashboard.tabs() == tabs,
            dashboard@ == initial(),
    {
        proof {
            use_type_invariant(&tabs);
        }
        Dashboard { tabs, current: 0, running: true }
    }

    /// The tabs that this dashboard shows.
    pub fn tab_set(&self) -> (tabs: &TabSet)
        ensures
            *tabs == self.tabs(),
    {
        &self.tabs
    }

    /// Index of the selected tab, which always names a tab.
    pub fn current(&self) -> (index: usize)
        ensures
            index == self@.current,
            index < self.count(),
    {
        proof {
            use_type_invariant(self);
        }
        self.current
    }

    /// Whether the loop goes on.
    pub fn is_running(&self) -> (running: bool)
        ensures
            running == self@.running,
    {
        self.running
    }

    /// Applies one transition. The tabs stay as they are.
    pub fn apply(&mut self, transition: Transition)
        ensures
            final(self).tabs() == old(self).tabs(),
            final(self)@ == apply(old(self).count(), old(self)@, transition),
            final(self)@.current < old(self).count(),
    {
        proof {
            use_type_invariant(&*self);
            lemma_wrap(self.count(), self@.current);
        }
        if self.running {
            let n: usize = self.tabs.len();
            match transition {
                Transition::Advance => {
                    if self.current + 1 == n {
                        self.current = 0;
                    } else {
                        self.current = self.current + 1;
                    }
                },
                Transition::Retreat => {
                    if self.current == 0 {
                        self.current = n - 1;
                    } else {
                        self.current = self.current - 1;
                    }
                },
                Transition::Quit => {
                    self.running = false;
                },
                Transition::Ignore => {},
            }
        }
    }

    /// Selects the next tab, wrapping from the last to the first.
    pub fn advance(&mut self)
        ensures
            final(self).tabs() == old(self).tabs(),
            final(self)@ == apply(old(self).count(), old(self)@, Transition::Advance),
    {
        self.apply(Transition::Advance);
    }

    /// Selects the previous tab, wrapping from the first to the last.
    pub fn retreat(&mut self)
        ensures
            final(self).tabs() == old(self).tabs(),
            final(self)@ == apply(old(self).count(), old(self)@, Transition::Retreat),
    {
        self.apply(Transition::Retreat);
    }

    /// Stops the loop. The selection stays where it is.
    pub fn quit(&mut self)
        ensures
            final(self).tabs() == old(self).tabs(),
            final(self)@ == apply(old(self).count(), old(self)@, Transition::Quit),
    {
        self.apply(Transition::Quit);
    }

    /// Takes one input: maps it to its transition and applies that.
    pub fn handle(&mut self, input: Input)
        ensures
            final(self).tabs() == old(self).tabs(),
            final(self)@ == step(old(self).count(), old(self)@, input),
    {
        self.apply(input.transition());
    }

    /// Takes a sequence of inputs in order.
    pub fn feed(&mut self, inputs: &Vec<Input>)
        ensures
            final(self).tabs() == old(self).tabs(),
            final(self)@ == run(old(self).count(), old(self)@, inputs@),
    {
        let mut i: usize = 0;
        while i < inputs.len()
            invariant
                i <= inputs@.len(),
                self.tabs() == old(self).tabs(),
                self@ == run(old(self).count(), old(self)@, inputs@.take(i as int)),
            decreases inputs@.len() - i,
        {
            proof {
                assert(inputs@.take(i + 1).drop_last() =~= inputs@.take(i as int));
            }
            self.handle(inputs[i]);
            i = i + 1;
        }
        proof {
            assert(inputs@.take(i as int) =~= inputs@);
        }
    }
}

} // verus!
