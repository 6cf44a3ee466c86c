//! The fixed list of model identifiers and which one is selected.

use vstd::prelude::*;
use vstd::arithmetic::div_mod::lemma_add_mod_noop;

verus! {

/// The model identifiers and the index of the selected one.
pub struct ModelView {
    pub names: Seq<Seq<char>>,
    pub selected: nat,
}

impl ModelView {
    pub open spec fn count(self) -> nat {
        self.names.len()
    }

    pub open spec fn cycled(self) -> ModelView {
        ModelView { names: self.names, selected: (self.selected + 1) % self.count() }
    }

    /// The state after `k` steps of cycling.
    pub open spec fn cycled_times(self, k: nat) -> ModelView
        decreases k,
    {
        if k == 0 {
            self
        } else {
            self.cycled_times((k - 1) as nat).cycled()
        }
    }
}

/// Cycling `k` times advances the selection by `k` places, wrapping around.
pub proof fn lemma_cycle_steps(v: ModelView, k: nat)
    requires
        v.selected < v.count(),
    ensures
        v.cycled_times(k).selected as int == (v.selected + k) as int % (v.count() as int),
        v.cycled_times(k).names == v.names,
    decreases k,
{
    let n = v.count() as int;
    if k == 0 {
        vstd::arithmetic::div_mod::lemma_small_mod(v.selected, v.count());
    } else {
        lemma_cycle_steps(v, (k - 1) as nat);
        lemma_add_mod_noop(v.selected + k - 1, 1, n);
        if n > 1 {
            vstd::arithmetic::div_mod::lemma_small_mod(1, n as nat);
        } else {
            assert(1int % 1 == 0);
            assert((v.selected + k) as int % 1 == 0) by (nonlinear_arith);
        }
    }
}

/// Cycling through as many steps as there are models comes back to the start.
pub proof fn lemma_cycle_full_round(v: ModelView)
    requires
        v.selected < v.count(),
    ensures
        v.cycled_times(v.count()) == v,
{
    lemma_cycle_steps(v, v.count());
    vstd::arithmetic::div_mod::lemma_mod_add_multiples_vanish(v.selected as int, v.count() as int);
    vstd::arithmetic::div_mod::lemma_small_mod(v.selected, v.count());
}

/// A non-empty ordered list of model identifiers with one selected.
pub struct ModelSelector {
    names: Vec<String>,
    selected_mode: usize,
}

impl View for ModelSelector {
    type V = ModelView;

    closed spec fn view(&self) -> ModelView {
        ModelView {
            names: self.names@.map_values(|s: String| s@),
            selected: self.selected_mode as nat,
        }
    }
}

impl ModelSelector {
    #[verifier::type_invariant]
    spec fn selection_in_bounds(&self) -> bool {
        self.selected_mode < self.names.len()
    }

    /// Selects the first of `names`.
    pub fn new(names: Vec<String>) -> (r: ModelSelector)
        requires
            names.len() > 0,
        ensures
            r@.names == names@.map_values(|s: String| s@),
            r@.selected == 0,
    {
        ModelSelector { names, selected_mode: 0 }
    }

    /// Selects the next model, wrapping from the last to the first.
    pub fn cycle(&mut self)
        ensures
            final(self)@ == old(self)@.cycled(),
            final(self)@.selected < final(self)@.count(),
    {
        proof { use_type_invariant(&*self); }
        self.selected_mode = (self.selected_mode + 1) % self.names.len();
    }

    /// The index of the selected model.
    pub fn selected_index(&self) -> (r: usize)
        ensures
            r == self@.selected,
            r < self@.count(),
    {
        proof { use_type_invariant(self); }
        self.selected_mode
    }

    /// The identifier of the selected model.
    pub fn selected_name(&self) -> (r: &String)
        ensures
            r@ == self@.names[self@.selected as int],
    {
        proof { use_type_invariant(self); }
        &self.names[self.selected_mode]
    }

    /// The number of models.
    pub fn count(&self) -> (r: usize)
        ensures
            r == self@.count(),
    {
        self.names.len()
    }
}

} // verus!
