//! When an element of the drawing is shown: in every loop, in none, or in the
//! loops whose index leaves one of the given residues modulo a period.

use vstd::prelude::*;
use vstd::arithmetic::div_mod::lemma_mod_multiples_vanish;

verus! {

/// The loops whose index, taken modulo `modulo`, is one of `residues`.
#[derive(Clone, Debug)]
pub struct Congruence {
    pub modulo: usize,
    pub residues: Vec<usize>,
}

/// In which loops an element is shown.
#[derive(Clone, Debug)]
pub enum WhenToShow {
    Always,
    Never,
    Congruence(Congruence),
}

impl Congruence {
    /// Whether the period is positive and every residue is below it.
    pub open spec fn valid(&self) -> bool {
        &&& self.modulo > 0
        &&& forall|i: int|
            0 <= i < self.residues@.len() ==> (#[trigger] self.residues@[i]) < self.modulo
    }

    /// Whether the loop with index `loop_index` is one of these loops. With
    /// the period 0 no loop is.
    pub open spec fn holds(&self, loop_index: int) -> bool {
        self.modulo > 0 && exists|i: int|
            0 <= i < self.residues@.len() && (#[trigger] self.residues@[i]) == loop_index
                % (self.modulo as int)
    }

    /// Decides `holds` for the loop with index `loop_index`.
    pub fn contains(&self, loop_index: usize) -> (b: bool)
        ensures
            b == self.holds(loop_index as int),
    {
        if self.modulo == 0 {
            return false;
        }
        let residue = loop_index % self.modulo;
        let mut i: usize = 0;
        while i < self.residues.len()
            invariant
                i <= self.residues.len(),
                self.modulo > 0,
                residue == (loop_index as int) % (self.modulo as int),
                forall|j: int| 0 <= j < i ==> (#[trigger] self.residues@[j]) != residue,
            decreases self.residues.len() - i,
        {
            if self.residues[i] == residue {
                return true;
            }
            i += 1;
        }
        false
    }
}

impl WhenToShow {
    /// Whether a congruence, if this is one, is valid.
    pub open spec fn valid(&self) -> bool {
        match self {
            WhenToShow::Congruence(c) => c.valid(),
            _ => true,
        }
    }

    /// Whether the element is shown in the loop with index `loop_index`.
    pub open spec fn shows(&self, loop_index: int) -> bool {
        match self {
            WhenToShow::Always => true,
            WhenToShow::Never => false,
            WhenToShow::Congruence(c) => c.holds(loop_index),
        }
    }

    /// Decides whether the element is shown in the loop with index
    /// `loop_index`, counted from 0.
    pub fn should_show(&self, loop_index: usize) -> (b: bool)
        ensures
            b == self.shows(loop_index as int),
    {
        match self {
            WhenToShow::Always => true,
            WhenToShow::Never => false,
            WhenToShow::Congruence(c) => c.contains(loop_index),
        }
    }
}

/// What is shown repeats with the period of a congruence: the loop `periods`
/// periods later shows what the loop `loop_index` shows.
pub proof fn lemma_congruence_periodic(c: Congruence, loop_index: int, periods: int)
    requires
        c.modulo > 0,
    ensures
        c.holds(loop_index + periods * c.modulo) == c.holds(loop_index),
{
    lemma_mod_multiples_vanish(periods, loop_index, c.modulo as int);
    assert(c.modulo * periods + loop_index == loop_index + periods * c.modulo) by (nonlinear_arith);
}

} // verus!
