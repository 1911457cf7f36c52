//! The signal finder: a list of the signals of the dump that a query
//! narrows down, and from which the signals to display are chosen.

pub mod state;

use state::FuzzyFinderState;
use vstd::prelude::*;

verus! {

/// Access to the signal finder that an application state holds.
pub trait FuzzyFinderStateAccess {
    /// The signal finder that the state holds.
    open spec fn spec_fuzzy_finder_state(&self) -> FuzzyFinderState {
        arbitrary()
    }

    fn fuzzy_finder_state(&self) -> (r: &FuzzyFinderState)
        ensures
            *r == self.spec_fuzzy_finder_state(),
    ;

    fn fuzzy_finder_state_mut(&mut self) -> (r: &mut FuzzyFinderState)
        ensures
            *r == old(self).spec_fuzzy_finder_state(),
            final(self).spec_fuzzy_finder_state() == *final(r),
    ;
}

} // verus!
