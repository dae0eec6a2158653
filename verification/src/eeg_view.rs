//! Layout helpers for the diagnostic view of the frequency bands.

use vstd::prelude::*;

verus! {

/// Number of frequency bands derived from the raw signal of one electrode.
pub const N_EEG_DERIVED_VALUES: usize = 5;

/// Index of the band that follows band `i` on the closed outline of a spider
/// graph, where the last band is joined back to the first.
pub fn wrap_eeg_derived_value_index(i: usize) -> (next: usize)
    ensures
        next == (i + 1) % (N_EEG_DERIVED_VALUES as int),
{
    (i % N_EEG_DERIVED_VALUES + 1) % N_EEG_DERIVED_VALUES
}

} // verus!
