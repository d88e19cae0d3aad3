//! The band selector of the two-pole filter. The filter itself is an
//! unimplemented stub in this design; only its configuration variant is part
//! of the library.

use vstd::prelude::*;

verus! {

/// Which band a two-pole filter keeps.
#[derive(Clone, Copy, Debug, PartialEq, Eq)]
pub enum FilterType {
    Lowpass,
    Highpass,
}

} // verus!
