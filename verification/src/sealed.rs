//! The seal on the set of source types.

use vstd::prelude::*;

verus! {

/// Implemented by the two source types of this library and by nothing else.
pub trait Sealed {

}

} // verus!
