//! Telling default values from others.

use vstd::prelude::*;
use vstd::std_specs::cmp::PartialEqSpec;

verus! {

/// Whether a value is the default of its type, by the type's own equality.
pub fn is_default_value<T: Default + PartialEq>(value: &T) -> (r: bool)
    ensures
        T::obeys_eq_spec() ==> exists|d: T|
            call_ensures(T::default, (), d) && r == #[trigger] value.eq_spec(&d),
{
    let d = T::default();
    *value == d
}

} // verus!
