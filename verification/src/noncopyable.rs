//! A marker for types that must not be copied.

use vstd::prelude::*;

verus! {

/// Marker value: it has no `Clone` and no `Copy`, so neither has a type that holds one.
pub struct NonCopyable {
    _private: (),
}

impl NonCopyable {
    /// The marker: the type has this one value and no other.
    pub closed spec fn unit() -> Self {
        NonCopyable { _private: () }
    }

    /// Makes the marker.
    pub fn new() -> (marker: Self)
        ensures
            marker == Self::unit(),
    {
        NonCopyable { _private: () }
    }
}

} // verus!
