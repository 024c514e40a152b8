//! Values shared between tasks.
use vstd::prelude::*;

verus! {

/// Hacky type we use to implement clone on deref types: every `get` hands
/// out a fresh clone of the value held.
#[derive(Clone, Debug)]
pub struct CloneOnDeref<T> {
    inner: T,
}

impl<T: Clone> CloneOnDeref<T> {
    /// The value held.
    pub closed spec fn held(&self) -> T {
        self.inner
    }

    /// Holds `inner`.
    pub fn new(inner: T) -> (r: Self)
        ensures
            r.held() == inner,
    {
        Self { inner }
    }

    /// A clone of the value held.
    pub fn get(&self) -> (r: T)
        ensures
            cloned(self.held(), r),
    {
        self.inner.clone()
    }
}

} // verus!
