use vstd::prelude::*;

verus! {

/// An adapter that holds a delay of an embedded HAL, so that a client can wait with it
pub struct DelayEmbedded<T> {
    inner: T,
}

impl<T> DelayEmbedded<T> {
    /// The delay held
    pub closed spec fn spec_inner(&self) -> T {
        self.inner
    }

    /// Create a new adapter
    pub fn new(inner: T) -> (r: Self)
        ensures
            r.spec_inner() == inner,
    {
        DelayEmbedded { inner }
    }

    /// Consume the adapter, returning the inner object
    pub fn into_inner(self) -> (r: T)
        ensures
            r == self.spec_inner(),
    {
        self.inner
    }

    /// Borrow the inner object
    pub fn inner(&self) -> (r: &T)
        ensures
            *r == self.spec_inner(),
    {
        &self.inner
    }

    /// Mutably borrow the inner object
    pub fn inner_mut(&mut self) -> (r: &mut T)
        ensures
            *r == old(self).spec_inner(),
            final(self).spec_inner() == *final(r),
    {
        &mut self.inner
    }
}

} // verus!
