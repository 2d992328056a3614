//! Taking the value out of an option while mapping it.

use vstd::prelude::*;

verus! {

/// Moves the value out of an option-like holder and maps it to a new option.
pub trait OptionMutExt<T>: Sized {
    /// The value held, if any.
    spec fn held(&self) -> Option<T>;

    /// Takes the value, leaving nothing, and returns `make` applied to it;
    /// returns `None` when there was no value.
    fn mutate<V, F: FnOnce(T) -> Option<V>>(&mut self, make: F) -> (r: Option<V>)
        requires
            old(self).held() matches Some(x) ==> make.requires((x,)),
        ensures
            final(self).held() is None,
            old(self).held() matches Some(x) ==> make.ensures((x,), r),
            old(self).held() is None ==> r is None,
    ;
}

impl<T> OptionMutExt<T> for Option<T> {
    open spec fn held(&self) -> Option<T> {
        *self
    }

    fn mutate<V, F: FnOnce(T) -> Option<V>>(&mut self, make: F) -> (r: Option<V>) {
        match self.take() {
            Some(x) => make(x),
            None => None,
        }
    }
}

} // verus!
