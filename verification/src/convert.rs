//! The convertible-into capability for default values: a default of
//! type `B` is converted into the target type `T` only when it is
//! actually used.

use vstd::prelude::*;

verus! {

/// A type whose values convert into the target type `T`, specified by
/// the view the converted value carries.
pub trait IntoTarget<T: View>: Sized {
    /// The view of the value this converts to.
    spec fn target_view(self) -> T::V;

    /// Convert into the target type.
    fn into_target(self) -> (t: T)
        ensures
            t@ == self.target_view(),
    ;
}

impl<T: View + Sized> IntoTarget<T> for T {
    open spec fn target_view(self) -> T::V {
        self.view()
    }

    fn into_target(self) -> (t: T) {
        self
    }
}

impl<'a> IntoTarget<String> for &'a str {
    open spec fn target_view(self) -> Seq<char> {
        self.view()
    }

    fn into_target(self) -> (t: String) {
        self.to_owned()
    }
}

} // verus!
