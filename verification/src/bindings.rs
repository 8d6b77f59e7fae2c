//! The choice of library root that generated trait paths resolve against.

use vstd::prelude::*;

verus! {

/// Which library root the generated conversion-trait paths resolve against:
/// the full standard library or the minimal core-only library.
#[derive(Debug, Clone, Copy, PartialEq, Eq, Structural)]
pub enum Bindings {
    /// Paths rooted at the full standard library.
    Std,
    /// Paths rooted at the minimal core-only library.
    Core,
}

/// The path of the direct-conversion trait under the chosen root.
pub open spec fn spec_from_trait(b: Bindings) -> Seq<char> {
    match b {
        Bindings::Std => "::std::convert::From"@,
        Bindings::Core => "::core::convert::From"@,
    }
}

/// The path of the convertible-into trait under the chosen root.
pub open spec fn spec_into_trait(b: Bindings) -> Seq<char> {
    match b {
        Bindings::Std => "::std::convert::Into"@,
        Bindings::Core => "::core::convert::Into"@,
    }
}

impl Bindings {
    /// The path of the direct-conversion trait under this root.
    pub fn from_trait(&self) -> (r: String)
        ensures
            r@ == spec_from_trait(*self),
    {
        match self {
            Bindings::Std => "::std::convert::From".to_owned(),
            Bindings::Core => "::core::convert::From".to_owned(),
        }
    }

    /// The path of the convertible-into trait under this root.
    pub fn into_trait(&self) -> (r: String)
        ensures
            r@ == spec_into_trait(*self),
    {
        match self {
            Bindings::Std => "::std::convert::Into".to_owned(),
            Bindings::Core => "::core::convert::Into".to_owned(),
        }
    }
}

impl Default for Bindings {
    /// The standard-library root is the default choice.
    fn default() -> (r: Self)
        ensures
            r == Bindings::Std,
    {
        Bindings::Std
    }
}

} // verus!
