//! Image model names.

use vstd::prelude::*;

verus! {

/// The image models the service offers.
#[derive(Debug, PartialEq, Eq, Clone)]
pub enum ImagesModelName {
    Cogview4,
    CogView3Flash,
}

impl ImagesModelName {
    /// The wire name of the model.
    pub open spec fn spec_name(self) -> Seq<char> {
        match self {
            ImagesModelName::Cogview4 => "cogview-4"@,
            ImagesModelName::CogView3Flash => "cogview-3-flash"@,
        }
    }

    /// The wire name of the model.
    pub fn as_ref(&self) -> (r: &'static str)
        ensures
            r@ == self.spec_name(),
    {
        match self {
            ImagesModelName::Cogview4 => "cogview-4",
            ImagesModelName::CogView3Flash => "cogview-3-flash",
        }
    }
}

} // verus!
