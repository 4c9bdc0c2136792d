//! Video model names.

use vstd::prelude::*;

verus! {

/// The video models the service offers.
#[derive(Debug, PartialEq, Eq, Clone)]
pub enum VideosModelName {
    Cogvideox3,
    Cogvideox2,
    CogvideoxFlash,
}

impl VideosModelName {
    /// The wire name of the model.
    pub open spec fn spec_name(self) -> Seq<char> {
        match self {
            VideosModelName::Cogvideox3 => "cogvideox-3"@,
            VideosModelName::Cogvideox2 => "cogvideox-2"@,
            VideosModelName::CogvideoxFlash => "cogvideox-flash"@,
        }
    }

    /// The wire name of the model.
    pub fn as_ref(&self) -> (r: &'static str)
        ensures
            r@ == self.spec_name(),
    {
        match self {
            VideosModelName::Cogvideox3 => "cogvideox-3",
            VideosModelName::Cogvideox2 => "cogvideox-2",
            VideosModelName::CogvideoxFlash => "cogvideox-flash",
        }
    }
}

} // verus!
