//! Image sizes the service accepts.

use vstd::prelude::*;

verus! {

/// The pixel sizes an image can be generated at.
#[derive(Debug, PartialEq, Eq, Clone, Copy)]
pub enum ImageSize {
    Size1024x1024,
    Size768x1344,
    Size864x1152,
    Size1344x768,
    Size1152x864,
    Size1440x720,
    Size720x1440,
}

impl ImageSize {
    /// The wire name of the size.
    pub open spec fn spec_name(self) -> Seq<char> {
        match self {
            ImageSize::Size1024x1024 => "1024x1024"@,
            ImageSize::Size768x1344 => "768x1344"@,
            ImageSize::Size864x1152 => "864x1152"@,
            ImageSize::Size1344x768 => "1344x768"@,
            ImageSize::Size1152x864 => "1152x864"@,
            ImageSize::Size1440x720 => "1440x720"@,
            ImageSize::Size720x1440 => "720x1440"@,
        }
    }

    /// The wire name of the size.
    pub fn as_ref(&self) -> (r: &'static str)
        ensures
            r@ == self.spec_name(),
    {
        match self {
            ImageSize::Size1024x1024 => "1024x1024",
            ImageSize::Size768x1344 => "768x1344",
            ImageSize::Size864x1152 => "864x1152",
            ImageSize::Size1344x768 => "1344x768",
            ImageSize::Size1152x864 => "1152x864",
            ImageSize::Size1440x720 => "1440x720",
            ImageSize::Size720x1440 => "720x1440",
        }
    }
}

} // verus!
