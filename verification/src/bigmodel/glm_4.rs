//! GLM-4 model names.

use vstd::prelude::*;

verus! {

/// The GLM-4 language models.
#[derive(Debug, PartialEq, Eq, Clone)]
pub enum GLM4 {
    GLM4Plus,
    GLM4Air0111,
    GLM4AirX,
    GLM4Long,
    GLM4FlashX,
    GLM4Flash,
}

impl GLM4 {
    /// The wire name of the model.
    pub open spec fn spec_name(self) -> Seq<char> {
        match self {
            GLM4::GLM4Plus => "glm-4-plus"@,
            GLM4::GLM4Air0111 => "glm-4-air-0111"@,
            GLM4::GLM4AirX => "glm-4-air-x"@,
            GLM4::GLM4Long => "glm-4-long"@,
            GLM4::GLM4FlashX => "glm-4-flash-x"@,
            GLM4::GLM4Flash => "glm-4-flash"@,
        }
    }

    /// The wire name of the model.
    pub fn as_ref(&self) -> (r: &'static str)
        ensures
            r@ == self.spec_name(),
    {
        match self {
            GLM4::GLM4Plus => "glm-4-plus",
            GLM4::GLM4Air0111 => "glm-4-air-0111",
            GLM4::GLM4AirX => "glm-4-air-x",
            GLM4::GLM4Long => "glm-4-long",
            GLM4::GLM4FlashX => "glm-4-flash-x",
            GLM4::GLM4Flash => "glm-4-flash",
        }
    }
}

} // verus!
