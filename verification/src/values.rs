//! Model catalogue and roles shared across the request builders.

use vstd::prelude::*;

verus! {

/// The sender of a conversation message.
#[derive(Debug, PartialEq, Eq, Clone)]
pub enum Role {
    System,
    User,
    Assistant,
}

impl Role {
    /// The wire name of the role.
    pub open spec fn spec_name(self) -> Seq<char> {
        match self {
            Role::System => "system"@,
            Role::User => "user"@,
            Role::Assistant => "assistant"@,
        }
    }

    /// The wire name of the role.
    pub fn as_ref(&self) -> (r: &'static str)
        ensures
            r@ == self.spec_name(),
    {
        match self {
            Role::System => "system",
            Role::User => "user",
            Role::Assistant => "assistant",
        }
    }
}

/// The language and image models the service offers.
#[derive(Debug, PartialEq, Eq, Clone)]
pub enum Model {
    GLM4Plus,
    GLM40520,
    GLM4Long,
    GLM4Air,
    GLM4AirX,
    GLM4FlashX,
    GLM4Flash,
    GLM4VPlus,
    GLM4V,
    GLM4VFlash,
    GLM4AllTools,
    CogVideoX,
    CogView35,
    CogView3,
    Embedded3,
    ChatGLM3,
    Emohaa,
    CodeGeex4,
}

impl Model {
    /// The wire name of the model.
    pub open spec fn spec_name(self) -> Seq<char> {
        match self {
            Model::GLM4Plus => "glm-4-plus"@,
            Model::GLM40520 => "glm-4-0520"@,
            Model::GLM4Long => "glm-4-long"@,
            Model::GLM4Air => "glm-4-air"@,
            Model::GLM4AirX => "glm-4-airX"@,
            Model::GLM4FlashX => "glm-4-flashX"@,
            Model::GLM4Flash => "glm-4-flash"@,
            Model::GLM4VPlus => "glm-4v-plus"@,
            Model::GLM4V => "glm-4v"@,
            Model::GLM4VFlash => "glm-4v-flash"@,
            Model::GLM4AllTools => "glm-4-alltools"@,
            Model::CogVideoX => "cogvideoX"@,
            Model::CogView35 => "cogview-3.5"@,
            Model::CogView3 => "cogview-3"@,
            Model::Embedded3 => "embedded-3"@,
            Model::ChatGLM3 => "chatglm-3"@,
            Model::Emohaa => "emohaa"@,
            Model::CodeGeex4 => "codegeex-4"@,
        }
    }

    /// The wire name of the model.
    pub fn as_ref(&self) -> (r: &'static str)
        ensures
            r@ == self.spec_name(),
    {
        match self {
            Model::GLM4Plus => "glm-4-plus",
            Model::GLM40520 => "glm-4-0520",
            Model::GLM4Long => "glm-4-long",
            Model::GLM4Air => "glm-4-air",
            Model::GLM4AirX => "glm-4-airX",
            Model::GLM4FlashX => "glm-4-flashX",
            Model::GLM4Flash => "glm-4-flash",
            Model::GLM4VPlus => "glm-4v-plus",
            Model::GLM4V => "glm-4v",
            Model::GLM4VFlash => "glm-4v-flash",
            Model::GLM4AllTools => "glm-4-alltools",
            Model::CogVideoX => "cogvideoX",
            Model::CogView35 => "cogview-3.5",
            Model::CogView3 => "cogview-3",
            Model::Embedded3 => "embedded-3",
            Model::ChatGLM3 => "chatglm-3",
            Model::Emohaa => "emohaa",
            Model::CodeGeex4 => "codegeex-4",
        }
    }
}

} // verus!
