//! Chat model names.

use vstd::prelude::*;

verus! {

/// The chat models the service offers.
#[derive(Debug, PartialEq, Eq, Clone)]
pub enum ChatModelName {
    Glm4Plus,
    Glm4Air250414,
    Glm4AirX,
    Glm4Long,
    Glm4FlashX,
    Glm4Flash,
    Glm4Flash250414,
    Glm4VPlus0111,
    Glm4VPlus,
    Glm4V,
    Glm4VFlash,
    Glm4p1VThinkingFlash,
    Glm4p1VThinkingFlashX,
    GlmZeroPreview,
    GlmZ1Air,
    GlmZ1AirX,
    GlmZ1Flash,
    Glm4Voice,
    Glm4AllTools,
    CodeGeeX,
    CharGlm4,
    Glm4p5,
    Glm4p5Air,
    Glm4p5X,
    Glm4p5AirX,
    Glm4p5Flash,
    Glm4p5V,
}

impl ChatModelName {
    /// The wire name of the model.
    pub open spec fn spec_name(self) -> Seq<char> {
        match self {
            ChatModelName::Glm4Plus => "glm-4-plus"@,
            ChatModelName::Glm4Air250414 => "glm-4-air-250414"@,
            ChatModelName::Glm4AirX => "glm-4-airx"@,
            ChatModelName::Glm4Long => "glm-4-long"@,
            ChatModelName::Glm4FlashX => "glm-4-flashx"@,
            ChatModelName::Glm4Flash => "glm-4-flash"@,
            ChatModelName::Glm4Flash250414 => "glm-4-flash-250414"@,
            ChatModelName::Glm4VPlus0111 => "glm-4v-plus-0111"@,
            ChatModelName::Glm4VPlus => "glm-4v-plus"@,
            ChatModelName::Glm4V => "glm-4v"@,
            ChatModelName::Glm4VFlash => "glm-4v-flash"@,
            ChatModelName::Glm4p1VThinkingFlash => "GLM-4.1V-Thinking-Flash"@,
            ChatModelName::Glm4p1VThinkingFlashX => "GLM-4.1V-Thinking-FlashX"@,
            ChatModelName::GlmZeroPreview => "glm-zero-preview"@,
            ChatModelName::GlmZ1Air => "glm-z1-air"@,
            ChatModelName::GlmZ1AirX => "glm-z1-airx"@,
            ChatModelName::GlmZ1Flash => "glm-z1-flash"@,
            ChatModelName::Glm4Voice => "glm-4-voice"@,
            ChatModelName::Glm4AllTools => "glm-4-alltools"@,
            ChatModelName::CodeGeeX => "codegeex-4"@,
            ChatModelName::CharGlm4 => "charglm-4"@,
            ChatModelName::Glm4p5 => "glm-4.5"@,
            ChatModelName::Glm4p5Air => "glm-4.5-air"@,
            ChatModelName::Glm4p5X => "glm-4.5-x"@,
            ChatModelName::Glm4p5AirX => "glm-4.5-airx"@,
            ChatModelName::Glm4p5Flash => "glm-4.5-flash"@,
            ChatModelName::Glm4p5V => "glm-4.5v"@,
        }
    }

    /// The wire name of the model.
    pub fn as_ref(&self) -> (r: &'static str)
        ensures
            r@ == self.spec_name(),
    {
        match self {
            ChatModelName::Glm4Plus => "glm-4-plus",
            ChatModelName::Glm4Air250414 => "glm-4-air-250414",
            ChatModelName::Glm4AirX => "glm-4-airx",
            ChatModelName::Glm4Long => "glm-4-long",
            ChatModelName::Glm4FlashX => "glm-4-flashx",
            ChatModelName::Glm4Flash => "glm-4-flash",
            ChatModelName::Glm4Flash250414 => "glm-4-flash-250414",
            ChatModelName::Glm4VPlus0111 => "glm-4v-plus-0111",
            ChatModelName::Glm4VPlus => "glm-4v-plus",
            ChatModelName::Glm4V => "glm-4v",
            ChatModelName::Glm4VFlash => "glm-4v-flash",
            ChatModelName::Glm4p1VThinkingFlash => "GLM-4.1V-Thinking-Flash",
            ChatModelName::Glm4p1VThinkingFlashX => "GLM-4.1V-Thinking-FlashX",
            ChatModelName::GlmZeroPreview => "glm-zero-preview",
            ChatModelName::GlmZ1Air => "glm-z1-air",
            ChatModelName::GlmZ1AirX => "glm-z1-airx",
            ChatModelName::GlmZ1Flash => "glm-z1-flash",
            ChatModelName::Glm4Voice => "glm-4-voice",
            ChatModelName::Glm4AllTools => "glm-4-alltools",
            ChatModelName::CodeGeeX => "codegeex-4",
            ChatModelName::CharGlm4 => "charglm-4",
            ChatModelName::Glm4p5 => "glm-4.5",
            ChatModelName::Glm4p5Air => "glm-4.5-air",
            ChatModelName::Glm4p5X => "glm-4.5-x",
            ChatModelName::Glm4p5AirX => "glm-4.5-airx",
            ChatModelName::Glm4p5Flash => "glm-4.5-flash",
            ChatModelName::Glm4p5V => "glm-4.5v",
        }
    }
}

} // verus!
