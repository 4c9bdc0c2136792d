//! Video formats: sizes, quality, frame rates and durations.

use vstd::prelude::*;

verus! {

/// The pixel sizes a video can be generated at.
#[derive(Debug, PartialEq, Eq, Clone, Copy)]
pub enum VideoSize {
    Size3840x2160,
    Size2048x1080,
    Size1920x1080,
    Size960x1280,
    Size1280x960,
    Size1024x1024,
    Size720x480,
}

impl VideoSize {
    /// The wire name of the size.
    pub open spec fn spec_name(self) -> Seq<char> {
        match self {
            VideoSize::Size3840x2160 => "3840x2160"@,
            VideoSize::Size2048x1080 => "2048x1080"@,
            VideoSize::Size1920x1080 => "1920x1080"@,
            VideoSize::Size960x1280 => "960x1280"@,
            VideoSize::Size1280x960 => "1280x960"@,
            VideoSize::Size1024x1024 => "1024x1024"@,
            VideoSize::Size720x480 => "720x480"@,
        }
    }

    /// The wire name of the size.
    pub fn as_ref(&self) -> (r: &'static str)
        ensures
            r@ == self.spec_name(),
    {
        match self {
            VideoSize::Size3840x2160 => "3840x2160",
            VideoSize::Size2048x1080 => "2048x1080",
            VideoSize::Size1920x1080 => "1920x1080",
            VideoSize::Size960x1280 => "960x1280",
            VideoSize::Size1280x960 => "1280x960",
            VideoSize::Size1024x1024 => "1024x1024",
            VideoSize::Size720x480 => "720x480",
        }
    }
}

/// Trade-off between speed and output quality.
#[derive(Debug, PartialEq, Eq, Clone, Copy)]
pub enum VideoQuality {
    VideoSpeed,
    VideoQuality,
}

impl VideoQuality {
    /// The wire name of the quality.
    pub open spec fn spec_name(self) -> Seq<char> {
        match self {
            VideoQuality::VideoSpeed => "speed"@,
            VideoQuality::VideoQuality => "quality"@,
        }
    }

    /// The wire name of the quality.
    pub fn as_ref(&self) -> (r: &'static str)
        ensures
            r@ == self.spec_name(),
    {
        match self {
            VideoQuality::VideoSpeed => "speed",
            VideoQuality::VideoQuality => "quality",
        }
    }
}

/// The frame rates the service accepts; on the wire this travels as the
/// number itself.
#[derive(Debug, PartialEq, Eq, Clone, Copy, Structural)]
pub enum VideoFPS {
    VideoFps30,
    VideoFps60,
}

impl VideoFPS {
    /// The numeric frame rate this value denotes.
    pub open spec fn spec_rate(self) -> u32 {
        match self {
            VideoFPS::VideoFps30 => 30,
            VideoFPS::VideoFps60 => 60,
        }
    }

    /// The numeric frame rate.
    pub fn as_u32(&self) -> (r: u32)
        ensures
            r == self.spec_rate(),
    {
        match self {
            VideoFPS::VideoFps30 => 30,
            VideoFPS::VideoFps60 => 60,
        }
    }
}

impl From<u32> for VideoFPS {
    /// The frame rate a number denotes; anything unrecognized reads as
    /// thirty frames per second.
    fn from(value: u32) -> VideoFPS {
        match value {
            60 => VideoFPS::VideoFps60,
            _ => VideoFPS::VideoFps30,
        }
    }
}

impl vstd::std_specs::convert::FromSpecImpl<u32> for VideoFPS {
    open spec fn obeys_from_spec() -> bool {
        true
    }

    open spec fn from_spec(value: u32) -> VideoFPS {
        if value == 60 {
            VideoFPS::VideoFps60
        } else {
            VideoFPS::VideoFps30
        }
    }
}

/// The clip lengths the service accepts, in seconds; on the wire this
/// travels as the number itself.
#[derive(Debug, PartialEq, Eq, Clone, Copy, Structural)]
pub enum VideoDuration {
    VideoDuration5,
    VideoDuration10,
}

impl VideoDuration {
    /// The numeric length in seconds this value denotes.
    pub open spec fn spec_seconds(self) -> u32 {
        match self {
            VideoDuration::VideoDuration5 => 5,
            VideoDuration::VideoDuration10 => 10,
        }
    }

    /// The numeric length in seconds.
    pub fn as_u32(&self) -> (r: u32)
        ensures
            r == self.spec_seconds(),
    {
        match self {
            VideoDuration::VideoDuration5 => 5,
            VideoDuration::VideoDuration10 => 10,
        }
    }
}

impl From<u32> for VideoDuration {
    /// The length a number denotes; anything unrecognized reads as five
    /// seconds.
    fn from(value: u32) -> VideoDuration {
        match value {
            10 => VideoDuration::VideoDuration10,
            _ => VideoDuration::VideoDuration5,
        }
    }
}

impl vstd::std_specs::convert::FromSpecImpl<u32> for VideoDuration {
    open spec fn obeys_from_spec() -> bool {
        true
    }

    open spec fn from_spec(value: u32) -> VideoDuration {
        if value == 10 {
            VideoDuration::VideoDuration10
        } else {
            VideoDuration::VideoDuration5
        }
    }
}

} // verus!
