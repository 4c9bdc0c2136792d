//! Builders, catalogues and formats.

use bigmodel::bigmodel::GLM4;
use bigmodel::builder::Builder;
use bigmodel::chat::ChatModelName;
use bigmodel::images::{ImageSize, Images, ImagesModelName};
use bigmodel::role::Role;
use bigmodel::rtav::value::{
    BetaFields, ChatMode, ConversationItemStatus, GreetingConfig, InputAudioNoiseReduction,
    TurnDetection,
};
use bigmodel::values::Model;
use bigmodel::videos::{VideoDuration, VideoFPS, VideoQuality, Videos, VideosModelName};

#[test]
fn test_video_fps_serialization() {
    let fps30 = VideoFPS::VideoFps30;
    let fps60 = VideoFPS::VideoFps60;
    assert_eq!(fps30.as_u32(), 30);
    assert_eq!(fps60.as_u32(), 60);
}

#[test]
fn test_video_fps_deserialization() {
    let fps30 = VideoFPS::from(30u32);
    let fps60 = VideoFPS::from(60u32);
    assert!(matches!(fps30, VideoFPS::VideoFps30));
    assert!(matches!(fps60, VideoFPS::VideoFps60));
}

#[test]
fn test_video_fps_round_trip() {
    let original_fps30 = VideoFPS::VideoFps30;
    let original_fps60 = VideoFPS::VideoFps60;
    let deserialized30 = VideoFPS::from(original_fps30.as_u32());
    let deserialized60 = VideoFPS::from(original_fps60.as_u32());
    assert!(matches!(deserialized30, VideoFPS::VideoFps30));
    assert!(matches!(deserialized60, VideoFPS::VideoFps60));
}

#[test]
fn test_video_fps_invalid_value_defaults() {
    let invalid_fps = VideoFPS::from(120u32);
    assert!(matches!(invalid_fps, VideoFPS::VideoFps30));
    let another_invalid = VideoFPS::from(0u32);
    assert!(matches!(another_invalid, VideoFPS::VideoFps30));
}

#[test]
fn test_video_fps_in_struct() {
    let (url, req) = Videos::new("cogvideox-3")
        .prompt("test_video")
        .fps(VideoFPS::VideoFps60)
        .build();
    assert_eq!(url, "https://open.bigmodel.cn/api/paas/v4/videos/generations");
    let json = req.to_json();
    // the frame rate travels as a number
    assert!(json.contains("\"fps\":60"), "got {json}");
    assert!(json.contains("\"prompt\":\"test_video\""));
}

#[test]
fn video_duration_conversions() {
    assert_eq!(VideoDuration::VideoDuration5.as_u32(), 5);
    assert_eq!(VideoDuration::VideoDuration10.as_u32(), 10);
    assert!(matches!(VideoDuration::from(10u32), VideoDuration::VideoDuration10));
    assert!(matches!(VideoDuration::from(7u32), VideoDuration::VideoDuration5));
}

#[test]
fn image_request_builds_with_url_and_fields() {
    let (url, req) = Images::new("cogview-4")
        .prompt("a quiet harbour at dawn")
        .size(ImageSize::Size1024x1024)
        .user_id("u-1")
        .build();
    assert_eq!(url, "https://open.bigmodel.cn/api/paas/v4/images/generations");
    let json = req.to_json();
    assert_eq!(
        json,
        "{\"model\":\"cogview-4\",\"prompt\":\"a quiet harbour at dawn\",\"size\":\"1024x1024\",\"user_id\":\"u-1\"}"
    );
}

#[test]
fn image_request_skips_unset_fields() {
    let (_, req) = Images::new("cogview-3-flash").prompt("p").build();
    assert_eq!(req.to_json(), "{\"model\":\"cogview-3-flash\",\"prompt\":\"p\"}");
}

#[test]
fn video_polling_request_appends_the_task_id() {
    let (url, req) = Videos::new("cogvideox-2").response_id("task-42").build_response();
    assert_eq!(url, "https://open.bigmodel.cn/api/paas/v4/async-result/task-42");
    assert_eq!(req.to_json(), "{\"id\":\"task-42\"}");
}

#[test]
fn builder_entry_points_open_builders() {
    let b = bigmodel::builder::BigModel::<Images>::new("cogview-4");
    assert_eq!(b.model, "cogview-4");
    let v = <Videos as Builder>::new("cogvideox-flash");
    assert_eq!(v.model, "cogvideox-flash");
}

#[test]
fn model_names_render_their_wire_names() {
    assert_eq!(Model::GLM4Plus.as_ref(), "glm-4-plus");
    assert_eq!(Model::CogView35.as_ref(), "cogview-3.5");
    assert_eq!(ChatModelName::Glm4p5V.as_ref(), "glm-4.5v");
    assert_eq!(ChatModelName::CharGlm4.as_ref(), "charglm-4");
    assert_eq!(GLM4::GLM4FlashX.as_ref(), "glm-4-flash-x");
    assert_eq!(ImagesModelName::Cogview4.as_ref(), "cogview-4");
    assert_eq!(VideosModelName::CogvideoxFlash.as_ref(), "cogvideox-flash");
    assert_eq!(VideoQuality::VideoSpeed.as_ref(), "speed");
    assert_eq!(Role::Assistant.as_ref(), "assistant");
    assert_eq!(bigmodel::values::Role::System.as_ref(), "system");
}

#[test]
fn roles_parse_back_from_wire_names() {
    assert_eq!(Role::from_name("user"), Some(Role::User));
    assert_eq!(Role::from_name("assistant"), Some(Role::Assistant));
    assert_eq!(Role::from_name("system"), Some(Role::System));
    assert_eq!(Role::from_name("robot"), None);
    assert_eq!(Role::from_name(""), None);
}

#[test]
fn conversation_item_status_parses_leniently() {
    assert!(matches!(ConversationItemStatus::parse("completed"), ConversationItemStatus::Completed));
    assert!(matches!(
        ConversationItemStatus::parse("incomplete"),
        ConversationItemStatus::Incomplete
    ));
    assert!(matches!(
        ConversationItemStatus::parse("anything-else"),
        ConversationItemStatus::InProgress
    ));
}

#[test]
fn session_value_builders_set_their_fields() {
    let mut beta = BetaFields::new();
    assert_eq!(beta.tts_source.as_deref(), Some("e2e"));
    beta.with_chat_mode(ChatMode::VideoPassive);
    beta.with_auto_search(false);
    beta.with_greeting_config(GreetingConfig::enable());
    beta.with_content("hello caller");
    assert!(matches!(beta.chat_mode, ChatMode::VideoPassive));
    assert_eq!(beta.auto_search, Some(false));
    assert_eq!(beta.greeting_config, Some(GreetingConfig::enable()));
    assert_eq!(beta.content.as_deref(), Some("hello caller"));

    let mut td = TurnDetection::new();
    td.with_client_vad();
    let near = InputAudioNoiseReduction::near();
    assert_eq!(near.kind, "near_field");
    let far = InputAudioNoiseReduction::far();
    assert_eq!(far.kind, "far_field");
    let _ = (td, GreetingConfig::disable());
}
