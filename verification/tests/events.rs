//! The realtime event codec: envelopes out, tagged events back in.

use base64::Engine;
use bigmodel::chat::data::Function;
use bigmodel::error::ZhipuApiError;
use bigmodel::json::JsonValue;
use bigmodel::role::Role;
use bigmodel::rtav::event::{Event, EventData};
use bigmodel::rtav::value::{ContentPart, ConversationItem, Session, TurnDetection};

fn parse_data(frame: &str) -> Result<EventData, ZhipuApiError> {
    Event::parse(frame.as_bytes()).expect("frame must be a JSON object").data()
}

#[test]
fn heartbeat_frame_is_heartbeat_not_error() {
    let ed = parse_data("{\"type\":\"heartbeat\"}").unwrap();
    assert!(ed.is_heartbeat());
    assert!(!ed.is_error());
    assert!(!ed.is_none());
}

#[test]
fn unrecognized_tag_yields_the_unknown_variant() {
    let ed = parse_data("{\"type\":\"future_event_x\",\"whatever\":1}").unwrap();
    assert!(ed.is_none());
    // a frame without a type at all reads the same way
    let ed2 = parse_data("{\"data\":3}").unwrap();
    assert!(ed2.is_none());
}

#[test]
fn error_event_parses_and_resolves_to_an_error_value() {
    let ed = parse_data(
        "{\"type\":\"error\",\"error\":{\"type\":\"server_error\",\"message\":\"boom\",\"code\":\"500\"}}",
    )
    .unwrap();
    assert!(ed.is_error());
    match ed.resolve() {
        Err(ZhipuApiError::Realtime(e)) => {
            assert_eq!(e.code, "500");
            assert_eq!(e.message.as_deref(), Some("boom"));
            assert_eq!(e.describe(), "boom (Error code: 500)");
        }
        other => panic!("expected a realtime error, got {other:?}"),
    }
}

#[test]
fn audio_delta_decodes_base64_to_the_same_byte_count() {
    let raw: Vec<u8> = (0u8..32u8).collect();
    let b64 = base64::engine::general_purpose::STANDARD.encode(&raw);
    let frame = format!(
        "{{\"type\":\"response.audio.delta\",\"delta\":\"{b64}\",\"content_index\":0,\"output_index\":1,\"response_id\":\"r1\"}}"
    );
    match parse_data(&frame).unwrap() {
        EventData::ResponseAudioDelta { delta, content_index, output_index, response_id } => {
            assert_eq!(delta, raw);
            assert_eq!(delta.len(), 32);
            assert_eq!(content_index, 0);
            assert_eq!(output_index, 1);
            assert_eq!(response_id, "r1");
        }
        other => panic!("wrong variant: {other:?}"),
    }
}

#[test]
fn invalid_base64_is_a_local_decode_error() {
    let frame = "{\"type\":\"response.audio.delta\",\"delta\":\"!!!not-base64!!!\",\"content_index\":0,\"output_index\":0,\"response_id\":\"r1\"}";
    match parse_data(frame) {
        Err(ZhipuApiError::Decode(_)) => {}
        other => panic!("expected a decode error, got {other:?}"),
    }
    // the codec stays usable for the next frame
    assert!(parse_data("{\"type\":\"heartbeat\"}").unwrap().is_heartbeat());
}

#[test]
fn missing_required_field_is_a_json_error() {
    let frame = "{\"type\":\"conversation.item.deleted\"}";
    match parse_data(frame) {
        Err(ZhipuApiError::Json(_)) => {}
        other => panic!("expected a json error, got {other:?}"),
    }
}

#[test]
fn text_delta_carries_its_fields() {
    let frame = "{\"type\":\"response.text.delta\",\"delta\":\"hel\",\"content_index\":2,\"output_index\":0,\"item_id\":\"i1\",\"response_id\":\"r9\"}";
    match parse_data(frame).unwrap() {
        EventData::ResponseTextDelta { delta, content_index, output_index, item_id, response_id } => {
            assert_eq!(delta, "hel");
            assert_eq!(content_index, 2);
            assert_eq!(output_index, 0);
            assert_eq!(item_id, "i1");
            assert_eq!(response_id, "r9");
        }
        other => panic!("wrong variant: {other:?}"),
    }
}

#[test]
fn session_update_envelope_round_trips_through_wire_text() {
    let mut session = Session::new();
    session.with_flash_model();
    session.with_voice("tongtong");
    session.with_instructions("answer briefly");
    let mut td = TurnDetection::new();
    td.with_server_vad();
    session.with_turn_detection(&td);
    let tools = vec![Function {
        name: "get_weather".to_string(),
        description: "look a forecast up".to_string(),
        parameters: "{\"city\":\"string\"}".to_string(),
    }];
    session.with_tools(&tools);
    let ev = Event::new_session_update(&session).unwrap();
    assert!(ev.id().unwrap().starts_with("evt-"));
    let wire = ev.into_wire();
    // the envelope really went through base64-free JSON text: parse it back
    let back = Event::parse(wire.as_bytes()).unwrap();
    match back.data().unwrap() {
        EventData::Unknown => {}
        other => panic!("client tags are not inbound events: {other:?}"),
    }
    // the payload itself reads back to the same configuration
    let reread = Event::parse(wire.as_bytes()).unwrap();
    let sv = bigmodel::json::lookup(&reread.entries, "session").expect("session payload");
    let s2 = Session::from_json(sv).expect("payload reads back");
    assert_eq!(s2.model, "glm-realtime-flash");
    assert_eq!(s2.voice.as_deref(), Some("tongtong"));
    assert_eq!(s2.instructions.as_deref(), Some("answer briefly"));
    let td2 = s2.turn_detection.unwrap();
    assert_eq!(td2, td);
    assert_eq!(s2.input_audio_format, "wav");
    assert_eq!(s2.output_audio_format, "pcm");
    // the tool list survives the round trip too
    assert_eq!(s2.tools, Some(tools));
}

#[test]
fn conversation_item_round_trips_field_for_field() {
    let mut item = ConversationItem::new();
    item.with_role(Role::User);
    item.content = vec![ContentPart::Text("hello there".to_string())];
    item.kind = "message".to_string();
    let v = item.to_json();
    let back = ConversationItem::from_json(&v).expect("a built item reads back");
    assert_eq!(back.kind, "message");
    assert_eq!(back.role, Some(Role::User));
    assert_eq!(back.content, vec![ContentPart::Text("hello there".to_string())]);
    assert_eq!(back.output, None);
}

#[test]
fn audio_append_envelope_carries_base64_not_raw_bytes() {
    let audio: Vec<u8> = vec![0, 255, 10, 13, 100];
    let ev = Event::new_input_audio_buffer_append(&audio).unwrap();
    let wire = ev.into_wire();
    let expected = base64::engine::general_purpose::STANDARD.encode(&audio);
    // the wire holds the base64 text, not the raw bytes
    assert!(wire.contains(&format!("\"audio\":\"{expected}\"")));
    assert_ne!(expected.as_bytes(), audio.as_slice());
}

#[test]
fn bare_envelopes_carry_tag_id_and_timestamp() {
    let ev = Event::new_response_create().unwrap();
    let wire = ev.into_wire();
    assert!(wire.contains("\"type\":\"response.create\""));
    assert!(wire.contains("\"event_id\":\"evt-"));
    assert!(wire.contains("\"client_timestamp\":\""));
    let cancel = Event::new_response_cancel().unwrap().into_wire();
    assert!(cancel.contains("\"type\":\"response.cancel\""));
    let commit = Event::new_input_audio_buffer_commit().unwrap().into_wire();
    assert!(commit.contains("\"type\":\"input_audio_buffer.commit\""));
    let clear = Event::new_input_audio_buffer_clear().unwrap().into_wire();
    assert!(clear.contains("\"type\":\"input_audio_buffer.clear\""));
}

#[test]
fn own_envelopes_read_a_zero_numeric_timestamp() {
    // an outbound envelope writes its timestamp as a string, so reading
    // it back as a number yields zero, as it always has
    let ev = Event::new_response_create().unwrap();
    assert_eq!(ev.client_timestamp(), 0);
}

#[test]
fn content_part_without_a_type_reads_as_an_empty_audio_part() {
    // any transcript is ignored when no type tag gives it a meaning
    let untagged = JsonValue::Obj(vec![(
        "transcript".to_string(),
        JsonValue::Str("x".to_string()),
    )]);
    assert_eq!(ContentPart::from_value(&untagged), Some(ContentPart::Audio(String::new())));
    let empty_tag = JsonValue::Obj(vec![
        ("type".to_string(), JsonValue::Str(String::new())),
        ("transcript".to_string(), JsonValue::Str("x".to_string())),
    ]);
    assert_eq!(ContentPart::from_value(&empty_tag), Some(ContentPart::Audio(String::new())));
    // a tagged audio part does read its transcript
    let tagged = JsonValue::Obj(vec![
        ("type".to_string(), JsonValue::Str("audio".to_string())),
        ("transcript".to_string(), JsonValue::Str("x".to_string())),
    ]);
    assert_eq!(ContentPart::from_value(&tagged), Some(ContentPart::Audio("x".to_string())));
    // an unrecognized non-empty tag denotes nothing
    let odd = JsonValue::Obj(vec![("type".to_string(), JsonValue::Str("video".to_string()))]);
    assert_eq!(ContentPart::from_value(&odd), None);
}

#[test]
fn rate_limits_require_the_reset_field_and_parse_without_its_value() {
    let frame = "{\"type\":\"rate_limits.updated\",\"rate_limits\":[{\"limit\":9,\"remaining\":4,\"name\":\"requests\",\"reset_seconds\":1.5}]}";
    match parse_data(frame).unwrap() {
        EventData::RateLimitsUpdated(rls) => {
            assert_eq!(rls.len(), 1);
            assert_eq!(rls[0].limit, 9);
            assert_eq!(rls[0].remaining, 4);
            assert_eq!(rls[0].name, "requests");
        }
        other => panic!("wrong variant: {other:?}"),
    }
    // an entry without the reset field is rejected, as it always was
    let missing = "{\"type\":\"rate_limits.updated\",\"rate_limits\":[{\"limit\":9,\"remaining\":4,\"name\":\"requests\"}]}";
    match parse_data(missing) {
        Err(ZhipuApiError::Json(_)) => {}
        other => panic!("expected a json error, got {other:?}"),
    }
}

#[test]
fn session_created_event_reads_the_configuration() {
    let frame = "{\"type\":\"session.created\",\"session\":{\"id\":\"s1\",\"model\":\"glm-realtime-air\",\"input_audio_format\":\"wav\",\"output_audio_format\":\"pcm\",\"beta_fields\":{\"chat_mode\":\"audio\",\"tts_source\":\"e2e\"}}}";
    match parse_data(frame).unwrap() {
        EventData::SessionCreated(s) => {
            assert_eq!(s.id, "s1");
            assert_eq!(s.model, "glm-realtime-air");
        }
        other => panic!("wrong variant: {other:?}"),
    }
}

#[test]
fn response_done_reports_status_and_usage() {
    let frame = "{\"type\":\"response.done\",\"response\":{\"id\":\"r1\",\"status\":\"completed\",\"usage\":{\"total_tokens\":7,\"input_tokens\":3,\"output_tokens\":4,\"input_token_details\":{\"text_tokens\":3,\"audio_tokens\":0},\"output_token_details\":{\"text_tokens\":4,\"audio_tokens\":0}}}}";
    match parse_data(frame).unwrap() {
        EventData::ResponseDone(r) => {
            assert_eq!(r.id, "r1");
            let u = r.usage.unwrap();
            assert_eq!(u.total_tokens, 7);
            assert_eq!(u.input_token_details.text_tokens, 3);
        }
        other => panic!("wrong variant: {other:?}"),
    }
}
