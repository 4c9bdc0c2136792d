//! The realtime event codec.
//!
//! Outbound, a client intent becomes an [`Event`]: a tagged envelope with
//! a client-generated correlation id and timestamp. Inbound, a wire frame
//! becomes an [`EventData`]: one of a closed set of variants picked by
//! the frame's `type` string, with an `Unknown`-style [`EventData::Unknown`]
//! for forward compatibility. The contract of the inbound parse is the
//! single predicate [`parse_post`].

use crate::b64::{b64_decode, b64_decoding, b64_encode, b64_encoding};
use crate::error::ZhipuApiError;
use crate::json::{
    json_dump, json_parse, lookup, spec_int_field, spec_lookup, spec_str_field, spec_u32_field,
    str_eq, JsonValue,
};
use crate::rtav::value::{
    req_str_field, req_u32_field, Conversation, ConversationItem, Error, RateLimit, Response,
    Session,
};
use vstd::prelude::*;

verus! {

/// Relies on `std::time::SystemTime::now` and `duration_since`: the
/// milliseconds since the Unix epoch, as decimal text. The value depends
/// on the clock, so nothing is promised of it; an error comes only when
/// the clock reads before the epoch.
#[verifier::external_body]
fn now_millis_text() -> (r: Result<String, ()>)
    ensures
        true,
{
    std::time::SystemTime::now().duration_since(std::time::UNIX_EPOCH).map(
        |d| d.as_millis().to_string(),
    ).map_err(|_| ())
}

/// The three envelope entries every outbound event carries, standing at
/// `k`: the client event id `evt-<ts>`, the type tag, and the client
/// timestamp `<ts>`.
pub open spec fn envelope_meta(
    es: Seq<(String, JsonValue)>,
    k: int,
    tag: Seq<char>,
    ts: Seq<char>,
) -> bool {
    &&& es.len() == k + 3
    &&& es[k].0@ == "event_id"@ && (es[k].1 matches JsonValue::Str(s) && s@ == "evt-"@ + ts)
    &&& es[k + 1].0@ == "type"@ && (es[k + 1].1 matches JsonValue::Str(s) && s@ == tag)
    &&& es[k + 2].0@ == "client_timestamp"@ && (es[k + 2].1 matches JsonValue::Str(s) && s@ == ts)
}

/// The envelope entries close over some clock reading: the frame has
/// `k` payload entries followed by the id, tag and timestamp entries.
pub open spec fn enveloped(ev: Event, k: int, tag: Seq<char>) -> bool {
    exists|ts: Seq<char>| #[trigger] envelope_meta(ev.entries@, k, tag, ts)
}

/// An outbound wire envelope: the key/value entries of one frame.
#[derive(Debug, PartialEq)]
pub struct Event {
    /// The frame's entries, in the order they are written.
    pub entries: Vec<(String, JsonValue)>,
}

impl Event {
    /// The JSON text of the envelope, ready to send as one text frame.
    pub fn into_wire(self) -> (r: String)
        ensures
            r@ == crate::json::dumped_json(JsonValue::Obj(self.entries)),
    {
        let v = JsonValue::Obj(self.entries);
        json_dump(&v)
    }

    /// The inbound event this frame carries, dispatched on its `type`.
    pub fn data(&self) -> (r: Result<EventData, ZhipuApiError>)
        ensures
            parse_post(self.entries@, r),
    {
        EventData::parse(&self.entries)
    }

    /// Reads one inbound text frame. Any frame that is not a JSON object
    /// is rejected as a decode error local to that frame.
    pub fn parse(frame: &[u8]) -> (r: Result<Event, ZhipuApiError>)
        ensures
            match crate::json::parsed_json(frame@) {
                Some(JsonValue::Obj(es)) => r matches Ok(ev) && ev.entries == es,
                _ => r matches Err(ZhipuApiError::Json(_)),
            },
    {
        match json_parse(frame) {
            Some(JsonValue::Obj(es)) => Ok(Event { entries: es }),
            Some(_) => Err(ZhipuApiError::Json(String::from_str("frame is not an object"))),
            None => Err(ZhipuApiError::Json(String::from_str("frame is not valid JSON"))),
        }
    }

    /// The client-generated id of this envelope, when it carries one.
    pub fn id(&self) -> (r: Option<&str>)
        ensures
            match r {
                Some(s) => spec_lookup(self.entries@, "event_id"@) matches Some(JsonValue::Str(t))
                    && t@ == s@,
                None => !(spec_lookup(self.entries@, "event_id"@) matches Some(
                    JsonValue::Str(_),
                )),
            },
    {
        match lookup(&self.entries, "event_id") {
            Some(JsonValue::Str(s)) => Some(s.as_str()),
            _ => None,
        }
    }

    /// The client timestamp, when the frame carries one as a number;
    /// zero otherwise. An outbound envelope writes its timestamp as a
    /// string, so on its own frames this reads zero, as it always has.
    pub fn client_timestamp(&self) -> (r: u64)
        ensures
            match spec_int_field(self.entries@, "client_timestamp"@) {
                Some(i) => if i >= 0 {
                    r == i as u64
                } else {
                    r == 0
                },
                None => r == 0,
            },
    {
        match lookup(&self.entries, "client_timestamp") {
            Some(JsonValue::Int(i)) => {
                let i = *i;
                if i >= 0 {
                    i as u64
                } else {
                    0
                }
            },
            _ => 0,
        }
    }

    /// Wraps payload entries into an envelope: the payload first, then
    /// the id, tag and timestamp entries.
    fn build_client_event(payload: Vec<(String, JsonValue)>, tag: &str, ts: &str) -> (r: Event)
        ensures
            r.entries@.len() == payload@.len() + 3,
            forall|j: int| 0 <= j < payload@.len() ==> (#[trigger] r.entries@[j]) == payload@[j],
            envelope_meta(r.entries@, payload@.len() as int, tag@, ts@),
    {
        let mut es = payload;
        let eid = String::from_str("evt-").concat(ts);
        es.push((String::from_str("event_id"), JsonValue::Str(eid)));
        es.push((String::from_str("type"), JsonValue::Str(String::from_str(tag))));
        es.push((String::from_str("client_timestamp"), JsonValue::Str(String::from_str(ts))));
        Event { entries: es }
    }

    /// An `input_audio_buffer.append` envelope: uploads audio, encoded
    /// as base64, to the service's input buffer. With server-side turn
    /// detection the service commits on its own; with client-side
    /// detection the caller commits explicitly.
    pub fn new_input_audio_buffer_append(audio: &[u8]) -> (r: Result<Event, ZhipuApiError>)
        requires
            4 * audio@.len() <= usize::MAX,
        ensures
            match r {
                Ok(ev) => enveloped(ev, 1, "input_audio_buffer.append"@)
                        && ev.entries@[0].0@ == "audio"@ && (ev.entries@[0].1
                        matches JsonValue::Str(s) && s@ == b64_encoding(audio@)),
                Err(e) => e is SystemTime,
            },
    {
        let ts = match now_millis_text() {
            Ok(t) => t,
            Err(_) => {
                return Err(ZhipuApiError::SystemTime(String::from_str("clock before epoch")));
            },
        };
        let mut payload: Vec<(String, JsonValue)> = Vec::new();
        payload.push((String::from_str("audio"), JsonValue::Str(b64_encode(audio))));
        let ev = Event::build_client_event(payload, "input_audio_buffer.append", ts.as_str());
        proof {
            assert(envelope_meta(ev.entries@, 1, "input_audio_buffer.append"@, ts@));
            assert(enveloped(ev, 1, "input_audio_buffer.append"@));
        }
        Ok(ev)
    }

    /// An `input_audio_buffer.commit` envelope: commits the uploaded
    /// audio for inference. Audio must have been appended first; with
    /// server-side turn detection this envelope is not sent at all.
    pub fn new_input_audio_buffer_commit() -> (r: Result<Event, ZhipuApiError>)
        ensures
            match r {
                Ok(ev) => enveloped(ev, 0, "input_audio_buffer.commit"@),
                Err(e) => e is SystemTime,
            },
    {
        Event::new_bare("input_audio_buffer.commit")
    }

    /// An `input_audio_buffer.clear` envelope: discards the audio
    /// buffered on the service side.
    pub fn new_input_audio_buffer_clear() -> (r: Result<Event, ZhipuApiError>)
        ensures
            match r {
                Ok(ev) => enveloped(ev, 0, "input_audio_buffer.clear"@),
                Err(e) => e is SystemTime,
            },
    {
        Event::new_bare("input_audio_buffer.clear")
    }

    /// An `input_audio_buffer.append_video_frame` envelope: uploads one
    /// JPEG video frame, encoded as base64.
    pub fn new_input_audio_buffer_append_video_frame(video_frame: &[u8]) -> (r: Result<
        Event,
        ZhipuApiError,
    >)
        requires
            4 * video_frame@.len() <= usize::MAX,
        ensures
            match r {
                Ok(ev) => enveloped(ev, 1, "input_audio_buffer.append_video_frame"@) && ev.entries@[0].0@ == "video_frame"@ && (ev.entries@[0].1
                        matches JsonValue::Str(s) && s@ == b64_encoding(video_frame@)),
                Err(e) => e is SystemTime,
            },
    {
        let ts = match now_millis_text() {
            Ok(t) => t,
            Err(_) => {
                return Err(ZhipuApiError::SystemTime(String::from_str("clock before epoch")));
            },
        };
        let mut payload: Vec<(String, JsonValue)> = Vec::new();
        payload.push((String::from_str("video_frame"), JsonValue::Str(b64_encode(video_frame))));
        let ev = Event::build_client_event(
            payload,
            "input_audio_buffer.append_video_frame",
            ts.as_str(),
        );
        proof {
            assert(envelope_meta(ev.entries@, 1, "input_audio_buffer.append_video_frame"@, ts@));
            assert(enveloped(ev, 1, "input_audio_buffer.append_video_frame"@));
        }
        Ok(ev)
    }

    /// A `conversation.item.create` envelope: adds a message or a
    /// function call's result to the conversation. A function call's
    /// result must wait for the call's `response.done` event; the session
    /// does not enforce that order.
    pub fn new_conversation_item_create(item: &ConversationItem) -> (r: Result<
        Event,
        ZhipuApiError,
    >)
        ensures
            match r {
                Ok(ev) => enveloped(ev, 1, "conversation.item.create"@)
                        && ev.entries@[0].0@ == "item"@ && ConversationItem::json_ok(
                        ev.entries@[0].1,
                    ) && item.parsed_from(ev.entries@[0].1),
                Err(e) => e is SystemTime,
            },
    {
        let ts = match now_millis_text() {
            Ok(t) => t,
            Err(_) => {
                return Err(ZhipuApiError::SystemTime(String::from_str("clock before epoch")));
            },
        };
        let mut payload: Vec<(String, JsonValue)> = Vec::new();
        payload.push((String::from_str("item"), item.to_json()));
        let ev = Event::build_client_event(payload, "conversation.item.create", ts.as_str());
        proof {
            assert(envelope_meta(ev.entries@, 1, "conversation.item.create"@, ts@));
            assert(enveloped(ev, 1, "conversation.item.create"@));
        }
        Ok(ev)
    }

    /// A `conversation.item.delete` envelope: removes one item from the
    /// conversation history.
    pub fn new_conversation_item_delete(item_id: &str) -> (r: Result<Event, ZhipuApiError>)
        ensures
            match r {
                Ok(ev) => enveloped(ev, 1, "conversation.item.delete"@)
                        && ev.entries@[0].0@ == "item_id"@ && (ev.entries@[0].1
                        matches JsonValue::Str(s) && s@ == item_id@),
                Err(e) => e is SystemTime,
            },
    {
        let ts = match now_millis_text() {
            Ok(t) => t,
            Err(_) => {
                return Err(ZhipuApiError::SystemTime(String::from_str("clock before epoch")));
            },
        };
        let mut payload: Vec<(String, JsonValue)> = Vec::new();
        payload.push((String::from_str("item_id"), JsonValue::Str(item_id.to_owned())));
        let ev = Event::build_client_event(payload, "conversation.item.delete", ts.as_str());
        proof {
            assert(envelope_meta(ev.entries@, 1, "conversation.item.delete"@, ts@));
            assert(enveloped(ev, 1, "conversation.item.delete"@));
        }
        Ok(ev)
    }

    /// A `response.create` envelope: asks the service to run inference
    /// and create a response. With server-side turn detection the service
    /// creates responses on its own.
    pub fn new_response_create() -> (r: Result<Event, ZhipuApiError>)
        ensures
            match r {
                Ok(ev) => enveloped(ev, 0, "response.create"@),
                Err(e) => e is SystemTime,
            },
    {
        Event::new_bare("response.create")
    }

    /// A `response.cancel` envelope: asks the service to cancel the
    /// response in flight.
    pub fn new_response_cancel() -> (r: Result<Event, ZhipuApiError>)
        ensures
            match r {
                Ok(ev) => enveloped(ev, 0, "response.cancel"@),
                Err(e) => e is SystemTime,
            },
    {
        Event::new_bare("response.cancel")
    }

    /// A `session.update` envelope: sends the session configuration.
    /// Switching the call mode from video to audio drops the
    /// conversation history; from audio to video keeps it.
    pub fn new_session_update(session: &Session) -> (r: Result<Event, ZhipuApiError>)
        ensures
            match r {
                Ok(ev) => enveloped(ev, 1, "session.update"@)
                        && ev.entries@[0].0@ == "session"@ && Session::json_ok(ev.entries@[0].1)
                        && session.parsed_from(ev.entries@[0].1),
                Err(e) => e is SystemTime,
            },
    {
        let ts = match now_millis_text() {
            Ok(t) => t,
            Err(_) => {
                return Err(ZhipuApiError::SystemTime(String::from_str("clock before epoch")));
            },
        };
        let mut payload: Vec<(String, JsonValue)> = Vec::new();
        payload.push((String::from_str("session"), session.to_json()));
        let ev = Event::build_client_event(payload, "session.update", ts.as_str());
        proof {
            assert(envelope_meta(ev.entries@, 1, "session.update"@, ts@));
            assert(enveloped(ev, 1, "session.update"@));
        }
        Ok(ev)
    }

    /// An envelope with no payload beyond the tag and correlation data.
    fn new_bare(tag: &str) -> (r: Result<Event, ZhipuApiError>)
        ensures
            match r {
                Ok(ev) => enveloped(ev, 0, tag@),
                Err(e) => e is SystemTime,
            },
    {
        let ts = match now_millis_text() {
            Ok(t) => t,
            Err(_) => {
                return Err(ZhipuApiError::SystemTime(String::from_str("clock before epoch")));
            },
        };
        let ev = Event::build_client_event(Vec::new(), tag, ts.as_str());
        proof {
            assert(envelope_meta(ev.entries@, 0, tag@, ts@));
            assert(enveloped(ev, 0, tag@));
        }
        Ok(ev)
    }
}

/// An inbound server event: one of a closed set of variants, picked by
/// the frame's `type` string. A frame without a `type`, or with a tag
/// this crate does not know, reads as [`EventData::Unknown`].
#[derive(Debug, PartialEq)]
pub enum EventData {
    /// An unrecognized or untagged frame.
    Unknown,
    /// The conversation opened with the session.
    ConversationCreated(Conversation),
    /// An item was added to the conversation.
    ConversationItemCreated(ConversationItem),
    /// Speech-to-text of buffered input audio finished.
    ConversationItemInputAudioTranscriptionCompleted {
        content_index: u32,
        item_id: String,
        transcript: String,
    },
    /// Speech-to-text of buffered input audio failed.
    ConversationItemInputAudioTranscriptionFailed {
        content_index: u32,
        item_id: String,
        error: Error,
    },
    /// An item was deleted from the conversation.
    ConversationItemDeleted { item_id: String },
    /// A recoverable error; the session stays open.
    Error(Error),
    /// The periodic keep-alive; carries nothing and means only that the
    /// session is alive. Never a termination.
    Heartbeat,
    /// The input audio buffer was committed, by the client or by
    /// server-side turn detection.
    InputAudioBufferCommitted { item_id: String },
    /// The input audio buffer was cleared.
    InputAudioBufferCleared,
    /// Server-side turn detection heard speech begin.
    InputAudioBufferSpeechStarted { audio_start_ms: u32, item_id: String },
    /// Server-side turn detection heard speech end.
    InputAudioBufferSpeechStopped { audio_end_ms: u32, item_id: String },
    /// Rate limits changed.
    RateLimitsUpdated(Vec<RateLimit>),
    /// A response was created.
    ResponseCreated(Response),
    /// A response was cancelled on the client's request.
    ResponseCancelled(Response),
    /// A chunk of generated audio, already decoded from base64.
    ResponseAudioDelta { delta: Vec<u8>, content_index: u32, output_index: u32, response_id: String },
    /// Generated audio finished.
    ResponseAudioDone { content_index: u32, output_index: u32, item_id: String, response_id: String },
    /// A chunk of the generated audio's transcript.
    ResponseAudioTranscriptDelta {
        delta: String,
        content_index: u32,
        output_index: u32,
        item_id: String,
        response_id: String,
    },
    /// The generated audio's transcript finished.
    ResponseAudioTranscriptDone {
        transcript: String,
        content_index: u32,
        output_index: u32,
        item_id: String,
        response_id: String,
    },
    /// A response finished, whatever its final state; tokens used are
    /// reported here.
    ResponseDone(Response),
    /// The model produced a function call; its result is sent back as a
    /// `function_call_output` item, only after this response's
    /// `response.done`.
    ResponseFunctionCallArgumentsDone {
        name: String,
        arguments: String,
        output_index: u32,
        response_id: String,
    },
    /// The built-in search tool ran.
    ResponseFunctionCallSimpleBrowser { name: String, session: Session },
    /// A new output item appeared in the response.
    ResponseOutputItemAdded { item: ConversationItem, output_index: u32, response_id: String },
    /// An output item finished.
    ResponseOutputItemDone { item: ConversationItem, output_index: u32, response_id: String },
    /// A content part was added to an assistant message.
    ResponseContentPartAdded {
        part: crate::rtav::value::ContentPart,
        content_index: u32,
        output_index: u32,
        item_id: String,
        response_id: String,
    },
    /// A content part finished.
    ResponseContentPartDone {
        part: crate::rtav::value::ContentPart,
        content_index: u32,
        output_index: u32,
        item_id: String,
        response_id: String,
    },
    /// A chunk of generated text.
    ResponseTextDelta {
        delta: String,
        content_index: u32,
        output_index: u32,
        item_id: String,
        response_id: String,
    },
    /// Generated text finished.
    ResponseTextDone {
        text: String,
        content_index: u32,
        output_index: u32,
        item_id: String,
        response_id: String,
    },
    /// The session was created.
    SessionCreated(Session),
    /// The session was updated.
    SessionUpdated(Session),
}

/// The frame's `type` tag, when it is a string.
pub open spec fn spec_tag(es: Seq<(String, JsonValue)>) -> Option<Seq<char>> {
    match spec_lookup(es, "type"@) {
        Some(JsonValue::Str(t)) => Some(t@),
        _ => None,
    }
}

/// The inbound tags this crate knows.
pub open spec fn known_tag(t: Seq<char>) -> bool {
    ||| t == "conversation.created"@
    ||| t == "conversation.item.created"@
    ||| t == "conversation.item.input_audio_transcription.completed"@
    ||| t == "conversation.item.input_audio_transcription.failed"@
    ||| t == "conversation.item.deleted"@
    ||| t == "error"@
    ||| t == "heartbeat"@
    ||| t == "input_audio_buffer.committed"@
    ||| t == "input_audio_buffer.cleared"@
    ||| t == "input_audio_buffer.speech_started"@
    ||| t == "input_audio_buffer.speech_stopped"@
    ||| t == "rate_limits.updated"@
    ||| t == "response.audio.delta"@
    ||| t == "response.audio.done"@
    ||| t == "response.audio_transcript.delta"@
    ||| t == "response.audio_transcript.done"@
    ||| t == "response.created"@
    ||| t == "response.cancelled"@
    ||| t == "response.done"@
    ||| t == "response.function_call_arguments.done"@
    ||| t == "response.function_call.simple_browser"@
    ||| t == "response.output_item.added"@
    ||| t == "response.output_item.done"@
    ||| t == "response.content_part.added"@
    ||| t == "response.content_part.done"@
    ||| t == "response.text.delta"@
    ||| t == "response.text.done"@
    ||| t == "session.created"@
    ||| t == "session.updated"@
}

/// What [`EventData::parse`] returns for a frame: the dispatch on the
/// frame's `type`, one case per known tag in the order the parser tries
/// them, the `Unknown` variant for everything else. This predicate is
/// the full contract of the inbound half of the codec.
pub open spec fn parse_post(
    es: Seq<(String, JsonValue)>,
    r: Result<EventData, ZhipuApiError>,
) -> bool {
    match spec_tag(es) {
        None => r == Ok::<EventData, ZhipuApiError>(EventData::Unknown),
        Some(t) => if t == "heartbeat"@ {
            r == Ok::<EventData, ZhipuApiError>(
            EventData::Heartbeat,
        )
        } else if t == "input_audio_buffer.cleared"@ {
            r == Ok::<
            EventData,
            ZhipuApiError,
        >(EventData::InputAudioBufferCleared)
        } else if t == "conversation.created"@ {
            (match spec_lookup(
            es,
            "conversation"@,
        ) {
            Some(cv) => if Conversation::json_ok(cv) {
                r matches Ok(EventData::ConversationCreated(c)) && c.parsed_from(cv)
            } else {
                r matches Err(ZhipuApiError::Json(_))
            },
            None => r matches Err(ZhipuApiError::Json(_)),
        })
        } else if t == "conversation.item.created"@ {
            (match spec_lookup(es, "item"@) {
            Some(iv) => if ConversationItem::json_ok(iv) {
                r matches Ok(EventData::ConversationItemCreated(it)) && it.parsed_from(iv)
            } else {
                r matches Err(ZhipuApiError::Json(_))
            },
            None => r matches Err(ZhipuApiError::Json(_)),
        })
        } else if t == "conversation.item.input_audio_transcription.completed"@ {
            (match (
            spec_u32_field(es, "content_index"@),
            spec_str_field(es, "item_id"@),
            spec_str_field(es, "transcript"@),
        ) {
            (Some(ci), Some(ii), Some(tr)) => r matches Ok(
                EventData::ConversationItemInputAudioTranscriptionCompleted {
                    content_index,
                    item_id,
                    transcript,
                },
            ) && content_index == ci && item_id@ == ii && transcript@ == tr,
            _ => r matches Err(ZhipuApiError::Json(_)),
        })
        } else if t == "conversation.item.input_audio_transcription.failed"@ {
            (match (
            spec_u32_field(es, "content_index"@),
            spec_str_field(es, "item_id"@),
            spec_lookup(es, "error"@),
        ) {
            (Some(ci), Some(ii), Some(ev)) => if Error::json_ok(ev) {
                r matches Ok(
                    EventData::ConversationItemInputAudioTranscriptionFailed {
                        content_index,
                        item_id,
                        error,
                    },
                ) && content_index == ci && item_id@ == ii && error.parsed_from(ev)
            } else {
                r matches Err(ZhipuApiError::Json(_))
            },
            _ => r matches Err(ZhipuApiError::Json(_)),
        })
        } else if t == "conversation.item.deleted"@ {
            (match spec_str_field(
            es,
            "item_id"@,
        ) {
            Some(ii) => r matches Ok(EventData::ConversationItemDeleted { item_id }) && item_id@ == ii,
            None => r matches Err(ZhipuApiError::Json(_)),
        })
        } else if t == "error"@ {
            (match spec_lookup(es, "error"@) {
            Some(ev) => if Error::json_ok(ev) {
                r matches Ok(EventData::Error(e)) && e.parsed_from(ev)
            } else {
                r matches Err(ZhipuApiError::Json(_))
            },
            None => r matches Err(ZhipuApiError::Json(_)),
        })
        } else if t == "input_audio_buffer.committed"@ {
            (match spec_str_field(
            es,
            "item_id"@,
        ) {
            Some(ii) => r matches Ok(EventData::InputAudioBufferCommitted { item_id }) && item_id@
                == ii,
            None => r matches Err(ZhipuApiError::Json(_)),
        })
        } else if t == "input_audio_buffer.speech_started"@ {
            (match (
            spec_u32_field(es, "audio_start_ms"@),
            spec_str_field(es, "item_id"@),
        ) {
            (Some(ms), Some(ii)) => r matches Ok(
                EventData::InputAudioBufferSpeechStarted { audio_start_ms, item_id },
            ) && audio_start_ms == ms && item_id@ == ii,
            _ => r matches Err(ZhipuApiError::Json(_)),
        })
        } else if t == "input_audio_buffer.speech_stopped"@ {
            (match (
            spec_u32_field(es, "audio_end_ms"@),
            spec_str_field(es, "item_id"@),
        ) {
            (Some(ms), Some(ii)) => r matches Ok(
                EventData::InputAudioBufferSpeechStopped { audio_end_ms, item_id },
            ) && audio_end_ms == ms && item_id@ == ii,
            _ => r matches Err(ZhipuApiError::Json(_)),
        })
        } else if t == "rate_limits.updated"@ {
            (match spec_lookup(es, "rate_limits"@) {
            Some(JsonValue::Arr(xs)) => if (forall|j: int|
                0 <= j < xs@.len() ==> RateLimit::json_ok(#[trigger] xs@[j])) {
                r matches Ok(EventData::RateLimitsUpdated(rls)) && rls@.len() == xs@.len() && (forall|
                    j: int,
                |
                    0 <= j < xs@.len() ==> (#[trigger] rls@[j]).parsed_from(xs@[j]))
            } else {
                r matches Err(ZhipuApiError::Json(_))
            },
            _ => r matches Err(ZhipuApiError::Json(_)),
        })
        } else if t == "response.audio.delta"@ {
            (match spec_str_field(es, "delta"@) {
            Some(d) => match b64_decoding(d) {
                Some(bs) => match (
                    spec_u32_field(es, "content_index"@),
                    spec_u32_field(es, "output_index"@),
                    spec_str_field(es, "response_id"@),
                ) {
                    (Some(ci), Some(oi), Some(rid)) => r matches Ok(
                        EventData::ResponseAudioDelta {
                            delta,
                            content_index,
                            output_index,
                            response_id,
                        },
                    ) && delta@ == bs && content_index == ci && output_index == oi && response_id@
                        == rid,
                    _ => r matches Err(ZhipuApiError::Json(_)),
                },
                None => r matches Err(ZhipuApiError::Decode(_)),
            },
            None => r matches Err(ZhipuApiError::Json(_)),
        })
        } else if t == "response.audio.done"@ {
            (match (
            spec_u32_field(es, "content_index"@),
            spec_u32_field(es, "output_index"@),
            spec_str_field(es, "item_id"@),
            spec_str_field(es, "response_id"@),
        ) {
            (Some(ci), Some(oi), Some(ii), Some(rid)) => r matches Ok(
                EventData::ResponseAudioDone { content_index, output_index, item_id, response_id },
            ) && content_index == ci && output_index == oi && item_id@ == ii && response_id@ == rid,
            _ => r matches Err(ZhipuApiError::Json(_)),
        })
        } else if t == "response.audio_transcript.delta"@ {
            (match (
            spec_str_field(es, "delta"@),
            spec_u32_field(es, "content_index"@),
            spec_u32_field(es, "output_index"@),
            spec_str_field(es, "item_id"@),
            spec_str_field(es, "response_id"@),
        ) {
            (Some(d), Some(ci), Some(oi), Some(ii), Some(rid)) => r matches Ok(
                EventData::ResponseAudioTranscriptDelta {
                    delta,
                    content_index,
                    output_index,
                    item_id,
                    response_id,
                },
            ) && delta@ == d && content_index == ci && output_index == oi && item_id@ == ii
                && response_id@ == rid,
            _ => r matches Err(ZhipuApiError::Json(_)),
        })
        } else if t == "response.audio_transcript.done"@ {
            (match (
            spec_str_field(es, "transcript"@),
            spec_u32_field(es, "content_index"@),
            spec_u32_field(es, "output_index"@),
            spec_str_field(es, "item_id"@),
            spec_str_field(es, "response_id"@),
        ) {
            (Some(tr), Some(ci), Some(oi), Some(ii), Some(rid)) => r matches Ok(
                EventData::ResponseAudioTranscriptDone {
                    transcript,
                    content_index,
                    output_index,
                    item_id,
                    response_id,
                },
            ) && transcript@ == tr && content_index == ci && output_index == oi && item_id@ == ii
                && response_id@ == rid,
            _ => r matches Err(ZhipuApiError::Json(_)),
        })
        } else if t == "response.created"@ {
            took_response(es, r, true)
        } else if t == "response.cancelled"@ {
            took_response_cancelled(es, r)
        } else if t == "response.done"@ {
            took_response_done(es, r)
        } else if t == "response.function_call_arguments.done"@ {
            (match (
            spec_str_field(es, "name"@),
            spec_str_field(es, "arguments"@),
            spec_u32_field(es, "output_index"@),
            spec_str_field(es, "response_id"@),
        ) {
            (Some(nm), Some(ar), Some(oi), Some(rid)) => r matches Ok(
                EventData::ResponseFunctionCallArgumentsDone {
                    name,
                    arguments,
                    output_index,
                    response_id,
                },
            ) && name@ == nm && arguments@ == ar && output_index == oi && response_id@ == rid,
            _ => r matches Err(ZhipuApiError::Json(_)),
        })
        } else if t == "response.function_call.simple_browser"@ {
            (match (
            spec_str_field(es, "name"@),
            spec_lookup(es, "session"@),
        ) {
            (Some(nm), Some(sv)) => if Session::json_ok(sv) {
                r matches Ok(EventData::ResponseFunctionCallSimpleBrowser { name, session }) && name@
                    == nm && session.parsed_from(sv)
            } else {
                r matches Err(ZhipuApiError::Json(_))
            },
            _ => r matches Err(ZhipuApiError::Json(_)),
        })
        } else if t == "response.output_item.added"@ {
            (match (
            spec_lookup(es, "item"@),
            spec_u32_field(es, "output_index"@),
        ) {
            (Some(iv), Some(oi)) => if ConversationItem::json_ok(iv) {
                r matches Ok(EventData::ResponseOutputItemAdded { item, output_index, response_id })
                    && item.parsed_from(iv) && output_index == oi && response_id@
                    == crate::rtav::value::spec_str_or_default(es, "response_id"@)
            } else {
                r matches Err(ZhipuApiError::Json(_))
            },
            _ => r matches Err(ZhipuApiError::Json(_)),
        })
        } else if t == "response.output_item.done"@ {
            (match (
            spec_lookup(es, "item"@),
            spec_u32_field(es, "output_index"@),
            spec_str_field(es, "response_id"@),
        ) {
            (Some(iv), Some(oi), Some(rid)) => if ConversationItem::json_ok(iv) {
                r matches Ok(EventData::ResponseOutputItemDone { item, output_index, response_id })
                    && item.parsed_from(iv) && output_index == oi && response_id@ == rid
            } else {
                r matches Err(ZhipuApiError::Json(_))
            },
            _ => r matches Err(ZhipuApiError::Json(_)),
        })
        } else if t == "response.content_part.added"@ {
            (match (
            part_of(es),
            spec_u32_field(es, "content_index"@),
            spec_u32_field(es, "output_index"@),
            spec_str_field(es, "item_id"@),
            spec_str_field(es, "response_id"@),
        ) {
            (Some(q), Some(ci), Some(oi), Some(ii), Some(rid)) => r matches Ok(
                EventData::ResponseContentPartAdded {
                    part,
                    content_index,
                    output_index,
                    item_id,
                    response_id,
                },
            ) && part.matches_spec(q) && content_index == ci && output_index == oi && item_id@ == ii
                && response_id@ == rid,
            _ => r matches Err(ZhipuApiError::Json(_)),
        })
        } else if t == "response.content_part.done"@ {
            (match (
            part_of(es),
            spec_u32_field(es, "content_index"@),
            spec_u32_field(es, "output_index"@),
            spec_str_field(es, "item_id"@),
        ) {
            (Some(q), Some(ci), Some(oi), Some(ii)) => r matches Ok(
                EventData::ResponseContentPartDone {
                    part,
                    content_index,
                    output_index,
                    item_id,
                    response_id,
                },
            ) && part.matches_spec(q) && content_index == ci && output_index == oi && item_id@ == ii
                && response_id@ == crate::rtav::value::spec_str_or_default(es, "response_id"@),
            _ => r matches Err(ZhipuApiError::Json(_)),
        })
        } else if t == "response.text.delta"@ {
            (match (
            spec_str_field(es, "delta"@),
            spec_u32_field(es, "content_index"@),
            spec_u32_field(es, "output_index"@),
            spec_str_field(es, "item_id"@),
            spec_str_field(es, "response_id"@),
        ) {
            (Some(d), Some(ci), Some(oi), Some(ii), Some(rid)) => r matches Ok(
                EventData::ResponseTextDelta {
                    delta,
                    content_index,
                    output_index,
                    item_id,
                    response_id,
                },
            ) && delta@ == d && content_index == ci && output_index == oi && item_id@ == ii
                && response_id@ == rid,
            _ => r matches Err(ZhipuApiError::Json(_)),
        })
        } else if t == "response.text.done"@ {
            (match (
            spec_str_field(es, "text"@),
            spec_u32_field(es, "content_index"@),
            spec_u32_field(es, "output_index"@),
            spec_str_field(es, "item_id"@),
            spec_str_field(es, "response_id"@),
        ) {
            (Some(tx), Some(ci), Some(oi), Some(ii), Some(rid)) => r matches Ok(
                EventData::ResponseTextDone {
                    text,
                    content_index,
                    output_index,
                    item_id,
                    response_id,
                },
            ) && text@ == tx && content_index == ci && output_index == oi && item_id@ == ii
                && response_id@ == rid,
            _ => r matches Err(ZhipuApiError::Json(_)),
        })
        } else if t == "session.created"@ {
            took_session(es, r, true)
        } else if t == "session.updated"@ {
            took_session(es, r, false)
        } else {
            r == Ok::<EventData, ZhipuApiError>(EventData::Unknown)
        },
    }
}

/// The content part under `part`, as the original read it: a missing
/// field reads as `null`, which denotes nothing.
pub open spec fn part_of(es: Seq<(String, JsonValue)>) -> Option<crate::rtav::value::PartShape> {
    match spec_lookup(es, "part"@) {
        Some(pv) => crate::rtav::value::ContentPart::spec_parse(pv),
        None => crate::rtav::value::ContentPart::spec_parse(JsonValue::Null),
    }
}

/// A `response` payload read into a created (or done) response event.
pub open spec fn took_response(
    es: Seq<(String, JsonValue)>,
    r: Result<EventData, ZhipuApiError>,
    created: bool,
) -> bool {
    match spec_lookup(es, "response"@) {
        Some(rv) => if Response::json_ok(rv) {
            if created {
                r matches Ok(EventData::ResponseCreated(resp)) && resp.parsed_from(rv)
            } else {
                r matches Ok(EventData::ResponseDone(resp)) && resp.parsed_from(rv)
            }
        } else {
            r matches Err(ZhipuApiError::Json(_))
        },
        None => r matches Err(ZhipuApiError::Json(_)),
    }
}

/// A `response` payload read into a done response event.
pub open spec fn took_response_done(
    es: Seq<(String, JsonValue)>,
    r: Result<EventData, ZhipuApiError>,
) -> bool {
    took_response(es, r, false)
}

/// A `response` payload read into a cancelled response event.
pub open spec fn took_response_cancelled(
    es: Seq<(String, JsonValue)>,
    r: Result<EventData, ZhipuApiError>,
) -> bool {
    match spec_lookup(es, "response"@) {
        Some(rv) => if Response::json_ok(rv) {
            r matches Ok(EventData::ResponseCancelled(resp)) && resp.parsed_from(rv)
        } else {
            r matches Err(ZhipuApiError::Json(_))
        },
        None => r matches Err(ZhipuApiError::Json(_)),
    }
}

/// A `session` payload read into a created or updated session event.
pub open spec fn took_session(
    es: Seq<(String, JsonValue)>,
    r: Result<EventData, ZhipuApiError>,
    created: bool,
) -> bool {
    match spec_lookup(es, "session"@) {
        Some(sv) => if Session::json_ok(sv) {
            if created {
                r matches Ok(EventData::SessionCreated(s)) && s.parsed_from(sv)
            } else {
                r matches Ok(EventData::SessionUpdated(s)) && s.parsed_from(sv)
            }
        } else {
            r matches Err(ZhipuApiError::Json(_))
        },
        None => r matches Err(ZhipuApiError::Json(_)),
    }
}

/// A required string field, or the decode error naming it.
fn get_str(es: &Vec<(String, JsonValue)>, key: &str) -> (r: Result<String, ZhipuApiError>)
    ensures
        match r {
            Ok(s) => spec_str_field(es@, key@) == Some(s@),
            Err(e) => spec_str_field(es@, key@) is None && e is Json,
        },
{
    match req_str_field(es, key) {
        Ok(s) => Ok(s),
        Err(_) => Err(ZhipuApiError::Json(key.to_owned())),
    }
}

/// A required `u32` field, or the decode error naming it.
fn get_u32(es: &Vec<(String, JsonValue)>, key: &str) -> (r: Result<u32, ZhipuApiError>)
    ensures
        match r {
            Ok(n) => spec_u32_field(es@, key@) == Some(n),
            Err(e) => spec_u32_field(es@, key@) is None && e is Json,
        },
{
    match req_u32_field(es, key) {
        Ok(n) => Ok(n),
        Err(_) => Err(ZhipuApiError::Json(key.to_owned())),
    }
}

/// A required sub-object field, or the decode error naming it.
fn get_value<'a>(es: &'a Vec<(String, JsonValue)>, key: &str) -> (r: Result<
    &'a JsonValue,
    ZhipuApiError,
>)
    ensures
        match r {
            Ok(v) => spec_lookup(es@, key@) == Some(*v),
            Err(e) => spec_lookup(es@, key@) is None && e is Json,
        },
{
    match lookup(es, key) {
        Some(v) => Ok(v),
        None => Err(ZhipuApiError::Json(key.to_owned())),
    }
}

impl EventData {
    /// True of the unknown-frame variant.
    pub fn is_none(&self) -> (r: bool)
        ensures
            r == (self is Unknown),
    {
        match self {
            EventData::Unknown => true,
            _ => false,
        }
    }

    /// True of a server-reported error event.
    pub fn is_error(&self) -> (r: bool)
        ensures
            r == (self is Error),
    {
        match self {
            EventData::Error(_) => true,
            _ => false,
        }
    }

    /// True of the keep-alive event.
    pub fn is_heartbeat(&self) -> (r: bool)
        ensures
            r == (self is Heartbeat),
    {
        match self {
            EventData::Heartbeat => true,
            _ => false,
        }
    }

    /// Turns a server-reported error event into this crate's error; any
    /// other event passes through.
    pub fn resolve(self) -> (r: Result<EventData, ZhipuApiError>)
        ensures
            match self {
                EventData::Error(e) => r == Err::<EventData, ZhipuApiError>(
                    ZhipuApiError::Realtime(e),
                ),
                _ => r == Ok::<EventData, ZhipuApiError>(self),
            },
    {
        match self {
            EventData::Error(e) => Err(ZhipuApiError::Realtime(e)),
            other => Ok(other),
        }
    }

    /// Reads one inbound frame's entries into an event. Dispatch is by
    /// the `type` string alone; a missing, non-string or unknown tag
    /// yields [`EventData::Unknown`] rather than an error, so that tags the
    /// service adds later pass through harmlessly. A field a variant
    /// needs that is absent or ill-shaped rejects that one frame.
    #[verifier::rlimit(100)]
    pub fn parse(entries: &Vec<(String, JsonValue)>) -> (r: Result<EventData, ZhipuApiError>)
        ensures
            parse_post(entries@, r),
    {
        let tag = match lookup(entries, "type") {
            Some(JsonValue::Str(t)) => t.clone(),
            _ => {
                return Ok(EventData::Unknown);
            },
        };
        let t = tag.as_str();
        if str_eq(t, "heartbeat") {
            Ok(EventData::Heartbeat)
        } else if str_eq(t, "input_audio_buffer.cleared") {
            Ok(EventData::InputAudioBufferCleared)
        } else if str_eq(t, "conversation.created") {
            let cv = get_value(entries, "conversation")?;
            match Conversation::from_json(cv) {
                Some(c) => Ok(EventData::ConversationCreated(c)),
                None => Err(ZhipuApiError::Json(String::from_str("conversation"))),
            }
        } else if str_eq(t, "conversation.item.created") {
            let iv = get_value(entries, "item")?;
            match ConversationItem::from_json(iv) {
                Some(it) => Ok(EventData::ConversationItemCreated(it)),
                None => Err(ZhipuApiError::Json(String::from_str("item"))),
            }
        } else if str_eq(t, "conversation.item.input_audio_transcription.completed") {
            let content_index = get_u32(entries, "content_index")?;
            let item_id = get_str(entries, "item_id")?;
            let transcript = get_str(entries, "transcript")?;
            Ok(
                EventData::ConversationItemInputAudioTranscriptionCompleted {
                    content_index,
                    item_id,
                    transcript,
                },
            )
        } else if str_eq(t, "conversation.item.input_audio_transcription.failed") {
            let content_index = get_u32(entries, "content_index")?;
            let item_id = get_str(entries, "item_id")?;
            let ev = get_value(entries, "error")?;
            match Error::from_json(ev) {
                Some(error) => Ok(
                    EventData::ConversationItemInputAudioTranscriptionFailed {
                        content_index,
                        item_id,
                        error,
                    },
                ),
                None => Err(ZhipuApiError::Json(String::from_str("error"))),
            }
        } else if str_eq(t, "conversation.item.deleted") {
            let item_id = get_str(entries, "item_id")?;
            Ok(EventData::ConversationItemDeleted { item_id })
        } else if str_eq(t, "error") {
            let ev = get_value(entries, "error")?;
            match Error::from_json(ev) {
                Some(e) => Ok(EventData::Error(e)),
                None => Err(ZhipuApiError::Json(String::from_str("error"))),
            }
        } else if str_eq(t, "input_audio_buffer.committed") {
            let item_id = get_str(entries, "item_id")?;
            Ok(EventData::InputAudioBufferCommitted { item_id })
        } else if str_eq(t, "input_audio_buffer.speech_started") {
            let audio_start_ms = get_u32(entries, "audio_start_ms")?;
            let item_id = get_str(entries, "item_id")?;
            Ok(EventData::InputAudioBufferSpeechStarted { audio_start_ms, item_id })
        } else if str_eq(t, "input_audio_buffer.speech_stopped") {
            let audio_end_ms = get_u32(entries, "audio_end_ms")?;
            let item_id = get_str(entries, "item_id")?;
            Ok(EventData::InputAudioBufferSpeechStopped { audio_end_ms, item_id })
        } else if str_eq(t, "rate_limits.updated") {
            let rv = get_value(entries, "rate_limits")?;
            match rv {
                JsonValue::Arr(xs) => parse_rate_limits(xs),
                _ => Err(ZhipuApiError::Json(String::from_str("rate_limits"))),
            }
        } else if str_eq(t, "response.audio.delta") {
            let delta_text = get_str(entries, "delta")?;
            let delta = match b64_decode(delta_text.as_str()) {
                Some(bs) => bs,
                None => {
                    return Err(ZhipuApiError::Decode(String::from_str("delta")));
                },
            };
            let content_index = get_u32(entries, "content_index")?;
            let output_index = get_u32(entries, "output_index")?;
            let response_id = get_str(entries, "response_id")?;
            Ok(EventData::ResponseAudioDelta { delta, content_index, output_index, response_id })
        } else if str_eq(t, "response.audio.done") {
            let content_index = get_u32(entries, "content_index")?;
            let output_index = get_u32(entries, "output_index")?;
            let item_id = get_str(entries, "item_id")?;
            let response_id = get_str(entries, "response_id")?;
            Ok(EventData::ResponseAudioDone { content_index, output_index, item_id, response_id })
        } else if str_eq(t, "response.audio_transcript.delta") {
            let delta = get_str(entries, "delta")?;
            let content_index = get_u32(entries, "content_index")?;
            let output_index = get_u32(entries, "output_index")?;
            let item_id = get_str(entries, "item_id")?;
            let response_id = get_str(entries, "response_id")?;
            Ok(
                EventData::ResponseAudioTranscriptDelta {
                    delta,
                    content_index,
                    output_index,
                    item_id,
                    response_id,
                },
            )
        } else if str_eq(t, "response.audio_transcript.done") {
            let transcript = get_str(entries, "transcript")?;
            let content_index = get_u32(entries, "content_index")?;
            let output_index = get_u32(entries, "output_index")?;
            let item_id = get_str(entries, "item_id")?;
            let response_id = get_str(entries, "response_id")?;
            Ok(
                EventData::ResponseAudioTranscriptDone {
                    transcript,
                    content_index,
                    output_index,
                    item_id,
                    response_id,
                },
            )
        } else if str_eq(t, "response.created") {
            let rv = get_value(entries, "response")?;
            match Response::from_json(rv) {
                Some(resp) => Ok(EventData::ResponseCreated(resp)),
                None => Err(ZhipuApiError::Json(String::from_str("response"))),
            }
        } else if str_eq(t, "response.cancelled") {
            let rv = get_value(entries, "response")?;
            match Response::from_json(rv) {
                Some(resp) => Ok(EventData::ResponseCancelled(resp)),
                None => Err(ZhipuApiError::Json(String::from_str("response"))),
            }
        } else if str_eq(t, "response.done") {
            let rv = get_value(entries, "response")?;
            match Response::from_json(rv) {
                Some(resp) => Ok(EventData::ResponseDone(resp)),
                None => Err(ZhipuApiError::Json(String::from_str("response"))),
            }
        } else if str_eq(t, "response.function_call_arguments.done") {
            let name = get_str(entries, "name")?;
            let arguments = get_str(entries, "arguments")?;
            let output_index = get_u32(entries, "output_index")?;
            let response_id = get_str(entries, "response_id")?;
            Ok(
                EventData::ResponseFunctionCallArgumentsDone {
                    name,
                    arguments,
                    output_index,
                    response_id,
                },
            )
        } else if str_eq(t, "response.function_call.simple_browser") {
            let name = get_str(entries, "name")?;
            let sv = get_value(entries, "session")?;
            match Session::from_json(sv) {
                Some(session) => Ok(
                    EventData::ResponseFunctionCallSimpleBrowser { name, session },
                ),
                None => Err(ZhipuApiError::Json(String::from_str("session"))),
            }
        } else if str_eq(t, "response.output_item.added") {
            let iv = get_value(entries, "item")?;
            let item = match ConversationItem::from_json(iv) {
                Some(it) => it,
                None => {
                    return Err(ZhipuApiError::Json(String::from_str("item")));
                },
            };
            let output_index = get_u32(entries, "output_index")?;
            let response_id = crate::rtav::value::str_field_or_default(entries, "response_id");
            Ok(EventData::ResponseOutputItemAdded { item, output_index, response_id })
        } else if str_eq(t, "response.output_item.done") {
            let iv = get_value(entries, "item")?;
            let item = match ConversationItem::from_json(iv) {
                Some(it) => it,
                None => {
                    return Err(ZhipuApiError::Json(String::from_str("item")));
                },
            };
            let output_index = get_u32(entries, "output_index")?;
            let response_id = get_str(entries, "response_id")?;
            Ok(EventData::ResponseOutputItemDone { item, output_index, response_id })
        } else if str_eq(t, "response.content_part.added") {
            let part = match parse_part(entries) {
                Some(p) => p,
                None => {
                    return Err(ZhipuApiError::Json(String::from_str("part")));
                },
            };
            let content_index = get_u32(entries, "content_index")?;
            let output_index = get_u32(entries, "output_index")?;
            let item_id = get_str(entries, "item_id")?;
            let response_id = get_str(entries, "response_id")?;
            Ok(
                EventData::ResponseContentPartAdded {
                    part,
                    content_index,
                    output_index,
                    item_id,
                    response_id,
                },
            )
        } else if str_eq(t, "response.content_part.done") {
            let part = match parse_part(entries) {
                Some(p) => p,
                None => {
                    return Err(ZhipuApiError::Json(String::from_str("part")));
                },
            };
            let content_index = get_u32(entries, "content_index")?;
            let output_index = get_u32(entries, "output_index")?;
            let item_id = get_str(entries, "item_id")?;
            let response_id = crate::rtav::value::str_field_or_default(entries, "response_id");
            Ok(
                EventData::ResponseContentPartDone {
                    part,
                    content_index,
                    output_index,
                    item_id,
                    response_id,
                },
            )
        } else if str_eq(t, "response.text.delta") {
            let delta = get_str(entries, "delta")?;
            let content_index = get_u32(entries, "content_index")?;
            let output_index = get_u32(entries, "output_index")?;
            let item_id = get_str(entries, "item_id")?;
            let response_id = get_str(entries, "response_id")?;
            Ok(
                EventData::ResponseTextDelta {
                    delta,
                    content_index,
                    output_index,
                    item_id,
                    response_id,
                },
            )
        } else if str_eq(t, "response.text.done") {
            let text = get_str(entries, "text")?;
            let content_index = get_u32(entries, "content_index")?;
            let output_index = get_u32(entries, "output_index")?;
            let item_id = get_str(entries, "item_id")?;
            let response_id = get_str(entries, "response_id")?;
            Ok(
                EventData::ResponseTextDone {
                    text,
                    content_index,
                    output_index,
                    item_id,
                    response_id,
                },
            )
        } else if str_eq(t, "session.created") {
            let sv = get_value(entries, "session")?;
            match Session::from_json(sv) {
                Some(s) => Ok(EventData::SessionCreated(s)),
                None => Err(ZhipuApiError::Json(String::from_str("session"))),
            }
        } else if str_eq(t, "session.updated") {
            let sv = get_value(entries, "session")?;
            match Session::from_json(sv) {
                Some(s) => Ok(EventData::SessionUpdated(s)),
                None => Err(ZhipuApiError::Json(String::from_str("session"))),
            }
        } else {
            Ok(EventData::Unknown)
        }
    }
}

/// Reads a `rate_limits` array element by element; one ill-shaped entry
/// rejects the frame.
fn parse_rate_limits(xs: &Vec<JsonValue>) -> (r: Result<EventData, ZhipuApiError>)
    ensures
        match r {
            Ok(ed) => (forall|j: int| 0 <= j < xs@.len() ==> RateLimit::json_ok(#[trigger] xs@[j]))
                && (ed matches EventData::RateLimitsUpdated(rls) && rls@.len() == xs@.len() && (
                forall|j: int| 0 <= j < xs@.len() ==> (#[trigger] rls@[j]).parsed_from(xs@[j]))),
            Err(e) => e is Json && !(forall|j: int|
                0 <= j < xs@.len() ==> RateLimit::json_ok(#[trigger] xs@[j])),
        },
{
    let mut rls: Vec<RateLimit> = Vec::new();
    let n = xs.len();
    let mut j: usize = 0;
    while j < n
        invariant
            n == xs@.len(),
            0 <= j <= n,
            rls@.len() == j,
            forall|k: int|
                0 <= k < j ==> RateLimit::json_ok(#[trigger] xs@[k]) && rls@[k].parsed_from(
                    xs@[k],
                ),
        decreases n - j,
    {
        match RateLimit::from_json(&xs[j]) {
            Some(rl) => rls.push(rl),
            None => {
                return Err(ZhipuApiError::Json(String::from_str("rate_limits")));
            },
        }
        j = j + 1;
    }
    Ok(EventData::RateLimitsUpdated(rls))
}

/// The content part under `part`, a missing field reading as `null`.
fn parse_part(entries: &Vec<(String, JsonValue)>) -> (r: Option<crate::rtav::value::ContentPart>)
    ensures
        r is Some <==> part_of(entries@) is Some,
        match r {
            Some(p) => part_of(entries@) matches Some(q) && p.matches_spec(q),
            None => true,
        },
{
    match lookup(entries, "part") {
        Some(pv) => crate::rtav::value::ContentPart::from_value(pv),
        None => {
            let null = JsonValue::Null;
            crate::rtav::value::ContentPart::from_value(&null)
        },
    }
}


/// Law (heartbeat and forward compatibility): a frame tagged `heartbeat`
/// parses to the keep-alive event, for which `is_heartbeat` holds and
/// `is_error` does not; a frame whose tag this crate does not know, or a
/// frame without a string tag, parses to the `Unknown` variant rather
/// than failing.
pub proof fn lemma_heartbeat_and_unknown(es: Seq<(String, JsonValue)>, r: Result<
    EventData,
    ZhipuApiError,
>)
    requires
        parse_post(es, r),
    ensures
        spec_tag(es) == Some("heartbeat"@) ==> (r matches Ok(e) && e is Heartbeat && !(e
            is Error)),
        spec_tag(es) is None ==> r == Ok::<EventData, ZhipuApiError>(EventData::Unknown),
        (match spec_tag(es) {
            Some(t) => !known_tag(t) ==> r == Ok::<EventData, ZhipuApiError>(EventData::Unknown),
            None => true,
        }),
{
    if spec_tag(es) == Some("heartbeat"@) {
        assert(r == Ok::<EventData, ZhipuApiError>(EventData::Heartbeat));
    }
}

/// Law (binary audio framing), stated for every inbound frame: a
/// `response.audio.delta` frame whose `delta` field is the base64 text of
/// some byte sequence parses to an audio-delta event carrying exactly
/// those bytes — the same length, byte for byte — while a `delta` that is
/// not valid base64 is rejected as a decode error local to that one
/// frame: parsing returns the error value rather than failing, so the
/// event loop and every other frame are unaffected.
pub proof fn lemma_audio_delta_bytes(
    es: Seq<(String, JsonValue)>,
    r: Result<EventData, ZhipuApiError>,
    d: Seq<char>,
    bytes: Seq<u8>,
)
    requires
        parse_post(es, r),
        spec_tag(es) == Some("response.audio.delta"@),
        spec_str_field(es, "delta"@) == Some(d),
    ensures
        (b64_decoding(d) == Some(bytes) && spec_u32_field(es, "content_index"@) is Some
            && spec_u32_field(es, "output_index"@) is Some && spec_str_field(es, "response_id"@)
            is Some) ==> (r matches Ok(EventData::ResponseAudioDelta { delta, .. }) && delta@
            == bytes && delta@.len() == bytes.len()),
        b64_decoding(d) is None ==> r matches Err(ZhipuApiError::Decode(_)),
{
    reveal_strlit("heartbeat");
    reveal_strlit("input_audio_buffer.cleared");
    reveal_strlit("conversation.created");
    reveal_strlit("conversation.item.created");
    reveal_strlit("conversation.item.input_audio_transcription.completed");
    reveal_strlit("conversation.item.input_audio_transcription.failed");
    reveal_strlit("conversation.item.deleted");
    reveal_strlit("error");
    reveal_strlit("input_audio_buffer.committed");
    reveal_strlit("input_audio_buffer.speech_started");
    reveal_strlit("input_audio_buffer.speech_stopped");
    reveal_strlit("rate_limits.updated");
    reveal_strlit("response.audio.delta");
    assert("heartbeat"@.len() == 9);
    assert("input_audio_buffer.cleared"@.len() == 26);
    assert("conversation.created"@.len() == 20);
    assert("conversation.item.created"@.len() == 25);
    assert("conversation.item.input_audio_transcription.completed"@.len() == 53);
    assert("conversation.item.input_audio_transcription.failed"@.len() == 50);
    assert("conversation.item.deleted"@.len() == 25);
    assert("error"@.len() == 5);
    assert("input_audio_buffer.committed"@.len() == 28);
    assert("input_audio_buffer.speech_started"@.len() == 33);
    assert("input_audio_buffer.speech_stopped"@.len() == 33);
    assert("rate_limits.updated"@.len() == 19);
    assert("response.audio.delta"@.len() == 20);
    assert("conversation.created"@[0] == 'c');
    assert("response.audio.delta"@[0] == 'r');
}

} // verus!
