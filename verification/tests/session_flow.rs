//! The caller discipline of a tool-using realtime session: a function
//! call's result may be sent only after the call's `response.done` has
//! been observed. The session does not enforce this; the harness below
//! plays a synthetic session and flags the violation itself.

use bigmodel::rtav::event::{Event, EventData};
use bigmodel::rtav::value::ConversationItem;

/// What the synthetic caller tracks while polling events.
struct Harness {
    response_done_seen: bool,
    pending_call: Option<String>,
}

impl Harness {
    fn observe(&mut self, frame: &str) {
        let ed = Event::parse(frame.as_bytes()).unwrap().data().unwrap();
        match ed {
            EventData::ResponseFunctionCallArgumentsDone { name, .. } => {
                self.pending_call = Some(name);
            }
            EventData::ResponseDone(_) => {
                self.response_done_seen = true;
            }
            EventData::Heartbeat => {
                // a keep-alive is a no-op: it neither ends the stream nor
                // counts as progress of the response
            }
            _ => {}
        }
    }

    /// Whether sending the function call's result now respects the
    /// required order.
    fn may_send_result(&self) -> bool {
        self.pending_call.is_some() && self.response_done_seen
    }
}

#[test]
fn function_call_result_must_wait_for_response_done() {
    let mut h = Harness { response_done_seen: false, pending_call: None };
    h.observe("{\"type\":\"response.created\",\"response\":{\"id\":\"r1\",\"status\":\"in_progress\"}}");
    h.observe(
        "{\"type\":\"response.function_call_arguments.done\",\"name\":\"get_weather\",\"arguments\":\"{\\\"city\\\":\\\"x\\\"}\",\"output_index\":0,\"response_id\":\"r1\"}",
    );
    // a heartbeat in between must change nothing
    h.observe("{\"type\":\"heartbeat\"}");

    // sending the result now would violate the protocol: flagged
    assert!(!h.may_send_result(), "result sent before response.done");

    h.observe("{\"type\":\"response.done\",\"response\":{\"id\":\"r1\",\"status\":\"completed\"}}");
    assert!(h.may_send_result());

    // only now is the result envelope built and sent
    let mut item = ConversationItem::new();
    item.with_function_call_output("{\"temp\":21}");
    let ev = Event::new_conversation_item_create(&item).unwrap();
    let wire = ev.into_wire();
    assert!(wire.contains("\"type\":\"conversation.item.create\""));
    assert!(wire.contains("\"function_call_output\""));
}

#[test]
fn heartbeat_is_filtered_and_never_ends_the_stream() {
    let mut h = Harness { response_done_seen: false, pending_call: None };
    for _ in 0..3 {
        h.observe("{\"type\":\"heartbeat\"}");
    }
    assert!(!h.response_done_seen);
    assert!(h.pending_call.is_none());
}
