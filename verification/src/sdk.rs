//! The SDK surface for other languages: a connection flag, publishing
//! envelopes and subscribing, and the decisions behind the C-compatible
//! entry points, whose pointer handling the application does.
use vstd::prelude::*;
use crate::external::{
    is_utc_rfc3339_text, is_uuid_v4_text, json_text_value, new_uuid, now_rfc3339, parse_json_text,
};
use crate::json::{Json, JsonV};
use crate::protocol::message::EventEnvelope;
use crate::text::{concat, owned};

verus! {

/// The payload schema the SDK's envelopes name.
pub const SDK_SCHEMA: &'static str = "thalamus/v1";

/// An error of an SDK operation.
#[derive(Clone, Debug, PartialEq)]
pub enum SDKError {
    NotConnected,
    SubscriptionFailed(String),
    PublishFailed(String),
}

impl SDKError {
    /// The message that describes the error.
    pub open spec fn spec_message(&self) -> Seq<char> {
        match self {
            SDKError::NotConnected => "not connected to Thalamus runtime"@,
            SDKError::SubscriptionFailed(m) => "subscription failed: "@ + m@,
            SDKError::PublishFailed(m) => "publish failed: "@ + m@,
        }
    }

    /// The message that describes the error.
    pub fn message(&self) -> (r: String)
        ensures
            r@ == self.spec_message(),
    {
        match self {
            SDKError::NotConnected => owned("not connected to Thalamus runtime"),
            SDKError::SubscriptionFailed(m) => concat("subscription failed: ", m.as_str()),
            SDKError::PublishFailed(m) => concat("publish failed: ", m.as_str()),
        }
    }
}

/// An envelope as the SDK writes it: the subject as type, the SDK's
/// schema, no scope, references, correlation or cause, empty metadata.
pub open spec fn is_sdk_envelope(
    e: EventEnvelope,
    subject: Seq<char>,
    source: Seq<char>,
    id: Seq<char>,
    timestamp: Seq<char>,
    payload: JsonV,
) -> bool {
    &&& e.id@ == id
    &&& e.event_type@ == subject
    &&& e.subject@ == subject
    &&& e.source@ == source
    &&& e.timestamp@ == timestamp
    &&& e.schema@ == SDK_SCHEMA@
    &&& e.scope is None
    &&& e.refs is None
    &&& e.payload@ == payload
    &&& e.correlation_id is None
    &&& e.causation_id is None
    &&& e.metadata@ == JsonV::Object(Seq::empty())
}

/// The SDK's handle on the runtime.
#[derive(Debug)]
pub struct ThalamusSDK {
    connected: bool,
}

impl ThalamusSDK {
    /// Whether the SDK is connected.
    pub closed spec fn is_connected(&self) -> bool {
        self.connected
    }

    /// A handle that is not connected.
    pub fn new() -> (r: ThalamusSDK)
        ensures
            !r.is_connected(),
    {
        ThalamusSDK { connected: false }
    }

    /// Connects to the runtime.
    pub fn connect(&mut self)
        ensures
            final(self).is_connected(),
    {
        self.connected = true;
    }

    /// Disconnects from the runtime.
    pub fn disconnect(&mut self)
        ensures
            !final(self).is_connected(),
    {
        self.connected = false;
    }

    /// Whether the SDK is connected.
    pub fn connected(&self) -> (r: bool)
        ensures
            r == self.is_connected(),
    {
        self.connected
    }

    /// The envelope for a publication with a given identifier and time; a
    /// handle that is not connected refuses.
    pub fn publish_with(
        &self,
        subject: &str,
        source: &str,
        payload: Json,
        id: String,
        timestamp: String,
    ) -> (r: Result<EventEnvelope, SDKError>)
        ensures
            !self.is_connected() ==> r == Err::<EventEnvelope, SDKError>(SDKError::NotConnected),
            self.is_connected() ==> (r matches Ok(e) && is_sdk_envelope(
                e,
                subject@,
                source@,
                id@,
                timestamp@,
                payload@,
            )),
    {
        if !self.connected {
            return Err(SDKError::NotConnected);
        }
        let metadata = Json::Object(Vec::new());
        assert(metadata@->Object_0 =~= Seq::<(Seq<char>, JsonV)>::empty());
        Ok(
            EventEnvelope {
                id,
                event_type: owned(subject),
                subject: owned(subject),
                source: owned(source),
                timestamp,
                schema: owned(SDK_SCHEMA),
                scope: None,
                refs: None,
                payload,
                correlation_id: None,
                causation_id: None,
                metadata,
            },
        )
    }

    /// Publishes an event under a fresh identifier and the current time; a
    /// handle that is not connected refuses.
    pub fn publish(&self, subject: &str, source: &str, payload: Json) -> (r: Result<
        EventEnvelope,
        SDKError,
    >)
        ensures
            !self.is_connected() ==> r == Err::<EventEnvelope, SDKError>(SDKError::NotConnected),
            self.is_connected() ==> (r matches Ok(e) && is_uuid_v4_text(e.id@) && is_utc_rfc3339_text(
                e.timestamp@,
            ) && is_sdk_envelope(
                e,
                subject@,
                source@,
                e.id@,
                e.timestamp@,
                payload@,
            )),
    {
        if !self.connected {
            return Err(SDKError::NotConnected);
        }
        let id = new_uuid();
        let timestamp = now_rfc3339();
        self.publish_with(subject, source, payload, id, timestamp)
    }

    /// Subscribes a handler on a subject and returns the subscription's
    /// fresh identifier; a handle that is not connected refuses.
    pub fn subscribe<F: Fn(EventEnvelope)>(&self, subject: &str, handler: F) -> (r: Result<
        String,
        SDKError,
    >)
        ensures
            !self.is_connected() ==> r == Err::<String, SDKError>(SDKError::NotConnected),
            self.is_connected() ==> (r matches Ok(id) && is_uuid_v4_text(id@)),
    {
        if !self.connected {
            return Err(SDKError::NotConnected);
        }
        Ok(new_uuid())
    }
}

impl Default for ThalamusSDK {
    fn default() -> (r: ThalamusSDK)
        ensures
            !r.is_connected(),
    {
        ThalamusSDK::new()
    }
}

/// The status the C entry point for publishing returns: 0 when the subject,
/// source and payload could all be read and the event was published, -1
/// otherwise.
pub fn publish_status(subject: Option<&str>, source: Option<&str>, payload: Option<Json>) -> (r: i32)
    ensures
        r == 0 <==> (subject is Some && source is Some && payload is Some),
        r == 0 || r == -1,
{
    match (subject, source, payload) {
        (Some(subject), Some(source), Some(payload)) => {
            let mut sdk = ThalamusSDK::new();
            sdk.connect();
            match sdk.publish(subject, source, payload) {
                Ok(_) => 0,
                Err(_) => -1,
            }
        },
        _ => -1,
    }
}

/// The status the C entry point for publishing returns for its three texts:
/// 0 when the subject and source could be read and the payload text holds
/// JSON, and the event was published; -1 otherwise.
pub fn publish_status_text(subject: Option<&str>, source: Option<&str>, payload_text: Option<&str>) -> (r: i32)
    ensures
        r == 0 <==> (subject is Some && source is Some && (payload_text matches Some(t)
            && json_text_value(t@) is Some)),
        r == 0 || r == -1,
{
    let payload = match payload_text {
        Some(t) => parse_json_text(t),
        None => None,
    };
    publish_status(subject, source, payload)
}

/// The payload the C entry point for subscribing hands its callback:
/// `{ "subject": <subject>, "kind": "contract" }`.
pub open spec fn callback_payload_json(subject: Seq<char>) -> JsonV {
    JsonV::Object(seq![("subject"@, JsonV::Str(subject)), ("kind"@, JsonV::Str("contract"@))])
}

/// What the C entry point for subscribing does: without a callback or a
/// readable subject it refuses (`None`, status -1); otherwise it subscribes
/// and hands back the payload to give the callback (status 0).
pub fn subscribe_callback_payload(subject: Option<&str>, has_callback: bool) -> (r: Option<Json>)
    ensures
        r is Some <==> (has_callback && subject is Some),
        r matches Some(p) ==> (subject matches Some(s) && p@ == callback_payload_json(s@)),
{
    if !has_callback {
        return None;
    }
    match subject {
        Some(s) => {
            let mut sdk = ThalamusSDK::new();
            sdk.connect();
            let ignore = |e: EventEnvelope| {};
            match sdk.subscribe(s, ignore) {
                Ok(_) => {
                    let mut m: Vec<(String, Json)> = Vec::new();
                    m.push((owned("subject"), Json::string(s)));
                    m.push((owned("kind"), Json::string("contract")));
                    let p = Json::Object(m);
                    assert(p@->Object_0[0] == (m@[0].0@, m@[0].1@));
                    assert(p@->Object_0[1] == (m@[1].0@, m@[1].1@));
                    assert(p@->Object_0 =~= callback_payload_json(s@)->Object_0);
                    Some(p)
                },
                Err(_) => None,
            }
        },
        None => None,
    }
}

} // verus!
