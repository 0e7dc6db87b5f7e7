use vstd::prelude::*;
use vstd::string::*;

verus! {

/// A JSON value of `serde_json`, carried through unread.
#[verifier::external_type_specification]
#[verifier::external_body]
pub struct ExJsonValue(serde_json::Value);

/// A framed message of the protocol.
#[derive(Debug)]
pub struct ProtocolMessage {
    pub version: u8,
    pub payload: MessagePayload,
}

/// What a framed message carries.
#[derive(Debug)]
pub enum MessagePayload {
    Command { data: CommandData },
    Response { data: ResponseData },
    Event { data: EventData },
}

/// A command with its parameters.
#[derive(Debug)]
pub struct CommandData {
    pub command: String,
    pub params: serde_json::Value,
}

/// The answer to a command.
#[derive(Debug)]
pub struct ResponseData {
    pub success: bool,
    pub data: Option<serde_json::Value>,
    pub error: Option<String>,
}

/// Something that happened on the phone.
#[derive(Debug, Clone)]
pub enum EventData {
    NewSms { sender: String, body: String, timestamp: i64 },
    DeviceConnected { device_id: String },
    DeviceDisconnected { device_id: String },
    StatusUpdate { status: String },
}

/// The version of the protocol that this server speaks.
pub const PROTOCOL_VERSION: u8 = 1;

impl ProtocolMessage {
    /// A command message.
    pub fn command(cmd: &str, params: serde_json::Value) -> (m: ProtocolMessage)
        ensures
            m.version == PROTOCOL_VERSION,
            m.payload matches MessagePayload::Command { data } && data.command@ == cmd@
                && data.params == params,
    {
        ProtocolMessage {
            version: PROTOCOL_VERSION,
            payload: MessagePayload::Command {
                data: CommandData { command: String::from_str(cmd), params },
            },
        }
    }

    /// A response message.
    pub fn response(success: bool, data: Option<serde_json::Value>, error: Option<String>) -> (m:
        ProtocolMessage)
        ensures
            m.version == PROTOCOL_VERSION,
            m.payload == (MessagePayload::Response { data: ResponseData { success, data, error } }),
    {
        ProtocolMessage {
            version: PROTOCOL_VERSION,
            payload: MessagePayload::Response { data: ResponseData { success, data, error } },
        }
    }

    /// An event message.
    pub fn event(event_data: EventData) -> (m: ProtocolMessage)
        ensures
            m.version == PROTOCOL_VERSION,
            m.payload == (MessagePayload::Event { data: event_data }),
    {
        ProtocolMessage { version: PROTOCOL_VERSION, payload: MessagePayload::Event { data: event_data } }
    }
}

} // verus!
