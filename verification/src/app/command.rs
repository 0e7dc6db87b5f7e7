use vstd::prelude::*;
use vstd::string::*;

use super::state::SmsMessage;

verus! {

/// A command that the server sends to the phone.
#[derive(Debug, Clone, PartialEq, Eq, Structural)]
pub enum Command {
    FetchSms { limit: Option<u32> },
    FetchAllSms,
    Ping,
    GetDeviceInfo,
    MarkRead { sms_id: i64 },
}

impl Command {
    /// Asks for the latest `limit` messages (all where `None`).
    pub fn fetch_sms(limit: Option<u32>) -> (c: Command)
        ensures
            c == (Command::FetchSms { limit }),
    {
        Command::FetchSms { limit }
    }

    /// Asks for all messages.
    pub fn fetch_all_sms() -> (c: Command)
        ensures
            c == Command::FetchAllSms,
    {
        Command::FetchAllSms
    }

    /// Asks the phone to answer.
    pub fn ping() -> (c: Command)
        ensures
            c == Command::Ping,
    {
        Command::Ping
    }

    /// Asks for the phone's model and version.
    pub fn get_device_info() -> (c: Command)
        ensures
            c == Command::GetDeviceInfo,
    {
        Command::GetDeviceInfo
    }
}

/// A message as the phone sends it.
#[derive(Debug, Clone)]
pub struct SmsData {
    pub id: i64,
    pub sender: String,
    pub body: String,
    pub timestamp: i64,
    pub read: bool,
}

/// An answer of the phone.
#[derive(Debug, Clone)]
pub enum Response {
    SmsList { messages: Vec<SmsData> },
    Pong,
    DeviceInfo { device_id: String, model: String, android_version: String },
    Error { message: String },
    NewSms { sms: SmsData },
    Success { message: String },
}

impl SmsMessage {
    /// The message that the phone's data stand for: no category yet, and no SIM
    /// slot (`-1`).
    pub fn from_data(data: SmsData) -> (m: SmsMessage)
        ensures
            m.id == data.id,
            m.sender == data.sender,
            m.body == data.body,
            m.timestamp == data.timestamp,
            m.category@ == Seq::<char>::empty(),
            m.read == data.read,
            m.sim_slot == -1,
    {
        SmsMessage {
            id: data.id,
            sender: data.sender,
            body: data.body,
            timestamp: data.timestamp,
            category: String::new(),
            read: data.read,
            sim_slot: -1,
        }
    }
}

impl From<SmsData> for SmsMessage {
    fn from(data: SmsData) -> (m: SmsMessage)
        ensures
            m.id == data.id,
            m.sender == data.sender,
            m.body == data.body,
            m.timestamp == data.timestamp,
            m.category@ == Seq::<char>::empty(),
            m.read == data.read,
            m.sim_slot == -1,
    {
        SmsMessage::from_data(data)
    }
}

impl vstd::std_specs::convert::FromSpecImpl<SmsData> for SmsMessage {
    open spec fn obeys_from_spec() -> bool {
        false
    }

    /// Nothing is claimed through the generic `From` specification: the
    /// message's category is a fresh empty string, which `from` states itself.
    open spec fn from_spec(data: SmsData) -> SmsMessage {
        arbitrary()
    }
}

} // verus!
