use vstd::prelude::*;
use vstd::string::*;

use super::json::{
    JsonValue, bool_of, field, int_of, items_of, json_parse, parse_json, str_of,
};
use super::state::{
    AppState, ConnectionStatus, DeviceInfo, SimCard, SmsMessage, instant_now, law_add_log_bounded,
    law_add_sms_keeps_list_valid, log_added, sms_list_after_add,
};
use crate::device_core::device::StringMap;
use crate::text::{chars_of, first_chars, first_chars_text, int_text, str_eq, string_from_chars, u64_text};
use crate::time::utc_now_millis;

verus! {

/// The most characters of a message's body that its log line shows.
pub const LOG_PREVIEW_CHARS: usize = 30;

/// What a line from the phone asks of the state, read from its JSON.
#[derive(Debug)]
pub enum Incoming {
    /// The phone is still there.
    Ping,
    /// The phone greets the server and waits for an answer.
    Handshake,
    /// The full list of messages, and how many items the phone sent.
    SmsList { messages: Vec<SmsMessage>, received: usize },
    /// One new message.
    NewSms { sms: SmsMessage },
    /// The phone's SIM cards.
    SimCards { cards: Vec<SimCard> },
    /// Nothing this server acts on.
    Ignored,
}

/// The kinds of line, by their `type` member.
pub enum LineKind {
    Ping,
    Handshake,
    SmsList,
    NewSms,
    LegacySms,
    SimCards,
    Ignored,
}

/// The answer to a handshake.
pub open spec fn handshake_ack() -> Seq<char> {
    "{\"type\":\"handshake_ack\"}\n"@
}

/// `x`, or `d` where there is none.
pub open spec fn int_or(x: Option<i64>, d: i64) -> i64 {
    match x {
        Some(v) => v,
        None => d,
    }
}

/// The text, or the empty text where there is none.
pub open spec fn text_or_empty(t: Option<Seq<char>>) -> Seq<char> {
    match t {
        Some(v) => v,
        None => seq![],
    }
}

/// The item names its sender as a string.
pub open spec fn has_sender(o: Option<JsonValue>) -> bool {
    str_of(field(o, "sender"@)) is Some
}

/// The key under which a new message's SIM slot comes: `sim_slot`.
pub open spec fn new_sms_slot_key() -> Seq<char> {
    "sim_slot"@
}

/// The key under which the SIM slot of a listed message, or of a message sent
/// without a `type`, comes: `simSlot`.
pub open spec fn listed_slot_key() -> Seq<char> {
    "simSlot"@
}

/// `m` is the message that item `o` describes, read at `now` (milliseconds), with
/// its SIM slot under `slot_key`: a missing body is empty, a missing (or
/// non-integer) time or id is `now`, a missing SIM slot is `-1`.
pub open spec fn sms_from_item(m: SmsMessage, o: Option<JsonValue>, now: i64, slot_key: Seq<char>) -> bool {
    &&& str_of(field(o, "sender"@)) == Some(m.sender@)
    &&& m.body@ == text_or_empty(str_of(field(o, "body"@)))
    &&& m.timestamp == int_or(int_of(field(o, "timestamp"@)), now)
    &&& m.sim_slot == int_or(int_of(field(o, slot_key)), -1i64) as i32
    &&& m.id == int_or(int_of(field(o, "id"@)), now)
    &&& m.category@ == Seq::<char>::empty()
    &&& !m.read
}

/// The items that describe a message (those with a sender), read from their texts.
pub open spec fn sms_items(items: Seq<Seq<char>>) -> Seq<Option<JsonValue>>
    decreases items.len(),
{
    if items.len() == 0 {
        seq![]
    } else if has_sender(json_parse(items.last())) {
        sms_items(items.drop_last()).push(json_parse(items.last()))
    } else {
        sms_items(items.drop_last())
    }
}

/// The messages are those that the items describe, one for one.
pub open spec fn messages_fit(ms: Seq<SmsMessage>, os: Seq<Option<JsonValue>>, now: i64) -> bool {
    &&& ms.len() == os.len()
    &&& forall|i: int| 0 <= i < ms.len() ==> sms_from_item(#[trigger] ms[i], os[i], now, listed_slot_key())
}

/// The item describes a SIM card: it has an integer `slot_index`, and a
/// `phone_number` and a `carrier_name` that are strings.
pub open spec fn card_item(o: Option<JsonValue>) -> bool {
    &&& int_of(field(o, "slot_index"@)) is Some
    &&& str_of(field(o, "phone_number"@)) is Some
    &&& str_of(field(o, "carrier_name"@)) is Some
}

/// `c` is the SIM card that item `o` describes; a card without a boolean
/// `is_active` counts as active.
pub open spec fn card_from_item(c: SimCard, o: Option<JsonValue>) -> bool {
    &&& int_of(field(o, "slot_index"@)) matches Some(s) && c.slot_index == s as i32
    &&& str_of(field(o, "phone_number"@)) == Some(c.phone_number@)
    &&& str_of(field(o, "carrier_name"@)) == Some(c.carrier_name@)
    &&& c.is_active == match bool_of(field(o, "is_active"@)) {
        Some(b) => b,
        None => true,
    }
}

/// The items that describe a SIM card, read from their texts.
pub open spec fn card_items(items: Seq<Seq<char>>) -> Seq<Option<JsonValue>>
    decreases items.len(),
{
    if items.len() == 0 {
        seq![]
    } else if card_item(json_parse(items.last())) {
        card_items(items.drop_last()).push(json_parse(items.last()))
    } else {
        card_items(items.drop_last())
    }
}

/// The cards are those that the items describe, one for one.
pub open spec fn cards_fit(cs: Seq<SimCard>, os: Seq<Option<JsonValue>>) -> bool {
    &&& cs.len() == os.len()
    &&& forall|i: int| 0 <= i < cs.len() ==> card_from_item(#[trigger] cs[i], os[i])
}

/// The kind of a line whose JSON is `top`: by its `type` where that is a string
/// (a new message comes under `data`, SIM cards as an array under `data`, a message
/// list as an array under `messages`), and a line without one that names a sender
/// is a message by itself.
pub open spec fn line_kind(top: Option<JsonValue>) -> LineKind {
    match str_of(field(top, "type"@)) {
        Some(t) => {
            if t == "ping"@ {
                LineKind::Ping
            } else if t == "handshake"@ {
                LineKind::Handshake
            } else if t == "sms_list"@ {
                if items_of(field(top, "messages"@)) is Some {
                    LineKind::SmsList
                } else {
                    LineKind::Ignored
                }
            } else if t == "new_sms"@ {
                if has_sender(field(top, "data"@)) {
                    LineKind::NewSms
                } else {
                    LineKind::Ignored
                }
            } else if t == "sim_cards"@ {
                if items_of(field(top, "data"@)) is Some {
                    LineKind::SimCards
                } else {
                    LineKind::Ignored
                }
            } else {
                LineKind::Ignored
            }
        },
        None => {
            if has_sender(top) {
                LineKind::LegacySms
            } else {
                LineKind::Ignored
            }
        },
    }
}

/// `msg` is what a line whose JSON is `top` asks, read at `now`.
pub open spec fn decoded(msg: Incoming, top: Option<JsonValue>, now: i64) -> bool {
    match line_kind(top) {
        LineKind::Ping => msg is Ping,
        LineKind::Handshake => msg is Handshake,
        LineKind::SmsList => {
            let items = items_of(field(top, "messages"@)).unwrap();
            msg matches Incoming::SmsList { messages, received } && received == items.len()
                && messages_fit(messages@, sms_items(items), now)
        },
        LineKind::NewSms => msg matches Incoming::NewSms { sms } && sms_from_item(
            sms,
            field(top, "data"@),
            now,
            new_sms_slot_key(),
        ),
        LineKind::LegacySms => msg matches Incoming::NewSms { sms } && sms_from_item(
            sms,
            top,
            now,
            listed_slot_key(),
        ),
        LineKind::SimCards => {
            let items = items_of(field(top, "data"@)).unwrap();
            msg matches Incoming::SimCards { cards } && cards_fit(cards@, card_items(items))
        },
        LineKind::Ignored => msg is Ignored,
    }
}

fn opt_str(v: &Option<JsonValue>) -> (r: Option<&String>)
    ensures
        match r {
            Some(s) => str_of(*v) == Some(s@),
            None => str_of(*v) is None,
        },
{
    match v {
        Some(x) => x.as_str(),
        None => None,
    }
}

fn opt_i64(v: &Option<JsonValue>) -> (r: Option<i64>)
    ensures
        r == int_of(*v),
{
    match v {
        Some(x) => x.as_i64(),
        None => None,
    }
}

/// The message that item `o` describes, where it names a sender; its SIM slot is
/// read under `slot_key`.
pub fn sms_from_value(o: &JsonValue, now: i64, slot_key: &str) -> (r: Option<SmsMessage>)
    ensures
        r is Some <==> has_sender(Some(*o)),
        r matches Some(m) ==> sms_from_item(m, Some(*o), now, slot_key@),
{
    let sender_v = o.get("sender");
    let sender = match opt_str(&sender_v) {
        Some(s) => s.clone(),
        None => {
            return None;
        },
    };
    let body_v = o.get("body");
    let body = match opt_str(&body_v) {
        Some(b) => b.clone(),
        None => String::new(),
    };
    let timestamp = match opt_i64(&o.get("timestamp")) {
        Some(t) => t,
        None => now,
    };
    let sim_slot = match opt_i64(&o.get(slot_key)) {
        Some(s) => s as i32,
        None => -1,
    };
    let id = match opt_i64(&o.get("id")) {
        Some(i) => i,
        None => now,
    };
    Some(SmsMessage { id, sender, body, timestamp, category: String::new(), read: false, sim_slot })
}

/// The SIM card that item `o` describes, where it describes one.
pub fn card_from_value(o: &JsonValue) -> (r: Option<SimCard>)
    ensures
        r is Some <==> card_item(Some(*o)),
        r matches Some(c) ==> card_from_item(c, Some(*o)),
{
    let slot = match opt_i64(&o.get("slot_index")) {
        Some(s) => s,
        None => {
            return None;
        },
    };
    let phone_v = o.get("phone_number");
    let phone = match opt_str(&phone_v) {
        Some(p) => p.clone(),
        None => {
            return None;
        },
    };
    let carrier_v = o.get("carrier_name");
    let carrier = match opt_str(&carrier_v) {
        Some(c) => c.clone(),
        None => {
            return None;
        },
    };
    let active_v = o.get("is_active");
    let is_active = match &active_v {
        Some(a) => match a.as_bool() {
            Some(b) => b,
            None => true,
        },
        None => true,
    };
    Some(SimCard { slot_index: slot as i32, phone_number: phone, carrier_name: carrier, is_active })
}

fn sms_list_from_items(items: &Vec<String>, now: i64) -> (r: Vec<SmsMessage>)
    ensures
        messages_fit(r@, sms_items(items@.map_values(|t: String| t@)), now),
{
    let ghost texts = items@.map_values(|t: String| t@);
    let mut r: Vec<SmsMessage> = Vec::new();
    let mut i: usize = 0;
    while i < items.len()
        invariant
            i <= items.len(),
            texts == items@.map_values(|t: String| t@),
            messages_fit(r@, sms_items(texts.take(i as int)), now),
        decreases items.len() - i,
    {
        let parsed = parse_json(items[i].as_str());
        proof {
            assert(texts.take(i + 1).drop_last() =~= texts.take(i as int));
            assert(texts.take(i + 1).last() == items@[i as int]@);
        }
        let ghost before = r@;
        match &parsed {
            Some(o) => {
                match sms_from_value(o, now, "simSlot") {
                    Some(m) => {
                        r.push(m);
                        proof {
                            let os = sms_items(texts.take(i + 1));
                            assert(os == sms_items(texts.take(i as int)).push(parsed));
                            assert forall|k: int| 0 <= k < r@.len() implies sms_from_item(
                                #[trigger] r@[k],
                                os[k],
                                now,
                                listed_slot_key(),
                            ) by {
                                if k < before.len() {
                                    assert(r@[k] == before[k]);
                                }
                            }
                        }
                    },
                    None => {},
                }
            },
            None => {},
        }
        i = i + 1;
    }
    assert(texts.take(items.len() as int) =~= texts);
    r
}

fn cards_from_items(items: &Vec<String>) -> (r: Vec<SimCard>)
    ensures
        cards_fit(r@, card_items(items@.map_values(|t: String| t@))),
{
    let ghost texts = items@.map_values(|t: String| t@);
    let mut r: Vec<SimCard> = Vec::new();
    let mut i: usize = 0;
    while i < items.len()
        invariant
            i <= items.len(),
            texts == items@.map_values(|t: String| t@),
            cards_fit(r@, card_items(texts.take(i as int))),
        decreases items.len() - i,
    {
        let parsed = parse_json(items[i].as_str());
        proof {
            assert(texts.take(i + 1).drop_last() =~= texts.take(i as int));
            assert(texts.take(i + 1).last() == items@[i as int]@);
        }
        let ghost before = r@;
        match &parsed {
            Some(o) => {
                match card_from_value(o) {
                    Some(c) => {
                        r.push(c);
                        proof {
                            let os = card_items(texts.take(i + 1));
                            assert(os == card_items(texts.take(i as int)).push(parsed));
                            assert forall|k: int| 0 <= k < r@.len() implies card_from_item(
                                #[trigger] r@[k],
                                os[k],
                            ) by {
                                if k < before.len() {
                                    assert(r@[k] == before[k]);
                                }
                            }
                        }
                    },
                    None => {},
                }
            },
            None => {},
        }
        i = i + 1;
    }
    assert(texts.take(items.len() as int) =~= texts);
    r
}

/// What a line whose JSON value is `v` asks, read at `now` (milliseconds).
pub fn decode_value(v: &JsonValue, now: i64) -> (msg: Incoming)
    ensures
        decoded(msg, Some(*v), now),
{
    let type_v = v.get("type");
    match opt_str(&type_v) {
        Some(t) => {
            let t = t.as_str();
            if str_eq(t, "ping") {
                Incoming::Ping
            } else if str_eq(t, "handshake") {
                Incoming::Handshake
            } else if str_eq(t, "sms_list") {
                let list_v = v.get("messages");
                match &list_v {
                    Some(l) => match l.as_array() {
                        Some(items) => {
                            let messages = sms_list_from_items(items, now);
                            Incoming::SmsList { messages, received: items.len() }
                        },
                        None => Incoming::Ignored,
                    },
                    None => Incoming::Ignored,
                }
            } else if str_eq(t, "new_sms") {
                let sms_v = v.get("data");
                match &sms_v {
                    Some(o) => match sms_from_value(o, now, "sim_slot") {
                        Some(sms) => Incoming::NewSms { sms },
                        None => Incoming::Ignored,
                    },
                    None => Incoming::Ignored,
                }
            } else if str_eq(t, "sim_cards") {
                let cards_v = v.get("data");
                match &cards_v {
                    Some(l) => match l.as_array() {
                        Some(items) => Incoming::SimCards { cards: cards_from_items(items) },
                        None => Incoming::Ignored,
                    },
                    None => Incoming::Ignored,
                }
            } else {
                Incoming::Ignored
            }
        },
        None => match sms_from_value(v, now, "simSlot") {
            Some(sms) => Incoming::NewSms { sms },
            None => Incoming::Ignored,
        },
    }
}

/// What the line `line` asks, read at `now` (milliseconds); a line that is not
/// JSON asks nothing.
pub fn decode_line(line: &str, now: i64) -> (msg: Incoming)
    ensures
        decoded(msg, json_parse(line@), now),
{
    let top = parse_json(line);
    match &top {
        Some(v) => decode_value(v, now),
        None => Incoming::Ignored,
    }
}

} // verus!

verus! {

/// The first `LOG_PREVIEW_CHARS` characters of a body.
pub open spec fn preview(body: Seq<char>) -> Seq<char> {
    first_chars(body, LOG_PREVIEW_CHARS as nat)
}

/// Two states agree on connection, device, server and pending command.
pub open spec fn same_core(a: AppState, b: AppState) -> bool {
    &&& a.connection_status == b.connection_status
    &&& a.adb_status == b.adb_status
    &&& a.connected_device == b.connected_device
    &&& a.server_running == b.server_running
    &&& a.server_port == b.server_port
    &&& a.infopush_enabled == b.infopush_enabled
    &&& a.pending_command == b.pending_command
}

/// The log line for a received message.
pub open spec fn sms_log_text(sms: SmsMessage) -> Seq<char> {
    "SMS from "@ + sms.sender@ + ": "@ + preview(sms.body@)
}

/// `after` is `before` once `msg` is applied, and `reply` is what goes back to the
/// phone: a handshake is acknowledged; a message list replaces the list; a new
/// message is added as `AppState::add_sms` adds it; SIM cards replace the cards,
/// and the first is selected where none was; each of these is logged. A ping and
/// an ignored line change nothing here.
pub open spec fn applied(before: AppState, after: AppState, msg: Incoming, reply: Option<String>) -> bool {
    &&& same_core(before, after)
    &&& match msg {
        Incoming::Handshake => reply matches Some(r) && r@ == handshake_ack(),
        _ => reply is None,
    }
    &&& match msg {
        Incoming::SmsList { messages, .. } => after.sms_list@ == messages@,
        Incoming::NewSms { sms } => after.sms_list@ == sms_list_after_add(before.sms_list@, sms),
        _ => after.sms_list@ == before.sms_list@,
    }
    &&& match msg {
        Incoming::SimCards { cards } => {
            &&& after.sim_cards@ == cards@
            &&& after.selected_sim == if before.selected_sim is None && cards@.len() > 0 {
                Some(0usize)
            } else {
                before.selected_sim
            }
        },
        _ => after.sim_cards@ == before.sim_cards@ && after.selected_sim == before.selected_sim,
    }
    &&& match msg {
        Incoming::Ping => after.logs@ == before.logs@,
        Incoming::Ignored => after.logs@ == before.logs@ && after.last_activity
            == before.last_activity,
        Incoming::Handshake => log_added(
            before.logs@,
            after.logs@,
            "INFO"@,
            "Handshake acknowledged"@,
        ) && after.last_activity == before.last_activity,
        Incoming::SmsList { received, .. } => log_added(
            before.logs@,
            after.logs@,
            "INFO"@,
            "Received "@ + int_text(received as int) + " SMS messages"@,
        ) && after.last_activity == before.last_activity,
        Incoming::NewSms { sms } => log_added(before.logs@, after.logs@, "INFO"@, sms_log_text(sms))
            && after.last_activity == before.last_activity,
        Incoming::SimCards { cards } => log_added(
            before.logs@,
            after.logs@,
            "INFO"@,
            "Received "@ + int_text(cards@.len() as int) + " SIM cards"@,
        ) && after.last_activity == before.last_activity,
    }
}

/// The first `LOG_PREVIEW_CHARS` characters of `body`.
pub fn preview_text(body: &str) -> (r: String)
    ensures
        r@ == preview(body@),
{
    first_chars_text(body, LOG_PREVIEW_CHARS)
}

/// `Received <count> <what>`.
fn received_text(count: usize, what: &str) -> (r: String)
    ensures
        r@ == "Received "@ + int_text(count as int) + what@,
{
    let mut r = String::from_str("Received ");
    let n = u64_text(count as u64);
    r.append(n.as_str());
    r.append(what);
    r
}

/// Applies what a line asks to the state, and gives the answer to send back.
pub fn apply_incoming(state: &mut AppState, msg: Incoming) -> (reply: Option<String>)
    ensures
        applied(*old(state), *final(state), msg, reply),
{
    match msg {
        Incoming::Ping => {
            state.last_activity = instant_now();
            None
        },
        Incoming::Handshake => {
            state.add_log("INFO", String::from_str("Handshake acknowledged"));
            Some(String::from_str("{\"type\":\"handshake_ack\"}\n"))
        },
        Incoming::SmsList { messages, received } => {
            state.sms_list = messages;
            state.add_log("INFO", received_text(received, " SMS messages"));
            None
        },
        Incoming::NewSms { sms } => {
            let mut line = String::from_str("SMS from ");
            line.append(sms.sender.as_str());
            line.append(": ");
            let p = preview_text(sms.body.as_str());
            line.append(p.as_str());
            state.add_sms(sms);
            state.add_log("INFO", line);
            None
        },
        Incoming::SimCards { cards } => {
            let n: usize = cards.len();
            state.sim_cards = cards;
            if state.selected_sim.is_none() && n > 0 {
                state.selected_sim = Some(0);
            }
            state.add_log("INFO", received_text(n, " SIM cards"));
            None
        },
        Incoming::Ignored => None,
    }
}

/// Handles one line that the phone sent: logs it, notes the activity, reads it
/// at the current time, applies it, and gives the answer to send back.
pub fn handle_line(state: &mut AppState, line: &str) -> (reply: Option<String>)
    ensures
        exists|mid: AppState, msg: Incoming, now: i64|
            #![trigger decoded(msg, json_parse(line@), now), log_added(old(state).logs@, mid.logs@, "DEBUG"@, "Received: "@ + line@)]
            {
                &&& log_added(old(state).logs@, mid.logs@, "DEBUG"@, "Received: "@ + line@)
                &&& same_core(*old(state), mid)
                &&& mid.sms_list@ == old(state).sms_list@
                &&& mid.sim_cards@ == old(state).sim_cards@
                &&& mid.selected_sim == old(state).selected_sim
                &&& decoded(msg, json_parse(line@), now)
                &&& applied(mid, *final(state), msg, reply)
            },
{
    let mut received = String::from_str("Received: ");
    received.append(line);
    state.add_log("DEBUG", received);
    state.last_activity = instant_now();
    let ghost mid = *state;
    let now = utc_now_millis();
    let msg = decode_line(line, now);
    let ghost m = msg;
    let reply = apply_incoming(state, msg);
    assert(log_added(old(state).logs@, mid.logs@, "DEBUG"@, "Received: "@ + line@));
    assert(same_core(*old(state), mid));
    assert(decoded(m, json_parse(line@), now));
    assert(applied(mid, *state, m, reply));
    reply
}

} // verus!

verus! {

/// Counts the open connections from the phone, in all and for each device.
#[derive(Debug)]
pub struct ConnectionCounter {
    active: usize,
    by_device: StringMap<usize>,
}

impl ConnectionCounter {
    /// The number of open connections.
    pub closed spec fn active(&self) -> nat {
        self.active as nat
    }

    /// The per-device map keeps each device once.
    #[verifier::type_invariant]
    spec fn inv(&self) -> bool {
        self.by_device.wf()
    }

    /// The number of open connections that came while device `s` was selected.
    pub closed spec fn count(&self, s: Seq<char>) -> nat {
        match self.by_device.lookup(s) {
            Some(n) => n as nat,
            None => 0,
        }
    }

    /// No connections.
    pub fn new() -> (c: ConnectionCounter)
        ensures
            c.active() == 0,
            forall|s: Seq<char>| c.count(s) == 0,
    {
        ConnectionCounter { active: 0, by_device: StringMap::new() }
    }

    /// The number of open connections.
    pub fn active_count(&self) -> (r: usize)
        ensures
            r == self.active(),
    {
        self.active
    }

    /// The number of open connections of device `s`.
    pub fn count_of(&self, s: &str) -> (r: usize)
        ensures
            r == self.count(s@),
    {
        proof {
            use_type_invariant(self);
        }
        match self.by_device.get(s) {
            Some(n) => *n,
            None => 0,
        }
    }

    /// A client connected, while device `serial` (if any) was selected.
    pub fn connect(&mut self, serial: Option<&str>)
        requires
            old(self).active() < usize::MAX,
            serial matches Some(s) ==> old(self).count(s@) < usize::MAX,
        ensures
            final(self).active() == old(self).active() + 1,
            forall|t: Seq<char>|
                #[trigger] final(self).count(t) == if serial matches Some(s) && s@ == t {
                    old(self).count(t) + 1
                } else {
                    old(self).count(t)
                },
    {
        proof {
            use_type_invariant(&*self);
        }
        self.active = self.active + 1;
        if let Some(s) = serial {
            let n = self.count_of(s);
            let mut m = StringMap::new();
            std::mem::swap(&mut m, &mut self.by_device);
            m.insert(String::from_str(s), n + 1);
            self.by_device = m;
        }
    }

    /// A client disconnected that had connected while device `serial` (if any) was
    /// selected; counts do not go below zero, and a device whose count reaches zero
    /// is forgotten.
    pub fn disconnect(&mut self, serial: Option<&str>)
        ensures
            final(self).active() == if old(self).active() > 0 {
                (old(self).active() - 1) as nat
            } else {
                0
            },
            forall|t: Seq<char>|
                #[trigger] final(self).count(t) == if serial matches Some(s) && s@ == t && old(
                    self,
                ).count(t) > 0 {
                    (old(self).count(t) - 1) as nat
                } else {
                    old(self).count(t)
                },
    {
        proof {
            use_type_invariant(&*self);
        }
        self.active = if self.active > 0 {
            self.active - 1
        } else {
            0
        };
        if let Some(s) = serial {
            let n = self.count_of(s);
            let mut m = StringMap::new();
            std::mem::swap(&mut m, &mut self.by_device);
            if n > 1 {
                m.insert(String::from_str(s), n - 1);
            } else {
                let _ = m.take(s);
            }
            self.by_device = m;
        }
    }
}

} // verus!

verus! {

/// A connection that opens and then closes leaves every count as it was.
pub proof fn law_connect_then_disconnect(
    c0: ConnectionCounter,
    c1: ConnectionCounter,
    c2: ConnectionCounter,
    serial: Option<Seq<char>>,
)
    requires
        c1.active() == c0.active() + 1,
        forall|t: Seq<char>|
            #[trigger] c1.count(t) == if serial == Some(t) {
                c0.count(t) + 1
            } else {
                c0.count(t)
            },
        c2.active() == if c1.active() > 0 {
            (c1.active() - 1) as nat
        } else {
            0
        },
        forall|t: Seq<char>|
            #[trigger] c2.count(t) == if serial == Some(t) && c1.count(t) > 0 {
                (c1.count(t) - 1) as nat
            } else {
                c1.count(t)
            },
    ensures
        c2.active() == c0.active(),
        forall|t: Seq<char>| #[trigger] c2.count(t) == c0.count(t),
{
    assert forall|t: Seq<char>| #[trigger] c2.count(t) == c0.count(t) by {
        assert(c1.count(t) == c0.count(t) || c1.count(t) == c0.count(t) + 1);
    }
}

/// The model name under which a connected phone is shown.
pub open spec fn default_model() -> Seq<char> {
    "Android Device"@
}

/// The phone of the selected device has an open connection.
pub open spec fn selected_connected(state: AppState, counter: ConnectionCounter) -> bool {
    state.adb_status.device_serial matches Some(s) && counter.count(s@) > 0
}

/// `d` is the phone `serial` as shown when it connects.
pub open spec fn shown_device(d: Option<DeviceInfo>, serial: Seq<char>) -> bool {
    match d {
        Some(x) => {
            &&& x.serial@ == serial
            &&& x.model matches Some(m) && m@ == default_model()
            &&& x.android_version is None
        },
        None => false,
    }
}

/// The status that follows from the selected device and its connections: Connected
/// (with the phone shown, where none was) while the selected device has a
/// connection; else no phone, and an error where `adb` is missing, waiting where
/// `adb` listed no device or none is selected, and the status as it was otherwise.
pub open spec fn status_applied(before: AppState, after: AppState, counter: ConnectionCounter) -> bool {
    &&& after.adb_status == before.adb_status
    &&& after.sms_list@ == before.sms_list@
    &&& after.logs@ == before.logs@
    &&& after.server_running == before.server_running
    &&& after.server_port == before.server_port
    &&& after.infopush_enabled == before.infopush_enabled
    &&& after.last_activity == before.last_activity
    &&& after.pending_command == before.pending_command
    &&& after.sim_cards@ == before.sim_cards@
    &&& after.selected_sim == before.selected_sim
    &&& if selected_connected(before, counter) {
        &&& after.connection_status == ConnectionStatus::Connected
        &&& if before.connected_device is None {
            shown_device(after.connected_device, before.adb_status.device_serial.unwrap()@)
        } else {
            after.connected_device == before.connected_device
        }
    } else {
        &&& after.connected_device is None
        &&& if !before.adb_status.adb_available {
            after.connection_status matches ConnectionStatus::Error(e) && e@
                == "ADB not available"@
        } else if before.adb_status.devices@.len() == 0 || before.adb_status.device_serial is None {
            after.connection_status == ConnectionStatus::WaitingForDevice
        } else {
            after.connection_status == before.connection_status
        }
    }
}

/// The phone `serial` as shown when it connects.
fn new_shown_device(serial: &String) -> (d: DeviceInfo)
    ensures
        shown_device(Some(d), serial@),
{
    DeviceInfo {
        serial: serial.clone(),
        model: Some(String::from_str("Android Device")),
        android_version: None,
    }
}

/// Sets the connection status from the selected device and its connections.
pub fn apply_connection_status(state: &mut AppState, counter: &ConnectionCounter)
    ensures
        status_applied(*old(state), *final(state), *counter),
{
    let connected = match &state.adb_status.device_serial {
        Some(s) => counter.count_of(s.as_str()) > 0,
        None => false,
    };
    if connected {
        state.connection_status = ConnectionStatus::Connected;
        if state.connected_device.is_none() {
            let d = match &state.adb_status.device_serial {
                Some(s) => Some(new_shown_device(s)),
                None => None,
            };
            state.connected_device = d;
        }
        return;
    }
    state.connected_device = None;
    if !state.adb_status.adb_available {
        state.connection_status = ConnectionStatus::Error(String::from_str("ADB not available"));
    } else if state.adb_status.devices.len() == 0 || state.adb_status.device_serial.is_none() {
        state.connection_status = ConnectionStatus::WaitingForDevice;
    }
}

} // verus!

verus! {

/// Applying what a line asks keeps the state's bounds (see `AppState::wf`), but for
/// a message list, which replaces the list as the phone sent it.
pub proof fn law_incoming_keeps_bounds(before: AppState, after: AppState, msg: Incoming, reply: Option<String>)
    requires
        before.wf(),
        applied(before, after, msg, reply),
        !(msg is SmsList),
    ensures
        after.wf(),
{
    match msg {
        Incoming::NewSms { sms } => {
            law_add_sms_keeps_list_valid(before.sms_list@, sms);
            law_add_log_bounded(before.logs@, after.logs@, "INFO"@, sms_log_text(sms));
        },
        Incoming::Handshake => {
            law_add_log_bounded(before.logs@, after.logs@, "INFO"@, "Handshake acknowledged"@);
        },
        Incoming::SimCards { cards } => {
            law_add_log_bounded(
                before.logs@,
                after.logs@,
                "INFO"@,
                "Received "@ + int_text(cards@.len() as int) + " SIM cards"@,
            );
        },
        _ => {},
    }
}

} // verus!

verus! {

/// Where every item names a sender, every item gives a message.
pub proof fn lemma_sms_items_all(items: Seq<Seq<char>>)
    requires
        forall|i: int| 0 <= i < items.len() ==> has_sender(#[trigger] json_parse(items[i])),
    ensures
        sms_items(items).len() == items.len(),
        forall|i: int| 0 <= i < items.len() ==> #[trigger] sms_items(items)[i] == json_parse(items[i]),
    decreases items.len(),
{
    if items.len() > 0 {
        let rest = items.drop_last();
        assert forall|i: int| 0 <= i < rest.len() implies has_sender(#[trigger] json_parse(rest[i])) by {
            assert(rest[i] == items[i]);
            assert(has_sender(json_parse(items[i])));
        }
        lemma_sms_items_all(rest);
        assert(has_sender(json_parse(items[items.len() - 1])));
        assert forall|i: int| 0 <= i < items.len() implies #[trigger] sms_items(items)[i] == json_parse(items[i]) by {
            if i < items.len() - 1 {
                assert(rest[i] == items[i]);
            }
        }
    }
}

/// A message list replaces the list with all the messages it carries, however many
/// (no cap and no merging): one message for each item that names a sender, in the
/// order sent, each read from its item; and the log counts every item sent. Where
/// every item names a sender, the list holds exactly as many messages as items.
pub proof fn law_message_list_taken_whole(
    before: AppState,
    after: AppState,
    top: Option<JsonValue>,
    now: i64,
    msg: Incoming,
    reply: Option<String>,
)
    requires
        line_kind(top) is SmsList,
        decoded(msg, top, now),
        applied(before, after, msg, reply),
    ensures
        ({
            let items = items_of(field(top, "messages"@)).unwrap();
            &&& after.sms_list@.len() == sms_items(items).len()
            &&& forall|i: int|
                0 <= i < after.sms_list@.len() ==> sms_from_item(
                    #[trigger] after.sms_list@[i],
                    sms_items(items)[i],
                    now,
                    listed_slot_key(),
                )
            &&& log_added(
                before.logs@,
                after.logs@,
                "INFO"@,
                "Received "@ + int_text(items.len() as int) + " SMS messages"@,
            )
            &&& (forall|i: int| 0 <= i < items.len() ==> has_sender(#[trigger] json_parse(items[i])))
                ==> after.sms_list@.len() == items.len()
        }),
{
    let items = items_of(field(top, "messages"@)).unwrap();
    if forall|i: int| 0 <= i < items.len() ==> has_sender(#[trigger] json_parse(items[i])) {
        lemma_sms_items_all(items);
    }
}

} // verus!
