//! Payloads and objects that travel through the Discord gateway, and their
//! form as JSON.
use crate::codec::{
    is_number, is_optional_number, is_optional_text, is_text, number_form, number_of,
    optional_number_of, optional_text_of, read_number, read_optional_number, read_optional_text,
    read_text, text_form, text_of, write_number, write_optional_number, write_optional_text,
    write_text, ObjectWriter,
};
use crate::error::CodecError;
use crate::json::{
    json_list, json_member, json_object, json_parsed, json_rendered, json_shape, parse_value,
    render_value, value_as_array, value_from_items, value_get, JsonShape,
};
use std::sync::Arc;
use vstd::prelude::*;
use vstd::string::*;

verus! {

/// The limits imposed on new sessions which are started.
#[derive(Debug, Clone, Copy, PartialEq, Eq, Structural)]
pub struct SessionStartLimit {
    /// The total number of session starts the current bot is allowed.
    pub total_sessions: u32,
    /// The remaining number of session starts the current bot is allowed.
    pub remaining_sessions: u32,
    /// The number of milliseconds after which the limit resets.
    pub reset_after: u32,
    /// The number of identify requests allowed per 5 seconds: the size of a
    /// shard bucket.
    pub max_concurrency: u32,
}

/// What the gateway answers when a bot asks how to connect.
#[derive(Debug, Clone, PartialEq, Eq)]
pub struct GetGatewayBotResponse {
    /// The WSS URL that can be used for connecting to the gateway.
    pub url: String,
    /// The recommended number of shards to use when connecting.
    pub shards: u32,
    /// Information on the current session start limit.
    pub session_start_limit: SessionStartLimit,
}

/// A [`GetGatewayBotResponse`] with its url as a sequence of characters.
pub struct GetGatewayBotResponseView {
    pub url: Seq<char>,
    pub shards: u32,
    pub session_start_limit: SessionStartLimit,
}

impl View for GetGatewayBotResponse {
    type V = GetGatewayBotResponseView;

    open spec fn view(&self) -> GetGatewayBotResponseView {
        GetGatewayBotResponseView {
            url: self.url@,
            shards: self.shards,
            session_start_limit: self.session_start_limit,
        }
    }
}

/// The heartbeat cadence that the gateway announces on a new connection.
#[derive(Debug, Clone, Copy, PartialEq, Eq, Structural)]
pub struct Hello {
    /// The interval (in milliseconds) the client should heartbeat with.
    pub heartbeat_interval: u32,
}

impl View for Hello {
    type V = Hello;

    open spec fn view(&self) -> Hello {
        *self
    }
}

/// Connection properties of the Identify handshake payload.
#[derive(Debug, Clone, PartialEq, Eq)]
pub struct IdentifyConnectionProperties {
    /// The operating system the bot runs on.
    pub operating_system: String,
    /// The name of the library.
    pub browser: String,
    /// The name of the library.
    pub device: String,
}

/// [`IdentifyConnectionProperties`] with its texts as sequences of characters.
pub struct IdentifyConnectionPropertiesView {
    pub operating_system: Seq<char>,
    pub browser: Seq<char>,
    pub device: Seq<char>,
}

impl View for IdentifyConnectionProperties {
    type V = IdentifyConnectionPropertiesView;

    open spec fn view(&self) -> IdentifyConnectionPropertiesView {
        IdentifyConnectionPropertiesView {
            operating_system: self.operating_system@,
            browser: self.browser@,
            device: self.device@,
        }
    }
}

/// Payload used to trigger the initial handshake with the gateway.
#[derive(Debug, Clone, PartialEq, Eq)]
pub struct Identify {
    /// The authentication token for this bot, shared by all its shards.
    pub token: Arc<String>,
    /// Information about the connection sent to Discord.
    pub connection_properties: IdentifyConnectionProperties,
    /// The shard that identifies itself: its id, then the number of shards.
    pub shard: [u32; 2],
    /// The bitmask of the gateway intents the bot asks for.
    pub intents: u32,
}

/// [`Identify`] with its texts as sequences of characters.
pub struct IdentifyView {
    pub token: Seq<char>,
    pub connection_properties: IdentifyConnectionPropertiesView,
    pub shard_id: u32,
    pub shard_total: u32,
    pub intents: u32,
}

impl View for Identify {
    type V = IdentifyView;

    open spec fn view(&self) -> IdentifyView {
        IdentifyView {
            token: self.token@,
            connection_properties: self.connection_properties@,
            shard_id: self.shard@[0],
            shard_total: self.shard@[1],
            intents: self.intents,
        }
    }
}

/// An envelope of the gateway protocol: every command sent and every event
/// received is one of these.
#[derive(Debug, Clone, PartialEq, Eq)]
pub struct Payload<T> {
    /// The opcode, which denotes the payload type.
    pub opcode: u32,
    /// The data of this payload.
    pub data: T,
    /// Sequence number of this payload, used for heartbeats.
    pub sequence_number: Option<u32>,
    /// The event name for this payload.
    pub event_name: Option<String>,
}

/// An envelope with its data and its event name as mathematical values.
pub struct PayloadView<D> {
    pub opcode: u32,
    pub data: D,
    pub sequence_number: Option<u32>,
    pub event_name: Option<Seq<char>>,
}

impl<T: View> View for Payload<T> {
    type V = PayloadView<T::V>;

    open spec fn view(&self) -> PayloadView<T::V> {
        PayloadView {
            opcode: self.opcode,
            data: self.data@,
            sequence_number: self.sequence_number,
            event_name: match self.event_name {
                Some(name) => Some(name@),
                None => None,
            },
        }
    }
}

impl<T> Payload<T> {
    /// Creates a new payload with only the opcode and data fields set.
    pub fn new(opcode: u32, data: T) -> (payload: Self)
        ensures
            payload.opcode == opcode,
            payload.data == data,
            payload.sequence_number is None,
            payload.event_name is None,
    {
        Self { opcode, data, sequence_number: None, event_name: None }
    }
}

/// Data that an envelope can carry: it has a form as a JSON value, and reading
/// that form gives the data back.
pub trait GatewayData: View + Sized {
    /// Whether a JSON value is the form in which the data is sent.
    spec fn written(data: Self::V, value: serde_json::Value) -> bool;

    /// The data that a JSON value is read as, if it can be read as any.
    spec fn read(value: serde_json::Value) -> Option<Self::V>;

    /// The JSON value that the data is written as: equal data is written
    /// as the same value.
    spec fn form(data: Self::V) -> serde_json::Value;

    /// Writes the data as a JSON value.
    fn to_value(&self) -> (value: serde_json::Value)
        ensures
            value == Self::form(self@),
            Self::written(self@, value),
    ;

    /// Reads the data from a JSON value.
    fn from_value(value: &serde_json::Value) -> (res: Option<Self>)
        ensures
            match res {
                Some(data) => Self::read(*value) == Some(data@),
                None => Self::read(*value) is None,
            },
    ;

    /// Reading the form in which data is sent gives the data back.
    proof fn lemma_read_written(data: Self::V, value: serde_json::Value)
        requires
            Self::written(data, value),
        ensures
            Self::read(value) == Some(data),
    ;
}

impl GatewayData for Hello {
    /// An object with one member, the interval.
    open spec fn written(data: Hello, value: serde_json::Value) -> bool {
        &&& json_shape(value) matches JsonShape::Object(members)
        &&& members.dom() =~= set!["heartbeat_interval"@]
        &&& is_number(members["heartbeat_interval"@], data.heartbeat_interval)
    }

    /// Any object with an interval of 32 bits; other members are passed over.
    open spec fn read(value: serde_json::Value) -> Option<Hello> {
        match json_member(value, "heartbeat_interval"@) {
            Some(interval) => match number_of(interval) {
                Some(heartbeat_interval) => Some(Hello { heartbeat_interval }),
                None => None,
            },
            None => None,
        }
    }

    open spec fn form(data: Hello) -> serde_json::Value {
        json_object(seq![("heartbeat_interval"@, number_form(Some(data.heartbeat_interval)))])
    }

    fn to_value(&self) -> (value: serde_json::Value) {
        let writer = ObjectWriter::new();
        let writer = writer.put("heartbeat_interval", write_number(self.heartbeat_interval));
        assert(writer@.dom() =~= set!["heartbeat_interval"@]);
        assert(writer.entries() =~= seq![
            ("heartbeat_interval"@, number_form(Some(self.heartbeat_interval))),
        ]);
        writer.finish()
    }

    fn from_value(value: &serde_json::Value) -> (res: Option<Self>) {
        match value_get(value, "heartbeat_interval") {
            Some(interval) => match read_number(interval) {
                Some(heartbeat_interval) => Some(Hello { heartbeat_interval }),
                None => None,
            },
            None => None,
        }
    }

    proof fn lemma_read_written(data: Hello, value: serde_json::Value) {
    }
}

/// The data of a heartbeat: the last sequence number, or `null`.
impl GatewayData for Option<u32> {
    open spec fn written(data: Option<u32>, value: serde_json::Value) -> bool {
        is_optional_number(value, data)
    }

    open spec fn read(value: serde_json::Value) -> Option<Option<u32>> {
        optional_number_of(Some(value))
    }

    open spec fn form(data: Option<u32>) -> serde_json::Value {
        number_form(data)
    }

    fn to_value(&self) -> (value: serde_json::Value) {
        write_optional_number(*self)
    }

    fn from_value(value: &serde_json::Value) -> (res: Option<Self>) {
        read_optional_number(Some(value))
    }

    proof fn lemma_read_written(data: Option<u32>, value: serde_json::Value) {
    }
}

impl GatewayData for IdentifyConnectionProperties {
    /// An object with the members `os`, `browser` and `device`.
    open spec fn written(data: IdentifyConnectionPropertiesView, value: serde_json::Value) -> bool {
        &&& json_shape(value) matches JsonShape::Object(members)
        &&& members.dom() =~= set!["os"@, "browser"@, "device"@]
        &&& is_text(members["os"@], data.operating_system)
        &&& is_text(members["browser"@], data.browser)
        &&& is_text(members["device"@], data.device)
    }

    /// Any object with the three texts; other members are passed over.
    open spec fn read(value: serde_json::Value) -> Option<IdentifyConnectionPropertiesView> {
        match (
            json_member(value, "os"@),
            json_member(value, "browser"@),
            json_member(value, "device"@),
        ) {
            (Some(os), Some(browser), Some(device)) => match (
                text_of(os),
                text_of(browser),
                text_of(device),
            ) {
                (Some(operating_system), Some(browser), Some(device)) => Some(
                    IdentifyConnectionPropertiesView { operating_system, browser, device },
                ),
                _ => None,
            },
            _ => None,
        }
    }

    open spec fn form(data: IdentifyConnectionPropertiesView) -> serde_json::Value {
        json_object(
            seq![
                ("os"@, text_form(Some(data.operating_system))),
                ("browser"@, text_form(Some(data.browser))),
                ("device"@, text_form(Some(data.device))),
            ],
        )
    }

    fn to_value(&self) -> (value: serde_json::Value) {
        proof {
            reveal_strlit("os");
            reveal_strlit("browser");
            reveal_strlit("device");
            assert("os"@.len() == 2 && "browser"@.len() == 7 && "device"@.len() == 6);
        }
        let writer = ObjectWriter::new();
        let writer = writer.put("os", write_text(self.operating_system.as_str()));
        let writer = writer.put("browser", write_text(self.browser.as_str()));
        let writer = writer.put("device", write_text(self.device.as_str()));
        assert(writer@.dom() =~= set!["os"@, "browser"@, "device"@]);
        assert(writer.entries() =~= seq![
            ("os"@, text_form(Some(self.operating_system@))),
            ("browser"@, text_form(Some(self.browser@))),
            ("device"@, text_form(Some(self.device@))),
        ]);
        writer.finish()
    }

    fn from_value(value: &serde_json::Value) -> (res: Option<Self>) {
        let os = match value_get(value, "os") {
            Some(os) => os,
            None => return None,
        };
        let browser = match value_get(value, "browser") {
            Some(browser) => browser,
            None => return None,
        };
        let device = match value_get(value, "device") {
            Some(device) => device,
            None => return None,
        };
        let operating_system = match read_text(os) {
            Some(text) => text,
            None => return None,
        };
        let browser = match read_text(browser) {
            Some(text) => text,
            None => return None,
        };
        let device = match read_text(device) {
            Some(text) => text,
            None => return None,
        };
        Some(IdentifyConnectionProperties { operating_system, browser, device })
    }

    proof fn lemma_read_written(data: IdentifyConnectionPropertiesView, value: serde_json::Value) {
    }
}

/// Whether a JSON value is the array of a shard's id and the number of shards.
pub open spec fn is_shard_pair(value: serde_json::Value, shard_id: u32, shard_total: u32) -> bool {
    &&& json_shape(value) matches JsonShape::List(items)
    &&& items.len() == 2
    &&& is_number(items[0], shard_id)
    &&& is_number(items[1], shard_total)
}

/// The shard's id and the number of shards that a JSON value holds, if it is
/// an array of two numbers.
pub open spec fn shard_pair_of(value: serde_json::Value) -> Option<(u32, u32)> {
    match json_shape(value) {
        JsonShape::List(items) => if items.len() == 2 {
            match (number_of(items[0]), number_of(items[1])) {
                (Some(shard_id), Some(shard_total)) => Some((shard_id, shard_total)),
                _ => None,
            }
        } else {
            None
        },
        _ => None,
    }
}

impl GatewayData for Identify {
    /// An object with the members `token`, `properties`, `shard` and
    /// `intents`.
    open spec fn written(data: IdentifyView, value: serde_json::Value) -> bool {
        &&& json_shape(value) matches JsonShape::Object(members)
        &&& members.dom() =~= set!["token"@, "properties"@, "shard"@, "intents"@]
        &&& is_text(members["token"@], data.token)
        &&& IdentifyConnectionProperties::written(
            data.connection_properties,
            members["properties"@],
        )
        &&& is_shard_pair(members["shard"@], data.shard_id, data.shard_total)
        &&& is_number(members["intents"@], data.intents)
    }

    /// Any object with the four members; other members are passed over.
    open spec fn read(value: serde_json::Value) -> Option<IdentifyView> {
        match (
            json_member(value, "token"@),
            json_member(value, "properties"@),
            json_member(value, "shard"@),
            json_member(value, "intents"@),
        ) {
            (Some(token), Some(properties), Some(shard), Some(intents)) => match (
                text_of(token),
                IdentifyConnectionProperties::read(properties),
                shard_pair_of(shard),
                number_of(intents),
            ) {
                (Some(token), Some(connection_properties), Some(pair), Some(intents)) => Some(
                    IdentifyView {
                        token,
                        connection_properties,
                        shard_id: pair.0,
                        shard_total: pair.1,
                        intents,
                    },
                ),
                _ => None,
            },
            _ => None,
        }
    }

    open spec fn form(data: IdentifyView) -> serde_json::Value {
        json_object(
            seq![
                ("token"@, text_form(Some(data.token))),
                ("properties"@, IdentifyConnectionProperties::form(data.connection_properties)),
                (
                    "shard"@,
                    json_list(
                        seq![number_form(Some(data.shard_id)), number_form(Some(data.shard_total))],
                    ),
                ),
                ("intents"@, number_form(Some(data.intents))),
            ],
        )
    }

    fn to_value(&self) -> (value: serde_json::Value) {
        proof {
            reveal_strlit("token");
            reveal_strlit("properties");
            reveal_strlit("shard");
            reveal_strlit("intents");
            assert("token"@.len() == 5 && "properties"@.len() == 10 && "intents"@.len() == 7);
            assert("token"@[0] == 't' && "shard"@[0] == 's');
        }
        let token: &String = &*self.token;
        let mut pair: Vec<serde_json::Value> = Vec::new();
        pair.push(write_number(self.shard[0]));
        pair.push(write_number(self.shard[1]));
        assert(pair@ =~= seq![
            number_form(Some(self.shard@[0])),
            number_form(Some(self.shard@[1])),
        ]);
        let writer = ObjectWriter::new();
        let writer = writer.put("token", write_text(token.as_str()));
        let writer = writer.put("properties", self.connection_properties.to_value());
        let writer = writer.put("shard", value_from_items(pair));
        let writer = writer.put("intents", write_number(self.intents));
        assert(writer@.dom() =~= set!["token"@, "properties"@, "shard"@, "intents"@]);
        assert(writer.entries() =~= seq![
            ("token"@, text_form(Some(self.token@))),
            ("properties"@, IdentifyConnectionProperties::form(self.connection_properties@)),
            (
                "shard"@,
                json_list(
                    seq![number_form(Some(self.shard@[0])), number_form(Some(self.shard@[1]))],
                ),
            ),
            ("intents"@, number_form(Some(self.intents))),
        ]);
        writer.finish()
    }

    fn from_value(value: &serde_json::Value) -> (res: Option<Self>) {
        let token = match value_get(value, "token") {
            Some(token) => token,
            None => return None,
        };
        let properties = match value_get(value, "properties") {
            Some(properties) => properties,
            None => return None,
        };
        let shard = match value_get(value, "shard") {
            Some(shard) => shard,
            None => return None,
        };
        let intents = match value_get(value, "intents") {
            Some(intents) => intents,
            None => return None,
        };
        let token = match read_text(token) {
            Some(text) => text,
            None => return None,
        };
        let connection_properties = match IdentifyConnectionProperties::from_value(properties) {
            Some(properties) => properties,
            None => return None,
        };
        let items = match value_as_array(shard) {
            Some(items) => items,
            None => return None,
        };
        if items.len() != 2 {
            return None;
        }
        let shard_id = match read_number(&items[0]) {
            Some(n) => n,
            None => return None,
        };
        let shard_total = match read_number(&items[1]) {
            Some(n) => n,
            None => return None,
        };
        let intents = match read_number(intents) {
            Some(n) => n,
            None => return None,
        };
        Some(
            Identify {
                token: Arc::new(token),
                connection_properties,
                shard: [shard_id, shard_total],
                intents,
            },
        )
    }

    proof fn lemma_read_written(data: IdentifyView, value: serde_json::Value) {
        let members = json_shape(value)->Object_0;
        IdentifyConnectionProperties::lemma_read_written(
            data.connection_properties,
            members["properties"@],
        );
    }
}

/// Data that the library passes on as it came.
#[derive(Debug, Clone, PartialEq, Eq)]
pub struct RawData {
    /// The JSON value of the data.
    pub value: serde_json::Value,
}

impl View for RawData {
    type V = serde_json::Value;

    open spec fn view(&self) -> serde_json::Value {
        self.value
    }
}

impl GatewayData for RawData {
    open spec fn written(data: serde_json::Value, value: serde_json::Value) -> bool {
        value == data
    }

    open spec fn read(value: serde_json::Value) -> Option<serde_json::Value> {
        Some(value)
    }

    open spec fn form(data: serde_json::Value) -> serde_json::Value {
        data
    }

    fn to_value(&self) -> (value: serde_json::Value) {
        self.value.clone()
    }

    fn from_value(value: &serde_json::Value) -> (res: Option<Self>) {
        Some(RawData { value: value.clone() })
    }

    proof fn lemma_read_written(data: serde_json::Value, value: serde_json::Value) {
    }
}

impl<T: GatewayData> Payload<T> {
    /// Whether a JSON value is the form in which an envelope is sent: an
    /// object with the members `op`, `d`, `s` and `t`.
    pub open spec fn written(payload: PayloadView<T::V>, value: serde_json::Value) -> bool {
        &&& json_shape(value) matches JsonShape::Object(members)
        &&& members.dom() =~= set!["op"@, "d"@, "s"@, "t"@]
        &&& is_number(members["op"@], payload.opcode)
        &&& T::written(payload.data, members["d"@])
        &&& is_optional_number(members["s"@], payload.sequence_number)
        &&& is_optional_text(members["t"@], payload.event_name)
    }

    /// The envelope that a JSON value is read as: any object with an opcode of
    /// 32 bits and data that can be read. A sequence number and an event name
    /// may be missing or `null`; other members are passed over.
    pub open spec fn read(value: serde_json::Value) -> Option<PayloadView<T::V>> {
        match (json_member(value, "op"@), json_member(value, "d"@)) {
            (Some(op), Some(d)) => match (
                number_of(op),
                T::read(d),
                optional_number_of(json_member(value, "s"@)),
                optional_text_of(json_member(value, "t"@)),
            ) {
                (Some(opcode), Some(data), Some(sequence_number), Some(event_name)) => Some(
                    PayloadView { opcode, data, sequence_number, event_name },
                ),
                _ => None,
            },
            _ => None,
        }
    }

    /// The JSON value that an envelope is written as: equal envelopes are
    /// written as the same value.
    pub open spec fn form(payload: PayloadView<T::V>) -> serde_json::Value {
        json_object(
            seq![
                ("op"@, number_form(Some(payload.opcode))),
                ("d"@, T::form(payload.data)),
                ("s"@, number_form(payload.sequence_number)),
                ("t"@, text_form(payload.event_name)),
            ],
        )
    }

    /// The text of the gateway message that carries an envelope: equal
    /// envelopes are carried by the same text.
    pub open spec fn message(payload: PayloadView<T::V>) -> Seq<char> {
        json_rendered(Self::form(payload))
    }

    /// What reading a text as an envelope gives: the text has to be JSON, and
    /// the JSON an envelope.
    pub open spec fn deserialized(text: Seq<char>) -> Result<PayloadView<T::V>, CodecError> {
        match json_parsed(text) {
            Some(value) => match Self::read(value) {
                Some(payload) => Ok(payload),
                None => Err(CodecError::Unexpected),
            },
            None => Err(CodecError::Malformed),
        }
    }

    /// Writes the envelope as a JSON value.
    pub fn to_value(&self) -> (value: serde_json::Value)
        ensures
            value == Self::form(self@),
            Self::written(self@, value),
    {
        proof {
            reveal_strlit("op");
            reveal_strlit("d");
            reveal_strlit("s");
            reveal_strlit("t");
            assert("op"@.len() == 2 && "d"@.len() == 1);
            assert("d"@[0] == 'd' && "s"@[0] == 's' && "t"@[0] == 't');
        }
        let writer = ObjectWriter::new();
        let writer = writer.put("op", write_number(self.opcode));
        let writer = writer.put("d", self.data.to_value());
        let writer = writer.put("s", write_optional_number(self.sequence_number));
        let writer = writer.put("t", write_optional_text(&self.event_name));
        assert(writer@.dom() =~= set!["op"@, "d"@, "s"@, "t"@]);
        assert(writer.entries() =~= seq![
            ("op"@, number_form(Some(self.opcode))),
            ("d"@, T::form(self.data@)),
            ("s"@, number_form(self.sequence_number)),
            ("t"@, text_form(self@.event_name)),
        ]);
        writer.finish()
    }

    /// Reads an envelope from a JSON value.
    pub fn from_value(value: &serde_json::Value) -> (res: Option<Self>)
        ensures
            match res {
                Some(payload) => Self::read(*value) == Some(payload@),
                None => Self::read(*value) is None,
            },
    {
        let op = match value_get(value, "op") {
            Some(op) => op,
            None => return None,
        };
        let d = match value_get(value, "d") {
            Some(d) => d,
            None => return None,
        };
        let opcode = match read_number(op) {
            Some(n) => n,
            None => return None,
        };
        let data = match T::from_value(d) {
            Some(data) => data,
            None => return None,
        };
        let sequence_number = match read_optional_number(value_get(value, "s")) {
            Some(n) => n,
            None => return None,
        };
        let event_name = match read_optional_text(value_get(value, "t")) {
            Some(name) => name,
            None => return None,
        };
        Some(Payload { opcode, data, sequence_number, event_name })
    }

    /// Writes the envelope as the text of a gateway message: the whole text
    /// of the JSON value that is the envelope's form. Every envelope can be
    /// written.
    pub fn serialize_to_message(&self) -> (res: Result<String, CodecError>)
        ensures
            res matches Ok(text) && text@ == Self::message(self@),
            Self::written(self@, Self::form(self@)),
    {
        let value = self.to_value();
        message_of(render_value(&value))
    }

    /// Reads the text of a gateway message as an envelope.
    pub fn deserialize(text: &str) -> (res: Result<Self, CodecError>)
        ensures
            match res {
                Ok(payload) => Self::deserialized(text@) == Ok::<
                    PayloadView<T::V>,
                    CodecError,
                >(payload@),
                Err(error) => Self::deserialized(text@) == Err::<PayloadView<T::V>, CodecError>(
                    error,
                ),
            },
    {
        match parse_value(text) {
            Ok(value) => match Self::from_value(&value) {
                Some(payload) => Ok(payload),
                None => Err(CodecError::Unexpected),
            },
            Err(_) => Err(CodecError::Malformed),
        }
    }

    /// An envelope round-trips: reading the JSON value that it is written as
    /// gives the envelope back.
    pub proof fn lemma_round_trip(payload: PayloadView<T::V>, value: serde_json::Value)
        requires
            Self::written(payload, value),
        ensures
            Self::read(value) == Some(payload),
    {
        let members = json_shape(value)->Object_0;
        T::lemma_read_written(payload.data, members["d"@]);
    }
}

/// What the outcome of writing a JSON value as text means for the message
/// that carries it: the text, or the report that the envelope is
/// unserializable.
pub fn message_of(rendered: Result<String, serde_json::Error>) -> (res: Result<String, CodecError>)
    ensures
        match rendered {
            Ok(text) => res == Ok::<String, CodecError>(text),
            Err(_) => res == Err::<String, CodecError>(CodecError::Unserializable),
        },
{
    match rendered {
        Ok(text) => Ok(text),
        Err(_) => Err(CodecError::Unserializable),
    }
}

impl SessionStartLimit {
    /// The limits that a JSON value is read as: any object with the numbers
    /// `total`, `remaining`, `reset_after` and `max_concurrency`.
    pub open spec fn read(value: serde_json::Value) -> Option<SessionStartLimit> {
        match (
            json_member(value, "total"@),
            json_member(value, "remaining"@),
            json_member(value, "reset_after"@),
            json_member(value, "max_concurrency"@),
        ) {
            (Some(total), Some(remaining), Some(reset_after), Some(max_concurrency)) => match (
                number_of(total),
                number_of(remaining),
                number_of(reset_after),
                number_of(max_concurrency),
            ) {
                (
                    Some(total_sessions),
                    Some(remaining_sessions),
                    Some(reset_after),
                    Some(max_concurrency),
                ) => Some(
                    SessionStartLimit {
                        total_sessions,
                        remaining_sessions,
                        reset_after,
                        max_concurrency,
                    },
                ),
                _ => None,
            },
            _ => None,
        }
    }

    /// Reads the limits from a JSON value.
    pub fn from_value(value: &serde_json::Value) -> (res: Option<Self>)
        ensures
            res == Self::read(*value),
    {
        let total = match value_get(value, "total") {
            Some(member) => member,
            None => return None,
        };
        let remaining = match value_get(value, "remaining") {
            Some(member) => member,
            None => return None,
        };
        let reset_after = match value_get(value, "reset_after") {
            Some(member) => member,
            None => return None,
        };
        let max_concurrency = match value_get(value, "max_concurrency") {
            Some(member) => member,
            None => return None,
        };
        let total_sessions = match read_number(total) {
            Some(n) => n,
            None => return None,
        };
        let remaining_sessions = match read_number(remaining) {
            Some(n) => n,
            None => return None,
        };
        let reset_after = match read_number(reset_after) {
            Some(n) => n,
            None => return None,
        };
        let max_concurrency = match read_number(max_concurrency) {
            Some(n) => n,
            None => return None,
        };
        Some(SessionStartLimit { total_sessions, remaining_sessions, reset_after, max_concurrency })
    }
}

impl GetGatewayBotResponse {
    /// The answer that a JSON value is read as: any object with a text `url`,
    /// a number `shards` and the limits `session_start_limit`.
    pub open spec fn read(value: serde_json::Value) -> Option<GetGatewayBotResponseView> {
        match (
            json_member(value, "url"@),
            json_member(value, "shards"@),
            json_member(value, "session_start_limit"@),
        ) {
            (Some(url), Some(shards), Some(limit)) => match (
                text_of(url),
                number_of(shards),
                SessionStartLimit::read(limit),
            ) {
                (Some(url), Some(shards), Some(session_start_limit)) => Some(
                    GetGatewayBotResponseView { url, shards, session_start_limit },
                ),
                _ => None,
            },
            _ => None,
        }
    }

    /// What reading a text as the gateway's answer gives: the text has to be
    /// JSON, and the JSON an answer.
    pub open spec fn deserialized(text: Seq<char>) -> Result<
        GetGatewayBotResponseView,
        CodecError,
    > {
        match json_parsed(text) {
            Some(value) => match Self::read(value) {
                Some(response) => Ok(response),
                None => Err(CodecError::Unexpected),
            },
            None => Err(CodecError::Malformed),
        }
    }

    /// Reads the answer from a JSON value.
    pub fn from_value(value: &serde_json::Value) -> (res: Option<Self>)
        ensures
            match res {
                Some(response) => Self::read(*value) == Some(response@),
                None => Self::read(*value) is None,
            },
    {
        let url = match value_get(value, "url") {
            Some(member) => member,
            None => return None,
        };
        let shards = match value_get(value, "shards") {
            Some(member) => member,
            None => return None,
        };
        let limit = match value_get(value, "session_start_limit") {
            Some(member) => member,
            None => return None,
        };
        let url = match read_text(url) {
            Some(text) => text,
            None => return None,
        };
        let shards = match read_number(shards) {
            Some(n) => n,
            None => return None,
        };
        let session_start_limit = match SessionStartLimit::from_value(limit) {
            Some(limit) => limit,
            None => return None,
        };
        Some(GetGatewayBotResponse { url, shards, session_start_limit })
    }

    /// Reads the body of the gateway's answer.
    pub fn deserialize(text: &str) -> (res: Result<Self, CodecError>)
        ensures
            match res {
                Ok(response) => Self::deserialized(text@) == Ok::<
                    GetGatewayBotResponseView,
                    CodecError,
                >(response@),
                Err(error) => Self::deserialized(text@) == Err::<
                    GetGatewayBotResponseView,
                    CodecError,
                >(error),
            },
    {
        match parse_value(text) {
            Ok(value) => match Self::from_value(&value) {
                Some(response) => Ok(response),
                None => Err(CodecError::Unexpected),
            },
            Err(_) => Err(CodecError::Malformed),
        }
    }
}

} // verus!
