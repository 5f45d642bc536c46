//! The failures that the shard session manager reports.
use vstd::prelude::*;

verus! {

/// A configuration with which no shard can be started.
#[derive(Debug, Clone, Copy, PartialEq, Eq, Structural)]
pub enum ConfigError {
    /// The number of shards was set by hand, to zero.
    InvalidShardCount,
    /// The url that the gateway's metadata names cannot be read as a url.
    InvalidGatewayUrl,
}

/// An envelope that could not be written or read.
#[derive(Debug, Clone, Copy, PartialEq, Eq, Structural)]
pub enum CodecError {
    /// The text is not JSON.
    Malformed,
    /// The text is JSON, but not the envelope or the data that was asked for.
    Unexpected,
    /// The envelope could not be written as JSON text.
    Unserializable,
}

/// A shard whose first frame did not arrive, or was not the gateway's Hello.
#[derive(Debug, Clone, Copy, PartialEq, Eq, Structural)]
pub enum HandshakeError {
    /// The connection closed, or failed, before a frame arrived.
    Closed,
    /// The first frame could not be read as a Hello envelope.
    NotHello(CodecError),
    /// The handshake was told of something that it was not waiting for.
    OutOfOrder,
}

/// Everything that can end a shard, or keep it from starting.
#[derive(Debug, Clone, Copy, PartialEq, Eq, Structural)]
pub enum GatewayError {
    /// No shard can be started with this configuration.
    Config(ConfigError),
    /// The connection to the gateway could not be established.
    Connect,
    /// The connection was established, but the handshake failed.
    Handshake(HandshakeError),
    /// The token was refused.
    Auth,
    /// An envelope could not be written or read.
    Codec(CodecError),
    /// The consumer of a queue has gone away.
    ChannelClosed,
}

impl ConfigError {
    /// The text of [`ConfigError::message`].
    pub open spec fn message_text(self) -> Seq<char> {
        match self {
            ConfigError::InvalidShardCount => "Amount of shards set manually must be > 0"@,
            ConfigError::InvalidGatewayUrl => "Failed to create Discord Gateway websocket URL"@,
        }
    }

    /// A sentence for reports and logs.
    pub fn message(&self) -> (text: &'static str)
        ensures
            text@ == self.message_text(),
    {
        match self {
            ConfigError::InvalidShardCount => "Amount of shards set manually must be > 0",
            ConfigError::InvalidGatewayUrl => "Failed to create Discord Gateway websocket URL",
        }
    }
}

impl GatewayError {
    /// A sentence for reports and logs.
    pub fn message(&self) -> (text: &'static str)
        ensures
            text@ == match *self {
                GatewayError::Config(error) => error.message_text(),
                GatewayError::Connect => "Attempted to create Gateway Shard"@,
                GatewayError::Handshake(HandshakeError::Closed) =>
                    "Gateway was closed when attempting to read next item"@,
                GatewayError::Handshake(_) =>
                    "Failed to recieve Hello Payload from Discord Gateway"@,
                GatewayError::Auth => "Unauthorized most likely due to Invalid Token Passed"@,
                GatewayError::Codec(CodecError::Unserializable) =>
                    "Failed to Serialize payload into Message for sending."@,
                GatewayError::Codec(_) => "Failed to deserialize payload"@,
                GatewayError::ChannelClosed => "Failed to send payload to Discord"@,
            },
    {
        match self {
            GatewayError::Config(error) => error.message(),
            GatewayError::Connect => "Attempted to create Gateway Shard",
            GatewayError::Handshake(HandshakeError::Closed) =>
                "Gateway was closed when attempting to read next item",
            GatewayError::Handshake(_) =>
                "Failed to recieve Hello Payload from Discord Gateway",
            GatewayError::Auth => "Unauthorized most likely due to Invalid Token Passed",
            GatewayError::Codec(CodecError::Unserializable) =>
                "Failed to Serialize payload into Message for sending.",
            GatewayError::Codec(_) => "Failed to deserialize payload",
            GatewayError::ChannelClosed => "Failed to send payload to Discord",
        }
    }
}

} // verus!
