//! Errors of the telemetry side.

use vstd::prelude::*;

verus! {

/// Everything that can go wrong while decoding frames or managing peers.
#[derive(Clone, Debug, PartialEq)]
pub enum GT7Error {
    NetworkError { address: String, reason: String },
    SocketError { reason: String },
    AddressParseError { input: String },
    PacketParseError { message: String, offset: usize, length: usize },
    PacketVersionMismatch { expected: u16, actual: u16 },
    InvalidIPAddress { ip: String },
    InvalidPort { port: u16 },
    TimeoutError { operation: String, timeout_ms: u64 },
    GameNotConnected { last_heartbeat: String },
    IncompleteData { expected: usize, actual: usize },
    ChecksumError { calculated: u16, expected: u16 },
    InvalidPacketFormat { field: String },
    InvalidGameState { current_state: String, operation: String },
    ConfigError { field: String, value: String, reason: String },
    FileError { operation: String },
    SerializationError { reason: String },
    MultiClientError { message: String },
}

impl GT7Error {
    pub fn network_error(address: &str, reason: &str) -> (r: Self)
        ensures
            r matches GT7Error::NetworkError { address: a, reason: b } && a@ == address@ && b@
                == reason@,
    {
        GT7Error::NetworkError { address: address.to_owned(), reason: reason.to_owned() }
    }

    pub fn packet_parse_error(message: &str, offset: usize, length: usize) -> (r: Self)
        ensures
            r matches GT7Error::PacketParseError { message: m, offset: o, length: l } && m@
                == message@ && o == offset && l == length,
    {
        GT7Error::PacketParseError { message: message.to_owned(), offset, length }
    }

    pub fn packet_version_mismatch(expected: u16, actual: u16) -> (r: Self)
        ensures
            r == (GT7Error::PacketVersionMismatch { expected, actual }),
    {
        GT7Error::PacketVersionMismatch { expected, actual }
    }

    pub fn invalid_ip(ip: &str) -> (r: Self)
        ensures
            r matches GT7Error::InvalidIPAddress { ip: i } && i@ == ip@,
    {
        GT7Error::InvalidIPAddress { ip: ip.to_owned() }
    }

    pub fn invalid_port(port: u16) -> (r: Self)
        ensures
            r == (GT7Error::InvalidPort { port }),
    {
        GT7Error::InvalidPort { port }
    }

    pub fn timeout_error(operation: &str, timeout_ms: u64) -> (r: Self)
        ensures
            r matches GT7Error::TimeoutError { operation: o, timeout_ms: t } && o@ == operation@
                && t == timeout_ms,
    {
        GT7Error::TimeoutError { operation: operation.to_owned(), timeout_ms }
    }

    pub fn game_not_connected(last_heartbeat: &str) -> (r: Self)
        ensures
            r matches GT7Error::GameNotConnected { last_heartbeat: h } && h@ == last_heartbeat@,
    {
        GT7Error::GameNotConnected { last_heartbeat: last_heartbeat.to_owned() }
    }

    pub fn incomplete_data(expected: usize, actual: usize) -> (r: Self)
        ensures
            r == (GT7Error::IncompleteData { expected, actual }),
    {
        GT7Error::IncompleteData { expected, actual }
    }

    pub fn checksum_error(calculated: u16, expected: u16) -> (r: Self)
        ensures
            r == (GT7Error::ChecksumError { calculated, expected }),
    {
        GT7Error::ChecksumError { calculated, expected }
    }

    pub fn invalid_packet_format(field: &str) -> (r: Self)
        ensures
            r matches GT7Error::InvalidPacketFormat { field: f } && f@ == field@,
    {
        GT7Error::InvalidPacketFormat { field: field.to_owned() }
    }

    pub fn invalid_game_state(current_state: &str, operation: &str) -> (r: Self)
        ensures
            r matches GT7Error::InvalidGameState { current_state: c, operation: o } && c@
                == current_state@ && o@ == operation@,
    {
        GT7Error::InvalidGameState {
            current_state: current_state.to_owned(),
            operation: operation.to_owned(),
        }
    }

    pub fn config_error(field: &str, value: &str, reason: &str) -> (r: Self)
        ensures
            r matches GT7Error::ConfigError { field: f, value: v, reason: w } && f@ == field@ && v@
                == value@ && w@ == reason@,
    {
        GT7Error::ConfigError {
            field: field.to_owned(),
            value: value.to_owned(),
            reason: reason.to_owned(),
        }
    }

    pub fn file_error(operation: &str) -> (r: Self)
        ensures
            r matches GT7Error::FileError { operation: o } && o@ == operation@,
    {
        GT7Error::FileError { operation: operation.to_owned() }
    }

    pub fn multi_client_error(message: &str) -> (r: Self)
        ensures
            r matches GT7Error::MultiClientError { message: m } && m@ == message@,
    {
        GT7Error::MultiClientError { message: message.to_owned() }
    }

    /// Failures of the network or of an address.
    pub open spec fn spec_is_network_error(&self) -> bool {
        self is NetworkError || self is SocketError || self is AddressParseError
    }

    /// Failures of a received frame.
    pub open spec fn spec_is_packet_error(&self) -> bool {
        self is PacketParseError || self is PacketVersionMismatch || self is ChecksumError
            || self is InvalidPacketFormat || self is IncompleteData
    }

    /// Failures that a retry may overcome.
    pub open spec fn spec_is_recoverable(&self) -> bool {
        self is TimeoutError || self is GameNotConnected || self is IncompleteData
            || self is NetworkError
    }

    /// Failures of configuration or of a peer's address.
    pub open spec fn spec_is_config_error(&self) -> bool {
        self is ConfigError || self is InvalidIPAddress || self is InvalidPort
    }

    pub fn is_network_error(&self) -> (r: bool)
        ensures
            r == self.spec_is_network_error(),
    {
        match self {
            GT7Error::NetworkError { .. } | GT7Error::SocketError { .. }
            | GT7Error::AddressParseError { .. } => true,
            _ => false,
        }
    }

    pub fn is_packet_error(&self) -> (r: bool)
        ensures
            r == self.spec_is_packet_error(),
    {
        match self {
            GT7Error::PacketParseError { .. } | GT7Error::PacketVersionMismatch { .. }
            | GT7Error::ChecksumError { .. } | GT7Error::InvalidPacketFormat { .. }
            | GT7Error::IncompleteData { .. } => true,
            _ => false,
        }
    }

    pub fn is_recoverable(&self) -> (r: bool)
        ensures
            r == self.spec_is_recoverable(),
    {
        match self {
            GT7Error::TimeoutError { .. } | GT7Error::GameNotConnected { .. }
            | GT7Error::IncompleteData { .. } | GT7Error::NetworkError { .. } => true,
            _ => false,
        }
    }

    pub fn is_config_error(&self) -> (r: bool)
        ensures
            r == self.spec_is_config_error(),
    {
        match self {
            GT7Error::ConfigError { .. } | GT7Error::InvalidIPAddress { .. }
            | GT7Error::InvalidPort { .. } => true,
            _ => false,
        }
    }
}

} // verus!
