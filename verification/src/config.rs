//! Settings that both sides of the tunnel share: the transport parameters of
//! the QUIC connection and the way a setting falls back to its default.

use vstd::prelude::*;
use vstd::string::StringExecFns;

verus! {

/// Seconds between two keep-alive packets.
pub const KEEP_ALIVE_INTERVAL_SECS: u64 = 50;

/// Seconds of silence after which a connection is given up.
pub const MAX_IDLE_TIMEOUT_SECS: u64 = 60;

/// Unidirectional streams that a peer may open: none, the tunnel uses
/// bidirectional streams only.
pub const MAX_CONCURRENT_UNI_STREAMS: u8 = 0;

/// The one ALPN protocol that both sides offer: `hq-29`.
pub const ALPN_QUIC_HTTP: [u8; 5] = [0x68, 0x71, 0x2d, 0x32, 0x39];

/// Transport parameters of a QUIC connection.
#[derive(Debug, Clone, Copy, PartialEq, Eq, Structural)]
pub struct TransportSettings {
    pub keep_alive_interval_secs: u64,
    pub max_idle_timeout_secs: u64,
    pub max_concurrent_uni_streams: u8,
}

impl TransportSettings {
    /// Whether the settings keep a silent connection alive: a keep-alive
    /// packet is due strictly before the idle timeout strikes.
    pub open spec fn keeps_alive(&self) -> bool {
        self.keep_alive_interval_secs < self.max_idle_timeout_secs
    }

    /// Whether the settings keep a silent connection alive.
    pub fn is_consistent(&self) -> (ok: bool)
        ensures
            ok == self.keeps_alive(),
    {
        self.keep_alive_interval_secs < self.max_idle_timeout_secs
    }
}

/// The transport parameters of the tunnel, the same on both sides.
pub fn transport_settings() -> (settings: TransportSettings)
    ensures
        settings.keep_alive_interval_secs == KEEP_ALIVE_INTERVAL_SECS,
        settings.max_idle_timeout_secs == MAX_IDLE_TIMEOUT_SECS,
        settings.max_concurrent_uni_streams == MAX_CONCURRENT_UNI_STREAMS,
        settings.keeps_alive(),
{
    TransportSettings {
        keep_alive_interval_secs: KEEP_ALIVE_INTERVAL_SECS,
        max_idle_timeout_secs: MAX_IDLE_TIMEOUT_SECS,
        max_concurrent_uni_streams: MAX_CONCURRENT_UNI_STREAMS,
    }
}

/// The value of a setting: what the environment holds for it, or `default`
/// where the environment holds nothing.
pub fn get_env(value: Option<String>, default: &str) -> (setting: String)
    ensures
        setting@ == match value {
            Some(found) => found@,
            None => default@,
        },
{
    match value {
        Some(found) => found,
        None => String::from_str(default),
    }
}

} // verus!
