//! Transport policy for the protocol engine's configuration.
use vstd::prelude::*;

verus! {

/// Every transport parameter this library sets on the engine's configuration.
/// The certificate files and the protocol identifiers are handed to the engine
/// alongside, as given.
pub struct TransportPlan {
    pub is_server: bool,
    pub idle_timeout_ms: u64,
    /// Largest UDP payload, received and sent alike.
    pub max_udp_payload: usize,
    pub max_stream_data_bidi_local: u64,
    pub max_stream_data_bidi_remote: u64,
    pub max_stream_data_uni: u64,
    /// Connection-level flow-control window.
    pub max_data: u64,
    pub max_streams_bidi: u64,
    pub max_streams_uni: u64,
    pub pacing: bool,
    pub disable_active_migration: bool,
    /// Clients verify the server's certificate; servers do not ask for one.
    pub verify_peer: bool,
    /// Servers log TLS secrets for offline inspection.
    pub log_keys: bool,
}

/// The connection-level window: the reliable window plus four unreliable ones.
pub open spec fn connection_window(reliable: u64, unreliable: u64) -> int {
    reliable + 4 * unreliable
}

/// Derives the transport parameters; `None` when the connection-level window
/// does not fit in 64 bits.
pub fn plan_transport(
    is_server: bool,
    idle_timeout_in_ms: u64,
    max_payload_size: usize,
    reliable_stream_buffer: u64,
    unreliable_stream_buffer: u64,
) -> (r: Option<TransportPlan>)
    ensures
        r is Some <==> connection_window(reliable_stream_buffer, unreliable_stream_buffer) <= u64::MAX,
        r matches Some(p) ==> {
            &&& p.is_server == is_server
            &&& p.idle_timeout_ms == idle_timeout_in_ms
            &&& p.max_udp_payload == max_payload_size
            &&& p.max_stream_data_bidi_local == reliable_stream_buffer
            &&& p.max_stream_data_bidi_remote == reliable_stream_buffer
            &&& p.max_stream_data_uni == unreliable_stream_buffer
            &&& p.max_data == connection_window(reliable_stream_buffer, unreliable_stream_buffer)
            &&& p.max_streams_bidi == 1
            &&& p.max_streams_uni == 1
            &&& p.pacing
            &&& p.disable_active_migration
            &&& p.verify_peer == !is_server
            &&& p.log_keys == is_server
        },
{
    if unreliable_stream_buffer > (u64::MAX - reliable_stream_buffer) / 4 {
        return None;
    }
    let max_data = reliable_stream_buffer + unreliable_stream_buffer * 4;
    Some(TransportPlan {
        is_server,
        idle_timeout_ms: idle_timeout_in_ms,
        max_udp_payload: max_payload_size,
        max_stream_data_bidi_local: reliable_stream_buffer,
        max_stream_data_bidi_remote: reliable_stream_buffer,
        max_stream_data_uni: unreliable_stream_buffer,
        max_data,
        max_streams_bidi: 1,
        max_streams_uni: 1,
        pacing: true,
        disable_active_migration: true,
        verify_peer: !is_server,
        log_keys: is_server,
    })
}

} // verus!
