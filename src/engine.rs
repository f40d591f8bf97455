//! Boundary to the QUIC protocol engine and to the monotonic clock.
//!
//! The declared outside types and the `external_body` wrappers here are
//! believed, not proved: each wrapper names the outside function it relies on
//! and states only what that function's source shows.
use vstd::prelude::*;

verus! {

#[verifier::external_type_specification]
#[verifier::external_body]
pub struct ExEngine(quiche::Connection);

#[verifier::external_type_specification]
#[verifier::external_body]
pub struct ExEngineError(quiche::Error);

#[verifier::external_type_specification]
#[verifier::external_body]
pub struct ExSendInfo(quiche::SendInfo);

#[verifier::external_type_specification]
#[verifier::external_body]
pub struct ExRecvInfo(quiche::RecvInfo);

#[verifier::external_type_specification]
#[verifier::external_body]
pub struct ExInstant(std::time::Instant);

/// Bidirectional stream that carries the reliable, framed control records.
pub const MAIN_STREAM_ID: u64 = 0;

/// Scheduling urgency given to the main stream.
pub const MAIN_STREAM_PRIORITY: u8 = 100;

/// Longest connection identifier the engine accepts (quiche::MAX_CONN_ID_LEN).
pub const MAX_CONN_ID_LEN: usize = 20;

/// QUIC version 1, the one version the engine speaks.
pub const PROTOCOL_VERSION_V1: u32 = 1;

/// Failure reported by an engine call, with the engine's "no more work to do"
/// outcome told apart from every other error.
#[derive(Debug)]
pub enum EngineError {
    Done,
    Fatal(quiche::Error),
}

/// QUIC packet types, as the engine's header parser names them.
#[derive(Clone, Copy, PartialEq, Eq, Structural, Debug)]
pub enum PacketType {
    Initial,
    Retry,
    Handshake,
    ZeroRtt,
    VersionNegotiation,
    Short,
}

/// What a parsed packet header tells the listener.
pub struct HeaderFacts {
    pub dcid: Vec<u8>,
    pub ty: PacketType,
    pub version: u32,
}

/// The packet header that the engine's parser reads from `bytes`, if any:
/// destination connection id, packet type and version.
pub uninterp spec fn parsed_header(bytes: Seq<u8>) -> Option<(Seq<u8>, PacketType, u32)>;

/// Relies on quiche::Header::from_slice with the engine's maximum id length:
/// it only reads the bytes, and the result depends on them alone.
#[verifier::external_body]
pub(crate) fn parse_header(data: &mut [u8]) -> (r: Option<HeaderFacts>)
    ensures
        final(data)@ == old(data)@,
        match r {
            Some(h) => parsed_header(old(data)@) == Some((h.dcid@, h.ty, h.version)),
            None => parsed_header(old(data)@).is_none(),
        },
{
    match quiche::Header::from_slice(data, quiche::MAX_CONN_ID_LEN) {
        Ok(h) => {
            let ty = match h.ty {
                quiche::Type::Initial => PacketType::Initial,
                quiche::Type::Retry => PacketType::Retry,
                quiche::Type::Handshake => PacketType::Handshake,
                quiche::Type::ZeroRTT => PacketType::ZeroRtt,
                quiche::Type::VersionNegotiation => PacketType::VersionNegotiation,
                quiche::Type::Short => PacketType::Short,
            };
            Some(HeaderFacts { dcid: h.dcid.to_vec(), ty, version: h.version })
        },
        Err(_) => None,
    }
}

/// Relies on quiche::version_is_supported, which accepts version 1 only.
#[verifier::external_body]
pub(crate) fn version_supported(version: u32) -> (r: bool)
    ensures
        r == (version == PROTOCOL_VERSION_V1),
{
    quiche::version_is_supported(version)
}

/// Relies on quiche::Connection::recv: feeds one datagram to the engine.
#[verifier::external_body]
pub(crate) fn engine_recv(engine: &mut quiche::Connection, data: &mut [u8], info: quiche::RecvInfo) -> (r: Result<usize, EngineError>)
{
    match engine.recv(data, info) {
        Ok(n) => Ok(n),
        Err(quiche::Error::Done) => Err(EngineError::Done),
        Err(e) => Err(EngineError::Fatal(e)),
    }
}

/// Relies on quiche::Connection::send: writes at most one datagram into `out`.
#[verifier::external_body]
pub(crate) fn engine_send(engine: &mut quiche::Connection, out: &mut [u8]) -> (r: Result<(usize, quiche::SendInfo), EngineError>)
    ensures
        final(out)@.len() == old(out)@.len(),
        r matches Ok((n, _)) ==> n <= old(out)@.len(),
{
    match engine.send(out) {
        Ok(v) => Ok(v),
        Err(quiche::Error::Done) => Err(EngineError::Done),
        Err(e) => Err(EngineError::Fatal(e)),
    }
}

/// Relies on the `at` field of quiche::SendInfo: the earliest time to send.
#[verifier::external_body]
pub(crate) fn send_info_at(info: &quiche::SendInfo) -> (r: std::time::Instant)
{
    info.at
}

/// Relies on quiche::Connection::timeout_instant: the engine's next deadline.
#[verifier::external_body]
pub(crate) fn engine_timeout(engine: &quiche::Connection) -> (r: Option<std::time::Instant>)
{
    engine.timeout_instant()
}

/// Relies on quiche::Connection::on_timeout: lets the engine service its timers.
#[verifier::external_body]
pub(crate) fn engine_on_timeout(engine: &mut quiche::Connection)
{
    engine.on_timeout()
}

/// Relies on quiche::Connection::is_established.
#[verifier::external_body]
pub(crate) fn engine_is_established(engine: &quiche::Connection) -> (r: bool)
{
    engine.is_established()
}

/// Relies on quiche::Connection::is_closed.
#[verifier::external_body]
pub(crate) fn engine_is_closed(engine: &quiche::Connection) -> (r: bool)
{
    engine.is_closed()
}

/// Relies on quiche::Connection::is_draining.
#[verifier::external_body]
pub(crate) fn engine_is_draining(engine: &quiche::Connection) -> (r: bool)
{
    engine.is_draining()
}

/// Relies on quiche::Connection::stream_send: the engine buffers a prefix of
/// `data` no longer than `data` itself (the stream's and the connection's
/// capacity truncate it) and reports its length.
#[verifier::external_body]
pub(crate) fn engine_stream_send(engine: &mut quiche::Connection, stream_id: u64, data: &[u8], fin: bool) -> (r: Result<usize, EngineError>)
    ensures
        r matches Ok(n) ==> n <= data@.len(),
{
    match engine.stream_send(stream_id, data, fin) {
        Ok(n) => Ok(n),
        Err(quiche::Error::Done) => Err(EngineError::Done),
        Err(e) => Err(EngineError::Fatal(e)),
    }
}

/// Relies on quiche::Connection::stream_recv on `buf[start..end]`: the engine
/// writes the bytes it reports, at the front of that window, and nothing else.
#[verifier::external_body]
pub(crate) fn engine_stream_recv(engine: &mut quiche::Connection, stream_id: u64, buf: &mut [u8], start: usize, end: usize) -> (r: Result<(usize, bool), EngineError>)
    requires
        start <= end <= old(buf)@.len(),
    ensures
        final(buf)@.len() == old(buf)@.len(),
        r matches Ok((n, _)) ==> n <= end - start
            && final(buf)@.subrange(0, start as int) == old(buf)@.subrange(0, start as int)
            && final(buf)@.subrange(start + n, old(buf)@.len() as int)
                == old(buf)@.subrange(start + n, old(buf)@.len() as int),
        r is Err ==> final(buf)@ == old(buf)@,
{
    match engine.stream_recv(stream_id, &mut buf[start..end]) {
        Ok(v) => Ok(v),
        Err(quiche::Error::Done) => Err(EngineError::Done),
        Err(e) => Err(EngineError::Fatal(e)),
    }
}

/// Relies on quiche::Connection::stream_readable_next.
#[verifier::external_body]
pub(crate) fn engine_stream_readable_next(engine: &mut quiche::Connection) -> (r: Option<u64>)
{
    engine.stream_readable_next()
}

/// Relies on quiche::Connection::close with `app` true: an application-level
/// close with error code `err` and `reason`.
#[verifier::external_body]
pub(crate) fn engine_close(engine: &mut quiche::Connection, err: u64, reason: &[u8]) -> (r: Result<(), EngineError>)
{
    match engine.close(true, err, reason) {
        Ok(()) => Ok(()),
        Err(quiche::Error::Done) => Err(EngineError::Done),
        Err(e) => Err(EngineError::Fatal(e)),
    }
}

/// Relies on quiche::Connection::send_ack_eliciting: schedules a PING.
#[verifier::external_body]
pub(crate) fn engine_send_ack_eliciting(engine: &mut quiche::Connection) -> (r: Result<(), EngineError>)
{
    match engine.send_ack_eliciting() {
        Ok(()) => Ok(()),
        Err(quiche::Error::Done) => Err(EngineError::Done),
        Err(e) => Err(EngineError::Fatal(e)),
    }
}

/// Relies on quiche::Connection::stream_priority, incremental delivery on.
#[verifier::external_body]
pub(crate) fn engine_stream_priority(engine: &mut quiche::Connection, stream_id: u64, urgency: u8) -> (r: Result<(), EngineError>)
{
    match engine.stream_priority(stream_id, urgency, true) {
        Ok(()) => Ok(()),
        Err(quiche::Error::Done) => Err(EngineError::Done),
        Err(e) => Err(EngineError::Fatal(e)),
    }
}

/// Relies on std::time::Instant::now: a reading of the monotonic clock.
#[verifier::external_body]
pub(crate) fn instant_now() -> (r: std::time::Instant)
{
    std::time::Instant::now()
}

/// Relies on std::time::Instant::saturating_duration_since: the time from
/// `origin` to `t`, zero when `t` is earlier.
#[verifier::external_body]
pub(crate) fn elapsed_between(origin: &std::time::Instant, t: &std::time::Instant) -> (r: std::time::Duration)
{
    t.saturating_duration_since(*origin)
}

/// Relies on std::time::Duration::as_nanos: the whole duration in nanoseconds.
#[verifier::external_body]
pub(crate) fn duration_nanos(d: &std::time::Duration) -> (r: u128)
{
    d.as_nanos()
}

/// Nanoseconds from `origin` to `t`: zero when `t` is earlier, and the largest
/// `u64` for spans beyond it (about 584 years).
pub(crate) fn nanos_since(origin: &std::time::Instant, t: &std::time::Instant) -> (r: u64)
{
    let d = elapsed_between(origin, t);
    let n = duration_nanos(&d);
    if n > u64::MAX as u128 {
        u64::MAX
    } else {
        n as u64
    }
}

} // verus!
