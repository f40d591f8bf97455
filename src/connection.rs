//! One QUIC association: the reliable main stream with its send queue and
//! read-target assembly, timeout servicing and keepalive, over the engine.
use vstd::prelude::*;
use vstd::slice::{slice_subrange, slice_to_vec};

use crate::engine::{
    engine_close, engine_is_closed, engine_is_draining, engine_is_established, engine_on_timeout,
    engine_recv, engine_send, engine_send_ack_eliciting, engine_stream_priority,
    engine_stream_readable_next, engine_stream_recv, engine_stream_send, engine_timeout,
    instant_now, nanos_since, parse_header, parsed_header, send_info_at, version_supported,
    EngineError, PacketType, MAIN_STREAM_ID, MAIN_STREAM_PRIORITY, PROTOCOL_VERSION_V1,
};

verus! {

/// A message committed to the main stream, with how much of it the engine
/// has accepted so far.
pub struct SendBuffer {
    data: Vec<u8>,
    sent: usize,
}

impl SendBuffer {
    /// The whole payload.
    pub closed spec fn payload(&self) -> Seq<u8> {
        self.data@
    }

    /// How many leading bytes of the payload the engine has accepted.
    pub closed spec fn accepted(&self) -> nat {
        self.sent as nat
    }

    pub open spec fn wf(&self) -> bool {
        self.accepted() <= self.payload().len()
    }

    /// The bytes still to be handed to the engine.
    pub open spec fn pending(&self) -> Seq<u8> {
        self.payload().subrange(self.accepted() as int, self.payload().len() as int)
    }

    pub fn new(data: Vec<u8>) -> (r: Self)
        ensures
            r.payload() == data@,
            r.accepted() == 0,
            r.wf(),
    {
        SendBuffer { data, sent: 0 }
    }

    pub fn data(&self) -> (r: &[u8])
        ensures
            r@ == self.payload(),
    {
        self.data.as_slice()
    }

    pub fn sent(&self) -> (r: usize)
        ensures
            r == self.accepted(),
    {
        self.sent
    }
}

/// The bytes that the queued buffers still owe the engine, front first.
pub open spec fn queued_bytes(q: Seq<SendBuffer>) -> Seq<u8>
    decreases q.len(),
{
    if q.len() == 0 {
        Seq::empty()
    } else {
        q[0].pending() + queued_bytes(q.drop_first())
    }
}

pub open spec fn all_wf(q: Seq<SendBuffer>) -> bool {
    forall|i: int| 0 <= i < q.len() ==> (#[trigger] q[i]).wf()
}

proof fn lemma_queued_bytes_push(q: Seq<SendBuffer>, b: SendBuffer)
    ensures
        queued_bytes(q.push(b)) == queued_bytes(q) + b.pending(),
    decreases q.len(),
{
    if q.len() == 0 {
        assert(q.push(b).drop_first() =~= Seq::<SendBuffer>::empty());
        assert(queued_bytes(q.push(b).drop_first()) =~= Seq::<u8>::empty());
        assert(q.push(b)[0] == b);
        assert(queued_bytes(q.push(b)) =~= b.pending());
        assert(queued_bytes(q) =~= Seq::<u8>::empty());
    } else {
        assert(q.push(b).drop_first() =~= q.drop_first().push(b));
        lemma_queued_bytes_push(q.drop_first(), b);
        assert(queued_bytes(q.push(b)) =~= queued_bytes(q) + b.pending());
    }
}

/// Dropping the front of an advanced queue leaves an advanced queue.
proof fn lemma_queue_advanced_pop(q0: Seq<SendBuffer>, q: Seq<SendBuffer>)
    requires
        queue_advanced(q0, q),
        q.len() > 0,
    ensures
        queue_advanced(q0, q.drop_first()),
        q[0].payload() == q0[q0.len() - q.len()].payload(),
        q[0].accepted() >= q0[q0.len() - q.len()].accepted(),
{
    let k = q0.len() - q.len();
    let r = q.drop_first();
    if r.len() > 0 {
        assert(r[0] == q0[k + 1]);
        assert(r.drop_first() =~= q0.subrange(k + 2, q0.len() as int));
    }
}

proof fn lemma_queued_bytes_front(b: SendBuffer, rest: Seq<SendBuffer>)
    ensures
        queued_bytes(seq![b] + rest) == b.pending() + queued_bytes(rest),
{
    assert((seq![b] + rest).drop_first() =~= rest);
    assert((seq![b] + rest)[0] == b);
}

/// The reason given when the peer finishes the main stream: the ASCII bytes
/// of "Stream0Finished".
fn stream_finished_reason() -> (r: Vec<u8>)
    ensures
        r@ == fin_reason(),
{
    let r = vec![83u8, 116, 114, 101, 97, 109, 48, 70, 105, 110, 105, 115, 104, 101, 100];
    assert(r@ =~= fin_reason());
    r
}

/// A zero-filled buffer of `n` bytes.
pub fn zeroed(n: usize) -> (r: Vec<u8>)
    ensures
        r@ == Seq::new(n as nat, |i: int| 0u8),
{
    let mut v: Vec<u8> = Vec::with_capacity(n);
    let mut i: usize = 0;
    while i < n
        invariant
            i <= n,
            v@ == Seq::new(i as nat, |k: int| 0u8),
        decreases n - i,
    {
        v.push(0u8);
        i = i + 1;
        assert(v@ =~= Seq::new(i as nat, |k: int| 0u8));
    }
    v
}

/// What one received datagram led to.
pub enum RecvResult {
    Closed(u64),
    Draining(u64),
    Established(u64),
    Nothing,
    ReliableReadTarget(u64),
    Closing(u64),
    StreamReadable((u64, u64)),
}

/// What servicing the engine's timer led to.
pub enum TimeoutResult {
    /// No timeout was due; carries the cached deadline.
    Nothing(Option<u64>),
    Closed(u64),
    Draining(u64),
    Happened,
}

/// How one pull from the main stream ended.
enum Pull {
    TargetMet,
    Short,
    Finished,
    /// The engine had nothing to read.
    Empty,
}

/// The engine's answers during one `recv_data_process`, in the order asked.
pub struct RecvAnswers {
    /// What feeding the datagram returned.
    pub fed: Option<Result<usize, EngineError>>,
    pub established: bool,
    pub closed: bool,
    pub draining: bool,
    /// Whether the send-queue drain that precedes the stream check succeeded.
    pub drained: Option<bool>,
    /// The engine's next readable stream.
    pub readable: Option<u64>,
}

/// A record of what the engine answered and what it was asked to do; it lets
/// contracts say how each answer was acted upon.
pub struct EngineTrace {
    /// How many datagrams were fed to the engine.
    pub feeds: nat,
    pub recv: RecvAnswers,
    /// How many main-stream reads were asked of the engine.
    pub pulls: nat,
    /// The last answer to a main-stream read.
    pub pull: Option<Result<(usize, bool), EngineError>>,
    /// Every close requested of the engine: error code, reason and the engine's answer.
    pub closes: Seq<(u64, Seq<u8>, Result<(), EngineError>)>,
    /// Every answer to a main-stream write, in order.
    pub send_answers: Seq<Result<usize, EngineError>>,
    /// The last answer to a request for a datagram, with its length.
    pub packet: Option<Result<usize, EngineError>>,
    /// How many times the engine's deadline was read into the cache.
    pub deadline_reads: nat,
    /// How many times the engine was asked to handle a timeout.
    pub timeouts_serviced: nat,
    /// The engine's closed and draining state after the last timeout handling.
    pub after_timeout: (bool, bool),
}

/// The bytes of "Stream0Finished", the reason given for a main-stream FIN.
pub open spec fn fin_reason() -> Seq<u8> {
    seq![83u8, 116u8, 114u8, 101u8, 97u8, 109u8, 48u8, 70u8, 105u8, 110u8, 105u8, 115u8, 104u8, 101u8, 100u8]
}

/// Application error code of the close that answers a main-stream FIN.
pub const FIN_CLOSE_CODE: u64 = 1;

/// The state-based part of receive dispatch: before the first establishment,
/// Established, then Closed, then Draining, else Nothing; afterwards Closed,
/// then Draining, else `None` (go on to the streams).
pub open spec fn dispatch_spec(id: u64, established_once: bool, established: bool, closed: bool, draining: bool) -> Option<RecvResult> {
    if !established_once {
        if established {
            Some(RecvResult::Established(id))
        } else if closed {
            Some(RecvResult::Closed(id))
        } else if draining {
            Some(RecvResult::Draining(id))
        } else {
            Some(RecvResult::Nothing)
        }
    } else if closed {
        Some(RecvResult::Closed(id))
    } else if draining {
        Some(RecvResult::Draining(id))
    } else {
        None
    }
}

/// Decides what a received datagram led to from the engine's state answers.
pub fn recv_dispatch(id: u64, established_once: bool, established: bool, closed: bool, draining: bool) -> (r: Option<RecvResult>)
    ensures
        r == dispatch_spec(id, established_once, established, closed, draining),
{
    if !established_once {
        if established {
            Some(RecvResult::Established(id))
        } else if closed {
            Some(RecvResult::Closed(id))
        } else if draining {
            Some(RecvResult::Draining(id))
        } else {
            Some(RecvResult::Nothing)
        }
    } else if closed {
        Some(RecvResult::Closed(id))
    } else if draining {
        Some(RecvResult::Draining(id))
    } else {
        None
    }
}

/// What to do with the engine's next readable stream.
pub enum ReadableStep {
    Report(RecvResult),
    /// Read the main stream into the record.
    Pull,
}

/// No readable stream: Nothing. Another stream `s`: StreamReadable((id, s)).
/// The main stream with the record complete: ReliableReadTarget once, then
/// Nothing. The main stream with the record incomplete: pull.
pub open spec fn readable_spec(id: u64, captured: nat, target: nat, reported: bool, next: Option<u64>) -> ReadableStep {
    match next {
        None => ReadableStep::Report(RecvResult::Nothing),
        Some(s) => if s != MAIN_STREAM_ID {
            ReadableStep::Report(RecvResult::StreamReadable((id, s)))
        } else if captured >= target {
            if reported {
                ReadableStep::Report(RecvResult::Nothing)
            } else {
                ReadableStep::Report(RecvResult::ReliableReadTarget(id))
            }
        } else {
            ReadableStep::Pull
        },
    }
}

pub fn readable_step(id: u64, captured: usize, target: usize, reported: bool, next: Option<u64>) -> (r: ReadableStep)
    ensures
        r == readable_spec(id, captured as nat, target as nat, reported, next),
{
    match next {
        None => ReadableStep::Report(RecvResult::Nothing),
        Some(s) => if s != MAIN_STREAM_ID {
            ReadableStep::Report(RecvResult::StreamReadable((id, s)))
        } else if captured >= target {
            if reported {
                ReadableStep::Report(RecvResult::Nothing)
            } else {
                ReadableStep::Report(RecvResult::ReliableReadTarget(id))
            }
        } else {
            ReadableStep::Pull
        },
    }
}

/// What a main-stream read answer means for the record.
pub enum PullStep {
    /// The watermark moves here; the record is still short.
    Advance(usize),
    /// The watermark moves here; the record is complete.
    Met(usize),
    /// The peer finished the main stream: close with code 1, "Stream0Finished".
    CloseStream,
    /// Nothing to read.
    NoData,
    Fail(quiche::Error),
}

pub open spec fn pull_spec(captured: nat, target: nat, answer: Result<(usize, bool), EngineError>) -> PullStep {
    match answer {
        Ok((n, fin)) => if fin {
            PullStep::CloseStream
        } else if captured + n >= target {
            PullStep::Met((captured + n) as usize)
        } else {
            PullStep::Advance((captured + n) as usize)
        },
        Err(EngineError::Done) => PullStep::NoData,
        Err(EngineError::Fatal(e)) => PullStep::Fail(e),
    }
}

/// Decides what a main-stream read answer does to a record of `target` bytes
/// of which `captured` are in.
pub fn pull_step(captured: usize, target: usize, answer: Result<(usize, bool), EngineError>) -> (r: PullStep)
    requires
        captured < target,
        answer matches Ok((n, _)) ==> n <= target - captured,
    ensures
        r == pull_spec(captured as nat, target as nat, answer),
{
    match answer {
        Ok((n, fin)) => if fin {
            PullStep::CloseStream
        } else if captured + n >= target {
            PullStep::Met(captured + n)
        } else {
            PullStep::Advance(captured + n)
        },
        Err(EngineError::Done) => PullStep::NoData,
        Err(EngineError::Fatal(e)) => PullStep::Fail(e),
    }
}

/// What a main-stream write answer means for the front send buffer.
pub enum DrainStep {
    /// The engine took these bytes and with them the rest of the buffer: pop, go on.
    Finished(usize),
    /// The engine took these bytes, not all: advance, go on.
    Advanced(usize),
    /// The engine took nothing: stop with the total so far.
    Stalled,
    Fail(quiche::Error),
}

pub open spec fn drain_spec(sent: nat, len: nat, answer: Result<usize, EngineError>) -> DrainStep {
    match answer {
        Ok(n) => if sent + n >= len {
            DrainStep::Finished(n)
        } else if n > 0 {
            DrainStep::Advanced(n)
        } else {
            DrainStep::Stalled
        },
        Err(EngineError::Done) => DrainStep::Stalled,
        Err(EngineError::Fatal(e)) => DrainStep::Fail(e),
    }
}

/// Decides what the engine's answer to writing the front buffer's remaining
/// bytes (`sent` of `len` already taken) does to the drain.
pub fn drain_step(sent: usize, len: usize, answer: Result<usize, EngineError>) -> (r: DrainStep)
    requires
        sent < len,
        answer matches Ok(n) ==> n <= len - sent,
    ensures
        r == drain_spec(sent as nat, len as nat, answer),
{
    match answer {
        Ok(n) => if sent + n >= len {
            DrainStep::Finished(n)
        } else if n > 0 {
            DrainStep::Advanced(n)
        } else {
            DrainStep::Stalled
        },
        Err(EngineError::Done) => DrainStep::Stalled,
        Err(EngineError::Fatal(e)) => DrainStep::Fail(e),
    }
}

pub open spec fn timeout_spec(id: u64, closed: bool, draining: bool) -> TimeoutResult {
    if closed {
        TimeoutResult::Closed(id)
    } else if draining {
        TimeoutResult::Draining(id)
    } else {
        TimeoutResult::Happened
    }
}

/// What a handled timeout led to, from the engine's state afterwards.
pub fn timeout_outcome(id: u64, closed: bool, draining: bool) -> (r: TimeoutResult)
    ensures
        r == timeout_spec(id, closed, draining),
{
    if closed {
        TimeoutResult::Closed(id)
    } else if draining {
        TimeoutResult::Draining(id)
    } else {
        TimeoutResult::Happened
    }
}

/// Abstract state of a connection as the library sees it; the engine itself
/// is opaque.
pub struct ConnectionView {
    pub id: u64,
    pub scid: Seq<u8>,
    /// Latest scheduled send time, in nanoseconds since the connection's origin.
    pub last_send: u64,
    /// Cached engine deadline, in nanoseconds since the connection's origin.
    pub next_timeout: Option<u64>,
    pub established_once: bool,
    /// The completed record was handed over as the buffer itself; the buffer
    /// now holds zeros until the next read target is set.
    pub detached: bool,
    /// The completed record has been announced by a `ReliableReadTarget`.
    pub reported: bool,
    pub captured: nat,
    pub target: nat,
    pub capacity: nat,
    /// Every byte taken from the engine on the main stream, in stream order.
    pub consumed: Seq<u8>,
    /// Where in `consumed` the record being assembled begins.
    pub record_start: nat,
    pub buffer: Seq<u8>,
    pub queue: Seq<SendBuffer>,
    /// Every byte ever committed to the main stream, in commit order.
    pub enqueued: Seq<u8>,
    /// Every byte the engine has accepted on the main stream, in order.
    pub handed: Seq<u8>,
}

/// One QUIC association managed over the protocol engine.
pub struct ConnectionManager {
    id: u64,
    scid: Vec<u8>,
    engine: quiche::Connection,
    origin: std::time::Instant,
    last_send: u64,
    next_timeout: Option<u64>,
    established_once: bool,
    target_reported: bool,
    recv_captured: usize,
    recv_target: usize,
    recv_capacity: usize,
    recv_data: Vec<u8>,
    send_queue: std::collections::VecDeque<SendBuffer>,
    enqueued: Ghost<Seq<u8>>,
    handed: Ghost<Seq<u8>>,
    consumed: Ghost<Seq<u8>>,
    record_start: Ghost<nat>,
    detached: Ghost<bool>,
    trace: Ghost<EngineTrace>,
}

impl View for ConnectionManager {
    type V = ConnectionView;

    closed spec fn view(&self) -> ConnectionView {
        ConnectionView {
            id: self.id,
            scid: self.scid@,
            last_send: self.last_send,
            next_timeout: self.next_timeout,
            established_once: self.established_once,
            detached: self.detached@,
            reported: self.target_reported,
            captured: self.recv_captured as nat,
            target: self.recv_target as nat,
            capacity: self.recv_capacity as nat,
            consumed: self.consumed@,
            record_start: self.record_start@,
            buffer: self.recv_data@,
            queue: self.send_queue@,
            enqueued: self.enqueued@,
            handed: self.handed@,
        }
    }
}

/// The read-target bounds: nothing is captured beyond the target, and the
/// target never exceeds the receive buffer, whose length is its capacity.
pub open spec fn recv_bounds_hold(v: ConnectionView) -> bool {
    &&& v.captured <= v.target
    &&& v.target <= v.capacity
    &&& v.buffer.len() == v.capacity
    &&& v.reported ==> v.captured >= v.target
}

/// The captured part of the buffer is exactly the main-stream bytes taken
/// since the record began.
pub open spec fn record_holds(v: ConnectionView) -> bool {
    &&& v.record_start + v.captured == v.consumed.len()
    &&& !v.detached ==> v.buffer.subrange(0, v.captured as int) == v.consumed.subrange(v.record_start as int, v.consumed.len() as int)
    &&& v.detached ==> v.captured >= v.target
}

/// The main stream's ordering: what the engine accepted, followed by what the
/// queue still owes it, is exactly what was committed.
pub open spec fn send_order_holds(v: ConnectionView) -> bool {
    &&& all_wf(v.queue)
    &&& v.handed + queued_bytes(v.queue) == v.enqueued
}

/// The receive-side state other than the buffer's contents is unchanged.
pub open spec fn same_recv_state(a: ConnectionView, b: ConnectionView) -> bool {
    &&& a.detached == b.detached
    &&& a.consumed == b.consumed
    &&& a.record_start == b.record_start
    &&& a.reported == b.reported
    &&& a.captured == b.captured
    &&& a.target == b.target
    &&& a.capacity == b.capacity
    &&& a.buffer == b.buffer
}

/// The send-side state is unchanged.
pub open spec fn same_send_state(a: ConnectionView, b: ConnectionView) -> bool {
    &&& a.queue == b.queue
    &&& a.enqueued == b.enqueued
    &&& a.handed == b.handed
}

/// `p` is a prefix of `s`.
pub open spec fn is_prefix(p: Seq<u8>, s: Seq<u8>) -> bool {
    p.len() <= s.len() && s.subrange(0, p.len() as int) == p
}

/// Everything but the receive buffer's contents and the capture watermark is unchanged.
pub open spec fn same_but_captured(a: ConnectionView, b: ConnectionView) -> bool {
    &&& a.id == b.id
    &&& a.scid == b.scid
    &&& a.last_send == b.last_send
    &&& a.next_timeout == b.next_timeout
    &&& a.established_once == b.established_once
    &&& a.reported == b.reported
    &&& a.detached == b.detached
    &&& a.target == b.target
    &&& a.capacity == b.capacity
    &&& a.record_start == b.record_start
    &&& a.buffer.len() == b.buffer.len()
    &&& same_send_state(a, b)
}

/// The bytes assembled before `old` are still in place in `new`.
pub open spec fn keeps_captured(old_v: ConnectionView, new_v: ConnectionView) -> bool {
    new_v.buffer.subrange(0, old_v.captured as int) == old_v.buffer.subrange(0, old_v.captured as int)
}

/// The state after setting a read target of `n`: clamped to the capacity,
/// with nothing captured yet and the buffer untouched.
pub open spec fn with_read_target(v: ConnectionView, n: nat) -> ConnectionView {
    ConnectionView {
        captured: 0,
        reported: false,
        detached: false,
        record_start: v.consumed.len(),
        target: if n <= v.capacity { n } else { v.capacity },
        ..v
    }
}

/// A keepalive is due on every call when the interval is zero, and otherwise
/// once `interval` has passed since the latest send time.
pub open spec fn ping_due(last_send: u64, interval: u64, now: u64) -> bool {
    interval == 0 || last_send + interval <= now
}

/// One reliable send: `data` joins the committed bytes behind everything
/// committed before, and the engine's share only grows.
pub open spec fn commits(before: ConnectionView, data: Seq<u8>, after: ConnectionView) -> bool {
    &&& after.enqueued == before.enqueued + data
    &&& is_prefix(before.handed, after.handed)
    &&& send_order_holds(after)
}

/// `q1` is `q0` with its first buffers gone, the front possibly further
/// sent: the buffers behind the front are untouched, the front keeps its
/// payload, and what it has sent never goes down.
pub open spec fn queue_advanced(q0: Seq<SendBuffer>, q1: Seq<SendBuffer>) -> bool {
    &&& q1.len() <= q0.len()
    &&& q1.len() > 0 ==> {
        let k = q0.len() - q1.len();
        &&& q1.drop_first() == q0.subrange(k + 1, q0.len() as int)
        &&& q1[0].payload() == q0[k].payload()
        &&& q1[0].accepted() >= q0[k].accepted()
    }
}

/// `p` is a prefix of `s`.
pub open spec fn is_prefix_of_answers(p: Seq<Result<usize, EngineError>>, s: Seq<Result<usize, EngineError>>) -> bool {
    p.len() <= s.len() && s.subrange(0, p.len() as int) == p
}

/// A write answer on which the drain stops without failing: nothing was taken.
pub open spec fn stalls(a: Result<usize, EngineError>) -> bool {
    a == Ok::<usize, EngineError>(0) || a == Err::<usize, EngineError>(EngineError::Done)
}

/// How a datagram that the engine took was acted upon, from the engine's
/// answers recorded in `t1`: the state dispatch first; once established and
/// neither closed nor draining, a drain, then the readable stream.
pub open spec fn recv_outcome(v0: ConnectionView, v1: ConnectionView, t0: EngineTrace, t1: EngineTrace,
    r: Result<RecvResult, EngineError>) -> bool {
    let a = t1.recv;
    match dispatch_spec(v0.id, v0.established_once, a.established, a.closed, a.draining) {
        Some(x) => {
            &&& r == Ok::<RecvResult, EngineError>(x)
            &&& same_recv_state(v1, v0)
            &&& same_send_state(v1, v0)
            &&& t1 == (EngineTrace { recv: a, feeds: t1.feeds, ..t0 })
        },
        None => {
            &&& a.drained is Some
            &&& (a.drained == Some(false) ==> r is Err && same_recv_state(v1, v0))
            &&& (a.drained == Some(true) ==> match readable_spec(v0.id, v0.captured, v0.target, v0.reported, a.readable) {
                ReadableStep::Report(x) => {
                    &&& r == Ok::<RecvResult, EngineError>(x)
                    &&& v1.captured == v0.captured
                    &&& v1.buffer == v0.buffer
                    &&& v1.consumed == v0.consumed
                    &&& t1.closes == t0.closes
                    &&& t1.pulls == t0.pulls
                },
                ReadableStep::Pull => t1.pulls == t0.pulls + 1 && (t1.pull matches Some(p) && match pull_spec(v0.captured, v0.target, p) {
                    PullStep::Advance(c) => r == Ok::<RecvResult, EngineError>(RecvResult::Nothing) && v1.captured == c
                        && t1.closes == t0.closes,
                    PullStep::Met(c) => r == Ok::<RecvResult, EngineError>(RecvResult::ReliableReadTarget(v0.id))
                        && v1.captured == c && t1.closes == t0.closes,
                    PullStep::CloseStream => v1.captured == v0.captured && fin_close_logged(t0.closes, t1.closes)
                        && match t1.closes.last().2 {
                            Ok(_) => r == Ok::<RecvResult, EngineError>(RecvResult::Closing(v0.id)),
                            Err(e) => r == Err::<RecvResult, EngineError>(e),
                        },
                    PullStep::NoData => r == Err::<RecvResult, EngineError>(EngineError::Done) && t1.closes == t0.closes,
                    PullStep::Fail(e) => r == Err::<RecvResult, EngineError>(EngineError::Fatal(e)) && t1.closes == t0.closes,
                }),
            })
        },
    }
}

/// One close was requested after `c0`: code 1 with reason "Stream0Finished",
/// the answer to a main-stream FIN.
pub open spec fn fin_close_logged(c0: Seq<(u64, Seq<u8>, Result<(), EngineError>)>, c1: Seq<(u64, Seq<u8>, Result<(), EngineError>)>) -> bool {
    &&& c1.len() == c0.len() + 1
    &&& c1.drop_last() == c0
    &&& c1.last().0 == FIN_CLOSE_CODE
    &&& c1.last().1 == fin_reason()
}

/// How a main-stream read answer `a` was acted upon: the pull's result, the
/// new watermark and the closes requested.
spec fn pull_effect(captured: nat, target: nat, a: Result<(usize, bool), EngineError>, r: Result<Pull, EngineError>,
    new_captured: nat, closes0: Seq<(u64, Seq<u8>, Result<(), EngineError>)>, closes1: Seq<(u64, Seq<u8>, Result<(), EngineError>)>) -> bool {
    match pull_spec(captured, target, a) {
        PullStep::Advance(c) => r == Ok::<Pull, EngineError>(Pull::Short) && new_captured == c && closes1 == closes0,
        PullStep::Met(c) => r == Ok::<Pull, EngineError>(Pull::TargetMet) && new_captured == c && closes1 == closes0,
        PullStep::CloseStream => new_captured == captured && fin_close_logged(closes0, closes1)
            && match closes1.last().2 {
                Ok(_) => r == Ok::<Pull, EngineError>(Pull::Finished),
                Err(e) => r == Err::<Pull, EngineError>(e),
            },
        PullStep::NoData => r == Ok::<Pull, EngineError>(Pull::Empty) && new_captured == captured && closes1 == closes0,
        PullStep::Fail(e) => r == Err::<Pull, EngineError>(EngineError::Fatal(e)) && new_captured == captured && closes1 == closes0,
    }
}

/// `n`, saturated at the largest `usize`.
pub open spec fn saturate(n: int) -> int {
    if n <= usize::MAX {
        n
    } else {
        usize::MAX as int
    }
}

impl ConnectionManager {
    /// What the engine answered and was asked so far.
    pub closed spec fn trace(&self) -> EngineTrace {
        self.trace@
    }

    pub open spec fn wf(&self) -> bool {
        recv_bounds_hold(self@) && record_holds(self@) && send_order_holds(self@)
    }

    /// Wraps an engine that was created with `scid_data`'s first
    /// `MAX_CONN_ID_LEN` bytes as its source id; the receive buffer is
    /// allocated at full capacity, zero-filled.
    pub fn new(id: u64, engine: quiche::Connection, scid_data: &[u8], recv_data_capacity: usize) -> (r: Self)
        requires
            scid_data@.len() >= crate::engine::MAX_CONN_ID_LEN,
        ensures
            r.wf(),
            r@.id == id,
            r@.scid == scid_data@.subrange(0, crate::engine::MAX_CONN_ID_LEN as int),
            r@.last_send == 0,
            r@.next_timeout.is_none(),
            !r@.established_once,
            !r@.reported,
            r@.captured == 0,
            r@.target == 0,
            r@.capacity == recv_data_capacity,
            r@.consumed.len() == 0,
            r@.record_start == 0,
            r@.buffer == Seq::new(recv_data_capacity as nat, |i: int| 0u8),
            r@.queue.len() == 0,
            r@.enqueued.len() == 0,
            r@.handed.len() == 0,
            r.trace().closes.len() == 0,
            r.trace().send_answers.len() == 0,
            r.trace().timeouts_serviced == 0,
    {
        let scid = slice_to_vec(slice_subrange(scid_data, 0, crate::engine::MAX_CONN_ID_LEN));
        let r = ConnectionManager {
            id,
            scid,
            engine,
            origin: instant_now(),
            last_send: 0,
            next_timeout: None,
            established_once: false,
            target_reported: false,
            recv_captured: 0,
            recv_target: 0,
            recv_capacity: recv_data_capacity,
            recv_data: zeroed(recv_data_capacity),
            send_queue: std::collections::VecDeque::new(),
            enqueued: Ghost(Seq::empty()),
            handed: Ghost(Seq::empty()),
            consumed: Ghost(Seq::empty()),
            record_start: Ghost(0),
            detached: Ghost(false),
            trace: Ghost(EngineTrace {
                feeds: 0,
                pulls: 0,
                recv: RecvAnswers { fed: None, established: false, closed: false, draining: false, drained: None, readable: None },
                pull: None,
                closes: Seq::empty(),
                send_answers: Seq::empty(),
                packet: None,
                deadline_reads: 0,
                timeouts_serviced: 0,
                after_timeout: (false, false),
            }),
        };
        assert(r.recv_data@.subrange(0, 0) =~= r.consumed@.subrange(0, 0));
        assert(queued_bytes(r.send_queue@) =~= Seq::<u8>::empty());
        assert(r.handed@ + queued_bytes(r.send_queue@) =~= r.enqueued@);
        r
    }

    /// Hands queued bytes to the engine on the main stream, front first, until
    /// the queue is empty, the engine accepts nothing more, or it fails.
    /// Returns the number of bytes accepted by this call.
    #[verifier::rlimit(60)]
    fn stream_reliable_send_next(&mut self) -> (r: Result<usize, EngineError>)
        requires
            old(self).wf(),
        ensures
            final(self).wf(),
            final(self)@.id == old(self)@.id,
            final(self)@.scid == old(self)@.scid,
            final(self)@.last_send == old(self)@.last_send,
            final(self)@.next_timeout == old(self)@.next_timeout,
            final(self)@.established_once == old(self)@.established_once,
            same_recv_state(final(self)@, old(self)@),
            final(self)@.enqueued == old(self)@.enqueued,
            is_prefix(old(self)@.handed, final(self)@.handed),
            r matches Ok(n) ==> n == saturate(final(self)@.handed.len() - old(self)@.handed.len()),
            r matches Ok(_) && old(self)@.queue.len() > 0 && old(self)@.queue[0].pending().len() == 0
                ==> final(self)@.queue.len() < old(self)@.queue.len(),
            queued_bytes(old(self)@.queue).len() == 0 ==> {
                &&& r == Ok::<usize, EngineError>(0)
                &&& final(self)@.queue.len() == 0
                &&& final(self)@.handed == old(self)@.handed
            },
            final(self).trace() == (EngineTrace { send_answers: final(self).trace().send_answers, ..old(self).trace() }),
            is_prefix_of_answers(old(self).trace().send_answers, final(self).trace().send_answers),
            queue_advanced(old(self)@.queue, final(self)@.queue),
            r is Ok && final(self)@.queue.len() > 0 ==> {
                &&& final(self)@.queue[0].pending().len() > 0
                &&& final(self).trace().send_answers.len() > old(self).trace().send_answers.len()
                &&& stalls(final(self).trace().send_answers.last())
            },
            r matches Err(e) ==> {
                &&& e is Fatal
                &&& final(self).trace().send_answers.len() > old(self).trace().send_answers.len()
                &&& final(self).trace().send_answers.last() == Err::<usize, EngineError>(e)
            },
    {
        let ghost start = self.handed@;
        let ghost q0 = self.send_queue@;
        let mut total: usize = 0;
        assert(start.subrange(0, start.len() as int) =~= start);
        assert(self.trace@.send_answers.subrange(0, self.trace@.send_answers.len() as int) =~= self.trace@.send_answers);
        assert(q0.len() > 0 ==> q0.drop_first() =~= q0.subrange(1, q0.len() as int));
        loop
            invariant
                self.wf(),
                self.id == old(self).id,
                self.scid@ == old(self).scid@,
                self.last_send == old(self).last_send,
                self.next_timeout == old(self).next_timeout,
                self.established_once == old(self).established_once,
                same_recv_state(self@, old(self)@),
                self.enqueued@ == old(self).enqueued@,
                start == old(self).handed@,
                q0 == old(self).send_queue@,
                is_prefix(start, self.handed@),
                total == saturate(self.handed@.len() - start.len()),
                q0.len() > 0 && q0[0].pending().len() == 0
                    ==> self.send_queue@.len() < q0.len() || self.send_queue@ == q0,
                queued_bytes(q0).len() == 0 ==> queued_bytes(self.send_queue@).len() == 0
                    && self.handed@ == start && total == 0,
                self.trace@ == (EngineTrace { send_answers: self.trace@.send_answers, ..old(self).trace@ }),
                is_prefix_of_answers(old(self).trace@.send_answers, self.trace@.send_answers),
                queue_advanced(q0, self.send_queue@),
            decreases queued_bytes(self.send_queue@).len() + self.send_queue@.len(),
        {
            let ghost q = self.send_queue@;
            let ghost before = self.handed@;
            match self.send_queue.pop_front() {
                None => {
                    return Ok(total);
                },
                Some(mut buf) => {
                    proof {
                        lemma_queue_advanced_pop(q0, q);
                        assert(q =~= seq![buf] + self.send_queue@);
                        lemma_queued_bytes_front(buf, self.send_queue@);
                        assert(buf == q[0]);
                        assert(all_wf(self.send_queue@)) by {
                            assert forall|i: int| 0 <= i < self.send_queue@.len() implies (#[trigger] self.send_queue@[i]).wf() by {
                                assert(self.send_queue@[i] == q[i + 1]);
                            }
                        }
                    }
                    if buf.sent >= buf.data.len() {
                        proof {
                            assert(buf.pending() =~= Seq::<u8>::empty());
                            assert(self.handed@ + queued_bytes(self.send_queue@) =~= self.enqueued@);
                        }
                        continue;
                    }
                    let rest = slice_subrange(buf.data.as_slice(), buf.sent, buf.data.len());
                    let answer = engine_stream_send(&mut self.engine, MAIN_STREAM_ID, rest, false);
                    proof {
                        let a0 = self.trace@.send_answers;
                        self.trace@ = EngineTrace { send_answers: a0.push(answer), ..self.trace@ };
                        assert(self.trace@.send_answers.subrange(0, old(self).trace@.send_answers.len() as int)
                            =~= a0.subrange(0, old(self).trace@.send_answers.len() as int));
                    }
                    match drain_step(buf.sent, buf.data.len(), answer) {
                        DrainStep::Finished(n) => {
                            let ghost p = buf.pending();
                            buf.sent = buf.sent + n;
                            proof {
                                self.handed@ = before + p.subrange(0, n as int);
                                assert(buf.pending() =~= Seq::<u8>::empty());
                                assert(p =~= p.subrange(0, n as int) + p.subrange(n as int, p.len() as int));
                                assert(self.handed@.subrange(0, start.len() as int) =~= start) by {
                                    assert(before.subrange(0, start.len() as int) == start);
                                }
                                assert(self.handed@ + queued_bytes(self.send_queue@) =~= self.enqueued@);
                            }
                            total = total.saturating_add(n);
                        },
                        DrainStep::Advanced(n) => {
                            let ghost p = buf.pending();
                            buf.sent = buf.sent + n;
                            proof {
                                self.handed@ = before + p.subrange(0, n as int);
                                assert(buf.pending() =~= p.subrange(n as int, p.len() as int));
                                assert(p =~= p.subrange(0, n as int) + p.subrange(n as int, p.len() as int));
                                assert(self.handed@.subrange(0, start.len() as int) =~= start) by {
                                    assert(before.subrange(0, start.len() as int) == start);
                                }
                            }
                            total = total.saturating_add(n);
                            let ghost tail = self.send_queue@;
                            self.send_queue.push_front(buf);
                            proof {
                                assert(self.send_queue@.drop_first() =~= tail);
                                assert(self.send_queue@[0] == buf);
                                assert(tail == q.drop_first());
                                lemma_queued_bytes_front(buf, tail);
                                assert(self.handed@ + queued_bytes(self.send_queue@) =~= self.enqueued@);
                                assert(all_wf(self.send_queue@)) by {
                                    assert forall|i: int| 0 <= i < self.send_queue@.len() implies (#[trigger] self.send_queue@[i]).wf() by {
                                        if i > 0 {
                                            assert(self.send_queue@[i] == tail[i - 1]);
                                        }
                                    }
                                }
                            }
                        },
                        DrainStep::Stalled => {
                            self.send_queue.push_front(buf);
                            proof {
                                assert(self.send_queue@ =~= q);
                            }
                            return Ok(total);
                        },
                        DrainStep::Fail(f) => {
                            self.send_queue.push_front(buf);
                            proof {
                                assert(self.send_queue@ =~= q);
                            }
                            return Err(EngineError::Fatal(f));
                        },
                    }
                },
            }
        }
    }

    /// Commits `data` to the main stream behind everything already queued and
    /// runs one drain. Returns the bytes the engine accepted during that drain.
    pub fn stream_reliable_send(&mut self, data_vec: Vec<u8>) -> (r: Result<usize, EngineError>)
        requires
            old(self).wf(),
        ensures
            final(self).wf(),
            final(self)@.id == old(self)@.id,
            final(self)@.scid == old(self)@.scid,
            final(self)@.last_send == old(self)@.last_send,
            final(self)@.next_timeout == old(self)@.next_timeout,
            final(self)@.established_once == old(self)@.established_once,
            same_recv_state(final(self)@, old(self)@),
            commits(old(self)@, data_vec@, final(self)@),
            r matches Ok(n) ==> n == saturate(final(self)@.handed.len() - old(self)@.handed.len()),
            old(self)@.queue.len() == 0 && data_vec@.len() == 0 ==> {
                &&& r == Ok::<usize, EngineError>(0)
                &&& final(self)@.queue.len() == 0
                &&& final(self)@.handed == old(self)@.handed
            },
            final(self).trace() == (EngineTrace { send_answers: final(self).trace().send_answers, ..old(self).trace() }),
            r is Ok && final(self)@.queue.len() > 0 ==> {
                &&& final(self)@.queue[0].pending().len() > 0
                &&& final(self).trace().send_answers.len() > old(self).trace().send_answers.len()
                &&& stalls(final(self).trace().send_answers.last())
            },
            r matches Err(e) ==> {
                &&& e is Fatal
                &&& final(self).trace().send_answers.len() > old(self).trace().send_answers.len()
                &&& final(self).trace().send_answers.last() == Err::<usize, EngineError>(e)
            },
    {
        let ghost q = self.send_queue@;
        let buf = SendBuffer::new(data_vec);
        self.send_queue.push_back(buf);
        proof {
            self.enqueued@ = self.enqueued@ + data_vec@;
            lemma_queued_bytes_push(q, buf);
            assert(buf.pending() =~= data_vec@);
            assert(self.handed@ + queued_bytes(self.send_queue@) =~= self.enqueued@);
            assert(all_wf(self.send_queue@)) by {
                assert forall|i: int| 0 <= i < self.send_queue@.len() implies (#[trigger] self.send_queue@[i]).wf() by {
                    if i < q.len() {
                        assert(self.send_queue@[i] == q[i]);
                    }
                }
            }
            if q.len() == 0 {
                assert(self.send_queue@[0] == buf);
            }
        }
        proof {
            if q.len() == 0 && data_vec@.len() == 0 {
                assert(queued_bytes(self.send_queue@) =~= Seq::<u8>::empty()) by {
                    assert(queued_bytes(q) =~= Seq::<u8>::empty());
                }
            }
        }
        self.stream_reliable_send_next()
    }

    /// The engine's deadline, in nanoseconds since this connection's origin.
    fn engine_deadline(&self) -> (r: Option<u64>) {
        match engine_timeout(&self.engine) {
            Some(t) => Some(nanos_since(&self.origin, &t)),
            None => None,
        }
    }

    /// The clock, in nanoseconds since this connection's origin.
    fn now(&self) -> u64 {
        let t = instant_now();
        nanos_since(&self.origin, &t)
    }

    pub fn matches_id(&self, id: u64) -> (r: bool)
        ensures
            r == (self@.id == id),
    {
        self.id == id
    }

    pub fn matches_dcid(&self, dcid: &[u8]) -> (r: bool)
        ensures
            r == (self@.scid == dcid@),
    {
        if self.scid.len() != dcid.len() {
            return false;
        }
        let mut i: usize = 0;
        while i < dcid.len()
            invariant
                self.scid@.len() == dcid@.len(),
                i <= dcid@.len(),
                self.scid@.subrange(0, i as int) == dcid@.subrange(0, i as int),
            decreases dcid@.len() - i,
        {
            if self.scid[i] != dcid[i] {
                assert(self.scid@[i as int] != dcid@[i as int]);
                return false;
            }
            i = i + 1;
            assert(self.scid@.subrange(0, i as int) =~= dcid@.subrange(0, i as int)) by {
                assert(self.scid@.subrange(0, i as int) =~= self.scid@.subrange(0, i - 1).push(self.scid@[i - 1]));
                assert(dcid@.subrange(0, i as int) =~= dcid@.subrange(0, i - 1).push(dcid@[i - 1]));
            }
        }
        assert(self.scid@ =~= self.scid@.subrange(0, i as int));
        assert(dcid@ =~= dcid@.subrange(0, i as int));
        true
    }

    /// Announces the length of the next record to assemble from the main
    /// stream, clamped to the buffer's capacity; nothing is allocated.
    pub fn stream_reliable_next_read_target(&mut self, next_target: usize)
        requires
            old(self).wf(),
        ensures
            final(self).wf(),
            final(self)@ == with_read_target(old(self)@, next_target as nat),
    {
        let mut t = next_target;
        if t > self.recv_data.len() {
            t = self.recv_data.len();
        }
        self.recv_captured = 0;
        self.recv_target = t;
        self.target_reported = false;
        self.record_start = Ghost(self.consumed@.len());
        self.detached = Ghost(false);
        assert(self.recv_data@.subrange(0, 0) =~= self.consumed@.subrange(self.record_start@ as int, self.consumed@.len() as int));
    }

    /// Reads from the main stream into the not yet assembled part of the record.
    fn pull_main_stream(&mut self) -> (r: Result<Pull, EngineError>)
        requires
            old(self).wf(),
            old(self)@.captured < old(self)@.target,
        ensures
            final(self).wf(),
            same_but_captured(final(self)@, old(self)@),
            keeps_captured(old(self)@, final(self)@),
            final(self)@.captured >= old(self)@.captured,
            is_prefix(old(self)@.consumed, final(self)@.consumed),
            r matches Ok(Pull::TargetMet) ==> final(self)@.captured == final(self)@.target,
            r matches Ok(Pull::Short) ==> final(self)@.captured < final(self)@.target,
            !(r matches Ok(Pull::TargetMet)) && !(r matches Ok(Pull::Short))
                ==> final(self)@.captured == old(self)@.captured,
            final(self).trace() == (EngineTrace {
                pull: final(self).trace().pull,
                closes: final(self).trace().closes,
                pulls: old(self).trace().pulls + 1,
                ..old(self).trace()
            }),
            final(self).trace().pull matches Some(a) && pull_effect(old(self)@.captured, old(self)@.target, a, r,
                final(self)@.captured, old(self).trace().closes, final(self).trace().closes),
            final(self).trace().pull matches Some(Err(_)) ==> final(self)@ == old(self)@,
    {
        let captured = self.recv_captured;
        let target = self.recv_target;
        let ghost b0 = self.recv_data@;
        assert(self.consumed@.subrange(0, self.consumed@.len() as int) =~= self.consumed@);
        let res = engine_stream_recv(&mut self.engine, MAIN_STREAM_ID, self.recv_data.as_mut_slice(), captured, target);
        proof {
            assert(self.recv_data@.subrange(0, captured as int) =~= b0.subrange(0, captured as int)) by {
                if res is Ok {
                    assert(self.recv_data@.subrange(0, captured as int) =~= self.recv_data@.subrange(0, captured as int));
                }
            }
        }
        proof {
            self.trace@ = EngineTrace { pull: Some(res), pulls: self.trace@.pulls + 1, ..self.trace@ };
            if res is Ok && !res.unwrap().1 {
                let n = res.unwrap().0;
                let chunk = self.recv_data@.subrange(captured as int, captured + n);
                let c0 = self.consumed@;
                self.consumed@ = c0 + chunk;
                assert(self.recv_data@.subrange(0, captured + n) =~= self.recv_data@.subrange(0, captured as int) + chunk);
                assert(self.consumed@.subrange(self.record_start@ as int, self.consumed@.len() as int)
                    =~= c0.subrange(self.record_start@ as int, c0.len() as int) + chunk);
                assert(self.consumed@.subrange(0, c0.len() as int) =~= c0);
            }
        }
        match pull_step(captured, target, res) {
            PullStep::Advance(c) => {
                self.recv_captured = c;
                Ok(Pull::Short)
            },
            PullStep::Met(c) => {
                self.recv_captured = c;
                Ok(Pull::TargetMet)
            },
            PullStep::CloseStream => {
                let reason = stream_finished_reason();
                let closed = engine_close(&mut self.engine, FIN_CLOSE_CODE, reason.as_slice());
                proof {
                    let c0 = self.trace@.closes;
                    self.trace@ = EngineTrace { closes: c0.push((FIN_CLOSE_CODE, fin_reason(), closed)), ..self.trace@ };
                    assert(self.trace@.closes.drop_last() =~= c0);
                }
                match closed {
                    Ok(()) => Ok(Pull::Finished),
                    Err(e) => Err(e),
                }
            },
            PullStep::NoData => Ok(Pull::Empty),
            PullStep::Fail(e) => Err(EngineError::Fatal(e)),
        }
    }

    /// Hands the assembled record over: copied into `read_copy` when it is long
    /// enough, else the buffer itself, cut to the record, with a zero-filled
    /// buffer of the same capacity put in its place. The target and watermark
    /// stay as they were; only the buffer changes.
    fn deliver(&mut self, read_copy: &mut [u8]) -> (r: (Option<usize>, Option<Vec<u8>>))
        requires
            old(self).wf(),
            old(self)@.captured >= old(self)@.target,
        ensures
            final(self).wf(),
            final(self).trace() == old(self).trace(),
            final(read_copy)@.len() == old(read_copy)@.len(),
            old(read_copy)@.len() >= old(self)@.target ==> {
                &&& r == (Some(old(self)@.target as usize), None::<Vec<u8>>)
                &&& final(self)@ == old(self)@
                &&& final(read_copy)@.subrange(0, old(self)@.target as int) == old(self)@.buffer.subrange(0, old(self)@.target as int)
                &&& final(read_copy)@.subrange(old(self)@.target as int, old(read_copy)@.len() as int)
                    == old(read_copy)@.subrange(old(self)@.target as int, old(read_copy)@.len() as int)
            },
            old(read_copy)@.len() < old(self)@.target ==> {
                &&& r.0.is_none()
                &&& (r.1 matches Some(v) && v@ == old(self)@.buffer.subrange(0, old(self)@.target as int))
                &&& final(self)@ == (ConnectionView {
                    buffer: Seq::new(old(self)@.capacity, |i: int| 0u8),
                    detached: true,
                    ..old(self)@
                })
                &&& final(read_copy)@ == old(read_copy)@
            },
    {
        let target = self.recv_target;
        if read_copy.len() >= target {
            let mut i: usize = 0;
            while i < target
                invariant
                    target == self.recv_target,
                    target <= read_copy@.len(),
                    target <= self.recv_data@.len(),
                    i <= target,
                    read_copy@.len() == old(read_copy)@.len(),
                    forall|k: int| 0 <= k < i ==> read_copy@[k] == self.recv_data@[k],
                    forall|k: int| target <= k < read_copy@.len() ==> read_copy@[k] == old(read_copy)@[k],
                decreases target - i,
            {
                read_copy[i] = self.recv_data[i];
                i = i + 1;
            }
            assert(read_copy@.subrange(0, target as int) =~= self.recv_data@.subrange(0, target as int));
            assert(read_copy@.subrange(target as int, read_copy@.len() as int)
                =~= old(read_copy)@.subrange(target as int, read_copy@.len() as int));
            (Some(target), None)
        } else {
            let mut detached = zeroed(self.recv_capacity);
            std::mem::swap(&mut self.recv_data, &mut detached);
            while detached.len() > target
                invariant
                    target <= detached@.len(),
                    detached@.subrange(0, target as int) == old(self).recv_data@.subrange(0, target as int),
                decreases detached@.len(),
            {
                let ghost d = detached@;
                detached.pop();
                assert(detached@.subrange(0, target as int) =~= d.subrange(0, target as int));
            }
            assert(detached@ =~= detached@.subrange(0, target as int));
            self.detached = Ghost(true);
            (None, Some(detached))
        }
    }

    /// Reads the record announced by the read target: delivers it when it is
    /// (or, after one pull from the main stream, becomes) fully assembled;
    /// otherwise returns neither a count nor a buffer. A delivered record is
    /// the `target` main-stream bytes that follow those taken before the
    /// target was set.
    pub fn stream_reliable_read(&mut self, read_copy: &mut [u8]) -> (r: Result<(Option<usize>, Option<Vec<u8>>), EngineError>)
        requires
            old(self).wf(),
        ensures
            final(self).wf(),
            final(self)@.id == old(self)@.id,
            final(self)@.scid == old(self)@.scid,
            final(self)@.last_send == old(self)@.last_send,
            final(self)@.next_timeout == old(self)@.next_timeout,
            final(self)@.established_once == old(self)@.established_once,
            final(self)@.capacity == old(self)@.capacity,
            same_send_state(final(self)@, old(self)@),
            is_prefix(old(self)@.consumed, final(self)@.consumed),
            final(read_copy)@.len() == old(read_copy)@.len(),
            old(self)@.captured >= old(self)@.target ==> {
                &&& final(self)@.consumed == old(self)@.consumed
                &&& r matches Ok((count, owned))
                &&& (count is Some <==> old(read_copy)@.len() >= old(self)@.target)
                &&& (owned is Some <==> old(read_copy)@.len() < old(self)@.target)
            },
            r matches Ok((Some(n), owned)) ==> {
                &&& owned is None
                &&& n == old(self)@.target
                &&& n <= old(read_copy)@.len()
                &&& (!old(self)@.detached ==> final(read_copy)@.subrange(0, n as int)
                    == final(self)@.consumed.subrange(old(self)@.record_start as int, (old(self)@.record_start + n) as int))
                &&& (old(self)@.captured >= old(self)@.target ==> final(read_copy)@.subrange(0, n as int)
                    == old(self)@.buffer.subrange(0, n as int))
                &&& final(read_copy)@.subrange(n as int, old(read_copy)@.len() as int)
                    == old(read_copy)@.subrange(n as int, old(read_copy)@.len() as int)
                &&& final(self)@.target == old(self)@.target
                &&& final(self)@.captured >= final(self)@.target
                &&& final(self)@.reported == old(self)@.reported
            },
            r matches Ok((None, Some(v))) ==> {
                &&& old(read_copy)@.len() < old(self)@.target
                &&& (!old(self)@.detached ==> v@ == final(self)@.consumed.subrange(old(self)@.record_start as int,
                    (old(self)@.record_start + old(self)@.target) as int))
                &&& (old(self)@.captured >= old(self)@.target ==> v@ == old(self)@.buffer.subrange(0, old(self)@.target as int))
                &&& final(self)@.buffer == Seq::new(old(self)@.capacity, |i: int| 0u8)
                &&& final(self)@.detached
                &&& final(self)@.target == old(self)@.target
                &&& final(self)@.captured >= final(self)@.target
                &&& final(self)@.record_start == old(self)@.record_start
                &&& final(self)@.reported == old(self)@.reported
                &&& final(read_copy)@ == old(read_copy)@
            },
            r is Err ==> final(read_copy)@ == old(read_copy)@,
            r matches Ok((None, None)) ==> {
                &&& old(self)@.captured < old(self)@.target
                &&& final(self)@.captured < final(self)@.target
                &&& final(self)@.target == old(self)@.target
                &&& final(self)@.reported == old(self)@.reported
                &&& final(read_copy)@ == old(read_copy)@
            },
            old(self)@.captured >= old(self)@.target && old(read_copy)@.len() >= old(self)@.target ==> {
                &&& final(self)@ == old(self)@
                &&& final(self).trace() == old(self).trace()
            },
            final(self).trace() == (EngineTrace {
                pull: final(self).trace().pull,
                closes: final(self).trace().closes,
                pulls: final(self).trace().pulls,
                ..old(self).trace()
            }),
            final(self).trace().pulls == old(self).trace().pulls + if old(self)@.captured < old(self)@.target { 1nat } else { 0nat },
            old(self)@.captured < old(self)@.target ==> (final(self).trace().pull matches Some(a) && match pull_spec(old(self)@.captured, old(self)@.target, a) {
                PullStep::Advance(c) => (r matches Ok((None, None))) && final(self)@.captured == c
                    && final(self).trace().closes == old(self).trace().closes,
                PullStep::Met(_) => (r matches Ok((count, owned)) && (count is Some || owned is Some))
                    && final(self).trace().closes == old(self).trace().closes,
                PullStep::CloseStream => final(self)@.captured == old(self)@.captured
                    && fin_close_logged(old(self).trace().closes, final(self).trace().closes)
                    && match final(self).trace().closes.last().2 {
                        Ok(_) => r matches Ok((None, None)),
                        Err(e) => r == Err::<(Option<usize>, Option<Vec<u8>>), EngineError>(e),
                    },
                PullStep::NoData => (r matches Ok((None, None))) && final(self)@ == old(self)@,
                PullStep::Fail(e) => r == Err::<(Option<usize>, Option<Vec<u8>>), EngineError>(EngineError::Fatal(e))
                    && final(self)@ == old(self)@,
            }),
    {
        assert(self.consumed@.subrange(0, self.consumed@.len() as int) =~= self.consumed@);
        if self.recv_captured >= self.recv_target {
            let ghost v0 = self@;
            let r = self.deliver(read_copy);
            proof {
                assert(v0.buffer.subrange(0, v0.target as int) =~= v0.buffer.subrange(0, v0.captured as int).subrange(0, v0.target as int));
                assert(v0.consumed.subrange(v0.record_start as int, (v0.record_start + v0.target) as int)
                    =~= v0.consumed.subrange(v0.record_start as int, v0.consumed.len() as int).subrange(0, v0.target as int));
            }
            return Ok(r);
        }
        match self.pull_main_stream() {
            Ok(Pull::TargetMet) => {
                let ghost v1 = self@;
                let r = self.deliver(read_copy);
                proof {
                    assert(v1.buffer.subrange(0, v1.target as int) =~= v1.buffer.subrange(0, v1.captured as int));
                    assert(v1.consumed.subrange(v1.record_start as int, (v1.record_start + v1.target) as int)
                        =~= v1.consumed.subrange(v1.record_start as int, v1.consumed.len() as int));
                }
                Ok(r)
            },
            Ok(_) => Ok((None, None)),
            Err(e) => Err(e),
        }
    }

    /// Feeds one datagram to the engine and reports what it led to: the first
    /// establishment, a terminal state, a completed read target (announced once
    /// per target), a main-stream FIN (answered by a local close), another
    /// readable stream, or nothing.
    pub fn recv_data_process(&mut self, data: &mut [u8], info: quiche::RecvInfo) -> (r: Result<RecvResult, EngineError>)
        requires
            old(self).wf(),
        ensures
            final(self).wf(),
            final(self)@.id == old(self)@.id,
            final(self)@.scid == old(self)@.scid,
            final(self)@.last_send == old(self)@.last_send,
            final(self)@.next_timeout == old(self)@.next_timeout,
            final(self)@.target == old(self)@.target,
            final(self)@.capacity == old(self)@.capacity,
            final(self)@.captured >= old(self)@.captured,
            keeps_captured(old(self)@, final(self)@),
            final(self)@.record_start == old(self)@.record_start,
            is_prefix(old(self)@.consumed, final(self)@.consumed),
            final(self)@.enqueued == old(self)@.enqueued,
            is_prefix(old(self)@.handed, final(self)@.handed),
            final(self)@.established_once == (old(self)@.established_once || r matches Ok(RecvResult::Established(_))),
            r matches Ok(RecvResult::Established(i)) ==> i == old(self)@.id && !old(self)@.established_once,
            r matches Ok(RecvResult::Closed(i)) ==> i == old(self)@.id,
            r matches Ok(RecvResult::Draining(i)) ==> i == old(self)@.id,
            r matches Ok(RecvResult::Closing(i)) ==> i == old(self)@.id && old(self)@.established_once,
            r matches Ok(RecvResult::ReliableReadTarget(i)) ==> {
                &&& i == old(self)@.id
                &&& old(self)@.established_once
                &&& !old(self)@.reported
                &&& final(self)@.reported
                &&& final(self)@.captured >= final(self)@.target
            },
            !(r matches Ok(RecvResult::ReliableReadTarget(_))) ==> final(self)@.reported == old(self)@.reported,
            r matches Ok(RecvResult::StreamReadable((i, s))) ==> i == old(self)@.id && s != MAIN_STREAM_ID,
            !old(self)@.established_once ==> {
                &&& final(self)@.captured == old(self)@.captured
                &&& final(self)@.buffer == old(self)@.buffer
                &&& same_send_state(final(self)@, old(self)@)
            },
            final(self).trace().recv.fed is Some,
            final(self).trace().feeds == old(self).trace().feeds + 1,
            final(self).trace().packet == old(self).trace().packet,
            final(self).trace().deadline_reads == old(self).trace().deadline_reads,
            final(self).trace().timeouts_serviced == old(self).trace().timeouts_serviced,
            final(self).trace().after_timeout == old(self).trace().after_timeout,
            final(self).trace().recv.fed matches Some(Err(e)) ==> {
                &&& r == Err::<RecvResult, EngineError>(e)
                &&& final(self)@ == old(self)@
                &&& final(self).trace() == (EngineTrace { recv: final(self).trace().recv, feeds: final(self).trace().feeds, ..old(self).trace() })
            },
            final(self).trace().recv.fed matches Some(Ok(_)) ==> recv_outcome(old(self)@, final(self)@,
                old(self).trace(), final(self).trace(), r),
    {
        assert(self.handed@.subrange(0, self.handed@.len() as int) =~= self.handed@);
        assert(self.consumed@.subrange(0, self.consumed@.len() as int) =~= self.consumed@);
        let fed = engine_recv(&mut self.engine, data, info);
        proof {
            self.trace@ = EngineTrace {
                feeds: self.trace@.feeds + 1,
                recv: RecvAnswers { fed: Some(fed), established: false, closed: false, draining: false, drained: None, readable: None },
                ..self.trace@
            };
        }
        match fed {
            Ok(_) => {},
            Err(e) => {
                return Err(e);
            },
        }
        let established = engine_is_established(&self.engine);
        let closed = engine_is_closed(&self.engine);
        let draining = engine_is_draining(&self.engine);
        proof {
            self.trace@ = EngineTrace {
                recv: RecvAnswers { established, closed, draining, ..self.trace@.recv },
                ..self.trace@
            };
        }
        assert(self@.buffer.subrange(0, old(self)@.captured as int) =~= old(self)@.buffer.subrange(0, old(self)@.captured as int));
        match recv_dispatch(self.id, self.established_once, established, closed, draining) {
            Some(x) => {
                if !self.established_once && established {
                    self.established_once = true;
                }
                return Ok(x);
            },
            None => {},
        }
        let drained = self.stream_reliable_send_next();
        proof {
            self.trace@ = EngineTrace {
                recv: RecvAnswers { drained: Some(drained is Ok), ..self.trace@.recv },
                ..self.trace@
            };
        }
        match drained {
            Ok(_) => {},
            Err(e) => {
                return Err(e);
            },
        }
        let next = engine_stream_readable_next(&mut self.engine);
        proof {
            self.trace@ = EngineTrace {
                recv: RecvAnswers { readable: next, ..self.trace@.recv },
                ..self.trace@
            };
        }
        match readable_step(self.id, self.recv_captured, self.recv_target, self.target_reported, next) {
            ReadableStep::Report(x) => {
                if matches!(x, RecvResult::ReliableReadTarget(_)) {
                    self.target_reported = true;
                }
                Ok(x)
            },
            ReadableStep::Pull => {
                match self.pull_main_stream() {
                    Ok(Pull::TargetMet) => {
                        self.target_reported = true;
                        Ok(RecvResult::ReliableReadTarget(self.id))
                    },
                    Ok(Pull::Short) => Ok(RecvResult::Nothing),
                    Ok(Pull::Finished) => Ok(RecvResult::Closing(self.id)),
                    Ok(Pull::Empty) => Err(EngineError::Done),
                    Err(e) => Err(e),
                }
            },
        }
    }

    /// Asks the engine for one datagram. A produced packet comes back with its
    /// send information and earliest send time, which moves the latest send
    /// time forward, never back; when the engine has nothing to send the
    /// cached deadline is refreshed and `None` comes back.
    pub fn get_next_send_packet(&mut self, packet_data: &mut [u8]) -> (r: Result<Option<(usize, quiche::SendInfo, u64)>, EngineError>)
        requires
            old(self).wf(),
        ensures
            final(self).wf(),
            final(self)@ == (ConnectionView { last_send: final(self)@.last_send, next_timeout: final(self)@.next_timeout, ..old(self)@ }),
            final(self)@.last_send >= old(self)@.last_send,
            final(packet_data)@.len() == old(packet_data)@.len(),
            r matches Ok(Some((_, _, at))) ==> {
                &&& final(self)@.last_send == if at > old(self)@.last_send { at } else { old(self)@.last_send }
                &&& final(self)@.next_timeout == old(self)@.next_timeout
            },
            r matches Ok(None) ==> final(self)@.last_send == old(self)@.last_send,
            r is Err ==> final(self)@ == old(self)@,
            final(self).trace() == (EngineTrace {
                packet: final(self).trace().packet,
                deadline_reads: final(self).trace().deadline_reads,
                ..old(self).trace()
            }),
            final(self).trace().packet matches Some(a) && match a {
                Ok(len) => (r matches Ok(Some((l, _, _))) && l == len)
                    && final(self).trace().deadline_reads == old(self).trace().deadline_reads,
                Err(EngineError::Done) => r == Ok::<Option<(usize, quiche::SendInfo, u64)>, EngineError>(None)
                    && final(self).trace().deadline_reads == old(self).trace().deadline_reads + 1,
                Err(EngineError::Fatal(e)) => r == Err::<Option<(usize, quiche::SendInfo, u64)>, EngineError>(EngineError::Fatal(e))
                    && final(self).trace().deadline_reads == old(self).trace().deadline_reads,
            },
    {
        match engine_send(&mut self.engine, packet_data) {
            Ok((len, info)) => {
                proof {
                    self.trace@ = EngineTrace { packet: Some(Ok(len)), ..self.trace@ };
                }
                let t = send_info_at(&info);
                let at = nanos_since(&self.origin, &t);
                if at > self.last_send {
                    self.last_send = at;
                }
                Ok(Some((len, info, at)))
            },
            Err(EngineError::Done) => {
                proof {
                    self.trace@ = EngineTrace {
                        packet: Some(Err(EngineError::Done)),
                        deadline_reads: self.trace@.deadline_reads + 1,
                        ..self.trace@
                    };
                }
                self.next_timeout = self.engine_deadline();
                Ok(None)
            },
            Err(EngineError::Fatal(f)) => {
                proof {
                    self.trace@ = EngineTrace { packet: Some(Err(EngineError::Fatal(f))), ..self.trace@ };
                }
                Err(EngineError::Fatal(f))
            },
        }
    }

    /// Services the engine's timer at clock reading `now`: only when the cached
    /// deadline has passed is the engine's deadline read again, and only when
    /// that one has passed too does the engine handle the timeout.
    pub fn handle_possible_timeout_at(&mut self, now: u64) -> (r: TimeoutResult)
        requires
            old(self).wf(),
        ensures
            final(self).wf(),
            final(self)@ == (ConnectionView { next_timeout: final(self)@.next_timeout, ..old(self)@ }),
            !(old(self)@.next_timeout matches Some(t) && t <= now) ==> {
                &&& final(self)@.next_timeout == old(self)@.next_timeout
                &&& r == TimeoutResult::Nothing(old(self)@.next_timeout)
            },
            !(r matches TimeoutResult::Nothing(_)) <==> {
                &&& old(self)@.next_timeout matches Some(t1) && t1 <= now
                &&& final(self)@.next_timeout matches Some(t2) && t2 <= now
            },
            r matches TimeoutResult::Nothing(d) ==> d == final(self)@.next_timeout,
            r matches TimeoutResult::Closed(i) ==> i == old(self)@.id,
            r matches TimeoutResult::Draining(i) ==> i == old(self)@.id,
            final(self).trace() == (EngineTrace {
                deadline_reads: final(self).trace().deadline_reads,
                timeouts_serviced: final(self).trace().timeouts_serviced,
                after_timeout: final(self).trace().after_timeout,
                ..old(self).trace()
            }),
            final(self).trace().deadline_reads == old(self).trace().deadline_reads
                + if old(self)@.next_timeout matches Some(t) && t <= now { 1nat } else { 0nat },
            !(r matches TimeoutResult::Nothing(_)) ==> {
                &&& final(self).trace().timeouts_serviced == old(self).trace().timeouts_serviced + 1
                &&& r == timeout_spec(old(self)@.id, final(self).trace().after_timeout.0, final(self).trace().after_timeout.1)
            },
            r matches TimeoutResult::Nothing(_) ==> {
                &&& final(self).trace().timeouts_serviced == old(self).trace().timeouts_serviced
                &&& final(self).trace().after_timeout == old(self).trace().after_timeout
            },
    {
        match self.next_timeout {
            Some(deadline) => {
                if deadline <= now {
                    proof {
                        self.trace@ = EngineTrace { deadline_reads: self.trace@.deadline_reads + 1, ..self.trace@ };
                    }
                    self.next_timeout = self.engine_deadline();
                    match self.next_timeout {
                        Some(verified) => {
                            if verified <= now {
                                engine_on_timeout(&mut self.engine);
                                let closed = engine_is_closed(&self.engine);
                                let draining = engine_is_draining(&self.engine);
                                proof {
                                    self.trace@ = EngineTrace {
                                        timeouts_serviced: self.trace@.timeouts_serviced + 1,
                                        after_timeout: (closed, draining),
                                        ..self.trace@
                                    };
                                }
                                timeout_outcome(self.id, closed, draining)
                            } else {
                                TimeoutResult::Nothing(self.next_timeout)
                            }
                        },
                        None => TimeoutResult::Nothing(self.next_timeout),
                    }
                } else {
                    TimeoutResult::Nothing(self.next_timeout)
                }
            },
            None => TimeoutResult::Nothing(self.next_timeout),
        }
    }

    /// Services the engine's timer at the current time.
    pub fn handle_possible_timeout(&mut self) -> (r: TimeoutResult)
        requires
            old(self).wf(),
        ensures
            final(self).wf(),
            final(self)@ == (ConnectionView { next_timeout: final(self)@.next_timeout, ..old(self)@ }),
            r matches TimeoutResult::Nothing(d) ==> d == final(self)@.next_timeout,
            !(r matches TimeoutResult::Nothing(_)) ==> {
                &&& old(self)@.next_timeout is Some
                &&& final(self)@.next_timeout is Some
            },
            old(self)@.next_timeout is None ==> r == TimeoutResult::Nothing(None),
    {
        let now = self.now();
        self.handle_possible_timeout_at(now)
    }

    /// Schedules an ACK-eliciting packet when a keepalive is due at clock
    /// reading `now`; reports whether one was scheduled.
    pub fn send_ping_if_necessary_at(&mut self, now: u64, interval_nanos: u64) -> (r: Result<bool, EngineError>)
        requires
            old(self).wf(),
        ensures
            final(self).wf(),
            final(self)@ == old(self)@,
            !ping_due(old(self)@.last_send, interval_nanos, now) ==> r == Ok::<bool, EngineError>(false),
            ping_due(old(self)@.last_send, interval_nanos, now) ==> !(r == Ok::<bool, EngineError>(false)),
            r matches Ok(true) ==> ping_due(old(self)@.last_send, interval_nanos, now),
            interval_nanos == 0 ==> !(r == Ok::<bool, EngineError>(false)),
    {
        let due = if interval_nanos == 0 {
            true
        } else {
            match self.last_send.checked_add(interval_nanos) {
                Some(t) => t <= now,
                None => false,
            }
        };
        if due {
            match engine_send_ack_eliciting(&mut self.engine) {
                Ok(()) => Ok(true),
                Err(e) => Err(e),
            }
        } else {
            Ok(false)
        }
    }

    /// Schedules an ACK-eliciting packet when `interval_nanos` have passed
    /// since the latest send time.
    pub fn send_ping_if_necessary(&mut self, interval_nanos: u64) -> (r: Result<bool, EngineError>)
        requires
            old(self).wf(),
        ensures
            final(self).wf(),
            final(self)@ == old(self)@,
            r matches Ok(true) ==> old(self)@.last_send + interval_nanos <= u64::MAX,
    {
        let now = self.now();
        self.send_ping_if_necessary_at(now, interval_nanos)
    }

    /// Starts a graceful local close with `err` and `reason`.
    pub fn close(&mut self, err: u64, reason: &[u8]) -> (r: Result<bool, EngineError>)
        requires
            old(self).wf(),
        ensures
            final(self).wf(),
            final(self)@ == old(self)@,
            r matches Ok(b) ==> b,
            final(self).trace() == (EngineTrace { closes: final(self).trace().closes, ..old(self).trace() }),
            final(self).trace().closes.len() == old(self).trace().closes.len() + 1,
            final(self).trace().closes.drop_last() == old(self).trace().closes,
            final(self).trace().closes.last().0 == err,
            final(self).trace().closes.last().1 == reason@,
            match final(self).trace().closes.last().2 {
                Ok(_) => r == Ok::<bool, EngineError>(true),
                Err(e) => r == Err::<bool, EngineError>(e),
            },
    {
        let closed = engine_close(&mut self.engine, err, reason);
        proof {
            let c0 = self.trace@.closes;
            self.trace@ = EngineTrace { closes: c0.push((err, reason@, closed)), ..self.trace@ };
            assert(self.trace@.closes.drop_last() =~= c0);
        }
        match closed {
            Ok(()) => Ok(true),
            Err(e) => Err(e),
        }
    }

    /// The clock, in the unit of the connection's send times and deadlines:
    /// nanoseconds since the connection was created.
    pub fn clock_nanos(&self) -> u64 {
        self.now()
    }

    /// Gives the main stream its scheduling priority.
    pub fn create_reliable_stream(&mut self) -> (r: Result<bool, EngineError>)
        requires
            old(self).wf(),
        ensures
            final(self).wf(),
            final(self)@ == old(self)@,
            r matches Ok(b) ==> b,
    {
        match engine_stream_priority(&mut self.engine, MAIN_STREAM_ID, MAIN_STREAM_PRIORITY) {
            Ok(()) => Ok(true),
            Err(e) => Err(e),
        }
    }

    /// Writes to a realtime stream; the main stream is reached only through
    /// the reliable queue.
    pub fn stream_send(&mut self, stream_id: u64, data: &[u8], fin: bool) -> (r: Result<usize, EngineError>)
        requires
            old(self).wf(),
            stream_id != MAIN_STREAM_ID,
        ensures
            final(self).wf(),
            final(self)@ == old(self)@,
            r matches Ok(n) ==> n <= data@.len(),
    {
        engine_stream_send(&mut self.engine, stream_id, data, fin)
    }

    /// Reads from a realtime stream into the front of `data`.
    pub fn stream_recv(&mut self, stream_id: u64, data: &mut [u8]) -> (r: Result<(usize, bool), EngineError>)
        requires
            old(self).wf(),
            stream_id != MAIN_STREAM_ID,
        ensures
            final(self).wf(),
            final(self)@ == old(self)@,
            final(data)@.len() == old(data)@.len(),
            r matches Ok((n, _)) ==> n <= old(data)@.len(),
    {
        let len = data.len();
        engine_stream_recv(&mut self.engine, stream_id, data, 0, len)
    }

    /// A connection id of the engine's maximum length, all zero.
    pub fn get_empty_cid() -> (r: [u8; 20])
        ensures
            r@ == Seq::new(20, |i: int| 0u8),
    {
        let r = [0u8; 20];
        assert(r@ =~= Seq::new(20, |i: int| 0u8));
        r
    }

    /// Classifies a freshly received datagram before any connection sees it:
    /// `None` when its header does not parse, else its destination id and
    /// whether it may open a new connection (a server receiving an Initial
    /// packet of a supported version).
    pub fn recv_header_analyze(data: &mut [u8], is_server: bool) -> (r: Option<(Vec<u8>, bool)>)
        ensures
            match parsed_header(old(data)@) {
                None => r.is_none(),
                Some((dcid, ty, version)) => r matches Some((d, possibly_new)) && d@ == dcid
                    && possibly_new == (is_server && ty == PacketType::Initial && version == PROTOCOL_VERSION_V1),
            },
    {
        match parse_header(data) {
            Some(h) => {
                let is_initial = match h.ty {
                    PacketType::Initial => true,
                    _ => false,
                };
                let possibly_new = is_server && is_initial && version_supported(h.version);
                Some((h.dcid, possibly_new))
            },
            None => None,
        }
    }
}


/// At every observable point nothing is captured beyond the read target and
/// the target never exceeds the receive buffer's capacity.
pub proof fn lemma_recv_watermarks(c: &ConnectionManager)
    requires
        c.wf(),
    ensures
        0 <= c@.captured <= c@.target <= c@.capacity,
        c@.buffer.len() == c@.capacity,
{
}

/// Setting a read target `n` no larger than the capacity starts a record of
/// exactly `n` bytes that begins right after every main-stream byte taken so
/// far: the record delivered next is the next `n` unread bytes of the stream.
pub proof fn lemma_read_target_exact(v: ConnectionView, n: nat)
    requires
        recv_bounds_hold(v),
        record_holds(v),
        n <= v.capacity,
    ensures
        with_read_target(v, n).target == n,
        with_read_target(v, n).captured == 0,
        with_read_target(v, n).record_start == v.consumed.len(),
        with_read_target(v, n).buffer == v.buffer,
        recv_bounds_hold(with_read_target(v, n)),
        record_holds(with_read_target(v, n)),
{
    assert(v.buffer.subrange(0, 0) =~= v.consumed.subrange(v.consumed.len() as int, v.consumed.len() as int));
}

/// Records read one after another tile the main stream: once a record is
/// complete, the record of the next read target begins exactly where it ends,
/// so no byte is skipped or read twice between them.
pub proof fn lemma_records_back_to_back(v: ConnectionView, n: nat)
    requires
        recv_bounds_hold(v),
        record_holds(v),
        v.captured >= v.target,
    ensures
        with_read_target(v, n).record_start == v.record_start + v.target,
{
}

/// The records of `rs`, one after another.
pub open spec fn flatten(rs: Seq<Seq<u8>>) -> Seq<u8>
    decreases rs.len(),
{
    if rs.len() == 0 {
        Seq::empty()
    } else {
        rs[0] + flatten(rs.drop_first())
    }
}

/// Each record of `rs` is the stream's bytes where it starts, and each next
/// record starts where the one before ends, the first at `start`.
pub open spec fn tiles(stream: Seq<u8>, start: nat, rs: Seq<Seq<u8>>) -> bool
    decreases rs.len(),
{
    rs.len() == 0 || {
        &&& start + rs[0].len() <= stream.len()
        &&& stream.subrange(start as int, (start + rs[0].len()) as int) == rs[0]
        &&& tiles(stream, start + rs[0].len(), rs.drop_first())
    }
}

/// Records read back to back, each the stream bytes where it starts (as
/// `stream_reliable_read` delivers them and `lemma_records_back_to_back`
/// places them), recover the stream exactly: in order, with nothing lost or
/// repeated.
pub proof fn lemma_records_recover_stream(stream: Seq<u8>, start: nat, rs: Seq<Seq<u8>>)
    requires
        start <= stream.len(),
        tiles(stream, start, rs),
    ensures
        start + flatten(rs).len() <= stream.len(),
        flatten(rs) == stream.subrange(start as int, (start + flatten(rs).len()) as int),
    decreases rs.len(),
{
    if rs.len() == 0 {
        assert(stream.subrange(start as int, start as int) =~= Seq::<u8>::empty());
    } else {
        let n = rs[0].len();
        lemma_records_recover_stream(stream, start + n, rs.drop_first());
        let rest = flatten(rs.drop_first());
        assert(flatten(rs) == rs[0] + rest);
        let a = start as int;
        let b = (start + n) as int;
        let c = (start + n + rest.len()) as int;
        assert(stream.subrange(a, c) =~= stream.subrange(a, b) + stream.subrange(b, c));
    }
}

/// A read target beyond the capacity is clamped to the capacity, and the
/// buffer is left as it was.
pub proof fn lemma_read_target_clamped(v: ConnectionView, n: nat)
    requires
        recv_bounds_hold(v),
        n > v.capacity,
    ensures
        with_read_target(v, n).target == v.capacity,
        with_read_target(v, n).buffer == v.buffer,
        with_read_target(v, n).capacity == v.capacity,
{
}

/// Two reliable sends in a row commit `d1 ++ d2` behind what was committed
/// before, and what the engine has taken on the main stream is always a
/// prefix of that sequence: no reordering ever occurs.
pub proof fn lemma_main_stream_fifo(a: ConnectionView, d1: Seq<u8>, b: ConnectionView, d2: Seq<u8>, c: ConnectionView)
    requires
        commits(a, d1, b),
        commits(b, d2, c),
    ensures
        c.enqueued == a.enqueued + d1 + d2,
        is_prefix(a.handed, c.handed),
        is_prefix(c.handed, a.enqueued + d1 + d2),
{
    assert(c.handed.subrange(0, a.handed.len() as int) =~= a.handed) by {
        assert(c.handed.subrange(0, b.handed.len() as int) == b.handed);
        assert(b.handed.subrange(0, a.handed.len() as int) == a.handed);
        assert(c.handed.subrange(0, a.handed.len() as int) =~= c.handed.subrange(0, b.handed.len() as int).subrange(0, a.handed.len() as int));
    }
    assert(c.enqueued.subrange(0, c.handed.len() as int) =~= c.handed) by {
        assert(c.handed + queued_bytes(c.queue) == c.enqueued);
    }
}

/// With a zero interval a keepalive is due on every call, whatever the
/// latest send time and the clock reading.
pub proof fn lemma_zero_interval_ping_due(last_send: u64, now: u64)
    ensures
        ping_due(last_send, 0, now),
{
}

} // verus!
