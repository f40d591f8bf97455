//! Decisions of the shared-mode, event-driven audio output driver: format
//! negotiation, period and buffer checks, and the render loop as a state
//! machine. The operating system calls that these decisions drive are made by
//! the caller.
use vstd::prelude::*;

verus! {

pub const SAMPLE_RATE: u32 = 48000;

pub const BYTES_PER_SAMPLE: u32 = 4;

pub const BITS_PER_SAMPLE: u16 = 32;

/// How long one wait for the render event may last, in milliseconds.
pub const WAIT_TIMEOUT_MS: u32 = 15;

/// A wave format as the mixer reports it, in plain values.
#[derive(Clone, Copy, PartialEq, Eq, Structural, Debug)]
pub struct WaveFormat {
    /// The format tag is the extensible wave format.
    pub extensible: bool,
    /// The extensible subformat is IEEE float.
    pub float_subformat: bool,
    pub channels: u16,
    pub channel_mask: u32,
    pub samples_per_sec: u32,
    pub bits_per_sample: u16,
    pub block_align: u16,
    pub avg_bytes_per_sec: u32,
}

/// The mixer's format moved onto the canonical target: 32-bit IEEE float at
/// 48 kHz, with the mixer's channel count and mask kept.
pub open spec fn canonical_format(f: WaveFormat) -> WaveFormat {
    WaveFormat {
        float_subformat: true,
        bits_per_sample: BITS_PER_SAMPLE,
        block_align: (f.channels * BYTES_PER_SAMPLE) as u16,
        samples_per_sec: SAMPLE_RATE,
        avg_bytes_per_sec: (SAMPLE_RATE * f.channels * BYTES_PER_SAMPLE) as u32,
        ..f
    }
}

/// The canonical format's derived sizes can be written in the format's fields.
pub open spec fn canonical_fits(f: WaveFormat) -> bool {
    &&& f.channels * BYTES_PER_SAMPLE <= u16::MAX
    &&& SAMPLE_RATE * f.channels * BYTES_PER_SAMPLE <= u32::MAX
}

/// Coerces the mixer's format toward the canonical target. A format that is
/// not extensible is refused, as is one whose derived sizes do not fit.
pub fn coerce_format(f: &WaveFormat) -> (r: Option<WaveFormat>)
    ensures
        r == (if f.extensible && canonical_fits(*f) {
            Some(canonical_format(*f))
        } else {
            None
        }),
{
    if !f.extensible {
        return None;
    }
    let channels = f.channels as u32;
    if channels > 16383 {
        return None;
    }
    let block_align = (channels * BYTES_PER_SAMPLE) as u16;
    let avg = SAMPLE_RATE * channels * BYTES_PER_SAMPLE;
    Some(WaveFormat {
        float_subformat: true,
        bits_per_sample: BITS_PER_SAMPLE,
        block_align,
        samples_per_sec: SAMPLE_RATE,
        avg_bytes_per_sec: avg,
        ..*f
    })
}

/// The mixer's answer when asked whether a format is supported in shared mode.
#[derive(Clone, Copy, PartialEq, Eq, Structural, Debug)]
pub enum FormatSupport {
    Supported,
    /// Not as given; the mixer proposed the closest match instead.
    ClosestMatch,
    Unsupported,
    Failed,
}

/// Only an exact "supported" answer lets initialization go on.
pub fn format_accepted(s: FormatSupport) -> (r: bool)
    ensures
        r == (s == FormatSupport::Supported),
{
    match s {
        FormatSupport::Supported => true,
        _ => false,
    }
}

/// The requested period is used when it is the engine's current one, or else
/// when it lies within the engine's `(min, max)` range, if that range could be
/// read.
pub fn period_accepted(requested: u32, current: u32, range: Option<(u32, u32)>) -> (r: bool)
    ensures
        r == (requested == current || (range matches Some((lo, hi)) && lo <= requested <= hi)),
{
    if requested == current {
        return true;
    }
    match range {
        Some((lo, hi)) => lo <= requested && requested <= hi,
        None => false,
    }
}

/// The negotiated, immutable parameters of one render session.
pub struct OutputFormat {
    channels: u32,
    channel_mask: u32,
    frame_period: u32,
    buffer_size: u32,
}

/// Abstract view of an `OutputFormat`.
pub struct OutputFormatView {
    pub channels: nat,
    pub channel_mask: u32,
    pub frame_period: nat,
    pub buffer_size: nat,
}

impl View for OutputFormat {
    type V = OutputFormatView;

    closed spec fn view(&self) -> OutputFormatView {
        OutputFormatView {
            channels: self.channels as nat,
            channel_mask: self.channel_mask,
            frame_period: self.frame_period as nat,
            buffer_size: self.buffer_size as nat,
        }
    }
}

impl OutputFormat {
    /// The ring holds at least one frame period.
    pub open spec fn wf(&self) -> bool {
        self@.buffer_size >= self@.frame_period
    }

    /// Records the session's parameters; refused when the ring is shorter
    /// than one frame period.
    pub fn new(channels: u32, channel_mask: u32, frame_period: u32, buffer_size: u32) -> (r: Option<Self>)
        ensures
            r is Some <==> buffer_size >= frame_period,
            r matches Some(o) ==> o.wf() && o@ == (OutputFormatView {
                channels: channels as nat,
                channel_mask,
                frame_period: frame_period as nat,
                buffer_size: buffer_size as nat,
            }),
    {
        if buffer_size < frame_period {
            None
        } else {
            Some(OutputFormat { channels, channel_mask, frame_period, buffer_size })
        }
    }

    pub fn get_channels(&self) -> (r: u32)
        ensures
            r == self@.channels,
    {
        self.channels
    }

    pub fn channel_mask(&self) -> (r: u32)
        ensures
            r == self@.channel_mask,
    {
        self.channel_mask
    }

    pub fn frame_period(&self) -> (r: u32)
        ensures
            r == self@.frame_period,
    {
        self.frame_period
    }

    pub fn buffer_size(&self) -> (r: u32)
        ensures
            r == self@.buffer_size,
    {
        self.buffer_size
    }

    /// The number of interleaved floats in one render slice.
    pub fn render_len(&self) -> (r: u64)
        ensures
            r == self@.frame_period * self@.channels,
    {
        proof {
            assert(self.frame_period as u64 * self.channels as u64 <= u64::MAX) by (nonlinear_arith)
                requires
                    self.frame_period <= u32::MAX,
                    self.channels <= u32::MAX,
            ;
        }
        self.frame_period as u64 * self.channels as u64
    }
}

/// A transient fault of one render-loop iteration; the loop goes on.
#[derive(Clone, Copy, PartialEq, Eq, Structural, Debug)]
pub enum AudioFault {
    Uncertain,
    WaitFailed,
    WaitAbandoned,
    GetBuffer,
}

/// Where the render loop stands.
#[derive(Clone, Copy, PartialEq, Eq, Structural, Debug)]
pub enum LoopState {
    /// Priming the render client and starting the stream.
    Starting,
    /// Waiting for the render event.
    Waiting,
    /// A buffer was asked for.
    Acquiring,
    /// The application callback holds the buffer.
    Rendering,
    /// The callback asked to quit; the stream is being stopped.
    Stopping,
    /// The loop is over, with its result.
    Finished(bool),
}

/// What the operating system or the callback reported.
#[derive(Clone, Copy, PartialEq, Eq, Structural, Debug)]
pub enum LoopEvent {
    /// Priming and start succeeded or not.
    Started(bool),
    WaitSignaled,
    WaitTimedOut,
    WaitFailed,
    WaitAbandoned,
    WaitUnknown,
    /// The writable slice could be acquired or not.
    BufferAcquired(bool),
    /// The callback returned `quit`; releasing the buffer succeeded or not.
    Rendered { quit: bool, released: bool },
    /// Stopping the stream succeeded or not.
    StopResult(bool),
}

/// What the caller is to do next.
#[derive(Clone, Copy, PartialEq, Eq, Structural, Debug)]
pub enum LoopAction {
    /// Prime the render client, then start the stream.
    Start,
    /// Wait on the render event for at most this many milliseconds.
    Wait(u32),
    /// Report the fault, then wait again for at most this many milliseconds.
    ReportAndWait(AudioFault, u32),
    /// Acquire a writable slice of this many interleaved floats.
    AcquireBuffer(u64),
    /// Hand the slice to the callback, then release it.
    InvokeCallback,
    /// Stop the stream.
    Stop,
    /// The loop is over; return this result.
    Finish(bool),
}

/// The transition table of the render loop: next state and action for each
/// state and event. An event that does not belong to the state is ignored and
/// the pending action is asked for again.
pub open spec fn loop_next(s: LoopState, e: LoopEvent, slice_len: u64, wait_ms: u32) -> (LoopState, LoopAction) {
    match (s, e) {
        (LoopState::Starting, LoopEvent::Started(true)) => (LoopState::Waiting, LoopAction::Wait(wait_ms)),
        (LoopState::Starting, LoopEvent::Started(false)) => (LoopState::Finished(false), LoopAction::Finish(false)),
        (LoopState::Waiting, LoopEvent::WaitSignaled) => (LoopState::Acquiring, LoopAction::AcquireBuffer(slice_len)),
        (LoopState::Waiting, LoopEvent::WaitTimedOut) => (LoopState::Waiting, LoopAction::Wait(wait_ms)),
        (LoopState::Waiting, LoopEvent::WaitFailed) =>
            (LoopState::Waiting, LoopAction::ReportAndWait(AudioFault::WaitFailed, wait_ms)),
        (LoopState::Waiting, LoopEvent::WaitAbandoned) =>
            (LoopState::Waiting, LoopAction::ReportAndWait(AudioFault::WaitAbandoned, wait_ms)),
        (LoopState::Waiting, LoopEvent::WaitUnknown) =>
            (LoopState::Waiting, LoopAction::ReportAndWait(AudioFault::Uncertain, wait_ms)),
        (LoopState::Acquiring, LoopEvent::BufferAcquired(true)) => (LoopState::Rendering, LoopAction::InvokeCallback),
        (LoopState::Acquiring, LoopEvent::BufferAcquired(false)) =>
            (LoopState::Waiting, LoopAction::ReportAndWait(AudioFault::GetBuffer, wait_ms)),
        (LoopState::Rendering, LoopEvent::Rendered { quit, released }) => if !released {
            (LoopState::Finished(false), LoopAction::Finish(false))
        } else if quit {
            (LoopState::Stopping, LoopAction::Stop)
        } else {
            (LoopState::Waiting, LoopAction::Wait(wait_ms))
        },
        (LoopState::Stopping, LoopEvent::StopResult(b)) => (LoopState::Finished(b), LoopAction::Finish(b)),
        _ => (s, pending_action(s, slice_len, wait_ms)),
    }
}

/// The action a state waits on.
pub open spec fn pending_action(s: LoopState, slice_len: u64, wait_ms: u32) -> LoopAction {
    match s {
        LoopState::Starting => LoopAction::Start,
        LoopState::Waiting => LoopAction::Wait(wait_ms),
        LoopState::Acquiring => LoopAction::AcquireBuffer(slice_len),
        LoopState::Rendering => LoopAction::InvokeCallback,
        LoopState::Stopping => LoopAction::Stop,
        LoopState::Finished(b) => LoopAction::Finish(b),
    }
}

/// The render loop of one output session, driven by the caller: it performs
/// each action and reports the outcome as the next event.
pub struct OutputLoop {
    state: LoopState,
    slice_len: u64,
    wait_ms: u32,
}

impl OutputLoop {
    pub closed spec fn state(&self) -> LoopState {
        self.state
    }

    /// How long each wait for the render event may last, in milliseconds.
    pub closed spec fn wait_ms(&self) -> u32 {
        self.wait_ms
    }

    /// Floats in each slice handed to the callback.
    pub closed spec fn slice_len(&self) -> u64 {
        self.slice_len
    }

    /// Begins a loop over `format` whose waits last at most `wait_ms`
    /// milliseconds (`WAIT_TIMEOUT_MS` is the recommended value). A capture
    /// endpoint cannot render, so its loop is over at once with result `false`.
    pub fn new(format: &OutputFormat, is_capture: bool, wait_ms: u32) -> (r: (Self, LoopAction))
        ensures
            r.0.slice_len() == format@.frame_period * format@.channels,
            r.0.wait_ms() == wait_ms,
            is_capture ==> r.0.state() == LoopState::Finished(false) && r.1 == LoopAction::Finish(false),
            !is_capture ==> r.0.state() == LoopState::Starting && r.1 == LoopAction::Start,
    {
        let slice_len = format.render_len();
        if is_capture {
            (OutputLoop { state: LoopState::Finished(false), slice_len, wait_ms }, LoopAction::Finish(false))
        } else {
            (OutputLoop { state: LoopState::Starting, slice_len, wait_ms }, LoopAction::Start)
        }
    }

    pub fn state_now(&self) -> (r: LoopState)
        ensures
            r == self.state(),
    {
        self.state
    }

    /// Takes the outcome of the last action and returns the next one.
    pub fn step(&mut self, event: LoopEvent) -> (r: LoopAction)
        ensures
            (final(self).state(), r) == loop_next(old(self).state(), event, old(self).slice_len(), old(self).wait_ms()),
            final(self).slice_len() == old(self).slice_len(),
            final(self).wait_ms() == old(self).wait_ms(),
    {
        let len = self.slice_len;
        let wait = self.wait_ms;
        let (next, action) = match (self.state, event) {
            (LoopState::Starting, LoopEvent::Started(ok)) => if ok {
                (LoopState::Waiting, LoopAction::Wait(wait))
            } else {
                (LoopState::Finished(false), LoopAction::Finish(false))
            },
            (LoopState::Waiting, LoopEvent::WaitSignaled) => (LoopState::Acquiring, LoopAction::AcquireBuffer(len)),
            (LoopState::Waiting, LoopEvent::WaitTimedOut) => (LoopState::Waiting, LoopAction::Wait(wait)),
            (LoopState::Waiting, LoopEvent::WaitFailed) =>
                (LoopState::Waiting, LoopAction::ReportAndWait(AudioFault::WaitFailed, wait)),
            (LoopState::Waiting, LoopEvent::WaitAbandoned) =>
                (LoopState::Waiting, LoopAction::ReportAndWait(AudioFault::WaitAbandoned, wait)),
            (LoopState::Waiting, LoopEvent::WaitUnknown) =>
                (LoopState::Waiting, LoopAction::ReportAndWait(AudioFault::Uncertain, wait)),
            (LoopState::Acquiring, LoopEvent::BufferAcquired(ok)) => if ok {
                (LoopState::Rendering, LoopAction::InvokeCallback)
            } else {
                (LoopState::Waiting, LoopAction::ReportAndWait(AudioFault::GetBuffer, wait))
            },
            (LoopState::Rendering, LoopEvent::Rendered { quit, released }) => if !released {
                (LoopState::Finished(false), LoopAction::Finish(false))
            } else if quit {
                (LoopState::Stopping, LoopAction::Stop)
            } else {
                (LoopState::Waiting, LoopAction::Wait(wait))
            },
            (LoopState::Stopping, LoopEvent::StopResult(ok)) => (LoopState::Finished(ok), LoopAction::Finish(ok)),
            (s, _) => (s, Self::pending(s, len, wait)),
        };
        self.state = next;
        action
    }

    fn pending(s: LoopState, slice_len: u64, wait_ms: u32) -> (r: LoopAction)
        ensures
            r == pending_action(s, slice_len, wait_ms),
    {
        match s {
            LoopState::Starting => LoopAction::Start,
            LoopState::Waiting => LoopAction::Wait(wait_ms),
            LoopState::Acquiring => LoopAction::AcquireBuffer(slice_len),
            LoopState::Rendering => LoopAction::InvokeCallback,
            LoopState::Stopping => LoopAction::Stop,
            LoopState::Finished(b) => LoopAction::Finish(b),
        }
    }
}

/// Every buffer the loop asks for, and so every slice the callback receives,
/// holds exactly `frame_period × channels` floats, whatever the state, the
/// event and the wait length.
pub proof fn lemma_slice_exact(format: &OutputFormat, lp: &OutputLoop)
    requires
        lp.slice_len() == format@.frame_period * format@.channels,
    ensures
        forall|s: LoopState, e: LoopEvent, w: u32| #[trigger] loop_next(s, e, lp.slice_len(), w).1 matches LoopAction::AcquireBuffer(n)
            ==> n == format@.frame_period * format@.channels,
{
}

/// Whatever the wait length, a zero one included: a wait that times out never
/// reaches the callback or asks for a buffer and leads straight to the next
/// wait, and a callback's `quit` is always answered by stopping the stream;
/// the loop never ends but through a failure or `quit`.
pub proof fn lemma_loop_responsive(slice_len: u64, wait_ms: u32)
    ensures
        loop_next(LoopState::Waiting, LoopEvent::WaitTimedOut, slice_len, wait_ms)
            == (LoopState::Waiting, LoopAction::Wait(wait_ms)),
        loop_next(LoopState::Waiting, LoopEvent::WaitTimedOut, 0, 0)
            == (LoopState::Waiting, LoopAction::Wait(0)),
        loop_next(LoopState::Rendering, LoopEvent::Rendered { quit: true, released: true }, slice_len, wait_ms)
            == (LoopState::Stopping, LoopAction::Stop),
        forall|s: LoopState, e: LoopEvent| #![auto] !(s is Finished) && (loop_next(s, e, slice_len, wait_ms).0 is Finished)
            ==> (s == LoopState::Starting && e == LoopEvent::Started(false))
                || (s == LoopState::Rendering && e matches LoopEvent::Rendered { released: false, .. })
                || (s == LoopState::Stopping && e is StopResult),
{
}

} // verus!
