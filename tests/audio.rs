use swiftlet_rtc::audio::{
    coerce_format, format_accepted, period_accepted, AudioFault, FormatSupport, LoopAction,
    LoopEvent, LoopState, OutputFormat, OutputLoop, WaveFormat, WAIT_TIMEOUT_MS,
};

fn mixer_format(extensible: bool, float_subformat: bool, channels: u16, rate: u32) -> WaveFormat {
    WaveFormat {
        extensible,
        float_subformat,
        channels,
        channel_mask: 0x3,
        samples_per_sec: rate,
        bits_per_sample: 16,
        block_align: channels * 2,
        avg_bytes_per_sec: rate * channels as u32 * 2,
    }
}

#[test]
fn coerce_moves_pcm_to_canonical_float() {
    let f = mixer_format(true, false, 2, 44100);
    let c = coerce_format(&f).unwrap();
    assert!(c.float_subformat);
    assert_eq!(c.bits_per_sample, 32);
    assert_eq!(c.block_align, 8);
    assert_eq!(c.samples_per_sec, 48000);
    assert_eq!(c.avg_bytes_per_sec, 384000);
    assert_eq!(c.channels, 2);
    assert_eq!(c.channel_mask, 0x3);
}

#[test]
fn coerce_keeps_six_channels_and_mask() {
    let mut f = mixer_format(true, true, 6, 48000);
    f.channel_mask = 0x3f;
    let c = coerce_format(&f).unwrap();
    assert_eq!(c.channels, 6);
    assert_eq!(c.channel_mask, 0x3f);
    assert_eq!(c.block_align, 24);
    assert_eq!(c.avg_bytes_per_sec, 48000 * 6 * 4);
}

#[test]
fn coerce_refuses_non_extensible() {
    assert!(coerce_format(&mixer_format(false, true, 2, 48000)).is_none());
}

#[test]
fn coerce_refuses_oversized_channel_count() {
    assert!(coerce_format(&mixer_format(true, true, 16384, 48000)).is_none());
    assert!(coerce_format(&mixer_format(true, true, 16383, 48000)).is_some());
}

#[test]
fn only_exact_support_is_accepted() {
    assert!(format_accepted(FormatSupport::Supported));
    assert!(!format_accepted(FormatSupport::ClosestMatch));
    assert!(!format_accepted(FormatSupport::Unsupported));
    assert!(!format_accepted(FormatSupport::Failed));
}

#[test]
fn period_checks() {
    assert!(period_accepted(480, 480, None));
    assert!(period_accepted(480, 528, Some((96, 480))));
    assert!(period_accepted(96, 528, Some((96, 480))));
    assert!(!period_accepted(481, 528, Some((96, 480))));
    assert!(!period_accepted(95, 528, Some((96, 480))));
    assert!(!period_accepted(480, 528, None));
}

#[test]
fn output_format_requires_one_period_of_ring() {
    assert!(OutputFormat::new(2, 3, 480, 479).is_none());
    let o = OutputFormat::new(2, 3, 480, 480).unwrap();
    assert_eq!(o.get_channels(), 2);
    assert_eq!(o.channel_mask(), 3);
    assert_eq!(o.frame_period(), 480);
    assert_eq!(o.buffer_size(), 480);
}

#[test]
fn render_slice_is_period_times_channels() {
    let o = OutputFormat::new(2, 3, 480, 1056).unwrap();
    assert_eq!(o.render_len(), 960);
    let big = OutputFormat::new(u32::MAX, 0, u32::MAX, u32::MAX).unwrap();
    assert_eq!(big.render_len(), u32::MAX as u64 * u32::MAX as u64);
}

#[test]
fn hundred_callbacks_each_get_960_floats() {
    let o = OutputFormat::new(2, 3, 480, 960).unwrap();
    let (mut lp, first) = OutputLoop::new(&o, false, WAIT_TIMEOUT_MS);
    assert_eq!(first, LoopAction::Start);
    assert_eq!(lp.step(LoopEvent::Started(true)), LoopAction::Wait(WAIT_TIMEOUT_MS));
    let mut callbacks = 0;
    for i in 0..100 {
        assert_eq!(lp.step(LoopEvent::WaitSignaled), LoopAction::AcquireBuffer(960));
        assert_eq!(lp.step(LoopEvent::BufferAcquired(true)), LoopAction::InvokeCallback);
        callbacks += 1;
        let quit = i == 99;
        let next = lp.step(LoopEvent::Rendered { quit, released: true });
        if quit {
            assert_eq!(next, LoopAction::Stop);
        } else {
            assert_eq!(next, LoopAction::Wait(WAIT_TIMEOUT_MS));
        }
    }
    assert_eq!(callbacks, 100);
    assert_eq!(lp.step(LoopEvent::StopResult(true)), LoopAction::Finish(true));
    assert_eq!(lp.state_now(), LoopState::Finished(true));
}

#[test]
fn timeouts_never_reach_the_callback_and_quit_still_stops() {
    let o = OutputFormat::new(2, 3, 480, 960).unwrap();
    let (mut lp, _) = OutputLoop::new(&o, false, WAIT_TIMEOUT_MS);
    lp.step(LoopEvent::Started(true));
    for _ in 0..50 {
        assert_eq!(lp.step(LoopEvent::WaitTimedOut), LoopAction::Wait(WAIT_TIMEOUT_MS));
        assert_eq!(lp.state_now(), LoopState::Waiting);
    }
    lp.step(LoopEvent::WaitSignaled);
    lp.step(LoopEvent::BufferAcquired(true));
    assert_eq!(lp.step(LoopEvent::Rendered { quit: true, released: true }), LoopAction::Stop);
    assert_eq!(lp.step(LoopEvent::StopResult(false)), LoopAction::Finish(false));
}

#[test]
fn wait_and_buffer_faults_are_reported_and_the_loop_goes_on() {
    let o = OutputFormat::new(1, 4, 240, 480).unwrap();
    let (mut lp, _) = OutputLoop::new(&o, false, WAIT_TIMEOUT_MS);
    lp.step(LoopEvent::Started(true));
    assert_eq!(lp.step(LoopEvent::WaitFailed), LoopAction::ReportAndWait(AudioFault::WaitFailed, WAIT_TIMEOUT_MS));
    assert_eq!(lp.step(LoopEvent::WaitAbandoned), LoopAction::ReportAndWait(AudioFault::WaitAbandoned, WAIT_TIMEOUT_MS));
    assert_eq!(lp.step(LoopEvent::WaitUnknown), LoopAction::ReportAndWait(AudioFault::Uncertain, WAIT_TIMEOUT_MS));
    assert_eq!(lp.step(LoopEvent::WaitSignaled), LoopAction::AcquireBuffer(240));
    assert_eq!(lp.step(LoopEvent::BufferAcquired(false)), LoopAction::ReportAndWait(AudioFault::GetBuffer, WAIT_TIMEOUT_MS));
    assert_eq!(lp.state_now(), LoopState::Waiting);
}

#[test]
fn failed_release_ends_the_loop_without_stop() {
    let o = OutputFormat::new(2, 3, 480, 960).unwrap();
    let (mut lp, _) = OutputLoop::new(&o, false, WAIT_TIMEOUT_MS);
    lp.step(LoopEvent::Started(true));
    lp.step(LoopEvent::WaitSignaled);
    lp.step(LoopEvent::BufferAcquired(true));
    assert_eq!(lp.step(LoopEvent::Rendered { quit: false, released: false }), LoopAction::Finish(false));
}

#[test]
fn failed_start_and_capture_endpoints_finish_false() {
    let o = OutputFormat::new(2, 3, 480, 960).unwrap();
    let (mut lp, _) = OutputLoop::new(&o, false, WAIT_TIMEOUT_MS);
    assert_eq!(lp.step(LoopEvent::Started(false)), LoopAction::Finish(false));
    let (cap, action) = OutputLoop::new(&o, true, WAIT_TIMEOUT_MS);
    assert_eq!(action, LoopAction::Finish(false));
    assert_eq!(cap.state_now(), LoopState::Finished(false));
}

#[test]
fn out_of_place_events_repeat_the_pending_action() {
    let o = OutputFormat::new(2, 3, 480, 960).unwrap();
    let (mut lp, _) = OutputLoop::new(&o, false, WAIT_TIMEOUT_MS);
    assert_eq!(lp.step(LoopEvent::WaitSignaled), LoopAction::Start);
    lp.step(LoopEvent::Started(true));
    assert_eq!(lp.step(LoopEvent::StopResult(true)), LoopAction::Wait(WAIT_TIMEOUT_MS));
}

#[test]
fn zero_ms_waits_time_out_without_a_callback_and_quit_still_stops() {
    let o = OutputFormat::new(2, 3, 480, 960).unwrap();
    let (mut lp, _) = OutputLoop::new(&o, false, 0);
    assert_eq!(lp.step(LoopEvent::Started(true)), LoopAction::Wait(0));
    for _ in 0..100 {
        assert_eq!(lp.step(LoopEvent::WaitTimedOut), LoopAction::Wait(0));
        assert_eq!(lp.state_now(), LoopState::Waiting);
    }
    assert_eq!(lp.step(LoopEvent::WaitSignaled), LoopAction::AcquireBuffer(960));
    assert_eq!(lp.step(LoopEvent::BufferAcquired(true)), LoopAction::InvokeCallback);
    assert_eq!(lp.step(LoopEvent::Rendered { quit: true, released: true }), LoopAction::Stop);
    assert_eq!(lp.step(LoopEvent::StopResult(true)), LoopAction::Finish(true));
}
