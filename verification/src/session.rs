//! The recording session state machine: single-flight start/stop semantics,
//! bounded finalize waits, live status, and the rule that a buffer arriving
//! after stop is discarded and never written.
//!
//! The session is purely sequential; the capture loop around it performs the
//! outside work (device, stream, disk, sleeps) and feeds every observation
//! and decision through these operations.

use vstd::prelude::*;
use crate::errors::{ErrorKind, SttError};
use crate::level::{spec_level_step, LevelMeter};
use crate::wav::{lemma_wav_bytes_well_formed, spec_wav_bytes, wav_well_formed, WavSink, MAX_WAV_SAMPLES};

verus! {

/// How many poll ticks a bounded wait spans (with `POLL_INTERVAL_MS` between
/// ticks: about two seconds).
pub const FINALIZE_WAIT_TICKS: u32 = 40;

/// The sleep between two poll ticks, in milliseconds.
pub const POLL_INTERVAL_MS: u64 = 50;

/// Lifecycle of the single recording slot.
#[derive(Clone, Copy, Debug, PartialEq, Eq, Structural)]
pub enum SessionState {
    /// No capture in flight.
    Idle,
    /// The capture worker is recording.
    Recording,
    /// Stop was requested; the worker is finalizing the container.
    Finalizing,
}

/// What one stop-poll tick concluded.
pub enum StopPoll {
    /// The worker finalized; the recording is at this path.
    Finished(String),
    /// The session ended in a failure (worker failure, or the wait budget ran
    /// out).
    Failed(SttError),
    /// Not done yet: sleep one interval and poll again.
    KeepWaiting,
}

/// The recording session. One per process; at most one capture in flight.
pub struct RecordingSession {
    pub state: SessionState,
    pub output_path: Option<String>,
    pub meter: LevelMeter,
    pub sink: Option<WavSink>,
    pub pending_error: Option<ErrorKind>,
    pub stop_ticks: u32,
}

/// The message reported for each session-lifecycle failure.
pub open spec fn spec_session_message(kind: ErrorKind) -> Seq<char> {
    match kind {
        ErrorKind::AlreadyRecording => "a recording is already in progress"@,
        ErrorKind::NotRecording => "no recording is in progress"@,
        ErrorKind::PreviousSessionNotDone => "the previous recording has not finished yet"@,
        ErrorKind::FinalizeTimeout => "timed out waiting for the recording to finish"@,
        ErrorKind::DeviceUnavailable => "no input device is available"@,
        ErrorKind::UnsupportedSampleFormat => "the input device uses an unsupported sample format"@,
        _ => "recording failed"@,
    }
}

/// Builds the error value for a session-lifecycle failure.
pub fn session_error(kind: ErrorKind) -> (r: SttError)
    ensures
        r.kind == kind,
        r.message@ == spec_session_message(kind),
{
    match kind {
        ErrorKind::AlreadyRecording => SttError::of_str(kind, "a recording is already in progress"),
        ErrorKind::NotRecording => SttError::of_str(kind, "no recording is in progress"),
        ErrorKind::PreviousSessionNotDone => SttError::of_str(
            kind,
            "the previous recording has not finished yet",
        ),
        ErrorKind::FinalizeTimeout => SttError::of_str(
            kind,
            "timed out waiting for the recording to finish",
        ),
        ErrorKind::DeviceUnavailable => SttError::of_str(kind, "no input device is available"),
        ErrorKind::UnsupportedSampleFormat => SttError::of_str(
            kind,
            "the input device uses an unsupported sample format",
        ),
        _ => SttError::of_str(kind, "recording failed"),
    }
}

impl RecordingSession {
    /// Session invariant: the meter is in range and silent whenever not
    /// recording; an active session has an output path; an idle session holds
    /// no sink; any held sink is well-formed.
    pub open spec fn inv(&self) -> bool {
        &&& self.meter.wf()
        &&& !(self.state is Recording) ==> self.meter.level == 0
        &&& (self.state is Recording || self.state is Finalizing) ==> self.output_path is Some
        &&& self.state is Idle ==> self.sink is None
        &&& match self.sink {
            Some(s) => s.wf(),
            None => true,
        }
    }

    /// A fresh, idle session.
    pub fn new() -> (r: RecordingSession)
        ensures
            r.inv(),
            r.state is Idle,
            r.output_path is None,
            r.pending_error is None,
            r.meter.level == 0,
    {
        RecordingSession {
            state: SessionState::Idle,
            output_path: None,
            meter: LevelMeter::new(),
            sink: None,
            pending_error: None,
            stop_ticks: 0,
        }
    }

    /// Whether a capture is currently recording.
    pub fn is_recording(&self) -> (r: bool)
        ensures
            r == (self.state is Recording),
    {
        matches!(self.state, SessionState::Recording)
    }

    /// The current smoothed audio level, in `0 ..= LEVEL_SCALE`; exactly 0
    /// whenever the session is not recording.
    pub fn get_audio_level(&self) -> (r: u32)
        requires
            self.inv(),
        ensures
            r == self.meter.level,
            r <= crate::LEVEL_SCALE,
            !(self.state is Recording) ==> r == 0,
    {
        self.meter.current()
    }

    /// Tries to begin a new capture writing to `path`. Fails without side
    /// effects while a session is recording or still finalizing; on success
    /// the session is recording, the level is reset, and no sink is attached
    /// yet (the worker attaches it with the device's negotiated format).
    pub fn try_start(&mut self, path: String) -> (r: Result<(), SttError>)
        requires
            old(self).inv(),
        ensures
            final(self).inv(),
            old(self).state is Recording ==> (r matches Err(e) && e.kind
                == ErrorKind::AlreadyRecording && *final(self) == *old(self)),
            old(self).state is Finalizing ==> (r matches Err(e) && e.kind
                == ErrorKind::PreviousSessionNotDone && *final(self) == *old(self)),
            old(self).state is Idle ==> (r is Ok && final(self).state is Recording && final(self).output_path == Some(path) && final(self).meter.level == 0 && final(self).sink is None
                && final(self).pending_error is None),
    {
        match self.state {
            SessionState::Recording => Err(session_error(ErrorKind::AlreadyRecording)),
            SessionState::Finalizing => Err(session_error(ErrorKind::PreviousSessionNotDone)),
            SessionState::Idle => {
                self.state = SessionState::Recording;
                self.output_path = Some(path);
                self.meter.reset();
                self.sink = None;
                self.pending_error = None;
                self.stop_ticks = 0;
                Ok(())
            },
        }
    }

    /// Signals the worker to stop. Fails with `NotRecording` when no capture
    /// is recording; if an earlier worker failure is pending, that failure is
    /// surfaced (and cleared) instead. On success the session is finalizing
    /// and the level reads 0.
    pub fn request_stop(&mut self) -> (r: Result<(), SttError>)
        requires
            old(self).inv(),
        ensures
            final(self).inv(),
            old(self).state is Recording ==> (r is Ok && final(self).state is Finalizing
                && final(self).meter.level == 0 && final(self).stop_ticks == 0 && final(self).output_path == old(self).output_path && final(self).sink == old(self).sink && final(self).pending_error == old(self).pending_error),
            old(self).state is Finalizing ==> (r matches Err(e) && e.kind
                == ErrorKind::NotRecording && *final(self) == *old(self)),
            old(self).state is Idle && old(self).pending_error is None ==> (r matches Err(e)
                && e.kind == ErrorKind::NotRecording && *final(self) == *old(self)),
            old(self).state is Idle ==> (old(self).pending_error matches Some(k) ==> (r matches
            Err(e) && e.kind == k && final(self).pending_error is None && final(self).state == old(self).state && final(self).output_path == old(self).output_path)),
    {
        match self.state {
            SessionState::Recording => {
                self.state = SessionState::Finalizing;
                self.meter.reset();
                self.stop_ticks = 0;
                Ok(())
            },
            SessionState::Finalizing => Err(session_error(ErrorKind::NotRecording)),
            SessionState::Idle => {
                match self.pending_error {
                    Some(kind) => {
                        self.pending_error = None;
                        Err(session_error(kind))
                    },
                    None => Err(session_error(ErrorKind::NotRecording)),
                }
            },
        }
    }

    /// One tick of the bounded wait for the worker to finish. Returns the
    /// recording's path once the worker has finalized; a pending worker
    /// failure once the session is idle without one having finished; the
    /// finalize-timeout failure when the tick budget is spent; and
    /// `KeepWaiting` otherwise, after counting the tick.
    pub fn stop_poll(&mut self) -> (r: StopPoll)
        requires
            old(self).inv(),
        ensures
            final(self).inv(),
            old(self).state is Idle ==> (old(self).pending_error matches Some(k) ==> (r matches
            StopPoll::Failed(e) && e.kind == k && final(self).pending_error is None)),
            old(self).state is Idle && old(self).pending_error is None ==> (old(self).output_path matches Some(p) ==> (r matches StopPoll::Finished(q) && q == p && *final(self) == *old(self))),
            old(self).state is Idle && old(self).pending_error is None && old(self).output_path
                is None ==> (r matches StopPoll::Failed(e) && e.kind == ErrorKind::NotRecording
                && *final(self) == *old(self)),
            !(old(self).state is Idle) && old(self).stop_ticks >= FINALIZE_WAIT_TICKS ==> (
            r matches StopPoll::Failed(e) && e.kind == ErrorKind::FinalizeTimeout && *final(self)
                == *old(self)),
            !(old(self).state is Idle) && old(self).stop_ticks < FINALIZE_WAIT_TICKS ==> (
            r matches StopPoll::KeepWaiting && final(self).stop_ticks == old(self).stop_ticks + 1
                && final(self).state == old(self).state && final(self).output_path == old(self).output_path && final(self).sink == old(self).sink && final(self).pending_error
                == old(self).pending_error),
    {
        match self.state {
            SessionState::Idle => {
                match self.pending_error {
                    Some(kind) => {
                        self.pending_error = None;
                        StopPoll::Failed(session_error(kind))
                    },
                    None => {
                        match &self.output_path {
                            Some(p) => StopPoll::Finished(p.clone()),
                            None => StopPoll::Failed(session_error(ErrorKind::NotRecording)),
                        }
                    },
                }
            },
            _ => {
                if self.stop_ticks >= FINALIZE_WAIT_TICKS {
                    StopPoll::Failed(session_error(ErrorKind::FinalizeTimeout))
                } else {
                    self.stop_ticks = self.stop_ticks + 1;
                    StopPoll::KeepWaiting
                }
            },
        }
    }

    /// Attaches the sink for the device's actual negotiated sample rate and
    /// channel count — never fixed constants. Rejected (no change) unless the
    /// session is recording, no sink is attached yet, and the format fields
    /// fit the container header.
    pub fn attach_device(&mut self, sample_rate: u32, channels: u16) -> (ok: bool)
        requires
            old(self).inv(),
        ensures
            final(self).inv(),
            ok <==> (old(self).state is Recording && old(self).sink is None && 1 <= channels
                <= 0x7fff && 1 <= sample_rate && sample_rate * channels * 2 <= u32::MAX),
            ok ==> (final(self).sink matches Some(s) && s.spec_sample_rate() == sample_rate
                && s.spec_channels() == channels && s.spec_samples() == Seq::<i16>::empty()
                && final(self).state == old(self).state && final(self).output_path == old(self).output_path && final(self).meter == old(self).meter && final(self).pending_error
                == old(self).pending_error),
            !ok ==> *final(self) == *old(self),
    {
        let is_rec = matches!(self.state, SessionState::Recording);
        let no_sink = self.sink.is_none();
        proof {
            assert((sample_rate as int) * (channels as int) <= 0xffff_ffff * 0xffff) by (
            nonlinear_arith)
                requires
                    0 <= sample_rate as int <= 0xffff_ffff,
                    0 <= channels as int <= 0xffff,
            ;
        }
        let format_ok = 1 <= channels && channels <= 0x7fff && 1 <= sample_rate && (sample_rate
            as u64) * (channels as u64) * 2 <= 0xffff_ffff;
        if is_rec && no_sink && format_ok {
            self.sink = Some(WavSink::new(sample_rate, channels));
            true
        } else {
            false
        }
    }

    /// Feeds one delivered buffer: written to the sink and metered only while
    /// the session is still recording with an attached sink that has room —
    /// a buffer racing in after stop is discarded, never written.
    pub fn accept_buffer(&mut self, samples: &Vec<i16>) -> (accepted: bool)
        requires
            old(self).inv(),
        ensures
            final(self).inv(),
            accepted <==> (old(self).state is Recording && samples@.len() > 0 && (match old(self).sink {
                Some(s) => s.spec_samples().len() + samples@.len() <= MAX_WAV_SAMPLES,
                None => false,
            })),
            accepted ==> (old(self).sink matches Some(s) && final(self).sink matches Some(t)
                && t.spec_samples() == s.spec_samples() + samples@ && t.spec_sample_rate()
                == s.spec_sample_rate() && t.spec_channels() == s.spec_channels() && final(self).meter.level == spec_level_step(old(self).meter.level as int, samples@) && final(self).state == old(self).state && final(self).output_path == old(self).output_path
                && final(self).pending_error == old(self).pending_error),
            !accepted ==> *final(self) == *old(self),
    {
        if !matches!(self.state, SessionState::Recording) {
            return false;
        }
        if samples.len() == 0 {
            return false;
        }
        if samples.len() > MAX_WAV_SAMPLES {
            return false;
        }
        match &mut self.sink {
            Some(sink) => {
                let room = sink.sample_count() <= MAX_WAV_SAMPLES - samples.len();
                if !room {
                    return false;
                }
                sink.append_buffer(samples);
                self.meter.observe(samples);
                true
            },
            None => false,
        }
    }

    /// The worker failed (no device, unsupported format, stream error): the
    /// session is over, the failure is kept to be surfaced on the next stop
    /// call, the level reads 0, and nothing will be written.
    pub fn report_failure(&mut self, kind: ErrorKind)
        requires
            old(self).inv(),
        ensures
            final(self).inv(),
            final(self).state is Idle,
            final(self).pending_error == Some(kind),
            final(self).meter.level == 0,
            final(self).sink is None,
            final(self).output_path == old(self).output_path,
    {
        self.state = SessionState::Idle;
        self.pending_error = Some(kind);
        self.meter.reset();
        self.sink = None;
    }

    /// Once stop has been requested, takes the sink and produces the complete
    /// WAV byte image — exactly once: the sink slot is empty afterwards, so a
    /// second call returns nothing. The caller writes the bytes to the output
    /// path and then marks the session complete.
    pub fn finalize_wav(&mut self) -> (r: Option<Vec<u8>>)
        requires
            old(self).inv(),
        ensures
            final(self).inv(),
            old(self).state is Finalizing ==> (old(self).sink matches Some(s) ==> (r matches Some(
                b,
            ) && b@ == spec_wav_bytes(s.spec_sample_rate(), s.spec_channels(), s.spec_samples())
                && wav_well_formed(b@) && final(self).sink is None && final(self).state == old(self).state && final(self).output_path == old(self).output_path && final(self).pending_error == old(self).pending_error && final(self).meter == old(self).meter)),
            !(old(self).state is Finalizing && old(self).sink is Some) ==> (r is None && *final(self) == *old(self)),
    {
        if !matches!(self.state, SessionState::Finalizing) {
            return None;
        }
        let sink = self.sink.take();
        match sink {
            Some(s) => {
                proof {
                    lemma_wav_bytes_well_formed(
                        s.spec_sample_rate(),
                        s.spec_channels(),
                        s.spec_samples(),
                    );
                }
                Some(s.finalize())
            },
            None => None,
        }
    }

    /// The worker wrote the finalized bytes to disk: the session returns to
    /// idle, and the output path stays readable until the next start.
    pub fn finalize_complete(&mut self)
        requires
            old(self).inv(),
        ensures
            final(self).inv(),
            old(self).state is Finalizing && old(self).sink is None ==> (final(self).state
                is Idle && final(self).output_path == old(self).output_path && final(self).pending_error == old(self).pending_error && final(self).meter == old(self).meter),
            !(old(self).state is Finalizing && old(self).sink is None) ==> *final(self) == *old(self),
    {
        if matches!(self.state, SessionState::Finalizing) && self.sink.is_none() {
            self.state = SessionState::Idle;
        }
    }
}

/// Whether a bounded wait has spent its tick budget.
pub fn wait_exhausted(ticks: u32) -> (r: bool)
    ensures
        r == (ticks >= FINALIZE_WAIT_TICKS),
{
    ticks >= FINALIZE_WAIT_TICKS
}


/// The file name a recording is written under: unique per process and start
/// instant.
pub open spec fn spec_recording_file_name(pid: int, millis: int) -> Seq<char> {
    "aitotype_recording_"@ + crate::errors::dec_str(pid) + "_"@ + crate::errors::dec_str(millis)
        + ".wav"@
}

/// Builds the recording file name from the process id and the start instant
/// in milliseconds since the epoch; the caller places it in the system
/// temporary directory.
pub fn recording_file_name(pid: u32, millis: u64) -> (r: String)
    ensures
        r@ == spec_recording_file_name(pid as int, millis as int),
{
    let mut out = "aitotype_recording_".to_owned();
    out.append(crate::errors::u32_to_dec(pid).as_str());
    out.append("_");
    out.append(crate::errors::u64_to_dec(millis).as_str());
    out.append(".wav");
    proof {
        assert(out@ =~= spec_recording_file_name(pid as int, millis as int));
    }
    out
}
} // verus!
