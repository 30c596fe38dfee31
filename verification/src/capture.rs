//! The audio-capture engine model: the per-session state machine the
//! dedicated capture thread walks through, the audited byte-to-word boundary
//! conversion, and the per-callback behavior — validate the buffer, hand the
//! samples to the sink only when its lock is free, and always feed the
//! amplitude estimator. The audio graph, the thread and the sink file are
//! driven by the surrounding program against these contracts.

use vstd::prelude::*;
use vstd::string::StringExecFns;

use crate::amplitude::{AmplitudeEstimator, as_ints, window_rms_seq};
use crate::error::TjvoxError;
use crate::strutil::{dec_str_of, u64_to_string};

verus! {

/// The life of one capture session: no transition may be skipped, and a stop
/// requested before capturing began still runs through `Stopping` to
/// `Stopped`.
#[derive(Debug, Clone, Copy, PartialEq, Eq, Structural)]
pub enum CapturePhase {
    Created,
    Connected,
    Capturing,
    Stopping,
    Stopped,
}

/// The little-endian 32-bit word starting at byte `4 * i`.
pub open spec fn le_word(b: Seq<u8>, i: int) -> int {
    b[4 * i] + 256 * b[4 * i + 1] + 65536 * b[4 * i + 2] + 16777216 * b[4 * i + 3]
}

/// The audited boundary conversion from a raw callback buffer to 32-bit
/// sample words: a buffer that is empty or not a whole number of words is
/// unusable and signalled as such, never read beyond its bounds.
pub fn words_of_bytes(bytes: &[u8]) -> (r: Option<Vec<u32>>)
    ensures
        r is Some <==> (bytes@.len() > 0 && bytes@.len() % 4 == 0),
        r matches Some(v) ==> v@.len() == bytes@.len() / 4 && forall|i: int|
            0 <= i < v@.len() ==> v@[i] == le_word(bytes@, i),
{
    let n = bytes.len();
    if n == 0 || n % 4 != 0 {
        return None;
    }
    let count = n / 4;
    let mut v: Vec<u32> = Vec::new();
    for i in 0..count
        invariant
            n == bytes@.len(),
            n % 4 == 0,
            count == n / 4,
            v@.len() == i,
            forall|j: int| 0 <= j < i ==> v@[j] == le_word(bytes@, j),
    {
        let b0 = bytes[4 * i] as u32;
        let b1 = bytes[4 * i + 1] as u32;
        let b2 = bytes[4 * i + 2] as u32;
        let b3 = bytes[4 * i + 3] as u32;
        let w: u32 = b0 + b1 * 256 + b2 * 65536 + b3 * 16777216;
        v.push(w);
    }
    Some(v)
}

/// What one audio callback hands back: the samples for the durable sink, if
/// its lock was free, and every loudness window the buffer completed. The
/// two outputs are independent: the estimator advances whether or not the
/// sink write goes ahead.
pub struct CallbackOutcome {
    pub sink_samples: Option<Vec<i32>>,
    pub amplitudes: Vec<u64>,
}

/// The window size in samples: 50 ms of audio across all channels.
pub open spec fn spec_window_samples(sample_rate: u32, channels: u8) -> int {
    (sample_rate as int / 20) * channels as int
}

pub struct CaptureEngine {
    pub phase: CapturePhase,
    /// The monotonic stop flag: written once by the control side, observed
    /// by every callback.
    pub should_stop: bool,
    pub estimator: AmplitudeEstimator,
    pub sample_rate: u32,
    pub channels: u8,
    /// Every sample handed to the sink so far, in order.
    pub written: Ghost<Seq<i32>>,
}

impl CaptureEngine {
    pub open spec fn wf(&self) -> bool {
        &&& self.estimator.wf()
        &&& self.estimator.window == spec_window_samples(self.sample_rate, self.channels)
        &&& self.sample_rate >= 20
        &&& self.channels >= 1
    }

    /// A new engine for one session, not yet connected to the audio graph.
    /// The sample rate must cover at least one 50 ms window, and the window
    /// must fit a machine word.
    pub fn new(sample_rate: u32, channels: u8) -> (r: Self)
        requires
            sample_rate >= 20,
            channels >= 1,
            spec_window_samples(sample_rate, channels) <= usize::MAX,
        ensures
            r.wf(),
            r.phase == CapturePhase::Created,
            r.should_stop == false,
            r.sample_rate == sample_rate,
            r.channels == channels,
            r.written@ == Seq::<i32>::empty(),
            r.estimator.buf@ == Seq::<i32>::empty(),
    {
        let per_channel = (sample_rate / 20) as usize;
        proof {
            assert(per_channel * (channels as usize) >= 1) by (nonlinear_arith)
                requires
                    per_channel >= 1,
                    (channels as usize) >= 1,
            ;
        }
        let window = per_channel * (channels as usize);
        CaptureEngine {
            phase: CapturePhase::Created,
            should_stop: false,
            estimator: AmplitudeEstimator::new(window),
            sample_rate,
            channels,
            written: Ghost(Seq::empty()),
        }
    }

    /// The audio-graph connection and format negotiation succeeded.
    pub fn connect(&mut self)
        requires
            old(self).phase == CapturePhase::Created,
        ensures
            *final(self) == (CaptureEngine { phase: CapturePhase::Connected, ..*old(self) }),
    {
        self.phase = CapturePhase::Connected;
    }

    /// The graph's event loop is running; callbacks may now arrive.
    pub fn begin_capture(&mut self)
        requires
            old(self).phase == CapturePhase::Connected,
        ensures
            *final(self) == (CaptureEngine { phase: CapturePhase::Capturing, ..*old(self) }),
    {
        self.phase = CapturePhase::Capturing;
    }

    /// The control side asks the session to stop. The flag only ever goes
    /// from false to true, and stopping is reachable from every phase that
    /// is not already past it — also before capturing ever began.
    pub fn request_stop(&mut self)
        requires
            old(self).phase != CapturePhase::Stopped,
        ensures
            *final(self) == (CaptureEngine {
                phase: CapturePhase::Stopping,
                should_stop: true,
                ..*old(self)
            }),
    {
        self.should_stop = true;
        self.phase = CapturePhase::Stopping;
    }

    /// What every callback checks first: whether to quit the event loop.
    pub fn stop_requested(&self) -> (r: bool)
        ensures
            r == self.should_stop,
    {
        self.should_stop
    }

    /// The capture thread has been joined and the sink flushed: terminal.
    pub fn finalize(&mut self)
        requires
            old(self).phase == CapturePhase::Stopping,
        ensures
            *final(self) == (CaptureEngine { phase: CapturePhase::Stopped, ..*old(self) }),
    {
        self.phase = CapturePhase::Stopped;
    }

    /// One callback's worth of work on an already-validated buffer. The sink
    /// receives exactly this buffer when its lock was free and nothing
    /// otherwise — a dropped buffer is dropped for good, never retried. The
    /// estimator consumes the buffer either way, and every window it
    /// completes comes back, in order.
    pub fn on_buffer(&mut self, samples: &[i32], sink_available: bool) -> (r: CallbackOutcome)
        requires
            old(self).wf(),
            old(self).phase == CapturePhase::Capturing,
        ensures
            final(self).wf(),
            final(self).phase == old(self).phase,
            final(self).should_stop == old(self).should_stop,
            final(self).sample_rate == old(self).sample_rate,
            final(self).channels == old(self).channels,
            r.sink_samples is Some <==> sink_available,
            r.sink_samples matches Some(v) ==> v@ == samples@,
            final(self).written@ == old(self).written@ + (if sink_available {
                samples@
            } else {
                Seq::<i32>::empty()
            }),
            as_ints(r.amplitudes@) == window_rms_seq(
                old(self).estimator.buf@ + samples@,
                old(self).estimator.window as int,
            ),
            final(self).estimator.window == old(self).estimator.window,
            final(self).estimator.buf@ == (old(self).estimator.buf@ + samples@).skip(
                r.amplitudes@.len() * old(self).estimator.window as int,
            ),
    {
        let amplitudes = self.estimator.feed(samples);
        let sink_samples: Option<Vec<i32>> = if sink_available {
            let mut copy: Vec<i32> = Vec::new();
            let n = samples.len();
            for i in 0..n
                invariant
                    n == samples@.len(),
                    copy@ == samples@.subrange(0, i as int),
            {
                copy.push(samples[i]);
                proof {
                    assert(copy@ =~= samples@.subrange(0, i + 1));
                }
            }
            proof {
                assert(copy@ =~= samples@);
            }
            Some(copy)
        } else {
            None
        };
        proof {
            let w = if sink_available {
                samples@
            } else {
                Seq::<i32>::empty()
            };
            self.written@ = self.written@ + w;
        }
        CallbackOutcome { sink_samples, amplitudes }
    }
}

/// A finalized recording shorter than this many bytes is a capture failure,
/// not a silent success.
pub const MIN_RECORDING_BYTES: u64 = 100;

/// The file name of one capture target, from its fresh identifier.
pub fn recording_file_name(id: &str) -> (r: String)
    ensures
        r@ == "recording_"@ + id@ + ".wav"@,
{
    String::from_str("recording_").concat(id).concat(".wav")
}

/// Accepts a finalized artifact only if it is non-trivially sized; a
/// near-empty recording is reported as a capture failure.
pub fn validate_artifact_size(len: u64) -> (r: Result<(), TjvoxError>)
    ensures
        r is Ok <==> len >= MIN_RECORDING_BYTES,
        r matches Err(e) ==> e matches TjvoxError::Capture(m) && m@
            == "Recording file is too small ("@ + dec_str_of(len as nat) + " bytes)"@,
{
    if len < MIN_RECORDING_BYTES {
        let n = u64_to_string(len);
        Err(TjvoxError::Capture(
            String::from_str("Recording file is too small (").concat(n.as_str()).concat(" bytes)"),
        ))
    } else {
        Ok(())
    }
}

} // verus!
