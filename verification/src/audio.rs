//! The integer side of PCM analysis: the analyzer's configuration, its
//! checks, and how the bounded sample bus counts whole frames.

use vstd::prelude::*;
use crate::text::{decimal, decimal_string, owned};

verus! {

/// Audio frames in one analysis window.
pub const WINDOW_FRAMES: usize = 2048;

/// Audio frames the window advances by.
pub const HOP_FRAMES: usize = 1024;

/// Bars of the spectrum the renderer draws.
pub const SPECTRUM_BARS: usize = 48;

/// Audio frames the sample bus holds by default.
pub const DEFAULT_QUEUE_FRAMES: usize = 16384;

/// How the analyzer reads the decoded PCM.
#[derive(Clone, Copy, Debug)]
pub struct AnalysisConfig {
    pub sample_rate: u32,
    pub channels: usize,
    pub queue_frames: usize,
}

impl Default for AnalysisConfig {
    /// 44.1 kHz stereo with the default bus size.
    fn default() -> (c: Self)
        ensures
            c.sample_rate == 44100 && c.channels == 2 && c.queue_frames == DEFAULT_QUEUE_FRAMES,
    {
        AnalysisConfig { sample_rate: 44100, channels: 2, queue_frames: DEFAULT_QUEUE_FRAMES }
    }
}

/// Why a configuration is refused, if it is: a zero sample rate, no
/// channels, or a bus smaller than one analysis window.
pub open spec fn config_problem(c: AnalysisConfig) -> Option<Seq<char>> {
    if c.sample_rate == 0 {
        Some("analysis sample rate must be non-zero"@)
    } else if c.channels == 0 {
        Some("analysis channel count must be non-zero"@)
    } else if c.queue_frames < WINDOW_FRAMES {
        Some("analysis queue must hold at least "@ + decimal(WINDOW_FRAMES as nat) + " audio frames"@)
    } else {
        None
    }
}

/// Checks a configuration before the analyzer starts.
pub fn validate_analysis_config(config: &AnalysisConfig) -> (r: Result<(), String>)
    ensures
        match config_problem(*config) {
            Some(m) => r matches Err(e) && e@ == m,
            None => r is Ok,
        },
{
    if config.sample_rate == 0 {
        return Err(owned("analysis sample rate must be non-zero"));
    }
    if config.channels == 0 {
        return Err(owned("analysis channel count must be non-zero"));
    }
    if config.queue_frames < WINDOW_FRAMES {
        let mut m = owned("analysis queue must hold at least ");
        m.append(decimal_string(WINDOW_FRAMES as u128).as_str());
        m.append(" audio frames");
        return Err(m);
    }
    Ok(())
}

/// The capacity of the sample bus in samples: whole frames of every
/// channel.
pub fn queue_capacity(config: &AnalysisConfig) -> (samples: usize)
    requires
        config.queue_frames * config.channels <= usize::MAX,
    ensures
        samples == config.queue_frames * config.channels,
{
    config.queue_frames * config.channels
}

/// The samples of `len` that make up whole frames of `channels` samples;
/// a trailing partial frame is ignored.
pub fn complete_samples(len: usize, channels: usize) -> (n: usize)
    requires
        channels > 0,
    ensures
        n <= len,
        n % channels == 0,
        len - n < channels,
{
    proof {
        vstd::arithmetic::div_mod::lemma_fundamental_div_mod(len as int, channels as int);
        vstd::arithmetic::div_mod::lemma_mod_multiples_basic(len as int / channels as int, channels as int);
        assert((len as int / channels as int) * channels as int == channels as int * (len as int / channels as int)) by (nonlinear_arith);
    }
    len - len % channels
}

/// Whether the bus, holding `queued` of `capacity` samples, has room for a
/// whole frame.
pub fn frame_fits(capacity: usize, queued: usize, channels: usize) -> (b: bool)
    requires
        queued <= capacity,
    ensures
        b == (capacity - queued >= channels),
{
    capacity - queued >= channels
}

/// The frames dropped when the bus fills after `accepted` of the frames in
/// `complete` samples were taken.
pub fn dropped_frames_after(complete: usize, channels: usize, accepted: usize) -> (d: u64)
    requires
        channels > 0,
        accepted <= complete / channels,
    ensures
        d == complete / channels - accepted,
{
    (complete / channels - accepted) as u64
}

} // verus!
