//! The device negotiator: choosing a concrete stream configuration from
//! what the default input device advertises.
//!
//! The hardware layer hands over the advertised configuration ranges (and,
//! when asked, the device's default configuration) as plain values; every
//! decision about which configuration a session uses is made — and proved —
//! here. An exact match on channel count and sample-rate range is preferred;
//! a device that advertises no match falls back to its default
//! configuration with the channel count clamped.

use vstd::prelude::*;

use crate::audio::recorder::RecorderError;

verus! {

/// One supported input configuration advertised by a device: a channel
/// count and an inclusive range of supported sample rates.
#[derive(Clone, Copy, Debug, PartialEq, Eq, Structural)]
pub struct SupportedConfigRange {
    pub channels: u16,
    pub min_sample_rate: u32,
    pub max_sample_rate: u32,
}

/// The concrete configuration a session records with. The stream's buffer
/// size is always left to the device default.
#[derive(Clone, Copy, Debug, PartialEq, Eq, Structural)]
pub struct NegotiatedConfig {
    pub channels: u16,
    pub sample_rate: u32,
}

/// Whether a candidate satisfies the request exactly: the same channel
/// count, and the requested rate inside the candidate's supported range.
pub open spec fn range_matches(c: SupportedConfigRange, sample_rate: u32, channels: u16) -> bool {
    c.channels == channels && c.min_sample_rate <= sample_rate && sample_rate
        <= c.max_sample_rate
}

/// Whether any advertised candidate matches the request.
pub open spec fn has_match(
    supported: Seq<SupportedConfigRange>,
    sample_rate: u32,
    channels: u16,
) -> bool {
    exists|i: int| 0 <= i < supported.len() && range_matches(supported[i], sample_rate, channels)
}

/// The fallback configuration when nothing matches: the requested rate,
/// with the channel count clamped to the device default's.
pub open spec fn fallback_config(
    sample_rate: u32,
    channels: u16,
    default_channels: u16,
) -> NegotiatedConfig {
    NegotiatedConfig {
        channels: if channels <= default_channels {
            channels
        } else {
            default_channels
        },
        sample_rate,
    }
}

/// What negotiation settles on: an exact match keeps the request as is; a
/// device default clamps the channel count; a device with neither fails
/// with `DeviceUnavailable`.
pub open spec fn negotiated(
    supported: Seq<SupportedConfigRange>,
    sample_rate: u32,
    channels: u16,
    default_channels: Option<u16>,
) -> Result<NegotiatedConfig, RecorderError> {
    if has_match(supported, sample_rate, channels) {
        Ok(NegotiatedConfig { channels, sample_rate })
    } else {
        match default_channels {
            Some(d) => Ok(fallback_config(sample_rate, channels, d)),
            None => Err(RecorderError::DeviceUnavailable),
        }
    }
}

/// Scans the advertised candidates in order and takes the first exact
/// match, built from the requested rate and channel count.
pub fn find_matching_config(
    sample_rate: u32,
    channels: u16,
    supported: &Vec<SupportedConfigRange>,
) -> (r: Option<NegotiatedConfig>)
    ensures
        r is Some <==> has_match(supported@, sample_rate, channels),
        r is Some ==> r == Some((NegotiatedConfig { channels, sample_rate })),
{
    let mut i: usize = 0;
    while i < supported.len()
        invariant
            0 <= i <= supported@.len(),
            forall|j: int| 0 <= j < i ==> !range_matches(supported@[j], sample_rate, channels),
        decreases supported@.len() - i,
    {
        let c = supported[i];
        if c.channels == channels && c.min_sample_rate <= sample_rate && sample_rate
            <= c.max_sample_rate {
            return Some(NegotiatedConfig { channels, sample_rate });
        }
        i += 1;
    }
    None
}

/// The fallback configuration, computed.
pub fn fallback(sample_rate: u32, channels: u16, default_channels: u16) -> (r: NegotiatedConfig)
    ensures
        r == fallback_config(sample_rate, channels, default_channels),
{
    let clamped: u16 = if channels <= default_channels {
        channels
    } else {
        default_channels
    };
    NegotiatedConfig { channels: clamped, sample_rate }
}

/// Selects the configuration for a new session. `supported` holds the
/// device's advertised input ranges; `default_channels` holds the channel
/// count of its default input configuration, when the device reports one.
pub fn negotiate(
    sample_rate: u32,
    channels: u16,
    supported: &Vec<SupportedConfigRange>,
    default_channels: Option<u16>,
) -> (r: Result<NegotiatedConfig, RecorderError>)
    ensures
        r == negotiated(supported@, sample_rate, channels, default_channels),
{
    match find_matching_config(sample_rate, channels, supported) {
        Some(c) => Ok(c),
        None => match default_channels {
            Some(d) => Ok(fallback(sample_rate, channels, d)),
            None => Err(RecorderError::DeviceUnavailable),
        },
    }
}

} // verus!
