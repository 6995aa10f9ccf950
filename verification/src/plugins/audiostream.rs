//! Audio streaming: the configuration of the audio backend.

use vstd::prelude::*;
use crate::error::ProtocolError;

verus! {

/// Audio backend configuration.
#[derive(Debug, Clone, Copy, PartialEq, Eq, Structural)]
pub struct BackendConfig {
    /// Sample rate in Hz.
    pub sample_rate: u32,
    /// Number of channels (1 = mono, 2 = stereo).
    pub channels: u8,
    /// Buffer size in samples per channel.
    pub buffer_size: usize,
}

impl Default for BackendConfig {
    /// 48 kHz stereo with a buffer of 10 ms.
    fn default() -> (config: BackendConfig)
        ensures
            config == (BackendConfig { sample_rate: 48000, channels: 2, buffer_size: 480 }),
    {
        BackendConfig { sample_rate: 48000, channels: 2, buffer_size: 480 }
    }
}

/// Where the backend is asked to run.
#[derive(Debug, Clone, Copy, PartialEq, Eq, Structural)]
pub enum Platform {
    Linux,
    Other,
}

/// Audio backend for PipeWire.
#[derive(Debug)]
pub struct AudioBackend {
    config: BackendConfig,
}

impl AudioBackend {
    /// The configuration the backend was made with.
    pub closed spec fn configuration(&self) -> BackendConfig {
        self.config
    }

    /// Creates the backend. Only Linux has the audio server it needs; on any
    /// other platform creation fails.
    pub fn new(config: BackendConfig, platform: Platform) -> (r: Result<AudioBackend, ProtocolError>)
        ensures
            match r {
                Ok(backend) => platform is Linux && backend.configuration() == config,
                Err(e) => !(platform is Linux) && e is MalformedPacket && e.message()
                    == "Audio backend not supported on this platform"@,
            },
    {
        match platform {
            Platform::Linux => Ok(AudioBackend { config }),
            Platform::Other => Err(
                ProtocolError::MalformedPacket(
                    "Audio backend not supported on this platform".to_owned(),
                ),
            ),
        }
    }

    /// Get current configuration.
    pub fn config(&self) -> (r: &BackendConfig)
        ensures
            *r == self.configuration(),
    {
        &self.config
    }
}

} // verus!
