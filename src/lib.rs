//! Capture, visualise and encode audio: the sample buffer that a capture
//! callback fills, the amplitude rows drawn from each block, the stream
//! lifecycle, and the 16-bit PCM WAV encoding of what was recorded.
pub mod buffer;
pub mod capture;
pub mod visual;
pub mod wav;
